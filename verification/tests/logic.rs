use esp_layground::ble::Advertiser;
use esp_layground::color::Rgb;
use esp_layground::error::Error;
use esp_layground::gps::Reading;
use esp_layground::infra;
use esp_layground::light::Led;
use esp_layground::logic::{Action, Peer, Role, State, StateMachine, Wanted};
use esp_layground::message::{Trigger, TriggerSet};

fn machine(role: Role, state: State) -> StateMachine {
    let switch = if state.is_on() { infra::State::On } else { infra::State::Off };
    StateMachine::new(role, state, Advertiser::new("Beacon", switch), Led::new())
}

fn set(triggers: &[Trigger]) -> TriggerSet {
    let mut s = TriggerSet::new();
    for t in triggers {
        s.insert(*t);
    }
    s
}

fn reading(speed: f32) -> Reading {
    Reading::new(49.0f64.to_bits(), 8.0f64.to_bits(), Some(speed.to_bits()))
}

#[test]
fn new_machine_shows_its_state() {
    let m = machine(Role::Client, State::On(None));
    assert_eq!(m.led.color, Rgb::green());
    assert_eq!(m.led.state, infra::State::On);
    assert!(!m.timer_on);
    assert_eq!(m.max_speed, 0);
    assert_eq!(m.advertiser.payload, None);
    let m = machine(Role::Server, State::Off);
    assert_eq!(m.led.color, Rgb::red());
}

#[test]
fn state_from_switch_state() {
    assert_eq!(State::from(infra::State::On), State::On(None));
    assert_eq!(State::from(infra::State::Off), State::Off);
    let state: State = infra::State::On.into();
    assert_eq!(state, State::On(None));
}

#[test]
fn colour_from_state() {
    assert_eq!(Rgb::from(&State::On(None)), Rgb::new(0, 25, 0));
    assert_eq!(Rgb::from(&State::On(Some(Peer::Active))), Rgb::new(0, 25, 0));
    assert_eq!(Rgb::from(&State::Off), Rgb::new(25, 0, 0));
    let rgb: Rgb = (&State::On(Some(Peer::Inactive))).into();
    assert_eq!(rgb, Rgb::new(25, 0, 0));
}

#[test]
fn button_while_off_switches_on() {
    let mut m = machine(Role::Client, State::Off);
    let mut slot = None;
    let action = m.run(&set(&[Trigger::ButtonPressed]), &mut slot, None);
    assert_eq!(action, Ok(Action::ToggleAdvertiser));
    assert_eq!(m.state, State::On(None));
    assert_eq!(m.led.color, Rgb::green());
    assert_eq!(m.led.shown(), Rgb::green());
    assert!(!m.timer_on);
    assert_eq!(m.advertiser.state, infra::State::On);
    assert_eq!(m.advertiser.advertisement().name, b"Beacon-Active".to_vec());
}

#[test]
fn button_wins_over_every_other_trigger() {
    for role in [Role::Client, Role::Server] {
        let mut m = machine(role, State::Off);
        let mut slot = Some(reading(3.0));
        let all = set(&[
            Trigger::ButtonPressed,
            Trigger::TimerTicked,
            Trigger::DeviceFoundActive,
            Trigger::DeviceFoundInactive,
            Trigger::DeviceNotFound,
            Trigger::PositionDataAvailable,
        ]);
        let action = m.handle_triggers(&all, &mut slot, Some(&[1, 2, 3]));
        assert_eq!(action, Ok(Action::ToggleAdvertiser));
        assert_eq!(m.state, State::On(None));
        assert_eq!(m.advertiser.state, infra::State::On);
        assert_eq!(slot, Some(reading(3.0)));
    }
}

#[test]
fn button_while_on_switches_off_from_every_sub_state() {
    for sub in [None, Some(Peer::Active), Some(Peer::Inactive)] {
        let mut m = machine(Role::Server, State::On(sub));
        let mut slot = None;
        let action = m.run(&set(&[Trigger::ButtonPressed]), &mut slot, None);
        assert_eq!(action, Ok(Action::ToggleAdvertiser));
        assert_eq!(m.state, State::Off);
        assert_eq!(m.advertiser.state, infra::State::Off);
        assert_eq!(m.led.color, Rgb::red());
        assert_eq!(m.led.state, infra::State::On);
        assert!(!m.timer_on);
    }
}

#[test]
fn timer_toggles_the_indicator_only_with_a_peer() {
    for sub in [Peer::Active, Peer::Inactive] {
        let mut m = machine(Role::Client, State::On(Some(sub)));
        let before = m.led.state;
        let mut slot = None;
        let action = m.handle_triggers(&set(&[Trigger::TimerTicked]), &mut slot, None);
        assert_eq!(action, Ok(Action::ToggleIndicator));
        assert_ne!(m.led.state, before);
        assert_eq!(m.led.shown(), Rgb::black());
        let action = m.handle_triggers(&set(&[Trigger::TimerTicked]), &mut slot, None);
        assert_eq!(action, Ok(Action::ToggleIndicator));
        assert_eq!(m.led.state, before);
        assert_eq!(m.state, State::On(Some(sub)));
    }
    for state in [State::Off, State::On(None)] {
        let mut m = machine(Role::Client, state);
        let led = m.led;
        let mut slot = None;
        let action = m.handle_triggers(&set(&[Trigger::TimerTicked]), &mut slot, None);
        assert_eq!(action, Ok(Action::Nothing));
        assert_eq!(m.led, led);
        assert_eq!(m.state, state);
    }
}

#[test]
fn client_takes_in_the_reading_on_the_way_into_active() {
    let mut m = machine(Role::Client, State::On(None));
    let mut slot = Some(reading(5.0));
    let action = m.run(&set(&[Trigger::DeviceFoundActive]), &mut slot, None);
    assert_eq!(action, Ok(Action::Advertise));
    assert_eq!(m.state, State::On(Some(Peer::Active)));
    assert_eq!(f32::from_bits(m.max_speed), 5.0);
    assert_eq!(m.advertiser.payload, Some(5.0f32.to_le_bytes().to_vec()));
    assert_eq!(m.advertiser.advertisement().vendor, Some(5.0f32.to_le_bytes().to_vec()));
    assert_eq!(slot, None);
    assert!(m.timer_on);
    assert_eq!(m.led.color, Rgb::green());
}

#[test]
fn active_edge_fires_once() {
    let mut m = machine(Role::Client, State::On(None));
    let mut slot = Some(reading(5.0));
    let first = m.run(&set(&[Trigger::DeviceFoundActive]), &mut slot, None);
    assert_eq!(first, Ok(Action::Advertise));
    let mut slot = Some(reading(9.0));
    let second = m.run(&set(&[Trigger::DeviceFoundActive]), &mut slot, None);
    assert_eq!(second, Ok(Action::Nothing));
    assert_eq!(f32::from_bits(m.max_speed), 5.0);
    assert_eq!(slot, Some(reading(9.0)));
    assert_eq!(m.state, State::On(Some(Peer::Active)));

    let mut s = machine(Role::Server, State::On(Some(Peer::Inactive)));
    let mut none = None;
    let active = set(&[Trigger::DeviceFoundActive]);
    assert_eq!(s.run(&active, &mut none, Some(&[0, 0, 160, 64])), Ok(Action::Report(0x40A0_0000)));
    assert_eq!(s.run(&active, &mut none, Some(&[0, 0, 160, 64])), Ok(Action::Nothing));
    assert_eq!(s.run(&active, &mut none, Some(&[1])), Ok(Action::Nothing));
}

#[test]
fn device_not_found_forgets_the_peer() {
    let mut m = machine(Role::Client, State::On(Some(Peer::Active)));
    let mut slot = None;
    let action = m.run(&set(&[Trigger::DeviceNotFound]), &mut slot, None);
    assert_eq!(action, Ok(Action::Nothing));
    assert_eq!(m.state, State::On(None));
    assert!(!m.timer_on);
    assert_eq!(m.led.state, infra::State::On);
    assert_eq!(m.led.color, Rgb::green());
}

#[test]
fn device_found_inactive_is_noted_while_on() {
    for sub in [None, Some(Peer::Active), Some(Peer::Inactive)] {
        let mut m = machine(Role::Server, State::On(sub));
        let mut slot = None;
        let action = m.run(&set(&[Trigger::DeviceFoundInactive]), &mut slot, None);
        assert_eq!(action, Ok(Action::Nothing));
        assert_eq!(m.state, State::On(Some(Peer::Inactive)));
        assert_eq!(m.led.color, Rgb::red());
        assert!(m.timer_on);
    }
}

#[test]
fn peers_are_ignored_while_off() {
    for t in [Trigger::DeviceFoundActive, Trigger::DeviceFoundInactive, Trigger::DeviceNotFound] {
        let mut m = machine(Role::Client, State::Off);
        let mut slot = Some(reading(2.0));
        let action = m.run(&set(&[t]), &mut slot, None);
        assert_eq!(action, Ok(Action::Nothing));
        assert_eq!(m.state, State::Off);
        assert_eq!(m.max_speed, 0);
        assert_eq!(slot, Some(reading(2.0)));
    }
}

#[test]
fn server_relays_a_received_payload() {
    let mut m = machine(Role::Server, State::On(None));
    let mut slot = None;
    let action = m.run(&set(&[Trigger::DeviceFoundActive]), &mut slot, Some(&[0, 0, 160, 64]));
    assert_eq!(action, Ok(Action::Report(5.0f32.to_bits())));
    assert_eq!(m.state, State::On(Some(Peer::Active)));
    assert_eq!(m.max_speed, 0);
}

#[test]
fn server_without_payload_only_changes_state() {
    let mut m = machine(Role::Server, State::On(None));
    let mut slot = None;
    let action = m.run(&set(&[Trigger::DeviceFoundActive]), &mut slot, None);
    assert_eq!(action, Ok(Action::Nothing));
    assert_eq!(m.state, State::On(Some(Peer::Active)));
}

#[test]
fn server_refuses_a_malformed_payload_and_stays() {
    let mut m = machine(Role::Server, State::On(None));
    let mut slot = None;
    let action = m.run(&set(&[Trigger::DeviceFoundActive]), &mut slot, Some(&[0, 0, 160]));
    assert_eq!(action, Err(Error::MalformedPayload(3)));
    assert_eq!(m.state, State::On(None));
    assert!(!m.timer_on);
}

#[test]
fn an_empty_set_is_an_error() {
    let mut m = machine(Role::Client, State::On(None));
    let mut slot = Some(reading(1.0));
    let action = m.run(&TriggerSet::new(), &mut slot, None);
    assert_eq!(action, Err(Error::UnknownTriggers));
    assert_eq!(m.state, State::On(None));
    assert_eq!(slot, Some(reading(1.0)));
}

#[test]
fn position_data_raises_the_maximum_and_never_lowers_it() {
    let mut m = machine(Role::Client, State::On(None));
    let position = set(&[Trigger::PositionDataAvailable]);
    let mut slot = Some(reading(3.0));
    assert_eq!(m.run(&position, &mut slot, None), Ok(Action::Advertise));
    assert_eq!(slot, None);
    assert_eq!(f32::from_bits(m.max_speed), 3.0);
    let mut slot = Some(reading(2.0));
    assert_eq!(m.run(&position, &mut slot, None), Ok(Action::Advertise));
    assert_eq!(f32::from_bits(m.max_speed), 3.0);
    assert_eq!(m.advertiser.payload, Some(3.0f32.to_le_bytes().to_vec()));
    let mut slot = Some(reading(7.5));
    assert_eq!(m.run(&position, &mut slot, None), Ok(Action::Advertise));
    assert_eq!(f32::from_bits(m.max_speed), 7.5);
    let mut slot = None;
    assert_eq!(m.run(&position, &mut slot, None), Ok(Action::Nothing));
    assert_eq!(f32::from_bits(m.max_speed), 7.5);
    assert_eq!(m.state, State::On(None));
}

#[test]
fn a_reading_without_speed_keeps_the_maximum() {
    let mut m = machine(Role::Client, State::On(None));
    let mut slot = Some(Reading::new(1, 2, None));
    let action = m.run(&set(&[Trigger::PositionDataAvailable]), &mut slot, None);
    assert_eq!(action, Ok(Action::Advertise));
    assert_eq!(m.max_speed, 0);
    assert_eq!(m.advertiser.payload, None);
    assert_eq!(slot, None);
}

#[test]
fn server_leaves_position_data_alone() {
    let mut m = machine(Role::Server, State::On(None));
    let mut slot = Some(reading(3.0));
    let action = m.run(&set(&[Trigger::PositionDataAvailable]), &mut slot, None);
    assert_eq!(action, Ok(Action::Nothing));
    assert_eq!(slot, Some(reading(3.0)));
    assert_eq!(m.max_speed, 0);
}

#[test]
fn only_the_button_from_off_resets_the_client_maximum() {
    let mut m = machine(Role::Client, State::On(None));
    let mut slot = Some(reading(4.0));
    m.run(&set(&[Trigger::PositionDataAvailable]), &mut slot, None).unwrap();
    let mut none = None;
    m.run(&set(&[Trigger::DeviceFoundInactive]), &mut none, None).unwrap();
    m.run(&set(&[Trigger::DeviceNotFound]), &mut none, None).unwrap();
    assert_eq!(m.state, State::On(None));
    assert_eq!(f32::from_bits(m.max_speed), 4.0);
    m.run(&set(&[Trigger::ButtonPressed]), &mut none, None).unwrap();
    assert_eq!(m.state, State::Off);
    assert_eq!(f32::from_bits(m.max_speed), 4.0);
    assert_eq!(m.advertiser.payload, Some(4.0f32.to_le_bytes().to_vec()));
    m.run(&set(&[Trigger::ButtonPressed]), &mut none, None).unwrap();
    assert_eq!(m.state, State::On(None));
    assert_eq!(m.max_speed, 0);
    assert_eq!(m.advertiser.payload, None);
}

#[test]
fn wants_names_the_slot_a_cycle_reads() {
    let client = machine(Role::Client, State::On(None));
    let server = machine(Role::Server, State::On(Some(Peer::Inactive)));
    let active = set(&[Trigger::DeviceFoundActive, Trigger::TimerTicked]);
    assert_eq!(client.wants(&active), Wanted::Reading);
    assert_eq!(server.wants(&active), Wanted::Payload);
    assert_eq!(client.wants(&set(&[Trigger::PositionDataAvailable])), Wanted::Reading);
    assert_eq!(server.wants(&set(&[Trigger::PositionDataAvailable])), Wanted::Nothing);
    assert_eq!(client.wants(&set(&[Trigger::ButtonPressed, Trigger::DeviceFoundActive])), Wanted::Nothing);
    assert_eq!(machine(Role::Client, State::Off).wants(&active), Wanted::Nothing);
    assert_eq!(machine(Role::Server, State::On(Some(Peer::Active))).wants(&active), Wanted::Nothing);
    assert_eq!(client.wants(&TriggerSet::new()), Wanted::Nothing);
}

#[test]
fn colours_follow_the_state() {
    assert_eq!(State::On(None).color(), Rgb::green());
    assert_eq!(State::On(Some(Peer::Active)).color(), Rgb::green());
    assert_eq!(State::Off.color(), Rgb::red());
    assert_eq!(State::On(Some(Peer::Inactive)).color(), Rgb::red());
    assert!(State::On(Some(Peer::Inactive)).has_peer());
    assert!(!State::On(None).has_peer());
    assert!(!State::Off.has_peer());
}
