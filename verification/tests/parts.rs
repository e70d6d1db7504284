use esp_layground::button::{Button, Press, DEBOUNCE_MS};
use esp_layground::bytes::{append, is_joined, to_vec};
use esp_layground::clock::{checked_period_ticks, period_ticks, BLINK_FREQ_HZ, SCAN_FREQ_HZ};
use esp_layground::color::{Rgb, DEFAULT_BRIGHTNESS};
use esp_layground::error::Error;
use esp_layground::http::{is_success, report_url, Client};
use esp_layground::infra::{Gate, State, Switch};
use esp_layground::light::{frame, Led, FRAME_BITS};
use esp_layground::message::Trigger;

#[test]
fn colour_word_is_green_red_blue() {
    assert_eq!(Rgb::new(1, 2, 4).word(), 0b00000010_00000001_00000100);
    assert_eq!(Rgb::new(0xAA, 0xBB, 0xCC).word(), 0x00BB_AACC);
    assert_eq!(Rgb::black().word(), 0);
    assert_eq!(u32::from(&Rgb::new(1, 2, 4)), 0x0002_0104);
    assert_eq!(u32::from(&Rgb::new(255, 255, 255)), 0x00FF_FFFF);
    assert_eq!(Rgb::green(), Rgb::new(0, DEFAULT_BRIGHTNESS, 0));
    assert_eq!(Rgb::red(), Rgb::new(DEFAULT_BRIGHTNESS, 0, 0));
    assert_eq!(DEFAULT_BRIGHTNESS, 25);
}

#[test]
fn frame_sends_the_highest_bit_first() {
    let bits = frame(&Rgb::new(1, 2, 4));
    assert_eq!(bits.len(), FRAME_BITS);
    let expected: Vec<bool> = "000000100000000100000100".chars().map(|c| c == '1').collect();
    assert_eq!(bits, expected);
    assert!(frame(&Rgb::new(0, 0x80, 0))[0]);
    assert!(frame(&Rgb::new(0, 0, 1))[23]);
    assert_eq!(frame(&Rgb::black()), vec![false; 24]);
}

#[test]
fn led_shows_its_colour_only_while_lit() {
    let mut led = Led::new();
    assert_eq!(led.shown(), Rgb::black());
    led.set_color(Rgb::green());
    assert_eq!(led.shown(), Rgb::black());
    led.on();
    assert_eq!(led.shown(), Rgb::green());
    assert_eq!(led.toggle(), Ok(()));
    assert_eq!(led.state, State::Off);
    assert_eq!(led.shown(), Rgb::black());
    assert_eq!(led.toggle(), Ok(()));
    assert_eq!(led.shown(), Rgb::green());
    led.off();
    assert_eq!(led.color, Rgb::green());
    assert_eq!(led.shown(), Rgb::black());
}

#[test]
fn a_press_flips_the_shared_flag() {
    let mut button = Button::new(Gate::new(State::On));
    assert_eq!(button.poll(false), None);
    assert!(button.gate.is_open());
    assert_eq!(button.poll(true), Some(Press { trigger: Trigger::ButtonPressed, pause_ms: 500 }));
    assert!(!button.gate.is_open());
    assert_eq!(button.poll(true).unwrap().pause_ms, DEBOUNCE_MS);
    assert!(button.gate.is_open());
}

#[test]
fn gate_toggles() {
    let mut gate = Gate::new(State::Off);
    assert!(!gate.is_open());
    assert_eq!(gate.toggle(), Ok(()));
    assert_eq!(gate.state, State::On);
    assert!(State::On.is_on());
    assert!(!State::Off.is_on());
}

#[test]
fn only_statuses_of_success_pass() {
    assert_eq!(Client::conclude(200), Ok(200));
    assert_eq!(Client::conclude(204), Ok(204));
    assert_eq!(Client::conclude(299), Ok(299));
    assert_eq!(Client::conclude(199), Err(Error::RequestFailed(199)));
    assert_eq!(Client::conclude(300), Err(Error::RequestFailed(300)));
    assert_eq!(Client::conclude(404), Err(Error::RequestFailed(404)));
    assert_eq!(Client::conclude(0), Err(Error::RequestFailed(0)));
    assert!(is_success(250));
    assert!(!is_success(500));
}

#[test]
fn no_report_while_the_network_is_down() {
    assert_eq!(Client::prepare(false, Some(&[1, 2])).unwrap_err(), Error::NetworkDown);
    let request = Client::prepare(true, Some(&[1, 2, 3])).unwrap();
    assert_eq!(request.body, vec![1, 2, 3]);
    assert_eq!(request.content_length, 3);
    let request = Client::prepare(true, None).unwrap();
    assert!(request.body.is_empty());
    assert_eq!(request.content_length, 0);
}

#[test]
fn period_is_ticks_by_frequency() {
    assert_eq!(period_ticks(1_000_000, BLINK_FREQ_HZ), 333_333);
    assert_eq!(period_ticks(1_000_000, SCAN_FREQ_HZ), 1_000_000);
    assert_eq!(period_ticks(5, 10), 0);
    assert_eq!(checked_period_ticks(80_000_000, 0), None);
    assert_eq!(checked_period_ticks(80_000_000, 4), Some(20_000_000));
}

#[test]
fn byte_helpers() {
    assert_eq!(to_vec(&[1, 2, 3]), vec![1, 2, 3]);
    let mut v = vec![1];
    append(&mut v, &[2, 3]);
    assert_eq!(v, vec![1, 2, 3]);
    assert!(is_joined(&[1, 2, 3], &[1], &[2, 3]));
    assert!(is_joined(&[], &[], &[]));
    assert!(!is_joined(&[1, 2, 3], &[1, 2, 3], &[3]));
    assert!(!is_joined(&[1, 2, 4], &[1], &[2, 3]));
    assert!(!is_joined(&[1, 2], &[1], &[2, 3]));
}

#[test]
fn report_goes_to_the_query_parameter() {
    assert_eq!(report_url("http://backend/report", "speed", "18.00"), "http://backend/report?speed=18.00");
    assert_eq!(report_url("", "", ""), "?=");
    let kmh = f32::from_bits(0x40A0_0000) * 3.6;
    assert_eq!(report_url("u", "v", &format!("{:.2}", kmh)), "u?v=18.00");
}
