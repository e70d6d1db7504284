use vstd::prelude::*;

use crate::ble::{payload_view, Advertiser, AdvertiserView};
use crate::color::{green, red, Rgb};
use crate::error::Error;
use crate::gps::Reading;
use crate::infra;
use crate::infra::Switch;
use crate::light::Led;
use crate::message::{Trigger, TriggerSet};
use crate::telemetry::{
    decode, encode, fold_speed, spec_decode, spec_encode, spec_fold_speed, spec_is_ordered,
};

verus! {

/// What is known of the peer while the device is on.
#[derive(Clone, Copy, Debug, PartialEq, Eq, Structural)]
pub enum Peer {
    Active,
    Inactive,
}

/// The operational state. A peer is known only while the device is on.
#[derive(Clone, Copy, Debug, PartialEq, Eq, Structural)]
pub enum State {
    On(Option<Peer>),
    Off,
}

/// Which of the two personas a device plays.
#[derive(Clone, Copy, Debug, PartialEq, Eq, Structural)]
pub enum Role {
    /// Tracks its own speed and advertises the maximum.
    Client,
    /// Relays the maximum it receives to the backend.
    Server,
}

/// What the caller has to carry out after a cycle, from the models that the
/// state machine holds.
#[derive(Clone, Copy, Debug, PartialEq, Eq, Structural)]
pub enum Action {
    /// Nothing happened that the outside world has to learn of.
    Nothing,
    /// The advertiser was toggled, once: start over with its advertisement.
    ToggleAdvertiser,
    /// The indicator was toggled, once: show what it shows now.
    ToggleIndicator,
    /// The payload was composed anew: start over with the advertisement.
    Advertise,
    /// Relay this speed to the backend.
    Report(u32),
}

impl State {
    pub open spec fn spec_is_on(&self) -> bool {
        *self != State::Off
    }

    #[verifier::when_used_as_spec(spec_is_on)]
    pub fn is_on(&self) -> (on: bool)
        ensures
            on == self.spec_is_on(),
    {
        match self {
            State::On(_) => true,
            State::Off => false,
        }
    }

    /// Whether a peer is known: then, and only then, the indicator blinks.
    pub open spec fn spec_has_peer(&self) -> bool {
        *self matches State::On(Some(_))
    }

    #[verifier::when_used_as_spec(spec_has_peer)]
    pub fn has_peer(&self) -> (known: bool)
        ensures
            known == self.spec_has_peer(),
    {
        match self {
            State::On(Some(_)) => true,
            _ => false,
        }
    }

    /// Green while on without an inactive peer in sight, else red.
    pub open spec fn spec_color(&self) -> Rgb {
        match self {
            State::On(None) | State::On(Some(Peer::Active)) => green(),
            State::Off | State::On(Some(Peer::Inactive)) => red(),
        }
    }

    #[verifier::when_used_as_spec(spec_color)]
    pub fn color(&self) -> (rgb: Rgb)
        ensures
            rgb == self.spec_color(),
    {
        match self {
            State::On(None) | State::On(Some(Peer::Active)) => Rgb::green(),
            State::Off | State::On(Some(Peer::Inactive)) => Rgb::red(),
        }
    }
}

impl From<&State> for Rgb {
    fn from(state: &State) -> (rgb: Rgb) {
        state.color()
    }
}

impl vstd::std_specs::convert::FromSpecImpl<&State> for Rgb {
    open spec fn obeys_from_spec() -> bool {
        true
    }

    open spec fn from_spec(state: &State) -> Rgb {
        state.spec_color()
    }
}

impl From<infra::State> for State {
    fn from(state: infra::State) -> (s: State) {
        match state {
            infra::State::On => State::On(None),
            infra::State::Off => State::Off,
        }
    }
}

impl vstd::std_specs::convert::FromSpecImpl<infra::State> for State {
    open spec fn obeys_from_spec() -> bool {
        true
    }

    open spec fn from_spec(state: infra::State) -> State {
        match state {
            infra::State::On => State::On(None),
            infra::State::Off => State::Off,
        }
    }
}

/// The control core: the operational state, the client's maximum speed, and
/// the advertiser, indicator and blink timer as it last set them.
#[derive(Debug)]
pub struct StateMachine {
    pub role: Role,
    pub state: State,
    pub max_speed: u32,
    pub advertiser: Advertiser,
    pub led: Led,
    pub timer_on: bool,
}

/// A state machine as mathematics.
pub struct MachineView {
    pub role: Role,
    pub state: State,
    pub max_speed: u32,
    pub advertiser: AdvertiserView,
    pub led: Led,
    pub timer_on: bool,
}

/// How a cycle ends: the machine, the reading slot, and what is left to do.
pub struct Outcome {
    pub machine: MachineView,
    pub reading: Option<Reading>,
    pub action: Action,
}

impl View for StateMachine {
    type V = MachineView;

    open spec fn view(&self) -> MachineView {
        MachineView {
            role: self.role,
            state: self.state,
            max_speed: self.max_speed,
            advertiser: self.advertiser@,
            led: self.led,
            timer_on: self.timer_on,
        }
    }
}

/// The one trigger of a drained set that is handled: the first that is
/// there of button, active peer, inactive peer, no peer, timer, position.
/// The others of that set are dropped.
pub open spec fn selected(triggers: Set<Trigger>) -> Option<Trigger> {
    if triggers.contains(Trigger::ButtonPressed) {
        Some(Trigger::ButtonPressed)
    } else if triggers.contains(Trigger::DeviceFoundActive) {
        Some(Trigger::DeviceFoundActive)
    } else if triggers.contains(Trigger::DeviceFoundInactive) {
        Some(Trigger::DeviceFoundInactive)
    } else if triggers.contains(Trigger::DeviceNotFound) {
        Some(Trigger::DeviceNotFound)
    } else if triggers.contains(Trigger::TimerTicked) {
        Some(Trigger::TimerTicked)
    } else if triggers.contains(Trigger::PositionDataAvailable) {
        Some(Trigger::PositionDataAvailable)
    } else {
        None
    }
}

impl MachineView {
    /// The machine after a reading was taken in: its speed, if it has one,
    /// raises the maximum, and the payload is composed from the maximum.
    pub open spec fn with_reading(self, reading: Reading) -> MachineView {
        let max_speed = match reading.speed {
            Some(speed) => spec_fold_speed(self.max_speed, speed),
            None => self.max_speed,
        };
        MachineView {
            max_speed,
            advertiser: AdvertiserView { payload: spec_encode(max_speed), ..self.advertiser },
            ..self
        }
    }

    /// The button toggles between off and on without a peer, and toggles the
    /// advertiser. A client that is switched on starts a new maximum.
    pub open spec fn on_button_pressed(self, reading: Option<Reading>) -> Outcome {
        let toggled = AdvertiserView {
            state: self.advertiser.state.flipped(),
            ..self.advertiser
        };
        let machine = match self.state {
            State::Off => if self.role == Role::Client {
                MachineView {
                    state: State::On(None),
                    max_speed: 0,
                    advertiser: AdvertiserView { payload: None, ..toggled },
                    ..self
                }
            } else {
                MachineView { state: State::On(None), advertiser: toggled, ..self }
            },
            State::On(_) => MachineView { state: State::Off, advertiser: toggled, ..self },
        };
        Outcome { machine, reading, action: Action::ToggleAdvertiser }
    }

    /// An active peer matters only on the way into `On(Active)`: there a
    /// client takes in a pending reading, and a server relays a received
    /// payload, which must have four bytes.
    pub open spec fn on_device_found_active(
        self,
        reading: Option<Reading>,
        payload: Option<Seq<u8>>,
    ) -> Result<Outcome, Error> {
        let active = State::On(Some(Peer::Active));
        match self.state {
            State::Off | State::On(Some(Peer::Active)) => Ok(
                Outcome { machine: self, reading, action: Action::Nothing },
            ),
            _ => match self.role {
                Role::Client => match reading {
                    Some(r) => Ok(
                        Outcome {
                            machine: MachineView { state: active, ..self.with_reading(r) },
                            reading: None,
                            action: Action::Advertise,
                        },
                    ),
                    None => Ok(
                        Outcome {
                            machine: MachineView { state: active, ..self },
                            reading,
                            action: Action::Nothing,
                        },
                    ),
                },
                Role::Server => match payload {
                    Some(bytes) => match spec_decode(bytes) {
                        Ok(speed) => Ok(
                            Outcome {
                                machine: MachineView { state: active, ..self },
                                reading,
                                action: Action::Report(speed),
                            },
                        ),
                        Err(e) => Err(e),
                    },
                    None => Ok(
                        Outcome {
                            machine: MachineView { state: active, ..self },
                            reading,
                            action: Action::Nothing,
                        },
                    ),
                },
            },
        }
    }

    /// An inactive peer is noted while the device is on.
    pub open spec fn on_device_found_inactive(self, reading: Option<Reading>) -> Outcome {
        let state = match self.state {
            State::Off => State::Off,
            State::On(_) => State::On(Some(Peer::Inactive)),
        };
        Outcome { machine: MachineView { state, ..self }, reading, action: Action::Nothing }
    }

    /// Without a peer in sight a device that is on knows of none.
    pub open spec fn on_device_not_found(self, reading: Option<Reading>) -> Outcome {
        let state = match self.state {
            State::Off => State::Off,
            State::On(_) => State::On(None),
        };
        Outcome { machine: MachineView { state, ..self }, reading, action: Action::Nothing }
    }

    /// A tick toggles the indicator while a peer is known, and only then.
    pub open spec fn on_timer_ticked(self, reading: Option<Reading>) -> Outcome {
        if self.state.spec_has_peer() {
            Outcome {
                machine: MachineView {
                    led: Led { color: self.led.color, state: self.led.state.flipped() },
                    ..self
                },
                reading,
                action: Action::ToggleIndicator,
            }
        } else {
            Outcome { machine: self, reading, action: Action::Nothing }
        }
    }

    /// A client drains the reading slot and takes in what was there. A
    /// server has no position sensor and leaves everything as it is.
    pub open spec fn on_position_data(self, reading: Option<Reading>) -> Outcome {
        match (self.role, reading) {
            (Role::Client, Some(r)) => Outcome {
                machine: self.with_reading(r),
                reading: None,
                action: Action::Advertise,
            },
            _ => Outcome { machine: self, reading, action: Action::Nothing },
        }
    }

    /// One drained set against the current state. A set with none of the
    /// six triggers is an error.
    pub open spec fn handle(
        self,
        triggers: Set<Trigger>,
        reading: Option<Reading>,
        payload: Option<Seq<u8>>,
    ) -> Result<Outcome, Error> {
        match selected(triggers) {
            Some(Trigger::ButtonPressed) => Ok(self.on_button_pressed(reading)),
            Some(Trigger::DeviceFoundActive) => self.on_device_found_active(reading, payload),
            Some(Trigger::DeviceFoundInactive) => Ok(self.on_device_found_inactive(reading)),
            Some(Trigger::DeviceNotFound) => Ok(self.on_device_not_found(reading)),
            Some(Trigger::TimerTicked) => Ok(self.on_timer_ticked(reading)),
            Some(Trigger::PositionDataAvailable) => Ok(self.on_position_data(reading)),
            None => Err(Error::UnknownTriggers),
        }
    }

    /// The machine after its state was shown: the indicator takes the
    /// state's colour; without a known peer the timer stops and the
    /// indicator is lit, with one the timer runs.
    pub open spec fn projected(self) -> MachineView {
        if self.state.spec_has_peer() {
            MachineView {
                led: Led { color: self.state.spec_color(), state: self.led.state },
                timer_on: true,
                ..self
            }
        } else {
            MachineView {
                led: Led { color: self.state.spec_color(), state: infra::State::On },
                timer_on: false,
                ..self
            }
        }
    }

    /// One whole cycle: the drained set is handled, then the state is shown.
    pub open spec fn cycle(
        self,
        triggers: Set<Trigger>,
        reading: Option<Reading>,
        payload: Option<Seq<u8>>,
    ) -> Result<Outcome, Error> {
        match self.handle(triggers, reading, payload) {
            Ok(o) => Ok(Outcome { machine: o.machine.projected(), ..o }),
            Err(e) => Err(e),
        }
    }
}

/// Whether an exec result and the slot after it are what the model says.
pub open spec fn agrees(
    result: Result<Action, Error>,
    machine: MachineView,
    reading: Option<Reading>,
    expected: Result<Outcome, Error>,
    before: MachineView,
    reading_before: Option<Reading>,
) -> bool {
    match expected {
        Ok(o) => result == Ok::<Action, Error>(o.action) && machine == o.machine && reading
            == o.reading,
        Err(e) => result == Err::<Action, Error>(e) && machine == before && reading
            == reading_before,
    }
}

impl StateMachine {
    /// A machine in `state` with a maximum of zero and no payload, whose
    /// indicator shows the state.
    pub fn new(role: Role, state: State, advertiser: Advertiser, led: Led) -> (machine:
        StateMachine)
        ensures
            machine@ == (MachineView {
                role,
                state,
                max_speed: 0,
                advertiser: AdvertiserView { payload: None, ..advertiser@ },
                led: Led { color: state.spec_color(), state: infra::State::On },
                timer_on: false,
            }),
    {
        let mut advertiser = advertiser;
        advertiser.set_payload(None);
        let mut led = led;
        led.set_color(state.color());
        led.on();
        StateMachine { role, state, max_speed: 0, advertiser, led, timer_on: false }
    }

    fn take_in(&mut self, reading: Reading)
        ensures
            final(self)@ == old(self)@.with_reading(reading),
    {
        if let Some(speed) = reading.speed {
            self.max_speed = fold_speed(self.max_speed, speed);
        }
        self.advertiser.set_payload(encode(self.max_speed));
    }

    fn handle_button_pressed(&mut self)
        ensures
            final(self)@ == old(self)@.on_button_pressed(None).machine,
    {
        match self.state {
            State::Off => {
                self.state = State::On(None);
                if self.role == Role::Client {
                    self.max_speed = 0;
                    self.advertiser.set_payload(None);
                }
            },
            State::On(_) => {
                self.state = State::Off;
            },
        }
        let _ = self.advertiser.toggle();
    }

    fn handle_device_found_active(
        &mut self,
        reading: &mut Option<Reading>,
        payload: Option<&[u8]>,
    ) -> (r: Result<Action, Error>)
        ensures
            agrees(
                r,
                final(self)@,
                *final(reading),
                old(self)@.on_device_found_active(
                    *old(reading),
                    match payload {
                        Some(bytes) => Some(bytes@),
                        None => None,
                    },
                ),
                old(self)@,
                *old(reading),
            ),
    {
        match self.state {
            State::Off | State::On(Some(Peer::Active)) => Ok(Action::Nothing),
            _ => {
                let action = match self.role {
                    Role::Client => match reading.take() {
                        Some(r) => {
                            self.take_in(r);
                            Action::Advertise
                        },
                        None => Action::Nothing,
                    },
                    Role::Server => match payload {
                        Some(bytes) => match decode(bytes) {
                            Ok(speed) => Action::Report(speed),
                            Err(e) => {
                                return Err(e);
                            },
                        },
                        None => Action::Nothing,
                    },
                };
                self.state = State::On(Some(Peer::Active));
                Ok(action)
            },
        }
    }

    fn handle_device_found_inactive(&mut self)
        ensures
            final(self)@ == old(self)@.on_device_found_inactive(None).machine,
    {
        self.state = match self.state {
            State::Off => State::Off,
            State::On(_) => State::On(Some(Peer::Inactive)),
        };
    }

    fn handle_device_not_found(&mut self)
        ensures
            final(self)@ == old(self)@.on_device_not_found(None).machine,
    {
        self.state = match self.state {
            State::Off => State::Off,
            State::On(_) => State::On(None),
        };
    }

    fn handle_timer_ticked(&mut self) -> (action: Action)
        ensures
            final(self)@ == old(self)@.on_timer_ticked(None).machine,
            action == old(self)@.on_timer_ticked(None).action,
    {
        if self.state.has_peer() {
            let _ = self.led.toggle();
            Action::ToggleIndicator
        } else {
            Action::Nothing
        }
    }

    fn handle_position_data(&mut self, reading: &mut Option<Reading>) -> (action: Action)
        ensures
            final(self)@ == old(self)@.on_position_data(*old(reading)).machine,
            *final(reading) == old(self)@.on_position_data(*old(reading)).reading,
            action == old(self)@.on_position_data(*old(reading)).action,
    {
        if self.role == Role::Client {
            match reading.take() {
                Some(r) => {
                    self.take_in(r);
                    Action::Advertise
                },
                None => Action::Nothing,
            }
        } else {
            Action::Nothing
        }
    }

    /// Which slot the next cycle will look into for a drained set.
    pub fn wants(&self, triggers: &TriggerSet) -> (wanted: Wanted)
        ensures
            wanted == spec_wanted(self@, triggers@),
    {
        if triggers.contains(Trigger::ButtonPressed) {
            Wanted::Nothing
        } else if triggers.contains(Trigger::DeviceFoundActive) {
            match self.state {
                State::Off | State::On(Some(Peer::Active)) => Wanted::Nothing,
                _ => match self.role {
                    Role::Client => Wanted::Reading,
                    Role::Server => Wanted::Payload,
                },
            }
        } else if triggers.contains(Trigger::DeviceFoundInactive) || triggers.contains(
            Trigger::DeviceNotFound,
        ) || triggers.contains(Trigger::TimerTicked) {
            Wanted::Nothing
        } else if triggers.contains(Trigger::PositionDataAvailable) && self.role
            == Role::Client {
            Wanted::Reading
        } else {
            Wanted::Nothing
        }
    }

    /// Handles one drained set: the first of its triggers in the order of
    /// `selected`, against the current state. `reading` is the reading slot,
    /// which is drained where a reading is taken in; `payload` is what the
    /// scanner last received. On an error nothing has changed.
    pub fn handle_triggers(
        &mut self,
        triggers: &TriggerSet,
        reading: &mut Option<Reading>,
        payload: Option<&[u8]>,
    ) -> (r: Result<Action, Error>)
        ensures
            agrees(
                r,
                final(self)@,
                *final(reading),
                old(self)@.handle(
                    triggers@,
                    *old(reading),
                    match payload {
                        Some(bytes) => Some(bytes@),
                        None => None,
                    },
                ),
                old(self)@,
                *old(reading),
            ),
    {
        if triggers.contains(Trigger::ButtonPressed) {
            self.handle_button_pressed();
            Ok(Action::ToggleAdvertiser)
        } else if triggers.contains(Trigger::DeviceFoundActive) {
            self.handle_device_found_active(reading, payload)
        } else if triggers.contains(Trigger::DeviceFoundInactive) {
            self.handle_device_found_inactive();
            Ok(Action::Nothing)
        } else if triggers.contains(Trigger::DeviceNotFound) {
            self.handle_device_not_found();
            Ok(Action::Nothing)
        } else if triggers.contains(Trigger::TimerTicked) {
            Ok(self.handle_timer_ticked())
        } else if triggers.contains(Trigger::PositionDataAvailable) {
            Ok(self.handle_position_data(reading))
        } else {
            Err(Error::UnknownTriggers)
        }
    }

    /// Shows the state on indicator and timer.
    pub fn project(&mut self)
        ensures
            final(self)@ == old(self)@.projected(),
    {
        self.led.set_color(self.state.color());
        if self.state.has_peer() {
            self.timer_on = true;
        } else {
            self.timer_on = false;
            self.led.on();
        }
    }

    /// One turn of the control loop for a drained set: handle it, then show
    /// the state. On an error nothing has changed.
    pub fn run(
        &mut self,
        triggers: &TriggerSet,
        reading: &mut Option<Reading>,
        payload: Option<&[u8]>,
    ) -> (r: Result<Action, Error>)
        ensures
            agrees(
                r,
                final(self)@,
                *final(reading),
                old(self)@.cycle(
                    triggers@,
                    *old(reading),
                    match payload {
                        Some(bytes) => Some(bytes@),
                        None => None,
                    },
                ),
                old(self)@,
                *old(reading),
            ),
    {
        let action = self.handle_triggers(triggers, reading, payload)?;
        self.project();
        Ok(action)
    }
}

/// A slot that a cycle looks into.
#[derive(Clone, Copy, Debug, PartialEq, Eq, Structural)]
pub enum Wanted {
    Nothing,
    /// The latest position fix.
    Reading,
    /// The payload that the scanner last received.
    Payload,
}

/// The slot on which the outcome of a cycle depends.
pub open spec fn spec_wanted(machine: MachineView, triggers: Set<Trigger>) -> Wanted {
    match selected(triggers) {
        Some(Trigger::DeviceFoundActive) => match machine.state {
            State::Off | State::On(Some(Peer::Active)) => Wanted::Nothing,
            _ => match machine.role {
                Role::Client => Wanted::Reading,
                Role::Server => Wanted::Payload,
            },
        },
        Some(Trigger::PositionDataAvailable) => match machine.role {
            Role::Client => Wanted::Reading,
            Role::Server => Wanted::Nothing,
        },
        _ => Wanted::Nothing,
    }
}

/// The button switches a device that is off to on without a peer, whatever
/// else the drained set holds, and toggles the advertiser once. A client
/// starts with a maximum of zero and without payload.
pub proof fn lemma_button_switches_on(
    machine: MachineView,
    triggers: Set<Trigger>,
    reading: Option<Reading>,
    payload: Option<Seq<u8>>,
)
    requires
        triggers.contains(Trigger::ButtonPressed),
        machine.state == State::Off,
    ensures
        machine.handle(triggers, reading, payload) matches Ok(o) && {
            &&& o.machine.state == State::On(None)
            &&& o.action == Action::ToggleAdvertiser
            &&& o.machine.advertiser.state == machine.advertiser.state.flipped()
            &&& o.machine.advertiser.name == machine.advertiser.name
            &&& o.reading == reading
            &&& machine.role == Role::Client ==> o.machine.max_speed == 0
                && o.machine.advertiser.payload is None
            &&& machine.role == Role::Server ==> o.machine.max_speed == machine.max_speed
                && o.machine.advertiser.payload == machine.advertiser.payload
        },
        machine.cycle(triggers, reading, payload) matches Ok(o) && {
            &&& o.machine.state == State::On(None)
            &&& o.action == Action::ToggleAdvertiser
            &&& o.machine.led == (Led { color: green(), state: infra::State::On })
            &&& !o.machine.timer_on
        },
{
}

/// The button switches a device that is on to off, whatever peer it knew of,
/// and toggles the advertiser once. The maximum stays.
pub proof fn lemma_button_switches_off(
    machine: MachineView,
    triggers: Set<Trigger>,
    reading: Option<Reading>,
    payload: Option<Seq<u8>>,
)
    requires
        triggers.contains(Trigger::ButtonPressed),
        machine.state.spec_is_on(),
    ensures
        machine.handle(triggers, reading, payload) matches Ok(o) && {
            &&& o.machine.state == State::Off
            &&& o.action == Action::ToggleAdvertiser
            &&& o.machine.advertiser.state == machine.advertiser.state.flipped()
            &&& o.machine.max_speed == machine.max_speed
            &&& o.machine.advertiser.payload == machine.advertiser.payload
        },
{
}

/// A tick that is handled toggles the indicator while a peer is known, and
/// does nothing at all while the device is off or knows of no peer.
pub proof fn lemma_timer_blinks(
    machine: MachineView,
    triggers: Set<Trigger>,
    reading: Option<Reading>,
    payload: Option<Seq<u8>>,
)
    requires
        selected(triggers) == Some(Trigger::TimerTicked),
    ensures
        machine.handle(triggers, reading, payload) matches Ok(o) && {
            &&& o.reading == reading
            &&& machine.state matches State::On(Some(_)) ==> {
                &&& o.action == Action::ToggleIndicator
                &&& o.machine.led.state == machine.led.state.flipped()
                &&& o.machine == (MachineView { led: o.machine.led, ..machine })
            }
            &&& (machine.state == State::Off || machine.state == State::On(None)) ==> {
                &&& o.action == Action::Nothing
                &&& o.machine == machine
            }
        },
{
}

/// An active peer is an edge, not a level: once `DeviceFoundActive` was
/// handled, handling it again changes nothing and asks for nothing,
/// whatever the slots hold by then.
pub proof fn lemma_active_edge_fires_once(
    machine: MachineView,
    triggers: Set<Trigger>,
    reading: Option<Reading>,
    payload: Option<Seq<u8>>,
    next_triggers: Set<Trigger>,
    next_reading: Option<Reading>,
    next_payload: Option<Seq<u8>>,
)
    requires
        selected(triggers) == Some(Trigger::DeviceFoundActive),
        selected(next_triggers) == Some(Trigger::DeviceFoundActive),
        machine.handle(triggers, reading, payload) is Ok,
    ensures
        ({
            let first = machine.handle(triggers, reading, payload)->Ok_0;
            &&& first.machine.handle(next_triggers, next_reading, next_payload) == Ok::<
                Outcome,
                Error,
            >(Outcome { machine: first.machine, reading: next_reading, action: Action::Nothing })
            &&& first.machine.projected().handle(next_triggers, next_reading, next_payload)
                == Ok::<Outcome, Error>(
                Outcome {
                    machine: first.machine.projected(),
                    reading: next_reading,
                    action: Action::Nothing,
                },
            )
        }),
        machine.state == State::On(Some(Peer::Active)) ==> machine.handle(
            triggers,
            reading,
            payload,
        ) == Ok::<Outcome, Error>(Outcome { machine, reading, action: Action::Nothing }),
{
}

/// While a device is off, peers and ticks leave it as it is.
pub proof fn lemma_off_ignores_peers(
    machine: MachineView,
    triggers: Set<Trigger>,
    reading: Option<Reading>,
    payload: Option<Seq<u8>>,
)
    requires
        machine.state == State::Off,
        !triggers.contains(Trigger::ButtonPressed),
        selected(triggers) is Some,
        selected(triggers) != Some(Trigger::PositionDataAvailable),
    ensures
        machine.handle(triggers, reading, payload) == Ok::<Outcome, Error>(
            Outcome { machine, reading, action: Action::Nothing },
        ),
{
}

/// The maximum speed falls in one case only: a client that is off is switched
/// on by the button, and then it is zero. In every other cycle it stays or
/// rises, and a server's never moves. It never becomes a negative number or
/// something that is no number.
pub proof fn lemma_max_speed_is_monotonic(
    machine: MachineView,
    triggers: Set<Trigger>,
    reading: Option<Reading>,
    payload: Option<Seq<u8>>,
)
    requires
        machine.cycle(triggers, reading, payload) is Ok,
    ensures
        ({
            let after = machine.cycle(triggers, reading, payload)->Ok_0.machine;
            let switched_on = triggers.contains(Trigger::ButtonPressed) && machine.state
                == State::Off && machine.role == Role::Client;
            &&& after.role == machine.role
            &&& switched_on ==> after.max_speed == 0
            &&& !switched_on ==> after.max_speed >= machine.max_speed
            &&& machine.role == Role::Server ==> after.max_speed == machine.max_speed
            &&& spec_is_ordered(machine.max_speed) ==> spec_is_ordered(after.max_speed)
        }),
{
}

/// Whether a client advertises what its maximum calls for: no payload at
/// zero, the maximum's four bytes above.
pub open spec fn advertises_maximum(machine: MachineView) -> bool {
    machine.role == Role::Client ==> machine.advertiser.payload == spec_encode(machine.max_speed)
}

/// A client that advertises its maximum goes on doing so.
pub proof fn lemma_payload_follows_maximum(
    machine: MachineView,
    triggers: Set<Trigger>,
    reading: Option<Reading>,
    payload: Option<Seq<u8>>,
)
    requires
        advertises_maximum(machine),
        machine.cycle(triggers, reading, payload) is Ok,
    ensures
        advertises_maximum(machine.cycle(triggers, reading, payload)->Ok_0.machine),
{
}

/// A cycle fails in two cases only: the drained set holds none of the six
/// triggers, or a server on the way into `On(Active)` holds a payload that
/// is not four bytes long.
pub proof fn lemma_cycle_failures(
    machine: MachineView,
    triggers: Set<Trigger>,
    reading: Option<Reading>,
    payload: Option<Seq<u8>>,
)
    ensures
        machine.cycle(triggers, reading, payload) is Err <==> {
            ||| triggers == Set::<Trigger>::empty()
            ||| {
                &&& selected(triggers) == Some(Trigger::DeviceFoundActive)
                &&& machine.role == Role::Server
                &&& machine.state == State::On(None) || machine.state == State::On(
                    Some(Peer::Inactive),
                )
                &&& payload matches Some(bytes) && bytes.len() != 4
            }
        },
        machine.cycle(triggers, reading, payload) matches Err(e) ==> e == Error::UnknownTriggers
            || (payload matches Some(bytes) && e == Error::MalformedPayload(bytes.len() as usize)),
{
    if selected(triggers) is None {
        assert forall|t: Trigger| !triggers.contains(t) by {
            match t {
                Trigger::ButtonPressed => {},
                Trigger::TimerTicked => {},
                Trigger::DeviceFoundActive => {},
                Trigger::DeviceFoundInactive => {},
                Trigger::DeviceNotFound => {},
                Trigger::PositionDataAvailable => {},
            }
        }
        assert(triggers =~= Set::<Trigger>::empty());
    } else {
        assert(triggers.contains(selected(triggers)->Some_0));
    }
}

/// After every cycle indicator and timer show the state: green while on
/// without an inactive peer, red else; lit and steady without a known peer,
/// blinking with one.
pub proof fn lemma_cycle_shows_state(
    machine: MachineView,
    triggers: Set<Trigger>,
    reading: Option<Reading>,
    payload: Option<Seq<u8>>,
)
    requires
        machine.cycle(triggers, reading, payload) is Ok,
    ensures
        ({
            let after = machine.cycle(triggers, reading, payload)->Ok_0.machine;
            &&& after.led.color == (match after.state {
                State::On(None) | State::On(Some(Peer::Active)) => green(),
                State::Off | State::On(Some(Peer::Inactive)) => red(),
            })
            &&& after.timer_on == (after.state matches State::On(Some(_)))
            &&& !after.timer_on ==> after.led.state == infra::State::On
        }),
{
}

/// A cycle depends on no slot but the one that `spec_wanted` names: a
/// reading that is not wanted stays in its slot and changes nothing, and so
/// does a payload that is not wanted.
pub proof fn lemma_only_the_wanted_slot_matters(
    machine: MachineView,
    triggers: Set<Trigger>,
    reading: Option<Reading>,
    payload: Option<Seq<u8>>,
)
    ensures
        spec_wanted(machine, triggers) != Wanted::Reading ==> machine.cycle(
            triggers,
            reading,
            payload,
        ) == (match machine.cycle(triggers, None, payload) {
            Ok(o) => Ok(Outcome { reading, ..o }),
            Err(e) => Err(e),
        }),
        spec_wanted(machine, triggers) != Wanted::Payload ==> machine.cycle(
            triggers,
            reading,
            payload,
        ) == machine.cycle(triggers, reading, None),
        spec_wanted(machine, triggers) == Wanted::Reading && reading is Some ==> (machine.cycle(
            triggers,
            reading,
            payload,
        ) matches Ok(o) && o.reading is None),
{
}

/// Whether the advertiser shows the device as on exactly while it is on.
pub open spec fn advertiser_in_step(machine: MachineView) -> bool {
    machine.advertiser.state.spec_is_on() == machine.state.spec_is_on()
}

/// An advertiser that is in step with the state stays in step, and so does
/// the producers' flag, which the button flips with every press: both
/// change with the button and with nothing else.
pub proof fn lemma_switches_stay_in_step(
    machine: MachineView,
    flag: infra::State,
    triggers: Set<Trigger>,
    reading: Option<Reading>,
    payload: Option<Seq<u8>>,
)
    requires
        machine.cycle(triggers, reading, payload) is Ok,
    ensures
        ({
            let after = machine.cycle(triggers, reading, payload)->Ok_0.machine;
            let pressed = triggers.contains(Trigger::ButtonPressed);
            let flag_after = if pressed {
                flag.flipped()
            } else {
                flag
            };
            &&& advertiser_in_step(machine) ==> advertiser_in_step(after)
            &&& flag.spec_is_on() == machine.state.spec_is_on() ==> flag_after.spec_is_on()
                == after.state.spec_is_on()
            &&& after.state.spec_is_on() != machine.state.spec_is_on() <==> pressed
        }),
{
}

} // verus!
