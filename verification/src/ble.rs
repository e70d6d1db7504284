use vstd::prelude::*;
use vstd::string::StringSliceAdditionalSpecFns;

use crate::bytes::{append, is_joined, to_vec};
use crate::error::Error;
use crate::infra::{State, Switch};
use crate::message::Trigger;

verus! {

/// What follows the application's name while a device is on: `-Active`.
pub open spec fn active_suffix() -> Seq<u8> {
    seq![0x2d, 0x41, 0x63, 0x74, 0x69, 0x76, 0x65]
}

/// What follows the application's name while a device is off: `-Inactive`.
pub open spec fn inactive_suffix() -> Seq<u8> {
    seq![0x2d, 0x49, 0x6e, 0x61, 0x63, 0x74, 0x69, 0x76, 0x65]
}

/// The name under which a device of the application `app` is seen in `state`.
pub open spec fn advertised_name(app: Seq<u8>, state: State) -> Seq<u8> {
    match state {
        State::On => app + active_suffix(),
        State::Off => app + inactive_suffix(),
    }
}

fn suffix_of(state: State) -> (suffix: Vec<u8>)
    ensures
        suffix@ == advertised_name(Seq::<u8>::empty(), state),
{
    let mut suffix: Vec<u8> = Vec::new();
    suffix.push(0x2d);
    match state {
        State::On => {
            suffix.push(0x41);
        },
        State::Off => {
            suffix.push(0x49);
            suffix.push(0x6e);
            suffix.push(0x61);
        },
    }
    suffix.push(0x63);
    suffix.push(0x74);
    suffix.push(0x69);
    suffix.push(0x76);
    suffix.push(0x65);
    suffix
}

/// What the radio is to send: a name, and vendor data if there is any.
#[derive(Debug)]
pub struct Advertisement {
    pub name: Vec<u8>,
    pub vendor: Option<Vec<u8>>,
}

/// The advertiser as the control core sees it: the application's name, whether
/// the device shows itself as on, and the payload it carries.
#[derive(Debug)]
pub struct Advertiser {
    pub name: Vec<u8>,
    pub state: State,
    pub payload: Option<Vec<u8>>,
}

/// An advertiser as mathematics.
pub struct AdvertiserView {
    pub name: Seq<u8>,
    pub state: State,
    pub payload: Option<Seq<u8>>,
}

impl AdvertiserView {
    /// The name to send.
    pub open spec fn advertised(self) -> Seq<u8> {
        advertised_name(self.name, self.state)
    }
}

/// The bytes of an optional payload.
pub open spec fn payload_view(payload: Option<Vec<u8>>) -> Option<Seq<u8>> {
    match payload {
        Some(bytes) => Some(bytes@),
        None => None,
    }
}

impl View for Advertiser {
    type V = AdvertiserView;

    open spec fn view(&self) -> AdvertiserView {
        AdvertiserView { name: self.name@, state: self.state, payload: payload_view(self.payload) }
    }
}

impl Advertiser {
    /// An advertiser for the application `name`, without payload.
    pub fn new(name: &str, state: State) -> (advertiser: Advertiser)
        ensures
            advertiser@ == (AdvertiserView { name: name.spec_bytes(), state, payload: None }),
    {
        Advertiser { name: to_vec(name.as_bytes()), state, payload: None }
    }

    /// Replaces the payload.
    pub fn set_payload(&mut self, payload: Option<Vec<u8>>)
        ensures
            final(self)@ == (AdvertiserView { payload: payload_view(payload), ..old(self)@ }),
    {
        self.payload = payload;
    }

    /// Name and vendor data for the radio, from state and payload.
    pub fn advertisement(&self) -> (ad: Advertisement)
        ensures
            ad.name@ == self@.advertised(),
            payload_view(ad.vendor) == self@.payload,
    {
        let mut name = to_vec(self.name.as_slice());
        let suffix = suffix_of(self.state);
        append(&mut name, suffix.as_slice());
        assert(self.name@ + (Seq::<u8>::empty() + active_suffix()) =~= self.name@
            + active_suffix());
        assert(self.name@ + (Seq::<u8>::empty() + inactive_suffix()) =~= self.name@
            + inactive_suffix());
        let vendor = match &self.payload {
            Some(bytes) => Some(to_vec(bytes.as_slice())),
            None => None,
        };
        Advertisement { name, vendor }
    }
}

impl Switch for Advertiser {
    open spec fn switch_state(&self) -> State {
        self.state
    }

    fn toggle(&mut self) -> (r: Result<(), Error>)
        ensures
            final(self)@ == (AdvertiserView { state: old(self).state.flipped(), ..old(self)@ }),
    {
        self.state = match self.state {
            State::On => State::Off,
            State::Off => State::On,
        };
        Ok(())
    }
}

/// What an advertised name tells of its sender: a peer of the application
/// `app` that is on, one that is off, or nothing.
pub open spec fn spec_match_name(app: Seq<u8>, advertised: Seq<u8>) -> Option<Trigger> {
    if advertised == advertised_name(app, State::On) {
        Some(Trigger::DeviceFoundActive)
    } else if advertised == advertised_name(app, State::Off) {
        Some(Trigger::DeviceFoundInactive)
    } else {
        None
    }
}

pub fn match_name(app: &[u8], advertised: &[u8]) -> (found: Option<Trigger>)
    ensures
        found == spec_match_name(app@, advertised@),
{
    let active = suffix_of(State::On);
    let inactive = suffix_of(State::Off);
    if is_joined(advertised, app, active.as_slice()) {
        Some(Trigger::DeviceFoundActive)
    } else if is_joined(advertised, app, inactive.as_slice()) {
        Some(Trigger::DeviceFoundInactive)
    } else {
        None
    }
}

/// The payload as it was sent: the radio hands vendor data over as a company
/// identifier and the rest, and the identifier's two bytes, low byte first,
/// are the payload's first two.
pub open spec fn spec_vendor_payload(company: u16, rest: Seq<u8>) -> Seq<u8> {
    seq![(company & 0xff) as u8, (company >> 8) as u8] + rest
}

pub fn vendor_payload(company: u16, rest: &[u8]) -> (payload: Vec<u8>)
    ensures
        payload@ == spec_vendor_payload(company, rest@),
{
    let mut payload: Vec<u8> = Vec::new();
    payload.push((company & 0xff) as u8);
    payload.push((company >> 8) as u8);
    append(&mut payload, rest);
    payload
}

/// Splitting a payload after its second byte and joining it again gives the
/// payload back.
pub proof fn lemma_vendor_payload_rejoins(payload: Seq<u8>)
    requires
        payload.len() >= 2,
    ensures
        spec_vendor_payload(
            (payload[0] as u16) | ((payload[1] as u16) << 8),
            payload.subrange(2, payload.len() as int),
        ) == payload,
{
    let lo = payload[0];
    let hi = payload[1];
    let company = (lo as u16) | ((hi as u16) << 8);
    assert((company & 0xff) as u8 == lo && (company >> 8) as u8 == hi) by (bit_vector)
        requires
            company == (lo as u16) | ((hi as u16) << 8),
    ;
}

/// What a scanner keeps of one device it saw.
#[derive(Debug)]
pub struct Sighting {
    pub trigger: Trigger,
    pub payload: Option<Vec<u8>>,
}

/// What a scanner makes of a device: nothing unless its name matches; the
/// payload only of a peer that is on and sends vendor data.
pub open spec fn spec_sighting(
    app: Seq<u8>,
    advertised: Seq<u8>,
    vendor: Option<(u16, Seq<u8>)>,
) -> Option<(Trigger, Option<Seq<u8>>)> {
    match spec_match_name(app, advertised) {
        Some(Trigger::DeviceFoundActive) => Some(
            (
                Trigger::DeviceFoundActive,
                match vendor {
                    Some((company, rest)) => Some(spec_vendor_payload(company, rest)),
                    None => None,
                },
            ),
        ),
        Some(trigger) => Some((trigger, None)),
        None => None,
    }
}

/// What a scan window ends with: the trigger of the device that matched, or
/// `DeviceNotFound`. While the device is off no scan is made and no trigger
/// emitted.
pub open spec fn spec_conclude(gate: State, found: Option<Trigger>) -> Option<Trigger> {
    match gate {
        State::Off => None,
        State::On => match found {
            Some(trigger) => Some(trigger),
            None => Some(Trigger::DeviceNotFound),
        },
    }
}

/// The scanner's decisions: which devices are peers, and what a window yields.
#[derive(Debug)]
pub struct Scanner {
    pub name: Vec<u8>,
}

impl Scanner {
    /// Length of a scan window in milliseconds.
    pub const WINDOW: i32 = 1000;

    pub fn new(name: &str) -> (scanner: Scanner)
        ensures
            scanner.name@ == name.spec_bytes(),
    {
        Scanner { name: to_vec(name.as_bytes()) }
    }

    /// Looks at one device that the radio saw.
    pub fn sight(&self, advertised: &[u8], vendor: Option<(u16, &[u8])>) -> (sighting: Option<
        Sighting,
    >)
        ensures
            match sighting {
                Some(s) => spec_sighting(
                    self.name@,
                    advertised@,
                    match vendor {
                        Some((company, rest)) => Some((company, rest@)),
                        None => None,
                    },
                ) == Some((s.trigger, payload_view(s.payload))),
                None => spec_match_name(self.name@, advertised@) is None,
            },
    {
        match match_name(self.name.as_slice(), advertised) {
            Some(Trigger::DeviceFoundActive) => {
                let payload = match vendor {
                    Some((company, rest)) => Some(vendor_payload(company, rest)),
                    None => None,
                };
                Some(Sighting { trigger: Trigger::DeviceFoundActive, payload })
            },
            Some(trigger) => Some(Sighting { trigger, payload: None }),
            None => None,
        }
    }

    /// The trigger to emit after a scan cycle, if any.
    pub fn conclude(gate: State, found: Option<Trigger>) -> (trigger: Option<Trigger>)
        ensures
            trigger == spec_conclude(gate, found),
    {
        match gate {
            State::Off => None,
            State::On => match found {
                Some(trigger) => Some(trigger),
                None => Some(Trigger::DeviceNotFound),
            },
        }
    }
}

} // verus!
