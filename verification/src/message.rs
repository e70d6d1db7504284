use vstd::prelude::*;

use crate::error::Error;

verus! {

/// One kind of event that the control core reacts to.
#[derive(Clone, Copy, Debug, PartialEq, Eq, Hash, Structural)]
pub enum Trigger {
    ButtonPressed,
    TimerTicked,
    DeviceFoundActive,
    DeviceFoundInactive,
    DeviceNotFound,
    PositionDataAvailable,
}

/// The bits that stand for a trigger: all six of them.
pub const KNOWN_BITS: u32 = 63;

impl Trigger {
    /// The bit that stands for this trigger in a notification word.
    pub open spec fn spec_bit(self) -> u32 {
        match self {
            Trigger::ButtonPressed => 1,
            Trigger::TimerTicked => 2,
            Trigger::DeviceFoundActive => 4,
            Trigger::DeviceFoundInactive => 8,
            Trigger::DeviceNotFound => 16,
            Trigger::PositionDataAvailable => 32,
        }
    }

    #[verifier::when_used_as_spec(spec_bit)]
    pub fn bit(self) -> (b: u32)
        ensures
            b == self.spec_bit(),
            b != 0,
    {
        match self {
            Trigger::ButtonPressed => 1,
            Trigger::TimerTicked => 2,
            Trigger::DeviceFoundActive => 4,
            Trigger::DeviceFoundInactive => 8,
            Trigger::DeviceNotFound => 16,
            Trigger::PositionDataAvailable => 32,
        }
    }

    /// The trigger whose bit is exactly `bits`, if there is one.
    pub fn from_bit(bits: u32) -> (t: Option<Trigger>)
        ensures
            match t {
                Some(t) => t.spec_bit() == bits,
                None => forall|t: Trigger| t.spec_bit() != bits,
            },
    {
        if bits == 1 {
            Some(Trigger::ButtonPressed)
        } else if bits == 2 {
            Some(Trigger::TimerTicked)
        } else if bits == 4 {
            Some(Trigger::DeviceFoundActive)
        } else if bits == 8 {
            Some(Trigger::DeviceFoundInactive)
        } else if bits == 16 {
            Some(Trigger::DeviceNotFound)
        } else if bits == 32 {
            Some(Trigger::PositionDataAvailable)
        } else {
            None
        }
    }
}

/// The triggers whose bit is set in a notification word. Bits that stand for
/// no trigger count for nothing.
pub open spec fn triggers_in(bits: u32) -> Set<Trigger> {
    Set::new(|t: Trigger| bits & t.spec_bit() != 0)
}

/// Every trigger has a bit of its own: a single one, and no two share it.
pub proof fn lemma_bits_are_distinct(a: Trigger, b: Trigger)
    ensures
        a.spec_bit() != 0,
        a.spec_bit() & KNOWN_BITS == a.spec_bit(),
        a.spec_bit() & b.spec_bit() == (if a == b { a.spec_bit() } else { 0 }),
        a.spec_bit() == b.spec_bit() <==> a == b,
{
    assert(1u32 & 63 == 1 && 2u32 & 63 == 2 && 4u32 & 63 == 4 && 8u32 & 63 == 8 && 16u32 & 63
        == 16 && 32u32 & 63 == 32) by (bit_vector);
    assert(forall|x: u32| #[trigger] (x & x) == x) by (bit_vector);
    assert(1u32 & 2 == 0 && 1u32 & 4 == 0 && 1u32 & 8 == 0 && 1u32 & 16 == 0 && 1u32 & 32 == 0
        && 2u32 & 4 == 0 && 2u32 & 8 == 0 && 2u32 & 16 == 0 && 2u32 & 32 == 0 && 4u32 & 8 == 0
        && 4u32 & 16 == 0 && 4u32 & 32 == 0 && 8u32 & 16 == 0 && 8u32 & 32 == 0 && 16u32 & 32
        == 0) by (bit_vector);
    assert(forall|x: u32, y: u32| #[trigger] (x & y) == y & x) by (bit_vector);
}

/// A set of triggers: which kinds of event happened, without count or order.
#[derive(Clone, Copy, Debug, PartialEq, Eq, Structural)]
pub struct TriggerSet {
    pub button_pressed: bool,
    pub timer_ticked: bool,
    pub device_found_active: bool,
    pub device_found_inactive: bool,
    pub device_not_found: bool,
    pub position_data_available: bool,
}

impl TriggerSet {
    pub open spec fn has(self, t: Trigger) -> bool {
        match t {
            Trigger::ButtonPressed => self.button_pressed,
            Trigger::TimerTicked => self.timer_ticked,
            Trigger::DeviceFoundActive => self.device_found_active,
            Trigger::DeviceFoundInactive => self.device_found_inactive,
            Trigger::DeviceNotFound => self.device_not_found,
            Trigger::PositionDataAvailable => self.position_data_available,
        }
    }

    pub open spec fn view(&self) -> Set<Trigger> {
        Set::new(|t: Trigger| self.has(t))
    }

    pub fn new() -> (s: TriggerSet)
        ensures
            s@ == Set::<Trigger>::empty(),
    {
        let s = TriggerSet {
            button_pressed: false,
            timer_ticked: false,
            device_found_active: false,
            device_found_inactive: false,
            device_not_found: false,
            position_data_available: false,
        };
        s
    }

    /// The triggers of a notification word: one entry for each known bit that
    /// is set, whatever else the word holds.
    pub fn from_mask(bits: u32) -> (s: TriggerSet)
        ensures
            s@ == triggers_in(bits),
    {
        let s = TriggerSet {
            button_pressed: bits & 1 != 0,
            timer_ticked: bits & 2 != 0,
            device_found_active: bits & 4 != 0,
            device_found_inactive: bits & 8 != 0,
            device_not_found: bits & 16 != 0,
            position_data_available: bits & 32 != 0,
        };
        s
    }

    /// The notification word with exactly the bits of the set's triggers.
    pub fn mask(&self) -> (bits: u32)
        ensures
            triggers_in(bits) == self@,
            bits & KNOWN_BITS == bits,
    {
        let b0: u32 = if self.button_pressed { 1 } else { 0 };
        let b1: u32 = if self.timer_ticked { 2 } else { 0 };
        let b2: u32 = if self.device_found_active { 4 } else { 0 };
        let b3: u32 = if self.device_found_inactive { 8 } else { 0 };
        let b4: u32 = if self.device_not_found { 16 } else { 0 };
        let b5: u32 = if self.position_data_available { 32 } else { 0 };
        let bits = b0 | b1 | b2 | b3 | b4 | b5;
        proof {
            assert({
                &&& bits & 63 == bits
                &&& (bits & 1 != 0) == (b0 != 0)
                &&& (bits & 2 != 0) == (b1 != 0)
                &&& (bits & 4 != 0) == (b2 != 0)
                &&& (bits & 8 != 0) == (b3 != 0)
                &&& (bits & 16 != 0) == (b4 != 0)
                &&& (bits & 32 != 0) == (b5 != 0)
            }) by (bit_vector)
                requires
                    bits == b0 | b1 | b2 | b3 | b4 | b5,
                    b0 == 0 || b0 == 1,
                    b1 == 0 || b1 == 2,
                    b2 == 0 || b2 == 4,
                    b3 == 0 || b3 == 8,
                    b4 == 0 || b4 == 16,
                    b5 == 0 || b5 == 32,
            ;
        }
        bits
    }

    pub fn contains(&self, t: Trigger) -> (found: bool)
        ensures
            found == self@.contains(t),
    {
        match t {
            Trigger::ButtonPressed => self.button_pressed,
            Trigger::TimerTicked => self.timer_ticked,
            Trigger::DeviceFoundActive => self.device_found_active,
            Trigger::DeviceFoundInactive => self.device_found_inactive,
            Trigger::DeviceNotFound => self.device_not_found,
            Trigger::PositionDataAvailable => self.position_data_available,
        }
    }

    /// Adds a trigger. One that is there already stays there once.
    pub fn insert(&mut self, t: Trigger)
        ensures
            final(self)@ == old(self)@.insert(t),
    {
        match t {
            Trigger::ButtonPressed => self.button_pressed = true,
            Trigger::TimerTicked => self.timer_ticked = true,
            Trigger::DeviceFoundActive => self.device_found_active = true,
            Trigger::DeviceFoundInactive => self.device_found_inactive = true,
            Trigger::DeviceNotFound => self.device_not_found = true,
            Trigger::PositionDataAvailable => self.position_data_available = true,
        }
    }

    pub fn is_empty(&self) -> (empty: bool)
        ensures
            empty == (self@ == Set::<Trigger>::empty()),
    {
        let empty = !(self.button_pressed || self.timer_ticked || self.device_found_active
            || self.device_found_inactive || self.device_not_found
            || self.position_data_available);
        proof {
            if empty {
                assert(self@ =~= Set::<Trigger>::empty());
            } else {
                assert(self@.contains(Trigger::ButtonPressed) || self@.contains(
                    Trigger::TimerTicked,
                ) || self@.contains(Trigger::DeviceFoundActive) || self@.contains(
                    Trigger::DeviceFoundInactive,
                ) || self@.contains(Trigger::DeviceNotFound) || self@.contains(
                    Trigger::PositionDataAvailable,
                ));
            }
        }
        empty
    }

    /// How many triggers the set holds.
    pub fn len(&self) -> (n: usize)
        ensures
            n == self.count(),
            n <= 6,
    {
        let mut n: usize = 0;
        if self.button_pressed {
            n = n + 1;
        }
        if self.timer_ticked {
            n = n + 1;
        }
        if self.device_found_active {
            n = n + 1;
        }
        if self.device_found_inactive {
            n = n + 1;
        }
        if self.device_not_found {
            n = n + 1;
        }
        if self.position_data_available {
            n = n + 1;
        }
        n
    }

    /// The number of triggers in the set: each kind counts once.
    pub open spec fn count(self) -> nat {
        let one = |b: bool| -> nat { if b { 1nat } else { 0nat } };
        one(self.button_pressed) + one(self.timer_ticked) + one(self.device_found_active) + one(
            self.device_found_inactive,
        ) + one(self.device_not_found) + one(self.position_data_available)
    }
}

/// The single slot in which producers leave their triggers until the control
/// core drains it. It keeps kinds of event, not their number or order.
#[derive(Clone, Copy, Debug, PartialEq, Eq, Structural)]
pub struct PendingMask {
    pub bits: u32,
}

impl PendingMask {
    pub open spec fn view(&self) -> Set<Trigger> {
        triggers_in(self.bits)
    }

    pub fn new() -> (m: PendingMask)
        ensures
            m.bits == 0,
            m@ == Set::<Trigger>::empty(),
    {
        let m = PendingMask { bits: 0 };
        proof {
            assert(forall|x: u32| #[trigger] (0u32 & x) == 0) by (bit_vector);
        }
        m
    }

    /// Merges a raw notification word into the slot. A word without any bit
    /// is refused and leaves the slot as it was.
    pub fn merge(&mut self, word: u32) -> (r: Result<(), Error>)
        ensures
            word == 0 ==> r == Err::<(), Error>(Error::EmptyNotification) && *final(self) == *old(
                self,
            ),
            word != 0 ==> r is Ok && final(self).bits == old(self).bits | word && final(self)@
                == old(self)@.union(triggers_in(word)),
    {
        if word == 0 {
            return Err(Error::EmptyNotification);
        }
        let ghost before = self.bits;
        self.bits = self.bits | word;
        proof {
            assert forall|t: Trigger|
                self@.contains(t) == old(self)@.union(triggers_in(word)).contains(t) by {
                let b = t.spec_bit();
                assert(((before | word) & b != 0) == ((before & b != 0) || (word & b != 0)))
                    by (bit_vector);
            }
        }
        Ok(())
    }

    /// Leaves a trigger in the slot. This never fails: every trigger has a
    /// bit. A trigger that is pending already is pending once.
    pub fn notify(&mut self, trigger: Trigger) -> (r: Result<(), Error>)
        ensures
            r is Ok,
            final(self).bits == old(self).bits | trigger.spec_bit(),
            final(self)@ == old(self)@.insert(trigger),
    {
        let r = self.merge(trigger.bit());
        proof {
            assert forall|t: Trigger| triggers_in(trigger.spec_bit()).contains(t) == (t
                == trigger) by {
                lemma_bits_are_distinct(trigger, t);
            }
        }
        r
    }

    /// Whether nothing is pending, so that the consumer would have to wait.
    pub fn is_empty(&self) -> (empty: bool)
        ensures
            empty == (self.bits == 0),
            empty ==> self@ == Set::<Trigger>::empty(),
    {
        proof {
            assert(forall|x: u32| #[trigger] (0u32 & x) == 0) by (bit_vector);
        }
        self.bits == 0
    }

    /// Reads and clears the slot in one step: what was pending comes back,
    /// each kind once, and nothing stays behind.
    pub fn collect(&mut self) -> (s: TriggerSet)
        ensures
            s@ == old(self)@,
            final(self).bits == 0,
            final(self)@ == Set::<Trigger>::empty(),
    {
        let word = self.bits;
        self.bits = 0;
        proof {
            assert(forall|x: u32| #[trigger] (0u32 & x) == 0) by (bit_vector);
        }
        TriggerSet::from_mask(word)
    }
}

/// Triggers collapse: leaving the same trigger twice before a drain is the
/// same as leaving it once, in the slot and in what is drained from it.
pub proof fn lemma_notify_coalesces(pending: PendingMask, trigger: Trigger)
    ensures
        (pending.bits | trigger.spec_bit()) | trigger.spec_bit() == pending.bits
            | trigger.spec_bit(),
        triggers_in((pending.bits | trigger.spec_bit()) | trigger.spec_bit())
            == pending@.insert(trigger),
        pending@.insert(trigger).insert(trigger) == pending@.insert(trigger),
{
    let b = trigger.spec_bit();
    let p = pending.bits;
    assert((p | b) | b == p | b) by (bit_vector);
    assert forall|t: Trigger| triggers_in(p | b).contains(t) == pending@.insert(
        trigger,
    ).contains(t) by {
        let c = t.spec_bit();
        lemma_bits_are_distinct(trigger, t);
        assert(((p | b) & c != 0) == ((p & c != 0) || (b & c != 0))) by (bit_vector);
    }
}

/// The word in a slot that held `bits` after `triggers` were left in it one
/// after the other.
pub open spec fn notified(bits: u32, triggers: Seq<Trigger>) -> u32
    decreases triggers.len(),
{
    if triggers.len() == 0 {
        bits
    } else {
        notified(bits, triggers.drop_last()) | triggers.last().spec_bit()
    }
}

/// A drain observes the union of what was left since the one before: each
/// kind that was notified, however often and in whatever order, and nothing
/// else.
pub proof fn lemma_collect_observes_union(bits: u32, triggers: Seq<Trigger>)
    ensures
        triggers_in(notified(bits, triggers)) == triggers_in(bits).union(triggers.to_set()),
    decreases triggers.len(),
{
    if triggers.len() > 0 {
        let front = triggers.drop_last();
        let last = triggers.last();
        lemma_collect_observes_union(bits, front);
        lemma_notify_coalesces(PendingMask { bits: notified(bits, front) }, last);
        assert forall|t: Trigger| triggers.to_set().contains(t) == (front.to_set().contains(t)
            || t == last) by {
            if triggers.contains(t) {
                let i = choose|i: int| 0 <= i < triggers.len() && triggers[i] == t;
                if i < front.len() {
                    assert(front[i] == t);
                }
            }
            if front.contains(t) {
                let i = choose|i: int| 0 <= i < front.len() && front[i] == t;
                assert(triggers[i] == t);
            }
            if t == last {
                assert(triggers[triggers.len() - 1] == t);
            }
        }
        assert(triggers_in(notified(bits, triggers)) =~= triggers_in(bits).union(
            triggers.to_set(),
        ));
    }
}

} // verus!
