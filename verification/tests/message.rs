use esp_layground::error::Error;
use esp_layground::message::{PendingMask, Trigger, TriggerSet};

const ALL: [Trigger; 6] = [
    Trigger::ButtonPressed,
    Trigger::TimerTicked,
    Trigger::DeviceFoundActive,
    Trigger::DeviceFoundInactive,
    Trigger::DeviceNotFound,
    Trigger::PositionDataAvailable,
];

#[test]
fn every_trigger_has_one_bit_of_its_own() {
    let mut seen: u32 = 0;
    for t in ALL {
        let bit = t.bit();
        assert_ne!(bit, 0);
        assert_eq!(bit.count_ones(), 1);
        assert_eq!(seen & bit, 0);
        seen |= bit;
    }
    assert_eq!(seen, 63);
}

#[test]
fn trigger_bits_are_the_documented_powers_of_two() {
    assert_eq!(Trigger::ButtonPressed.bit(), 1);
    assert_eq!(Trigger::TimerTicked.bit(), 2);
    assert_eq!(Trigger::DeviceFoundActive.bit(), 4);
    assert_eq!(Trigger::DeviceFoundInactive.bit(), 8);
    assert_eq!(Trigger::DeviceNotFound.bit(), 16);
    assert_eq!(Trigger::PositionDataAvailable.bit(), 32);
}

#[test]
fn from_bit_inverts_bit() {
    for t in ALL {
        assert_eq!(Trigger::from_bit(t.bit()), Some(t));
    }
    assert_eq!(Trigger::from_bit(0), None);
    assert_eq!(Trigger::from_bit(3), None);
    assert_eq!(Trigger::from_bit(64), None);
}

#[test]
fn from_mask_reads_each_known_bit() {
    let set = TriggerSet::from_mask(1 | 16);
    assert!(set.contains(Trigger::ButtonPressed));
    assert!(set.contains(Trigger::DeviceNotFound));
    assert!(!set.contains(Trigger::TimerTicked));
    assert_eq!(set.len(), 2);
    assert_eq!(set.mask(), 17);
}

#[test]
fn from_mask_ignores_unknown_bits() {
    let set = TriggerSet::from_mask(0xFFFF_FFC0);
    assert!(set.is_empty());
    assert_eq!(set.len(), 0);
    let set = TriggerSet::from_mask(0x8000_0002);
    assert_eq!(set.len(), 1);
    assert!(set.contains(Trigger::TimerTicked));
    assert_eq!(set.mask(), 2);
}

#[test]
fn insert_is_idempotent() {
    let mut set = TriggerSet::new();
    assert!(set.is_empty());
    set.insert(Trigger::DeviceFoundActive);
    let once = set;
    set.insert(Trigger::DeviceFoundActive);
    assert_eq!(set, once);
    assert_eq!(set.len(), 1);
}

#[test]
fn two_notifications_of_one_trigger_are_drained_once() {
    let mut pending = PendingMask::new();
    assert_eq!(pending.notify(Trigger::ButtonPressed), Ok(()));
    assert_eq!(pending.notify(Trigger::ButtonPressed), Ok(()));
    assert_eq!(pending.bits, 1);
    let drained = pending.collect();
    assert_eq!(drained.len(), 1);
    assert!(drained.contains(Trigger::ButtonPressed));
    assert!(pending.is_empty());
}

#[test]
fn collect_returns_the_union_and_clears() {
    let mut pending = PendingMask::new();
    pending.notify(Trigger::TimerTicked).unwrap();
    pending.notify(Trigger::DeviceNotFound).unwrap();
    pending.notify(Trigger::TimerTicked).unwrap();
    let drained = pending.collect();
    assert_eq!(drained.len(), 2);
    assert!(drained.contains(Trigger::TimerTicked));
    assert!(drained.contains(Trigger::DeviceNotFound));
    assert_eq!(pending.bits, 0);
    assert!(pending.collect().is_empty());
}

#[test]
fn merging_an_empty_word_is_refused() {
    let mut pending = PendingMask::new();
    pending.notify(Trigger::TimerTicked).unwrap();
    assert_eq!(pending.merge(0), Err(Error::EmptyNotification));
    assert_eq!(pending.bits, 2);
    assert_eq!(pending.merge(5), Ok(()));
    assert_eq!(pending.bits, 7);
}
