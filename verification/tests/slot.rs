use single_value_channel::deliver;
use single_value_channel::none_observing;
use single_value_channel::slot_behind;
use single_value_channel::slot_is_gone;
use single_value_channel::refresh;
use single_value_channel::refresh_from;
use single_value_channel::NoReceiverError;
use single_value_channel::Slot;
use std::sync::Arc;
use std::sync::Mutex;
use std::sync::PoisonError;

#[test]
fn new_slot_is_empty() {
    let mut slot: Slot<i32> = Slot::new();
    assert_eq!(slot.drain(), None);
}

#[test]
fn deposit_then_drain() {
    let mut slot = Slot::new();
    slot.deposit(5);
    assert_eq!(slot.drain(), Some(5));
}

#[test]
fn deposit_overwrites_pending_value() {
    let mut slot = Slot::new();
    slot.deposit(1);
    slot.deposit(2);
    slot.deposit(3);
    assert_eq!(slot.drain(), Some(3));
    assert_eq!(slot.drain(), None);
}

#[test]
fn drain_leaves_slot_empty() {
    let mut slot = Slot::new();
    slot.deposit("x");
    assert_eq!(slot.drain(), Some("x"));
    assert_eq!(slot.drain(), None);
    assert_eq!(slot.drain(), None);
    slot.deposit("y");
    assert_eq!(slot.drain(), Some("y"));
}

#[test]
fn refresh_takes_handed_value() {
    let mut cached = 1;
    refresh(&mut cached, Some(2));
    assert_eq!(cached, 2);
}

#[test]
fn refresh_keeps_value_when_nothing_handed() {
    let mut cached = String::from("kept");
    refresh(&mut cached, None);
    assert_eq!(cached, "kept");
}

#[test]
fn drain_and_refresh_twice_is_stable() {
    let mut slot = Slot::new();
    let mut cached = 0;
    slot.deposit(4);
    slot.deposit(8);
    refresh(&mut cached, slot.drain());
    assert_eq!(cached, 8);
    refresh(&mut cached, slot.drain());
    assert_eq!(cached, 8);
}

#[test]
fn deliver_without_target_returns_value() {
    let outcome = deliver(None, 123);
    assert_eq!(outcome, Err(NoReceiverError(123)));
}

#[test]
fn deliver_with_target_deposits() {
    let mut slot = Slot::new();
    assert_eq!(deliver(Some(&mut slot), 7), Ok(()));
    assert_eq!(slot.drain(), Some(7));
    assert_eq!(slot.drain(), None);
}

#[test]
fn deliver_overwrites_what_waits() {
    let mut slot = Slot::new();
    slot.deposit(1);
    assert_eq!(deliver(Some(&mut slot), 2), Ok(()));
    assert_eq!(deliver(Some(&mut slot), 3), Ok(()));
    assert_eq!(slot.drain(), Some(3));
    assert_eq!(slot.drain(), None);
}

#[test]
fn refresh_from_slot_takes_pending_value() {
    let mut slot = Slot::new();
    slot.deposit(5);
    let mut cached = 1;
    refresh_from(&mut cached, Some(&mut slot));
    assert_eq!(cached, 5);
    assert_eq!(slot.drain(), None);
}

#[test]
fn refresh_from_empty_slot_keeps_value() {
    let mut slot: Slot<i32> = Slot::new();
    let mut cached = 1;
    refresh_from(&mut cached, Some(&mut slot));
    assert_eq!(cached, 1);
    assert_eq!(slot.drain(), None);
}

#[test]
fn refresh_from_no_slot_keeps_value() {
    let mut cached = String::from("kept");
    refresh_from(&mut cached, None);
    assert_eq!(cached, "kept");
}

#[test]
fn deliver_then_refresh_from_finds_last_value() {
    let mut slot = Slot::new();
    let mut cached = 0;
    refresh_from(&mut cached, Some(&mut slot));
    assert_eq!(cached, 0);
    assert_eq!(deliver(Some(&mut slot), 2), Ok(()));
    assert_eq!(deliver(Some(&mut slot), 12), Ok(()));
    refresh_from(&mut cached, Some(&mut slot));
    assert_eq!(cached, 12);
    refresh_from(&mut cached, Some(&mut slot));
    assert_eq!(cached, 12);
}

#[test]
fn slot_behind_sound_lock_is_reached() {
    let shared = Mutex::new(Slot::new());
    shared.lock().unwrap().deposit(5);
    let mut cached = 1;
    {
        let mut attempt = shared.lock();
        refresh_from(&mut cached, slot_behind(&mut attempt));
    }
    assert_eq!(cached, 5);
    {
        let mut attempt = shared.lock();
        assert_eq!(deliver(slot_behind(&mut attempt), 6), Ok(()));
    }
    assert_eq!(shared.lock().unwrap().drain(), Some(6));
}

#[test]
fn slot_behind_poisoned_lock_is_not_reached() {
    let shared = Mutex::new(Slot::new());
    shared.lock().unwrap().deposit(5);
    {
        let mut attempt = Err(PoisonError::new(shared.lock().unwrap()));
        assert!(slot_behind(&mut attempt).is_none());
    }
    assert_eq!(shared.lock().unwrap().drain(), Some(5));
}

#[test]
fn read_through_poisoned_lock_keeps_value() {
    let shared = Mutex::new(Slot::new());
    shared.lock().unwrap().deposit(5);
    let mut cached = 1;
    {
        let mut attempt = Err(PoisonError::new(shared.lock().unwrap()));
        refresh_from(&mut cached, slot_behind(&mut attempt));
    }
    assert_eq!(cached, 1);
    assert_eq!(shared.lock().unwrap().drain(), Some(5));
}

#[test]
fn write_through_poisoned_lock_returns_value() {
    let shared = Mutex::new(Slot::new());
    shared.lock().unwrap().deposit(5);
    {
        let mut attempt = Err(PoisonError::new(shared.lock().unwrap()));
        assert_eq!(deliver(slot_behind(&mut attempt), 6), Err(NoReceiverError(6)));
    }
    assert_eq!(shared.lock().unwrap().drain(), Some(5));
}

#[test]
fn none_observing_only_at_zero() {
    assert!(none_observing(0));
    assert!(!none_observing(1));
    assert!(!none_observing(2));
    assert!(!none_observing(usize::MAX));
}

#[test]
fn slot_is_gone_without_target() {
    assert!(slot_is_gone(None::<Arc<Mutex<Slot<i32>>>>));
}

#[test]
fn slot_is_not_gone_with_target() {
    let shared = Arc::new(Mutex::new(Slot::new()));
    assert!(!slot_is_gone(Some(shared.clone())));
    shared.lock().unwrap().deposit(1);
    assert!(!slot_is_gone(Some(shared.clone())));
    assert_eq!(shared.lock().unwrap().drain(), Some(1));
}
