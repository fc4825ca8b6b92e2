//! Tests for the descriptor-set bridge: translation, ordering,
//! registration life cycle and reconciliation.

use libusb_async::errors::AsyncError;
use libusb_async::pump::pump_begin;
use libusb_async::registration::build_descriptor_set;
use libusb_async::registration::desc_sets_equal;
use libusb_async::registration::translate_pollfd;
use libusb_async::registration::PollDesc;
use libusb_async::registration::RegistrationState;

fn desc(fd: i32, readable: bool, writable: bool) -> PollDesc {
    PollDesc { fd, readable, writable }
}

#[test]
fn readiness_flags_translate() {
    assert_eq!(translate_pollfd(3, 1), desc(3, true, false));
    assert_eq!(translate_pollfd(3, 4), desc(3, false, true));
    assert_eq!(translate_pollfd(3, 5), desc(3, true, true));
    assert_eq!(translate_pollfd(3, 0), desc(3, false, false));
    // Other poll bits do not affect the readiness interest.
    assert_eq!(translate_pollfd(3, 8 | 1), desc(3, true, false));
}

#[test]
fn descriptor_set_is_sorted_and_complete() {
    let raw = vec![(9, 1u16), (2, 4u16), (9, 4u16), (2, 1u16)];
    let set = build_descriptor_set(&raw);
    assert_eq!(
        set,
        vec![desc(2, true, false), desc(2, false, true), desc(9, true, false), desc(9, false, true)]
    );
}

#[test]
fn empty_descriptor_set() {
    let set = build_descriptor_set(&Vec::new());
    assert!(set.is_empty());
    assert!(desc_sets_equal(&set, &Vec::new()));
}

#[test]
fn descriptor_set_equality_is_element_wise() {
    let a = build_descriptor_set(&vec![(1, 1u16), (2, 4u16)]);
    let b = build_descriptor_set(&vec![(2, 4u16), (1, 1u16)]);
    assert!(desc_sets_equal(&a, &b));
    let c = build_descriptor_set(&vec![(1, 1u16)]);
    assert!(!desc_sets_equal(&a, &c));
}

#[test]
fn double_registration_is_rejected() {
    let mut reg = RegistrationState::new();
    reg.register(1, vec![desc(4, true, false)]).unwrap();
    let r = reg.register(2, vec![desc(5, true, false)]);
    match r {
        Err(e) => {
            assert_eq!(e, AsyncError::AlreadyRegistered);
            assert!(e.is_fatal());
        }
        Ok(_) => panic!("second registration must be rejected"),
    }
    // The first registration is untouched.
    assert_eq!(reg.reg.as_ref().unwrap().token, 1);
    assert_eq!(reg.reg.as_ref().unwrap().descs, vec![desc(4, true, false)]);
}

#[test]
fn deregistration_without_registration_is_rejected() {
    let mut reg = RegistrationState::new();
    let r = reg.deregister();
    match r {
        Err(e) => {
            assert_eq!(e, AsyncError::NotRegistered);
            assert!(e.is_fatal());
        }
        Ok(_) => panic!("deregistration without registration must be rejected"),
    }
}

#[test]
fn register_deregister_round_trip() {
    let mut reg = RegistrationState::new();
    let set = vec![desc(4, true, false), desc(6, false, true)];
    reg.register(11, set.clone()).unwrap();
    let removed = reg.deregister().unwrap();
    assert_eq!(removed, set);
    assert!(reg.reg.is_none());
    // A new registration is accepted again.
    reg.register(12, set).unwrap();
}

#[test]
fn pump_before_registration_is_refused() {
    let reg = RegistrationState::new();
    assert_eq!(pump_begin(&reg), Err(AsyncError::RegisterBeforeHandling));
    let mut reg2 = RegistrationState::new();
    reg2.register(1, Vec::new()).unwrap();
    assert!(pump_begin(&reg2).is_ok());
}

#[test]
fn reconcile_added_descriptor_registers_exactly_the_new_one() {
    let mut reg = RegistrationState::new();
    let before = build_descriptor_set(&vec![(5, 1u16)]);
    reg.register(7, before).unwrap();
    let now = build_descriptor_set(&vec![(5, 1u16), (9, 4u16)]);
    let plan = reg.reconcile(now).unwrap();
    assert_eq!(plan.token, 7);
    assert!(plan.removed.is_empty());
    assert_eq!(plan.added, vec![desc(9, false, true)]);
    let stored = &reg.reg.as_ref().unwrap().descs;
    assert!(stored.contains(&desc(9, false, true)));
    assert!(stored.contains(&desc(5, true, false)));
}

#[test]
fn reconcile_removed_descriptor_deregisters_exactly_the_stale_one() {
    let mut reg = RegistrationState::new();
    let before = build_descriptor_set(&vec![(5, 1u16), (9, 4u16)]);
    reg.register(7, before).unwrap();
    let now = build_descriptor_set(&vec![(9, 4u16)]);
    let plan = reg.reconcile(now).unwrap();
    assert_eq!(plan.removed, vec![desc(5, true, false)]);
    assert!(plan.added.is_empty());
    assert_eq!(reg.reg.as_ref().unwrap().descs, vec![desc(9, false, true)]);
}

#[test]
fn reconcile_unchanged_set_plans_nothing() {
    let mut reg = RegistrationState::new();
    let set = build_descriptor_set(&vec![(5, 1u16), (9, 4u16)]);
    reg.register(3, set.clone()).unwrap();
    let plan = reg.reconcile(set.clone()).unwrap();
    assert!(plan.removed.is_empty());
    assert!(plan.added.is_empty());
    assert_eq!(reg.reg.as_ref().unwrap().descs, set);
}

#[test]
fn reconcile_readiness_change_swaps_the_descriptor() {
    let mut reg = RegistrationState::new();
    reg.register(3, build_descriptor_set(&vec![(5, 1u16)])).unwrap();
    let plan = reg.reconcile(build_descriptor_set(&vec![(5, 5u16)])).unwrap();
    assert_eq!(plan.removed, vec![desc(5, true, false)]);
    assert_eq!(plan.added, vec![desc(5, true, true)]);
}

#[test]
fn reconcile_without_registration_is_rejected() {
    let mut reg = RegistrationState::new();
    let r = reg.reconcile(Vec::new());
    match r {
        Err(e) => assert_eq!(e, AsyncError::NotRegistered),
        Ok(_) => panic!("reconciliation without registration must be rejected"),
    }
}
