use box_any::{Custody, Outcome, Request};
use std::any::TypeId;

fn tag<T: 'static>() -> TypeId {
    TypeId::of::<T>()
}

#[test]
fn fresh_custody_holds_its_type() {
    let c = Custody::new(tag::<Vec<usize>>());
    assert!(c.is_held());
    assert_eq!(c.type_id(), tag::<Vec<usize>>());
    assert!(c.is(tag::<Vec<usize>>()));
    assert!(c.admits(tag::<Vec<usize>>()));
}

#[test]
fn own_type_is_granted_repeatedly() {
    let mut c = Custody::new(tag::<Vec<String>>());
    assert_eq!(c.step(Request::Inspect(tag::<Vec<String>>())), Outcome::Grant);
    assert_eq!(c.step(Request::Inspect(tag::<Vec<String>>())), Outcome::Grant);
    assert!(c.is_held());
}

#[test]
fn other_type_is_denied_and_nothing_changes() {
    let mut c = Custody::new(tag::<Vec<usize>>());
    assert!(!c.is(tag::<String>()));
    assert!(!c.admits(tag::<String>()));
    assert_eq!(c.step(Request::Inspect(tag::<String>())), Outcome::Deny);
    assert_eq!(c.step(Request::Take(tag::<String>())), Outcome::Deny);
    assert!(c.is_held());
    assert_eq!(c.type_id(), tag::<Vec<usize>>());
    assert_eq!(c.step(Request::Inspect(tag::<Vec<usize>>())), Outcome::Grant);
}

#[test]
fn release_reclaims_once_per_container() {
    let mut all = vec![
        Custody::new(tag::<Vec<u8>>()),
        Custody::new(tag::<Vec<u16>>()),
        Custody::new(tag::<Vec<u32>>()),
        Custody::new(tag::<Vec<u64>>()),
    ];
    let mut reclaimed = 0;
    for c in all.iter_mut() {
        if c.step(Request::Release) == Outcome::Reclaim {
            reclaimed += 1;
        }
        assert_eq!(c.step(Request::Release), Outcome::Idle);
        assert!(!c.is_held());
    }
    assert_eq!(reclaimed, 4);
}

#[test]
fn unwrap_disarms_release() {
    let mut c = Custody::new(tag::<String>());
    assert_eq!(c.step(Request::Take(tag::<String>())), Outcome::Transfer);
    assert!(!c.is_held());
    assert!(c.is(tag::<String>()));
    assert!(!c.admits(tag::<String>()));
    assert_eq!(c.step(Request::Take(tag::<String>())), Outcome::Deny);
    assert_eq!(c.step(Request::Release), Outcome::Idle);
}

#[test]
fn failed_unwrap_keeps_release_armed() {
    let mut c = Custody::new(tag::<u32>());
    assert_eq!(c.step(Request::Take(tag::<u64>())), Outcome::Deny);
    assert!(c.is_held());
    assert_eq!(c.step(Request::Release), Outcome::Reclaim);
}

#[test]
fn unchecked_unwrap_matches_checked() {
    let mut checked = Custody::new(tag::<Vec<u8>>());
    let mut unchecked = Custody::new(tag::<Vec<u8>>());
    assert_eq!(checked.step(Request::Take(tag::<Vec<u8>>())), Outcome::Transfer);
    assert_eq!(unchecked.step(Request::TakeUnchecked), Outcome::Transfer);
    assert_eq!(checked.is_held(), unchecked.is_held());
    assert_eq!(unchecked.step(Request::TakeUnchecked), Outcome::Deny);
    assert_eq!(unchecked.step(Request::Release), Outcome::Idle);
}

#[test]
fn three_containers_only_string_is_string() {
    let all = vec![
        Custody::new(tag::<Vec<u8>>()),
        Custody::new(tag::<String>()),
        Custody::new(tag::<Vec<String>>()),
    ];
    let is_string: Vec<bool> = all.iter().map(|c| c.is(tag::<String>())).collect();
    assert_eq!(is_string, vec![false, true, false]);
    assert!(all[2].admits(tag::<Vec<String>>()));
    for c in all.iter() {
        assert!(!c.admits(tag::<u32>()));
    }
}
