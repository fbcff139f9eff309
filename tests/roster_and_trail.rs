use orbital_core::kind::BodyType;
use orbital_core::roster::{ImportError, Roster};
use orbital_core::trail::{Trail, MAX_TRAIL_POINTS};

#[test]
fn default_kind_is_planet() {
    assert_eq!(BodyType::default(), BodyType::Planet);
}

#[test]
fn fixed_body_becomes_star() {
    assert_eq!(BodyType::for_new_body(true), BodyType::Star);
    assert_eq!(BodyType::for_new_body(false), BodyType::Planet);
}

#[test]
fn only_spacecraft_accepts_thrust() {
    assert!(BodyType::Spacecraft.accepts_thrust());
    assert!(!BodyType::Planet.accepts_thrust());
    assert!(!BodyType::Star.accepts_thrust());
}

#[test]
fn trail_keeps_newest_five_hundred() {
    let mut t: Trail<u32> = Trail::new();
    for k in 0..(MAX_TRAIL_POINTS as u32 + 25) {
        t.push(k);
        assert!(t.len() <= MAX_TRAIL_POINTS);
    }
    assert_eq!(t.len(), MAX_TRAIL_POINTS);
    assert_eq!(*t.get(0), 25);
    assert_eq!(*t.get(MAX_TRAIL_POINTS - 1), 524);
}

#[test]
fn trail_below_bound_keeps_everything() {
    let mut t: Trail<u32> = Trail::new();
    t.push(7);
    t.push(8);
    assert_eq!(t.len(), 2);
    assert_eq!(*t.get(0), 7);
    t.clear();
    assert_eq!(t.len(), 0);
}

#[test]
fn ids_are_allocated_in_order() {
    let mut r: Roster<&str> = Roster::new();
    assert_eq!(r.add("sun"), 0);
    assert_eq!(r.add("earth"), 1);
    assert_eq!(r.next_id(), 2);
    assert_eq!(r.ids(), &vec![0, 1]);
    assert_eq!(r.find(1), Some(1));
    assert_eq!(r.find(5), None);
}

#[test]
fn next_id_stays_above_live_ids() {
    let mut r: Roster<u8> = Roster::new();
    for k in 0..10u8 {
        r.add(k);
    }
    r.remove(3);
    r.remove(9);
    let id = r.add(42);
    assert_eq!(id, 10);
    for &i in r.ids() {
        assert!(i < r.next_id());
    }
}

#[test]
fn removing_an_absent_id_changes_nothing() {
    let mut r: Roster<u8> = Roster::new();
    r.add(1);
    r.add(2);
    r.remove(7);
    assert_eq!(r.len(), 2);
    r.remove(0);
    assert_eq!(r.ids(), &vec![1]);
    assert_eq!(r.bodies(), &vec![2]);
}

#[test]
fn clear_restarts_ids() {
    let mut r: Roster<u8> = Roster::new();
    r.add(1);
    r.clear();
    assert!(r.is_empty());
    assert_eq!(r.next_id(), 0);
    assert_eq!(r.add(5), 0);
}

#[test]
fn body_mut_changes_one_body() {
    let mut r: Roster<u32> = Roster::new();
    r.add(10);
    r.add(20);
    *r.body_mut(1) = 25;
    assert_eq!(r.bodies(), &vec![10, 25]);
    assert_eq!(*r.body(0), 10);
    assert_eq!(r.id_at(1), 1);
}

#[test]
fn flagged_bodies_are_removed_in_order() {
    let mut r: Roster<char> = Roster::new();
    for c in ['a', 'b', 'c', 'd', 'e'] {
        r.add(c);
    }
    r.remove_flagged(&vec![false, true, false, true, false]);
    assert_eq!(r.bodies(), &vec!['a', 'c', 'e']);
    assert_eq!(r.ids(), &vec![0, 2, 4]);
    assert_eq!(r.next_id(), 5);
}

#[test]
fn import_raises_next_id_above_largest() {
    let r = Roster::from_records(vec![4, 9, 2], vec!['x', 'y', 'z'], 3).unwrap();
    assert_eq!(r.next_id(), 10);
    let r = Roster::from_records(vec![4, 9, 2], vec!['x', 'y', 'z'], 40).unwrap();
    assert_eq!(r.next_id(), 40);
}

#[test]
fn import_of_no_bodies_starts_at_one() {
    let r: Roster<u8> = Roster::from_records(vec![], vec![], 0).unwrap();
    assert_eq!(r.next_id(), 1);
}

#[test]
fn import_rejects_duplicate_ids() {
    let r = Roster::from_records(vec![1, 2, 1], vec![0u8, 0, 0], 5);
    assert_eq!(r.unwrap_err(), ImportError::DuplicateId(1));
}

#[test]
fn import_rejects_largest_id() {
    let r = Roster::from_records(vec![u32::MAX], vec![0u8], 0);
    assert_eq!(r.unwrap_err(), ImportError::IdsExhausted);
}
