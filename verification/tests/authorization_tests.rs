use pocs::authorization::{authorize_node, pending_entries, take_pending};
use std::collections::BTreeMap;

#[test]
fn authorizations_are_listed_by_request_id() {
    let mut pending = BTreeMap::new();
    authorize_node(&mut pending, 70, 9);
    authorize_node(&mut pending, 30, 2);
    authorize_node(&mut pending, 50, 5);
    assert_eq!(pending_entries(&pending), vec![(2, 30), (5, 50), (9, 70)]);
}

#[test]
fn a_later_authorization_replaces_an_earlier_one() {
    let mut pending = BTreeMap::new();
    authorize_node(&mut pending, 30, 2);
    authorize_node(&mut pending, 31, 2);
    assert_eq!(pending_entries(&pending), vec![(2, 31)]);
}

#[test]
fn taking_the_pending_authorizations_empties_them() {
    let mut pending = BTreeMap::new();
    authorize_node(&mut pending, 30, 2);
    authorize_node(&mut pending, 10, 1);
    assert_eq!(take_pending(&mut pending), vec![(1, 10), (2, 30)]);
    assert!(pending.is_empty());
    assert!(take_pending(&mut pending).is_empty());
}
