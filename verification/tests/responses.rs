use dnd_sessions::model::{Decision, OpError};
use dnd_sessions::store::Store;

const G1: i64 = 100;
const U1: i64 = 11;
const U2: i64 = 22;
const U3: i64 = 33;

const NOW: i64 = 1893520800;

fn seeded() -> Store {
    let mut store = Store::new();
    store
        .create_campaign(G1, U1, "Curse of Strahd".to_string(), None, None, NOW - 100)
        .unwrap();
    store
        .create_session(G1, "Curse of Strahd", U1, "Tavern".to_string(), "2030-02-01 18:00", NOW)
        .unwrap();
    store
}

#[test]
fn repeated_response_overwrites() {
    let mut store = seeded();
    assert_eq!(store.create_response(1, U2, Decision::Going, NOW + 1), Ok(()));
    assert_eq!(store.create_response(1, U2, Decision::NotGoing, NOW + 2), Ok(()));
    let rows = store.get_responses_for_session(1);
    assert_eq!(rows.len(), 1);
    assert_eq!(rows[0].respondee_id, U2);
    assert_eq!(rows[0].response, Decision::NotGoing);
    assert_eq!(rows[0].responded_date, NOW + 2);
}

#[test]
fn response_requires_existing_session() {
    let mut store = seeded();
    assert_eq!(
        store.create_response(2, U2, Decision::Going, NOW + 1),
        Err(OpError::NotFound)
    );
    assert_eq!(
        store.create_response(0, U2, Decision::Going, NOW + 1),
        Err(OpError::NotFound)
    );
    assert!(store.get_responses_for_session(2).is_empty());
}

#[test]
fn responses_accumulate_per_respondent() {
    let mut store = seeded();
    store.create_response(1, U1, Decision::Going, NOW + 1).unwrap();
    store.create_response(1, U2, Decision::NotGoing, NOW + 2).unwrap();
    store.create_response(1, U3, Decision::Going, NOW + 3).unwrap();
    let rows = store.get_responses_for_session(1);
    assert_eq!(rows.len(), 3);
    let going: Vec<i64> = rows
        .iter()
        .filter(|r| r.response == Decision::Going)
        .map(|r| r.respondee_id)
        .collect();
    let not_going: Vec<i64> = rows
        .iter()
        .filter(|r| r.response == Decision::NotGoing)
        .map(|r| r.respondee_id)
        .collect();
    assert_eq!(going, vec![U1, U3]);
    assert_eq!(not_going, vec![U2]);
}

#[test]
fn responses_against_cancelled_sessions_are_allowed() {
    let mut store = seeded();
    store.cancel_session(1).unwrap();
    assert_eq!(store.create_response(1, U2, Decision::Going, NOW + 1), Ok(()));
    assert_eq!(store.get_responses_for_session(1).len(), 1);
}

#[test]
fn update_response_by_identifier() {
    let mut store = seeded();
    store.create_response(1, U2, Decision::Going, NOW + 1).unwrap();
    assert_eq!(store.update_response(1, Decision::NotGoing, NOW + 5), Ok(()));
    let rows = store.get_responses_for_session(1);
    assert_eq!(rows[0].response, Decision::NotGoing);
    assert_eq!(rows[0].responded_date, NOW + 5);
    assert_eq!(
        store.update_response(2, Decision::Going, NOW + 6),
        Err(OpError::NotFound)
    );
}

#[test]
fn proxy_response_records_for_the_respondent() {
    // An organizer answering on a player's behalf files the record under the
    // player: the same upsert, keyed by (session, respondent).
    let mut store = seeded();
    store
        .record_on_behalf(1, U2, Decision::Going, U1, NOW + 1)
        .unwrap();
    let rows = store.get_responses_for_session(1);
    assert_eq!(rows.len(), 1);
    assert_eq!(rows[0].respondee_id, U2);
    assert_eq!(rows[0].response, Decision::Going);
    // The player answering afterwards overwrites the proxy record.
    store.create_response(1, U2, Decision::NotGoing, NOW + 2).unwrap();
    let rows = store.get_responses_for_session(1);
    assert_eq!(rows.len(), 1);
    assert_eq!(rows[0].response, Decision::NotGoing);
    assert_eq!(
        store.record_on_behalf(9, U2, Decision::Going, U1, NOW + 3),
        Err(OpError::NotFound)
    );
}
