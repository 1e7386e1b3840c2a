use dnd_sessions::ids::{i64_to_u64, id_to_i64};
use dnd_sessions::model::{Decision, SessionStatus};
use dnd_sessions::store::Store;

const G1: i64 = 100;
const U1: i64 = 11;
const U2: i64 = 22;

#[test]
fn full_campaign_session_response_flow() {
    // Community G1 runs "Curse of Strahd" under DM U1.
    let mut store = Store::new();
    let now = 1000000000; // 2001-09-09, well before the scheduled date
    store
        .create_campaign(G1, U1, "Curse of Strahd".to_string(), None, None, now)
        .unwrap();

    // A session at the Tavern on 2030-01-01 18:00 starts out Pending.
    let session_id = store
        .create_session(G1, "Curse of Strahd", U1, "Tavern".to_string(), "2030-01-01 18:00", now)
        .unwrap();
    let session = store.get_session(session_id).unwrap();
    assert_eq!(session.status, SessionStatus::Pending);
    assert_eq!(session.location.as_deref(), Some("Tavern"));
    assert_eq!(session.scheduled_date, Some(1893520800));

    // U2 answers Going; the listing shows that one row.
    store
        .create_response(session_id, U2, Decision::Going, now + 5)
        .unwrap();
    let rows = store.get_responses_for_session(session_id);
    assert_eq!(rows.len(), 1);
    assert_eq!(rows[0].respondee_id, U2);
    assert_eq!(rows[0].response, Decision::Going);

    // Renaming the campaign to its current name is not a spurious duplicate.
    assert_eq!(
        store.rename_campaign(G1, "Curse of Strahd", "Curse of Strahd".to_string()),
        Ok(())
    );
    assert!(store.does_campaign_exist("Curse of Strahd", G1));
}

#[test]
fn identifier_round_trip() {
    assert_eq!(id_to_i64(0), 0);
    assert_eq!(id_to_i64(123456789012345), 123456789012345);
    assert_eq!(i64_to_u64(123456789012345), 123456789012345);
    assert_eq!(i64_to_u64(id_to_i64(987654321)), 987654321);
}
