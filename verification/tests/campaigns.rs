use dnd_sessions::campaign_ops::CampaignFilters;
use dnd_sessions::model::OpError;
use dnd_sessions::store::Store;

const G1: i64 = 100;
const G2: i64 = 200;
const U1: i64 = 11;
const U2: i64 = 22;

fn seeded() -> Store {
    let mut store = Store::new();
    store
        .create_campaign(G1, U1, "Curse of Strahd".to_string(), None, None, 1000)
        .unwrap();
    store
}

#[test]
fn create_then_duplicate() {
    let mut store = Store::new();
    let first = store.create_campaign(G1, U1, "Tomb".to_string(), None, None, 1000);
    let second = store.create_campaign(G1, U2, "Tomb".to_string(), None, None, 1001);
    assert_eq!(first, Ok(1));
    assert_eq!(second, Err(OpError::DuplicateName));
    assert_eq!(store.get_campaigns(G1).len(), 1);
}

#[test]
fn same_name_in_other_community_is_fine() {
    let mut store = seeded();
    let r = store.create_campaign(G2, U2, "Curse of Strahd".to_string(), None, None, 1002);
    assert_eq!(r, Ok(2));
    assert_eq!(store.get_campaigns(G1).len(), 1);
    assert_eq!(store.get_campaigns(G2).len(), 1);
}

#[test]
fn existence_and_resolution() {
    let store = seeded();
    assert!(store.does_campaign_exist("Curse of Strahd", G1));
    assert!(store.is_campaign_name_taken("Curse of Strahd", G1));
    assert!(!store.does_campaign_exist("Curse of Strahd", G2));
    assert!(!store.does_campaign_exist("curse of strahd", G1));
    assert_eq!(store.get_id_from_name("Curse of Strahd", G1), Some(1));
    assert_eq!(store.get_id_from_name("Unknown", G1), None);
    assert_eq!(
        store.get_name_from_id(1, G1).as_deref(),
        Some("Curse of Strahd")
    );
    assert_eq!(store.get_name_from_id(7, G1), None);
}

#[test]
fn rename_to_own_name_is_not_a_duplicate() {
    let mut store = seeded();
    let r = store.rename_campaign(G1, "Curse of Strahd", "Curse of Strahd".to_string());
    assert_eq!(r, Ok(()));
    assert!(store.does_campaign_exist("Curse of Strahd", G1));
}

#[test]
fn rename_moves_the_name() {
    let mut store = seeded();
    assert_eq!(
        store.rename_campaign(G1, "Curse of Strahd", "Ravenloft".to_string()),
        Ok(())
    );
    assert!(!store.does_campaign_exist("Curse of Strahd", G1));
    assert!(store.does_campaign_exist("Ravenloft", G1));
    assert_eq!(store.get_id_from_name("Ravenloft", G1), Some(1));
}

#[test]
fn rename_errors() {
    let mut store = seeded();
    store
        .create_campaign(G1, U2, "Tomb".to_string(), None, None, 1001)
        .unwrap();
    assert_eq!(
        store.rename_campaign(G1, "Missing", "Other".to_string()),
        Err(OpError::NotFound)
    );
    assert_eq!(
        store.rename_campaign(G1, "Tomb", "Curse of Strahd".to_string()),
        Err(OpError::DuplicateName)
    );
}

#[test]
fn field_updates() {
    let mut store = seeded();
    assert_eq!(
        store.update_campaign_description(G1, "Curse of Strahd", "Gothic horror".to_string()),
        Ok(())
    );
    assert_eq!(
        store.update_campaign_link(G1, "Curse of Strahd", "https://example.test/cos".to_string()),
        Ok(())
    );
    assert_eq!(store.update_campaign_dm(G1, "Curse of Strahd", U2), Ok(()));
    let c = store
        .get_campaign(G1, CampaignFilters::Name("Curse of Strahd".to_string()))
        .unwrap();
    assert_eq!(c.description.as_deref(), Some("Gothic horror"));
    assert_eq!(c.link.as_deref(), Some("https://example.test/cos"));
    assert_eq!(c.dm_id, U2);
    assert_eq!(
        store.update_campaign_description(G1, "Missing", "x".to_string()),
        Err(OpError::NotFound)
    );
    assert_eq!(
        store.update_campaign_link(G1, "Missing", "x".to_string()),
        Err(OpError::NotFound)
    );
    assert_eq!(store.update_campaign_dm(G1, "Missing", U2), Err(OpError::NotFound));
}

#[test]
fn soft_delete_frees_name_and_hides_campaign() {
    let mut store = seeded();
    assert_eq!(store.soft_delete_campaign(G1, "Curse of Strahd"), Ok(()));
    assert!(store.get_campaigns(G1).is_empty());
    assert_eq!(store.get_id_from_name("Curse of Strahd", G1), None);
    assert!(!store.does_campaign_exist("Curse of Strahd", G1));
    // The record itself survives, reachable by identifier.
    assert_eq!(
        store.get_name_from_id(1, G1).as_deref(),
        Some("Curse of Strahd")
    );
    // The name may be used again.
    assert_eq!(
        store.create_campaign(G1, U2, "Curse of Strahd".to_string(), None, None, 2000),
        Ok(2)
    );
    assert_eq!(
        store.soft_delete_campaign(G1, "Missing"),
        Err(OpError::NotFound)
    );
}

#[test]
fn get_campaign_filters() {
    let mut store = seeded();
    store
        .create_campaign(G1, U2, "Tomb".to_string(), None, None, 1001)
        .unwrap();
    let by_name = store
        .get_campaign(G1, CampaignFilters::Name("Tomb".to_string()))
        .unwrap();
    assert_eq!(by_name.id, 2);
    let by_id = store.get_campaign(G1, CampaignFilters::Id(1)).unwrap();
    assert_eq!(by_id.name, "Curse of Strahd");
    let by_dm = store.get_campaign(G1, CampaignFilters::DmId(U2)).unwrap();
    assert_eq!(by_dm.id, 2);
    assert!(store
        .get_campaign(G1, CampaignFilters::Name("Missing".to_string()))
        .is_none());
    assert!(store.get_campaign(G1, CampaignFilters::Id(9)).is_none());
}

#[test]
fn names_and_autocompletion() {
    let mut store = seeded();
    store
        .create_campaign(G1, U2, "Curse of the Azure Bonds".to_string(), None, None, 1001)
        .unwrap();
    store
        .create_campaign(G1, U2, "Tomb".to_string(), None, None, 1002)
        .unwrap();
    let names = store.get_campaign_names(G1);
    assert_eq!(
        names,
        vec![
            "Curse of Strahd".to_string(),
            "Curse of the Azure Bonds".to_string(),
            "Tomb".to_string()
        ]
    );
    let hits = store.autocomplete_campaign(G1, "Curse");
    assert_eq!(
        hits,
        vec![
            "Curse of Strahd".to_string(),
            "Curse of the Azure Bonds".to_string()
        ]
    );
    assert_eq!(store.autocomplete_campaign(G1, "Z"), Vec::<String>::new());
    assert_eq!(store.autocomplete_campaign(G1, "").len(), 3);
}
