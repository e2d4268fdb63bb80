use syn2mas::providers::ProviderMapping;
use syn2mas::session_index::SessionIndex;
use syn2mas::text::text_eq;

#[test]
fn session_index_starts_empty() {
    let index = SessionIndex::with_capacity(16);
    assert_eq!(index.get(1, "DEV1"), None);
    assert_eq!(index.get(0, ""), None);
}

#[test]
fn session_index_keeps_devices_and_users_apart() {
    let mut index = SessionIndex::with_capacity(0);
    index.insert(1, "DEV1".to_owned(), 100);
    index.insert(1, "DEV2".to_owned(), 200);
    index.insert(2, "DEV1".to_owned(), 300);
    assert_eq!(index.get(1, "DEV1"), Some(100));
    assert_eq!(index.get(1, "DEV2"), Some(200));
    assert_eq!(index.get(2, "DEV1"), Some(300));
    assert_eq!(index.get(2, "DEV2"), None);
    assert_eq!(index.get(3, "DEV1"), None);
    assert_eq!(index.get(1, "dev1"), None);
}

#[test]
fn session_index_takes_the_later_session_of_a_device() {
    let mut index = SessionIndex::with_capacity(0);
    index.insert(u128::MAX, String::new(), 1);
    index.insert(u128::MAX, String::new(), 2);
    assert_eq!(index.get(u128::MAX, ""), Some(2));
}

#[test]
fn provider_mapping_finds_what_was_mapped() {
    let mut providers = ProviderMapping::new();
    assert_eq!(providers.get("oidc-a"), None);
    providers.insert("oidc-a".to_owned(), 1);
    providers.insert("oidc-b".to_owned(), 2);
    assert_eq!(providers.get("oidc-a"), Some(1));
    assert_eq!(providers.get("oidc-b"), Some(2));
    assert_eq!(providers.get("oidc-c"), None);
    assert_eq!(providers.get("OIDC-A"), None);
}

#[test]
fn texts_are_equal_character_by_character() {
    assert!(text_eq("", ""));
    assert!(text_eq("email", "email"));
    assert!(!text_eq("email", "Email"));
    assert!(!text_eq("email", "emails"));
    assert!(!text_eq("emails", "email"));
    assert!(!text_eq("", "e"));
    assert!(text_eq("\u{e9}t\u{e9}", "\u{e9}t\u{e9}"));
    assert!(!text_eq("\u{e9}t\u{e9}", "ete"));
}
