use adapter_supervisor::model::{SavedConnection, UpdateInfo};
use adapter_supervisor::saved::{
    delete_saved_connection, save_connection, save_connection_at, update_saved_connection_last_used,
    update_saved_connection_last_used_at,
};

fn entry(id: &str, name: &str, project_key: &str, profile: &str, used: Option<&str>) -> SavedConnection {
    SavedConnection {
        id: id.to_string(),
        name: name.to_string(),
        project_key: project_key.to_string(),
        profile: profile.to_string(),
        last_used_at: used.map(|s| s.to_string()),
    }
}

fn summary(list: &[SavedConnection]) -> Vec<(String, String, String, String, Option<String>)> {
    list.iter()
        .map(|c| (c.id.clone(), c.name.clone(), c.project_key.clone(), c.profile.clone(), c.last_used_at.clone()))
        .collect()
}

fn row(id: &str, name: &str, pk: &str, profile: &str, used: Option<&str>) -> (String, String, String, String, Option<String>) {
    (id.to_string(), name.to_string(), pk.to_string(), profile.to_string(), used.map(|s| s.to_string()))
}

#[test]
fn a_new_connection_is_saved_last_under_the_fresh_identifier() {
    let mut list = vec![entry("1", "one", "p", "dev", None)];
    let saved = save_connection_at(
        &mut list,
        "two".to_string(),
        "p".to_string(),
        "prod".to_string(),
        "1700000000000".to_string(),
        "id-2".to_string(),
    );
    assert_eq!(summary(&[saved]), vec![row("id-2", "two", "p", "prod", Some("1700000000000"))]);
    assert_eq!(
        summary(&list),
        vec![row("1", "one", "p", "dev", None), row("id-2", "two", "p", "prod", Some("1700000000000"))]
    );
}

#[test]
fn saving_for_a_known_project_and_profile_renews_the_entry() {
    let mut list = vec![
        entry("1", "one", "p", "dev", Some("5")),
        entry("2", "two", "p", "prod", None),
        entry("3", "three", "p", "dev", None),
    ];
    let saved = save_connection_at(
        &mut list,
        "renamed".to_string(),
        "p".to_string(),
        "dev".to_string(),
        "9000".to_string(),
        "unused".to_string(),
    );
    assert_eq!(summary(&[saved]), vec![row("1", "renamed", "p", "dev", Some("9000"))]);
    assert_eq!(
        summary(&list),
        vec![
            row("1", "renamed", "p", "dev", Some("9000")),
            row("2", "two", "p", "prod", None),
            row("3", "three", "p", "dev", None),
        ]
    );
}

#[test]
fn project_and_profile_must_both_agree() {
    let mut list = vec![entry("1", "one", "p", "dev", None)];
    save_connection_at(&mut list, "n".to_string(), "q".to_string(), "dev".to_string(), "1".to_string(), "a".to_string());
    save_connection_at(&mut list, "n".to_string(), "p".to_string(), "de".to_string(), "1".to_string(), "b".to_string());
    assert_eq!(list.len(), 3);
    assert_eq!(list[1].id, "a");
    assert_eq!(list[2].id, "b");
}

#[test]
fn saving_now_stamps_the_moment_and_makes_an_identifier() {
    let mut list = Vec::new();
    let first = save_connection(&mut list, "one".to_string(), "p".to_string(), "dev".to_string());
    assert_eq!(list.len(), 1);
    assert_eq!(first.id.len(), 36);
    assert_eq!(first.name, "one");
    let stamp: u128 = first.last_used_at.clone().unwrap().parse().unwrap();
    assert_eq!(stamp % 1000, 0);
    assert!(stamp > 1_600_000_000_000);
    let again = save_connection(&mut list, "uno".to_string(), "p".to_string(), "dev".to_string());
    assert_eq!(list.len(), 1);
    assert_eq!(again.id, first.id);
    assert_eq!(list[0].name, "uno");
    let other = save_connection(&mut list, "two".to_string(), "p".to_string(), "prod".to_string());
    assert_eq!(list.len(), 2);
    assert_ne!(other.id, first.id);
}

#[test]
fn deleting_takes_out_every_entry_with_the_identifier() {
    let mut list = vec![
        entry("1", "a", "p", "x", None),
        entry("2", "b", "p", "y", None),
        entry("1", "c", "p", "z", None),
        entry("3", "d", "p", "w", None),
    ];
    delete_saved_connection(&mut list, "1");
    assert_eq!(summary(&list), vec![row("2", "b", "p", "y", None), row("3", "d", "p", "w", None)]);
    delete_saved_connection(&mut list, "unknown");
    assert_eq!(list.len(), 2);
    delete_saved_connection(&mut list, "2");
    delete_saved_connection(&mut list, "3");
    assert!(list.is_empty());
    delete_saved_connection(&mut list, "3");
    assert!(list.is_empty());
}

#[test]
fn using_a_connection_stamps_the_first_entry_with_the_identifier() {
    let mut list = vec![
        entry("1", "a", "p", "x", None),
        entry("2", "b", "p", "y", Some("1")),
        entry("2", "c", "p", "z", None),
    ];
    update_saved_connection_last_used_at(&mut list, "2", "77000".to_string());
    assert_eq!(
        summary(&list),
        vec![row("1", "a", "p", "x", None), row("2", "b", "p", "y", Some("77000")), row("2", "c", "p", "z", None)]
    );
    update_saved_connection_last_used_at(&mut list, "9", "88000".to_string());
    assert_eq!(list[0].last_used_at, None);
    assert_eq!(list[1].last_used_at.as_deref(), Some("77000"));
}

#[test]
fn using_a_connection_now_stamps_the_present_moment() {
    let mut list = vec![entry("1", "a", "p", "x", None)];
    update_saved_connection_last_used(&mut list, "1");
    let stamp: u128 = list[0].last_used_at.clone().unwrap().parse().unwrap();
    assert_eq!(stamp % 1000, 0);
    assert!(stamp > 1_600_000_000_000);
    update_saved_connection_last_used(&mut list, "none");
    assert_eq!(list.len(), 1);
}

#[test]
fn a_check_that_found_a_version_offers_it() {
    let info = UpdateInfo::from_check("1.2.3", Some("1.3.0".to_string()));
    assert!(info.update_available);
    assert_eq!(info.current_version, "1.2.3");
    assert_eq!(info.latest_version.as_deref(), Some("1.3.0"));
    assert_eq!(info.download_url, None);
}

#[test]
fn a_check_that_found_nothing_offers_nothing() {
    let info = UpdateInfo::from_check("1.2.3", None);
    assert!(!info.update_available);
    assert_eq!(info.current_version, "1.2.3");
    assert_eq!(info.latest_version, None);
    assert_eq!(info.download_url, None);
}
