use grok_code::backup::{BackupCandidate, BackupInfo, BackupManager, DirectoryEntry};
use grok_code::keystore::{KeyOperation, KeyStore};

#[test]
fn test_backup_pattern() {
    let manager = BackupManager::new(Some(7), None);
    let backup_name = manager.generate_backup_name("test.rs", "20240101_120000");

    assert!(backup_name.starts_with("test.rs."));
    assert!(backup_name.ends_with(".bak"));
    assert_eq!(backup_name, "test.rs.20240101_120000.bak");
}

#[test]
fn retention_comes_from_argument_environment_or_default() {
    assert_eq!(BackupManager::new(Some(3), Some("9")).retention_days(), 3);
    assert_eq!(BackupManager::new(None, Some("9")).retention_days(), 9);
    assert_eq!(BackupManager::new(None, Some("+12")).retention_days(), 12);
    assert_eq!(BackupManager::new(None, Some("nine")).retention_days(), 7);
    assert_eq!(BackupManager::new(None, Some("")).retention_days(), 7);
    assert_eq!(BackupManager::new(None, Some("-1")).retention_days(), 7);
    assert_eq!(BackupManager::new(None, Some("18446744073709551615")).retention_days(), u64::MAX);
    assert_eq!(BackupManager::new(None, Some("18446744073709551616")).retention_days(), 7);
    assert_eq!(BackupManager::new(None, None).retention_days(), 7);
    assert_eq!(BackupManager::default().retention_days(), 7);
}

#[test]
fn backups_are_told_by_their_names() {
    let manager = BackupManager::new(None, None);
    assert!(manager.is_backup_of("a.txt.20240101_000000.bak", "a.txt"));
    assert!(manager.is_backup_of("a.txt..bak", "a.txt"));
    assert!(!manager.is_backup_of("a.txt", "a.txt"));
    assert!(!manager.is_backup_of("b.txt.2024.bak", "a.txt"));
    assert!(!manager.is_backup_of("a.txt.2024.bak2", "a.txt"));
}

#[test]
fn backups_are_removed_after_the_retention() {
    let week = BackupManager::new(Some(7), None);
    assert!(week.cleans_up());
    assert!(!week.is_outdated(7 * 86400 - 1, 999_999_999));
    assert!(!week.is_outdated(7 * 86400, 0));
    assert!(week.is_outdated(7 * 86400, 1));
    assert!(week.is_outdated(8 * 86400, 0));
    let keep = BackupManager::new(Some(0), None);
    assert!(!keep.cleans_up());
    assert!(!keep.is_outdated(u64::MAX, 1));
    let long = BackupManager::new(Some(u64::MAX), None);
    assert!(!long.is_outdated(u64::MAX, 999_999_999));
}

#[test]
fn keystore_names_its_service_and_failures() {
    let store = KeyStore::new();
    assert_eq!(store.service(), "grok-code");
    assert_eq!(KeyStore::default().service(), "grok-code");
    assert_eq!(
        store.failure(KeyOperation::Open, "no backend").message(),
        "Configuration error: Failed to create keyring entry: no backend"
    );
    assert_eq!(
        store.failure(KeyOperation::Store, "denied").message(),
        "Configuration error: Failed to store API key: denied"
    );
    assert_eq!(
        store.failure(KeyOperation::Read, "missing").message(),
        "Configuration error: API key not found in keyring: missing"
    );
    assert_eq!(
        store.failure(KeyOperation::Delete, "missing").message(),
        "Configuration error: Failed to delete API key: missing"
    );
}

#[test]
fn old_backups_of_the_file_are_chosen_for_removal() {
    let entry = |name: &str, age: Option<(u64, u32)>| DirectoryEntry {
        path: format!("/p/{name}"),
        name: name.to_string(),
        age,
    };
    let day = 86400;
    let entries = vec![
        entry("a.txt", Some((30 * day, 0))),
        entry("a.txt.1.bak", Some((8 * day, 0))),
        entry("a.txt.2.bak", Some((6 * day, 0))),
        entry("b.txt.1.bak", Some((30 * day, 0))),
        entry("a.txt.3.bak", None),
        entry("a.txt.4.bak", Some((7 * day, 1))),
    ];
    let week = BackupManager::new(Some(7), None);
    assert_eq!(
        week.cleanup_old_backups("a.txt", &entries),
        vec!["/p/a.txt.1.bak".to_string(), "/p/a.txt.4.bak".to_string()]
    );
    let keep = BackupManager::new(Some(0), None);
    assert!(keep.cleanup_old_backups("a.txt", &entries).is_empty());
    assert!(week.cleanup_old_backups("c.txt", &entries).is_empty());
}

#[test]
fn backups_of_the_file_are_listed_newest_first() {
    let candidate = |name: &str, created: i64| BackupCandidate {
        name: name.to_string(),
        info: BackupInfo {
            path: format!("/p/{name}"),
            created,
            created_text: created.to_string(),
            size: 1,
        },
    };
    let manager = BackupManager::default();
    let listed = manager.list_backups(
        "a.txt",
        vec![
            candidate("a.txt.1.bak", 10),
            candidate("b.txt.9.bak", 99),
            candidate("a.txt.3.bak", 30),
            candidate("a.txt", 50),
            candidate("a.txt.2.bak", 20),
        ],
    );
    let paths: Vec<&str> = listed.iter().map(|b| b.path.as_str()).collect();
    assert_eq!(paths, vec!["/p/a.txt.3.bak", "/p/a.txt.2.bak", "/p/a.txt.1.bak"]);
}
