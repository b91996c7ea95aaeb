use fileshare::file::{DownloadEntry, FileStore};

const T0: i64 = 1_700_000_000;

#[test]
fn sweep_removes_expired_file_and_returns_its_handle_once() {
    let mut store = FileStore::new();
    store.create_file(1, "old", 1, "files/old", "text/plain", 1, T0 + 60, T0).ok().unwrap();
    let removed = store.sweep_dead(T0 + 60);
    assert_eq!(removed, vec!["files/old".to_string()]);
    assert_eq!(store.len(), 0);
}

#[test]
fn sweep_removes_over_quota_file() {
    let mut store = FileStore::new();
    let id = store
        .create_file(1, "hot", 1, "files/hot", "text/plain", 1, T0 + 3600, T0)
        .ok()
        .unwrap();
    store
        .record_download(id, DownloadEntry::new("198.51.100.1".to_string(), None, T0 + 1))
        .ok()
        .unwrap();
    let removed = store.sweep_dead(T0 + 2);
    assert_eq!(removed, vec!["files/hot".to_string()]);
    assert_eq!(store.len(), 0);
}

#[test]
fn sweep_keeps_live_files_and_is_idempotent() {
    let mut store = FileStore::new();
    store.create_file(1, "old", 1, "files/old", "text/plain", 1, T0 + 10, T0).ok().unwrap();
    store.create_file(1, "new", 1, "files/new", "text/plain", 1, T0 + 9999, T0).ok().unwrap();
    let removed = store.sweep_dead(T0 + 100);
    assert_eq!(removed, vec!["files/old".to_string()]);
    assert_eq!(store.len(), 1);
    let removed_again = store.sweep_dead(T0 + 100);
    assert!(removed_again.is_empty());
    assert_eq!(store.len(), 1);
    assert_eq!(store.list_by_owner(1)[0].name, "new");
}
