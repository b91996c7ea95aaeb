use fileshare::error::{AppError, BadRequestError, ValidationError};
use fileshare::file::{DownloadEntry, FileStore};

const T0: i64 = 1_700_000_000;

fn entry(t: i64) -> DownloadEntry {
    DownloadEntry::new("203.0.113.9".to_string(), Some("curl/8".to_string()), t)
}

fn store_with_file(max_downloads: u8, expires_at: i64) -> (FileStore, u64) {
    let mut store = FileStore::new();
    let id = store
        .create_file(1, "report.pdf", 512, "files/abc", "application/pdf", max_downloads,
            expires_at, T0)
        .ok()
        .unwrap();
    (store, id)
}

#[test]
fn quota_of_one_allows_exactly_one_download() {
    let (mut store, id) = store_with_file(1, T0 + 3600);
    store.authorize_download(id, T0 + 10).ok().unwrap();
    store.record_download(id, entry(T0 + 10)).ok().unwrap();
    let r = store.authorize_download(id, T0 + 20);
    assert_eq!(r.err().unwrap(), AppError::BadRequest(BadRequestError::QuotaExceeded));
}

#[test]
fn record_download_is_a_conditional_increment() {
    let (mut store, id) = store_with_file(1, T0 + 3600);
    store.record_download(id, entry(T0 + 1)).ok().unwrap();
    let r = store.record_download(id, entry(T0 + 2));
    assert_eq!(r.err().unwrap(), AppError::BadRequest(BadRequestError::QuotaExceeded));
}

#[test]
fn expired_file_is_refused() {
    let (store, id) = store_with_file(3, T0 + 100);
    let r = store.authorize_download(id, T0 + 100);
    assert_eq!(r.err().unwrap(), AppError::BadRequest(BadRequestError::FileExpired));
}

#[test]
fn missing_file_is_refused() {
    let (mut store, id) = store_with_file(3, T0 + 100);
    let r = store.authorize_download(id + 1, T0);
    assert_eq!(r.err().unwrap(), AppError::BadRequest(BadRequestError::NoSuchFile));
    let r2 = store.record_download(id + 1, entry(T0));
    assert_eq!(r2.err().unwrap(), AppError::BadRequest(BadRequestError::NoSuchFile));
}

#[test]
fn create_rejects_out_of_range_limits() {
    let mut store = FileStore::new();
    let r = store.create_file(1, "a", 1, "files/x", "text/plain", 0, T0 + 10, T0);
    assert_eq!(r.err().unwrap(), AppError::Validation(ValidationError::MaxDownloadsOutOfRange));
    let r2 = store.create_file(1, "a", 1, "files/x", "text/plain", 11, T0 + 10, T0);
    assert_eq!(r2.err().unwrap(), AppError::Validation(ValidationError::MaxDownloadsOutOfRange));
    let r3 = store.create_file(1, "a", 1, "files/x", "text/plain", 1, T0, T0);
    assert_eq!(r3.err().unwrap(), AppError::Validation(ValidationError::ExpiryNotInFuture));
    assert_eq!(store.len(), 0);
}

#[test]
fn list_by_owner_returns_only_their_files() {
    let mut store = FileStore::new();
    store.create_file(1, "a", 1, "files/a", "text/plain", 1, T0 + 10, T0).ok().unwrap();
    store.create_file(2, "b", 1, "files/b", "text/plain", 1, T0 + 10, T0).ok().unwrap();
    store.create_file(1, "c", 1, "files/c", "text/plain", 1, T0 + 10, T0).ok().unwrap();
    let mine = store.list_by_owner(1);
    assert_eq!(mine.len(), 2);
    assert_eq!(mine[0].name, "a");
    assert_eq!(mine[1].name, "c");
    assert!(store.list_by_owner(3).is_empty());
}
