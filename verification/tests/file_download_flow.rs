use fileshare::dtos::{DownloadFileRequest, UploadFileRequest};
use fileshare::error::{AppError, BadRequestError, CryptoError};
use fileshare::file::FileStore;
use fileshare::handler_file::{download_file, prepare_upload, upload_file, user_files};

const T0: i64 = 1_700_000_000;

fn upload_request() -> UploadFileRequest {
    let mut req = UploadFileRequest::default();
    req.file_name = "hello.bin".to_string();
    req.user_id = 5;
    req.file_data = b"0123456789".to_vec();
    req.size = 10;
    req.mime_type = "application/octet-stream".to_string();
    req.password = "secret".to_string();
    req.expires_at = T0 + 3600;
    req.max_downloads = 1;
    req
}

#[test]
fn upload_then_single_download_scenario() {
    let mut files = FileStore::new();
    let mut req = upload_request();

    let blob = prepare_upload(&req, T0).ok().unwrap();
    req.cid = "files/blob-1".to_string();
    let resp = upload_file(&mut files, &req, T0).ok().unwrap();
    assert_eq!(resp.message, "File uploaded successfully");

    let dl = DownloadFileRequest { file_id: resp.id, password: Some("secret".to_string()) };
    let served = download_file(
        &mut files,
        &dl,
        &blob,
        "192.0.2.1".to_string(),
        Some("curl/8".to_string()),
        T0 + 10,
    )
    .ok()
    .unwrap();
    assert_eq!(served.content, b"0123456789".to_vec());
    assert_eq!(served.name, "hello.bin");
    assert_eq!(served.mime_type, "application/octet-stream");

    let second = download_file(&mut files, &dl, &blob, "192.0.2.1".to_string(), None, T0 + 20);
    assert_eq!(second.err().unwrap(), AppError::BadRequest(BadRequestError::QuotaExceeded));
}

#[test]
fn failed_decryption_does_not_consume_a_slot() {
    let mut files = FileStore::new();
    let mut req = upload_request();
    let blob = prepare_upload(&req, T0).ok().unwrap();
    req.cid = "files/blob-2".to_string();
    let resp = upload_file(&mut files, &req, T0).ok().unwrap();

    let wrong = DownloadFileRequest { file_id: resp.id, password: Some("guess".to_string()) };
    let r = download_file(&mut files, &wrong, &blob, "192.0.2.2".to_string(), None, T0 + 1);
    assert_eq!(r.err().unwrap(), AppError::Crypto(CryptoError::DecryptFailure));

    // The slot is still free: the right password succeeds afterwards.
    let right = DownloadFileRequest { file_id: resp.id, password: Some("secret".to_string()) };
    download_file(&mut files, &right, &blob, "192.0.2.2".to_string(), None, T0 + 2).ok().unwrap();
}

#[test]
fn absent_password_uses_the_default() {
    let mut files = FileStore::new();
    let mut req = upload_request();
    req.password = "default-password".to_string();
    let blob = prepare_upload(&req, T0).ok().unwrap();
    req.cid = "files/blob-3".to_string();
    let resp = upload_file(&mut files, &req, T0).ok().unwrap();

    let dl = DownloadFileRequest { file_id: resp.id, password: None };
    let served =
        download_file(&mut files, &dl, &blob, "192.0.2.3".to_string(), None, T0 + 1).ok().unwrap();
    assert_eq!(served.content, b"0123456789".to_vec());
}

#[test]
fn user_files_lists_the_owners_records() {
    let mut files = FileStore::new();
    let mut req = upload_request();
    req.cid = "files/blob-4".to_string();
    upload_file(&mut files, &req, T0).ok().unwrap();
    let listing = user_files(&files, 5);
    assert_eq!(listing.files.len(), 1);
    assert_eq!(listing.files[0].cid, "files/blob-4");
    assert!(user_files(&files, 6).files.is_empty());
}
