//! The file handlers: upload, download, and the owner's listing.
//!
//! The surrounding program moves bytes to and from remote storage; the
//! steps in between stand here, in the written order of the service:
//! encrypt before the storage write before the metadata write, and
//! authorize before decrypt before the count increment, so a failed
//! decryption never consumes a download slot.

use vstd::prelude::*;

use crate::cipher::{
    decrypt_file_with_password, decrypted_blob, encrypt_file_with_password, PLAINTEXT_MAX,
};
use crate::dtos::{
    spec_validate_upload, DownloadFileRequest, UploadFileRequest, UploadFileResponse,
    UserFilesResponse,
};
use crate::error::{AppError, CryptoError};
use crate::file::{
    file_with_id, has_file_with_id, owner_pred, spec_authorize, DownloadEntry, FileModel,
    FileStore,
};

verus! {

/// Validates an upload request and encrypts its payload under the upload
/// password.  The caller writes the returned blob to remote storage,
/// sets the handle on the request, and then records the metadata with
/// `upload_file` — in that order, so the record never precedes the data.
pub fn prepare_upload(request: &UploadFileRequest, now: i64) -> (r: Result<Vec<u8>, AppError>)
    requires
        request.file_data@.len() <= PLAINTEXT_MAX,
    ensures
        match spec_validate_upload(
            request.file_name@,
            request.size,
            request.expires_at,
            request.max_downloads,
            now,
        ) {
            Err(v) => r == Err::<Vec<u8>, AppError>(AppError::Validation(v)),
            Ok(()) => {
                &&& (r matches Ok(blob) ==> decrypted_blob(blob@, request.password@) == Some(
                    request.file_data@,
                ) && blob@.len() == request.file_data@.len() + 44)
                &&& (r matches Err(e) ==> e == AppError::Crypto(CryptoError::RandomSource) || e
                    == AppError::Crypto(CryptoError::KeyDerivation))
            },
        },
{
    if let Err(e) = request.validate(now) {
        return Err(e);
    }
    let plaintext = vstd::slice::slice_to_vec(request.file_data.as_slice());
    match encrypt_file_with_password(plaintext, request.password.as_str()) {
        Ok(blob) => Ok(blob),
        Err(e) => Err(AppError::Crypto(e)),
    }
}

/// Records the metadata of an upload whose encrypted payload has been
/// stored under `request.cid`: validation first, then a fresh record with
/// no downloads; the response carries the record id.
pub fn upload_file(files: &mut FileStore, request: &UploadFileRequest, now: i64) -> (r: Result<
    UploadFileResponse,
    AppError,
>)
    requires
        old(files).wf(),
    ensures
        final(files).wf(),
        r is Err ==> final(files)@ == old(files)@,
        match spec_validate_upload(
            request.file_name@,
            request.size,
            request.expires_at,
            request.max_downloads,
            now,
        ) {
            Err(v) => r == Err::<UploadFileResponse, AppError>(AppError::Validation(v)),
            Ok(()) => if old(files).spec_at_capacity() {
                r == Err::<UploadFileResponse, AppError>(AppError::Database)
            } else {
                r matches Ok(resp) && {
                    &&& resp.message@ == "File uploaded successfully"@
                    &&& !has_file_with_id(old(files)@, resp.id)
                    &&& final(files)@ == old(files)@.push(
                        FileModel {
                            id: resp.id,
                            user_id: request.user_id,
                            name: request.file_name@,
                            size: request.size,
                            cid: request.cid@,
                            mime_type: request.mime_type@,
                            uploaded_at: now,
                            expires_at: request.expires_at,
                            max_downloads: request.max_downloads,
                            download_count: 0u8,
                            downloads: Seq::empty(),
                        },
                    )
                }
            },
        },
{
    if let Err(e) = request.validate(now) {
        return Err(e);
    }
    match files.create_file(
        request.user_id,
        request.file_name.as_str(),
        request.size,
        request.cid.as_str(),
        request.mime_type.as_str(),
        request.max_downloads,
        request.expires_at,
        now,
    ) {
        Ok(id) => Ok(
            UploadFileResponse { id, message: String::from_str("File uploaded successfully") },
        ),
        Err(e) => Err(e),
    }
}

/// A served download: the decrypted content with the name and MIME type
/// to answer with.
pub struct DownloadedFile {
    /// The decrypted payload.
    pub content: Vec<u8>,
    /// The stored file name, for the attachment header.
    pub name: String,
    /// The stored MIME type, for the content-type header.
    pub mime_type: String,
}

/// The password a download is decrypted with: the supplied one, or the
/// fixed default when none was sent.
pub open spec fn spec_download_password(password: Option<String>) -> Seq<char> {
    match password {
        Some(p) => p@,
        None => "default-password"@,
    }
}

/// Serves a download: the file must exist, be unexpired, and have quota
/// left; the supplied ciphertext is decrypted with the supplied (or
/// default) password; only after a successful decryption is the download
/// counted and the requester appended to the history.
pub fn download_file(
    files: &mut FileStore,
    request: &DownloadFileRequest,
    encrypted_data: &[u8],
    ip_address: String,
    user_agent: Option<String>,
    now: i64,
) -> (r: Result<DownloadedFile, AppError>)
    requires
        old(files).wf(),
    ensures
        final(files).wf(),
        r is Err ==> final(files)@ == old(files)@,
        ({
            let file_id = request.file_id;
            match spec_authorize(old(files)@, file_id, now) {
            Err(b) => r == Err::<DownloadedFile, AppError>(AppError::BadRequest(b)),
            Ok(()) => {
                &&& (r matches Err(e) ==> {
                    &&& (e == AppError::Crypto(CryptoError::TruncatedInput) <==> encrypted_data@.len()
                        < 28)
                    &&& (e == AppError::Crypto(CryptoError::DecryptFailure) ==> decrypted_blob(
                        encrypted_data@,
                        spec_download_password(request.password),
                    ) is None)
                    &&& (e == AppError::Crypto(CryptoError::TruncatedInput) || e == AppError::Crypto(
                        CryptoError::DecryptFailure,
                    ) || e == AppError::Crypto(CryptoError::KeyDerivation))
                })
                &&& (decrypted_blob(encrypted_data@, spec_download_password(request.password))
                    is None ==> r is Err)
                &&& (r matches Ok(d) ==> {
                    &&& decrypted_blob(encrypted_data@, spec_download_password(request.password))
                        == Some(d.content@)
                    &&& d.name@ == file_with_id(old(files)@, file_id).name
                    &&& d.mime_type@ == file_with_id(old(files)@, file_id).mime_type
                    &&& has_file_with_id(final(files)@, file_id)
                    &&& file_with_id(final(files)@, file_id).download_count == file_with_id(
                        old(files)@,
                        file_id,
                    ).download_count + 1
                    &&& file_with_id(final(files)@, file_id).downloads == file_with_id(
                        old(files)@,
                        file_id,
                    ).downloads.push(file_with_id(final(files)@, file_id).downloads.last())
                    &&& file_with_id(final(files)@, file_id).downloads.last().downloaded_at == now
                    &&& file_with_id(final(files)@, file_id).downloads.last().ip_address
                        == ip_address@
                    &&& forall|fid: u64|
                        fid != file_id ==> (#[trigger] has_file_with_id(final(files)@, fid)
                            <==> has_file_with_id(old(files)@, fid))
                    &&& forall|fid: u64|
                        fid != file_id && has_file_with_id(old(files)@, fid)
                            ==> #[trigger] file_with_id(final(files)@, fid) == file_with_id(
                            old(files)@,
                            fid,
                        )
                })
            },
        }
        }),
{
    let file = match files.authorize_download(request.file_id, now) {
        Ok(f) => f,
        Err(e) => { return Err(e); },
    };
    let name = file.name.clone();
    let mime_type = file.mime_type.clone();
    let pw: &str = match &request.password {
        Some(p) => p.as_str(),
        None => "default-password",
    };
    let content = match decrypt_file_with_password(encrypted_data, pw) {
        Ok(c) => c,
        Err(e) => { return Err(AppError::Crypto(e)); },
    };
    let entry = DownloadEntry::new(ip_address, user_agent, now);
    match files.record_download(request.file_id, entry) {
        Ok(()) => (),
        Err(e) => { return Err(e); },
    }
    Ok(DownloadedFile { content, name, mime_type })
}

/// The files the authenticated user owns, in store order.
pub fn user_files<'a>(files: &'a FileStore, user_id: u64) -> (r: UserFilesResponse<'a>)
    requires
        files.wf(),
    ensures
        Seq::new(r.files@.len(), |i: int| r.files@[i]@) == files@.filter(owner_pred(user_id)),
{
    UserFilesResponse { files: files.list_by_owner(user_id) }
}

} // verus!
