//! Stored-file metadata and its lifecycle.
//!
//! A file record is created after encryption and the storage write have
//! succeeded; from then on every download is gated by the expiry instant
//! and the download limit, and each served download is recorded with its
//! requester.  The expiry sweep removes records that are past expiry or
//! over quota, handing their storage handles back for remote deletion.

use vstd::prelude::*;

use crate::error::{AppError, BadRequestError, ValidationError};

verus! {

/// The smallest allowed download limit.
pub const MAX_DOWNLOADS_MIN: u8 = 1;

/// The largest allowed download limit.
pub const MAX_DOWNLOADS_MAX: u8 = 10;

/// One recorded download of a file.
pub struct DownloadEntry {
    ip_address: String,
    user_agent: Option<String>,
    downloaded_at: i64,
}

/// The mathematical image of a recorded download.
pub struct DownloadModel {
    /// The requester's IP address.
    pub ip_address: Seq<char>,
    /// The requester's user agent, when one was sent.
    pub user_agent: Option<Seq<char>>,
    /// The download instant, as a Unix timestamp.
    pub downloaded_at: i64,
}

impl View for DownloadEntry {
    type V = DownloadModel;

    closed spec fn view(&self) -> DownloadModel {
        DownloadModel {
            ip_address: self.ip_address@,
            user_agent: match self.user_agent {
                Some(ua) => Some(ua@),
                None => None,
            },
            downloaded_at: self.downloaded_at,
        }
    }
}

impl DownloadEntry {
    /// A download record for a requester at the given instant.
    pub fn new(ip_address: String, user_agent: Option<String>, downloaded_at: i64) -> (r:
        DownloadEntry)
        ensures
            r@.ip_address == ip_address@,
            r@.downloaded_at == downloaded_at,
            r@.user_agent == match user_agent {
                Some(ua) => Some(ua@),
                None => None,
            },
    {
        DownloadEntry { ip_address, user_agent, downloaded_at }
    }
}

/// A stored file's metadata.
pub struct FileCollection {
    /// The record id, unique across the store.
    pub id: u64,
    /// The owning user.
    pub user_id: u64,
    /// The download file name.
    pub name: String,
    /// The payload size in bytes (of the plaintext).
    pub size: u64,
    /// The opaque remote-storage handle of the encrypted payload.
    pub cid: String,
    /// The payload's MIME type.
    pub mime_type: String,
    /// The upload instant, as a Unix timestamp.
    pub uploaded_at: i64,
    /// The expiry instant, strictly in the future at creation.
    pub expires_at: i64,
    /// How many downloads are allowed, between 1 and 10.
    pub max_downloads: u8,
    /// How many downloads have been served; never above the limit.
    pub download_count: u8,
    /// The download history, in order.
    pub downloads: Vec<DownloadEntry>,
}

/// The mathematical image of a stored file.
pub struct FileModel {
    /// The record id.
    pub id: u64,
    /// The owning user.
    pub user_id: u64,
    /// The download file name.
    pub name: Seq<char>,
    /// The payload size in bytes.
    pub size: u64,
    /// The remote-storage handle.
    pub cid: Seq<char>,
    /// The payload's MIME type.
    pub mime_type: Seq<char>,
    /// The upload instant.
    pub uploaded_at: i64,
    /// The expiry instant.
    pub expires_at: i64,
    /// How many downloads are allowed.
    pub max_downloads: u8,
    /// How many downloads have been served.
    pub download_count: u8,
    /// The download history.
    pub downloads: Seq<DownloadModel>,
}

impl View for FileCollection {
    type V = FileModel;

    open spec fn view(&self) -> FileModel {
        FileModel {
            id: self.id,
            user_id: self.user_id,
            name: self.name@,
            size: self.size,
            cid: self.cid@,
            mime_type: self.mime_type@,
            uploaded_at: self.uploaded_at,
            expires_at: self.expires_at,
            max_downloads: self.max_downloads,
            download_count: self.download_count,
            downloads: Seq::new(self.downloads@.len(), |i: int| self.downloads@[i]@),
        }
    }
}

/// Whether some file has the given id.
pub open spec fn has_file_with_id(files: Seq<FileModel>, file_id: u64) -> bool {
    exists|i: int| 0 <= i < files.len() && (#[trigger] files[i].id) == file_id
}

/// The file with the given id; meaningful when ids are unique.
pub open spec fn file_with_id(files: Seq<FileModel>, file_id: u64) -> FileModel {
    files[choose|i: int| 0 <= i < files.len() && (#[trigger] files[i].id) == file_id]
}

/// A stored file is internally consistent: the limit is in range and the
/// count never exceeds it.
pub open spec fn file_wf(f: FileModel) -> bool {
    &&& MAX_DOWNLOADS_MIN <= f.max_downloads <= MAX_DOWNLOADS_MAX
    &&& f.download_count <= f.max_downloads
}

/// The store invariant visible to callers: unique ids and consistent
/// records.
pub open spec fn files_wf(files: Seq<FileModel>) -> bool {
    &&& forall|i: int, j: int|
        0 <= i < files.len() && 0 <= j < files.len() && i != j ==> (#[trigger] files[i].id) != (
        #[trigger] files[j].id)
    &&& forall|i: int| 0 <= i < files.len() ==> file_wf(#[trigger] files[i])
}

/// Whether a file is past expiry or over its download quota — the sweep
/// condition.
pub open spec fn file_dead(f: FileModel, now: i64) -> bool {
    f.expires_at <= now || f.download_count >= f.max_downloads
}

/// The sweep condition as a predicate value, so that every context names
/// the same function.
pub open spec fn dead_pred(now: i64) -> spec_fn(FileModel) -> bool {
    |f: FileModel| file_dead(f, now)
}

/// The survival condition as a predicate value.
pub open spec fn alive_pred(now: i64) -> spec_fn(FileModel) -> bool {
    |f: FileModel| !file_dead(f, now)
}

/// Ownership by a user as a predicate value.
pub open spec fn owner_pred(owner: u64) -> spec_fn(FileModel) -> bool {
    |f: FileModel| f.user_id == owner
}

/// The storage handle of a file, for mapping purge results.
pub open spec fn cid_of(f: FileModel) -> Seq<char> {
    f.cid
}

/// The outcome of authorizing a download: a missing, expired, or
/// quota-exhausted file is refused, in that order.
pub open spec fn spec_authorize(files: Seq<FileModel>, file_id: u64, now: i64) -> Result<
    (),
    BadRequestError,
> {
    if !has_file_with_id(files, file_id) {
        Err(BadRequestError::NoSuchFile)
    } else if file_with_id(files, file_id).expires_at <= now {
        Err(BadRequestError::FileExpired)
    } else if file_with_id(files, file_id).download_count >= file_with_id(
        files,
        file_id,
    ).max_downloads {
        Err(BadRequestError::QuotaExceeded)
    } else {
        Ok(())
    }
}

/// The outcome of validating creation parameters: the download limit must
/// lie in `[1, 10]` and the expiry strictly in the future.
pub open spec fn spec_validate_file_params(max_downloads: u8, expires_at: i64, now: i64) -> Result<
    (),
    ValidationError,
> {
    if !(MAX_DOWNLOADS_MIN <= max_downloads && max_downloads <= MAX_DOWNLOADS_MAX) {
        Err(ValidationError::MaxDownloadsOutOfRange)
    } else if expires_at <= now {
        Err(ValidationError::ExpiryNotInFuture)
    } else {
        Ok(())
    }
}

/// The store of file records.
pub struct FileStore {
    files: Vec<FileCollection>,
    next_id: u64,
}

/// The file images of a sequence of stored files.
pub open spec fn file_views(files: Seq<FileCollection>) -> Seq<FileModel> {
    Seq::new(files.len(), |i: int| files[i]@)
}

impl View for FileStore {
    type V = Seq<FileModel>;

    closed spec fn view(&self) -> Seq<FileModel> {
        file_views(self.files@)
    }
}

impl FileStore {
    /// Ids handed out so far are below the next fresh id.
    pub closed spec fn ids_fresh(&self) -> bool {
        forall|i: int| 0 <= i < self@.len() ==> (#[trigger] self@[i].id) < self.next_id
    }

    /// The store's invariant.
    pub open spec fn wf(&self) -> bool {
        files_wf(self@) && self.ids_fresh()
    }

    /// Whether the id space is exhausted — a machine limit, reported so
    /// that `create_file`'s contract can name the one failure it allows.
    pub closed spec fn spec_at_capacity(&self) -> bool {
        self.next_id == u64::MAX
    }

    /// Whether the id space is exhausted.
    pub fn at_capacity(&self) -> (r: bool)
        ensures
            r == self.spec_at_capacity(),
    {
        self.next_id == u64::MAX
    }

    /// An empty store.
    pub fn new() -> (r: FileStore)
        ensures
            r.wf(),
            r@.len() == 0,
            !r.spec_at_capacity(),
    {
        let r = FileStore { files: Vec::new(), next_id: 0 };
        proof {
            assert(r@ =~= Seq::<FileModel>::empty());
        }
        r
    }

    /// How many file records are stored.
    pub fn len(&self) -> (r: usize)
        ensures
            r == self@.len(),
    {
        self.files.len()
    }

    fn index_of_id(&self, file_id: u64) -> (r: Option<usize>)
        ensures
            match r {
                Some(i) => i < self@.len() && self@[i as int].id == file_id,
                None => !has_file_with_id(self@, file_id),
            },
    {
        let n = self.files.len();
        let mut k: usize = 0;
        while k < n
            invariant
                n == self@.len(),
                k <= n,
                forall|j: int| 0 <= j < k ==> (#[trigger] self@[j].id) != file_id,
            decreases n - k,
        {
            if self.files[k].id == file_id {
                proof {
                    assert(self@[k as int] == self.files@[k as int]@);
                }
                return Some(k);
            }
            k += 1;
        }
        None
    }

    /// Creates a file record after encryption and the storage write have
    /// succeeded.  The download limit and expiry are validated before
    /// anything is stored; the new record starts with no downloads.
    /// Returns the fresh record id.
    pub fn create_file(
        &mut self,
        user_id: u64,
        name: &str,
        size: u64,
        cid: &str,
        mime_type: &str,
        max_downloads: u8,
        expires_at: i64,
        now: i64,
    ) -> (r: Result<u64, AppError>)
        requires
            old(self).wf(),
        ensures
            final(self).wf(),
            match spec_validate_file_params(max_downloads, expires_at, now) {
                Err(v) => r == Err::<u64, AppError>(AppError::Validation(v)) && final(self)@ == old(
                    self,
                )@,
                Ok(()) => if old(self).spec_at_capacity() {
                    r == Err::<u64, AppError>(AppError::Database) && final(self)@ == old(self)@
                } else {
                    r matches Ok(id) && {
                    &&& !has_file_with_id(old(self)@, id)
                    &&& final(self)@ == old(self)@.push(
                        FileModel {
                            id,
                            user_id,
                            name: name@,
                            size,
                            cid: cid@,
                            mime_type: mime_type@,
                            uploaded_at: now,
                            expires_at,
                            max_downloads,
                            download_count: 0u8,
                            downloads: Seq::empty(),
                        },
                    )
                    }
                },
            },
    {
        if max_downloads < MAX_DOWNLOADS_MIN || max_downloads > MAX_DOWNLOADS_MAX {
            return Err(AppError::Validation(ValidationError::MaxDownloadsOutOfRange));
        }
        if expires_at <= now {
            return Err(AppError::Validation(ValidationError::ExpiryNotInFuture));
        }
        if self.next_id == u64::MAX {
            return Err(AppError::Database);
        }
        let id = self.next_id;
        let file = FileCollection {
            id,
            user_id,
            name: String::from_str(name),
            size,
            cid: String::from_str(cid),
            mime_type: String::from_str(mime_type),
            uploaded_at: now,
            expires_at,
            max_downloads,
            download_count: 0,
            downloads: Vec::new(),
        };
        self.next_id = self.next_id + 1;
        let ghost pre = self@;
        let ghost filev = file@;
        self.files.push(file);
        proof {
            assert(filev.downloads =~= Seq::<DownloadModel>::empty());
            assert(filev == FileModel {
                id,
                user_id,
                name: name@,
                size,
                cid: cid@,
                mime_type: mime_type@,
                uploaded_at: now,
                expires_at,
                max_downloads,
                download_count: 0u8,
                downloads: Seq::empty(),
            });
            assert(self@ =~= pre.push(filev));
        }
        Ok(id)
    }

    /// Checks whether a download of the file may be served now: the file
    /// must exist, must not be expired, and must have quota left.  No
    /// state changes; the caller fetches and decrypts first and records
    /// the download separately, so a failed decryption does not consume a
    /// slot.
    pub fn authorize_download(&self, file_id: u64, now: i64) -> (r: Result<
        &FileCollection,
        AppError,
    >)
        requires
            self.wf(),
        ensures
            match spec_authorize(self@, file_id, now) {
                Ok(()) => r matches Ok(f) && f@ == file_with_id(self@, file_id),
                Err(b) => r == Err::<&FileCollection, AppError>(AppError::BadRequest(b)),
            },
    {
        let i = match self.index_of_id(file_id) {
            Some(i) => i,
            None => { return Err(AppError::BadRequest(BadRequestError::NoSuchFile)); },
        };
        proof {
            lemma_file_with_id_unique(self@, file_id, i as int);
            assert(self@[i as int] == self.files@[i as int]@);
        }
        let f = &self.files[i];
        if f.expires_at <= now {
            return Err(AppError::BadRequest(BadRequestError::FileExpired));
        }
        if f.download_count >= f.max_downloads {
            return Err(AppError::BadRequest(BadRequestError::QuotaExceeded));
        }
        Ok(f)
    }

    /// Records one served download: refused when the file is gone or the
    /// quota is already exhausted (the conditional-increment semantics);
    /// otherwise the count rises by exactly one and the requester entry is
    /// appended to the history.
    pub fn record_download(&mut self, file_id: u64, entry: DownloadEntry) -> (r: Result<
        (),
        AppError,
    >)
        requires
            old(self).wf(),
        ensures
            final(self).wf(),
            !has_file_with_id(old(self)@, file_id) ==> r == Err::<(), AppError>(
                AppError::BadRequest(BadRequestError::NoSuchFile),
            ) && final(self)@ == old(self)@,
            has_file_with_id(old(self)@, file_id) && file_with_id(old(self)@, file_id).download_count
                >= file_with_id(old(self)@, file_id).max_downloads ==> r == Err::<(), AppError>(
                AppError::BadRequest(BadRequestError::QuotaExceeded),
            ) && final(self)@ == old(self)@,
            has_file_with_id(old(self)@, file_id) && file_with_id(old(self)@, file_id).download_count
                < file_with_id(old(self)@, file_id).max_downloads ==> r is Ok && {
                &&& has_file_with_id(final(self)@, file_id)
                &&& file_with_id(final(self)@, file_id) == FileModel {
                    download_count: (file_with_id(old(self)@, file_id).download_count + 1) as u8,
                    downloads: file_with_id(old(self)@, file_id).downloads.push(entry@),
                    ..file_with_id(old(self)@, file_id)
                }
                &&& forall|fid: u64|
                    fid != file_id ==> (#[trigger] has_file_with_id(final(self)@, fid)
                        <==> has_file_with_id(old(self)@, fid))
                &&& forall|fid: u64|
                    fid != file_id && has_file_with_id(old(self)@, fid)
                        ==> #[trigger] file_with_id(final(self)@, fid) == file_with_id(
                        old(self)@,
                        fid,
                    )
                &&& final(self)@.len() == old(self)@.len()
            },
    {
        let i = match self.index_of_id(file_id) {
            Some(i) => i,
            None => { return Err(AppError::BadRequest(BadRequestError::NoSuchFile)); },
        };
        proof {
            lemma_file_with_id_unique(self@, file_id, i as int);
            assert(self@[i as int] == self.files@[i as int]@);
        }
        let ghost pre = self@;
        let count = self.files[i].download_count;
        let max = self.files[i].max_downloads;
        if count >= max {
            return Err(AppError::BadRequest(BadRequestError::QuotaExceeded));
        }
        let ghost entryv = entry@;
        let mut f = self.files.remove(i);
        f.download_count = count + 1;
        f.downloads.push(entry);
        let ghost newv = f@;
        self.files.insert(i, f);
        proof {
            assert(newv.downloads =~= pre[i as int].downloads.push(entryv));
            assert(newv == FileModel {
                download_count: (pre[i as int].download_count + 1) as u8,
                downloads: pre[i as int].downloads.push(entryv),
                ..pre[i as int]
            });
            assert(self@ =~= pre.update(i as int, newv));
            lemma_update_file_effects(pre, i as int, newv);
        }
        Ok(())
    }

    /// The files a user owns, in store order, with every field.
    pub fn list_by_owner<'a>(&'a self, owner: u64) -> (r: Vec<&'a FileCollection>)
        requires
            self.wf(),
        ensures
            Seq::new(r@.len(), |i: int| r@[i]@) == self@.filter(owner_pred(owner)),
    {
        let mut result: Vec<&FileCollection> = Vec::new();
        let n = self.files.len();
        let mut k: usize = 0;
        proof {
            assert(self@.subrange(0, 0) =~= Seq::<FileModel>::empty());
            assert(Seq::new(result@.len(), |i: int| result@[i]@) =~= self@.subrange(0, 0).filter(
                owner_pred(owner),
            ));
        }
        while k < n
            invariant
                self.wf(),
                n == self@.len(),
                k <= n,
                Seq::new(result@.len(), |i: int| result@[i]@) == self@.subrange(0, k as int).filter(
                    owner_pred(owner),
                ),
            decreases n - k,
        {
            proof {
                lemma_filter_step(self@, k as int, owner_pred(owner));
                assert(self@[k as int] == self.files@[k as int]@);
            }
            let f = &self.files[k];
            if f.user_id == owner {
                let ghost pre_result = Seq::new(result@.len(), |i: int| result@[i]@);
                result.push(f);
                proof {
                    assert(owner_pred(owner)(self@[k as int]));
                    assert(Seq::new(result@.len(), |i: int| result@[i]@) =~= pre_result.push(f@));
                }
            } else {
                proof {
                    assert(!owner_pred(owner)(self@[k as int]));
                }
            }
            k += 1;
        }
        proof {
            assert(self@.subrange(0, n as int) =~= self@);
        }
        result
    }

    /// One complete sweep: removes every record that is past expiry or
    /// over quota and returns the storage handles of exactly the removed
    /// records, in order, for remote deletion.  The surviving records are
    /// unchanged, in order.
    pub fn sweep_dead(&mut self, now: i64) -> (r: Vec<String>)
        requires
            old(self).wf(),
        ensures
            final(self).wf(),
            final(self)@ == old(self)@.filter(alive_pred(now)),
            r@.len() == old(self)@.filter(dead_pred(now)).len(),
            Seq::new(r@.len(), |i: int| r@[i]@) == old(self)@.filter(dead_pred(now)).map_values(
                |f: FileModel| cid_of(f),
            ),
    {
        let ghost orig = self@;
        let mut cids: Vec<String> = Vec::new();
        let mut k: usize = 0;
        let ghost mut j: int = 0;
        proof {
            assert(orig.subrange(0, 0) =~= Seq::<FileModel>::empty());
            assert(orig.subrange(0, orig.len() as int) =~= orig);
            assert(self@ =~= orig.subrange(0, 0).filter(alive_pred(now)) + orig.subrange(
                0,
                orig.len() as int,
            ));
            assert(Seq::new(cids@.len(), |i: int| cids@[i]@) =~= orig.subrange(0, 0).filter(
                dead_pred(now),
            ).map_values(|f: FileModel| cid_of(f)));
        }
        while k < self.files.len()
            invariant
                files_wf(orig),
                0 <= j <= orig.len(),
                self@ == orig.subrange(0, j).filter(alive_pred(now)) + orig.subrange(
                    j,
                    orig.len() as int,
                ),
                k == orig.subrange(0, j).filter(alive_pred(now)).len(),
                self.ids_fresh(),
                Seq::new(cids@.len(), |i: int| cids@[i]@) == orig.subrange(0, j).filter(
                    dead_pred(now),
                ).map_values(|f: FileModel| cid_of(f)),
            decreases orig.len() - j,
        {
            let ghost prefix = orig.subrange(0, j);
            let ghost prefix2 = orig.subrange(0, j + 1);
            proof {
                orig.subrange(0, j).lemma_filter_len(alive_pred(now));
                assert(self@.len() == k + (orig.len() - j));
                assert(j < orig.len());
                lemma_filter_step(orig, j, alive_pred(now));
                lemma_filter_step(orig, j, dead_pred(now));
                assert(self@[k as int] == orig.subrange(j, orig.len() as int)[0]);
                assert(self@[k as int] == orig[j]);
                assert(self@[k as int] == self.files@[k as int]@);
            }
            let expired = self.files[k].expires_at <= now;
            let over_quota = self.files[k].download_count >= self.files[k].max_downloads;
            if expired || over_quota {
                let ghost pre = self@;
                let ghost pre_files = self.files@;
                let ghost pre_next = self.next_id;
                let ghost pre_cids = Seq::new(cids@.len(), |i: int| cids@[i]@);
                let dead_file = self.files.remove(k);
                cids.push(dead_file.cid);
                proof {
                    lemma_file_views_remove(pre_files, k as int);
                    pre.remove_ensures(k as int);
                    assert(dead_pred(now)(orig[j]) && !alive_pred(now)(orig[j]));
                    assert(prefix2.filter(alive_pred(now)) == prefix.filter(alive_pred(now)));
                    assert(prefix2.filter(dead_pred(now)) == prefix.filter(dead_pred(now)).push(
                        orig[j],
                    ));
                    assert(self@ =~= prefix2.filter(alive_pred(now)) + orig.subrange(
                        j + 1,
                        orig.len() as int,
                    ));
                    assert forall|m: int| 0 <= m < self@.len() implies (#[trigger] self@[m].id)
                        < self.next_id by {
                        assert(self@[m] == pre[m] || self@[m] == pre[m + 1]);
                        assert(self.next_id == pre_next);
                    }
                    assert(self.ids_fresh());
                    assert(Seq::new(cids@.len(), |i: int| cids@[i]@) =~= pre_cids.push(
                        orig[j].cid,
                    ));
                    assert(prefix2.filter(dead_pred(now)).map_values(|f: FileModel| cid_of(f))
                        =~= prefix.filter(dead_pred(now)).map_values(|f: FileModel| cid_of(f)).push(
                        orig[j].cid,
                    ));
                    j = j + 1;
                }
            } else {
                proof {
                    assert(!dead_pred(now)(orig[j]) && alive_pred(now)(orig[j]));
                    assert(prefix2.filter(alive_pred(now)) == prefix.filter(alive_pred(now)).push(
                        orig[j],
                    ));
                    assert(prefix2.filter(dead_pred(now)) == prefix.filter(dead_pred(now)));
                    assert(self@ =~= prefix2.filter(alive_pred(now)) + orig.subrange(
                        j + 1,
                        orig.len() as int,
                    ));
                    j = j + 1;
                }
                k += 1;
            }
        }
        proof {
            assert(j == orig.len());
            assert(orig.subrange(0, orig.len() as int) =~= orig);
            assert(orig.subrange(orig.len() as int, orig.len() as int) =~= Seq::<
                FileModel,
            >::empty());
            assert(self@ =~= orig.filter(alive_pred(now)));
            lemma_filter_wf(orig, alive_pred(now));
            orig.lemma_filter_len(dead_pred(now));
        }
        cids
    }
}

proof fn lemma_file_views_remove(files: Seq<FileCollection>, i: int)
    requires
        0 <= i < files.len(),
    ensures
        file_views(files.remove(i)) =~= file_views(files).remove(i),
{
    files.remove_ensures(i);
    file_views(files).remove_ensures(i);
}

/// Under id uniqueness, any index whose file has the id holds exactly the
/// file `file_with_id` denotes.
pub proof fn lemma_file_with_id_unique(files: Seq<FileModel>, file_id: u64, i: int)
    requires
        files_wf(files),
        0 <= i < files.len(),
        files[i].id == file_id,
    ensures
        has_file_with_id(files, file_id),
        file_with_id(files, file_id) == files[i],
{
    assert(has_file_with_id(files, file_id));
    let j = choose|j: int| 0 <= j < files.len() && (#[trigger] files[j].id) == file_id;
    if i != j {
        assert(files[i].id != files[j].id);
    }
}

proof fn lemma_update_file_effects(files: Seq<FileModel>, i: int, f: FileModel)
    requires
        files_wf(files),
        0 <= i < files.len(),
        f.id == files[i].id,
        file_wf(f),
    ensures
        files_wf(files.update(i, f)),
        has_file_with_id(files.update(i, f), f.id),
        file_with_id(files.update(i, f), f.id) == f,
        forall|fid: u64|
            fid != f.id ==> (#[trigger] has_file_with_id(files.update(i, f), fid)
                <==> has_file_with_id(files, fid)),
        forall|fid: u64|
            fid != f.id && has_file_with_id(files, fid) ==> #[trigger] file_with_id(
                files.update(i, f),
                fid,
            ) == file_with_id(files, fid),
{
    let upd = files.update(i, f);
    assert(files_wf(upd));
    lemma_file_with_id_unique(upd, f.id, i);
    assert forall|fid: u64|
        fid != f.id implies (#[trigger] has_file_with_id(upd, fid) <==> has_file_with_id(
        files,
        fid,
    )) by {
        if has_file_with_id(files, fid) {
            let j = choose|j: int| 0 <= j < files.len() && (#[trigger] files[j].id) == fid;
            assert(j != i);
            assert(upd[j].id == fid);
            assert(has_file_with_id(upd, fid));
        }
        if has_file_with_id(upd, fid) {
            let j = choose|j: int| 0 <= j < upd.len() && (#[trigger] upd[j].id) == fid;
            assert(j != i);
            assert(files[j].id == fid);
            assert(has_file_with_id(files, fid));
        }
    }
    assert forall|fid: u64|
        fid != f.id && has_file_with_id(files, fid) implies #[trigger] file_with_id(upd, fid)
        == file_with_id(files, fid) by {
        let j = choose|j: int| 0 <= j < files.len() && (#[trigger] files[j].id) == fid;
        assert(j != i);
        assert(upd[j].id == fid);
        lemma_file_with_id_unique(files, fid, j);
        lemma_file_with_id_unique(upd, fid, j);
    }
}

/// The filter of a one-element sequence.
proof fn lemma_filter_singleton<A>(x: A, pred: spec_fn(A) -> bool)
    ensures
        pred(x) ==> seq![x].filter(pred) == seq![x],
        !pred(x) ==> seq![x].filter(pred) == Seq::<A>::empty(),
{
    reveal_with_fuel(Seq::filter, 2);
    assert(seq![x].drop_last() =~= Seq::<A>::empty());
    assert(seq![x].last() == x);
    if pred(x) {
        assert(seq![x].filter(pred) =~= seq![x]);
    } else {
        assert(seq![x].filter(pred) =~= Seq::<A>::empty());
    }
}

/// Extending a processed prefix by one element extends its filter by the
/// element exactly when the predicate holds of it.
proof fn lemma_filter_step<A>(s: Seq<A>, j: int, pred: spec_fn(A) -> bool)
    requires
        0 <= j < s.len(),
    ensures
        pred(s[j]) ==> s.subrange(0, j + 1).filter(pred) == s.subrange(0, j).filter(pred).push(
            s[j],
        ),
        !pred(s[j]) ==> s.subrange(0, j + 1).filter(pred) == s.subrange(0, j).filter(pred),
{
    assert(s.subrange(0, j + 1) =~= s.subrange(0, j) + seq![s[j]]);
    Seq::filter_distributes_over_add(s.subrange(0, j), seq![s[j]], pred);
    lemma_filter_singleton(s[j], pred);
    if pred(s[j]) {
        assert(s.subrange(0, j).filter(pred) + seq![s[j]] =~= s.subrange(0, j).filter(pred).push(
            s[j],
        ));
    } else {
        assert(s.subrange(0, j).filter(pred) + Seq::<A>::empty() =~= s.subrange(0, j).filter(
            pred,
        ));
    }
}

/// Every element of a filter occurs in the source sequence.
proof fn lemma_filter_elements<A>(s: Seq<A>, pred: spec_fn(A) -> bool)
    ensures
        forall|i: int| 0 <= i < s.filter(pred).len() ==> s.contains(#[trigger] s.filter(pred)[i]),
    decreases s.len(),
{
    reveal(Seq::filter);
    if s.len() > 0 {
        let dropped = s.drop_last();
        lemma_filter_elements(dropped, pred);
        let sub = dropped.filter(pred);
        assert forall|i: int| 0 <= i < s.filter(pred).len() implies s.contains(
            #[trigger] s.filter(pred)[i],
        ) by {
            if i < sub.len() {
                assert(dropped.contains(sub[i]));
                let k = choose|k: int| 0 <= k < dropped.len() && dropped[k] == sub[i];
                assert(s[k] == sub[i]);
                assert(s.filter(pred)[i] == sub[i]);
            } else {
                assert(s.filter(pred)[i] == s.last());
                assert(s[s.len() - 1] == s.last());
            }
        }
    }
}

/// Filtering preserves the store invariant: the kept records are
/// unchanged, so they stay consistent, and their ids stay distinct.
proof fn lemma_filter_wf(files: Seq<FileModel>, pred: spec_fn(FileModel) -> bool)
    requires
        files_wf(files),
    ensures
        files_wf(files.filter(pred)),
    decreases files.len(),
{
    reveal(Seq::filter);
    if files.len() > 0 {
        let dropped = files.drop_last();
        assert(files_wf(dropped));
        lemma_filter_wf(dropped, pred);
        let sub = dropped.filter(pred);
        if pred(files.last()) {
            let pushed = sub.push(files.last());
            assert(files.filter(pred) == pushed);
            lemma_filter_elements(dropped, pred);
            assert(file_wf(files[files.len() - 1]));
            assert forall|i: int, j: int|
                0 <= i < pushed.len() && 0 <= j < pushed.len() && i != j implies (
            #[trigger] pushed[i].id) != (#[trigger] pushed[j].id) by {
                dropped.lemma_filter_len(pred);
                if i < sub.len() && j < sub.len() {
                } else if i == sub.len() {
                    assert(dropped.contains(sub[j]));
                    let k = choose|k: int| 0 <= k < dropped.len() && dropped[k] == sub[j];
                    assert(files[k] == sub[j]);
                    assert(files[files.len() - 1].id != files[k].id);
                } else {
                    assert(dropped.contains(sub[i]));
                    let k = choose|k: int| 0 <= k < dropped.len() && dropped[k] == sub[i];
                    assert(files[k] == sub[i]);
                    assert(files[files.len() - 1].id != files[k].id);
                }
            }
        } else {
            assert(files.filter(pred) == sub);
        }
    }
}

/// Law (quota): a file that exists, is not expired, and whose download
/// count has reached its limit is refused with `QuotaExceeded`; since a
/// recorded download raises the count by exactly one, a file created with
/// `max_downloads == 1` is downloadable exactly once.
pub proof fn lemma_quota_exhausted(files: Seq<FileModel>, file_id: u64, now: i64)
    requires
        has_file_with_id(files, file_id),
        now < file_with_id(files, file_id).expires_at,
        file_with_id(files, file_id).download_count >= file_with_id(files, file_id).max_downloads,
    ensures
        spec_authorize(files, file_id, now) == Err::<(), BadRequestError>(
            BadRequestError::QuotaExceeded,
        ),
{
}

} // verus!
