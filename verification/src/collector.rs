//! The expiry collector's sweep, stated as laws over the file store.
//!
//! A recurring background task calls `FileStore::sweep_dead` once a
//! minute; each run completes before the next is scheduled.  The sweep's
//! contract says that exactly the files past expiry or over quota are
//! removed and that their storage handles are returned once each, in
//! order, for remote deletion — a failed remote delete is logged by the
//! caller and retried implicitly because deletion of an already-absent
//! object is a no-op.  The laws here add that a sweep leaves nothing for
//! an immediately repeated sweep, so re-running is harmless.

use vstd::prelude::*;

use crate::file::{alive_pred, dead_pred, file_dead, FileModel};

verus! {

/// Law (sweep completeness): a file that is dead at `now` — past expiry
/// or over quota — does not survive a sweep at `now`.
pub proof fn lemma_sweep_removes_dead(files: Seq<FileModel>, now: i64, i: int)
    requires
        0 <= i < files.len(),
        file_dead(files[i], now),
    ensures
        forall|j: int|
            0 <= j < files.filter(alive_pred(now)).len() ==> #[trigger] files.filter(
                alive_pred(now),
            )[j] != files[i],
{
    assert forall|j: int|
        0 <= j < files.filter(alive_pred(now)).len() implies #[trigger] files.filter(
        alive_pred(now),
    )[j] != files[i] by {
        files.lemma_filter_pred(alive_pred(now), j);
        assert(alive_pred(now)(files.filter(alive_pred(now))[j]));
    }
}

/// Law (sweep idempotence): the survivors of a sweep at `now` hold no
/// dead file, so a second sweep at the same instant removes nothing and
/// returns no handles.
pub proof fn lemma_sweep_idempotent(files: Seq<FileModel>, now: i64)
    ensures
        files.filter(alive_pred(now)).filter(dead_pred(now)) == Seq::<FileModel>::empty(),
{
    let survivors = files.filter(alive_pred(now));
    assert forall|i: int| 0 <= i < survivors.len() implies !(#[trigger] dead_pred(now)(
        survivors[i],
    )) by {
        files.lemma_filter_pred(alive_pred(now), i);
        assert(alive_pred(now)(survivors[i]));
    }
    assert(survivors.all(|f: FileModel| !dead_pred(now)(f)));
    survivors.lemma_all_neg_filter_empty(dead_pred(now));
    assert(survivors.filter(dead_pred(now)) =~= Seq::<FileModel>::empty());
}

} // verus!
