use vstd::prelude::*;

use crate::error::Error;
use crate::upload::{UploadInfo, UploadResponse};

verus! {

/// The local directory, relative to the working directory, into which the
/// debug backend writes one file per upload.
pub const DEBUG_DIRECTORY: &'static str = ".tarmac-debug";

/// The file that one debug upload writes: `contents`, in the file named by
/// `id` inside the debug directory.
pub struct DebugWrite {
    pub id: u64,
    pub contents: Vec<u8>,
}

/// The backend that simulates uploads by writing files locally. It issues
/// the ids 1, 2, 3, ... in call order.
pub struct DebugSyncBackend {
    last_id: u64,
}

/// `after` and `w` are the backend and the write that come from preparing
/// the upload of `data` on `before`: the next id is issued and the write
/// carries the bytes as they were given.
pub open spec fn prepared(
    before: DebugSyncBackend,
    data: UploadInfo,
    after: DebugSyncBackend,
    w: DebugWrite,
) -> bool {
    &&& after.issued() == before.issued() + 1
    &&& w.id == after.issued()
    &&& w.contents@ == data.contents@
}

/// Each state in `states` is the one before it with one more upload prepared.
pub open spec fn successive_uploads(
    states: Seq<DebugSyncBackend>,
    uploads: Seq<UploadInfo>,
    writes: Seq<DebugWrite>,
) -> bool {
    &&& uploads.len() == writes.len()
    &&& states.len() == writes.len() + 1
    &&& forall|i: int|
        0 <= i < writes.len() ==> #[trigger] prepared(states[i], uploads[i], states[i + 1], writes[i])
}

proof fn lemma_issued_after(
    states: Seq<DebugSyncBackend>,
    uploads: Seq<UploadInfo>,
    writes: Seq<DebugWrite>,
    k: int,
)
    requires
        successive_uploads(states, uploads, writes),
        states[0].issued() == 0,
        0 <= k <= writes.len(),
    ensures
        states[k].issued() == k,
    decreases k,
{
    if k > 0 {
        lemma_issued_after(states, uploads, writes, k - 1);
        assert(prepared(states[k - 1], uploads[k - 1], states[k], writes[k - 1]));
    }
}

/// Successive uploads on a fresh debug backend are given the ids 1, 2, ...,
/// n in call order, and the file of each carries the bytes of that upload.
pub proof fn lemma_debug_ids_in_call_order(
    states: Seq<DebugSyncBackend>,
    uploads: Seq<UploadInfo>,
    writes: Seq<DebugWrite>,
)
    requires
        successive_uploads(states, uploads, writes),
        states[0].issued() == 0,
    ensures
        forall|i: int|
            0 <= i < writes.len() ==> (#[trigger] writes[i]).id == i + 1 && writes[i].contents@
                == uploads[i].contents@,
{
    assert forall|i: int| 0 <= i < writes.len() implies (#[trigger] writes[i]).id == i + 1
        && writes[i].contents@ == uploads[i].contents@ by {
        lemma_issued_after(states, uploads, writes, i + 1);
        assert(prepared(states[i], uploads[i], states[i + 1], writes[i]));
    }
}

impl DebugSyncBackend {
    /// The last id issued, 0 before the first upload.
    pub closed spec fn issued(&self) -> nat {
        self.last_id as nat
    }

    pub fn new() -> (r: Self)
        ensures
            r.issued() == 0,
    {
        DebugSyncBackend { last_id: 0 }
    }

    /// The last id issued, 0 before the first upload.
    pub fn last_id(&self) -> (r: u64)
        ensures
            r == self.issued(),
    {
        self.last_id
    }

    /// Issues the next id for `data` and returns the file to write. The id
    /// is spent even if the write then fails.
    pub fn begin_upload(&mut self, data: UploadInfo) -> (r: DebugWrite)
        requires
            old(self).issued() < u64::MAX,
        ensures
            prepared(*old(self), data, *final(self), r),
    {
        self.last_id = self.last_id + 1;
        DebugWrite { id: self.last_id, contents: data.contents }
    }

    /// The answer for the upload that was given `id`, once creating the
    /// directory and writing the file came out as `outcome`.
    pub fn finish_upload(id: u64, outcome: Result<(), std::io::Error>) -> (r: Result<
        UploadResponse,
        Error,
    >)
        ensures
            outcome is Ok ==> r == Ok::<UploadResponse, Error>(UploadResponse { id }),
            outcome is Err ==> r == Err::<UploadResponse, Error>(
                Error::Io { source: outcome->Err_0 },
            ),
    {
        match outcome {
            Ok(()) => Ok(UploadResponse { id }),
            Err(source) => Err(Error::Io { source }),
        }
    }
}

} // verus!
