use vstd::prelude::*;

use crate::error::Error;

verus! {

/// What to upload: a display name, the bytes, and a content hash.
pub struct UploadInfo {
    pub name: String,
    pub contents: Vec<u8>,
    pub hash: String,
}

/// The durable id that a backend assigned to an upload.
#[derive(Debug, Clone, Copy, PartialEq, Eq, Structural)]
pub struct UploadResponse {
    pub id: u64,
}

/// One capability, "upload named bytes", offered by several backends.
pub trait SyncBackend {
    fn upload(&mut self, data: UploadInfo) -> Result<UploadResponse, Error>;
}

/// The backend that stands for "uploads are disabled".
#[derive(Debug, Clone, Copy, PartialEq, Eq, Structural)]
pub struct NoneSyncBackend;

impl SyncBackend for NoneSyncBackend {
    /// Always fails with `NoneBackend`, and touches nothing.
    fn upload(&mut self, data: UploadInfo) -> (r: Result<UploadResponse, Error>)
        ensures
            r matches Err(Error::NoneBackend),
            *final(self) == *old(self),
    {
        Err(Error::NoneBackend)
    }
}

} // verus!
