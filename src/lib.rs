//! Asset upload dispatch: one operation, "upload named bytes and get a
//! durable numeric id", offered by interchangeable backends, with a small
//! closed error taxonomy that tells a caller whether to retry, abort or fail.
//!
//! The library holds every decision of an upload; the work that touches the
//! outside world (the remote API client, the file system) is done by the
//! caller, which hands the outcome back to be classified.

mod debug;
mod error;
mod remote;
mod upload;

pub use debug::{
    lemma_debug_ids_in_call_order, prepared, successive_uploads, DebugSyncBackend, DebugWrite,
    DEBUG_DIRECTORY,
};
pub use error::Error;
pub use remote::{
    classified, ImageUploadData, ImageUploadResponse, RobloxApiError, RobloxSyncBackend,
    TOO_MANY_REQUESTS, UPLOAD_DESCRIPTION,
};
pub use upload::{NoneSyncBackend, SyncBackend, UploadInfo, UploadResponse};
