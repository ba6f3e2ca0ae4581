use vstd::prelude::*;

use crate::remote::RobloxApiError;

verus! {

#[verifier::external_type_specification]
#[verifier::external_body]
pub struct ExIoError(std::io::Error);

/// The ways an upload can fail. Each kind calls for a different reaction
/// from the caller.
#[derive(Debug)]
pub enum Error {
    /// Uploads are disabled: fail permanently, do not retry.
    NoneBackend,
    /// The remote service throttled the request: retry later with backoff.
    RateLimited,
    /// A local file system operation failed.
    Io { source: std::io::Error },
    /// Any other failure of the remote service, with its cause kept.
    RobloxError { source: RobloxApiError },
}

} // verus!
