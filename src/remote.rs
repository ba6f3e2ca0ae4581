use vstd::prelude::*;

use crate::error::Error;
use crate::upload::{UploadInfo, UploadResponse};

verus! {

/// The HTTP status with which the remote service signals throttling.
pub const TOO_MANY_REQUESTS: u16 = 429;

/// The description attached to every asset that the remote backend uploads.
pub const UPLOAD_DESCRIPTION: &'static str = "Uploaded by Tarmac.";

/// A failure reported by the remote API client.
#[derive(Debug, PartialEq, Eq)]
pub enum RobloxApiError {
    /// The service answered with a non-success HTTP status.
    ResponseError { status: u16, body: String },
    /// Any other failure: transport, authentication, a malformed answer.
    Other { message: String },
}

/// One request to the remote client's moderation-aware upload call.
pub struct ImageUploadData {
    pub image_data: Vec<u8>,
    pub name: String,
    pub description: String,
    pub group_id: Option<u64>,
}

/// What the remote client returns for a successful upload.
#[derive(Debug, Clone, Copy, PartialEq, Eq, Structural)]
pub struct ImageUploadResponse {
    pub backing_asset_id: u64,
}

/// Relies on reqwest's `StatusCode::TOO_MANY_REQUESTS` and
/// `StatusCode::as_u16`: the constant stands for status code 429.
#[verifier::external_body]
fn too_many_requests_code() -> (r: u16)
    ensures
        r == TOO_MANY_REQUESTS,
{
    reqwest::StatusCode::TOO_MANY_REQUESTS.as_u16()
}

/// The remote outcome `result` is reported to the caller as `r`: success
/// gives the backing asset id, a "too many requests" status gives
/// `RateLimited`, and every other failure is wrapped unchanged.
pub open spec fn classified(
    result: Result<ImageUploadResponse, RobloxApiError>,
    r: Result<UploadResponse, Error>,
) -> bool {
    match result {
        Ok(response) => r == Ok::<UploadResponse, Error>(
            UploadResponse { id: response.backing_asset_id },
        ),
        Err(err) => if err matches RobloxApiError::ResponseError { status, .. } && status
            == TOO_MANY_REQUESTS {
            r matches Err(Error::RateLimited)
        } else {
            r == Err::<UploadResponse, Error>(Error::RobloxError { source: err })
        },
    }
}

/// The backend that uploads to the remote asset service, optionally on
/// behalf of a group. The API client itself is held by the caller, which
/// sends each request and hands back the outcome.
pub struct RobloxSyncBackend {
    upload_to_group_id: Option<u64>,
}

impl RobloxSyncBackend {
    /// The group that every upload of this backend is attached to.
    pub closed spec fn group_id(&self) -> Option<u64> {
        self.upload_to_group_id
    }

    pub fn new(upload_to_group_id: Option<u64>) -> (r: Self)
        ensures
            r.group_id() == upload_to_group_id,
    {
        RobloxSyncBackend { upload_to_group_id }
    }

    /// The request that uploads `data`: its bytes under its name, with the
    /// fixed description and this backend's group.
    pub fn upload_request(&self, data: UploadInfo) -> (r: ImageUploadData)
        ensures
            r.image_data@ == data.contents@,
            r.name@ == data.name@,
            r.description@ == UPLOAD_DESCRIPTION@,
            r.group_id == self.group_id(),
    {
        ImageUploadData {
            image_data: data.contents,
            name: data.name,
            description: UPLOAD_DESCRIPTION.to_owned(),
            group_id: self.upload_to_group_id,
        }
    }

    /// Turns the remote client's outcome into this library's answer.
    pub fn upload_outcome(&self, result: Result<ImageUploadResponse, RobloxApiError>) -> (r: Result<
        UploadResponse,
        Error,
    >)
        ensures
            classified(result, r),
    {
        match result {
            Ok(response) => Ok(UploadResponse { id: response.backing_asset_id }),
            Err(err) => {
                let throttled = match &err {
                    RobloxApiError::ResponseError { status, .. } => *status
                        == too_many_requests_code(),
                    RobloxApiError::Other { .. } => false,
                };
                if throttled {
                    Err(Error::RateLimited)
                } else {
                    Err(Error::RobloxError { source: err })
                }
            },
        }
    }
}

} // verus!
