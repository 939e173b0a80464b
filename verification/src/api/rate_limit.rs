//! Rate limiting by the caller's address.
use vstd::prelude::*;
use crate::api::error::ApiError;

verus! {

/// Keys rate limits by the peer's IP address: callers behind one address
/// share a budget.
#[derive(Clone, Copy)]
pub struct PeerIpExtractor;

impl PeerIpExtractor {
    /// The answer to a caller over its budget.
    pub fn rejection(&self) -> (r: ApiError)
        ensures
            r is TooManyRequests,
    {
        ApiError::TooManyRequests
    }
}

} // verus!
