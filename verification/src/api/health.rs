//! The answers of the health endpoints.
use vstd::prelude::*;
use crate::api::chain::ChainStatus;

verus! {

/// The answer of `GET /health`.
pub struct HealthResponse {
    pub status: &'static str,
}

impl HealthResponse {
    /// The server is up.
    pub fn up() -> (r: Self)
        ensures
            r.status@ == "ok"@,
    {
        HealthResponse { status: "ok" }
    }
}

/// The answer of `GET /status`.
pub struct StatusResponse {
    pub status: &'static str,
    pub best_block: u64,
    pub finalized_block: u64,
    pub peers: usize,
}

impl StatusResponse {
    /// Reports the chain's progress, or a degraded status with zeros when
    /// the chain could not be asked.
    pub fn from_chain(r: &Result<ChainStatus, String>) -> (s: Self)
        ensures
            match r {
                Ok(c) => s.status@ == "ok"@ && s.best_block == c.best_block && s.finalized_block
                    == c.finalized_block && s.peers == c.peers,
                Err(_) => s.status@ == "degraded"@ && s.best_block == 0 && s.finalized_block == 0
                    && s.peers == 0,
            },
    {
        match r {
            Ok(c) => StatusResponse {
                status: "ok",
                best_block: c.best_block,
                finalized_block: c.finalized_block,
                peers: c.peers,
            },
            Err(_) => StatusResponse { status: "degraded", best_block: 0, finalized_block: 0, peers: 0 },
        }
    }
}

} // verus!
