//! What the REST layer knows of the chain it fronts.
use vstd::prelude::*;

verus! {

/// A snapshot of the chain's progress.
#[derive(Debug, Clone, Copy)]
pub struct ChainStatus {
    pub best_block: u64,
    pub finalized_block: u64,
    pub peers: usize,
}

/// A client of the chain.
pub trait ChainClient {
    /// The chain's progress.
    fn status(&self) -> Result<ChainStatus, String>;

    /// The best block number.
    fn best_block(&self) -> Result<u64, String>;
}

/// A client that stands in when no node is reachable: it reports an empty chain.
pub struct StubChainClient {
    pub rpc_url: String,
}

impl StubChainClient {
    /// A stub for the node at `rpc_url`.
    pub fn new(rpc_url: String) -> (r: Self)
        ensures
            r.rpc_url == rpc_url,
    {
        StubChainClient { rpc_url }
    }
}

impl ChainClient for StubChainClient {
    fn status(&self) -> (r: Result<ChainStatus, String>)
        ensures
            r matches Ok(s) && s.best_block == 0 && s.finalized_block == 0 && s.peers == 0,
    {
        Ok(ChainStatus { best_block: 0, finalized_block: 0, peers: 0 })
    }

    fn best_block(&self) -> (r: Result<u64, String>)
        ensures
            r matches Ok(b) && b == 0,
    {
        Ok(0)
    }
}

} // verus!
