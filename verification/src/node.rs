//! What the node's RPC server is built from.
use vstd::prelude::*;
use std::sync::Arc;

verus! {

/// The handles the node's RPC extensions need.
pub struct FullDeps<C, P> {
    /// The client of the chain.
    pub client: Arc<C>,
    /// The transaction pool.
    pub pool: Arc<P>,
}

impl<C, P> FullDeps<C, P> {
    /// Bundles a client and a pool.
    pub fn new(client: Arc<C>, pool: Arc<P>) -> (r: Self)
        ensures
            r.client == client,
            r.pool == pool,
    {
        FullDeps { client, pool }
    }
}

} // verus!
