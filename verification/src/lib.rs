use vstd::prelude::*;

pub mod api;
pub mod asset_registry;
pub mod bounded;
pub mod call_laws;
pub mod client;
pub mod cross_settlement;
pub mod laws;
pub mod mock;
pub mod node;
pub mod operators;
pub mod runtime;
pub mod settlement_engine;
pub mod settlement_proofs;

verus! {

} // verus!
