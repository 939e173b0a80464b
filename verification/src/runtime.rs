//! The chain's shared state: the block number, the event log, every
//! pallet's storage, and the origin and error types the dispatchables share.
use vstd::prelude::*;
use crate::asset_registry;
use crate::cross_settlement;
use crate::operators;
use crate::settlement_engine;
use crate::settlement_proofs;

verus! {

broadcast use vstd::std_specs::hash::group_hash_axioms;

/// An account on the chain.
pub type AccountId = u64;

/// A block height.
pub type BlockNumber = u32;

/// The least collateral an operator must post on the chain.
pub const MIN_COLLATERAL: u128 = 1_000_000;

/// The target time between blocks, in milliseconds.
pub const MILLISECS_PER_BLOCK: u64 = 6_000;

/// The length of a block-authoring slot, in milliseconds.
pub const SLOT_DURATION: u64 = MILLISECS_PER_BLOCK;

/// Who sent a call.
#[derive(Clone, Copy, Debug, PartialEq, Eq, Structural)]
pub enum Origin {
    /// The privileged origin (sudo).
    Root,
    /// A signed call from an account.
    Signed(AccountId),
    /// An unsigned call.
    Unsigned,
}

/// Why a call was refused.
#[derive(Clone, Copy, Debug, PartialEq, Eq, Structural)]
pub enum DispatchError {
    /// The call came from the wrong kind of origin.
    BadOrigin,
    /// Refused by the operators pallet.
    Operators(operators::Error),
    /// Refused by the asset registry.
    AssetRegistry(asset_registry::Error),
    /// Refused by the settlement engine.
    SettlementEngine(settlement_engine::Error),
    /// Refused by the settlement proofs pallet.
    SettlementProofs(settlement_proofs::Error),
    /// Refused by the cross-settlement pallet.
    CrossSettlement(cross_settlement::Error),
}

/// The outcome of a dispatchable call.
pub type DispatchResult = Result<(), DispatchError>;

/// The account a signed origin names, or `BadOrigin`.
pub open spec fn signer_of(origin: Origin) -> Result<AccountId, DispatchError> {
    match origin {
        Origin::Signed(who) => Ok(who),
        _ => Err(DispatchError::BadOrigin),
    }
}

/// Accepts a signed origin and returns its account.
pub fn ensure_signed(origin: Origin) -> (r: Result<AccountId, DispatchError>)
    ensures
        r == signer_of(origin),
{
    match origin {
        Origin::Signed(who) => Ok(who),
        _ => Err(DispatchError::BadOrigin),
    }
}

/// Accepts the root origin only.
pub fn ensure_root(origin: Origin) -> (r: DispatchResult)
    ensures
        r is Ok <==> origin is Root,
        r is Err ==> r == Err::<(), DispatchError>(DispatchError::BadOrigin),
{
    match origin {
        Origin::Root => Ok(()),
        _ => Err(DispatchError::BadOrigin),
    }
}

/// An event deposited by one of the pallets.
#[derive(Clone, Debug, PartialEq, Eq)]
pub enum RuntimeEvent {
    /// From the operators pallet.
    Operators(operators::Event),
    /// From the asset registry.
    AssetRegistry(asset_registry::Event),
    /// From the settlement engine.
    SettlementEngine(settlement_engine::Event),
    /// From the settlement proofs pallet.
    SettlementProofs(settlement_proofs::Event),
    /// From the cross-settlement pallet.
    CrossSettlement(cross_settlement::Event),
}

/// The abstract state of the chain: every storage item, as mathematical maps.
pub struct ChainState {
    pub block_number: BlockNumber,
    pub operators: operators::State,
    pub assets: asset_registry::State,
    pub engine: settlement_engine::State,
    pub proofs: settlement_proofs::State,
    pub cross: cross_settlement::State,
}

/// The whole state of the chain.
#[derive(Clone, Debug, PartialEq, Eq)]
pub struct Runtime {
    /// The current block height.
    pub block_number: BlockNumber,
    /// Events deposited so far, oldest first.
    pub events: Vec<RuntimeEvent>,
    /// Storage of the operators pallet.
    pub operators: operators::Storage,
    /// Storage of the asset registry.
    pub assets: asset_registry::Storage,
    /// Storage of the settlement engine.
    pub engine: settlement_engine::Storage,
    /// Storage of the settlement proofs pallet.
    pub proofs: settlement_proofs::Storage,
    /// Storage of the cross-settlement pallet.
    pub cross: cross_settlement::Storage,
}

impl View for Runtime {
    type V = ChainState;

    open spec fn view(&self) -> ChainState {
        ChainState {
            block_number: self.block_number,
            operators: self.operators@,
            assets: self.assets@,
            engine: self.engine@,
            proofs: self.proofs@,
            cross: self.cross@,
        }
    }
}

/// A map with every value replaced by its view.
pub open spec fn view_map<K, V: View>(m: Map<K, V>) -> Map<K, V::V> {
    Map::new(|k: K| m.contains_key(k), |k: K| m[k]@)
}

/// Inserting and then viewing is viewing and then inserting the view.
pub proof fn lemma_view_map_insert<K, V: View>(m: Map<K, V>, k: K, v: V)
    ensures
        view_map(m.insert(k, v)) == view_map(m).insert(k, v@),
{
    assert(view_map(m.insert(k, v)) =~= view_map(m).insert(k, v@));
}

/// The view of an empty map is empty.
pub proof fn lemma_view_map_empty<K, V: View>()
    ensures
        view_map(Map::<K, V>::empty()) == Map::<K, V::V>::empty(),
{
    assert(view_map(Map::<K, V>::empty()) =~= Map::<K, V::V>::empty());
}

/// `n + 1`, or `n` at the top of the range.
pub open spec fn saturating_next(n: u32) -> u32 {
    if n < u32::MAX {
        (n + 1) as u32
    } else {
        n
    }
}

/// The key under which a pair of an account and an asset is stored.
pub open spec fn pair_key(account: AccountId, asset_id: u32) -> u128 {
    (account * 0x1_0000_0000 + asset_id) as u128
}

/// Distinct pairs have distinct keys.
pub proof fn lemma_pair_key_injective(a1: AccountId, x1: u32, a2: AccountId, x2: u32)
    ensures
        pair_key(a1, x1) == pair_key(a2, x2) <==> (a1 == a2 && x1 == x2),
{
}

/// Computes [`pair_key`].
pub fn make_pair_key(account: AccountId, asset_id: u32) -> (k: u128)
    ensures
        k == pair_key(account, asset_id),
{
    (account as u128) * 0x1_0000_0000u128 + (asset_id as u128)
}

/// The first of the checks `check` applied to `xs` in order that fails, if any.
pub open spec fn first_failure<A, E>(xs: Seq<A>, check: spec_fn(A) -> Option<E>) -> Option<E>
    decreases xs.len(),
{
    if xs.len() == 0 {
        None
    } else {
        match first_failure(xs.drop_last(), check) {
            Some(e) => Some(e),
            None => check(xs.last()),
        }
    }
}

/// Once a prefix has a failure, the whole sequence has the same first failure.
pub proof fn lemma_first_failure_prefix<A, E>(xs: Seq<A>, check: spec_fn(A) -> Option<E>, i: int)
    requires
        0 <= i <= xs.len(),
        first_failure(xs.take(i), check) is Some,
    ensures
        first_failure(xs, check) == first_failure(xs.take(i), check),
    decreases xs.len() - i,
{
    if i < xs.len() {
        assert(xs.take(i + 1).drop_last() =~= xs.take(i));
        lemma_first_failure_prefix(xs, check, i + 1);
    } else {
        assert(xs.take(i) =~= xs);
    }
}

/// One more check of a prefix without failures.
pub proof fn lemma_first_failure_step<A, E>(xs: Seq<A>, check: spec_fn(A) -> Option<E>, i: int)
    requires
        0 <= i < xs.len(),
        first_failure(xs.take(i), check) is None,
    ensures
        first_failure(xs.take(i + 1), check) == check(xs[i]),
{
    assert(xs.take(i + 1).drop_last() =~= xs.take(i));
}

impl Runtime {
    /// A fresh chain at block 0 whose operators must post at least `min_collateral`.
    pub fn new(min_collateral: u128) -> (r: Runtime)
        ensures
            r@.block_number == 0,
            r.events@ == Seq::<RuntimeEvent>::empty(),
            r@.operators == operators::State::genesis(min_collateral),
            r@.assets == asset_registry::State::genesis(),
            r@.engine == settlement_engine::State::genesis(),
            r@.proofs == settlement_proofs::State::genesis(),
            r@.cross == cross_settlement::State::genesis(),
    {
        Runtime {
            block_number: 0,
            events: Vec::new(),
            operators: operators::Storage::new(min_collateral),
            assets: asset_registry::Storage::new(),
            engine: settlement_engine::Storage::new(),
            proofs: settlement_proofs::Storage::new(),
            cross: cross_settlement::Storage::new(),
        }
    }

    /// Moves the chain to block `n`.
    pub fn set_block_number(&mut self, n: BlockNumber)
        ensures
            final(self)@ == (ChainState { block_number: n, ..old(self)@ }),
            final(self).events@ == old(self).events@,
    {
        self.block_number = n;
    }

    /// Appends an event to the log.
    pub fn deposit_event(&mut self, e: RuntimeEvent)
        ensures
            final(self)@ == old(self)@,
            final(self).events@ == old(self).events@.push(e),
    {
        self.events.push(e);
    }

    /// The most recent event, if any.
    pub fn last_event(&self) -> (r: Option<&RuntimeEvent>)
        ensures
            self.events@.len() == 0 ==> r is None,
            self.events@.len() > 0 ==> r == Some(&self.events@.last()),
    {
        let n = self.events.len();
        if n == 0 {
            None
        } else {
            Some(&self.events[n - 1])
        }
    }
}

} // verus!
