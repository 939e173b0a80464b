//! Properties of the chain that span calls: what every call keeps, what one
//! call undoes, and which states are final.
use vstd::prelude::*;
use crate::asset_registry::{register_asset_step, update_rules_step, update_supply_step, AssetType};
use crate::cross_settlement::{self, apply_leg, cancel_step, execute_step, approve_step, propose_step, Leg};
use crate::operators::{
    self, increase_collateral_step, increment_settlement_count_step, register_operator_step,
    update_operator_status_step, OperatorStatus,
};
use crate::runtime::{pair_key, AccountId, ChainState, DispatchError, Origin};
use crate::settlement_engine::{
    self, dispute_settlement_step, finalize_settlement_step, operation_step, submit_settlement_step,
    SettlementOperation,
};
use crate::settlement_proofs::{self, revoke_proof_step, submit_proof_step, verify_proof_step};

verus! {

// ─── Operators ────────────────────────────────────────────────────────────

/// The operator registry and its id index agree: every operator is stored
/// under its own account and found again through its id, and every id in
/// the index was handed out and names an operator carrying that id.
pub open spec fn registry_consistent(st: operators::State) -> bool {
    &&& forall|acc: AccountId| #[trigger]
        st.operators.contains_key(acc) ==> {
            let id = st.operators[acc].id;
            &&& st.operators[acc].account == acc
            &&& st.operator_account_by_id.contains_key(id)
            &&& st.operator_account_by_id[id] == acc
            &&& id < st.next_operator_id
        }
    &&& forall|id: u32| #[trigger]
        st.operator_account_by_id.contains_key(id) ==> {
            &&& id < st.next_operator_id
            &&& st.operators.contains_key(st.operator_account_by_id[id])
            &&& st.operators[st.operator_account_by_id[id]].id == id
        }
}

/// A fresh chain's registry is consistent.
pub proof fn law_genesis_registry_consistent(min_collateral: u128)
    ensures
        registry_consistent(operators::State::genesis(min_collateral)),
{
}

/// Registering an operator keeps the registry consistent, as long as ids
/// are not exhausted.
pub proof fn law_register_keeps_registry(s: ChainState, origin: Origin, name: Seq<u8>, collateral: u128)
    requires
        registry_consistent(s.operators),
        s.operators.next_operator_id < u32::MAX,
    ensures
        register_operator_step(s, origin, name, collateral) matches Ok(s2) ==> registry_consistent(
            s2.operators,
        ),
{
    if let Ok(s2) = register_operator_step(s, origin, name, collateral) {
        let st = s.operators;
        let st2 = s2.operators;
        let new_id = st.next_operator_id;
        assert(!st.operator_account_by_id.contains_key(new_id));
        assert forall|acc: AccountId| #[trigger] st2.operators.contains_key(acc) implies {
            let id = st2.operators[acc].id;
            &&& st2.operators[acc].account == acc
            &&& st2.operator_account_by_id.contains_key(id)
            &&& st2.operator_account_by_id[id] == acc
            &&& id < st2.next_operator_id
        } by {
            if st.operators.contains_key(acc) {
                assert(st.operators[acc].id != new_id);
            }
        }
        assert forall|id: u32| #[trigger] st2.operator_account_by_id.contains_key(id) implies {
            &&& id < st2.next_operator_id
            &&& st2.operators.contains_key(st2.operator_account_by_id[id])
            &&& st2.operators[st2.operator_account_by_id[id]].id == id
        } by {
            if id != new_id {
                assert(st.operator_account_by_id.contains_key(id));
                let acc = st.operator_account_by_id[id];
                assert(st.operators.contains_key(acc));
                assert(signer_is_new(s, origin, acc));
            }
        }
    }
}

/// The signer of a successful registration was not registered before.
pub open spec fn signer_is_new(s: ChainState, origin: Origin, acc: AccountId) -> bool {
    s.operators.operators.contains_key(acc) ==> origin != Origin::Signed(acc)
}

/// Changing a status keeps the registry consistent.
pub proof fn law_status_update_keeps_registry(
    s: ChainState,
    origin: Origin,
    operator_id: u32,
    status: OperatorStatus,
)
    requires
        registry_consistent(s.operators),
    ensures
        update_operator_status_step(s, origin, operator_id, status) matches Ok(s2)
            ==> registry_consistent(s2.operators),
{
}

/// Raising collateral keeps the registry consistent.
pub proof fn law_collateral_increase_keeps_registry(s: ChainState, origin: Origin, amount: u128)
    requires
        registry_consistent(s.operators),
    ensures
        increase_collateral_step(s, origin, amount) matches Ok(s2) ==> registry_consistent(
            s2.operators,
        ),
{
}

/// Counting a settlement keeps the registry consistent.
pub proof fn law_count_keeps_registry(s: ChainState, operator_id: u32)
    requires
        registry_consistent(s.operators),
    ensures
        increment_settlement_count_step(s, operator_id) matches Ok(s2) ==> registry_consistent(
            s2.operators,
        ),
{
}

/// In a consistent registry, distinct operators carry distinct ids.
pub proof fn law_operator_ids_distinct(st: operators::State, a: AccountId, b: AccountId)
    requires
        registry_consistent(st),
        st.operators.contains_key(a),
        st.operators.contains_key(b),
        a != b,
    ensures
        st.operators[a].id != st.operators[b].id,
{
}

/// An account that registered is refused a second registration.
pub proof fn law_register_once(s: ChainState, who: AccountId, n1: Seq<u8>, c1: u128, n2: Seq<u8>, c2: u128)
    ensures
        register_operator_step(s, Origin::Signed(who), n1, c1) matches Ok(s2)
            ==> register_operator_step(s2, Origin::Signed(who), n2, c2) == Err::<ChainState, DispatchError>(
            DispatchError::Operators(operators::Error::AlreadyRegistered),
        ),
{
}

// ─── Settlement engine ───────────────────────────────────────────────────

/// Everything but the listed balance entries is the same in two balance maps.
pub open spec fn same_elsewhere(
    m1: Map<u128, u128>,
    m2: Map<u128, u128>,
    account: AccountId,
    other: AccountId,
    asset_id: u32,
) -> bool {
    forall|acc: AccountId, asset: u32|
        !((acc == account || acc == other) && asset == asset_id) ==> #[trigger] settlement_engine::amount_in(
            m1,
            acc,
            asset,
        ) == settlement_engine::amount_in(m2, acc, asset)
}

/// A finalized transfer moves `amount` from `from` to `to` and changes no
/// supply, no locked balance and no other free balance.
pub proof fn law_transfer_conserves(
    s: ChainState,
    asset_id: u32,
    amount: u128,
    from: AccountId,
    to: AccountId,
)
    ensures
        operation_step(s, asset_id, SettlementOperation::Transfer, amount, from, to) matches Ok(s2)
            ==> {
            &&& s2.assets == s.assets
            &&& s2.engine.locked_balances == s.engine.locked_balances
            &&& s2.engine.balance(from, asset_id) + s2.engine.balance(to, asset_id) == s.engine.balance(
                from,
                asset_id,
            ) + s.engine.balance(to, asset_id)
            &&& from != to ==> s2.engine.balance(from, asset_id) == s.engine.balance(from, asset_id)
                - amount
            &&& same_elsewhere(s.engine.account_balances, s2.engine.account_balances, from, to, asset_id)
        },
{
    if let Ok(s2) = operation_step(s, asset_id, SettlementOperation::Transfer, amount, from, to) {
        assert forall|acc: AccountId, asset: u32|
            !((acc == from || acc == to) && asset == asset_id) implies #[trigger] settlement_engine::amount_in(
            s.engine.account_balances,
            acc,
            asset,
        ) == settlement_engine::amount_in(s2.engine.account_balances, acc, asset) by {
            crate::runtime::lemma_pair_key_injective(acc, asset, from, asset_id);
            crate::runtime::lemma_pair_key_injective(acc, asset, to, asset_id);
        }
        crate::runtime::lemma_pair_key_injective(from, asset_id, to, asset_id);
    }
}

/// Locking and unlocking move funds between the free and the locked balance
/// of `from` and change no supply.
pub proof fn law_lock_unlock_conserve(
    s: ChainState,
    asset_id: u32,
    amount: u128,
    from: AccountId,
    to: AccountId,
    unlock: bool,
)
    ensures
        ({
            let op = if unlock {
                SettlementOperation::Unlock
            } else {
                SettlementOperation::Lock
            };
            operation_step(s, asset_id, op, amount, from, to) matches Ok(s2) ==> {
                &&& s2.assets == s.assets
                &&& s2.engine.balance(from, asset_id) + s2.engine.locked(from, asset_id)
                    == s.engine.balance(from, asset_id) + s.engine.locked(from, asset_id)
            }
        }),
{
}

/// An issue raises both the recipient's balance and the asset's supply by
/// `amount`; a redemption lowers both the holder's balance and the supply.
pub proof fn law_issue_redeem_move_supply(
    s: ChainState,
    asset_id: u32,
    amount: u128,
    from: AccountId,
    to: AccountId,
)
    ensures
        operation_step(s, asset_id, SettlementOperation::Issue, amount, from, to) matches Ok(s2)
            ==> {
            &&& s2.assets.assets[asset_id].total_supply == s.assets.assets[asset_id].total_supply
                + amount
            &&& s2.engine.balance(to, asset_id) == s.engine.balance(to, asset_id) + amount
        },
        operation_step(s, asset_id, SettlementOperation::Redeem, amount, from, to) matches Ok(s2)
            ==> {
            &&& s2.assets.assets[asset_id].total_supply == s.assets.assets[asset_id].total_supply
                - amount
            &&& s2.engine.balance(from, asset_id) == s.engine.balance(from, asset_id) - amount
        },
{
}

/// Unlocking what was just locked always succeeds and gives every account
/// back the free and locked balances it had.
pub proof fn law_unlock_undoes_lock(
    s: ChainState,
    asset_id: u32,
    amount: u128,
    from: AccountId,
    to: AccountId,
)
    ensures
        operation_step(s, asset_id, SettlementOperation::Lock, amount, from, to) matches Ok(s1)
            ==> {
            &&& operation_step(s1, asset_id, SettlementOperation::Unlock, amount, from, to) is Ok
            &&& forall|acc: AccountId, asset: u32|
                #![trigger s.engine.balance(acc, asset)]
                {
                    let s2 = operation_step(
                        s1,
                        asset_id,
                        SettlementOperation::Unlock,
                        amount,
                        from,
                        to,
                    )->Ok_0;
                    &&& s2.engine.balance(acc, asset) == s.engine.balance(acc, asset)
                    &&& s2.engine.locked(acc, asset) == s.engine.locked(acc, asset)
                }
            &&& operation_step(s1, asset_id, SettlementOperation::Unlock, amount, from, to)->Ok_0.assets
                == s.assets
        },
{
    if let Ok(s1) = operation_step(s, asset_id, SettlementOperation::Lock, amount, from, to) {
        let s2 = operation_step(s1, asset_id, SettlementOperation::Unlock, amount, from, to)->Ok_0;
        assert forall|acc: AccountId, asset: u32| #![trigger s.engine.balance(acc, asset)] {
            &&& s2.engine.balance(acc, asset) == s.engine.balance(acc, asset)
            &&& s2.engine.locked(acc, asset) == s.engine.locked(acc, asset)
        } by {
            crate::runtime::lemma_pair_key_injective(acc, asset, from, asset_id);
        }
    }
}

/// A finalized settlement is final: it can be neither finalized nor
/// disputed again.
pub proof fn law_finalized_is_final(s: ChainState, id: u32, origin: Origin)
    ensures
        finalize_settlement_step(s, Origin::Root, id) matches Ok(s2) ==> {
            &&& s2.engine.settlements[id].status is Finalized
            &&& finalize_settlement_step(s2, origin, id) is Err
            &&& dispute_settlement_step(s2, origin, id) is Err
        },
{
}

/// A disputed settlement is final: it can be neither finalized nor
/// disputed again.
pub proof fn law_disputed_is_final(s: ChainState, id: u32, origin: Origin)
    ensures
        dispute_settlement_step(s, Origin::Root, id) matches Ok(s2) ==> {
            &&& s2.engine.settlements[id].status is Disputed
            &&& finalize_settlement_step(s2, origin, id) is Err
            &&& dispute_settlement_step(s2, origin, id) is Err
        },
{
}

/// Submitting a settlement counts it for the submitting operator and moves
/// no funds.
pub proof fn law_submit_counts_and_moves_nothing(
    s: ChainState,
    origin: Origin,
    operator_id: u32,
    asset_id: u32,
    operation: SettlementOperation,
    amount: u128,
    from: AccountId,
    to: AccountId,
    reference: Seq<u8>,
)
    ensures
        submit_settlement_step(s, origin, operator_id, asset_id, operation, amount, from, to, reference)
            matches Ok(s2) ==> {
            let acc = s.operators.operator_account_by_id[operator_id];
            &&& s2.engine.account_balances == s.engine.account_balances
            &&& s2.engine.locked_balances == s.engine.locked_balances
            &&& s2.assets == s.assets
            &&& s.operators.operators[acc].settlement_count < u64::MAX ==> s2.operators.operators[acc].settlement_count
                == s.operators.operators[acc].settlement_count + 1
            &&& s2.engine.settlements[s.engine.next_settlement_id].status is Pending
        },
{
}

// ─── Settlement proofs ───────────────────────────────────────────────────

/// The hash index and the proofs agree: each indexed hash names a proof
/// carrying it, and each proof is indexed under its own hash.
pub open spec fn proof_index_consistent(p: settlement_proofs::State) -> bool {
    &&& forall|h: Seq<u8>| #[trigger]
        p.proof_hashes.contains_key(h) ==> {
            &&& p.proofs.contains_key(p.proof_hashes[h])
            &&& p.proofs[p.proof_hashes[h]].hash == h
        }
    &&& forall|id: u32| #[trigger]
        p.proofs.contains_key(id) ==> {
            &&& id < p.next_proof_id
            &&& p.proof_hashes.contains_key(p.proofs[id].hash)
            &&& p.proof_hashes[p.proofs[id].hash] == id
        }
}

/// Submitting a proof keeps the index consistent, as long as ids are not
/// exhausted.
pub proof fn law_submit_keeps_proof_index(
    s: ChainState,
    origin: Origin,
    settlement_id: u32,
    proof_type: settlement_proofs::ProofType,
    hash: Seq<u8>,
    data: Seq<u8>,
)
    requires
        proof_index_consistent(s.proofs),
        s.proofs.next_proof_id < u32::MAX,
    ensures
        submit_proof_step(s, origin, settlement_id, proof_type, hash, data) matches Ok(s2)
            ==> proof_index_consistent(s2.proofs),
{
    if let Ok(s2) = submit_proof_step(s, origin, settlement_id, proof_type, hash, data) {
        let p = s.proofs;
        let p2 = s2.proofs;
        let new_id = p.next_proof_id;
        assert(!p.proofs.contains_key(new_id));
        assert forall|h: Seq<u8>| #[trigger] p2.proof_hashes.contains_key(h) implies {
            &&& p2.proofs.contains_key(p2.proof_hashes[h])
            &&& p2.proofs[p2.proof_hashes[h]].hash == h
        } by {
            if h != hash {
                assert(p.proof_hashes[h] != new_id);
            }
        }
        assert forall|id: u32| #[trigger] p2.proofs.contains_key(id) implies {
            &&& id < p2.next_proof_id
            &&& p2.proof_hashes.contains_key(p2.proofs[id].hash)
            &&& p2.proof_hashes[p2.proofs[id].hash] == id
        } by {
            if id != new_id {
                assert(p.proofs[id].hash != hash);
            }
        }
    }
}

/// Verifying or revoking keeps the index consistent.
pub proof fn law_verify_revoke_keep_proof_index(s: ChainState, origin: Origin, id: u32)
    requires
        proof_index_consistent(s.proofs),
    ensures
        verify_proof_step(s, origin, id) matches Ok(s2) ==> proof_index_consistent(s2.proofs),
        revoke_proof_step(s, origin, id) matches Ok(s2) ==> proof_index_consistent(s2.proofs),
{
}

/// In a consistent index no two proofs carry the same hash.
pub proof fn law_proof_hashes_unique(p: settlement_proofs::State, a: u32, b: u32)
    requires
        proof_index_consistent(p),
        p.proofs.contains_key(a),
        p.proofs.contains_key(b),
        a != b,
    ensures
        p.proofs[a].hash != p.proofs[b].hash,
{
}

/// A revoked proof stays revoked: it can be neither verified nor revoked again.
pub proof fn law_revoked_is_final(s: ChainState, id: u32, origin: Origin)
    ensures
        revoke_proof_step(s, Origin::Root, id) matches Ok(s2) ==> {
            &&& verify_proof_step(s2, origin, id) is Err
            &&& revoke_proof_step(s2, origin, id) is Err
        },
{
}

/// Everything `p1` records of proof hashes and settlement links, `p2`
/// records too: each hash under the same proof id, each link still there.
pub open spec fn proofs_kept(p1: settlement_proofs::State, p2: settlement_proofs::State) -> bool {
    &&& forall|h: Seq<u8>| #[trigger]
        p1.proof_hashes.contains_key(h) ==> p2.proof_hashes.contains_key(h) && p2.proof_hashes[h]
            == p1.proof_hashes[h]
    &&& forall|k: u64| #[trigger] p1.settlement_to_proof.contains(k) ==> p2.settlement_to_proof.contains(k)
}

/// Submitting, verifying and revoking proofs never forget a recorded hash
/// or link.
pub proof fn law_proof_steps_keep_hashes(
    s: ChainState,
    origin: Origin,
    id: u32,
    settlement_id: u32,
    proof_type: settlement_proofs::ProofType,
    hash: Seq<u8>,
    data: Seq<u8>,
)
    ensures
        submit_proof_step(s, origin, settlement_id, proof_type, hash, data) matches Ok(s2) ==> proofs_kept(
            s.proofs,
            s2.proofs,
        ),
        verify_proof_step(s, origin, id) matches Ok(s2) ==> proofs_kept(s.proofs, s2.proofs),
        revoke_proof_step(s, origin, id) matches Ok(s2) ==> proofs_kept(s.proofs, s2.proofs),
{
}

/// The calls of the other pallets leave the proofs pallet's storage as it was.
pub proof fn law_other_pallets_leave_proofs(
    s: ChainState,
    origin: Origin,
    id: u32,
    name: Seq<u8>,
    amount: u128,
    status: OperatorStatus,
    asset_type: AssetType,
    symbol: Seq<u8>,
    decimals: u8,
    rules: Seq<u8>,
    asset_id: u32,
    reference: Seq<u8>,
    operation: SettlementOperation,
    from: AccountId,
    to: AccountId,
    participants: Seq<u32>,
    legs: Seq<Leg>,
    expires_at: u32,
)
    ensures
        register_operator_step(s, origin, name, amount) matches Ok(s2) ==> s2.proofs == s.proofs,
        update_operator_status_step(s, origin, id, status) matches Ok(s2) ==> s2.proofs == s.proofs,
        increase_collateral_step(s, origin, amount) matches Ok(s2) ==> s2.proofs == s.proofs,
        increment_settlement_count_step(s, id) matches Ok(s2) ==> s2.proofs == s.proofs,
        register_asset_step(s, origin, asset_type, name, symbol, decimals, rules) matches Ok(s2)
            ==> s2.proofs == s.proofs,
        update_supply_step(s, origin, id, amount) matches Ok(s2) ==> s2.proofs == s.proofs,
        update_rules_step(s, origin, id, rules) matches Ok(s2) ==> s2.proofs == s.proofs,
        submit_settlement_step(s, origin, id, asset_id, operation, amount, from, to, reference) matches Ok(s2)
            ==> s2.proofs == s.proofs,
        finalize_settlement_step(s, origin, id) matches Ok(s2) ==> s2.proofs == s.proofs,
        dispute_settlement_step(s, origin, id) matches Ok(s2) ==> s2.proofs == s.proofs,
        propose_step(s, origin, participants, legs, expires_at, reference) matches Ok(s2) ==> s2.proofs
            == s.proofs,
        approve_step(s, origin, id) matches Ok(s2) ==> s2.proofs == s.proofs,
        execute_step(s, origin, id) matches Ok(s2) ==> s2.proofs == s.proofs,
        cancel_step(s, origin, id) matches Ok(s2) ==> s2.proofs == s.proofs,
{
}

/// A hash already recorded is refused: a signed submission against an
/// existing settlement fails with `DuplicateProofHash` and changes nothing,
/// and any other submission of it fails too.
pub proof fn law_known_hash_refused(
    s: ChainState,
    origin: Origin,
    settlement_id: u32,
    proof_type: settlement_proofs::ProofType,
    hash: Seq<u8>,
    data: Seq<u8>,
)
    requires
        s.proofs.proof_hashes.contains_key(hash),
    ensures
        submit_proof_step(s, origin, settlement_id, proof_type, hash, data) is Err,
        origin is Signed && s.engine.settlements.contains_key(settlement_id) ==> submit_proof_step(
            s,
            origin,
            settlement_id,
            proof_type,
            hash,
            data,
        ) == Err::<ChainState, DispatchError>(
            DispatchError::SettlementProofs(settlement_proofs::Error::DuplicateProofHash),
        ),
{
}

// ─── Supply and holdings ──────────────────────────────────────────────────

/// The asset a balance key belongs to: its low 32 bits (see [`pair_key`]).
pub open spec fn key_asset(k: u128) -> int {
    (k as int) % 0x1_0000_0000
}

/// What the entry under `k` of `m` counts toward the holdings of asset `a`.
pub open spec fn holding(m: Map<u128, u128>, k: u128, a: u32) -> int {
    if m.contains_key(k) && key_asset(k) == a {
        m[k] as int
    } else {
        0
    }
}

/// The holdings of asset `a` under the keys `ks` of `m`.
pub open spec fn holdings_over(ks: Set<u128>, m: Map<u128, u128>, a: u32) -> int
    decreases ks.len(),
    when ks.finite()
{
    if ks.len() == 0 {
        0
    } else {
        let k = ks.choose();
        holding(m, k, a) + holdings_over(ks.remove(k), m, a)
    }
}

/// Everything held of asset `a` across all accounts in balance map `m`.
pub open spec fn asset_holdings(m: Map<u128, u128>, a: u32) -> int {
    holdings_over(m.dom(), m, a)
}

/// Both balance maps of the engine have finitely many entries.
pub open spec fn balances_finite(s: ChainState) -> bool {
    s.engine.account_balances.dom().finite() && s.engine.locked_balances.dom().finite()
}

/// A registered asset's supply is all that is held of it, free and locked.
pub open spec fn supply_matches(s: ChainState, a: u32) -> bool {
    s.assets.assets.contains_key(a) ==> s.assets.assets[a].total_supply == asset_holdings(
        s.engine.account_balances,
        a,
    ) + asset_holdings(s.engine.locked_balances, a)
}

/// The sum does not depend on which key is taken out first.
proof fn lemma_holdings_remove(ks: Set<u128>, m: Map<u128, u128>, a: u32, x: u128)
    requires
        ks.finite(),
        ks.contains(x),
    ensures
        holdings_over(ks, m, a) == holding(m, x, a) + holdings_over(ks.remove(x), m, a),
    decreases ks.len(),
{
    let k = ks.choose();
    if k != x {
        lemma_holdings_remove(ks.remove(k), m, a, x);
        lemma_holdings_remove(ks.remove(x), m, a, k);
        assert(ks.remove(k).remove(x) =~= ks.remove(x).remove(k));
    }
}

/// Maps that count the same on every key of `ks` sum to the same.
proof fn lemma_holdings_agree(ks: Set<u128>, m1: Map<u128, u128>, m2: Map<u128, u128>, a: u32)
    requires
        ks.finite(),
        forall|k: u128| ks.contains(k) ==> #[trigger] holding(m1, k, a) == holding(m2, k, a),
    ensures
        holdings_over(ks, m1, a) == holdings_over(ks, m2, a),
    decreases ks.len(),
{
    if ks.len() > 0 {
        let k = ks.choose();
        lemma_holdings_agree(ks.remove(k), m1, m2, a);
    }
}

/// Storing `v` under `k` changes the holdings of `a` by what the entry counts
/// now less what it counted before.
proof fn lemma_holdings_insert(m: Map<u128, u128>, k: u128, v: u128, a: u32)
    requires
        m.dom().finite(),
    ensures
        m.insert(k, v).dom().finite(),
        asset_holdings(m.insert(k, v), a) == asset_holdings(m, a) - holding(m, k, a) + holding(
            m.insert(k, v),
            k,
            a,
        ),
{
    let m2 = m.insert(k, v);
    let d = m.dom();
    let d2 = m2.dom();
    assert forall|j: u128| d.remove(k).contains(j) implies #[trigger] holding(m, j, a) == holding(
        m2,
        j,
        a,
    ) by {}
    lemma_holdings_agree(d.remove(k), m, m2, a);
    lemma_holdings_remove(d2, m2, a, k);
    if d.contains(k) {
        assert(d2 =~= d);
        lemma_holdings_remove(d, m, a, k);
    } else {
        assert(d2.remove(k) =~= d);
        assert(d.remove(k) =~= d);
    }
}

/// The key of an account's holding of `asset_id` belongs to `asset_id`.
proof fn lemma_pair_key_asset(account: AccountId, asset_id: u32)
    ensures
        key_asset(pair_key(account, asset_id)) == asset_id,
{
    let x = account * 0x1_0000_0000 + asset_id;
    assert(0 <= x < 0x1_0000_0000_0000_0000_0000_0000) by (nonlinear_arith)
        requires
            x == account * 0x1_0000_0000 + asset_id,
            0 <= account < 0x1_0000_0000_0000_0000,
            0 <= asset_id < 0x1_0000_0000,
    ;
    vstd::arithmetic::div_mod::lemma_fundamental_div_mod_converse(
        x,
        0x1_0000_0000,
        account as int,
        asset_id as int,
    );
}

/// Crediting `amount` of `asset_id` to an account raises the holdings of
/// that asset by `amount` and leaves the others as they were; debiting
/// lowers them.
proof fn lemma_holdings_credit_debit(
    m: Map<u128, u128>,
    account: AccountId,
    asset_id: u32,
    amount: u128,
    a: u32,
)
    requires
        m.dom().finite(),
    ensures
        settlement_engine::credit(m, account, asset_id, amount) matches Some(m2) ==> m2.dom().finite()
            && asset_holdings(m2, a) == asset_holdings(m, a) + if a == asset_id {
            amount as int
        } else {
            0
        },
        settlement_engine::debit(m, account, asset_id, amount) matches Some(m2) ==> m2.dom().finite()
            && asset_holdings(m2, a) == asset_holdings(m, a) - if a == asset_id {
            amount as int
        } else {
            0
        },
{
    let k = pair_key(account, asset_id);
    lemma_pair_key_asset(account, asset_id);
    let cur = settlement_engine::amount_in(m, account, asset_id);
    if cur + amount <= u128::MAX {
        lemma_holdings_insert(m, k, (cur + amount) as u128, a);
    }
    if cur >= amount {
        lemma_holdings_insert(m, k, (cur - amount) as u128, a);
    }
}

/// Carrying out a settlement's operation keeps every registered asset's
/// supply equal to all that is held of it.
pub proof fn law_operation_keeps_supply(
    s: ChainState,
    asset_id: u32,
    operation: SettlementOperation,
    amount: u128,
    from: AccountId,
    to: AccountId,
    a: u32,
)
    requires
        balances_finite(s),
        supply_matches(s, a),
    ensures
        operation_step(s, asset_id, operation, amount, from, to) matches Ok(s2) ==> balances_finite(s2)
            && supply_matches(s2, a),
{
    let free = s.engine.account_balances;
    let locked = s.engine.locked_balances;
    match operation {
        SettlementOperation::Issue => {
            lemma_holdings_credit_debit(free, to, asset_id, amount, a);
        },
        SettlementOperation::Redeem => {
            lemma_holdings_credit_debit(free, from, asset_id, amount, a);
        },
        SettlementOperation::Transfer => {
            lemma_holdings_credit_debit(free, from, asset_id, amount, a);
            if let Some(free2) = settlement_engine::debit(free, from, asset_id, amount) {
                lemma_holdings_credit_debit(free2, to, asset_id, amount, a);
            }
        },
        SettlementOperation::Lock => {
            lemma_holdings_credit_debit(free, from, asset_id, amount, a);
            lemma_holdings_credit_debit(locked, from, asset_id, amount, a);
        },
        SettlementOperation::Unlock => {
            lemma_holdings_credit_debit(free, from, asset_id, amount, a);
            lemma_holdings_credit_debit(locked, from, asset_id, amount, a);
        },
    }
}

/// Finalizing a settlement keeps every registered asset's supply equal to
/// all that is held of it; submitting and disputing settlements touch
/// neither supplies nor balances.
pub proof fn law_settlement_steps_keep_supply(
    s: ChainState,
    origin: Origin,
    id: u32,
    operator_id: u32,
    asset_id: u32,
    operation: SettlementOperation,
    amount: u128,
    from: AccountId,
    to: AccountId,
    reference: Seq<u8>,
    a: u32,
)
    requires
        balances_finite(s),
        supply_matches(s, a),
    ensures
        finalize_settlement_step(s, origin, id) matches Ok(s2) ==> balances_finite(s2) && supply_matches(
            s2,
            a,
        ),
        submit_settlement_step(s, origin, operator_id, asset_id, operation, amount, from, to, reference)
            matches Ok(s2) ==> balances_finite(s2) && supply_matches(s2, a),
        dispute_settlement_step(s, origin, id) matches Ok(s2) ==> balances_finite(s2) && supply_matches(
            s2,
            a,
        ),
{
    if s.engine.settlements.contains_key(id) {
        let r = s.engine.settlements[id];
        law_operation_keeps_supply(s, r.asset_id, r.operation, r.amount, r.from, r.to, a);
    }
}

/// Applying legs one after another keeps what is held of every asset.
proof fn lemma_legs_keep_holdings(m: Map<u128, u128>, legs: Seq<Leg>, a: u32)
    requires
        m.dom().finite(),
    ensures
        cross_settlement::apply_legs(m, legs) matches Ok(m2) ==> m2.dom().finite() && asset_holdings(
            m2,
            a,
        ) == asset_holdings(m, a),
    decreases legs.len(),
{
    if legs.len() > 0 {
        lemma_legs_keep_holdings(m, legs.drop_last(), a);
        if let Ok(m1) = cross_settlement::apply_legs(m, legs.drop_last()) {
            let leg = legs.last();
            lemma_holdings_credit_debit(m1, leg.from, leg.asset_id, leg.amount, a);
            if let Some(m2) = settlement_engine::debit(m1, leg.from, leg.asset_id, leg.amount) {
                lemma_holdings_credit_debit(m2, leg.to, leg.asset_id, leg.amount, a);
            }
        }
    }
}

/// Executing a cross-settlement keeps every registered asset's supply equal
/// to all that is held of it.
pub proof fn law_execute_keeps_supply(s: ChainState, origin: Origin, id: u32, a: u32)
    requires
        balances_finite(s),
        supply_matches(s, a),
    ensures
        execute_step(s, origin, id) matches Ok(s2) ==> balances_finite(s2) && supply_matches(s2, a),
{
    if s.cross.cross_settlements.contains_key(id) {
        lemma_legs_keep_holdings(s.engine.account_balances, s.cross.cross_settlements[id].legs, a);
    }
}

// ─── Cross-settlements ───────────────────────────────────────────────────

/// Every stored cross-settlement's approvals are distinct participants and
/// include its initiator.
pub open spec fn approvals_consistent(c: cross_settlement::State) -> bool {
    forall|id: u32| #[trigger]
        c.cross_settlements.contains_key(id) ==> {
            let r = c.cross_settlements[id];
            &&& r.approvals.no_duplicates()
            &&& forall|k: int| 0 <= k < r.approvals.len() ==> r.participants.contains(#[trigger] r.approvals[k])
            &&& r.approvals.contains(r.initiator_id)
        }
}

/// Proposing keeps the approvals consistent.
pub proof fn law_propose_keeps_approvals(
    s: ChainState,
    origin: Origin,
    participants: Seq<u32>,
    legs: Seq<Leg>,
    expires_at: u32,
    reference: Seq<u8>,
)
    requires
        approvals_consistent(s.cross),
    ensures
        propose_step(s, origin, participants, legs, expires_at, reference) matches Ok(s2)
            ==> approvals_consistent(s2.cross),
{
    if let Ok(s2) = propose_step(s, origin, participants, legs, expires_at, reference) {
        let id = s.cross.next_cross_settlement_id;
        let r = s2.cross.cross_settlements[id];
        assert(r.approvals[0] == r.initiator_id);
        assert(r.approvals.contains(r.initiator_id));
    }
}

/// Approving keeps the approvals consistent.
pub proof fn law_approve_keeps_approvals(s: ChainState, origin: Origin, id: u32)
    requires
        approvals_consistent(s.cross),
    ensures
        approve_step(s, origin, id) matches Ok(s2) ==> approvals_consistent(s2.cross),
{
    if let Ok(s2) = approve_step(s, origin, id) {
        let r = s.cross.cross_settlements[id];
        let r2 = s2.cross.cross_settlements[id];
        let op = r2.approvals.last();
        assert(r2.approvals.drop_last() =~= r.approvals);
        assert(r2.approvals.no_duplicates()) by {
            assert forall|i: int, j: int|
                0 <= i < r2.approvals.len() && 0 <= j < r2.approvals.len() && i != j implies r2.approvals[i]
                != r2.approvals[j] by {
                if i < r.approvals.len() && j < r.approvals.len() {
                } else if i < r.approvals.len() {
                    assert(r.approvals.contains(r.approvals[i]));
                } else {
                    assert(r.approvals.contains(r.approvals[j]));
                }
            }
        }
        assert forall|k: int| 0 <= k < r2.approvals.len() implies r2.participants.contains(
            #[trigger] r2.approvals[k],
        ) by {
            if k < r.approvals.len() {
                assert(r.approvals[k] == r2.approvals[k]);
            }
        }
        let w = choose|k: int| 0 <= k < r.approvals.len() && r.approvals[k] == r.initiator_id;
        assert(r2.approvals[w] == r2.initiator_id);
    }
}

/// Executing or cancelling keeps the approvals consistent.
pub proof fn law_execute_cancel_keep_approvals(s: ChainState, origin: Origin, id: u32)
    requires
        approvals_consistent(s.cross),
    ensures
        execute_step(s, origin, id) matches Ok(s2) ==> approvals_consistent(s2.cross),
        cancel_step(s, origin, id) matches Ok(s2) ==> approvals_consistent(s2.cross),
{
}

/// Whether every participant of `r` has approved it.
pub open spec fn all_participants_approved(r: cross_settlement::CrossSettlementRecord) -> bool {
    forall|k: int| 0 <= k < r.participants.len() ==> r.approvals.contains(#[trigger] r.participants[k])
}

/// Every stored cross-settlement that is pending has fewer or more approvals
/// than participants, and every approved one exactly as many.
pub open spec fn status_follows_count(c: cross_settlement::State) -> bool {
    forall|id: u32| #[trigger]
        c.cross_settlements.contains_key(id) ==> {
            let r = c.cross_settlements[id];
            &&& r.status is Pending ==> r.approvals.len() != r.participants.len()
            &&& r.status is Approved ==> r.approvals.len() == r.participants.len()
        }
}

/// Proposing, approving, executing and cancelling keep the status in step
/// with the count of approvals.
pub proof fn law_steps_keep_status_count(
    s: ChainState,
    origin: Origin,
    id: u32,
    participants: Seq<u32>,
    legs: Seq<Leg>,
    expires_at: u32,
    reference: Seq<u8>,
)
    requires
        status_follows_count(s.cross),
    ensures
        propose_step(s, origin, participants, legs, expires_at, reference) matches Ok(s2)
            ==> status_follows_count(s2.cross),
        approve_step(s, origin, id) matches Ok(s2) ==> status_follows_count(s2.cross),
        execute_step(s, origin, id) matches Ok(s2) ==> status_follows_count(s2.cross),
        cancel_step(s, origin, id) matches Ok(s2) ==> status_follows_count(s2.cross),
{
}

/// A pending cross-settlement has fewer approvals than participants.
pub proof fn law_pending_has_fewer_approvals(c: cross_settlement::State, id: u32)
    requires
        approvals_consistent(c),
        status_follows_count(c),
        c.cross_settlements.contains_key(id),
        c.cross_settlements[id].status is Pending,
    ensures
        c.cross_settlements[id].approvals.len() < c.cross_settlements[id].participants.len(),
{
    broadcast use vstd::seq_lib::group_seq_properties;

    let r = c.cross_settlements[id];
    let a = r.approvals.to_set();
    let p = r.participants.to_set();
    r.approvals.unique_seq_to_set();
    r.participants.lemma_cardinality_of_set();
    assert(a.subset_of(p)) by {
        assert forall|x: u32| a.contains(x) implies p.contains(x) by {
            let k = choose|k: int| 0 <= k < r.approvals.len() && r.approvals[k] == x;
            assert(r.participants.contains(r.approvals[k]));
        }
    }
    vstd::set_lib::lemma_len_subset(a, p);
}

/// An open cross-settlement (pending or approved) among distinct
/// participants is approved exactly when every participant has approved it.
pub proof fn law_approved_iff_all_approved(c: cross_settlement::State, id: u32)
    requires
        approvals_consistent(c),
        status_follows_count(c),
        c.cross_settlements.contains_key(id),
        c.cross_settlements[id].participants.no_duplicates(),
        c.cross_settlements[id].status is Pending || c.cross_settlements[id].status is Approved,
    ensures
        (c.cross_settlements[id].status is Approved) <==> all_participants_approved(c.cross_settlements[id]),
{
    broadcast use vstd::seq_lib::group_seq_properties;

    let r = c.cross_settlements[id];
    let a = r.approvals.to_set();
    let p = r.participants.to_set();
    r.approvals.unique_seq_to_set();
    r.participants.unique_seq_to_set();
    assert(a.subset_of(p)) by {
        assert forall|x: u32| a.contains(x) implies p.contains(x) by {
            let k = choose|k: int| 0 <= k < r.approvals.len() && r.approvals[k] == x;
            assert(r.participants.contains(r.approvals[k]));
        }
    }
    if r.status is Approved {
        vstd::set_lib::lemma_subset_equality(a, p);
        assert forall|k: int| 0 <= k < r.participants.len() implies r.approvals.contains(
            #[trigger] r.participants[k],
        ) by {
            assert(p.contains(r.participants[k]));
        }
    }
    if all_participants_approved(r) {
        assert(p.subset_of(a)) by {
            assert forall|x: u32| p.contains(x) implies a.contains(x) by {
                let k = choose|k: int| 0 <= k < r.participants.len() && r.participants[k] == x;
                assert(r.approvals.contains(r.participants[k]));
            }
        }
        assert(a =~= p);
    }
}

/// An executed cross-settlement can be neither executed again, nor
/// cancelled, nor approved.
pub proof fn law_executed_is_final(s: ChainState, id: u32, origin: Origin)
    ensures
        execute_step(s, Origin::Root, id) matches Ok(s2) ==> {
            &&& execute_step(s2, origin, id) is Err
            &&& cancel_step(s2, origin, id) is Err
            &&& approve_step(s2, origin, id) is Err
        },
{
}

/// A cancelled cross-settlement can be neither executed, nor cancelled
/// again, nor approved.
pub proof fn law_cancelled_is_final(s: ChainState, id: u32, origin: Origin)
    ensures
        cancel_step(s, Origin::Root, id) matches Ok(s2) ==> {
            &&& execute_step(s2, origin, id) is Err
            &&& cancel_step(s2, origin, id) is Err
            &&& approve_step(s2, origin, id) is Err
        },
{
}

/// A leg moves its amount between its two accounts and leaves every other
/// balance as it was.
pub proof fn law_leg_conserves(m: Map<u128, u128>, leg: Leg)
    ensures
        apply_leg(m, leg) matches Ok(m2) ==> {
            &&& settlement_engine::amount_in(m2, leg.from, leg.asset_id) + settlement_engine::amount_in(
                m2,
                leg.to,
                leg.asset_id,
            ) == settlement_engine::amount_in(m, leg.from, leg.asset_id) + settlement_engine::amount_in(
                m,
                leg.to,
                leg.asset_id,
            )
            &&& same_elsewhere(m, m2, leg.from, leg.to, leg.asset_id)
        },
{
    if let Ok(m2) = apply_leg(m, leg) {
        assert forall|acc: AccountId, asset: u32|
            !((acc == leg.from || acc == leg.to) && asset == leg.asset_id) implies #[trigger] settlement_engine::amount_in(
            m,
            acc,
            asset,
        ) == settlement_engine::amount_in(m2, acc, asset) by {
            crate::runtime::lemma_pair_key_injective(acc, asset, leg.from, leg.asset_id);
            crate::runtime::lemma_pair_key_injective(acc, asset, leg.to, leg.asset_id);
        }
        crate::runtime::lemma_pair_key_injective(leg.from, leg.asset_id, leg.to, leg.asset_id);
    }
}

} // verus!
