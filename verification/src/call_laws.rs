//! What each call does, stated of its arguments and of the chain before and
//! after: when it succeeds, and what the records it writes hold.
use vstd::prelude::*;
use crate::asset_registry::{register_asset_step, update_rules_step, update_supply_step, AssetType};
use crate::cross_settlement::{
    approve_step, cancel_step, execute_step, propose_step, CrossSettlementStatus, Leg,
};
use crate::operators::{
    increase_collateral_step, increment_settlement_count_step, register_operator_step,
    update_operator_status_step, OperatorStatus,
};
use crate::runtime::{first_failure, AccountId, ChainState, DispatchError, Origin};
use crate::settlement_engine::{
    dispute_settlement_step, finalize_settlement_step, submit_settlement_step, SettlementOperation,
    SettlementStatus,
};
use crate::api::auth::{bearer_token_of, expiry_of as token_expiry_of};
use crate::api::config::{config_problem, number_or, ConfigVars};
use crate::api::requests::{
    asset_type_named, byte_len, expiry_of, operation_named, proof_fields_problem, proof_type_named,
    propose_problem, register_asset_problem, register_problem, rules_text, status_named,
    submit_settlement_problem, text_decimal, ProposeCrossSettlementRequest, RegisterAssetRequest,
    RegisterRequest, SubmitProofRequest, SubmitSettlementRequest,
};
use crate::api::text::{all_digits, decimal_u128, digits_value};
use crate::mock::decimal_bytes;
use crate::settlement_proofs::{revoke_proof_step, submit_proof_step, verify_proof_step, ProofStatus, ProofType};

verus! {

// ─── Operators ────────────────────────────────────────────────────────────

/// A registration succeeds exactly when a signed account that is not yet an
/// operator posts at least the minimum collateral. The new operator is
/// active, carries the next id, the given name and collateral, no
/// settlements and the current block; its id leads back to its account, and
/// no other operator changes.
pub proof fn law_register_operator_effect(s: ChainState, origin: Origin, name: Seq<u8>, collateral: u128)
    ensures
        !(origin is Signed) ==> register_operator_step(s, origin, name, collateral)
            == Err::<ChainState, DispatchError>(DispatchError::BadOrigin),
        origin matches Origin::Signed(who) ==> (register_operator_step(s, origin, name, collateral) is Ok
            <==> !s.operators.operators.contains_key(who) && collateral >= s.operators.min_collateral),
        origin matches Origin::Signed(who) ==> (register_operator_step(s, origin, name, collateral) matches Ok(
            s2,
        ) ==> {
            let op = s2.operators.operators[who];
            &&& s2.operators.operators.contains_key(who)
            &&& op.id == s.operators.next_operator_id
            &&& op.account == who
            &&& op.name == name
            &&& op.collateral == collateral
            &&& op.status is Active
            &&& op.settlement_count == 0
            &&& op.registered_at == s.block_number
            &&& s2.operators.operator_account_by_id.contains_key(op.id)
            &&& s2.operators.operator_account_by_id[op.id] == who
            &&& forall|w: AccountId|
                w != who && s.operators.operators.contains_key(w) ==> s2.operators.operators.contains_key(w)
                    && #[trigger] s2.operators.operators[w] == s.operators.operators[w]
            &&& s2.assets == s.assets && s2.engine == s.engine && s2.proofs == s.proofs && s2.cross == s.cross
        }),
{
}

/// A status change succeeds exactly when root names a registered operator
/// id; afterwards that operator has exactly the requested status, keeps
/// every other field, and no other operator changes.
pub proof fn law_update_status_effect(s: ChainState, origin: Origin, operator_id: u32, status: OperatorStatus)
    ensures
        update_operator_status_step(s, origin, operator_id, status) is Ok <==> (origin is Root
            && s.operators.operator_account_by_id.contains_key(operator_id) && s.operators.operators.contains_key(
            s.operators.operator_account_by_id[operator_id],
        )),
        update_operator_status_step(s, origin, operator_id, status) matches Ok(s2) ==> {
            let acc = s.operators.operator_account_by_id[operator_id];
            let before = s.operators.operators[acc];
            let after = s2.operators.operators[acc];
            &&& s2.operators.operators.contains_key(acc)
            &&& after.status == status
            &&& after.id == before.id && after.account == before.account && after.name == before.name
            &&& after.collateral == before.collateral && after.settlement_count == before.settlement_count
            &&& after.registered_at == before.registered_at
            &&& forall|w: AccountId|
                w != acc && s.operators.operators.contains_key(w) ==> s2.operators.operators.contains_key(w)
                    && #[trigger] s2.operators.operators[w] == s.operators.operators[w]
            &&& s2.operators.operators.dom() == s.operators.operators.dom()
            &&& s2.operators.operator_account_by_id == s.operators.operator_account_by_id
            &&& s2.operators.next_operator_id == s.operators.next_operator_id
            &&& s2.assets == s.assets && s2.engine == s.engine && s2.proofs == s.proofs && s2.cross == s.cross
        },
{
    if let Ok(s2) = update_operator_status_step(s, origin, operator_id, status) {
        let acc = s.operators.operator_account_by_id[operator_id];
        assert(s2.operators.operators.dom() =~= s.operators.operators.dom());
    }
}

/// Raising collateral succeeds exactly when a signed operator asks; its
/// collateral grows by exactly `amount` (the call's precondition rules out
/// overflow) and nothing else changes.
pub proof fn law_increase_collateral_effect(s: ChainState, origin: Origin, amount: u128)
    ensures
        increase_collateral_step(s, origin, amount) is Ok <==> (origin matches Origin::Signed(who)
            && s.operators.operators.contains_key(who)),
        origin matches Origin::Signed(who) ==> (increase_collateral_step(s, origin, amount) matches Ok(s2) ==> {
            let before = s.operators.operators[who];
            let after = s2.operators.operators[who];
            &&& before.collateral + amount <= u128::MAX ==> after.collateral == before.collateral + amount
            &&& after.id == before.id && after.status == before.status && after.name == before.name
            &&& after.settlement_count == before.settlement_count
            &&& s2.operators.operator_account_by_id == s.operators.operator_account_by_id
            &&& s2.assets == s.assets && s2.engine == s.engine && s2.proofs == s.proofs && s2.cross == s.cross
        }),
{
}

/// Counting a settlement succeeds exactly when the id names a registered
/// operator, whose count then grows by one, or stays at the top.
pub proof fn law_increment_count_effect(s: ChainState, operator_id: u32)
    ensures
        increment_settlement_count_step(s, operator_id) is Ok <==> (s.operators.operator_account_by_id.contains_key(
            operator_id,
        ) && s.operators.operators.contains_key(s.operators.operator_account_by_id[operator_id])),
        increment_settlement_count_step(s, operator_id) matches Ok(s2) ==> {
            let acc = s.operators.operator_account_by_id[operator_id];
            let before = s.operators.operators[acc];
            let after = s2.operators.operators[acc];
            &&& before.settlement_count < u64::MAX ==> after.settlement_count == before.settlement_count + 1
            &&& before.settlement_count == u64::MAX ==> after.settlement_count == u64::MAX
            &&& after.status == before.status && after.collateral == before.collateral && after.id == before.id
            &&& s2.assets == s.assets && s2.engine == s.engine && s2.proofs == s.proofs && s2.cross == s.cross
        },
{
}

// ─── Assets ───────────────────────────────────────────────────────────────

/// Registering an asset succeeds exactly when a signed operator asks. The
/// asset stored under the next id has the given kind, name, symbol,
/// decimals and rules, the signer as issuer and no supply; the signer is
/// recorded as its issuer and no earlier asset changes.
pub proof fn law_register_asset_effect(
    s: ChainState,
    origin: Origin,
    asset_type: AssetType,
    name: Seq<u8>,
    symbol: Seq<u8>,
    decimals: u8,
    rules: Seq<u8>,
)
    ensures
        register_asset_step(s, origin, asset_type, name, symbol, decimals, rules) is Ok <==> (origin matches Origin::Signed(
            who,
        ) && s.operators.operators.contains_key(who)),
        origin matches Origin::Signed(who) ==> (register_asset_step(s, origin, asset_type, name, symbol, decimals, rules)
            matches Ok(s2) ==> {
            let id = s.assets.next_asset_id;
            let a = s2.assets.assets[id];
            &&& s2.assets.assets.contains_key(id)
            &&& a.asset_type == asset_type && a.issuer == who && a.name == name && a.symbol == symbol
            &&& a.decimals == decimals && a.total_supply == 0 && a.settlement_rules == rules
            &&& s2.assets.issued_by(who, id)
            &&& forall|k: u32|
                k != id && s.assets.assets.contains_key(k) ==> s2.assets.assets.contains_key(k)
                    && #[trigger] s2.assets.assets[k] == s.assets.assets[k]
            &&& s2.operators == s.operators && s2.engine == s.engine && s2.proofs == s.proofs && s2.cross == s.cross
        }),
{
}

/// Setting a supply succeeds exactly when the signer issued the asset; the
/// asset then holds exactly the new supply and keeps every other field.
pub proof fn law_update_supply_effect(s: ChainState, origin: Origin, asset_id: u32, new_supply: u128)
    ensures
        update_supply_step(s, origin, asset_id, new_supply) is Ok <==> (origin matches Origin::Signed(who)
            && s.assets.assets.contains_key(asset_id) && s.assets.assets[asset_id].issuer == who),
        update_supply_step(s, origin, asset_id, new_supply) matches Ok(s2) ==> {
            let before = s.assets.assets[asset_id];
            let after = s2.assets.assets[asset_id];
            &&& after.total_supply == new_supply
            &&& after.asset_type == before.asset_type && after.issuer == before.issuer && after.name == before.name
            &&& after.symbol == before.symbol && after.decimals == before.decimals
            &&& after.settlement_rules == before.settlement_rules
            &&& s2.assets.assets.dom() == s.assets.assets.dom()
            &&& s2.operators == s.operators && s2.engine == s.engine && s2.proofs == s.proofs && s2.cross == s.cross
        },
{
    if let Ok(s2) = update_supply_step(s, origin, asset_id, new_supply) {
        assert(s2.assets.assets.dom() =~= s.assets.assets.dom());
    }
}

/// Setting rules succeeds exactly when the signer issued the asset; the
/// asset then holds exactly the new rules and keeps every other field.
pub proof fn law_update_rules_effect(s: ChainState, origin: Origin, asset_id: u32, rules: Seq<u8>)
    ensures
        update_rules_step(s, origin, asset_id, rules) is Ok <==> (origin matches Origin::Signed(who)
            && s.assets.assets.contains_key(asset_id) && s.assets.assets[asset_id].issuer == who),
        update_rules_step(s, origin, asset_id, rules) matches Ok(s2) ==> {
            let before = s.assets.assets[asset_id];
            let after = s2.assets.assets[asset_id];
            &&& after.settlement_rules == rules
            &&& after.asset_type == before.asset_type && after.issuer == before.issuer && after.name == before.name
            &&& after.symbol == before.symbol && after.decimals == before.decimals
            &&& after.total_supply == before.total_supply
            &&& s2.assets.assets.dom() == s.assets.assets.dom()
            &&& s2.operators == s.operators && s2.engine == s.engine && s2.proofs == s.proofs && s2.cross == s.cross
        },
{
    if let Ok(s2) = update_rules_step(s, origin, asset_id, rules) {
        assert(s2.assets.assets.dom() =~= s.assets.assets.dom());
    }
}

// ─── Settlements ──────────────────────────────────────────────────────────

/// Submitting a settlement succeeds exactly when the signer is the active
/// operator registered under `operator_id` and the asset exists. The
/// settlement stored under the next id holds the arguments, is pending,
/// carries the current block and no finalization; the operator's count
/// grows by one (or stays at the top) and no funds or supplies move.
pub proof fn law_submit_settlement_effect(
    s: ChainState,
    origin: Origin,
    operator_id: u32,
    asset_id: u32,
    operation: SettlementOperation,
    amount: u128,
    from: AccountId,
    to: AccountId,
    reference: Seq<u8>,
)
    ensures
        submit_settlement_step(s, origin, operator_id, asset_id, operation, amount, from, to, reference) is Ok
            <==> (origin matches Origin::Signed(who) && s.operators.operator_account_by_id.contains_key(operator_id)
            && s.operators.operator_account_by_id[operator_id] == who && s.operators.operators.contains_key(who)
            && s.operators.operators[who].status is Active && s.assets.assets.contains_key(asset_id)),
        submit_settlement_step(s, origin, operator_id, asset_id, operation, amount, from, to, reference)
            matches Ok(s2) ==> {
            let id = s.engine.next_settlement_id;
            let r = s2.engine.settlements[id];
            let acc = s.operators.operator_account_by_id[operator_id];
            &&& s2.engine.settlements.contains_key(id)
            &&& r.id == id && r.operator_id == operator_id && r.asset_id == asset_id && r.operation == operation
            &&& r.amount == amount && r.from == from && r.to == to && r.reference == reference
            &&& r.status is Pending && r.submitted_at == s.block_number && r.finalized_at is None
            &&& s.operators.operators[acc].settlement_count < u64::MAX ==> s2.operators.operators[acc].settlement_count
                == s.operators.operators[acc].settlement_count + 1
            &&& s2.engine.account_balances == s.engine.account_balances
            &&& s2.engine.locked_balances == s.engine.locked_balances
            &&& s2.assets == s.assets && s2.proofs == s.proofs && s2.cross == s.cross
        },
{
}

/// Finalizing succeeds only for root on a pending settlement; the
/// settlement is then finalized at the current block with its other
/// fields kept, and its operation has moved exactly its amount: an issue
/// credits `to` and raises the supply, a redemption debits `from` and
/// lowers it, a transfer moves funds from `from` to `to`, a lock moves
/// them from `from`'s free to its locked balance, an unlock back.
pub proof fn law_finalize_effect(s: ChainState, origin: Origin, id: u32)
    ensures
        finalize_settlement_step(s, origin, id) is Ok ==> origin is Root && s.engine.settlements.contains_key(id)
            && s.engine.settlements[id].status is Pending,
        finalize_settlement_step(s, origin, id) matches Ok(s2) ==> {
            let r = s.engine.settlements[id];
            let r2 = s2.engine.settlements[id];
            let a = r.asset_id;
            let e = s.engine;
            let e2 = s2.engine;
            &&& r2.status is Finalized && r2.finalized_at == Some(s.block_number)
            &&& r2.id == r.id && r2.operator_id == r.operator_id && r2.asset_id == r.asset_id
            &&& r2.operation == r.operation && r2.amount == r.amount && r2.from == r.from && r2.to == r.to
            &&& r2.reference == r.reference && r2.submitted_at == r.submitted_at
            &&& (r.operation is Issue || r.operation is Redeem ==> s.assets.assets.contains_key(a)
                && s2.assets.assets.contains_key(a))
            &&& (r.operation is Issue ==> e2.balance(r.to, a) == e.balance(r.to, a) + r.amount
                && s2.assets.assets[a].total_supply == s.assets.assets[a].total_supply + r.amount)
            &&& (r.operation is Redeem ==> e2.balance(r.from, a) == e.balance(r.from, a) - r.amount
                && s2.assets.assets[a].total_supply == s.assets.assets[a].total_supply - r.amount)
            &&& (r.operation is Transfer && r.from != r.to ==> e2.balance(r.from, a) == e.balance(r.from, a)
                - r.amount && e2.balance(r.to, a) == e.balance(r.to, a) + r.amount && s2.assets == s.assets)
            &&& (r.operation is Lock ==> e2.balance(r.from, a) == e.balance(r.from, a) - r.amount && e2.locked(
                r.from,
                a,
            ) == e.locked(r.from, a) + r.amount && s2.assets == s.assets)
            &&& (r.operation is Unlock ==> e2.locked(r.from, a) == e.locked(r.from, a) - r.amount && e2.balance(
                r.from,
                a,
            ) == e.balance(r.from, a) + r.amount && s2.assets == s.assets)
        },
{
    if let Ok(s2) = finalize_settlement_step(s, origin, id) {
        let r = s.engine.settlements[id];
        crate::runtime::lemma_pair_key_injective(r.from, r.asset_id, r.to, r.asset_id);
    }
}

/// Disputing succeeds exactly when root names a pending settlement; it is
/// then disputed with its other fields kept, and no funds move.
pub proof fn law_dispute_effect(s: ChainState, origin: Origin, id: u32)
    ensures
        dispute_settlement_step(s, origin, id) is Ok <==> (origin is Root && s.engine.settlements.contains_key(id)
            && s.engine.settlements[id].status is Pending),
        dispute_settlement_step(s, origin, id) matches Ok(s2) ==> {
            let r = s.engine.settlements[id];
            let r2 = s2.engine.settlements[id];
            &&& r2.status is Disputed && r2.finalized_at == r.finalized_at
            &&& r2.operation == r.operation && r2.amount == r.amount && r2.from == r.from && r2.to == r.to
            &&& s2.engine.account_balances == s.engine.account_balances
            &&& s2.engine.locked_balances == s.engine.locked_balances
            &&& s2.assets == s.assets
        },
{
}

// ─── Proofs ───────────────────────────────────────────────────────────────

/// Submitting a proof succeeds exactly when a signed account names an
/// existing settlement and a hash not recorded before. The proof stored
/// under the next id holds the given settlement, kind, hash and data, the
/// signer as submitter, is pending and carries the current block; the hash
/// now names it and it is linked to its settlement, and no earlier proof
/// changes.
pub proof fn law_submit_proof_effect(
    s: ChainState,
    origin: Origin,
    settlement_id: u32,
    proof_type: ProofType,
    hash: Seq<u8>,
    data: Seq<u8>,
)
    ensures
        submit_proof_step(s, origin, settlement_id, proof_type, hash, data) is Ok <==> (origin is Signed
            && s.engine.settlements.contains_key(settlement_id) && !s.proofs.proof_hashes.contains_key(hash)),
        origin matches Origin::Signed(who) ==> (submit_proof_step(s, origin, settlement_id, proof_type, hash, data)
            matches Ok(s2) ==> {
            let id = s.proofs.next_proof_id;
            let p = s2.proofs.proofs[id];
            &&& s2.proofs.proofs.contains_key(id)
            &&& p.id == id && p.settlement_id == settlement_id && p.proof_type == proof_type && p.hash == hash
            &&& p.submitter == who && p.data == data && p.status is Pending
            &&& p.submitted_at == s.block_number && p.verified_at is None
            &&& s2.proofs.proof_hashes.contains_key(hash) && s2.proofs.proof_hashes[hash] == id
            &&& s2.proofs.linked(settlement_id, id)
            &&& forall|k: u32|
                k != id && s.proofs.proofs.contains_key(k) ==> s2.proofs.proofs.contains_key(k)
                    && #[trigger] s2.proofs.proofs[k] == s.proofs.proofs[k]
            &&& s2.operators == s.operators && s2.assets == s.assets && s2.engine == s.engine && s2.cross == s.cross
        }),
{
}

/// Verifying succeeds exactly when root names a pending proof; it is then
/// verified at the current block and keeps every other field.
pub proof fn law_verify_proof_effect(s: ChainState, origin: Origin, id: u32)
    ensures
        verify_proof_step(s, origin, id) is Ok <==> (origin is Root && s.proofs.proofs.contains_key(id)
            && s.proofs.proofs[id].status is Pending),
        verify_proof_step(s, origin, id) matches Ok(s2) ==> {
            let p = s.proofs.proofs[id];
            let p2 = s2.proofs.proofs[id];
            &&& p2.status is Verified && p2.verified_at == Some(s.block_number)
            &&& p2.id == p.id && p2.settlement_id == p.settlement_id && p2.proof_type == p.proof_type
            &&& p2.hash == p.hash && p2.submitter == p.submitter && p2.data == p.data
            &&& p2.submitted_at == p.submitted_at
            &&& s2.proofs.proof_hashes == s.proofs.proof_hashes
        },
{
}

/// Revoking succeeds exactly when root names a proof not yet revoked; it is
/// then revoked and keeps every other field.
pub proof fn law_revoke_proof_effect(s: ChainState, origin: Origin, id: u32)
    ensures
        revoke_proof_step(s, origin, id) is Ok <==> (origin is Root && s.proofs.proofs.contains_key(id)
            && !(s.proofs.proofs[id].status is Revoked)),
        revoke_proof_step(s, origin, id) matches Ok(s2) ==> {
            let p = s.proofs.proofs[id];
            let p2 = s2.proofs.proofs[id];
            &&& p2.status is Revoked && p2.verified_at == p.verified_at
            &&& p2.id == p.id && p2.settlement_id == p.settlement_id && p2.proof_type == p.proof_type
            &&& p2.hash == p.hash && p2.submitter == p.submitter && p2.data == p.data
            &&& s2.proofs.proof_hashes == s.proofs.proof_hashes
        },
{
}

// ─── Cross-settlements ───────────────────────────────────────────────────

/// A sequence has no failing item exactly when each item passes the check.
proof fn lemma_no_failure<A, E>(xs: Seq<A>, check: spec_fn(A) -> Option<E>)
    ensures
        first_failure(xs, check) is None <==> forall|i: int| 0 <= i < xs.len() ==> (#[trigger] check(xs[i])) is None,
    decreases xs.len(),
{
    if xs.len() > 0 {
        lemma_no_failure(xs.drop_last(), check);
        if first_failure(xs, check) is None {
            assert forall|i: int| 0 <= i < xs.len() implies (#[trigger] check(xs[i])) is None by {
                if i < xs.len() - 1 {
                    assert(xs.drop_last()[i] == xs[i]);
                }
            }
        } else if forall|i: int| 0 <= i < xs.len() ==> (#[trigger] check(xs[i])) is None {
            assert forall|i: int| 0 <= i < xs.drop_last().len() implies (#[trigger] check(xs.drop_last()[i])) is None by {
                assert(xs.drop_last()[i] == xs[i]);
            }
            assert(check(xs[xs.len() - 1]) is None);
        }
    }
}

/// Whether operator id `p` names a registered, active operator.
pub open spec fn active_operator_id(s: ChainState, p: u32) -> bool {
    &&& s.operators.operator_account_by_id.contains_key(p)
    &&& s.operators.operators.contains_key(s.operators.operator_account_by_id[p])
    &&& s.operators.operators[s.operators.operator_account_by_id[p]].status is Active
}

/// A proposal succeeds exactly when a signed, active operator proposes,
/// with an expiry after the current block, among participants that include
/// it and are all registered, active operators, and with legs whose assets
/// all exist. The stored cross-settlement holds the arguments, the
/// proposer as initiator and sole approval, and is approved at once
/// exactly when the proposer is its only participant.
pub proof fn law_propose_effect(
    s: ChainState,
    origin: Origin,
    participants: Seq<u32>,
    legs: Seq<Leg>,
    expires_at: u32,
    reference: Seq<u8>,
)
    ensures
        origin matches Origin::Signed(who) ==> (propose_step(s, origin, participants, legs, expires_at, reference)
            is Ok <==> {
            &&& expires_at > s.block_number
            &&& s.operators.operators.contains_key(who)
            &&& s.operators.operators[who].status is Active
            &&& participants.contains(s.operators.operators[who].id)
            &&& forall|i: int| 0 <= i < participants.len() ==> active_operator_id(s, #[trigger] participants[i])
            &&& forall|i: int| 0 <= i < legs.len() ==> s.assets.assets.contains_key(#[trigger] legs[i].asset_id)
        }),
        !(origin is Signed) ==> propose_step(s, origin, participants, legs, expires_at, reference)
            == Err::<ChainState, DispatchError>(DispatchError::BadOrigin),
        origin matches Origin::Signed(who) ==> (propose_step(s, origin, participants, legs, expires_at, reference)
            matches Ok(s2) ==> {
            let id = s.cross.next_cross_settlement_id;
            let c = s2.cross.cross_settlements[id];
            let initiator = s.operators.operators[who].id;
            &&& s2.cross.cross_settlements.contains_key(id)
            &&& c.id == id && c.initiator_id == initiator && c.participants == participants && c.legs == legs
            &&& c.approvals == seq![initiator] && c.reference == reference
            &&& c.created_at == s.block_number && c.expires_at == expires_at && c.executed_at is None
            &&& (c.status is Approved <==> participants.len() == 1)
            &&& (c.status is Pending <==> participants.len() != 1)
            &&& forall|k: u32|
                k != id && s.cross.cross_settlements.contains_key(k) ==> s2.cross.cross_settlements.contains_key(k)
                    && #[trigger] s2.cross.cross_settlements[k] == s.cross.cross_settlements[k]
            &&& s2.operators == s.operators && s2.assets == s.assets && s2.engine == s.engine && s2.proofs == s.proofs
        }),
{
    let pcheck = |p: u32| crate::cross_settlement::participant_error(s, p);
    let lcheck = |leg: Leg| crate::cross_settlement::leg_error(s, leg);
    lemma_no_failure(participants, pcheck);
    lemma_no_failure(legs, lcheck);
    assert(forall|i: int| 0 <= i < participants.len() ==> (pcheck(#[trigger] participants[i]) is None
        <==> active_operator_id(s, participants[i])));
    assert(forall|i: int| 0 <= i < legs.len() ==> (lcheck(#[trigger] legs[i]) is None
        <==> s.assets.assets.contains_key(legs[i].asset_id)));
}

/// Approving succeeds exactly when a signed, active operator that takes
/// part in a pending, unexpired cross-settlement approves it for the first
/// time (within the bound on approvals). Its id is appended to the
/// approvals, and the cross-settlement becomes approved exactly when the
/// approvals then number the participants; nothing else changes.
pub proof fn law_approve_effect(s: ChainState, origin: Origin, id: u32)
    ensures
        origin matches Origin::Signed(who) ==> (approve_step(s, origin, id) is Ok <==> {
            let c = s.cross.cross_settlements[id];
            let op = s.operators.operators[who];
            &&& s.operators.operators.contains_key(who)
            &&& op.status is Active
            &&& s.cross.cross_settlements.contains_key(id)
            &&& c.status is Pending
            &&& s.block_number <= c.expires_at
            &&& c.participants.contains(op.id)
            &&& !c.approvals.contains(op.id)
            &&& c.approvals.len() < 10
        }),
        !(origin is Signed) ==> approve_step(s, origin, id) == Err::<ChainState, DispatchError>(
            DispatchError::BadOrigin,
        ),
        origin matches Origin::Signed(who) ==> (approve_step(s, origin, id) matches Ok(s2) ==> {
            let c = s.cross.cross_settlements[id];
            let c2 = s2.cross.cross_settlements[id];
            let op_id = s.operators.operators[who].id;
            &&& c2.approvals == c.approvals.push(op_id)
            &&& (c2.status is Approved <==> c.approvals.len() + 1 == c.participants.len())
            &&& (c2.status is Pending <==> c.approvals.len() + 1 != c.participants.len())
            &&& c2.id == c.id && c2.initiator_id == c.initiator_id && c2.participants == c.participants
            &&& c2.legs == c.legs && c2.reference == c.reference && c2.expires_at == c.expires_at
            &&& c2.executed_at == c.executed_at
            &&& s2.operators == s.operators && s2.assets == s.assets && s2.engine == s.engine && s2.proofs == s.proofs
        }),
{
}

/// Executing succeeds only for root on an approved, unexpired
/// cross-settlement; it is then executed at the current block with its
/// other fields kept, and no locked balance or supply changes.
pub proof fn law_execute_effect(s: ChainState, origin: Origin, id: u32)
    ensures
        execute_step(s, origin, id) is Ok ==> origin is Root && s.cross.cross_settlements.contains_key(id)
            && s.cross.cross_settlements[id].status is Approved && s.block_number
            <= s.cross.cross_settlements[id].expires_at,
        execute_step(s, origin, id) matches Ok(s2) ==> {
            let c = s.cross.cross_settlements[id];
            let c2 = s2.cross.cross_settlements[id];
            &&& c2.status is Executed && c2.executed_at == Some(s.block_number)
            &&& c2.approvals == c.approvals && c2.participants == c.participants && c2.legs == c.legs
            &&& c2.initiator_id == c.initiator_id && c2.reference == c.reference
            &&& s2.engine.locked_balances == s.engine.locked_balances
            &&& s2.engine.settlements == s.engine.settlements
            &&& s2.assets == s.assets && s2.operators == s.operators && s2.proofs == s.proofs
        },
{
}

/// Cancelling succeeds exactly when root names a cross-settlement that was
/// neither executed nor cancelled; it is then cancelled with its other
/// fields kept, and no funds move.
pub proof fn law_cancel_effect(s: ChainState, origin: Origin, id: u32)
    ensures
        cancel_step(s, origin, id) is Ok <==> (origin is Root && s.cross.cross_settlements.contains_key(id)
            && !(s.cross.cross_settlements[id].status is Executed) && !(
        s.cross.cross_settlements[id].status is Cancelled)),
        cancel_step(s, origin, id) matches Ok(s2) ==> {
            let c = s.cross.cross_settlements[id];
            let c2 = s2.cross.cross_settlements[id];
            &&& c2.status is Cancelled
            &&& c2.approvals == c.approvals && c2.participants == c.participants && c2.legs == c.legs
            &&& c2.executed_at == c.executed_at
            &&& s2.engine == s.engine && s2.assets == s.assets && s2.operators == s.operators
            &&& s2.proofs == s.proofs
        },
{
}

// ─── Names of kinds in requests ──────────────────────────────────────────

/// The name an operation goes by in requests.
pub open spec fn operation_name(op: SettlementOperation) -> Seq<char> {
    match op {
        SettlementOperation::Issue => seq!['I', 's', 's', 'u', 'e'],
        SettlementOperation::Redeem => seq!['R', 'e', 'd', 'e', 'e', 'm'],
        SettlementOperation::Transfer => seq!['T', 'r', 'a', 'n', 's', 'f', 'e', 'r'],
        SettlementOperation::Lock => seq!['L', 'o', 'c', 'k'],
        SettlementOperation::Unlock => seq!['U', 'n', 'l', 'o', 'c', 'k'],
    }
}

/// A text reads as an operation exactly when it is that operation's name.
pub proof fn law_operation_names(t: Seq<char>, op: SettlementOperation)
    ensures
        operation_named(t) == Some(op) <==> t == operation_name(op),
{
    reveal_strlit("Issue");
    reveal_strlit("Redeem");
    reveal_strlit("Transfer");
    reveal_strlit("Lock");
    reveal_strlit("Unlock");
    assert("Issue"@ =~= seq!['I', 's', 's', 'u', 'e']);
    assert("Redeem"@ =~= seq!['R', 'e', 'd', 'e', 'e', 'm']);
    assert("Transfer"@ =~= seq!['T', 'r', 'a', 'n', 's', 'f', 'e', 'r']);
    assert("Lock"@ =~= seq!['L', 'o', 'c', 'k']);
    assert("Unlock"@ =~= seq!['U', 'n', 'l', 'o', 'c', 'k']);
}

/// The name an asset kind goes by in requests.
pub open spec fn asset_type_name(t: AssetType) -> Seq<char> {
    match t {
        AssetType::Fiat => seq!['F', 'i', 'a', 't'],
        AssetType::Commodity => seq!['C', 'o', 'm', 'm', 'o', 'd', 'i', 't', 'y'],
        AssetType::Security => seq!['S', 'e', 'c', 'u', 'r', 'i', 't', 'y'],
        AssetType::InternalLedger => seq!['I', 'n', 't', 'e', 'r', 'n', 'a', 'l', 'L', 'e', 'd', 'g', 'e', 'r'],
    }
}

/// A text reads as an asset kind exactly when it is that kind's name.
pub proof fn law_asset_type_names(t: Seq<char>, k: AssetType)
    ensures
        asset_type_named(t) == Some(k) <==> t == asset_type_name(k),
{
    reveal_strlit("Fiat");
    reveal_strlit("Commodity");
    reveal_strlit("Security");
    reveal_strlit("InternalLedger");
    assert("Fiat"@ =~= seq!['F', 'i', 'a', 't']);
    assert("Commodity"@ =~= seq!['C', 'o', 'm', 'm', 'o', 'd', 'i', 't', 'y']);
    assert("Security"@ =~= seq!['S', 'e', 'c', 'u', 'r', 'i', 't', 'y']);
    assert("InternalLedger"@ =~= seq!['I', 'n', 't', 'e', 'r', 'n', 'a', 'l', 'L', 'e', 'd', 'g', 'e', 'r']);
}

/// The name a proof kind goes by in requests.
pub open spec fn proof_type_name(t: ProofType) -> Seq<char> {
    match t {
        ProofType::Signature => seq!['S', 'i', 'g', 'n', 'a', 't', 'u', 'r', 'e'],
        ProofType::Oracle => seq!['O', 'r', 'a', 'c', 'l', 'e'],
        ProofType::Multisig => seq!['M', 'u', 'l', 't', 'i', 's', 'i', 'g'],
        ProofType::ZeroKnowledge => seq!['Z', 'e', 'r', 'o', 'K', 'n', 'o', 'w', 'l', 'e', 'd', 'g', 'e'],
        ProofType::Documentary => seq!['D', 'o', 'c', 'u', 'm', 'e', 'n', 't', 'a', 'r', 'y'],
    }
}

/// A text reads as a proof kind exactly when it is that kind's name.
pub proof fn law_proof_type_names(t: Seq<char>, k: ProofType)
    ensures
        proof_type_named(t) == Some(k) <==> t == proof_type_name(k),
{
    reveal_strlit("Signature");
    reveal_strlit("Oracle");
    reveal_strlit("Multisig");
    reveal_strlit("ZeroKnowledge");
    reveal_strlit("Documentary");
    assert("Signature"@ =~= seq!['S', 'i', 'g', 'n', 'a', 't', 'u', 'r', 'e']);
    assert("Oracle"@ =~= seq!['O', 'r', 'a', 'c', 'l', 'e']);
    assert("Multisig"@ =~= seq!['M', 'u', 'l', 't', 'i', 's', 'i', 'g']);
    assert("ZeroKnowledge"@ =~= seq!['Z', 'e', 'r', 'o', 'K', 'n', 'o', 'w', 'l', 'e', 'd', 'g', 'e']);
    assert("Documentary"@ =~= seq!['D', 'o', 'c', 'u', 'm', 'e', 'n', 't', 'a', 'r', 'y']);
}

/// The name an operator status goes by in requests.
pub open spec fn status_name(st: OperatorStatus) -> Seq<char> {
    match st {
        OperatorStatus::Active => seq!['A', 'c', 't', 'i', 'v', 'e'],
        OperatorStatus::Suspended => seq!['S', 'u', 's', 'p', 'e', 'n', 'd', 'e', 'd'],
        OperatorStatus::Terminated => seq!['T', 'e', 'r', 'm', 'i', 'n', 'a', 't', 'e', 'd'],
    }
}

/// A text reads as an operator status exactly when it is that status's name.
pub proof fn law_status_names(t: Seq<char>, st: OperatorStatus)
    ensures
        status_named(t) == Some(st) <==> t == status_name(st),
{
    reveal_strlit("Active");
    reveal_strlit("Suspended");
    reveal_strlit("Terminated");
    assert("Active"@ =~= seq!['A', 'c', 't', 'i', 'v', 'e']);
    assert("Suspended"@ =~= seq!['S', 'u', 's', 'p', 'e', 'n', 'd', 'e', 'd']);
    assert("Terminated"@ =~= seq!['T', 'e', 'r', 'm', 'i', 'n', 'a', 't', 'e', 'd']);
}

// ─── Decimal text ─────────────────────────────────────────────────────────

/// The decimal digits of a number read back as that number.
proof fn lemma_decimal_digits(n: nat)
    ensures
        decimal_bytes(n).len() > 0,
        all_digits(decimal_bytes(n)),
        digits_value(decimal_bytes(n)) == n,
    decreases n,
{
    if n >= 10 {
        lemma_decimal_digits(n / 10);
        let d = decimal_bytes(n);
        assert(d.drop_last() =~= decimal_bytes(n / 10));
        assert(forall|i: int| 0 <= i < d.len() - 1 ==> d[i] == decimal_bytes(n / 10)[i]);
        vstd::arithmetic::div_mod::lemma_fundamental_div_mod(n as int, 10);
        assert((n / 10) * 10 + n % 10 == n) by (nonlinear_arith)
            requires
                n == 10 * (n / 10) + n % 10,
        ;
        assert(d.last() == (48 + n % 10) as u8);
        assert(digits_value(d) == digits_value(decimal_bytes(n / 10)) * 10 + (n % 10));
    } else {
        let d = decimal_bytes(n);
        assert(d.drop_last() =~= Seq::<u8>::empty());
        assert(digits_value(d.drop_last()) == 0);
        assert(d.last() == (48 + n) as u8);
    }
}

/// Every number written in decimal reads back as itself, and so does it
/// with a leading `+`; a leading `-` is never read as a number.
pub proof fn law_decimal_round_trip(n: u128, b: Seq<u8>)
    ensures
        decimal_u128(decimal_bytes(n as nat)) == Some(n),
        decimal_u128(seq![43u8] + decimal_bytes(n as nat)) == Some(n),
        decimal_u128(seq![45u8] + b) is None,
{
    lemma_decimal_digits(n as nat);
    let d = decimal_bytes(n as nat);
    assert((seq![43u8] + d).drop_first() =~= d);
    let m = seq![45u8] + b;
    assert(m[0] == 45u8);
}

// ─── Request checks ───────────────────────────────────────────────────────

/// `POST /assets` accepts a body exactly when its kind is one of the four
/// asset kinds, its name has 1 to 64 bytes, its symbol 1 to 12, its
/// decimals are at most 18 and its rules at most 256 bytes.
pub proof fn law_register_asset_request(req: RegisterAssetRequest)
    ensures
        register_asset_problem(req) is None <==> {
            &&& asset_type_named(req.asset_type@) is Some
            &&& req.name@.len() > 0 && byte_len(req.name@) <= 64
            &&& req.symbol@.len() > 0 && byte_len(req.symbol@) <= 12
            &&& req.decimals <= 18
            &&& byte_len(rules_text(req.settlement_rules)) <= 256
        },
{
}

/// `POST /operators` (for a new account) accepts a body exactly when its
/// collateral is a `u128` in decimal and its name has 1 to 64 bytes.
pub proof fn law_register_request(req: RegisterRequest)
    ensures
        register_problem(req) is None <==> (text_decimal(req.collateral@) is Some && req.name@.len() > 0
            && byte_len(req.name@) <= 64),
{
}

/// `POST /settlements` accepts a body exactly when it names one of the five
/// operations, its amount is a `u128` in decimal and its reference has at
/// most 256 bytes.
pub proof fn law_submit_settlement_request(req: SubmitSettlementRequest)
    ensures
        submit_settlement_problem(req) is None <==> (operation_named(req.operation@) is Some && text_decimal(
            req.amount@,
        ) is Some && byte_len(rules_text(req.reference)) <= 256),
{
}

/// `POST /proofs` accepts a body's fields exactly when it names one of the
/// five proof kinds and carries a non-empty hash.
pub proof fn law_submit_proof_request(req: SubmitProofRequest)
    ensures
        proof_fields_problem(req) is None <==> (proof_type_named(req.proof_type@) is Some && req.hash@.len()
            > 0),
{
}

/// `POST /cross-settlements` accepts a body exactly when it has 1 to 10
/// participants and 1 to 20 legs, every leg's amount is a `u128` in
/// decimal and its reference has at most 256 bytes; it stays open for the
/// requested number of blocks, 100 when none is given.
pub proof fn law_propose_request(req: ProposeCrossSettlementRequest)
    ensures
        propose_problem(req) is None <==> {
            &&& 1 <= req.participants@.len() <= 10
            &&& 1 <= req.legs@.len() <= 20
            &&& forall|i: int| 0 <= i < req.legs@.len() ==> text_decimal(#[trigger] req.legs@[i].amount@) is Some
            &&& byte_len(rules_text(req.reference)) <= 256
        },
        req.expires_in_blocks is None ==> expiry_of(req) == 100,
        req.expires_in_blocks matches Some(n) ==> expiry_of(req) == n,
{
}

/// The settings are accepted exactly when the port is a decimal number up
/// to 65535 (8080 when unset), the database URL is set, the token secret
/// and the admin key are set with at least 64 characters each, and the
/// token lifetime, request budget and window are decimal numbers within
/// their types (86400, 100 and 60 when unset).
pub proof fn law_config_accepted(v: ConfigVars)
    ensures
        config_problem(v) is None <==> {
            &&& number_or(v.server_port, "8080"@) matches Some(p) && p <= 65535
            &&& v.database_url is Some
            &&& v.jwt_secret matches Some(k) && k@.len() >= 64
            &&& v.admin_api_key matches Some(k) && k@.len() >= 64
            &&& number_or(v.jwt_expiration, "86400"@) matches Some(n) && n <= 0xffff_ffff_ffff_ffff
            &&& number_or(v.rate_limit_requests, "100"@) matches Some(n) && n <= 0xffff_ffff
            &&& number_or(v.rate_limit_window_seconds, "60"@) matches Some(n) && n <= 0xffff_ffff_ffff_ffff
        },
{
}

// ─── Tokens ───────────────────────────────────────────────────────────────

/// An authorization header carries a token exactly when it is `Bearer `
/// followed by that token.
pub proof fn law_bearer_token(h: Seq<char>, t: Seq<char>)
    ensures
        bearer_token_of("Bearer "@ + t) == Some(t),
        bearer_token_of(h) == Some(t) ==> h == "Bearer "@ + t,
{
    reveal_strlit("Bearer ");
    assert("Bearer "@ =~= crate::api::auth::bearer_prefix());
    assert(("Bearer "@ + t).take(7) =~= "Bearer "@);
    assert(("Bearer "@ + t).skip(7) =~= t);
    if bearer_token_of(h) == Some(t) {
        assert(h =~= h.take(7) + h.skip(7));
    }
}

/// A token issued at `now` for a lifetime that fits in `i64` expires that
/// many seconds later, whenever that second is one a date-time can hold.
pub proof fn law_token_expiry(now: i64, expiration_secs: u64)
    ensures
        expiration_secs <= i64::MAX && -8_334_601_228_800 <= now + expiration_secs <= 8_210_266_876_799
            ==> token_expiry_of(now, expiration_secs) == Some(now + expiration_secs),
        expiration_secs > i64::MAX && -8_334_601_228_800 <= now + expiration_secs - 0x1_0000_0000_0000_0000
            <= 8_210_266_876_799 ==> token_expiry_of(now, expiration_secs) == Some(
            now + expiration_secs - 0x1_0000_0000_0000_0000,
        ),
        now + expiration_secs > 8_210_266_876_799 && expiration_secs <= i64::MAX ==> token_expiry_of(
            now,
            expiration_secs,
        ) is None,
{
}

} // verus!
