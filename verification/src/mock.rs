//! A ready-made chain for exercising the pallets: the runtime's collateral
//! floor, registered operators, assets and issued balances.
use vstd::prelude::*;
use vstd::slice::slice_to_vec;
use crate::asset_registry::{self, register_asset_step, AssetType};
use crate::bounded::BoundedVec;
use crate::cross_settlement::{Leg, Legs, Participants, Reference};
use crate::operators::{self, register_operator_step};
use crate::runtime::{saturating_next, AccountId, ChainState, DispatchError, Origin, Runtime, MIN_COLLATERAL};
use crate::settlement_engine::{self, finalize_settlement_step, submit_settlement_step, SettlementOperation};

verus! {

/// A fresh chain with the runtime's collateral floor.
pub fn new_test_ext() -> (r: Runtime)
    ensures
        r@.block_number == 0,
        r.events@ == Seq::<crate::runtime::RuntimeEvent>::empty(),
        r@.operators == operators::State::genesis(MIN_COLLATERAL as u128),
        r@.assets == asset_registry::State::genesis(),
        r@.engine == settlement_engine::State::genesis(),
        r@.proofs == crate::settlement_proofs::State::genesis(),
        r@.cross == crate::cross_settlement::State::genesis(),
{
    Runtime::new(MIN_COLLATERAL)
}

// ─── Operator names ───────────────────────────────────────────────────────

/// The ASCII decimal digits of `n`, most significant first.
pub open spec fn decimal_bytes(n: nat) -> Seq<u8>
    decreases n,
{
    if n < 10 {
        seq![(48 + n) as u8]
    } else {
        decimal_bytes(n / 10).push((48 + n % 10) as u8)
    }
}

/// The name an account's operator is registered under: `Op` and the
/// account number.
pub open spec fn operator_name(account: AccountId) -> Seq<u8> {
    seq![79u8, 112u8] + decimal_bytes(account as nat)
}

/// Ten to the power `k`.
pub open spec fn pow10(k: nat) -> nat
    decreases k,
{
    if k == 0 {
        1
    } else {
        10 * pow10((k - 1) as nat)
    }
}

/// A number below `10^k` has at most `k` digits.
proof fn lemma_decimal_bytes_len(n: nat, k: nat)
    requires
        1 <= k,
        n < pow10(k),
    ensures
        decimal_bytes(n).len() <= k,
    decreases k,
{
    if n >= 10 {
        if k == 1 {
            assert(pow10(1) == 10) by {
                reveal_with_fuel(pow10, 2);
            }
        }
        let p = pow10((k - 1) as nat);
        assert(n / 10 < p) by (nonlinear_arith)
            requires
                n < 10 * p,
        ;
        lemma_decimal_bytes_len(n / 10, (k - 1) as nat);
    }
}

/// Appends the decimal digits of `n` to `out`.
fn push_decimal_bytes(out: &mut Vec<u8>, n: u64)
    ensures
        final(out)@ == old(out)@ + decimal_bytes(n as nat),
    decreases n,
{
    if n >= 10 {
        push_decimal_bytes(out, n / 10);
    }
    out.push(48u8 + (n % 10) as u8);
    assert(final(out)@ =~= old(out)@ + decimal_bytes(n as nat));
}

// ─── Registrations ────────────────────────────────────────────────────────

/// Registers `account` as an operator named after it, with the floor's
/// collateral; returns the operator id it receives.
pub fn register_operator(rt: &mut Runtime, account: AccountId) -> (id: u32)
    requires
        !old(rt)@.operators.operators.contains_key(account),
        old(rt)@.operators.min_collateral <= MIN_COLLATERAL,
    ensures
        id == old(rt)@.operators.next_operator_id,
        register_operator_step(old(rt)@, Origin::Signed(account), operator_name(account), MIN_COLLATERAL)
            matches Ok(s) && final(rt)@ == s,
{
    let id = rt.operators.next_operator_id();
    let mut name: Vec<u8> = vec![79u8, 112u8];
    push_decimal_bytes(&mut name, account);
    proof {
        assert(pow10(20) == 100_000_000_000_000_000_000) by {
            reveal_with_fuel(pow10, 21);
        }
        lemma_decimal_bytes_len(account as nat, 20);
    }
    let bounded = match BoundedVec::<u8, 64>::try_from(name) {
        Ok(b) => b,
        Err(_) => {
            proof {
                assert(false);
            }
            return id;
        },
    };
    let _ = operators::Pallet::register_operator(rt, Origin::Signed(account), bounded, MIN_COLLATERAL);
    id
}

/// Moves the chain to block 1 and registers accounts 1 and 2 as operators
/// named `Op1` and `Op2`; returns `(account1, id1, account2, id2)`.
pub fn setup_two_operators(rt: &mut Runtime) -> (r: (AccountId, u32, AccountId, u32))
    requires
        !old(rt)@.operators.operators.contains_key(1),
        !old(rt)@.operators.operators.contains_key(2),
        old(rt)@.operators.min_collateral <= MIN_COLLATERAL,
    ensures
        r.0 == 1 && r.2 == 2,
        r.1 == old(rt)@.operators.next_operator_id,
        r.3 == saturating_next(old(rt)@.operators.next_operator_id),
        final(rt)@.block_number == 1,
        final(rt)@.operators.operators.contains_key(1),
        final(rt)@.operators.operators.contains_key(2),
        final(rt)@.operators.operators[1].status is Active,
        final(rt)@.operators.operators[2].status is Active,
        final(rt)@.operators.operators[1].id == r.1,
        final(rt)@.operators.operators[2].id == r.3,
        final(rt)@.operators.operators[1].name == seq![79u8, 112u8, 49u8],
        final(rt)@.operators.operators[2].name == seq![79u8, 112u8, 50u8],
        final(rt)@.operators.operator_account_by_id.contains_key(r.3),
        final(rt)@.operators.operator_account_by_id[r.3] == 2,
        r.1 != r.3 ==> final(rt)@.operators.operator_account_by_id[r.1] == 1,
        final(rt)@.assets == old(rt)@.assets,
        final(rt)@.engine == old(rt)@.engine,
        final(rt)@.proofs == old(rt)@.proofs,
        final(rt)@.cross == old(rt)@.cross,
{
    rt.set_block_number(1);
    let op1_id = register_operator(rt, 1);
    let op2_id = register_operator(rt, 2);
    proof {
        assert(operator_name(1) =~= seq![79u8, 112u8, 49u8]);
        assert(operator_name(2) =~= seq![79u8, 112u8, 50u8]);
    }
    (1, op1_id, 2, op2_id)
}

/// The bytes of `USD`, the name and symbol of the assets registered here.
pub open spec fn usd() -> Seq<u8> {
    seq![85u8, 83u8, 68u8]
}

/// The bytes of `rules`, the rules of the assets registered here.
pub open spec fn rules_text() -> Seq<u8> {
    seq![114u8, 117u8, 108u8, 101u8, 115u8]
}

/// Registers a `USD` fiat asset with two decimals issued by the operator
/// `account`; returns its asset id.
pub fn register_asset(rt: &mut Runtime, account: AccountId) -> (id: u32)
    requires
        old(rt)@.operators.operators.contains_key(account),
    ensures
        id == old(rt)@.assets.next_asset_id,
        register_asset_step(old(rt)@, Origin::Signed(account), AssetType::Fiat, usd(), usd(), 2, rules_text())
            matches Ok(s) && final(rt)@ == s,
{
    let id = rt.assets.next_asset_id();
    let name = BoundedVec::<u8, 64>::try_from(vec![85u8, 83u8, 68u8]);
    let symbol = BoundedVec::<u8, 12>::try_from(vec![85u8, 83u8, 68u8]);
    let rules = BoundedVec::<u8, 256>::try_from(vec![114u8, 117u8, 108u8, 101u8, 115u8]);
    match (name, symbol, rules) {
        (Ok(name), Ok(symbol), Ok(rules)) => {
            proof {
                assert(name@ =~= usd());
                assert(symbol@ =~= usd());
                assert(rules@ =~= rules_text());
            }
            let _ = asset_registry::Pallet::register_asset(
                rt,
                Origin::Signed(account),
                AssetType::Fiat,
                name,
                symbol,
                2,
                rules,
            );
        },
        _ => {
            proof {
                assert(false);
            }
        },
    }
    id
}

// ─── Balances ─────────────────────────────────────────────────────────────

/// The bytes of `ISSUE`, the reference of issuing settlements.
pub open spec fn issue_reference() -> Seq<u8> {
    seq![73u8, 83u8, 83u8, 85u8, 69u8]
}

/// The chain after the operator `operator_account` (with id `operator_id`)
/// submits and root finalizes the issue of `amount` of `asset_id` to `to`,
/// or why that fails.
pub open spec fn issue_outcome(
    s: ChainState,
    operator_account: AccountId,
    operator_id: u32,
    asset_id: u32,
    to: AccountId,
    amount: u128,
) -> Result<ChainState, DispatchError> {
    match submit_settlement_step(
        s,
        Origin::Signed(operator_account),
        operator_id,
        asset_id,
        SettlementOperation::Issue,
        amount,
        to,
        to,
        issue_reference(),
    ) {
        Err(e) => Err(e),
        Ok(s1) => finalize_settlement_step(s1, Origin::Root, s.engine.next_settlement_id),
    }
}

/// Issues `amount` of `asset_id` to `to` through the operator
/// `operator_account`: submits the settlement and finalizes it.
pub fn issue_balance(
    rt: &mut Runtime,
    operator_account: AccountId,
    operator_id: u32,
    asset_id: u32,
    to: AccountId,
    amount: u128,
)
    requires
        old(rt)@.engine.next_settlement_id < u32::MAX,
        issue_outcome(old(rt)@, operator_account, operator_id, asset_id, to, amount) is Ok,
    ensures
        issue_outcome(old(rt)@, operator_account, operator_id, asset_id, to, amount) matches Ok(s)
            && final(rt)@ == s,
{
    let reference = match BoundedVec::<u8, 256>::try_from(vec![73u8, 83u8, 83u8, 85u8, 69u8]) {
        Ok(b) => b,
        Err(_) => {
            proof {
                assert(false);
            }
            return ;
        },
    };
    proof {
        assert(reference@ =~= issue_reference());
    }
    let _ = settlement_engine::Pallet::submit_settlement(
        rt,
        Origin::Signed(operator_account),
        operator_id,
        asset_id,
        SettlementOperation::Issue,
        amount,
        to,
        to,
        reference,
    );
    let s_id = rt.engine.next_settlement_id().saturating_sub(1);
    let _ = settlement_engine::Pallet::finalize_settlement(rt, Origin::Root, s_id);
}

// ─── Cross-settlement arguments ───────────────────────────────────────────

/// A cross-settlement reference holding `s`.
pub fn bvec(s: &[u8]) -> (r: Reference)
    requires
        s@.len() <= 256,
    ensures
        r@ == s@,
{
    match BoundedVec::<u8, 256>::try_from(slice_to_vec(s)) {
        Ok(b) => b,
        Err(_) => {
            proof {
                assert(false);
            }
            BoundedVec::new()
        },
    }
}

/// The participants `ids`.
pub fn participants(ids: &[u32]) -> (r: Participants)
    requires
        ids@.len() <= 10,
    ensures
        r@ == ids@,
{
    match BoundedVec::<u32, 10>::try_from(slice_to_vec(ids)) {
        Ok(b) => b,
        Err(_) => {
            proof {
                assert(false);
            }
            BoundedVec::new()
        },
    }
}

/// The leg an `(asset_id, from, to, amount)` tuple describes.
pub open spec fn leg_of(t: (u32, AccountId, AccountId, u128)) -> Leg {
    Leg { asset_id: t.0, from: t.1, to: t.2, amount: t.3 }
}

/// The legs `(asset_id, from, to, amount)` in `v`, in order.
pub fn legs(v: Vec<(u32, AccountId, AccountId, u128)>) -> (r: Legs)
    requires
        v@.len() <= 20,
    ensures
        r@ == v@.map_values(|t: (u32, AccountId, AccountId, u128)| leg_of(t)),
{
    let mut out: Vec<Leg> = Vec::new();
    let n = v.len();
    for i in 0..n
        invariant
            n == v@.len(),
            out@ == v@.take(i as int).map_values(|t: (u32, AccountId, AccountId, u128)| leg_of(t)),
    {
        let (asset_id, from, to, amount) = v[i];
        out.push(Leg { asset_id, from, to, amount });
        assert(v@.take(i + 1) =~= v@.take(i as int).push(v@[i as int]));
        assert(out@ =~= v@.take(i + 1).map_values(|t: (u32, AccountId, AccountId, u128)| leg_of(t)));
    }
    assert(v@.take(n as int) =~= v@);
    match BoundedVec::<Leg, 20>::try_from(out) {
        Ok(b) => b,
        Err(_) => {
            proof {
                assert(false);
            }
            BoundedVec::new()
        },
    }
}

} // verus!
