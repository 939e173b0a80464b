use std::sync::Arc;

use settrum::asset_registry::{AssetType, Pallet as AssetRegistry};
use settrum::bounded::BoundedVec;
use settrum::cross_settlement::Pallet as Cross;
use settrum::client::{after_attempt, ConnectAction, RECONNECT_ATTEMPTS, RECONNECT_BACKOFF_MS};
use settrum::mock::{new_test_ext, setup_two_operators};
use settrum::node::FullDeps;
use settrum::operators::{Error as OperatorError, Pallet as Operators};
use settrum::runtime::{DispatchError, Origin, Runtime, MIN_COLLATERAL};
use settrum::settlement_engine::{Pallet as Engine, SettlementOperation};
use settrum::settlement_proofs::{Pallet as Proofs, ProofType};

// ─── Reconnection ─────────────────────────────────────────────────────────

#[test]
fn client_retries_with_growing_waits_then_gives_up() {
    let mut waits = Vec::new();
    let mut attempt = 1;
    loop {
        match after_attempt(attempt, false) {
            ConnectAction::Retry { wait_ms, next_attempt } => {
                waits.push(wait_ms);
                assert_eq!(next_attempt, attempt + 1);
                attempt = next_attempt;
            }
            ConnectAction::GiveUp { wait_ms, attempts } => {
                waits.push(wait_ms);
                assert_eq!(attempts, RECONNECT_ATTEMPTS);
                break;
            }
            ConnectAction::Connected { .. } => panic!("no attempt connected"),
        }
    }
    assert_eq!(waits, vec![500, 1000, 1500, 2000, 2500]);
    assert_eq!(waits.iter().sum::<u64>(), 7500);
    assert_eq!(RECONNECT_BACKOFF_MS, 500);
}

#[test]
fn client_stops_at_the_first_success() {
    assert_eq!(after_attempt(1, true), ConnectAction::Connected { attempt: 1 });
    assert_eq!(after_attempt(3, true), ConnectAction::Connected { attempt: 3 });
    assert_eq!(after_attempt(5, true), ConnectAction::Connected { attempt: 5 });
}

#[test]
fn node_full_deps_keeps_its_handles() {
    let client = Arc::new(7u32);
    let pool = Arc::new("pool");
    let deps = FullDeps::new(client.clone(), pool.clone());
    assert!(Arc::ptr_eq(&deps.client, &client));
    assert!(Arc::ptr_eq(&deps.pool, &pool));
}

// ─── Laws, on concrete values ─────────────────────────────────────────────

fn law_chain() -> (Runtime, u32) {
    let mut rt = new_test_ext();
    setup_two_operators(&mut rt);
    let asset_id = rt.assets.next_asset_id();
    assert_eq!(
        AssetRegistry::register_asset(
            &mut rt,
            Origin::Signed(1),
            AssetType::Fiat,
            BoundedVec::try_from(b"USD".to_vec()).unwrap(),
            BoundedVec::try_from(b"USD".to_vec()).unwrap(),
            2,
            BoundedVec::try_from(b"rules".to_vec()).unwrap(),
        ),
        Ok(())
    );
    (rt, asset_id)
}

fn settle(rt: &mut Runtime, asset_id: u32, op: SettlementOperation, amount: u128, from: u64, to: u64) -> Result<(), DispatchError> {
    Engine::submit_settlement(
        rt,
        Origin::Signed(1),
        0,
        asset_id,
        op,
        amount,
        from,
        to,
        BoundedVec::try_from(b"LAW".to_vec()).unwrap(),
    )?;
    let id = rt.engine.next_settlement_id() - 1;
    Engine::finalize_settlement(rt, Origin::Root, id)
}

#[test]
fn law_transfer_keeps_the_sum_of_balances() {
    let (mut rt, a) = law_chain();
    assert_eq!(settle(&mut rt, a, SettlementOperation::Issue, 900, 1, 10), Ok(()));
    let before = rt.engine.balance(10, a) + rt.engine.balance(20, a);
    assert_eq!(settle(&mut rt, a, SettlementOperation::Transfer, 250, 10, 20), Ok(()));
    assert_eq!(rt.engine.balance(10, a) + rt.engine.balance(20, a), before);
    assert_eq!(rt.assets.asset(a).unwrap().total_supply, 900);
}

#[test]
fn law_unlock_undoes_lock_on_values() {
    let (mut rt, a) = law_chain();
    assert_eq!(settle(&mut rt, a, SettlementOperation::Issue, 500, 1, 10), Ok(()));
    let free = rt.engine.balance(10, a);
    let locked = rt.engine.locked_balance(10, a);
    assert_eq!(settle(&mut rt, a, SettlementOperation::Lock, 200, 10, 10), Ok(()));
    assert_eq!(rt.engine.balance(10, a), free - 200);
    assert_eq!(rt.engine.locked_balance(10, a), locked + 200);
    assert_eq!(settle(&mut rt, a, SettlementOperation::Unlock, 200, 10, 10), Ok(()));
    assert_eq!(rt.engine.balance(10, a), free);
    assert_eq!(rt.engine.locked_balance(10, a), locked);
}

#[test]
fn law_issue_then_redeem_restores_supply() {
    let (mut rt, a) = law_chain();
    assert_eq!(settle(&mut rt, a, SettlementOperation::Issue, 300, 1, 10), Ok(()));
    assert_eq!(rt.assets.asset(a).unwrap().total_supply, 300);
    assert_eq!(settle(&mut rt, a, SettlementOperation::Redeem, 300, 10, 10), Ok(()));
    assert_eq!(rt.assets.asset(a).unwrap().total_supply, 0);
    assert_eq!(rt.engine.balance(10, a), 0);
}

#[test]
fn law_an_account_registers_once() {
    let mut rt = new_test_ext();
    let name = || BoundedVec::try_from(b"Op".to_vec()).unwrap();
    assert_eq!(Operators::register_operator(&mut rt, Origin::Signed(4), name(), MIN_COLLATERAL), Ok(()));
    assert_eq!(
        Operators::register_operator(&mut rt, Origin::Signed(4), name(), MIN_COLLATERAL * 2),
        Err(DispatchError::Operators(OperatorError::AlreadyRegistered))
    );
    assert_eq!(rt.operators.operator(4).unwrap().collateral, MIN_COLLATERAL);
}

#[test]
fn law_finalized_and_disputed_are_final() {
    let (mut rt, a) = law_chain();
    assert_eq!(settle(&mut rt, a, SettlementOperation::Issue, 10, 1, 10), Ok(()));
    assert!(Engine::finalize_settlement(&mut rt, Origin::Root, 0).is_err());
    assert!(Engine::dispute_settlement(&mut rt, Origin::Root, 0).is_err());
    assert_eq!(
        Engine::submit_settlement(
            &mut rt,
            Origin::Signed(1),
            0,
            a,
            SettlementOperation::Issue,
            10,
            1,
            10,
            BoundedVec::try_from(b"D".to_vec()).unwrap()
        ),
        Ok(())
    );
    assert_eq!(Engine::dispute_settlement(&mut rt, Origin::Root, 1), Ok(()));
    assert!(Engine::finalize_settlement(&mut rt, Origin::Root, 1).is_err());
    assert!(Engine::dispute_settlement(&mut rt, Origin::Root, 1).is_err());
}

#[test]
fn law_revoked_proof_is_final() {
    let (mut rt, a) = law_chain();
    assert_eq!(
        Engine::submit_settlement(
            &mut rt,
            Origin::Signed(1),
            0,
            a,
            SettlementOperation::Issue,
            10,
            1,
            10,
            BoundedVec::try_from(b"P".to_vec()).unwrap()
        ),
        Ok(())
    );
    let data = BoundedVec::try_from(b"x".to_vec()).unwrap();
    assert_eq!(Proofs::submit_proof(&mut rt, Origin::Signed(1), 0, ProofType::Oracle, [7u8; 32], data), Ok(()));
    assert_eq!(Proofs::revoke_proof(&mut rt, Origin::Root, 0), Ok(()));
    assert!(Proofs::verify_proof(&mut rt, Origin::Root, 0).is_err());
    assert!(Proofs::revoke_proof(&mut rt, Origin::Root, 0).is_err());
}

#[test]
fn law_submission_moves_no_balance() {
    let (mut rt, a) = law_chain();
    assert_eq!(settle(&mut rt, a, SettlementOperation::Issue, 100, 1, 10), Ok(()));
    let before = rt.engine.clone();
    assert_eq!(
        Engine::submit_settlement(
            &mut rt,
            Origin::Signed(1),
            0,
            a,
            SettlementOperation::Transfer,
            60,
            10,
            20,
            BoundedVec::try_from(b"T".to_vec()).unwrap()
        ),
        Ok(())
    );
    assert_eq!(rt.engine.balance(10, a), before.balance(10, a));
    assert_eq!(rt.engine.balance(20, a), before.balance(20, a));
    assert_eq!(rt.operators.operator(1).unwrap().settlement_count, 2);
}

#[test]
fn mock_operator_names_follow_the_account() {
    let mut rt = new_test_ext();
    let id = settrum::mock::register_operator(&mut rt, 18_446_744_073_709_551_615);
    assert_eq!(id, 0);
    let info = rt.operators.operator(u64::MAX).unwrap();
    assert_eq!(info.name.len(), 22);
    let id = settrum::mock::register_operator(&mut rt, 407);
    assert_eq!(id, 1);
    let name = &rt.operators.operator(407).unwrap().name;
    assert_eq!(*name, BoundedVec::try_from(b"Op407".to_vec()).unwrap());
}

#[test]
fn law_supply_equals_all_holdings() {
    let (mut rt, a) = law_chain();
    let held = |rt: &Runtime| -> u128 {
        [10u64, 20, 30].iter().map(|&x| rt.engine.balance(x, a) + rt.engine.locked_balance(x, a)).sum()
    };
    assert_eq!(settle(&mut rt, a, SettlementOperation::Issue, 700, 1, 10), Ok(()));
    assert_eq!(settle(&mut rt, a, SettlementOperation::Transfer, 200, 10, 20), Ok(()));
    assert_eq!(settle(&mut rt, a, SettlementOperation::Lock, 50, 20, 20), Ok(()));
    assert_eq!(settle(&mut rt, a, SettlementOperation::Redeem, 100, 10, 10), Ok(()));
    assert_eq!(cross_mix(&mut rt, a), Ok(()));
    assert_eq!(rt.assets.asset(a).unwrap().total_supply, 600);
    assert_eq!(held(&rt), 600);
}

fn cross_mix(rt: &mut Runtime, a: u32) -> Result<(), DispatchError> {
    let op1 = rt.operators.operator(1).unwrap().id;
    Cross::propose_cross_settlement(
        rt,
        Origin::Signed(1),
        settrum::mock::participants(&[op1]),
        settrum::mock::legs(vec![(a, 10, 30, 150), (a, 20, 30, 25)]),
        100,
        settrum::mock::bvec(b"MIX"),
    )?;
    let id = rt.cross.next_cross_settlement_id() - 1;
    Cross::execute_cross_settlement(rt, Origin::Root, id)
}

#[test]
fn mock_chain_starts_empty() {
    let mut rt = new_test_ext();
    assert_eq!(rt.assets.next_asset_id(), 0);
    assert_eq!(rt.engine.next_settlement_id(), 0);
    assert_eq!(rt.proofs.next_proof_id(), 0);
    assert_eq!(rt.cross.next_cross_settlement_id(), 0);
    assert_eq!(
        Engine::finalize_settlement(&mut rt, Origin::Root, 0),
        Err(DispatchError::SettlementEngine(settrum::settlement_engine::Error::SettlementNotFound))
    );
}
