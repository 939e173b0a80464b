use settrum::cross_settlement::{
    CrossSettlementStatus, Error, Event, Leg, Legs, Pallet as CrossSettlement, Participants,
};
use settrum::mock::{
    bvec, issue_balance, legs, new_test_ext, participants, register_asset, register_operator,
    setup_two_operators,
};
use settrum::runtime::{DispatchError, Origin, Runtime, RuntimeEvent};

fn cross_err(e: Error) -> Result<(), DispatchError> {
    Err(DispatchError::CrossSettlement(e))
}

fn propose(rt: &mut Runtime, account: u64, ids: &[u32], v: Vec<(u32, u64, u64, u128)>, expires_at: u32, r: &[u8]) -> Result<(), DispatchError> {
    CrossSettlement::propose_cross_settlement(rt, Origin::Signed(account), participants(ids), legs(v), expires_at, bvec(r))
}

fn status(rt: &Runtime, id: u32) -> CrossSettlementStatus {
    rt.cross.cross_settlement(id).unwrap().status
}

fn cross_events(rt: &Runtime) -> Vec<Event> {
    rt.events
        .iter()
        .filter_map(|e| if let RuntimeEvent::CrossSettlement(e) = e { Some(e.clone()) } else { None })
        .collect()
}

#[test]
fn propose_single_participant_auto_approves() {
    let mut rt = new_test_ext();
    let (op1_acc, op1_id, _, _) = setup_two_operators(&mut rt);
    let asset_id = register_asset(&mut rt, op1_acc);
    assert_eq!(propose(&mut rt, op1_acc, &[op1_id], vec![(asset_id, 10, 20, 100)], 10, b"REF"), Ok(()));
    let info = rt.cross.cross_settlement(0).unwrap();
    assert_eq!(info.status, CrossSettlementStatus::Approved);
    assert_eq!(info.initiator_id, op1_id);
    assert_eq!(info.approvals.len(), 1);
    assert_eq!(rt.cross.next_cross_settlement_id(), 1);
}

#[test]
fn propose_multi_participant_stays_pending() {
    let mut rt = new_test_ext();
    let (op1_acc, op1_id, _, op2_id) = setup_two_operators(&mut rt);
    let asset_id = register_asset(&mut rt, op1_acc);
    assert_eq!(
        propose(&mut rt, op1_acc, &[op1_id, op2_id], vec![(asset_id, 10, 20, 100)], 10, b"REF"),
        Ok(())
    );
    let info = rt.cross.cross_settlement(0).unwrap();
    assert_eq!(info.status, CrossSettlementStatus::Pending);
    assert_eq!(info.approvals.len(), 1);
    assert!(info.approvals.contains(&op1_id));
}

#[test]
fn propose_requires_registered_operator() {
    let mut rt = new_test_ext();
    rt.set_block_number(1);
    let before = rt.clone();
    assert_eq!(propose(&mut rt, 99, &[0], vec![], 10, b"REF"), cross_err(Error::OperatorNotFound));
    assert_eq!(rt, before);
}

#[test]
fn propose_initiator_must_be_in_participants() {
    let mut rt = new_test_ext();
    let (op1_acc, _op1_id, _, op2_id) = setup_two_operators(&mut rt);
    let asset_id = register_asset(&mut rt, op1_acc);
    let before = rt.clone();
    assert_eq!(
        propose(&mut rt, op1_acc, &[op2_id], vec![(asset_id, 10, 20, 100)], 10, b"REF"),
        cross_err(Error::NotAParticipant)
    );
    assert_eq!(rt, before);
}

#[test]
fn propose_rejects_invalid_asset() {
    let mut rt = new_test_ext();
    let (op1_acc, op1_id, _, _) = setup_two_operators(&mut rt);
    let before = rt.clone();
    assert_eq!(
        propose(&mut rt, op1_acc, &[op1_id], vec![(99, 10, 20, 100)], 10, b"REF"),
        cross_err(Error::AssetNotFound)
    );
    assert_eq!(rt, before);
}

#[test]
fn propose_rejects_expiry_in_past() {
    let mut rt = new_test_ext();
    let (op1_acc, op1_id, _, _) = setup_two_operators(&mut rt);
    let asset_id = register_asset(&mut rt, op1_acc);
    rt.set_block_number(5);
    let before = rt.clone();
    assert_eq!(
        propose(&mut rt, op1_acc, &[op1_id], vec![(asset_id, 10, 20, 100)], 4, b"REF"),
        cross_err(Error::ExpiryInPast)
    );
    assert_eq!(rt, before);
}

#[test]
fn approve_transitions_to_approved_when_all_approve() {
    let mut rt = new_test_ext();
    let (op1_acc, op1_id, op2_acc, op2_id) = setup_two_operators(&mut rt);
    let asset_id = register_asset(&mut rt, op1_acc);
    assert_eq!(
        propose(&mut rt, op1_acc, &[op1_id, op2_id], vec![(asset_id, 10, 20, 100)], 10, b"REF"),
        Ok(())
    );
    assert_eq!(CrossSettlement::approve_cross_settlement(&mut rt, Origin::Signed(op2_acc), 0), Ok(()));
    let info = rt.cross.cross_settlement(0).unwrap();
    assert_eq!(info.status, CrossSettlementStatus::Approved);
    assert_eq!(info.approvals.len(), 2);
}

#[test]
fn approve_not_pending_fails() {
    let mut rt = new_test_ext();
    let (op1_acc, op1_id, op2_acc, op2_id) = setup_two_operators(&mut rt);
    let asset_id = register_asset(&mut rt, op1_acc);
    assert_eq!(
        propose(&mut rt, op1_acc, &[op1_id, op2_id], vec![(asset_id, 10, 20, 100)], 10, b"REF"),
        Ok(())
    );
    assert_eq!(CrossSettlement::approve_cross_settlement(&mut rt, Origin::Signed(op2_acc), 0), Ok(()));
    let before = rt.clone();
    assert_eq!(
        CrossSettlement::approve_cross_settlement(&mut rt, Origin::Signed(op2_acc), 0),
        cross_err(Error::NotPending)
    );
    assert_eq!(rt, before);
}

#[test]
fn approve_not_a_participant_fails() {
    let mut rt = new_test_ext();
    let (op1_acc, op1_id, op2_acc, _op2_id) = setup_two_operators(&mut rt);
    let asset_id = register_asset(&mut rt, op1_acc);
    assert_eq!(propose(&mut rt, op1_acc, &[op1_id], vec![(asset_id, 10, 20, 100)], 10, b"REF"), Ok(()));
    // The proposal is already approved, so the status check comes first.
    assert_eq!(
        CrossSettlement::approve_cross_settlement(&mut rt, Origin::Signed(op2_acc), 0),
        cross_err(Error::NotPending)
    );
}

#[test]
fn approve_already_approved_fails() {
    let mut rt = new_test_ext();
    let (op1_acc, op1_id, _, op2_id) = setup_two_operators(&mut rt);
    let op3_id = register_operator(&mut rt, 3);
    let asset_id = register_asset(&mut rt, op1_acc);
    assert_eq!(
        propose(&mut rt, op1_acc, &[op1_id, op2_id, op3_id], vec![(asset_id, 10, 20, 100)], 10, b"REF"),
        Ok(())
    );
    let before = rt.clone();
    assert_eq!(
        CrossSettlement::approve_cross_settlement(&mut rt, Origin::Signed(op1_acc), 0),
        cross_err(Error::AlreadyApproved)
    );
    assert_eq!(rt, before);
}

#[test]
fn approve_expired_fails() {
    let mut rt = new_test_ext();
    let (op1_acc, op1_id, op2_acc, op2_id) = setup_two_operators(&mut rt);
    let asset_id = register_asset(&mut rt, op1_acc);
    assert_eq!(
        propose(&mut rt, op1_acc, &[op1_id, op2_id], vec![(asset_id, 10, 20, 100)], 5, b"REF"),
        Ok(())
    );
    rt.set_block_number(6);
    let before = rt.clone();
    assert_eq!(
        CrossSettlement::approve_cross_settlement(&mut rt, Origin::Signed(op2_acc), 0),
        cross_err(Error::Expired)
    );
    assert_eq!(rt, before);
}

#[test]
fn execute_transfers_balances_atomically() {
    let mut rt = new_test_ext();
    let (op1_acc, op1_id, _, _) = setup_two_operators(&mut rt);
    let asset_id = register_asset(&mut rt, op1_acc);
    issue_balance(&mut rt, op1_acc, op1_id, asset_id, 10, 1000);
    assert_eq!(propose(&mut rt, op1_acc, &[op1_id], vec![(asset_id, 10, 20, 400)], 100, b"REF"), Ok(()));
    assert_eq!(CrossSettlement::execute_cross_settlement(&mut rt, Origin::Root, 0), Ok(()));
    assert_eq!(rt.engine.balance(10, asset_id), 600);
    assert_eq!(rt.engine.balance(20, asset_id), 400);
    let info = rt.cross.cross_settlement(0).unwrap();
    assert_eq!(info.status, CrossSettlementStatus::Executed);
    assert_eq!(info.executed_at, Some(1));
}

#[test]
fn execute_multi_leg_atomic() {
    let mut rt = new_test_ext();
    let (op1_acc, op1_id, op2_acc, op2_id) = setup_two_operators(&mut rt);
    let asset_id = register_asset(&mut rt, op1_acc);
    issue_balance(&mut rt, op1_acc, op1_id, asset_id, 10, 1000);
    issue_balance(&mut rt, op1_acc, op1_id, asset_id, 20, 1000);
    assert_eq!(
        propose(
            &mut rt,
            op1_acc,
            &[op1_id, op2_id],
            vec![(asset_id, 10, 20, 300), (asset_id, 20, 10, 150)],
            100,
            b"SWAP"
        ),
        Ok(())
    );
    assert_eq!(CrossSettlement::approve_cross_settlement(&mut rt, Origin::Signed(op2_acc), 0), Ok(()));
    assert_eq!(CrossSettlement::execute_cross_settlement(&mut rt, Origin::Root, 0), Ok(()));
    assert_eq!(rt.engine.balance(10, asset_id), 850);
    assert_eq!(rt.engine.balance(20, asset_id), 1150);
}

#[test]
fn execute_not_approved_fails() {
    let mut rt = new_test_ext();
    let (op1_acc, op1_id, _, op2_id) = setup_two_operators(&mut rt);
    let asset_id = register_asset(&mut rt, op1_acc);
    assert_eq!(
        propose(&mut rt, op1_acc, &[op1_id, op2_id], vec![(asset_id, 10, 20, 100)], 10, b"REF"),
        Ok(())
    );
    let before = rt.clone();
    assert_eq!(
        CrossSettlement::execute_cross_settlement(&mut rt, Origin::Root, 0),
        cross_err(Error::NotApproved)
    );
    assert_eq!(rt, before);
}

#[test]
fn execute_expired_fails() {
    let mut rt = new_test_ext();
    let (op1_acc, op1_id, _, _) = setup_two_operators(&mut rt);
    let asset_id = register_asset(&mut rt, op1_acc);
    assert_eq!(propose(&mut rt, op1_acc, &[op1_id], vec![(asset_id, 10, 20, 100)], 5, b"REF"), Ok(()));
    rt.set_block_number(6);
    let before = rt.clone();
    assert_eq!(
        CrossSettlement::execute_cross_settlement(&mut rt, Origin::Root, 0),
        cross_err(Error::Expired)
    );
    assert_eq!(rt, before);
}

#[test]
fn execute_insufficient_balance_fails() {
    let mut rt = new_test_ext();
    let (op1_acc, op1_id, _, _) = setup_two_operators(&mut rt);
    let asset_id = register_asset(&mut rt, op1_acc);
    assert_eq!(propose(&mut rt, op1_acc, &[op1_id], vec![(asset_id, 10, 20, 100)], 100, b"REF"), Ok(()));
    let before = rt.clone();
    assert_eq!(
        CrossSettlement::execute_cross_settlement(&mut rt, Origin::Root, 0),
        cross_err(Error::InsufficientBalance)
    );
    assert_eq!(rt, before);
}

#[test]
fn cancel_pending_works() {
    let mut rt = new_test_ext();
    let (op1_acc, op1_id, _, op2_id) = setup_two_operators(&mut rt);
    let asset_id = register_asset(&mut rt, op1_acc);
    assert_eq!(
        propose(&mut rt, op1_acc, &[op1_id, op2_id], vec![(asset_id, 10, 20, 100)], 10, b"REF"),
        Ok(())
    );
    assert_eq!(CrossSettlement::cancel_cross_settlement(&mut rt, Origin::Root, 0), Ok(()));
    assert_eq!(status(&rt, 0), CrossSettlementStatus::Cancelled);
}

#[test]
fn cancel_approved_works() {
    let mut rt = new_test_ext();
    let (op1_acc, op1_id, _, _) = setup_two_operators(&mut rt);
    let asset_id = register_asset(&mut rt, op1_acc);
    assert_eq!(propose(&mut rt, op1_acc, &[op1_id], vec![(asset_id, 10, 20, 100)], 10, b"REF"), Ok(()));
    assert_eq!(CrossSettlement::cancel_cross_settlement(&mut rt, Origin::Root, 0), Ok(()));
    assert_eq!(status(&rt, 0), CrossSettlementStatus::Cancelled);
}

#[test]
fn cancel_executed_fails() {
    let mut rt = new_test_ext();
    let (op1_acc, op1_id, _, _) = setup_two_operators(&mut rt);
    let asset_id = register_asset(&mut rt, op1_acc);
    issue_balance(&mut rt, op1_acc, op1_id, asset_id, 10, 1000);
    assert_eq!(propose(&mut rt, op1_acc, &[op1_id], vec![(asset_id, 10, 20, 100)], 100, b"REF"), Ok(()));
    assert_eq!(CrossSettlement::execute_cross_settlement(&mut rt, Origin::Root, 0), Ok(()));
    let before = rt.clone();
    assert_eq!(
        CrossSettlement::cancel_cross_settlement(&mut rt, Origin::Root, 0),
        cross_err(Error::NotExecutable)
    );
    assert_eq!(rt, before);
}

#[test]
fn cancel_already_cancelled_fails() {
    let mut rt = new_test_ext();
    let (op1_acc, op1_id, _, _) = setup_two_operators(&mut rt);
    let asset_id = register_asset(&mut rt, op1_acc);
    assert_eq!(propose(&mut rt, op1_acc, &[op1_id], vec![(asset_id, 10, 20, 100)], 100, b"REF"), Ok(()));
    assert_eq!(CrossSettlement::cancel_cross_settlement(&mut rt, Origin::Root, 0), Ok(()));
    let before = rt.clone();
    assert_eq!(
        CrossSettlement::cancel_cross_settlement(&mut rt, Origin::Root, 0),
        cross_err(Error::NotExecutable)
    );
    assert_eq!(rt, before);
}

#[test]
fn not_found_errors() {
    let mut rt = new_test_ext();
    rt.set_block_number(1);
    assert_eq!(
        CrossSettlement::approve_cross_settlement(&mut rt, Origin::Signed(1), 99),
        cross_err(Error::OperatorNotFound)
    );
    assert_eq!(
        CrossSettlement::execute_cross_settlement(&mut rt, Origin::Root, 99),
        cross_err(Error::CrossSettlementNotFound)
    );
    assert_eq!(
        CrossSettlement::cancel_cross_settlement(&mut rt, Origin::Root, 99),
        cross_err(Error::CrossSettlementNotFound)
    );
}

#[test]
fn next_id_increments() {
    let mut rt = new_test_ext();
    let (op1_acc, op1_id, _, _) = setup_two_operators(&mut rt);
    let asset_id = register_asset(&mut rt, op1_acc);
    assert_eq!(rt.cross.next_cross_settlement_id(), 0);
    for _ in 0..3 {
        assert_eq!(propose(&mut rt, op1_acc, &[op1_id], vec![(asset_id, 10, 20, 1)], 100, b"REF"), Ok(()));
    }
    assert_eq!(rt.cross.next_cross_settlement_id(), 3);
}

#[test]
fn tests_events_emitted() {
    let mut rt = new_test_ext();
    let (op1_acc, op1_id, op2_acc, op2_id) = setup_two_operators(&mut rt);
    let asset_id = register_asset(&mut rt, op1_acc);
    issue_balance(&mut rt, op1_acc, op1_id, asset_id, 10, 500);

    assert_eq!(propose(&mut rt, op1_acc, &[op1_id], vec![(asset_id, 10, 20, 100)], 100, b"REF"), Ok(()));
    let types = cross_events(&rt);
    assert!(types.iter().any(|e| matches!(e, Event::CrossSettlementProposed(0, _))));
    assert!(types.iter().any(|e| matches!(e, Event::CrossSettlementApproved(0))));

    assert_eq!(CrossSettlement::execute_cross_settlement(&mut rt, Origin::Root, 0), Ok(()));
    let types = cross_events(&rt);
    assert!(types.iter().any(|e| matches!(e, Event::CrossSettlementExecuted(0, _))));

    assert_eq!(
        propose(&mut rt, op1_acc, &[op1_id, op2_id], vec![(asset_id, 10, 20, 50)], 100, b"REF2"),
        Ok(())
    );
    assert_eq!(CrossSettlement::approve_cross_settlement(&mut rt, Origin::Signed(op2_acc), 1), Ok(()));
    assert_eq!(CrossSettlement::cancel_cross_settlement(&mut rt, Origin::Root, 1), Ok(()));
    let types = cross_events(&rt);
    assert!(types.iter().any(|e| matches!(e, Event::ParticipantApproved(1, _))));
    assert!(types.iter().any(|e| matches!(e, Event::CrossSettlementCancelled(1))));
}

// Beyond the scenarios above.

#[test]
fn cross_failed_leg_undoes_earlier_legs() {
    let mut rt = new_test_ext();
    let (op1_acc, op1_id, _, _) = setup_two_operators(&mut rt);
    let asset_id = register_asset(&mut rt, op1_acc);
    issue_balance(&mut rt, op1_acc, op1_id, asset_id, 10, 1000);
    // The first leg can be paid, the second cannot: nothing moves.
    assert_eq!(
        propose(&mut rt, op1_acc, &[op1_id], vec![(asset_id, 10, 20, 400), (asset_id, 30, 10, 1)], 100, b"REF"),
        Ok(())
    );
    let before = rt.clone();
    assert_eq!(
        CrossSettlement::execute_cross_settlement(&mut rt, Origin::Root, 0),
        cross_err(Error::InsufficientBalance)
    );
    assert_eq!(rt, before);
    assert_eq!(rt.engine.balance(10, asset_id), 1000);
    assert_eq!(rt.engine.balance(20, asset_id), 0);
}

#[test]
fn cross_chained_legs_use_running_balances() {
    let mut rt = new_test_ext();
    let (op1_acc, op1_id, _, _) = setup_two_operators(&mut rt);
    let asset_id = register_asset(&mut rt, op1_acc);
    issue_balance(&mut rt, op1_acc, op1_id, asset_id, 10, 100);
    // 20 holds nothing until the first leg pays it.
    assert_eq!(
        propose(&mut rt, op1_acc, &[op1_id], vec![(asset_id, 10, 20, 100), (asset_id, 20, 30, 60)], 100, b"CHAIN"),
        Ok(())
    );
    assert_eq!(CrossSettlement::execute_cross_settlement(&mut rt, Origin::Root, 0), Ok(()));
    assert_eq!(rt.engine.balance(10, asset_id), 0);
    assert_eq!(rt.engine.balance(20, asset_id), 40);
    assert_eq!(rt.engine.balance(30, asset_id), 60);
}

#[test]
fn cross_bounds_on_participants_and_legs() {
    assert!(Participants::try_from(vec![0u32; 11]).is_err());
    assert!(Participants::try_from(vec![0u32; 10]).is_ok());
    assert!(Legs::try_from(vec![Leg { asset_id: 0, from: 1, to: 2, amount: 1 }; 21]).is_err());
}

#[test]
fn cross_proposal_records_fields() {
    let mut rt = new_test_ext();
    let (op1_acc, op1_id, _, op2_id) = setup_two_operators(&mut rt);
    let asset_id = register_asset(&mut rt, op1_acc);
    assert_eq!(
        propose(&mut rt, op1_acc, &[op1_id, op2_id], vec![(asset_id, 10, 20, 100)], 10, b"REF"),
        Ok(())
    );
    let info = rt.cross.cross_settlement(0).unwrap();
    assert_eq!(info.id, 0);
    assert_eq!(info.created_at, 1);
    assert_eq!(info.expires_at, 10);
    assert_eq!(info.executed_at, None);
    assert_eq!(info.reference, bvec(b"REF"));
    assert_eq!(info.participants, participants(&[op1_id, op2_id]));
    assert_eq!(info.legs, legs(vec![(asset_id, 10, 20, 100)]));
    assert_eq!(
        rt.last_event(),
        Some(&RuntimeEvent::CrossSettlement(Event::CrossSettlementProposed(0, op1_id)))
    );
}

#[test]
fn cross_expiry_at_current_block_is_refused() {
    let mut rt = new_test_ext();
    let (op1_acc, op1_id, _, _) = setup_two_operators(&mut rt);
    let asset_id = register_asset(&mut rt, op1_acc);
    rt.set_block_number(7);
    assert_eq!(
        propose(&mut rt, op1_acc, &[op1_id], vec![(asset_id, 10, 20, 5)], 7, b"NOW"),
        cross_err(Error::ExpiryInPast)
    );
    assert_eq!(propose(&mut rt, op1_acc, &[op1_id], vec![(asset_id, 10, 20, 5)], 8, b"NEXT"), Ok(()));
    // Execution is still allowed in the expiry block itself.
    rt.set_block_number(8);
    assert_eq!(
        CrossSettlement::execute_cross_settlement(&mut rt, Origin::Root, 0),
        cross_err(Error::InsufficientBalance)
    );
}
