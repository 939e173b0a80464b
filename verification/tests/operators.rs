use settrum::bounded::BoundedVec;
use settrum::operators::{Error, Event, OperatorName, OperatorStatus, Pallet as Operators};
use settrum::runtime::{DispatchError, Origin, Runtime, RuntimeEvent};

fn new_chain() -> Runtime {
    Runtime::new(1_000_000)
}

fn bounded_name(s: &str) -> OperatorName {
    BoundedVec::try_from(s.as_bytes().to_vec()).unwrap()
}

fn op_err(e: Error) -> Result<(), DispatchError> {
    Err(DispatchError::Operators(e))
}

#[test]
fn register_operator_works() {
    let mut rt = new_chain();
    rt.set_block_number(1);
    assert_eq!(
        Operators::register_operator(&mut rt, Origin::Signed(1), bounded_name("Test Operator"), 1_000_000),
        Ok(())
    );
}

#[test]
fn register_operator_success() {
    let mut rt = new_chain();
    let collateral = 1_000_000u128;
    assert_eq!(Operators::register_operator(&mut rt, Origin::Signed(1), bounded_name("A"), collateral), Ok(()));
    let info = rt.operators.operator(1).unwrap();
    assert_eq!(info.id, 0);
    assert_eq!(info.account, 1);
    assert_eq!(info.name, bounded_name("A"));
    assert_eq!(info.collateral, 1_000_000);
    assert!(matches!(info.status, OperatorStatus::Active));
}

#[test]
fn register_insufficient_collateral() {
    let mut rt = new_chain();
    let before = rt.clone();
    assert_eq!(
        Operators::register_operator(&mut rt, Origin::Signed(1), bounded_name("A"), 999_999),
        op_err(Error::InsufficientCollateral)
    );
    assert_eq!(rt, before);
}

#[test]
fn update_status_unauthorized() {
    let mut rt = new_chain();
    assert_eq!(Operators::register_operator(&mut rt, Origin::Signed(1), bounded_name("A"), 1_000_000), Ok(()));
    assert_eq!(
        Operators::update_operator_status(&mut rt, Origin::Signed(1), 0, OperatorStatus::Suspended),
        Err(DispatchError::BadOrigin)
    );
}

#[test]
fn increment_settlement_count() {
    let mut rt = new_chain();
    assert_eq!(Operators::register_operator(&mut rt, Origin::Signed(1), bounded_name("A"), 1_000_000), Ok(()));
    assert_eq!(Operators::increment_settlement_count(&mut rt, 0), Ok(()));
    let info = rt.operators.operator(1).unwrap();
    assert_eq!(info.settlement_count, 1);
}

#[test]
fn multiple_operators_isolation() {
    let mut rt = new_chain();
    assert_eq!(Operators::register_operator(&mut rt, Origin::Signed(1), bounded_name("A"), 1_000_000), Ok(()));
    assert_eq!(Operators::register_operator(&mut rt, Origin::Signed(2), bounded_name("B"), 1_000_000), Ok(()));
    assert_eq!(Operators::increment_settlement_count(&mut rt, 1), Ok(()));
    let a = rt.operators.operator(1).unwrap();
    let b = rt.operators.operator(2).unwrap();
    assert_eq!(a.id, 0);
    assert_eq!(b.id, 1);
    assert_eq!(a.settlement_count, 0);
    assert_eq!(b.settlement_count, 1);
}

#[test]
fn register_twice_fails() {
    let mut rt = new_chain();
    assert_eq!(Operators::register_operator(&mut rt, Origin::Signed(1), bounded_name("A"), 1_000_000), Ok(()));
    assert_eq!(
        Operators::register_operator(&mut rt, Origin::Signed(1), bounded_name("A"), 1_000_000),
        op_err(Error::AlreadyRegistered)
    );
}

#[test]
fn increase_collateral_updates_total() {
    let mut rt = new_chain();
    assert_eq!(Operators::register_operator(&mut rt, Origin::Signed(1), bounded_name("A"), 1_000_000), Ok(()));
    assert_eq!(Operators::increase_collateral(&mut rt, Origin::Signed(1), 500), Ok(()));
    let info = rt.operators.operator(1).unwrap();
    assert_eq!(info.collateral, 1_000_500);
}

#[test]
fn increase_collateral_unknown_operator() {
    let mut rt = new_chain();
    assert_eq!(Operators::increase_collateral(&mut rt, Origin::Signed(1), 500), op_err(Error::OperatorNotFound));
}

#[test]
fn update_status_root_succeeds() {
    let mut rt = new_chain();
    assert_eq!(Operators::register_operator(&mut rt, Origin::Signed(1), bounded_name("A"), 1_000_000), Ok(()));
    assert_eq!(Operators::update_operator_status(&mut rt, Origin::Root, 0, OperatorStatus::Suspended), Ok(()));
    let info = rt.operators.operator(1).unwrap();
    assert!(matches!(info.status, OperatorStatus::Suspended));
}

#[test]
fn update_status_operator_not_found() {
    let mut rt = new_chain();
    assert_eq!(
        Operators::update_operator_status(&mut rt, Origin::Root, 123, OperatorStatus::Suspended),
        op_err(Error::OperatorNotFound)
    );
}

#[test]
fn name_bounded_length() {
    let mut rt = new_chain();
    let long = vec![b'a'; 64];
    let name: OperatorName = BoundedVec::try_from(long).unwrap();
    assert_eq!(Operators::register_operator(&mut rt, Origin::Signed(1), name, 1_000_000), Ok(()));
    let info = rt.operators.operator(1).unwrap();
    assert_eq!(info.name.len(), 64);
}

#[test]
fn settlement_count_saturates() {
    let mut rt = new_chain();
    assert_eq!(Operators::register_operator(&mut rt, Origin::Signed(1), bounded_name("A"), 1_000_000), Ok(()));
    for _ in 0..5 {
        assert_eq!(Operators::increment_settlement_count(&mut rt, 0), Ok(()));
    }
    let info = rt.operators.operator(1).unwrap();
    assert_eq!(info.settlement_count, 5);
}

#[test]
fn next_operator_id_increments() {
    let mut rt = new_chain();
    assert_eq!(Operators::register_operator(&mut rt, Origin::Signed(1), bounded_name("A"), 1_000_000), Ok(()));
    assert_eq!(rt.operators.next_operator_id(), 1);
    assert_eq!(Operators::register_operator(&mut rt, Origin::Signed(2), bounded_name("B"), 1_000_000), Ok(()));
    assert_eq!(rt.operators.next_operator_id(), 2);
}

#[test]
fn registered_at_is_block_number() {
    let mut rt = new_chain();
    rt.set_block_number(10);
    assert_eq!(Operators::register_operator(&mut rt, Origin::Signed(1), bounded_name("A"), 1_000_000), Ok(()));
    let info = rt.operators.operator(1).unwrap();
    assert_eq!(info.registered_at, 10);
}

#[test]
fn events_emitted_on_register_and_update() {
    let mut rt = new_chain();
    rt.set_block_number(1);
    assert_eq!(Operators::register_operator(&mut rt, Origin::Signed(1), bounded_name("A"), 1_000_000), Ok(()));
    assert_eq!(
        rt.last_event(),
        Some(&RuntimeEvent::Operators(Event::OperatorRegistered(0, 1, bounded_name("A"))))
    );
    assert_eq!(Operators::update_operator_status(&mut rt, Origin::Root, 0, OperatorStatus::Suspended), Ok(()));
    assert_eq!(
        rt.last_event(),
        Some(&RuntimeEvent::Operators(Event::OperatorStatusChanged(
            0,
            OperatorStatus::Active,
            OperatorStatus::Suspended
        )))
    );
    assert_eq!(Operators::increase_collateral(&mut rt, Origin::Signed(1), 1), Ok(()));
    assert_eq!(
        rt.last_event(),
        Some(&RuntimeEvent::Operators(Event::CollateralIncreased(0, 1, 1_000_001)))
    );
}

// ─── Further cases ────────────────────────────────────────────────────────

#[test]
fn register_requires_signed_origin() {
    let mut rt = new_chain();
    let before = rt.clone();
    assert_eq!(
        Operators::register_operator(&mut rt, Origin::Root, bounded_name("A"), 1_000_000),
        Err(DispatchError::BadOrigin)
    );
    assert_eq!(rt, before);
}

#[test]
fn register_indexes_account_by_id() {
    let mut rt = new_chain();
    assert_eq!(Operators::register_operator(&mut rt, Origin::Signed(7), bounded_name("A"), 2_000_000), Ok(()));
    assert_eq!(rt.operators.account_of(0), Some(7));
    assert_eq!(rt.operators.account_of(1), None);
}

#[test]
fn name_over_bound_is_refused() {
    assert!(BoundedVec::<u8, 64>::try_from(vec![b'a'; 65]).is_err());
}

#[test]
fn increase_collateral_by_root_is_bad_origin() {
    let mut rt = new_chain();
    assert_eq!(Operators::increase_collateral(&mut rt, Origin::Root, 1), Err(DispatchError::BadOrigin));
}

#[test]
fn increment_unknown_operator_fails() {
    let mut rt = new_chain();
    assert_eq!(Operators::increment_settlement_count(&mut rt, 3), op_err(Error::OperatorNotFound));
}
