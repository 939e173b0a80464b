use settrum::asset_registry::{AssetType, Pallet as AssetRegistry};
use settrum::bounded::BoundedVec;
use settrum::operators::Pallet as Operators;
use settrum::runtime::{DispatchError, Origin, Runtime, RuntimeEvent};
use settrum::settlement_engine::{Pallet as Engine, SettlementOperation};
use settrum::settlement_proofs::{
    Error, Event, Pallet as Proofs, ProofData, ProofStatus, ProofType, H256,
};

fn proofs_chain() -> Runtime {
    Runtime::new(1_000_000)
}

fn make_hash(n: u64) -> H256 {
    let mut h = [0u8; 32];
    h[24..].copy_from_slice(&n.to_be_bytes());
    h
}

fn proof_data() -> ProofData {
    BoundedVec::try_from(b"proof-bytes".to_vec()).unwrap()
}

/// Block 1, operator account 1 (operator id 0), one asset, one pending
/// settlement (id 0).
fn setup(rt: &mut Runtime) -> (u64, u32, u32) {
    rt.set_block_number(1);
    assert!(Operators::register_operator(
        rt,
        Origin::Signed(1),
        BoundedVec::try_from(b"Test Operator".to_vec()).unwrap(),
        1_000_000,
    )
    .is_ok());
    let asset_id = rt.assets.next_asset_id();
    assert!(AssetRegistry::register_asset(
        rt,
        Origin::Signed(1),
        AssetType::Fiat,
        BoundedVec::try_from(b"USD".to_vec()).unwrap(),
        BoundedVec::try_from(b"USD".to_vec()).unwrap(),
        2,
        BoundedVec::try_from(b"rules".to_vec()).unwrap(),
    )
    .is_ok());
    let settlement_id = rt.engine.next_settlement_id();
    assert_eq!(
        Engine::submit_settlement(
            rt,
            Origin::Signed(1),
            0,
            asset_id,
            SettlementOperation::Issue,
            1_000,
            1,
            2,
            BoundedVec::try_from(b"REF001".to_vec()).unwrap(),
        ),
        Ok(())
    );
    (1, asset_id, settlement_id)
}

fn proof_err(e: Error) -> Result<(), DispatchError> {
    Err(DispatchError::SettlementProofs(e))
}

fn submit(rt: &mut Runtime, settlement_id: u32, pt: ProofType, n: u64) -> Result<(), DispatchError> {
    Proofs::submit_proof(rt, Origin::Signed(1), settlement_id, pt, make_hash(n), proof_data())
}

#[test]
fn submit_proof_works() {
    let mut rt = proofs_chain();
    let (_, _, settlement_id) = setup(&mut rt);
    assert_eq!(submit(&mut rt, settlement_id, ProofType::Signature, 1), Ok(()));
    let info = rt.proofs.proof_info(0).unwrap();
    assert_eq!(info.settlement_id, settlement_id);
    assert_eq!(info.proof_type, ProofType::Signature);
    assert_eq!(info.status, ProofStatus::Pending);
    assert_eq!(info.verified_at, None);
    assert_eq!(info.submitter, 1u64);
}

#[test]
fn submit_proof_settlement_not_found() {
    let mut rt = proofs_chain();
    setup(&mut rt);
    let before = rt.clone();
    assert_eq!(submit(&mut rt, 99, ProofType::Signature, 1), proof_err(Error::SettlementNotFound));
    assert_eq!(rt, before);
}

#[test]
fn submit_proof_duplicate_hash_rejected() {
    let mut rt = proofs_chain();
    let (_, _, settlement_id) = setup(&mut rt);
    assert_eq!(submit(&mut rt, settlement_id, ProofType::Signature, 1), Ok(()));
    let before = rt.clone();
    assert_eq!(
        submit(&mut rt, settlement_id, ProofType::Oracle, 1),
        proof_err(Error::DuplicateProofHash)
    );
    assert_eq!(rt, before);
}

#[test]
fn all_proof_types_accepted() {
    let mut rt = proofs_chain();
    let (_, _, settlement_id) = setup(&mut rt);
    let types = [
        ProofType::Signature,
        ProofType::Oracle,
        ProofType::Multisig,
        ProofType::ZeroKnowledge,
        ProofType::Documentary,
    ];
    for (i, pt) in types.iter().enumerate() {
        assert_eq!(submit(&mut rt, settlement_id, *pt, i as u64 + 1), Ok(()));
    }
    assert_eq!(rt.proofs.next_proof_id(), 5);
}

#[test]
fn verify_proof_works() {
    let mut rt = proofs_chain();
    let (_, _, settlement_id) = setup(&mut rt);
    assert_eq!(submit(&mut rt, settlement_id, ProofType::Signature, 1), Ok(()));
    assert_eq!(Proofs::verify_proof(&mut rt, Origin::Root, 0), Ok(()));
    let info = rt.proofs.proof_info(0).unwrap();
    assert_eq!(info.status, ProofStatus::Verified);
    assert_eq!(info.verified_at, Some(1));
}

#[test]
fn verify_proof_not_found() {
    let mut rt = proofs_chain();
    let before = rt.clone();
    assert_eq!(Proofs::verify_proof(&mut rt, Origin::Root, 99), proof_err(Error::ProofNotFound));
    assert_eq!(rt, before);
}

#[test]
fn verify_proof_not_pending() {
    let mut rt = proofs_chain();
    let (_, _, settlement_id) = setup(&mut rt);
    assert_eq!(submit(&mut rt, settlement_id, ProofType::Signature, 1), Ok(()));
    assert_eq!(Proofs::verify_proof(&mut rt, Origin::Root, 0), Ok(()));
    let before = rt.clone();
    assert_eq!(Proofs::verify_proof(&mut rt, Origin::Root, 0), proof_err(Error::ProofNotPending));
    assert_eq!(rt, before);
}

#[test]
fn revoke_pending_proof_works() {
    let mut rt = proofs_chain();
    let (_, _, settlement_id) = setup(&mut rt);
    assert_eq!(submit(&mut rt, settlement_id, ProofType::Signature, 1), Ok(()));
    assert_eq!(Proofs::revoke_proof(&mut rt, Origin::Root, 0), Ok(()));
    assert_eq!(rt.proofs.proof_info(0).unwrap().status, ProofStatus::Revoked);
}

#[test]
fn revoke_verified_proof_works() {
    let mut rt = proofs_chain();
    let (_, _, settlement_id) = setup(&mut rt);
    assert_eq!(submit(&mut rt, settlement_id, ProofType::Signature, 1), Ok(()));
    assert_eq!(Proofs::verify_proof(&mut rt, Origin::Root, 0), Ok(()));
    assert_eq!(Proofs::revoke_proof(&mut rt, Origin::Root, 0), Ok(()));
    assert_eq!(rt.proofs.proof_info(0).unwrap().status, ProofStatus::Revoked);
}

#[test]
fn revoke_proof_already_revoked() {
    let mut rt = proofs_chain();
    let (_, _, settlement_id) = setup(&mut rt);
    assert_eq!(submit(&mut rt, settlement_id, ProofType::Signature, 1), Ok(()));
    assert_eq!(Proofs::revoke_proof(&mut rt, Origin::Root, 0), Ok(()));
    let before = rt.clone();
    assert_eq!(
        Proofs::revoke_proof(&mut rt, Origin::Root, 0),
        proof_err(Error::ProofAlreadyRevoked)
    );
    assert_eq!(rt, before);
}

#[test]
fn revoke_proof_not_found() {
    let mut rt = proofs_chain();
    assert_eq!(Proofs::revoke_proof(&mut rt, Origin::Root, 99), proof_err(Error::ProofNotFound));
}

#[test]
fn revoked_proof_cannot_be_verified() {
    let mut rt = proofs_chain();
    let (_, _, settlement_id) = setup(&mut rt);
    assert_eq!(submit(&mut rt, settlement_id, ProofType::Signature, 1), Ok(()));
    assert_eq!(Proofs::revoke_proof(&mut rt, Origin::Root, 0), Ok(()));
    assert_eq!(Proofs::verify_proof(&mut rt, Origin::Root, 0), proof_err(Error::ProofNotPending));
}

#[test]
fn settlement_to_proof_mapping() {
    let mut rt = proofs_chain();
    let (_, _, settlement_id) = setup(&mut rt);
    assert_eq!(submit(&mut rt, settlement_id, ProofType::Signature, 1), Ok(()));
    assert_eq!(submit(&mut rt, settlement_id, ProofType::Oracle, 2), Ok(()));
    assert!(rt.proofs.is_linked(settlement_id, 0));
    assert!(rt.proofs.is_linked(settlement_id, 1));
    assert!(!rt.proofs.is_linked(settlement_id, 2));
}

#[test]
fn proof_hash_uniqueness_enforced() {
    let mut rt = proofs_chain();
    let (_, _, settlement_id) = setup(&mut rt);
    let hash = make_hash(42);
    assert_eq!(
        Proofs::submit_proof(
            &mut rt,
            Origin::Signed(1),
            settlement_id,
            ProofType::Documentary,
            hash,
            proof_data()
        ),
        Ok(())
    );
    assert!(rt.proofs.proof_with_hash(&hash).is_some());
    assert_eq!(rt.proofs.proof_with_hash(&hash), Some(0));
}

#[test]
fn next_proof_id_increments() {
    let mut rt = proofs_chain();
    let (_, _, settlement_id) = setup(&mut rt);
    assert_eq!(submit(&mut rt, settlement_id, ProofType::Signature, 1), Ok(()));
    assert_eq!(rt.proofs.next_proof_id(), 1);
    assert_eq!(submit(&mut rt, settlement_id, ProofType::Oracle, 2), Ok(()));
    assert_eq!(rt.proofs.next_proof_id(), 2);
}

#[test]
fn events_emitted() {
    let mut rt = proofs_chain();
    let (_, _, settlement_id) = setup(&mut rt);
    assert_eq!(submit(&mut rt, settlement_id, ProofType::Signature, 1), Ok(()));
    assert_eq!(
        rt.last_event(),
        Some(&RuntimeEvent::SettlementProofs(Event::ProofSubmitted(
            0,
            settlement_id,
            ProofType::Signature
        )))
    );
    assert_eq!(Proofs::verify_proof(&mut rt, Origin::Root, 0), Ok(()));
    assert_eq!(
        rt.last_event(),
        Some(&RuntimeEvent::SettlementProofs(Event::ProofVerified(0, 1)))
    );
    assert_eq!(submit(&mut rt, settlement_id, ProofType::Oracle, 2), Ok(()));
    assert_eq!(Proofs::revoke_proof(&mut rt, Origin::Root, 1), Ok(()));
    assert_eq!(rt.last_event(), Some(&RuntimeEvent::SettlementProofs(Event::ProofRevoked(1))));
}

// Beyond the scenarios above.

#[test]
fn proofs_unsigned_submission_is_bad_origin() {
    let mut rt = proofs_chain();
    let (_, _, settlement_id) = setup(&mut rt);
    assert_eq!(
        Proofs::submit_proof(
            &mut rt,
            Origin::Root,
            settlement_id,
            ProofType::Signature,
            make_hash(1),
            proof_data()
        ),
        Err(DispatchError::BadOrigin)
    );
    assert_eq!(
        Proofs::verify_proof(&mut rt, Origin::Signed(1), 0),
        Err(DispatchError::BadOrigin)
    );
    assert_eq!(
        Proofs::revoke_proof(&mut rt, Origin::Unsigned, 0),
        Err(DispatchError::BadOrigin)
    );
}

#[test]
fn proofs_record_keeps_hash_data_and_block() {
    let mut rt = proofs_chain();
    let (_, _, settlement_id) = setup(&mut rt);
    rt.set_block_number(7);
    assert_eq!(submit(&mut rt, settlement_id, ProofType::Multisig, 9), Ok(()));
    let info = rt.proofs.proof_info(0).unwrap();
    assert_eq!(info.id, 0);
    assert_eq!(info.hash, make_hash(9));
    assert_eq!(info.data, proof_data());
    assert_eq!(info.submitted_at, 7);
    rt.set_block_number(9);
    assert_eq!(Proofs::verify_proof(&mut rt, Origin::Root, 0), Ok(()));
    assert_eq!(rt.proofs.proof_info(0).unwrap().verified_at, Some(9));
}

#[test]
fn proofs_revoked_hash_stays_taken() {
    let mut rt = proofs_chain();
    let (_, _, settlement_id) = setup(&mut rt);
    assert_eq!(submit(&mut rt, settlement_id, ProofType::Signature, 5), Ok(()));
    assert_eq!(Proofs::revoke_proof(&mut rt, Origin::Root, 0), Ok(()));
    assert_eq!(
        submit(&mut rt, settlement_id, ProofType::Signature, 5),
        proof_err(Error::DuplicateProofHash)
    );
    assert_eq!(rt.proofs.proof_with_hash(&make_hash(5)), Some(0));
    assert_eq!(rt.proofs.proof_with_hash(&make_hash(6)), None);
}
