//! Proofs attached to settlements (Signature, Oracle, Multisig,
//! ZeroKnowledge, Documentary): submission with a hash that no other proof
//! may carry, then verification or revocation by root.
use vstd::prelude::*;
use std::collections::HashMap;
use crate::bounded::BoundedVec;
use crate::laws::{law_proof_steps_keep_hashes, proofs_kept};
use crate::runtime::{
    ensure_root, ensure_signed, lemma_view_map_empty, lemma_view_map_insert, saturating_next,
    signer_of, view_map, AccountId, ChainState, DispatchError, DispatchResult, Origin, Runtime,
    RuntimeEvent,
};

verus! {

broadcast use {vstd::std_specs::hash::group_hash_axioms, vstd::array::group_array_axioms};

/// A 256-bit hash identifying a proof's content.
pub type H256 = [u8; 32];

/// The payload of a proof.
pub type ProofData = BoundedVec<u8, 1024>;

/// The kind of evidence a proof carries.
#[derive(Clone, Copy, Debug, PartialEq, Eq, Structural)]
pub enum ProofType {
    Signature,
    Oracle,
    Multisig,
    ZeroKnowledge,
    Documentary,
}

/// Where a proof stands.
#[derive(Clone, Copy, Debug, PartialEq, Eq, Structural)]
pub enum ProofStatus {
    Pending,
    Verified,
    Revoked,
}

/// A submitted proof.
#[derive(Clone, Debug, PartialEq, Eq)]
pub struct ProofInfo {
    pub id: u32,
    pub settlement_id: u32,
    pub proof_type: ProofType,
    pub hash: H256,
    pub submitter: AccountId,
    pub data: ProofData,
    pub status: ProofStatus,
    pub submitted_at: u32,
    pub verified_at: Option<u32>,
}

/// The abstract value of a [`ProofInfo`].
pub struct ProofRecord {
    pub id: u32,
    pub settlement_id: u32,
    pub proof_type: ProofType,
    pub hash: Seq<u8>,
    pub submitter: AccountId,
    pub data: Seq<u8>,
    pub status: ProofStatus,
    pub submitted_at: u32,
    pub verified_at: Option<u32>,
}

impl View for ProofInfo {
    type V = ProofRecord;

    open spec fn view(&self) -> ProofRecord {
        ProofRecord {
            id: self.id,
            settlement_id: self.settlement_id,
            proof_type: self.proof_type,
            hash: self.hash@,
            submitter: self.submitter,
            data: self.data@,
            status: self.status,
            submitted_at: self.submitted_at,
            verified_at: self.verified_at,
        }
    }
}

/// Events of the settlement proofs pallet.
#[derive(Clone, Debug, PartialEq, Eq)]
pub enum Event {
    /// `(proof_id, settlement_id, proof_type)`
    ProofSubmitted(u32, u32, ProofType),
    /// `(proof_id, block)`
    ProofVerified(u32, u32),
    /// `(proof_id)`
    ProofRevoked(u32),
}

/// Errors of the settlement proofs pallet.
#[derive(Clone, Copy, Debug, PartialEq, Eq, Structural)]
pub enum Error {
    SettlementNotFound,
    ProofNotFound,
    DuplicateProofHash,
    ProofNotPending,
    ProofAlreadyRevoked,
}

/// Whether two hashes are equal, byte by byte.
pub fn hashes_equal(a: &H256, b: &H256) -> (r: bool)
    ensures
        r == (a@ == b@),
{
    let mut i: usize = 0;
    while i < 32
        invariant
            i <= 32,
            a@.len() == 32,
            b@.len() == 32,
            forall|j: int| 0 <= j < i ==> a@[j] == b@[j],
        decreases 32 - i,
    {
        if a[i] != b[i] {
            return false;
        }
        i = i + 1;
    }
    assert(a@ =~= b@);
    true
}

/// The proof id each hash was registered under, given the registrations in order.
pub open spec fn hash_index_view(entries: Seq<(H256, u32)>) -> Map<Seq<u8>, u32>
    decreases entries.len(),
{
    if entries.len() == 0 {
        Map::empty()
    } else {
        hash_index_view(entries.drop_last()).insert(entries.last().0@, entries.last().1)
    }
}

/// Proof ids by hash, as the registrations in order; a later registration
/// of a hash supersedes an earlier one. A `HashMap` keyed by the 32-byte
/// hash is not used because vstd's specification of `HashMap` lookups holds
/// only for keys that obey its key model, which it grants to integer keys
/// (and boxes of them) but not to byte arrays, so no lookup by hash could be
/// proved without assuming that model.
#[derive(Clone, Debug, PartialEq, Eq)]
pub struct HashIndex {
    entries: Vec<(H256, u32)>,
}

impl View for HashIndex {
    type V = Map<Seq<u8>, u32>;

    closed spec fn view(&self) -> Map<Seq<u8>, u32> {
        hash_index_view(self.entries@)
    }
}

impl HashIndex {
    /// An empty index.
    pub fn new() -> (r: HashIndex)
        ensures
            r@ == Map::<Seq<u8>, u32>::empty(),
    {
        let r = HashIndex { entries: Vec::new() };
        assert(r.entries@ =~= Seq::<(H256, u32)>::empty());
        r
    }

    /// The proof id registered under `hash`.
    pub fn get(&self, hash: &H256) -> (r: Option<u32>)
        ensures
            match r {
                Some(id) => self@.contains_key(hash@) && self@[hash@] == id,
                None => !self@.contains_key(hash@),
            },
    {
        let n = self.entries.len();
        let mut found: Option<u32> = None;
        for i in 0..n
            invariant
                n == self.entries@.len(),
                match found {
                    Some(id) => hash_index_view(self.entries@.take(i as int)).contains_key(hash@)
                        && hash_index_view(self.entries@.take(i as int))[hash@] == id,
                    None => !hash_index_view(self.entries@.take(i as int)).contains_key(hash@),
                },
        {
            let entry = self.entries[i];
            assert(self.entries@.take(i + 1).drop_last() =~= self.entries@.take(i as int));
            if hashes_equal(&entry.0, hash) {
                found = Some(entry.1);
            }
        }
        assert(self.entries@.take(n as int) =~= self.entries@);
        found
    }

    /// Registers `hash` for proof `id`.
    pub fn insert(&mut self, hash: H256, id: u32)
        ensures
            final(self)@ == old(self)@.insert(hash@, id),
    {
        self.entries.push((hash, id));
        assert(self.entries@.drop_last() =~= old(self).entries@);
    }
}

/// The key under which a link from a settlement to one of its proofs is stored.
pub open spec fn link_key(settlement_id: u32, proof_id: u32) -> u64 {
    (settlement_id * 0x1_0000_0000 + proof_id) as u64
}

/// Computes [`link_key`].
pub fn make_link_key(settlement_id: u32, proof_id: u32) -> (k: u64)
    ensures
        k == link_key(settlement_id, proof_id),
{
    (settlement_id as u64) * 0x1_0000_0000u64 + (proof_id as u64)
}

/// Storage of the settlement proofs pallet.
#[derive(Clone, Debug, PartialEq, Eq)]
pub struct Storage {
    /// Proofs by id.
    pub proofs: HashMap<u32, ProofInfo>,
    /// The id the next submission receives.
    pub next_proof_id: u32,
    /// Links from settlements to their proofs, under [`link_key`].
    pub settlement_to_proof: HashMap<u64, ()>,
    /// Proof ids by hash.
    pub proof_hashes: HashIndex,
}

/// The abstract state of the settlement proofs pallet.
pub struct State {
    pub proofs: Map<u32, ProofRecord>,
    pub next_proof_id: u32,
    pub settlement_to_proof: Set<u64>,
    pub proof_hashes: Map<Seq<u8>, u32>,
}

impl State {
    /// The state of a fresh chain.
    pub open spec fn genesis() -> State {
        State {
            proofs: Map::empty(),
            next_proof_id: 0,
            settlement_to_proof: Set::empty(),
            proof_hashes: Map::empty(),
        }
    }

    /// Whether proof `proof_id` is linked to settlement `settlement_id`.
    pub open spec fn linked(self, settlement_id: u32, proof_id: u32) -> bool {
        self.settlement_to_proof.contains(link_key(settlement_id, proof_id))
    }
}

impl View for Storage {
    type V = State;

    open spec fn view(&self) -> State {
        State {
            proofs: view_map(self.proofs@),
            next_proof_id: self.next_proof_id,
            settlement_to_proof: self.settlement_to_proof@.dom(),
            proof_hashes: self.proof_hashes@,
        }
    }
}

impl Storage {
    /// Empty storage.
    pub fn new() -> (r: Storage)
        ensures
            r@ == State::genesis(),
    {
        let r = Storage {
            proofs: HashMap::new(),
            next_proof_id: 0,
            settlement_to_proof: HashMap::new(),
            proof_hashes: HashIndex::new(),
        };
        proof {
            lemma_view_map_empty::<u32, ProofInfo>();
        }
        r
    }

    /// The proof stored under `id`.
    pub fn proof_info(&self, id: u32) -> (r: Option<&ProofInfo>)
        ensures
            match r {
                Some(info) => self@.proofs.contains_key(id) && info@ == self@.proofs[id],
                None => !self@.proofs.contains_key(id),
            },
    {
        self.proofs.get(&id)
    }

    /// The id the next submission receives.
    pub fn next_proof_id(&self) -> (r: u32)
        ensures
            r == self@.next_proof_id,
    {
        self.next_proof_id
    }

    /// Whether proof `proof_id` is linked to settlement `settlement_id`.
    pub fn is_linked(&self, settlement_id: u32, proof_id: u32) -> (r: bool)
        ensures
            r == self@.linked(settlement_id, proof_id),
    {
        let k = make_link_key(settlement_id, proof_id);
        self.settlement_to_proof.contains_key(&k)
    }

    /// The proof registered under `hash`.
    pub fn proof_with_hash(&self, hash: &H256) -> (r: Option<u32>)
        ensures
            match r {
                Some(id) => self@.proof_hashes.contains_key(hash@) && self@.proof_hashes[hash@] == id,
                None => !self@.proof_hashes.contains_key(hash@),
            },
    {
        self.proof_hashes.get(hash)
    }
}

// ─── Transitions ──────────────────────────────────────────────────────────

/// An error of this pallet as a dispatch error.
pub open spec fn fail<T>(e: Error) -> Result<T, DispatchError> {
    Err(DispatchError::SettlementProofs(e))
}

/// The state after the pallet's storage is replaced.
pub open spec fn with_proofs(s: ChainState, proofs: State) -> ChainState {
    ChainState { proofs, ..s }
}

/// What `submit_proof` does to the chain.
pub open spec fn submit_proof_step(
    s: ChainState,
    origin: Origin,
    settlement_id: u32,
    proof_type: ProofType,
    hash: Seq<u8>,
    data: Seq<u8>,
) -> Result<ChainState, DispatchError> {
    match signer_of(origin) {
        Err(e) => Err(e),
        Ok(who) => if !s.engine.settlements.contains_key(settlement_id) {
            fail(Error::SettlementNotFound)
        } else if s.proofs.proof_hashes.contains_key(hash) {
            fail(Error::DuplicateProofHash)
        } else {
            let id = s.proofs.next_proof_id;
            let record = ProofRecord {
                id,
                settlement_id,
                proof_type,
                hash,
                submitter: who,
                data,
                status: ProofStatus::Pending,
                submitted_at: s.block_number,
                verified_at: None,
            };
            Ok(
                with_proofs(
                    s,
                    State {
                        proofs: s.proofs.proofs.insert(id, record),
                        next_proof_id: saturating_next(id),
                        settlement_to_proof: s.proofs.settlement_to_proof.insert(
                            link_key(settlement_id, id),
                        ),
                        proof_hashes: s.proofs.proof_hashes.insert(hash, id),
                    },
                ),
            )
        },
    }
}

/// What `verify_proof` does to the chain.
pub open spec fn verify_proof_step(s: ChainState, origin: Origin, id: u32) -> Result<
    ChainState,
    DispatchError,
> {
    if !(origin is Root) {
        Err(DispatchError::BadOrigin)
    } else if !s.proofs.proofs.contains_key(id) {
        fail(Error::ProofNotFound)
    } else if !(s.proofs.proofs[id].status is Pending) {
        fail(Error::ProofNotPending)
    } else {
        let record = s.proofs.proofs[id];
        Ok(
            with_proofs(
                s,
                State {
                    proofs: s.proofs.proofs.insert(
                        id,
                        ProofRecord {
                            status: ProofStatus::Verified,
                            verified_at: Some(s.block_number),
                            ..record
                        },
                    ),
                    ..s.proofs
                },
            ),
        )
    }
}

/// What `revoke_proof` does to the chain.
pub open spec fn revoke_proof_step(s: ChainState, origin: Origin, id: u32) -> Result<
    ChainState,
    DispatchError,
> {
    if !(origin is Root) {
        Err(DispatchError::BadOrigin)
    } else if !s.proofs.proofs.contains_key(id) {
        fail(Error::ProofNotFound)
    } else if s.proofs.proofs[id].status is Revoked {
        fail(Error::ProofAlreadyRevoked)
    } else {
        let record = s.proofs.proofs[id];
        Ok(
            with_proofs(
                s,
                State {
                    proofs: s.proofs.proofs.insert(
                        id,
                        ProofRecord { status: ProofStatus::Revoked, ..record },
                    ),
                    ..s.proofs
                },
            ),
        )
    }
}

/// The dispatchable calls of the settlement proofs pallet.
pub struct Pallet;

impl Pallet {
    /// Attaches a pending proof, signed by its submitter, to an existing settlement.
    pub fn submit_proof(
        rt: &mut Runtime,
        origin: Origin,
        settlement_id: u32,
        proof_type: ProofType,
        hash: H256,
        data: ProofData,
    ) -> (r: DispatchResult)
        ensures
            match submit_proof_step(old(rt)@, origin, settlement_id, proof_type, hash@, data@) {
                Ok(s) => r is Ok && final(rt)@ == s && final(rt).events@ == old(rt).events@.push(
                    RuntimeEvent::SettlementProofs(
                        Event::ProofSubmitted(old(rt)@.proofs.next_proof_id, settlement_id, proof_type),
                    ),
                ),
                Err(e) => r == Err::<(), DispatchError>(e) && *final(rt) == *old(rt),
            },
            r is Ok ==> proofs_kept(old(rt)@.proofs, final(rt)@.proofs),
    {
        proof {
            law_proof_steps_keep_hashes(old(rt)@, origin, 0, settlement_id, proof_type, hash@, data@);
        }
        let who = match ensure_signed(origin) {
            Ok(who) => who,
            Err(e) => return Err(e),
        };
        if !rt.engine.settlements.contains_key(&settlement_id) {
            return Err(DispatchError::SettlementProofs(Error::SettlementNotFound));
        }
        if rt.proofs.proof_hashes.get(&hash).is_some() {
            return Err(DispatchError::SettlementProofs(Error::DuplicateProofHash));
        }
        let id = rt.proofs.next_proof_id;
        let info = ProofInfo {
            id,
            settlement_id,
            proof_type,
            hash,
            submitter: who,
            data,
            status: ProofStatus::Pending,
            submitted_at: rt.block_number,
            verified_at: None,
        };
        proof {
            lemma_view_map_insert(rt.proofs.proofs@, id, info);
        }
        rt.proofs.proofs.insert(id, info);
        rt.proofs.next_proof_id = if id < u32::MAX {
            id + 1
        } else {
            id
        };
        let k = make_link_key(settlement_id, id);
        rt.proofs.settlement_to_proof.insert(k, ());
        rt.proofs.proof_hashes.insert(hash, id);
        rt.deposit_event(
            RuntimeEvent::SettlementProofs(Event::ProofSubmitted(id, settlement_id, proof_type)),
        );
        Ok(())
    }

    /// Marks pending proof `id` verified (root only).
    pub fn verify_proof(rt: &mut Runtime, origin: Origin, id: u32) -> (r: DispatchResult)
        ensures
            match verify_proof_step(old(rt)@, origin, id) {
                Ok(s) => r is Ok && final(rt)@ == s && final(rt).events@ == old(rt).events@.push(
                    RuntimeEvent::SettlementProofs(Event::ProofVerified(id, old(rt)@.block_number)),
                ),
                Err(e) => r == Err::<(), DispatchError>(e) && *final(rt) == *old(rt),
            },
            r is Ok ==> proofs_kept(old(rt)@.proofs, final(rt)@.proofs),
    {
        proof {
            law_proof_steps_keep_hashes(old(rt)@, origin, id, 0, ProofType::Signature, Seq::empty(), Seq::empty());
        }
        if let Err(e) = ensure_root(origin) {
            return Err(e);
        }
        match rt.proofs.proofs.get(&id) {
            None => return Err(DispatchError::SettlementProofs(Error::ProofNotFound)),
            Some(info) => if info.status != ProofStatus::Pending {
                return Err(DispatchError::SettlementProofs(Error::ProofNotPending));
            },
        }
        let block = rt.block_number;
        let mut info = rt.proofs.proofs.remove(&id).unwrap();
        info.status = ProofStatus::Verified;
        info.verified_at = Some(block);
        proof {
            lemma_view_map_insert(old(rt).proofs.proofs@, id, info);
            assert(rt.proofs.proofs@.insert(id, info) =~= old(rt).proofs.proofs@.insert(id, info));
        }
        rt.proofs.proofs.insert(id, info);
        rt.deposit_event(RuntimeEvent::SettlementProofs(Event::ProofVerified(id, block)));
        Ok(())
    }

    /// Revokes proof `id` unless it already is (root only).
    pub fn revoke_proof(rt: &mut Runtime, origin: Origin, id: u32) -> (r: DispatchResult)
        ensures
            match revoke_proof_step(old(rt)@, origin, id) {
                Ok(s) => r is Ok && final(rt)@ == s && final(rt).events@ == old(rt).events@.push(
                    RuntimeEvent::SettlementProofs(Event::ProofRevoked(id)),
                ),
                Err(e) => r == Err::<(), DispatchError>(e) && *final(rt) == *old(rt),
            },
            r is Ok ==> proofs_kept(old(rt)@.proofs, final(rt)@.proofs),
    {
        proof {
            law_proof_steps_keep_hashes(old(rt)@, origin, id, 0, ProofType::Signature, Seq::empty(), Seq::empty());
        }
        if let Err(e) = ensure_root(origin) {
            return Err(e);
        }
        match rt.proofs.proofs.get(&id) {
            None => return Err(DispatchError::SettlementProofs(Error::ProofNotFound)),
            Some(info) => if info.status == ProofStatus::Revoked {
                return Err(DispatchError::SettlementProofs(Error::ProofAlreadyRevoked));
            },
        }
        let mut info = rt.proofs.proofs.remove(&id).unwrap();
        info.status = ProofStatus::Revoked;
        proof {
            lemma_view_map_insert(old(rt).proofs.proofs@, id, info);
            assert(rt.proofs.proofs@.insert(id, info) =~= old(rt).proofs.proofs@.insert(id, info));
        }
        rt.proofs.proofs.insert(id, info);
        rt.deposit_event(RuntimeEvent::SettlementProofs(Event::ProofRevoked(id)));
        Ok(())
    }
}

} // verus!
