//! Multi-leg cross-operator settlements: an active operator proposes a set
//! of legs among participating operators, every participant approves, and
//! root executes all legs at once or none of them.
use vstd::prelude::*;
use std::collections::HashMap;
use crate::bounded::BoundedVec;
use crate::operators::OperatorStatus;
use crate::runtime::{
    ensure_root, ensure_signed, first_failure, lemma_first_failure_prefix, lemma_first_failure_step,
    lemma_view_map_empty, lemma_view_map_insert, make_pair_key, saturating_next, signer_of,
    view_map, AccountId, ChainState, DispatchError, DispatchResult, Origin, Runtime, RuntimeEvent,
};
use crate::settlement_engine::{self, credit, debit, read_amount};
use crate::laws::{
    approvals_consistent, law_approve_keeps_approvals, law_execute_cancel_keep_approvals,
    law_execute_keeps_supply, law_propose_keeps_approvals, law_steps_keep_status_count,
    status_follows_count, supply_matches,
};

verus! {

broadcast use vstd::std_specs::hash::group_hash_axioms;

/// The most participants a cross-settlement may have.
pub const MAX_PARTICIPANTS: usize = 10;

/// The most legs a cross-settlement may have.
pub const MAX_LEGS: usize = 20;

/// Operator ids taking part in a cross-settlement.
pub type Participants = BoundedVec<u32, 10>;

/// The movements a cross-settlement makes.
pub type Legs = BoundedVec<Leg, 20>;

/// A cross-settlement's reference.
pub type Reference = BoundedVec<u8, 256>;

/// Where a cross-settlement stands.
#[derive(Clone, Copy, Debug, PartialEq, Eq, Structural)]
pub enum CrossSettlementStatus {
    Pending,
    Approved,
    Executed,
    Cancelled,
}

/// One movement of `amount` of `asset_id` from `from` to `to`.
#[derive(Clone, Copy, Debug, PartialEq, Eq, Structural)]
pub struct Leg {
    pub asset_id: u32,
    pub from: AccountId,
    pub to: AccountId,
    pub amount: u128,
}

/// A proposed cross-settlement.
#[derive(Clone, Debug, PartialEq, Eq)]
pub struct CrossSettlementInfo {
    pub id: u32,
    pub initiator_id: u32,
    pub participants: Participants,
    pub legs: Legs,
    pub approvals: Participants,
    pub reference: Reference,
    pub status: CrossSettlementStatus,
    pub created_at: u32,
    pub expires_at: u32,
    pub executed_at: Option<u32>,
}

/// The abstract value of a [`CrossSettlementInfo`].
pub struct CrossSettlementRecord {
    pub id: u32,
    pub initiator_id: u32,
    pub participants: Seq<u32>,
    pub legs: Seq<Leg>,
    pub approvals: Seq<u32>,
    pub reference: Seq<u8>,
    pub status: CrossSettlementStatus,
    pub created_at: u32,
    pub expires_at: u32,
    pub executed_at: Option<u32>,
}

impl View for CrossSettlementInfo {
    type V = CrossSettlementRecord;

    open spec fn view(&self) -> CrossSettlementRecord {
        CrossSettlementRecord {
            id: self.id,
            initiator_id: self.initiator_id,
            participants: self.participants@,
            legs: self.legs@,
            approvals: self.approvals@,
            reference: self.reference@,
            status: self.status,
            created_at: self.created_at,
            expires_at: self.expires_at,
            executed_at: self.executed_at,
        }
    }
}

/// Events of the cross-settlement pallet.
#[derive(Clone, Debug, PartialEq, Eq)]
pub enum Event {
    /// `(id, initiator_id)`
    CrossSettlementProposed(u32, u32),
    /// `(id, operator_id)`
    ParticipantApproved(u32, u32),
    /// `(id)`
    CrossSettlementApproved(u32),
    /// `(id, block)`
    CrossSettlementExecuted(u32, u32),
    /// `(id)`
    CrossSettlementCancelled(u32),
}

/// Errors of the cross-settlement pallet.
#[derive(Clone, Copy, Debug, PartialEq, Eq, Structural)]
pub enum Error {
    OperatorNotFound,
    OperatorNotActive,
    AssetNotFound,
    CrossSettlementNotFound,
    NotPending,
    NotApproved,
    AlreadyApproved,
    NotAParticipant,
    Expired,
    NotExecutable,
    InsufficientBalance,
    ArithmeticOverflow,
    TooManyParticipants,
    TooManyLegs,
    ExpiryInPast,
}

/// Storage of the cross-settlement pallet.
#[derive(Clone, Debug, PartialEq, Eq)]
pub struct Storage {
    /// Cross-settlements by id.
    pub cross_settlements: HashMap<u32, CrossSettlementInfo>,
    /// The id the next proposal receives.
    pub next_cross_settlement_id: u32,
}

/// The abstract state of the cross-settlement pallet.
pub struct State {
    pub cross_settlements: Map<u32, CrossSettlementRecord>,
    pub next_cross_settlement_id: u32,
}

impl State {
    /// The state of a fresh chain.
    pub open spec fn genesis() -> State {
        State { cross_settlements: Map::empty(), next_cross_settlement_id: 0 }
    }
}

impl View for Storage {
    type V = State;

    open spec fn view(&self) -> State {
        State {
            cross_settlements: view_map(self.cross_settlements@),
            next_cross_settlement_id: self.next_cross_settlement_id,
        }
    }
}

impl Storage {
    /// Empty storage.
    pub fn new() -> (r: Storage)
        ensures
            r@ == State::genesis(),
    {
        let r = Storage { cross_settlements: HashMap::new(), next_cross_settlement_id: 0 };
        proof {
            lemma_view_map_empty::<u32, CrossSettlementInfo>();
        }
        r
    }

    /// The cross-settlement stored under `id`.
    pub fn cross_settlement(&self, id: u32) -> (r: Option<&CrossSettlementInfo>)
        ensures
            match r {
                Some(info) => self@.cross_settlements.contains_key(id) && info@
                    == self@.cross_settlements[id],
                None => !self@.cross_settlements.contains_key(id),
            },
    {
        self.cross_settlements.get(&id)
    }

    /// The id the next proposal receives.
    pub fn next_cross_settlement_id(&self) -> (r: u32)
        ensures
            r == self@.next_cross_settlement_id,
    {
        self.next_cross_settlement_id
    }
}

// ─── Transitions ──────────────────────────────────────────────────────────

/// An error of this pallet as a dispatch error.
pub open spec fn fail<T>(e: Error) -> Result<T, DispatchError> {
    Err(DispatchError::CrossSettlement(e))
}

/// The state after the pallet's storage is replaced.
pub open spec fn with_cross(s: ChainState, cross: State) -> ChainState {
    ChainState { cross, ..s }
}

/// Why participant `p` may not take part, if it may not.
pub open spec fn participant_error(s: ChainState, p: u32) -> Option<DispatchError> {
    if !s.operators.operator_account_by_id.contains_key(p) {
        Some(DispatchError::CrossSettlement(Error::OperatorNotFound))
    } else if !s.operators.operators.contains_key(s.operators.operator_account_by_id[p]) {
        Some(DispatchError::CrossSettlement(Error::OperatorNotFound))
    } else if !(s.operators.operators[s.operators.operator_account_by_id[p]].status is Active) {
        Some(DispatchError::CrossSettlement(Error::OperatorNotActive))
    } else {
        None
    }
}

/// The first participant, in order, that may not take part.
pub open spec fn participants_error(s: ChainState, ps: Seq<u32>) -> Option<DispatchError> {
    first_failure(ps, |p: u32| participant_error(s, p))
}

/// Why `leg` cannot be proposed, if it cannot.
pub open spec fn leg_error(s: ChainState, leg: Leg) -> Option<DispatchError> {
    if !s.assets.assets.contains_key(leg.asset_id) {
        Some(DispatchError::CrossSettlement(Error::AssetNotFound))
    } else {
        None
    }
}

/// The first leg, in order, that cannot be proposed.
pub open spec fn legs_error(s: ChainState, legs: Seq<Leg>) -> Option<DispatchError> {
    first_failure(legs, |leg: Leg| leg_error(s, leg))
}

/// What `propose_cross_settlement` does to the chain.
pub open spec fn propose_step(
    s: ChainState,
    origin: Origin,
    participants: Seq<u32>,
    legs: Seq<Leg>,
    expires_at: u32,
    reference: Seq<u8>,
) -> Result<ChainState, DispatchError> {
    match signer_of(origin) {
        Err(e) => Err(e),
        Ok(who) => if expires_at <= s.block_number {
            fail(Error::ExpiryInPast)
        } else if !s.operators.operators.contains_key(who) {
            fail(Error::OperatorNotFound)
        } else if !(s.operators.operators[who].status is Active) {
            fail(Error::OperatorNotActive)
        } else if !participants.contains(s.operators.operators[who].id) {
            fail(Error::NotAParticipant)
        } else {
            match participants_error(s, participants) {
                Some(e) => Err(e),
                None => match legs_error(s, legs) {
                    Some(e) => Err(e),
                    None => {
                        let id = s.cross.next_cross_settlement_id;
                        let initiator = s.operators.operators[who].id;
                        let record = CrossSettlementRecord {
                            id,
                            initiator_id: initiator,
                            participants,
                            legs,
                            approvals: seq![initiator],
                            reference,
                            status: if participants.len() == 1 {
                                CrossSettlementStatus::Approved
                            } else {
                                CrossSettlementStatus::Pending
                            },
                            created_at: s.block_number,
                            expires_at,
                            executed_at: None,
                        };
                        Ok(
                            with_cross(
                                s,
                                State {
                                    cross_settlements: s.cross.cross_settlements.insert(id, record),
                                    next_cross_settlement_id: saturating_next(id),
                                },
                            ),
                        )
                    },
                },
            }
        },
    }
}

/// What `approve_cross_settlement` does to the chain.
pub open spec fn approve_step(s: ChainState, origin: Origin, id: u32) -> Result<ChainState, DispatchError> {
    match signer_of(origin) {
        Err(e) => Err(e),
        Ok(who) => if !s.operators.operators.contains_key(who) {
            fail(Error::OperatorNotFound)
        } else if !(s.operators.operators[who].status is Active) {
            fail(Error::OperatorNotActive)
        } else if !s.cross.cross_settlements.contains_key(id) {
            fail(Error::CrossSettlementNotFound)
        } else {
            let op_id = s.operators.operators[who].id;
            let record = s.cross.cross_settlements[id];
            if !(record.status is Pending) {
                fail(Error::NotPending)
            } else if s.block_number > record.expires_at {
                fail(Error::Expired)
            } else if !record.participants.contains(op_id) {
                fail(Error::NotAParticipant)
            } else if record.approvals.contains(op_id) {
                fail(Error::AlreadyApproved)
            } else if record.approvals.len() >= MAX_PARTICIPANTS {
                fail(Error::TooManyParticipants)
            } else {
                let approvals = record.approvals.push(op_id);
                let status = if approvals.len() == record.participants.len() {
                    CrossSettlementStatus::Approved
                } else {
                    record.status
                };
                Ok(
                    with_cross(
                        s,
                        State {
                            cross_settlements: s.cross.cross_settlements.insert(
                                id,
                                CrossSettlementRecord { approvals, status, ..record },
                            ),
                            ..s.cross
                        },
                    ),
                )
            }
        },
    }
}

/// The balances after one leg, or why the leg fails.
pub open spec fn apply_leg(m: Map<u128, u128>, leg: Leg) -> Result<Map<u128, u128>, DispatchError> {
    match debit(m, leg.from, leg.asset_id, leg.amount) {
        None => fail(Error::InsufficientBalance),
        Some(m2) => match credit(m2, leg.to, leg.asset_id, leg.amount) {
            None => fail(Error::ArithmeticOverflow),
            Some(m3) => Ok(m3),
        },
    }
}

/// The balances after the legs one after another, or the first failure.
pub open spec fn apply_legs(m: Map<u128, u128>, legs: Seq<Leg>) -> Result<Map<u128, u128>, DispatchError>
    decreases legs.len(),
{
    if legs.len() == 0 {
        Ok(m)
    } else {
        match apply_legs(m, legs.drop_last()) {
            Err(e) => Err(e),
            Ok(m1) => apply_leg(m1, legs.last()),
        }
    }
}

/// Once a prefix of the legs fails, all the legs fail the same way.
pub proof fn lemma_apply_legs_prefix(m: Map<u128, u128>, legs: Seq<Leg>, i: int)
    requires
        0 <= i <= legs.len(),
        apply_legs(m, legs.take(i)) is Err,
    ensures
        apply_legs(m, legs) == apply_legs(m, legs.take(i)),
    decreases legs.len() - i,
{
    if i < legs.len() {
        assert(legs.take(i + 1).drop_last() =~= legs.take(i));
        lemma_apply_legs_prefix(m, legs, i + 1);
    } else {
        assert(legs.take(i) =~= legs);
    }
}

/// What `execute_cross_settlement` does to the chain.
pub open spec fn execute_step(s: ChainState, origin: Origin, id: u32) -> Result<ChainState, DispatchError> {
    if !(origin is Root) {
        Err(DispatchError::BadOrigin)
    } else if !s.cross.cross_settlements.contains_key(id) {
        fail(Error::CrossSettlementNotFound)
    } else {
        let record = s.cross.cross_settlements[id];
        if !(record.status is Approved) {
            fail(Error::NotApproved)
        } else if s.block_number > record.expires_at {
            fail(Error::Expired)
        } else {
            match apply_legs(s.engine.account_balances, record.legs) {
                Err(e) => Err(e),
                Ok(balances) => Ok(
                    with_cross(
                        ChainState {
                            engine: settlement_engine::State {
                                account_balances: balances,
                                ..s.engine
                            },
                            ..s
                        },
                        State {
                            cross_settlements: s.cross.cross_settlements.insert(
                                id,
                                CrossSettlementRecord {
                                    status: CrossSettlementStatus::Executed,
                                    executed_at: Some(s.block_number),
                                    ..record
                                },
                            ),
                            ..s.cross
                        },
                    ),
                ),
            }
        }
    }
}

/// What `cancel_cross_settlement` does to the chain.
pub open spec fn cancel_step(s: ChainState, origin: Origin, id: u32) -> Result<ChainState, DispatchError> {
    if !(origin is Root) {
        Err(DispatchError::BadOrigin)
    } else if !s.cross.cross_settlements.contains_key(id) {
        fail(Error::CrossSettlementNotFound)
    } else {
        let record = s.cross.cross_settlements[id];
        if record.status is Executed || record.status is Cancelled {
            fail(Error::NotExecutable)
        } else {
            Ok(
                with_cross(
                    s,
                    State {
                        cross_settlements: s.cross.cross_settlements.insert(
                            id,
                            CrossSettlementRecord { status: CrossSettlementStatus::Cancelled, ..record },
                        ),
                        ..s.cross
                    },
                ),
            )
        }
    }
}

/// The dispatchable calls of the cross-settlement pallet.
pub struct Pallet;

impl Pallet {
    /// Checks one participant.
    fn check_participant(rt: &Runtime, p: u32) -> (r: Option<DispatchError>)
        ensures
            r == participant_error(rt@, p),
    {
        let acc = match rt.operators.account_of(p) {
            Some(acc) => acc,
            None => return Some(DispatchError::CrossSettlement(Error::OperatorNotFound)),
        };
        match rt.operators.operator(acc) {
            None => Some(DispatchError::CrossSettlement(Error::OperatorNotFound)),
            Some(op) => if op.status != OperatorStatus::Active {
                Some(DispatchError::CrossSettlement(Error::OperatorNotActive))
            } else {
                None
            },
        }
    }

    /// Checks every participant in order.
    fn check_participants(rt: &Runtime, participants: &Participants) -> (r: Option<DispatchError>)
        ensures
            r == participants_error(rt@, participants@),
    {
        let n = participants.len();
        let ghost check = |p: u32| participant_error(rt@, p);
        for i in 0..n
            invariant
                n == participants@.len(),
                check == (|p: u32| participant_error(rt@, p)),
                first_failure(participants@.take(i as int), check) is None,
        {
            let p = participants.get(i);
            proof {
                lemma_first_failure_step(participants@, check, i as int);
            }
            let e = Self::check_participant(rt, p);
            if e.is_some() {
                proof {
                    lemma_first_failure_prefix(participants@, check, i + 1);
                }
                return e;
            }
        }
        assert(participants@.take(n as int) =~= participants@);
        None
    }

    /// Checks every leg in order.
    fn check_legs(rt: &Runtime, legs: &Legs) -> (r: Option<DispatchError>)
        ensures
            r == legs_error(rt@, legs@),
    {
        let n = legs.len();
        let ghost check = |leg: Leg| leg_error(rt@, leg);
        for i in 0..n
            invariant
                n == legs@.len(),
                check == (|leg: Leg| leg_error(rt@, leg)),
                first_failure(legs@.take(i as int), check) is None,
        {
            let leg = legs.get(i);
            proof {
                lemma_first_failure_step(legs@, check, i as int);
            }
            if !rt.assets.assets.contains_key(&leg.asset_id) {
                proof {
                    lemma_first_failure_prefix(legs@, check, i + 1);
                }
                return Some(DispatchError::CrossSettlement(Error::AssetNotFound));
            }
        }
        assert(legs@.take(n as int) =~= legs@);
        None
    }

    /// Proposes a cross-settlement; the signer must be an active operator
    /// among the participants, and its approval is recorded at once.
    pub fn propose_cross_settlement(
        rt: &mut Runtime,
        origin: Origin,
        participants: Participants,
        legs: Legs,
        expires_at: u32,
        reference: Reference,
    ) -> (r: DispatchResult)
        ensures
            match propose_step(old(rt)@, origin, participants@, legs@, expires_at, reference@) {
                Ok(s) => {
                    let id = old(rt)@.cross.next_cross_settlement_id;
                    let proposed = RuntimeEvent::CrossSettlement(
                        Event::CrossSettlementProposed(id, s.cross.cross_settlements[id].initiator_id),
                    );
                    &&& r is Ok
                    &&& final(rt)@ == s
                    &&& final(rt).events@ == if s.cross.cross_settlements[id].status is Approved {
                        old(rt).events@.push(proposed).push(
                            RuntimeEvent::CrossSettlement(Event::CrossSettlementApproved(id)),
                        )
                    } else {
                        old(rt).events@.push(proposed)
                    }
                },
                Err(e) => r == Err::<(), DispatchError>(e) && *final(rt) == *old(rt),
            },
            approvals_consistent(old(rt)@.cross) ==> approvals_consistent(final(rt)@.cross),
            status_follows_count(old(rt)@.cross) ==> status_follows_count(final(rt)@.cross),
    {
        proof {
            if approvals_consistent(old(rt)@.cross) {
                law_propose_keeps_approvals(old(rt)@, origin, participants@, legs@, expires_at, reference@);
            }
            if status_follows_count(old(rt)@.cross) {
                law_steps_keep_status_count(old(rt)@, origin, 0, participants@, legs@, expires_at, reference@);
            }
        }
        let who = match ensure_signed(origin) {
            Ok(who) => who,
            Err(e) => return Err(e),
        };
        let block = rt.block_number;
        if expires_at <= block {
            return Err(DispatchError::CrossSettlement(Error::ExpiryInPast));
        }
        let initiator_id = match rt.operators.operator(who) {
            None => return Err(DispatchError::CrossSettlement(Error::OperatorNotFound)),
            Some(op) => {
                if op.status != OperatorStatus::Active {
                    return Err(DispatchError::CrossSettlement(Error::OperatorNotActive));
                }
                op.id
            },
        };
        if !participants.contains(&initiator_id) {
            return Err(DispatchError::CrossSettlement(Error::NotAParticipant));
        }
        if let Some(e) = Self::check_participants(rt, &participants) {
            return Err(e);
        }
        if let Some(e) = Self::check_legs(rt, &legs) {
            return Err(e);
        }
        let id = rt.cross.next_cross_settlement_id;
        let mut approvals: Participants = BoundedVec::new();
        let pushed = approvals.try_push(initiator_id);
        if pushed.is_err() {
            return Err(DispatchError::CrossSettlement(Error::TooManyParticipants));
        }
        assert(approvals@ =~= seq![initiator_id]);
        let status = if participants.len() == 1 {
            CrossSettlementStatus::Approved
        } else {
            CrossSettlementStatus::Pending
        };
        let info = CrossSettlementInfo {
            id,
            initiator_id,
            participants,
            legs,
            approvals,
            reference,
            status,
            created_at: block,
            expires_at,
            executed_at: None,
        };
        proof {
            lemma_view_map_insert(rt.cross.cross_settlements@, id, info);
        }
        rt.cross.cross_settlements.insert(id, info);
        rt.cross.next_cross_settlement_id = if id < u32::MAX {
            id + 1
        } else {
            id
        };
        rt.deposit_event(
            RuntimeEvent::CrossSettlement(Event::CrossSettlementProposed(id, initiator_id)),
        );
        if status == CrossSettlementStatus::Approved {
            rt.deposit_event(RuntimeEvent::CrossSettlement(Event::CrossSettlementApproved(id)));
        }
        Ok(())
    }

    /// Records the signer's approval; once every participant has approved,
    /// the cross-settlement becomes executable.
    pub fn approve_cross_settlement(rt: &mut Runtime, origin: Origin, id: u32) -> (r: DispatchResult)
        ensures
            match approve_step(old(rt)@, origin, id) {
                Ok(s) => {
                    let op_id = old(rt)@.operators.operators[signer_of(origin)->Ok_0].id;
                    let approved = RuntimeEvent::CrossSettlement(Event::ParticipantApproved(id, op_id));
                    &&& r is Ok
                    &&& final(rt)@ == s
                    &&& final(rt).events@ == if s.cross.cross_settlements[id].status is Approved {
                        old(rt).events@.push(approved).push(
                            RuntimeEvent::CrossSettlement(Event::CrossSettlementApproved(id)),
                        )
                    } else {
                        old(rt).events@.push(approved)
                    }
                },
                Err(e) => r == Err::<(), DispatchError>(e) && *final(rt) == *old(rt),
            },
            approvals_consistent(old(rt)@.cross) ==> approvals_consistent(final(rt)@.cross),
            status_follows_count(old(rt)@.cross) ==> status_follows_count(final(rt)@.cross),
    {
        proof {
            if approvals_consistent(old(rt)@.cross) {
                law_approve_keeps_approvals(old(rt)@, origin, id);
            }
            if status_follows_count(old(rt)@.cross) {
                law_steps_keep_status_count(old(rt)@, origin, id, Seq::empty(), Seq::empty(), 0, Seq::empty());
            }
        }
        let who = match ensure_signed(origin) {
            Ok(who) => who,
            Err(e) => return Err(e),
        };
        let operator_id = match rt.operators.operator(who) {
            None => return Err(DispatchError::CrossSettlement(Error::OperatorNotFound)),
            Some(op) => {
                if op.status != OperatorStatus::Active {
                    return Err(DispatchError::CrossSettlement(Error::OperatorNotActive));
                }
                op.id
            },
        };
        match rt.cross.cross_settlements.get(&id) {
            None => return Err(DispatchError::CrossSettlement(Error::CrossSettlementNotFound)),
            Some(info) => {
                if info.status != CrossSettlementStatus::Pending {
                    return Err(DispatchError::CrossSettlement(Error::NotPending));
                }
                if rt.block_number > info.expires_at {
                    return Err(DispatchError::CrossSettlement(Error::Expired));
                }
                if !info.participants.contains(&operator_id) {
                    return Err(DispatchError::CrossSettlement(Error::NotAParticipant));
                }
                if info.approvals.contains(&operator_id) {
                    return Err(DispatchError::CrossSettlement(Error::AlreadyApproved));
                }
                if info.approvals.len() >= MAX_PARTICIPANTS {
                    return Err(DispatchError::CrossSettlement(Error::TooManyParticipants));
                }
            },
        }
        let mut info = rt.cross.cross_settlements.remove(&id).unwrap();
        let pushed = info.approvals.try_push(operator_id);
        if pushed.is_err() {
            proof {
                assert(false);
            }
            return Err(DispatchError::CrossSettlement(Error::TooManyParticipants));
        }
        let all_approved = info.approvals.len() == info.participants.len();
        if all_approved {
            info.status = CrossSettlementStatus::Approved;
        }
        proof {
            lemma_view_map_insert(old(rt).cross.cross_settlements@, id, info);
            assert(rt.cross.cross_settlements@.insert(id, info) =~= old(
                rt,
            ).cross.cross_settlements@.insert(id, info));
        }
        rt.cross.cross_settlements.insert(id, info);
        rt.deposit_event(RuntimeEvent::CrossSettlement(Event::ParticipantApproved(id, operator_id)));
        if all_approved {
            rt.deposit_event(RuntimeEvent::CrossSettlement(Event::CrossSettlementApproved(id)));
        }
        Ok(())
    }

    /// Carries out every leg of approved, unexpired cross-settlement `id`
    /// (root only); when any leg fails, nothing changes.
    pub fn execute_cross_settlement(rt: &mut Runtime, origin: Origin, id: u32) -> (r: DispatchResult)
        ensures
            match execute_step(old(rt)@, origin, id) {
                Ok(s) => r is Ok && final(rt)@ == s && final(rt).events@ == old(rt).events@.push(
                    RuntimeEvent::CrossSettlement(
                        Event::CrossSettlementExecuted(id, old(rt)@.block_number),
                    ),
                ),
                Err(e) => r == Err::<(), DispatchError>(e) && *final(rt) == *old(rt),
            },
            approvals_consistent(old(rt)@.cross) ==> approvals_consistent(final(rt)@.cross),
            status_follows_count(old(rt)@.cross) ==> status_follows_count(final(rt)@.cross),
            r is Ok ==> forall|a: u32|
                supply_matches(old(rt)@, a) ==> #[trigger] supply_matches(final(rt)@, a),
    {
        proof {
            if approvals_consistent(old(rt)@.cross) {
                law_execute_cancel_keep_approvals(old(rt)@, origin, id);
            }
            if status_follows_count(old(rt)@.cross) {
                law_steps_keep_status_count(old(rt)@, origin, id, Seq::empty(), Seq::empty(), 0, Seq::empty());
            }
            assert forall|a: u32| supply_matches(old(rt)@, a) implies (execute_step(old(rt)@, origin, id) matches Ok(
                s2,
            ) ==> supply_matches(s2, a)) by {
                law_execute_keeps_supply(old(rt)@, origin, id, a);
            }
        }
        if let Err(e) = ensure_root(origin) {
            return Err(e);
        }
        let block = rt.block_number;
        let mut work = rt.engine.account_balances.clone();
        match rt.cross.cross_settlements.get(&id) {
            None => return Err(DispatchError::CrossSettlement(Error::CrossSettlementNotFound)),
            Some(info) => {
                if info.status != CrossSettlementStatus::Approved {
                    return Err(DispatchError::CrossSettlement(Error::NotApproved));
                }
                if block > info.expires_at {
                    return Err(DispatchError::CrossSettlement(Error::Expired));
                }
                let n = info.legs.len();
                let ghost legs = info.legs@;
                let ghost start = work@;
                for i in 0..n
                    invariant
                        n == legs.len(),
                        legs == info.legs@,
                        *rt == *old(rt),
                        start == old(rt)@.engine.account_balances,
                        legs == old(rt)@.cross.cross_settlements[id].legs,
                        origin is Root,
                        old(rt)@.cross.cross_settlements.contains_key(id),
                        old(rt)@.cross.cross_settlements[id].status is Approved,
                        old(rt)@.block_number <= old(rt)@.cross.cross_settlements[id].expires_at,
                        apply_legs(start, legs.take(i as int)) == Ok::<Map<u128, u128>, DispatchError>(
                            work@,
                        ),
                {
                    let leg = info.legs.get(i);
                    let ghost before_leg = work@;
                    assert(legs.take(i + 1).drop_last() =~= legs.take(i as int));
                    let fk = make_pair_key(leg.from, leg.asset_id);
                    let tk = make_pair_key(leg.to, leg.asset_id);
                    let from_bal = read_amount(&work, leg.from, leg.asset_id);
                    if from_bal < leg.amount {
                        proof {
                            assert(legs.take(i + 1).last() == leg);
                            assert(apply_legs(start, legs.take(i + 1)) == apply_leg(before_leg, leg));
                            lemma_apply_legs_prefix(start, legs, i + 1);
                        }
                        return Err(DispatchError::CrossSettlement(Error::InsufficientBalance));
                    }
                    work.insert(fk, from_bal - leg.amount);
                    let to_bal = read_amount(&work, leg.to, leg.asset_id);
                    if to_bal > u128::MAX - leg.amount {
                        proof {
                            assert(legs.take(i + 1).last() == leg);
                            assert(apply_legs(start, legs.take(i + 1)) == apply_leg(before_leg, leg));
                            lemma_apply_legs_prefix(start, legs, i + 1);
                        }
                        return Err(DispatchError::CrossSettlement(Error::ArithmeticOverflow));
                    }
                    work.insert(tk, to_bal + leg.amount);
                }
                assert(legs.take(n as int) =~= legs);
            },
        }
        let mut info = rt.cross.cross_settlements.remove(&id).unwrap();
        info.status = CrossSettlementStatus::Executed;
        info.executed_at = Some(block);
        proof {
            lemma_view_map_insert(old(rt).cross.cross_settlements@, id, info);
            assert(rt.cross.cross_settlements@.insert(id, info) =~= old(
                rt,
            ).cross.cross_settlements@.insert(id, info));
        }
        rt.cross.cross_settlements.insert(id, info);
        rt.engine.account_balances = work;
        rt.deposit_event(RuntimeEvent::CrossSettlement(Event::CrossSettlementExecuted(id, block)));
        Ok(())
    }

    /// Cancels cross-settlement `id` unless it was executed or cancelled (root only).
    pub fn cancel_cross_settlement(rt: &mut Runtime, origin: Origin, id: u32) -> (r: DispatchResult)
        ensures
            match cancel_step(old(rt)@, origin, id) {
                Ok(s) => r is Ok && final(rt)@ == s && final(rt).events@ == old(rt).events@.push(
                    RuntimeEvent::CrossSettlement(Event::CrossSettlementCancelled(id)),
                ),
                Err(e) => r == Err::<(), DispatchError>(e) && *final(rt) == *old(rt),
            },
            approvals_consistent(old(rt)@.cross) ==> approvals_consistent(final(rt)@.cross),
            status_follows_count(old(rt)@.cross) ==> status_follows_count(final(rt)@.cross),
    {
        proof {
            if approvals_consistent(old(rt)@.cross) {
                law_execute_cancel_keep_approvals(old(rt)@, origin, id);
            }
            if status_follows_count(old(rt)@.cross) {
                law_steps_keep_status_count(old(rt)@, origin, id, Seq::empty(), Seq::empty(), 0, Seq::empty());
            }
        }
        if let Err(e) = ensure_root(origin) {
            return Err(e);
        }
        match rt.cross.cross_settlements.get(&id) {
            None => return Err(DispatchError::CrossSettlement(Error::CrossSettlementNotFound)),
            Some(info) => if info.status == CrossSettlementStatus::Executed || info.status
                == CrossSettlementStatus::Cancelled {
                return Err(DispatchError::CrossSettlement(Error::NotExecutable));
            },
        }
        let mut info = rt.cross.cross_settlements.remove(&id).unwrap();
        info.status = CrossSettlementStatus::Cancelled;
        proof {
            lemma_view_map_insert(old(rt).cross.cross_settlements@, id, info);
            assert(rt.cross.cross_settlements@.insert(id, info) =~= old(
                rt,
            ).cross.cross_settlements@.insert(id, info));
        }
        rt.cross.cross_settlements.insert(id, info);
        rt.deposit_event(RuntimeEvent::CrossSettlement(Event::CrossSettlementCancelled(id)));
        Ok(())
    }
}

} // verus!
