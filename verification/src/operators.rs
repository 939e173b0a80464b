//! Operator registration, collateral and status lifecycle
//! (Active / Suspended / Terminated).
use vstd::prelude::*;
use std::collections::HashMap;
use crate::bounded::BoundedVec;
use crate::runtime::{
    ensure_root, ensure_signed, lemma_view_map_empty, lemma_view_map_insert, saturating_next,
    signer_of, view_map, AccountId, ChainState, DispatchError, DispatchResult, Origin, Runtime,
    RuntimeEvent,
};

verus! {

broadcast use vstd::std_specs::hash::group_hash_axioms;

/// The longest operator name, in bytes.
pub const MAX_NAME_LEN: usize = 64;

/// An operator's name.
pub type OperatorName = BoundedVec<u8, 64>;

/// Where an operator stands.
#[derive(Clone, Copy, Debug, PartialEq, Eq, Structural)]
pub enum OperatorStatus {
    Active,
    Suspended,
    Terminated,
}

/// A registered operator.
#[derive(Clone, Debug, PartialEq, Eq)]
pub struct OperatorInfo {
    pub id: u32,
    pub account: AccountId,
    pub name: OperatorName,
    pub collateral: u128,
    pub status: OperatorStatus,
    pub settlement_count: u64,
    pub registered_at: u32,
}

/// The abstract value of an [`OperatorInfo`].
pub struct OperatorRecord {
    pub id: u32,
    pub account: AccountId,
    pub name: Seq<u8>,
    pub collateral: u128,
    pub status: OperatorStatus,
    pub settlement_count: u64,
    pub registered_at: u32,
}

impl View for OperatorInfo {
    type V = OperatorRecord;

    open spec fn view(&self) -> OperatorRecord {
        OperatorRecord {
            id: self.id,
            account: self.account,
            name: self.name@,
            collateral: self.collateral,
            status: self.status,
            settlement_count: self.settlement_count,
            registered_at: self.registered_at,
        }
    }
}

/// Events of the operators pallet.
#[derive(Clone, Debug, PartialEq, Eq)]
pub enum Event {
    /// `(operator_id, account, name)`
    OperatorRegistered(u32, AccountId, OperatorName),
    /// `(operator_id, old_status, new_status)`
    OperatorStatusChanged(u32, OperatorStatus, OperatorStatus),
    /// `(operator_id, amount, new_total)`
    CollateralIncreased(u32, u128, u128),
}

/// Errors of the operators pallet.
#[derive(Clone, Copy, Debug, PartialEq, Eq, Structural)]
pub enum Error {
    InsufficientCollateral,
    OperatorNotFound,
    Unauthorized,
    InvalidStatus,
    AlreadyRegistered,
}

/// Storage of the operators pallet.
#[derive(Clone, Debug, PartialEq, Eq)]
pub struct Storage {
    /// The least collateral a registration must post.
    pub min_collateral: u128,
    /// Operators by account.
    pub operators: HashMap<AccountId, OperatorInfo>,
    /// Accounts by operator id.
    pub operator_account_by_id: HashMap<u32, AccountId>,
    /// The id the next registration receives.
    pub next_operator_id: u32,
}

/// The abstract state of the operators pallet.
pub struct State {
    pub min_collateral: u128,
    pub operators: Map<AccountId, OperatorRecord>,
    pub operator_account_by_id: Map<u32, AccountId>,
    pub next_operator_id: u32,
}

impl State {
    /// The state of a fresh chain.
    pub open spec fn genesis(min_collateral: u128) -> State {
        State {
            min_collateral,
            operators: Map::empty(),
            operator_account_by_id: Map::empty(),
            next_operator_id: 0,
        }
    }

    /// The operator registered under `operator_id`, found through the id index.
    pub open spec fn operator_by_id(self, operator_id: u32) -> Option<OperatorRecord> {
        if self.operator_account_by_id.contains_key(operator_id)
            && self.operators.contains_key(self.operator_account_by_id[operator_id]) {
            Some(self.operators[self.operator_account_by_id[operator_id]])
        } else {
            None
        }
    }
}

impl View for Storage {
    type V = State;

    open spec fn view(&self) -> State {
        State {
            min_collateral: self.min_collateral,
            operators: view_map(self.operators@),
            operator_account_by_id: self.operator_account_by_id@,
            next_operator_id: self.next_operator_id,
        }
    }
}

impl Storage {
    /// Empty storage.
    pub fn new(min_collateral: u128) -> (r: Storage)
        ensures
            r@ == State::genesis(min_collateral),
    {
        let r = Storage {
            min_collateral,
            operators: HashMap::new(),
            operator_account_by_id: HashMap::new(),
            next_operator_id: 0,
        };
        proof {
            lemma_view_map_empty::<AccountId, OperatorInfo>();
        }
        r
    }

    /// The operator registered by `who`.
    pub fn operator(&self, who: AccountId) -> (r: Option<&OperatorInfo>)
        ensures
            match r {
                Some(info) => self@.operators.contains_key(who) && info@ == self@.operators[who],
                None => !self@.operators.contains_key(who),
            },
    {
        self.operators.get(&who)
    }

    /// The account registered under `operator_id`.
    pub fn account_of(&self, operator_id: u32) -> (r: Option<AccountId>)
        ensures
            match r {
                Some(acc) => self@.operator_account_by_id.contains_key(operator_id)
                    && acc == self@.operator_account_by_id[operator_id],
                None => !self@.operator_account_by_id.contains_key(operator_id),
            },
    {
        match self.operator_account_by_id.get(&operator_id) {
            Some(acc) => Some(*acc),
            None => None,
        }
    }

    /// The id the next registration receives.
    pub fn next_operator_id(&self) -> (r: u32)
        ensures
            r == self@.next_operator_id,
    {
        self.next_operator_id
    }
}

// ─── Transitions ──────────────────────────────────────────────────────────

/// The state after `operators` is replaced.
pub open spec fn with_operators(s: ChainState, operators: State) -> ChainState {
    ChainState { operators, ..s }
}

/// What `register_operator` does to the chain.
pub open spec fn register_operator_step(
    s: ChainState,
    origin: Origin,
    name: Seq<u8>,
    collateral: u128,
) -> Result<ChainState, DispatchError> {
    match signer_of(origin) {
        Err(e) => Err(e),
        Ok(who) => if s.operators.operators.contains_key(who) {
            Err(DispatchError::Operators(Error::AlreadyRegistered))
        } else if collateral < s.operators.min_collateral {
            Err(DispatchError::Operators(Error::InsufficientCollateral))
        } else {
            let id = s.operators.next_operator_id;
            let record = OperatorRecord {
                id,
                account: who,
                name,
                collateral,
                status: OperatorStatus::Active,
                settlement_count: 0,
                registered_at: s.block_number,
            };
            Ok(
                with_operators(
                    s,
                    State {
                        operators: s.operators.operators.insert(who, record),
                        operator_account_by_id: s.operators.operator_account_by_id.insert(id, who),
                        next_operator_id: saturating_next(id),
                        ..s.operators
                    },
                ),
            )
        },
    }
}

/// What `update_operator_status` does to the chain.
pub open spec fn update_operator_status_step(
    s: ChainState,
    origin: Origin,
    operator_id: u32,
    status: OperatorStatus,
) -> Result<ChainState, DispatchError> {
    if !(origin is Root) {
        Err(DispatchError::BadOrigin)
    } else {
        match s.operators.operator_by_id(operator_id) {
            None => Err(DispatchError::Operators(Error::OperatorNotFound)),
            Some(record) => {
                let acc = s.operators.operator_account_by_id[operator_id];
                Ok(
                    with_operators(
                        s,
                        State {
                            operators: s.operators.operators.insert(
                                acc,
                                OperatorRecord { status, ..record },
                            ),
                            ..s.operators
                        },
                    ),
                )
            },
        }
    }
}

/// Whether adding `amount` to the signer's collateral stays within `u128`.
pub open spec fn collateral_increase_fits(s: ChainState, origin: Origin, amount: u128) -> bool {
    match signer_of(origin) {
        Ok(who) => s.operators.operators.contains_key(who) ==> s.operators.operators[who].collateral
            + amount <= u128::MAX,
        Err(_) => true,
    }
}

/// What `increase_collateral` does to the chain.
pub open spec fn increase_collateral_step(
    s: ChainState,
    origin: Origin,
    amount: u128,
) -> Result<ChainState, DispatchError> {
    match signer_of(origin) {
        Err(e) => Err(e),
        Ok(who) => if !s.operators.operators.contains_key(who) {
            Err(DispatchError::Operators(Error::OperatorNotFound))
        } else {
            let record = s.operators.operators[who];
            Ok(
                with_operators(
                    s,
                    State {
                        operators: s.operators.operators.insert(
                            who,
                            OperatorRecord {
                                collateral: (record.collateral + amount) as u128,
                                ..record
                            },
                        ),
                        ..s.operators
                    },
                ),
            )
        },
    }
}

/// What `increment_settlement_count` does to the chain.
pub open spec fn increment_settlement_count_step(s: ChainState, operator_id: u32) -> Result<
    ChainState,
    DispatchError,
> {
    match s.operators.operator_by_id(operator_id) {
        None => Err(DispatchError::Operators(Error::OperatorNotFound)),
        Some(record) => {
            let acc = s.operators.operator_account_by_id[operator_id];
            let count = if record.settlement_count < u64::MAX {
                (record.settlement_count + 1) as u64
            } else {
                record.settlement_count
            };
            Ok(
                with_operators(
                    s,
                    State {
                        operators: s.operators.operators.insert(
                            acc,
                            OperatorRecord { settlement_count: count, ..record },
                        ),
                        ..s.operators
                    },
                ),
            )
        },
    }
}

/// The dispatchable calls of the operators pallet.
pub struct Pallet;

impl Pallet {
    /// Registers the signer as an operator that posts `collateral`.
    pub fn register_operator(rt: &mut Runtime, origin: Origin, name: OperatorName, collateral: u128) -> (r:
        DispatchResult)
        ensures
            match register_operator_step(old(rt)@, origin, name@, collateral) {
                Ok(s) => {
                    &&& r is Ok
                    &&& final(rt)@ == s
                    &&& final(rt).events@.drop_last() == old(rt).events@
                    &&& final(rt).events@.len() == old(rt).events@.len() + 1
                    &&& final(rt).events@.last() matches RuntimeEvent::Operators(
                        Event::OperatorRegistered(id, who, n),
                    ) && id == old(rt)@.operators.next_operator_id && origin == Origin::Signed(who)
                        && n@ == name@
                },
                Err(e) => r == Err::<(), DispatchError>(e) && *final(rt) == *old(rt),
            },
    {
        let who = match ensure_signed(origin) {
            Ok(who) => who,
            Err(e) => return Err(e),
        };
        if rt.operators.operators.contains_key(&who) {
            return Err(DispatchError::Operators(Error::AlreadyRegistered));
        }
        if collateral < rt.operators.min_collateral {
            return Err(DispatchError::Operators(Error::InsufficientCollateral));
        }
        let id = rt.operators.next_operator_id;
        let block = rt.block_number;
        let event_name = name.duplicate();
        let info = OperatorInfo {
            id,
            account: who,
            name,
            collateral,
            status: OperatorStatus::Active,
            settlement_count: 0,
            registered_at: block,
        };
        proof {
            lemma_view_map_insert(rt.operators.operators@, who, info);
        }
        rt.operators.operators.insert(who, info);
        rt.operators.operator_account_by_id.insert(id, who);
        rt.operators.next_operator_id = if id < u32::MAX {
            id + 1
        } else {
            id
        };
        rt.deposit_event(RuntimeEvent::Operators(Event::OperatorRegistered(id, who, event_name)));
        Ok(())
    }

    /// Sets the status of operator `operator_id` (root only).
    pub fn update_operator_status(
        rt: &mut Runtime,
        origin: Origin,
        operator_id: u32,
        status: OperatorStatus,
    ) -> (r: DispatchResult)
        ensures
            match update_operator_status_step(old(rt)@, origin, operator_id, status) {
                Ok(s) => r is Ok && final(rt)@ == s && final(rt).events@ == old(rt).events@.push(
                    RuntimeEvent::Operators(
                        Event::OperatorStatusChanged(
                            operator_id,
                            old(rt)@.operators.operator_by_id(operator_id)->0.status,
                            status,
                        ),
                    ),
                ),
                Err(e) => r == Err::<(), DispatchError>(e) && *final(rt) == *old(rt),
            },
    {
        if let Err(e) = ensure_root(origin) {
            return Err(e);
        }
        let acc = match rt.operators.operator_account_by_id.get(&operator_id) {
            Some(acc) => *acc,
            None => return Err(DispatchError::Operators(Error::OperatorNotFound)),
        };
        if !rt.operators.operators.contains_key(&acc) {
            return Err(DispatchError::Operators(Error::OperatorNotFound));
        }
        let mut info = rt.operators.operators.remove(&acc).unwrap();
        let old_status = info.status;
        info.status = status;
        proof {
            lemma_view_map_insert(old(rt).operators.operators@, acc, info);
            assert(rt.operators.operators@.insert(acc, info) =~= old(rt).operators.operators@.insert(
                acc,
                info,
            ));
        }
        rt.operators.operators.insert(acc, info);
        rt.deposit_event(
            RuntimeEvent::Operators(Event::OperatorStatusChanged(operator_id, old_status, status)),
        );
        Ok(())
    }

    /// Adds `amount` to the signer's collateral.
    pub fn increase_collateral(rt: &mut Runtime, origin: Origin, amount: u128) -> (r: DispatchResult)
        requires
            collateral_increase_fits(old(rt)@, origin, amount),
        ensures
            match increase_collateral_step(old(rt)@, origin, amount) {
                Ok(s) => r is Ok && final(rt)@ == s && final(rt).events@ == old(rt).events@.push(
                    RuntimeEvent::Operators(
                        Event::CollateralIncreased(
                            s.operators.operators[signer_of(origin)->Ok_0].id,
                            amount,
                            s.operators.operators[signer_of(origin)->Ok_0].collateral,
                        ),
                    ),
                ),
                Err(e) => r == Err::<(), DispatchError>(e) && *final(rt) == *old(rt),
            },
    {
        let who = match ensure_signed(origin) {
            Ok(who) => who,
            Err(e) => return Err(e),
        };
        if !rt.operators.operators.contains_key(&who) {
            return Err(DispatchError::Operators(Error::OperatorNotFound));
        }
        let mut info = rt.operators.operators.remove(&who).unwrap();
        let new_total = info.collateral + amount;
        info.collateral = new_total;
        let id = info.id;
        proof {
            lemma_view_map_insert(old(rt).operators.operators@, who, info);
            assert(rt.operators.operators@.insert(who, info) =~= old(rt).operators.operators@.insert(
                who,
                info,
            ));
        }
        rt.operators.operators.insert(who, info);
        rt.deposit_event(RuntimeEvent::Operators(Event::CollateralIncreased(id, amount, new_total)));
        Ok(())
    }

    /// Counts one more settlement for operator `operator_id`, saturating at the top.
    pub fn increment_settlement_count(rt: &mut Runtime, operator_id: u32) -> (r: DispatchResult)
        ensures
            match increment_settlement_count_step(old(rt)@, operator_id) {
                Ok(s) => r is Ok && final(rt)@ == s && final(rt).events@ == old(rt).events@,
                Err(e) => r == Err::<(), DispatchError>(e) && *final(rt) == *old(rt),
            },
    {
        let acc = match rt.operators.operator_account_by_id.get(&operator_id) {
            Some(acc) => *acc,
            None => return Err(DispatchError::Operators(Error::OperatorNotFound)),
        };
        if !rt.operators.operators.contains_key(&acc) {
            return Err(DispatchError::Operators(Error::OperatorNotFound));
        }
        let mut info = rt.operators.operators.remove(&acc).unwrap();
        info.settlement_count = if info.settlement_count < u64::MAX {
            info.settlement_count + 1
        } else {
            info.settlement_count
        };
        proof {
            lemma_view_map_insert(old(rt).operators.operators@, acc, info);
            assert(rt.operators.operators@.insert(acc, info) =~= old(rt).operators.operators@.insert(
                acc,
                info,
            ));
        }
        rt.operators.operators.insert(acc, info);
        Ok(())
    }
}

} // verus!
