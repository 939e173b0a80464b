//! Settlement execution: operators submit settlements (Issue, Redeem,
//! Transfer, Lock, Unlock) and root finalizes or disputes them; finalizing
//! moves balances and, for Issue and Redeem, the asset's supply.
use vstd::prelude::*;
use std::collections::HashMap;
use crate::asset_registry::{self, AssetRecord};
use crate::bounded::BoundedVec;
use crate::laws::{law_operation_keeps_supply, law_settlement_steps_keep_supply, supply_matches};
use crate::operators::{self, OperatorStatus};
use crate::runtime::{
    ensure_root, ensure_signed, lemma_view_map_empty, lemma_view_map_insert, make_pair_key, pair_key,
    saturating_next, signer_of, view_map, AccountId, ChainState, DispatchError, DispatchResult,
    Origin, Runtime, RuntimeEvent,
};

verus! {

broadcast use vstd::std_specs::hash::group_hash_axioms;

/// A free-form reference an operator attaches to a settlement.
pub type Reference = BoundedVec<u8, 256>;

/// What a settlement does once finalized.
#[derive(Clone, Copy, Debug, PartialEq, Eq, Structural)]
pub enum SettlementOperation {
    /// Credits `to` and raises the supply.
    Issue,
    /// Debits `from` and lowers the supply.
    Redeem,
    /// Moves funds from `from` to `to`.
    Transfer,
    /// Moves funds of `from` into its locked balance.
    Lock,
    /// Moves funds of `from` out of its locked balance.
    Unlock,
}

/// Where a settlement stands.
#[derive(Clone, Copy, Debug, PartialEq, Eq, Structural)]
pub enum SettlementStatus {
    Pending,
    Finalized,
    Disputed,
}

/// A submitted settlement.
#[derive(Clone, Debug, PartialEq, Eq)]
pub struct SettlementInfo {
    pub id: u32,
    pub operator_id: u32,
    pub asset_id: u32,
    pub operation: SettlementOperation,
    pub amount: u128,
    pub from: AccountId,
    pub to: AccountId,
    pub reference: Reference,
    pub status: SettlementStatus,
    pub submitted_at: u32,
    pub finalized_at: Option<u32>,
}

/// The abstract value of a [`SettlementInfo`].
pub struct SettlementRecord {
    pub id: u32,
    pub operator_id: u32,
    pub asset_id: u32,
    pub operation: SettlementOperation,
    pub amount: u128,
    pub from: AccountId,
    pub to: AccountId,
    pub reference: Seq<u8>,
    pub status: SettlementStatus,
    pub submitted_at: u32,
    pub finalized_at: Option<u32>,
}

impl View for SettlementInfo {
    type V = SettlementRecord;

    open spec fn view(&self) -> SettlementRecord {
        SettlementRecord {
            id: self.id,
            operator_id: self.operator_id,
            asset_id: self.asset_id,
            operation: self.operation,
            amount: self.amount,
            from: self.from,
            to: self.to,
            reference: self.reference@,
            status: self.status,
            submitted_at: self.submitted_at,
            finalized_at: self.finalized_at,
        }
    }
}

/// Events of the settlement engine.
#[derive(Clone, Debug, PartialEq, Eq)]
pub enum Event {
    /// `(settlement_id, operator_id, asset_id, operation)`
    SettlementSubmitted(u32, u32, u32, SettlementOperation),
    /// `(settlement_id, block)`
    SettlementFinalized(u32, u32),
    /// `(settlement_id)`
    SettlementDisputed(u32),
}

/// Errors of the settlement engine.
#[derive(Clone, Copy, Debug, PartialEq, Eq, Structural)]
pub enum Error {
    OperatorNotFound,
    OperatorNotActive,
    AssetNotFound,
    SettlementNotFound,
    SettlementNotPending,
    InsufficientBalance,
    InsufficientLockedBalance,
    ArithmeticOverflow,
    Unauthorized,
}

/// Storage of the settlement engine.
#[derive(Clone, Debug, PartialEq, Eq)]
pub struct Storage {
    /// Settlements by id.
    pub settlements: HashMap<u32, SettlementInfo>,
    /// Free balances, under [`pair_key`] of account and asset; absent means zero.
    pub account_balances: HashMap<u128, u128>,
    /// Locked balances, keyed as the free ones.
    pub locked_balances: HashMap<u128, u128>,
    /// The id the next submission receives.
    pub next_settlement_id: u32,
}

/// The abstract state of the settlement engine.
pub struct State {
    pub settlements: Map<u32, SettlementRecord>,
    pub account_balances: Map<u128, u128>,
    pub locked_balances: Map<u128, u128>,
    pub next_settlement_id: u32,
}

/// The amount `account` holds of `asset_id` in a balance map.
pub open spec fn amount_in(m: Map<u128, u128>, account: AccountId, asset_id: u32) -> u128 {
    let k = pair_key(account, asset_id);
    if m.contains_key(k) {
        m[k]
    } else {
        0
    }
}

/// The map with `account`'s amount of `asset_id` raised by `amount`, or
/// `None` when that overflows.
pub open spec fn credit(m: Map<u128, u128>, account: AccountId, asset_id: u32, amount: u128) -> Option<
    Map<u128, u128>,
> {
    let cur = amount_in(m, account, asset_id);
    if cur + amount > u128::MAX {
        None
    } else {
        Some(m.insert(pair_key(account, asset_id), (cur + amount) as u128))
    }
}

/// The map with `account`'s amount of `asset_id` lowered by `amount`, or
/// `None` when it holds less.
pub open spec fn debit(m: Map<u128, u128>, account: AccountId, asset_id: u32, amount: u128) -> Option<
    Map<u128, u128>,
> {
    let cur = amount_in(m, account, asset_id);
    if cur < amount {
        None
    } else {
        Some(m.insert(pair_key(account, asset_id), (cur - amount) as u128))
    }
}

impl State {
    /// The state of a fresh chain.
    pub open spec fn genesis() -> State {
        State {
            settlements: Map::empty(),
            account_balances: Map::empty(),
            locked_balances: Map::empty(),
            next_settlement_id: 0,
        }
    }

    /// The free balance of `account` in `asset_id`.
    pub open spec fn balance(self, account: AccountId, asset_id: u32) -> u128 {
        amount_in(self.account_balances, account, asset_id)
    }

    /// The locked balance of `account` in `asset_id`.
    pub open spec fn locked(self, account: AccountId, asset_id: u32) -> u128 {
        amount_in(self.locked_balances, account, asset_id)
    }
}

impl View for Storage {
    type V = State;

    open spec fn view(&self) -> State {
        State {
            settlements: view_map(self.settlements@),
            account_balances: self.account_balances@,
            locked_balances: self.locked_balances@,
            next_settlement_id: self.next_settlement_id,
        }
    }
}

/// Reads an amount from a balance map.
pub fn read_amount(m: &HashMap<u128, u128>, account: AccountId, asset_id: u32) -> (r: u128)
    ensures
        r == amount_in(m@, account, asset_id),
{
    let k = make_pair_key(account, asset_id);
    match m.get(&k) {
        Some(v) => *v,
        None => 0,
    }
}

impl Storage {
    /// Empty storage.
    pub fn new() -> (r: Storage)
        ensures
            r@ == State::genesis(),
    {
        let r = Storage {
            settlements: HashMap::new(),
            account_balances: HashMap::new(),
            locked_balances: HashMap::new(),
            next_settlement_id: 0,
        };
        proof {
            lemma_view_map_empty::<u32, SettlementInfo>();
        }
        r
    }

    /// The settlement stored under `id`.
    pub fn settlement(&self, id: u32) -> (r: Option<&SettlementInfo>)
        ensures
            match r {
                Some(info) => self@.settlements.contains_key(id) && info@ == self@.settlements[id],
                None => !self@.settlements.contains_key(id),
            },
    {
        self.settlements.get(&id)
    }

    /// The id the next submission receives.
    pub fn next_settlement_id(&self) -> (r: u32)
        ensures
            r == self@.next_settlement_id,
    {
        self.next_settlement_id
    }

    /// The free balance of `account` in `asset_id`.
    pub fn balance(&self, account: AccountId, asset_id: u32) -> (r: u128)
        ensures
            r == self@.balance(account, asset_id),
    {
        read_amount(&self.account_balances, account, asset_id)
    }

    /// The locked balance of `account` in `asset_id`.
    pub fn locked_balance(&self, account: AccountId, asset_id: u32) -> (r: u128)
        ensures
            r == self@.locked(account, asset_id),
    {
        read_amount(&self.locked_balances, account, asset_id)
    }
}

// ─── Transitions ──────────────────────────────────────────────────────────

/// An error of this pallet as a dispatch error.
pub open spec fn fail<T>(e: Error) -> Result<T, DispatchError> {
    Err(DispatchError::SettlementEngine(e))
}

/// The state after the engine's storage is replaced.
pub open spec fn with_engine(s: ChainState, engine: State) -> ChainState {
    ChainState { engine, ..s }
}

/// The state with new free and locked balance maps.
pub open spec fn with_balances(s: ChainState, free: Map<u128, u128>, locked: Map<u128, u128>) -> ChainState {
    with_engine(s, State { account_balances: free, locked_balances: locked, ..s.engine })
}

/// The assets map with the supply of `asset_id` moved up (`raise`) or down
/// by `amount`, or the error that refuses it.
pub open spec fn adjust_supply(
    assets: Map<u32, AssetRecord>,
    asset_id: u32,
    amount: u128,
    raise: bool,
) -> Result<Map<u32, AssetRecord>, DispatchError> {
    if !assets.contains_key(asset_id) {
        fail(Error::AssetNotFound)
    } else {
        let a = assets[asset_id];
        if raise && a.total_supply + amount > u128::MAX {
            fail(Error::ArithmeticOverflow)
        } else if !raise && a.total_supply < amount {
            fail(Error::ArithmeticOverflow)
        } else {
            let supply = if raise {
                (a.total_supply + amount) as u128
            } else {
                (a.total_supply - amount) as u128
            };
            Ok(assets.insert(asset_id, AssetRecord { total_supply: supply, ..a }))
        }
    }
}

/// What carrying out `operation` does to balances and supply.
pub open spec fn operation_step(
    s: ChainState,
    asset_id: u32,
    operation: SettlementOperation,
    amount: u128,
    from: AccountId,
    to: AccountId,
) -> Result<ChainState, DispatchError> {
    let free = s.engine.account_balances;
    let locked = s.engine.locked_balances;
    match operation {
        SettlementOperation::Issue => match credit(free, to, asset_id, amount) {
            None => fail(Error::ArithmeticOverflow),
            Some(free2) => match adjust_supply(s.assets.assets, asset_id, amount, true) {
                Err(e) => Err(e),
                Ok(assets2) => Ok(
                    asset_registry::with_assets(
                        with_balances(s, free2, locked),
                        asset_registry::State { assets: assets2, ..s.assets },
                    ),
                ),
            },
        },
        SettlementOperation::Redeem => match debit(free, from, asset_id, amount) {
            None => fail(Error::InsufficientBalance),
            Some(free2) => match adjust_supply(s.assets.assets, asset_id, amount, false) {
                Err(e) => Err(e),
                Ok(assets2) => Ok(
                    asset_registry::with_assets(
                        with_balances(s, free2, locked),
                        asset_registry::State { assets: assets2, ..s.assets },
                    ),
                ),
            },
        },
        SettlementOperation::Transfer => match debit(free, from, asset_id, amount) {
            None => fail(Error::InsufficientBalance),
            Some(free2) => match credit(free2, to, asset_id, amount) {
                None => fail(Error::ArithmeticOverflow),
                Some(free3) => Ok(with_balances(s, free3, locked)),
            },
        },
        SettlementOperation::Lock => match debit(free, from, asset_id, amount) {
            None => fail(Error::InsufficientBalance),
            Some(free2) => match credit(locked, from, asset_id, amount) {
                None => fail(Error::ArithmeticOverflow),
                Some(locked2) => Ok(with_balances(s, free2, locked2)),
            },
        },
        SettlementOperation::Unlock => match debit(locked, from, asset_id, amount) {
            None => fail(Error::InsufficientLockedBalance),
            Some(locked2) => match credit(free, from, asset_id, amount) {
                None => fail(Error::ArithmeticOverflow),
                Some(free2) => Ok(with_balances(s, free2, locked2)),
            },
        },
    }
}

/// The checks `submit_settlement` makes before it stores anything.
pub open spec fn submit_check(s: ChainState, origin: Origin, operator_id: u32, asset_id: u32) -> Result<
    AccountId,
    DispatchError,
> {
    match signer_of(origin) {
        Err(e) => Err(e),
        Ok(who) => if !s.operators.operator_account_by_id.contains_key(operator_id) {
            fail(Error::OperatorNotFound)
        } else if s.operators.operator_account_by_id[operator_id] != who {
            fail(Error::Unauthorized)
        } else if !s.operators.operators.contains_key(who) {
            fail(Error::OperatorNotFound)
        } else if !(s.operators.operators[who].status is Active) {
            fail(Error::OperatorNotActive)
        } else if !s.assets.assets.contains_key(asset_id) {
            fail(Error::AssetNotFound)
        } else {
            Ok(who)
        },
    }
}

/// What `submit_settlement` does to the chain.
pub open spec fn submit_settlement_step(
    s: ChainState,
    origin: Origin,
    operator_id: u32,
    asset_id: u32,
    operation: SettlementOperation,
    amount: u128,
    from: AccountId,
    to: AccountId,
    reference: Seq<u8>,
) -> Result<ChainState, DispatchError> {
    match submit_check(s, origin, operator_id, asset_id) {
        Err(e) => Err(e),
        Ok(_) => {
            let id = s.engine.next_settlement_id;
            let record = SettlementRecord {
                id,
                operator_id,
                asset_id,
                operation,
                amount,
                from,
                to,
                reference,
                status: SettlementStatus::Pending,
                submitted_at: s.block_number,
                finalized_at: None,
            };
            let s1 = with_engine(
                s,
                State {
                    settlements: s.engine.settlements.insert(id, record),
                    next_settlement_id: saturating_next(id),
                    ..s.engine
                },
            );
            operators::increment_settlement_count_step(s1, operator_id)
        },
    }
}

/// The pending settlement `id`, or why it cannot change.
pub open spec fn pending_settlement(s: ChainState, origin: Origin, id: u32) -> Result<
    SettlementRecord,
    DispatchError,
> {
    if !(origin is Root) {
        Err(DispatchError::BadOrigin)
    } else if !s.engine.settlements.contains_key(id) {
        fail(Error::SettlementNotFound)
    } else if !(s.engine.settlements[id].status is Pending) {
        fail(Error::SettlementNotPending)
    } else {
        Ok(s.engine.settlements[id])
    }
}

/// What `finalize_settlement` does to the chain.
pub open spec fn finalize_settlement_step(s: ChainState, origin: Origin, id: u32) -> Result<
    ChainState,
    DispatchError,
> {
    match pending_settlement(s, origin, id) {
        Err(e) => Err(e),
        Ok(record) => match operation_step(
            s,
            record.asset_id,
            record.operation,
            record.amount,
            record.from,
            record.to,
        ) {
            Err(e) => Err(e),
            Ok(s1) => Ok(
                with_engine(
                    s1,
                    State {
                        settlements: s1.engine.settlements.insert(
                            id,
                            SettlementRecord {
                                status: SettlementStatus::Finalized,
                                finalized_at: Some(s.block_number),
                                ..record
                            },
                        ),
                        ..s1.engine
                    },
                ),
            ),
        },
    }
}

/// What `dispute_settlement` does to the chain.
pub open spec fn dispute_settlement_step(s: ChainState, origin: Origin, id: u32) -> Result<
    ChainState,
    DispatchError,
> {
    match pending_settlement(s, origin, id) {
        Err(e) => Err(e),
        Ok(record) => Ok(
            with_engine(
                s,
                State {
                    settlements: s.engine.settlements.insert(
                        id,
                        SettlementRecord { status: SettlementStatus::Disputed, ..record },
                    ),
                    ..s.engine
                },
            ),
        ),
    }
}

/// The dispatchable calls of the settlement engine.
pub struct Pallet;

impl Pallet {
    /// Records a pending settlement submitted by operator `operator_id`,
    /// who must be the signer and active, for a registered asset.
    pub fn submit_settlement(
        rt: &mut Runtime,
        origin: Origin,
        operator_id: u32,
        asset_id: u32,
        operation: SettlementOperation,
        amount: u128,
        from: AccountId,
        to: AccountId,
        reference: Reference,
    ) -> (r: DispatchResult)
        ensures
            match submit_settlement_step(
                old(rt)@,
                origin,
                operator_id,
                asset_id,
                operation,
                amount,
                from,
                to,
                reference@,
            ) {
                Ok(s) => r is Ok && final(rt)@ == s && final(rt).events@ == old(rt).events@.push(
                    RuntimeEvent::SettlementEngine(
                        Event::SettlementSubmitted(
                            old(rt)@.engine.next_settlement_id,
                            operator_id,
                            asset_id,
                            operation,
                        ),
                    ),
                ),
                Err(e) => r == Err::<(), DispatchError>(e) && *final(rt) == *old(rt),
            },
    {
        let who = match ensure_signed(origin) {
            Ok(who) => who,
            Err(e) => return Err(e),
        };
        let acc = match rt.operators.account_of(operator_id) {
            Some(acc) => acc,
            None => return Err(DispatchError::SettlementEngine(Error::OperatorNotFound)),
        };
        if acc != who {
            return Err(DispatchError::SettlementEngine(Error::Unauthorized));
        }
        match rt.operators.operator(who) {
            None => return Err(DispatchError::SettlementEngine(Error::OperatorNotFound)),
            Some(op) => if op.status != OperatorStatus::Active {
                return Err(DispatchError::SettlementEngine(Error::OperatorNotActive));
            },
        }
        if !rt.assets.assets.contains_key(&asset_id) {
            return Err(DispatchError::SettlementEngine(Error::AssetNotFound));
        }
        let id = rt.engine.next_settlement_id;
        let info = SettlementInfo {
            id,
            operator_id,
            asset_id,
            operation,
            amount,
            from,
            to,
            reference,
            status: SettlementStatus::Pending,
            submitted_at: rt.block_number,
            finalized_at: None,
        };
        proof {
            lemma_view_map_insert(rt.engine.settlements@, id, info);
        }
        rt.engine.settlements.insert(id, info);
        rt.engine.next_settlement_id = if id < u32::MAX {
            id + 1
        } else {
            id
        };
        let counted = operators::Pallet::increment_settlement_count(rt, operator_id);
        if let Err(e) = counted {
            return Err(e);
        }
        rt.deposit_event(
            RuntimeEvent::SettlementEngine(
                Event::SettlementSubmitted(id, operator_id, asset_id, operation),
            ),
        );
        Ok(())
    }

    /// Carries out a settlement's operation on balances and supply.
    fn execute_operation(
        rt: &mut Runtime,
        asset_id: u32,
        operation: SettlementOperation,
        amount: u128,
        from: AccountId,
        to: AccountId,
    ) -> (r: DispatchResult)
        ensures
            final(rt).events@ == old(rt).events@,
            match operation_step(old(rt)@, asset_id, operation, amount, from, to) {
                Ok(s) => r is Ok && final(rt)@ == s,
                Err(e) => r == Err::<(), DispatchError>(e) && *final(rt) == *old(rt),
            },
            r is Ok ==> forall|a: u32|
                supply_matches(old(rt)@, a) ==> #[trigger] supply_matches(final(rt)@, a),
    {
        proof {
            assert forall|a: u32| supply_matches(old(rt)@, a) implies (operation_step(
                old(rt)@,
                asset_id,
                operation,
                amount,
                from,
                to,
            ) matches Ok(s2) ==> supply_matches(s2, a)) by {
                law_operation_keeps_supply(old(rt)@, asset_id, operation, amount, from, to, a);
            }
        }
        let fk = make_pair_key(from, asset_id);
        let tk = make_pair_key(to, asset_id);
        proof {
            crate::runtime::lemma_pair_key_injective(from, asset_id, to, asset_id);
        }
        match operation {
            SettlementOperation::Issue => {
                let bal = read_amount(&rt.engine.account_balances, to, asset_id);
                if bal > u128::MAX - amount {
                    return Err(DispatchError::SettlementEngine(Error::ArithmeticOverflow));
                }
                if let Err(e) = Self::check_supply_change(rt, asset_id, amount, true) {
                    return Err(e);
                }
                rt.engine.account_balances.insert(tk, bal + amount);
                Self::change_supply(rt, asset_id, amount, true);
            },
            SettlementOperation::Redeem => {
                let bal = read_amount(&rt.engine.account_balances, from, asset_id);
                if bal < amount {
                    return Err(DispatchError::SettlementEngine(Error::InsufficientBalance));
                }
                if let Err(e) = Self::check_supply_change(rt, asset_id, amount, false) {
                    return Err(e);
                }
                rt.engine.account_balances.insert(fk, bal - amount);
                Self::change_supply(rt, asset_id, amount, false);
            },
            SettlementOperation::Transfer => {
                let from_bal = read_amount(&rt.engine.account_balances, from, asset_id);
                if from_bal < amount {
                    return Err(DispatchError::SettlementEngine(Error::InsufficientBalance));
                }
                let to_bal = if tk == fk {
                    from_bal - amount
                } else {
                    read_amount(&rt.engine.account_balances, to, asset_id)
                };
                if to_bal > u128::MAX - amount {
                    return Err(DispatchError::SettlementEngine(Error::ArithmeticOverflow));
                }
                rt.engine.account_balances.insert(fk, from_bal - amount);
                rt.engine.account_balances.insert(tk, to_bal + amount);
            },
            SettlementOperation::Lock => {
                let bal = read_amount(&rt.engine.account_balances, from, asset_id);
                if bal < amount {
                    return Err(DispatchError::SettlementEngine(Error::InsufficientBalance));
                }
                let locked = read_amount(&rt.engine.locked_balances, from, asset_id);
                if locked > u128::MAX - amount {
                    return Err(DispatchError::SettlementEngine(Error::ArithmeticOverflow));
                }
                rt.engine.account_balances.insert(fk, bal - amount);
                rt.engine.locked_balances.insert(fk, locked + amount);
            },
            SettlementOperation::Unlock => {
                let locked = read_amount(&rt.engine.locked_balances, from, asset_id);
                if locked < amount {
                    return Err(DispatchError::SettlementEngine(Error::InsufficientLockedBalance));
                }
                let bal = read_amount(&rt.engine.account_balances, from, asset_id);
                if bal > u128::MAX - amount {
                    return Err(DispatchError::SettlementEngine(Error::ArithmeticOverflow));
                }
                rt.engine.locked_balances.insert(fk, locked - amount);
                rt.engine.account_balances.insert(fk, bal + amount);
            },
        }
        assert(rt.engine.account_balances@ =~= final(rt).engine.account_balances@);
        Ok(())
    }

    /// Checks that the supply of `asset_id` can move by `amount`.
    fn check_supply_change(rt: &Runtime, asset_id: u32, amount: u128, raise: bool) -> (r: DispatchResult)
        ensures
            match adjust_supply(rt@.assets.assets, asset_id, amount, raise) {
                Ok(_) => r is Ok,
                Err(e) => r == Err::<(), DispatchError>(e),
            },
    {
        match rt.assets.assets.get(&asset_id) {
            None => Err(DispatchError::SettlementEngine(Error::AssetNotFound)),
            Some(a) => if raise && a.total_supply > u128::MAX - amount {
                Err(DispatchError::SettlementEngine(Error::ArithmeticOverflow))
            } else if !raise && a.total_supply < amount {
                Err(DispatchError::SettlementEngine(Error::ArithmeticOverflow))
            } else {
                Ok(())
            },
        }
    }

    /// Moves the supply of `asset_id` by `amount`, once checked.
    fn change_supply(rt: &mut Runtime, asset_id: u32, amount: u128, raise: bool)
        requires
            adjust_supply(old(rt)@.assets.assets, asset_id, amount, raise) is Ok,
        ensures
            final(rt)@ == (ChainState {
                assets: asset_registry::State {
                    assets: adjust_supply(old(rt)@.assets.assets, asset_id, amount, raise)->Ok_0,
                    ..old(rt)@.assets
                },
                ..old(rt)@
            }),
            final(rt).events@ == old(rt).events@,
    {
        let mut a = rt.assets.assets.remove(&asset_id).unwrap();
        a.total_supply = if raise {
            a.total_supply + amount
        } else {
            a.total_supply - amount
        };
        proof {
            lemma_view_map_insert(old(rt).assets.assets@, asset_id, a);
            assert(rt.assets.assets@.insert(asset_id, a) =~= old(rt).assets.assets@.insert(asset_id, a));
        }
        rt.assets.assets.insert(asset_id, a);
    }

    /// Carries out pending settlement `id` and marks it finalized (root only).
    pub fn finalize_settlement(rt: &mut Runtime, origin: Origin, id: u32) -> (r: DispatchResult)
        ensures
            match finalize_settlement_step(old(rt)@, origin, id) {
                Ok(s) => r is Ok && final(rt)@ == s && final(rt).events@ == old(rt).events@.push(
                    RuntimeEvent::SettlementEngine(Event::SettlementFinalized(id, old(rt)@.block_number)),
                ),
                Err(e) => r == Err::<(), DispatchError>(e) && *final(rt) == *old(rt),
            },
            r is Ok ==> forall|a: u32|
                supply_matches(old(rt)@, a) ==> #[trigger] supply_matches(final(rt)@, a),
    {
        proof {
            assert forall|a: u32| supply_matches(old(rt)@, a) implies (finalize_settlement_step(
                old(rt)@,
                origin,
                id,
            ) matches Ok(s2) ==> supply_matches(s2, a)) by {
                law_settlement_steps_keep_supply(
                    old(rt)@,
                    origin,
                    id,
                    0,
                    0,
                    SettlementOperation::Issue,
                    0,
                    0,
                    0,
                    Seq::empty(),
                    a,
                );
            }
        }
        if let Err(e) = ensure_root(origin) {
            return Err(e);
        }
        let (asset_id, operation, amount, from, to) = match rt.engine.settlements.get(&id) {
            None => return Err(DispatchError::SettlementEngine(Error::SettlementNotFound)),
            Some(info) => {
                if info.status != SettlementStatus::Pending {
                    return Err(DispatchError::SettlementEngine(Error::SettlementNotPending));
                }
                (info.asset_id, info.operation, info.amount, info.from, info.to)
            },
        };
        if let Err(e) = Self::execute_operation(rt, asset_id, operation, amount, from, to) {
            return Err(e);
        }
        let block = rt.block_number;
        let ghost mid = rt.engine.settlements@;
        let mut info = rt.engine.settlements.remove(&id).unwrap();
        info.status = SettlementStatus::Finalized;
        info.finalized_at = Some(block);
        proof {
            lemma_view_map_insert(mid, id, info);
            assert(rt.engine.settlements@.insert(id, info) =~= mid.insert(id, info));
        }
        rt.engine.settlements.insert(id, info);
        rt.deposit_event(RuntimeEvent::SettlementEngine(Event::SettlementFinalized(id, block)));
        Ok(())
    }

    /// Marks pending settlement `id` disputed (root only).
    pub fn dispute_settlement(rt: &mut Runtime, origin: Origin, id: u32) -> (r: DispatchResult)
        ensures
            match dispute_settlement_step(old(rt)@, origin, id) {
                Ok(s) => r is Ok && final(rt)@ == s && final(rt).events@ == old(rt).events@.push(
                    RuntimeEvent::SettlementEngine(Event::SettlementDisputed(id)),
                ),
                Err(e) => r == Err::<(), DispatchError>(e) && *final(rt) == *old(rt),
            },
    {
        if let Err(e) = ensure_root(origin) {
            return Err(e);
        }
        match rt.engine.settlements.get(&id) {
            None => return Err(DispatchError::SettlementEngine(Error::SettlementNotFound)),
            Some(info) => if info.status != SettlementStatus::Pending {
                return Err(DispatchError::SettlementEngine(Error::SettlementNotPending));
            },
        }
        let mut info = rt.engine.settlements.remove(&id).unwrap();
        info.status = SettlementStatus::Disputed;
        proof {
            lemma_view_map_insert(old(rt).engine.settlements@, id, info);
            assert(rt.engine.settlements@.insert(id, info) =~= old(rt).engine.settlements@.insert(id, info));
        }
        rt.engine.settlements.insert(id, info);
        rt.deposit_event(RuntimeEvent::SettlementEngine(Event::SettlementDisputed(id)));
        Ok(())
    }
}

} // verus!
