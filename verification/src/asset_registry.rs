//! The registry of assets (Fiat, Commodity, Security, InternalLedger) that
//! operators issue, with the supply of each.
use vstd::prelude::*;
use std::collections::HashMap;
use crate::bounded::BoundedVec;
use crate::runtime::{
    ensure_signed, lemma_view_map_empty, lemma_view_map_insert, make_pair_key, pair_key,
    saturating_next, signer_of, view_map, AccountId, ChainState, DispatchError, DispatchResult,
    Origin, Runtime, RuntimeEvent,
};

verus! {

broadcast use vstd::std_specs::hash::group_hash_axioms;

/// An asset's name.
pub type AssetName = BoundedVec<u8, 64>;

/// An asset's ticker symbol.
pub type AssetSymbol = BoundedVec<u8, 12>;

/// The settlement rules an issuer attaches to an asset.
pub type SettlementRules = BoundedVec<u8, 256>;

/// The kind of an asset.
#[derive(Clone, Copy, Debug, PartialEq, Eq, Structural)]
pub enum AssetType {
    Fiat,
    Commodity,
    Security,
    InternalLedger,
}

/// A registered asset.
#[derive(Clone, Debug, PartialEq, Eq)]
pub struct AssetInfo {
    pub asset_type: AssetType,
    pub issuer: AccountId,
    pub name: AssetName,
    pub symbol: AssetSymbol,
    pub decimals: u8,
    pub total_supply: u128,
    pub settlement_rules: SettlementRules,
}

/// The abstract value of an [`AssetInfo`].
pub struct AssetRecord {
    pub asset_type: AssetType,
    pub issuer: AccountId,
    pub name: Seq<u8>,
    pub symbol: Seq<u8>,
    pub decimals: u8,
    pub total_supply: u128,
    pub settlement_rules: Seq<u8>,
}

impl View for AssetInfo {
    type V = AssetRecord;

    open spec fn view(&self) -> AssetRecord {
        AssetRecord {
            asset_type: self.asset_type,
            issuer: self.issuer,
            name: self.name@,
            symbol: self.symbol@,
            decimals: self.decimals,
            total_supply: self.total_supply,
            settlement_rules: self.settlement_rules@,
        }
    }
}

/// Events of the asset registry.
#[derive(Clone, Debug, PartialEq, Eq)]
pub enum Event {
    /// `(asset_id, issuer, name, symbol)`
    AssetRegistered(u32, AccountId, AssetName, AssetSymbol),
    /// `(asset_id, old_supply, new_supply)`
    SupplyUpdated(u32, u128, u128),
}

/// Errors of the asset registry.
#[derive(Clone, Copy, Debug, PartialEq, Eq, Structural)]
pub enum Error {
    NotAnOperator,
    AssetNotFound,
    Unauthorized,
    InvalidAssetType,
}

/// Storage of the asset registry.
#[derive(Clone, Debug, PartialEq, Eq)]
pub struct Storage {
    /// Assets by id.
    pub assets: HashMap<u32, AssetInfo>,
    /// The id the next registration receives.
    pub next_asset_id: u32,
    /// The `(issuer, asset_id)` pairs, under [`pair_key`].
    pub operator_assets: HashMap<u128, ()>,
}

/// The abstract state of the asset registry.
pub struct State {
    pub assets: Map<u32, AssetRecord>,
    pub next_asset_id: u32,
    pub operator_assets: Set<u128>,
}

impl State {
    /// The state of a fresh chain.
    pub open spec fn genesis() -> State {
        State { assets: Map::empty(), next_asset_id: 0, operator_assets: Set::empty() }
    }

    /// Whether `issuer` registered asset `asset_id`.
    pub open spec fn issued_by(self, issuer: AccountId, asset_id: u32) -> bool {
        self.operator_assets.contains(pair_key(issuer, asset_id))
    }
}

impl View for Storage {
    type V = State;

    open spec fn view(&self) -> State {
        State {
            assets: view_map(self.assets@),
            next_asset_id: self.next_asset_id,
            operator_assets: self.operator_assets@.dom(),
        }
    }
}

impl Storage {
    /// Empty storage.
    pub fn new() -> (r: Storage)
        ensures
            r@ == State::genesis(),
    {
        let r = Storage { assets: HashMap::new(), next_asset_id: 0, operator_assets: HashMap::new() };
        proof {
            lemma_view_map_empty::<u32, AssetInfo>();
        }
        r
    }

    /// The asset registered under `asset_id`.
    pub fn asset(&self, asset_id: u32) -> (r: Option<&AssetInfo>)
        ensures
            match r {
                Some(info) => self@.assets.contains_key(asset_id) && info@ == self@.assets[asset_id],
                None => !self@.assets.contains_key(asset_id),
            },
    {
        self.assets.get(&asset_id)
    }

    /// The id the next registration receives.
    pub fn next_asset_id(&self) -> (r: u32)
        ensures
            r == self@.next_asset_id,
    {
        self.next_asset_id
    }

    /// Whether `issuer` registered asset `asset_id`.
    pub fn is_issued_by(&self, issuer: AccountId, asset_id: u32) -> (r: bool)
        ensures
            r == self@.issued_by(issuer, asset_id),
    {
        let k = make_pair_key(issuer, asset_id);
        self.operator_assets.contains_key(&k)
    }
}

// ─── Transitions ──────────────────────────────────────────────────────────

/// The state after the asset registry is replaced.
pub open spec fn with_assets(s: ChainState, assets: State) -> ChainState {
    ChainState { assets, ..s }
}

/// What `register_asset` does to the chain.
pub open spec fn register_asset_step(
    s: ChainState,
    origin: Origin,
    asset_type: AssetType,
    name: Seq<u8>,
    symbol: Seq<u8>,
    decimals: u8,
    rules: Seq<u8>,
) -> Result<ChainState, DispatchError> {
    match signer_of(origin) {
        Err(e) => Err(e),
        Ok(who) => if !s.operators.operators.contains_key(who) {
            Err(DispatchError::AssetRegistry(Error::NotAnOperator))
        } else {
            let id = s.assets.next_asset_id;
            let record = AssetRecord {
                asset_type,
                issuer: who,
                name,
                symbol,
                decimals,
                total_supply: 0,
                settlement_rules: rules,
            };
            Ok(
                with_assets(
                    s,
                    State {
                        assets: s.assets.assets.insert(id, record),
                        next_asset_id: saturating_next(id),
                        operator_assets: s.assets.operator_assets.insert(pair_key(who, id)),
                    },
                ),
            )
        },
    }
}

/// The asset `asset_id` when the signer of `origin` issued it, or why not.
pub open spec fn issuer_check(s: ChainState, origin: Origin, asset_id: u32) -> Result<
    AssetRecord,
    DispatchError,
> {
    match signer_of(origin) {
        Err(e) => Err(e),
        Ok(who) => if !s.assets.assets.contains_key(asset_id) {
            Err(DispatchError::AssetRegistry(Error::AssetNotFound))
        } else if s.assets.assets[asset_id].issuer != who {
            Err(DispatchError::AssetRegistry(Error::Unauthorized))
        } else {
            Ok(s.assets.assets[asset_id])
        },
    }
}

/// What `update_supply` does to the chain.
pub open spec fn update_supply_step(s: ChainState, origin: Origin, asset_id: u32, new_supply: u128) -> Result<
    ChainState,
    DispatchError,
> {
    match issuer_check(s, origin, asset_id) {
        Err(e) => Err(e),
        Ok(record) => Ok(
            with_assets(
                s,
                State {
                    assets: s.assets.assets.insert(
                        asset_id,
                        AssetRecord { total_supply: new_supply, ..record },
                    ),
                    ..s.assets
                },
            ),
        ),
    }
}

/// What `update_rules` does to the chain.
pub open spec fn update_rules_step(s: ChainState, origin: Origin, asset_id: u32, new_rules: Seq<u8>) -> Result<
    ChainState,
    DispatchError,
> {
    match issuer_check(s, origin, asset_id) {
        Err(e) => Err(e),
        Ok(record) => Ok(
            with_assets(
                s,
                State {
                    assets: s.assets.assets.insert(
                        asset_id,
                        AssetRecord { settlement_rules: new_rules, ..record },
                    ),
                    ..s.assets
                },
            ),
        ),
    }
}

/// The dispatchable calls of the asset registry.
pub struct Pallet;

impl Pallet {
    /// Registers a new asset issued by the signer, who must be an operator.
    pub fn register_asset(
        rt: &mut Runtime,
        origin: Origin,
        asset_type: AssetType,
        name: AssetName,
        symbol: AssetSymbol,
        decimals: u8,
        rules: SettlementRules,
    ) -> (r: DispatchResult)
        ensures
            match register_asset_step(old(rt)@, origin, asset_type, name@, symbol@, decimals, rules@) {
                Ok(s) => {
                    &&& r is Ok
                    &&& final(rt)@ == s
                    &&& final(rt).events@.drop_last() == old(rt).events@
                    &&& final(rt).events@.len() == old(rt).events@.len() + 1
                    &&& final(rt).events@.last() matches RuntimeEvent::AssetRegistry(
                        Event::AssetRegistered(id, who, n, sym),
                    ) && id == old(rt)@.assets.next_asset_id && origin == Origin::Signed(who)
                        && n@ == name@ && sym@ == symbol@
                },
                Err(e) => r == Err::<(), DispatchError>(e) && *final(rt) == *old(rt),
            },
    {
        let who = match ensure_signed(origin) {
            Ok(who) => who,
            Err(e) => return Err(e),
        };
        if !rt.operators.operators.contains_key(&who) {
            return Err(DispatchError::AssetRegistry(Error::NotAnOperator));
        }
        let id = rt.assets.next_asset_id;
        let event_name = name.duplicate();
        let event_symbol = symbol.duplicate();
        let info = AssetInfo {
            asset_type,
            issuer: who,
            name,
            symbol,
            decimals,
            total_supply: 0,
            settlement_rules: rules,
        };
        proof {
            lemma_view_map_insert(rt.assets.assets@, id, info);
        }
        rt.assets.assets.insert(id, info);
        let k = make_pair_key(who, id);
        rt.assets.operator_assets.insert(k, ());
        rt.assets.next_asset_id = if id < u32::MAX {
            id + 1
        } else {
            id
        };
        rt.deposit_event(
            RuntimeEvent::AssetRegistry(Event::AssetRegistered(id, who, event_name, event_symbol)),
        );
        Ok(())
    }

    /// Checks that the signer issued asset `asset_id`.
    fn check_issuer(rt: &Runtime, origin: Origin, asset_id: u32) -> (r: Result<(), DispatchError>)
        ensures
            match issuer_check(rt@, origin, asset_id) {
                Ok(_) => r is Ok,
                Err(e) => r == Err::<(), DispatchError>(e),
            },
    {
        let who = match ensure_signed(origin) {
            Ok(who) => who,
            Err(e) => return Err(e),
        };
        match rt.assets.assets.get(&asset_id) {
            None => Err(DispatchError::AssetRegistry(Error::AssetNotFound)),
            Some(info) => if info.issuer != who {
                Err(DispatchError::AssetRegistry(Error::Unauthorized))
            } else {
                Ok(())
            },
        }
    }

    /// Sets the recorded total supply of an asset (its issuer only).
    pub fn update_supply(rt: &mut Runtime, origin: Origin, asset_id: u32, new_supply: u128) -> (r:
        DispatchResult)
        ensures
            match update_supply_step(old(rt)@, origin, asset_id, new_supply) {
                Ok(s) => r is Ok && final(rt)@ == s && final(rt).events@ == old(rt).events@.push(
                    RuntimeEvent::AssetRegistry(
                        Event::SupplyUpdated(
                            asset_id,
                            old(rt)@.assets.assets[asset_id].total_supply,
                            new_supply,
                        ),
                    ),
                ),
                Err(e) => r == Err::<(), DispatchError>(e) && *final(rt) == *old(rt),
            },
    {
        if let Err(e) = Self::check_issuer(rt, origin, asset_id) {
            return Err(e);
        }
        let mut info = rt.assets.assets.remove(&asset_id).unwrap();
        let old_supply = info.total_supply;
        info.total_supply = new_supply;
        proof {
            lemma_view_map_insert(old(rt).assets.assets@, asset_id, info);
            assert(rt.assets.assets@.insert(asset_id, info) =~= old(rt).assets.assets@.insert(
                asset_id,
                info,
            ));
        }
        rt.assets.assets.insert(asset_id, info);
        rt.deposit_event(
            RuntimeEvent::AssetRegistry(Event::SupplyUpdated(asset_id, old_supply, new_supply)),
        );
        Ok(())
    }

    /// Replaces the settlement rules of an asset (its issuer only).
    pub fn update_rules(rt: &mut Runtime, origin: Origin, asset_id: u32, new_rules: SettlementRules) -> (r:
        DispatchResult)
        ensures
            match update_rules_step(old(rt)@, origin, asset_id, new_rules@) {
                Ok(s) => r is Ok && final(rt)@ == s && final(rt).events@ == old(rt).events@,
                Err(e) => r == Err::<(), DispatchError>(e) && *final(rt) == *old(rt),
            },
    {
        if let Err(e) = Self::check_issuer(rt, origin, asset_id) {
            return Err(e);
        }
        let mut info = rt.assets.assets.remove(&asset_id).unwrap();
        info.settlement_rules = new_rules;
        proof {
            lemma_view_map_insert(old(rt).assets.assets@, asset_id, info);
            assert(rt.assets.assets@.insert(asset_id, info) =~= old(rt).assets.assets@.insert(
                asset_id,
                info,
            ));
        }
        rt.assets.assets.insert(asset_id, info);
        Ok(())
    }
}

} // verus!
