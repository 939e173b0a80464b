use settrum::asset_registry::{
    AssetName, AssetSymbol, AssetType, Error, Event, Pallet as AssetRegistry, SettlementRules,
};
use settrum::bounded::BoundedVec;
use settrum::mock::new_test_ext;
use settrum::operators::Pallet as Operators;
use settrum::runtime::{DispatchError, Origin, Runtime, RuntimeEvent};

fn name(s: &str) -> AssetName {
    BoundedVec::try_from(s.as_bytes().to_vec()).unwrap()
}

fn symbol(s: &str) -> AssetSymbol {
    BoundedVec::try_from(s.as_bytes().to_vec()).unwrap()
}

fn rules(s: &str) -> SettlementRules {
    BoundedVec::try_from(s.as_bytes().to_vec()).unwrap()
}

fn registry_register_operator(rt: &mut Runtime, account: u64, op_name: &[u8]) {
    assert_eq!(
        Operators::register_operator(
            rt,
            Origin::Signed(account),
            BoundedVec::try_from(op_name.to_vec()).unwrap(),
            1_000_000
        ),
        Ok(())
    );
}

fn registry_err(e: Error) -> Result<(), DispatchError> {
    Err(DispatchError::AssetRegistry(e))
}

#[test]
fn register_asset_works() {
    let mut rt = new_test_ext();
    rt.set_block_number(1);
    registry_register_operator(&mut rt, 1, b"Operator");
    assert_eq!(
        AssetRegistry::register_asset(
            &mut rt,
            Origin::Signed(1),
            AssetType::Fiat,
            name("USD"),
            symbol("USD"),
            2,
            rules("rules")
        ),
        Ok(())
    );
}

#[test]
fn register_asset_by_operator() {
    let mut rt = new_test_ext();
    registry_register_operator(&mut rt, 1, b"Op");
    assert_eq!(
        AssetRegistry::register_asset(
            &mut rt,
            Origin::Signed(1),
            AssetType::Fiat,
            name("USD"),
            symbol("USD"),
            2u8,
            rules("x")
        ),
        Ok(())
    );
    let info = rt.assets.asset(0).unwrap();
    assert_eq!(info.issuer, 1);
    assert_eq!(info.asset_type, AssetType::Fiat);
}

#[test]
fn register_asset_non_operator_fails() {
    let mut rt = new_test_ext();
    let before = rt.clone();
    assert_eq!(
        AssetRegistry::register_asset(
            &mut rt,
            Origin::Signed(2),
            AssetType::Commodity,
            name("GOLD"),
            symbol("XAU"),
            0u8,
            rules("y")
        ),
        registry_err(Error::NotAnOperator)
    );
    assert_eq!(rt, before);
}

fn register_bond(rt: &mut Runtime) {
    registry_register_operator(rt, 1, b"Op");
    assert_eq!(
        AssetRegistry::register_asset(
            rt,
            Origin::Signed(1),
            AssetType::Security,
            name("BOND"),
            symbol("BND"),
            0u8,
            rules("z")
        ),
        Ok(())
    );
}

#[test]
fn update_supply_by_issuer() {
    let mut rt = new_test_ext();
    rt.set_block_number(1);
    register_bond(&mut rt);
    assert_eq!(AssetRegistry::update_supply(&mut rt, Origin::Signed(1), 0, 10_000), Ok(()));
    assert_eq!(rt.assets.asset(0).unwrap().total_supply, 10_000);
    assert_eq!(
        rt.last_event(),
        Some(&RuntimeEvent::AssetRegistry(Event::SupplyUpdated(0, 0, 10_000)))
    );
}

#[test]
fn update_supply_non_issuer_fails() {
    let mut rt = new_test_ext();
    register_bond(&mut rt);
    assert_eq!(
        AssetRegistry::update_supply(&mut rt, Origin::Signed(2), 0, 10_000),
        registry_err(Error::Unauthorized)
    );
}

#[test]
fn multiple_asset_types() {
    let mut rt = new_test_ext();
    registry_register_operator(&mut rt, 1, b"Op");
    assert_eq!(
        AssetRegistry::register_asset(
            &mut rt,
            Origin::Signed(1),
            AssetType::Fiat,
            name("EUR"),
            symbol("EUR"),
            2u8,
            rules("r")
        ),
        Ok(())
    );
    assert_eq!(
        AssetRegistry::register_asset(
            &mut rt,
            Origin::Signed(1),
            AssetType::Commodity,
            name("SILV"),
            symbol("XAG"),
            0u8,
            rules("s")
        ),
        Ok(())
    );
    let a0 = rt.assets.asset(0).unwrap();
    let a1 = rt.assets.asset(1).unwrap();
    assert_eq!(a0.asset_type, AssetType::Fiat);
    assert_eq!(a1.asset_type, AssetType::Commodity);
}

fn register_internal_ledger(rt: &mut Runtime) {
    registry_register_operator(rt, 1, b"Op");
    assert_eq!(
        AssetRegistry::register_asset(
            rt,
            Origin::Signed(1),
            AssetType::InternalLedger,
            name("IL"),
            symbol("IL"),
            0u8,
            rules("a")
        ),
        Ok(())
    );
}

#[test]
fn update_rules_by_issuer() {
    let mut rt = new_test_ext();
    register_internal_ledger(&mut rt);
    assert_eq!(AssetRegistry::update_rules(&mut rt, Origin::Signed(1), 0, rules("b")), Ok(()));
    assert_eq!(rt.assets.asset(0).unwrap().settlement_rules, rules("b"));
}

#[test]
fn update_rules_non_issuer_fails() {
    let mut rt = new_test_ext();
    register_internal_ledger(&mut rt);
    assert_eq!(
        AssetRegistry::update_rules(&mut rt, Origin::Signed(2), 0, rules("b")),
        registry_err(Error::Unauthorized)
    );
}

#[test]
fn operator_assets_tracking() {
    let mut rt = new_test_ext();
    registry_register_operator(&mut rt, 1, b"Op");
    assert_eq!(
        AssetRegistry::register_asset(
            &mut rt,
            Origin::Signed(1),
            AssetType::Fiat,
            name("USD"),
            symbol("USD"),
            2u8,
            rules("r")
        ),
        Ok(())
    );
    assert_eq!(
        AssetRegistry::register_asset(
            &mut rt,
            Origin::Signed(1),
            AssetType::Security,
            name("STK"),
            symbol("STK"),
            0u8,
            rules("s")
        ),
        Ok(())
    );
    assert!(rt.assets.is_issued_by(1, 0));
    assert!(rt.assets.is_issued_by(1, 1));
}

#[test]
fn next_asset_id_increments() {
    let mut rt = new_test_ext();
    registry_register_operator(&mut rt, 1, b"Op");
    assert_eq!(
        AssetRegistry::register_asset(
            &mut rt,
            Origin::Signed(1),
            AssetType::Fiat,
            name("USD"),
            symbol("USD"),
            2u8,
            rules("r")
        ),
        Ok(())
    );
    assert_eq!(rt.assets.next_asset_id(), 1);
    assert_eq!(
        AssetRegistry::register_asset(
            &mut rt,
            Origin::Signed(1),
            AssetType::Commodity,
            name("OIL"),
            symbol("OIL"),
            0u8,
            rules("s")
        ),
        Ok(())
    );
    assert_eq!(rt.assets.next_asset_id(), 2);
}

#[test]
fn asset_not_found_update_supply_fails() {
    let mut rt = new_test_ext();
    let before = rt.clone();
    assert_eq!(
        AssetRegistry::update_supply(&mut rt, Origin::Signed(1), 99, 1),
        registry_err(Error::AssetNotFound)
    );
    assert_eq!(rt, before);
}

#[test]
fn asset_not_found_update_rules_fails() {
    let mut rt = new_test_ext();
    let before = rt.clone();
    assert_eq!(
        AssetRegistry::update_rules(&mut rt, Origin::Signed(1), 99, rules("x")),
        registry_err(Error::AssetNotFound)
    );
    assert_eq!(rt, before);
}

#[test]
fn bounded_lengths() {
    let mut rt = new_test_ext();
    rt.set_block_number(1);
    registry_register_operator(&mut rt, 1, b"Op");
    let n = name(&String::from_utf8(vec![b'a'; 64]).unwrap());
    let s = symbol(&String::from_utf8(vec![b'b'; 12]).unwrap());
    let r = rules(&String::from_utf8(vec![b'c'; 256]).unwrap());
    assert_eq!(
        AssetRegistry::register_asset(
            &mut rt,
            Origin::Signed(1),
            AssetType::Fiat,
            n.clone(),
            s.clone(),
            6u8,
            r.clone()
        ),
        Ok(())
    );
    let info = rt.assets.asset(0).unwrap();
    assert_eq!(info.name.len(), 64);
    assert_eq!(info.symbol.len(), 12);
    assert_eq!(info.settlement_rules.len(), 256);
    assert_eq!(
        rt.last_event(),
        Some(&RuntimeEvent::AssetRegistry(Event::AssetRegistered(0, 1, n, s)))
    );
}

// Beyond the scenarios above.

#[test]
fn registry_lengths_over_the_bound_are_refused() {
    assert!(AssetName::try_from(vec![b'a'; 65]).is_err());
    assert!(AssetSymbol::try_from(vec![b'b'; 13]).is_err());
    assert!(SettlementRules::try_from(vec![b'c'; 257]).is_err());
}

#[test]
fn registry_new_asset_starts_empty_and_keeps_fields() {
    let mut rt = new_test_ext();
    registry_register_operator(&mut rt, 3, b"Op3");
    assert_eq!(
        AssetRegistry::register_asset(
            &mut rt,
            Origin::Signed(3),
            AssetType::Security,
            name("ACME"),
            symbol("ACM"),
            4u8,
            rules("t+2")
        ),
        Ok(())
    );
    let info = rt.assets.asset(0).unwrap();
    assert_eq!(info.total_supply, 0);
    assert_eq!(info.decimals, 4);
    assert_eq!(info.name, name("ACME"));
    assert_eq!(info.symbol, symbol("ACM"));
    assert!(rt.assets.is_issued_by(3, 0));
    assert!(!rt.assets.is_issued_by(1, 0));
    assert!(rt.assets.asset(1).is_none());
}

#[test]
fn registry_supply_update_reports_old_value() {
    let mut rt = new_test_ext();
    register_bond(&mut rt);
    assert_eq!(AssetRegistry::update_supply(&mut rt, Origin::Signed(1), 0, 500), Ok(()));
    assert_eq!(AssetRegistry::update_supply(&mut rt, Origin::Signed(1), 0, 200), Ok(()));
    assert_eq!(
        rt.last_event(),
        Some(&RuntimeEvent::AssetRegistry(Event::SupplyUpdated(0, 500, 200)))
    );
    assert_eq!(rt.assets.asset(0).unwrap().total_supply, 200);
}

#[test]
fn registry_root_origin_is_bad_origin() {
    let mut rt = new_test_ext();
    register_bond(&mut rt);
    assert_eq!(
        AssetRegistry::update_supply(&mut rt, Origin::Root, 0, 1),
        Err(DispatchError::BadOrigin)
    );
}
