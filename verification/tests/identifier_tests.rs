use yarp_meta::ids::UnitIdentifier;
use yarp_meta::registries::{IdRegistry, UnitRegistry};
use yarp_meta::units::YarpUnit;

#[test]
fn constant_derivation_is_deterministic() {
    let a = UnitIdentifier::new_custom("armor_shop".to_string());
    let b = UnitIdentifier::new_custom("armor_shop".to_string());
    assert_eq!(a.constant(), b.constant());
    assert_eq!(a.constant(), "ARMOR_SHOP");
}

#[test]
fn constant_derivation_handles_word_boundaries() {
    let a = UnitIdentifier::new_custom("camelCaseName".to_string());
    assert_eq!(a.constant(), "CAMEL_CASE_NAME");
    let b = UnitIdentifier::new_custom("with-dash and space".to_string());
    assert_eq!(b.constant(), "WITH_DASH_AND_SPACE");
}

#[test]
fn stock_constant_quotes_raw_code() {
    let s = UnitIdentifier::new_stock("hfoo".to_string());
    assert_eq!(s.constant(), "'hfoo'");
}

#[test]
fn variant_accessors() {
    let c = UnitIdentifier::new_custom("guard".to_string());
    let s = UnitIdentifier::new_stock("hkni".to_string());
    assert!(c.is_uid());
    assert!(!c.is_rawid());
    assert!(s.is_rawid());
    assert!(!s.is_uid());
    assert_eq!(c.uid(), "guard");
    assert_eq!(s.rawid(), "hkni");
}

#[test]
fn identifier_equality_is_structural() {
    let a = UnitIdentifier::new_custom("guard".to_string());
    let b = UnitIdentifier::new_custom("guard".to_string());
    let s = UnitIdentifier::new_stock("guard".to_string());
    assert_eq!(a, b);
    assert_ne!(a, s);
}

#[test]
fn id_registry_is_a_log_of_insertions() {
    let mut reg = IdRegistry::default();
    let a = reg.insert(UnitIdentifier::new_custom("guard".to_string()));
    let b = reg.insert(UnitIdentifier::new_custom("guard".to_string()));
    assert_eq!(a, b);
    let items = reg.items();
    assert_eq!(items.len(), 2);
    assert_eq!(items[0], a);
    assert_eq!(items[1], a);
}

#[test]
fn id_registry_returns_value_equal_copy() {
    let mut reg = IdRegistry::default();
    let id = UnitIdentifier::new_custom("armor_shop".to_string());
    let copy = reg.insert(id.clone());
    assert_eq!(copy, id);
}

#[test]
fn unit_registry_overwrites_in_place_and_keeps_order() {
    let mut reg = UnitRegistry::default();
    let a = UnitIdentifier::new_custom("alpha".to_string());
    let b = UnitIdentifier::new_custom("beta".to_string());
    reg.insert(YarpUnit::new_unit(
        a.clone(),
        "First".to_string(),
        "m1".to_string(),
        "i1".to_string(),
    ));
    reg.insert(YarpUnit::new_unit(
        b.clone(),
        "Second".to_string(),
        "m2".to_string(),
        "i2".to_string(),
    ));
    reg.insert(YarpUnit::new_unit(
        a.clone(),
        "Replacement".to_string(),
        "m3".to_string(),
        "i3".to_string(),
    ));
    let got = reg.get(&a);
    assert_eq!(got.model(), "m3");
    let values = reg.values();
    assert_eq!(values.len(), 2);
    assert_eq!(values[0].model(), "m3");
    assert_eq!(values[1].model(), "m2");
    assert_eq!(values[0].id(), &a);
    assert_eq!(values[1].id(), &b);
}

#[test]
fn unit_model_is_trimmed_at_construction() {
    let id = UnitIdentifier::new_custom("guard".to_string());
    let u = YarpUnit::new_unit(
        id,
        "Guard".to_string(),
        "  units\\Guard.mdl \t".to_string(),
        "icon".to_string(),
    );
    assert_eq!(u.model(), "units\\Guard.mdl");
}

#[test]
fn stock_unit_model_is_trimmed_at_construction() {
    let id = UnitIdentifier::new_stock("hfoo".to_string());
    let u = YarpUnit::new_stock(id.clone(), "  units\\Footman.mdl ".to_string());
    assert_eq!(u.model(), "units\\Footman.mdl");
    assert_eq!(u.id(), &id);
}
