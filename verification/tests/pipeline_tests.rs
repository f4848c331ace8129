use yarp_meta::context::liquid_context;
use yarp_meta::ids::UnitIdentifier;
use yarp_meta::transform::{transform_yarp_data, transform_yarp_data_unit};
use yarp_meta::registries::Registries;
use yarp_meta::units::YarpUnit;
use yarp_meta::yarp_data::{
    YarpData, YarpDataCustomUnit, YarpDataShop, YarpDataShopGroup, YarpDataStockUnit,
    YarpDataUnit, YarpDataUnitVariant, YarpStockModel,
};

fn custom_unit(uid: &str, name: &str, model: &str, icon: &str) -> YarpDataUnit {
    YarpDataUnit::Custom(YarpDataCustomUnit {
        uid: uid.to_string(),
        name: name.to_string(),
        model: model.to_string(),
        icon: icon.to_string(),
        variant: YarpDataUnitVariant::Unit,
    })
}

fn stock_unit(rawid: &str, model: &str) -> YarpDataUnit {
    YarpDataUnit::Stock(YarpDataStockUnit {
        rawid: rawid.to_string(),
        model: model.to_string(),
    })
}

#[test]
fn builder_projects_joined_built_string() {
    let a = UnitIdentifier::new_custom("foot_soldier".to_string());
    let b = UnitIdentifier::new_custom("archer".to_string());
    let builder = YarpUnit::new_builder(
        UnitIdentifier::new_custom("worker".to_string()),
        "Worker".to_string(),
        "m".to_string(),
        "i".to_string(),
        vec![a, b],
    );
    let entry = builder.liquid_value().unwrap();
    assert_eq!(
        entry.built.as_deref(),
        Some("FOOT_SOLDIER.toRawCode() + \",\" + ARCHER.toRawCode()")
    );
    assert_eq!(entry.sold, None);
    assert_eq!(entry.constant, "WORKER");
}

#[test]
fn builder_with_no_built_projects_empty_string() {
    let builder = YarpUnit::new_builder(
        UnitIdentifier::new_custom("worker".to_string()),
        "Worker".to_string(),
        "m".to_string(),
        "i".to_string(),
        Vec::new(),
    );
    let entry = builder.liquid_value().unwrap();
    assert_eq!(entry.built.as_deref(), Some(""));
}

#[test]
fn shop_projects_joined_sold_string_with_quoted_stock() {
    let s = UnitIdentifier::new_stock("hfoo".to_string());
    let c = UnitIdentifier::new_custom("custom_guard".to_string());
    let shop = YarpUnit::new_shop(
        UnitIdentifier::new_custom("armor_shop".to_string()),
        "Armor Shop".to_string(),
        "m".to_string(),
        vec![s, c],
        1.5f32.to_bits(),
    );
    let entry = shop.liquid_value().unwrap();
    assert_eq!(
        entry.sold.as_deref(),
        Some("\"hfoo\" + \",\" + CUSTOM_GUARD.toRawCode()")
    );
    assert_eq!(entry.built, None);
    assert_eq!(entry.icon, "");
}

#[test]
fn stock_record_projects_nothing() {
    let u = YarpUnit::new_stock(
        UnitIdentifier::new_stock("hfoo".to_string()),
        "m".to_string(),
    );
    assert!(u.liquid_value().is_none());
}

#[test]
fn example_scenario_armor_shop() {
    let data = YarpData {
        shops: vec![YarpDataShopGroup {
            name: "shops".to_string(),
            shops: vec![YarpDataShop {
                uid: "armor_shop".to_string(),
                name: "Armor Shop".to_string(),
                model: "buildings\\Shop.mdl".to_string(),
                scale: 1.5f32.to_bits(),
                sold: vec![
                    stock_unit("hfoo", "units\\Footman.mdl"),
                    custom_unit("custom_guard", "Guard", "units\\Guard.mdl", "icon"),
                ],
            }],
        }],
        stock_model_registry: Vec::new(),
    };
    let registries = transform_yarp_data(&data);
    let context = liquid_context(&registries);

    assert_eq!(context.shops.len(), 1);
    assert_eq!(
        context.shops[0].sold.as_deref(),
        Some("\"hfoo\" + \",\" + CUSTOM_GUARD.toRawCode()")
    );
    assert_eq!(context.shops[0].constant, "ARMOR_SHOP");
    assert_eq!(context.units.len(), 1);
    assert_eq!(context.units[0].constant, "CUSTOM_GUARD");
    assert_eq!(context.buildings.len(), 0);
    assert_eq!(context.builders.len(), 0);
    assert_eq!(context.uids.len(), 2);
    assert_eq!(context.uids[0].constant, "CUSTOM_GUARD");
    assert_eq!(context.uids[0].uid, "custom_guard");
    assert_eq!(context.uids[1].constant, "ARMOR_SHOP");
    assert_eq!(context.uids[1].uid, "armor_shop");
    assert_eq!(context.models.len(), 0);
}

#[test]
fn round_trip_shop_selling_builder_building_stock() {
    let builder = YarpDataUnit::Custom(YarpDataCustomUnit {
        uid: "siege_builder".to_string(),
        name: "Siege Builder".to_string(),
        model: "units\\Builder.mdl".to_string(),
        icon: "icon".to_string(),
        variant: YarpDataUnitVariant::Builder {
            built: vec![stock_unit("hcat", "units\\Catapult.mdl")],
        },
    });
    let data = YarpData {
        shops: vec![YarpDataShopGroup {
            name: "war".to_string(),
            shops: vec![YarpDataShop {
                uid: "war_shop".to_string(),
                name: "War Shop".to_string(),
                model: "buildings\\War.mdl".to_string(),
                scale: 1.0f32.to_bits(),
                sold: vec![builder],
            }],
        }],
        stock_model_registry: Vec::new(),
    };
    let registries = transform_yarp_data(&data);
    let context = liquid_context(&registries);

    assert_eq!(context.shops.len(), 1);
    assert_eq!(context.builders.len(), 1);
    assert_eq!(context.units.len(), 0);
    assert_eq!(context.buildings.len(), 0);
    assert_eq!(
        context.builders[0].built.as_deref(),
        Some("'hcat'.toRawCode()")
    );
    assert_eq!(
        context.shops[0].sold.as_deref(),
        Some("SIEGE_BUILDER.toRawCode()")
    );
    // The stock unit is registered in the identifier arena but in no list.
    let ids = registries.id.items();
    assert_eq!(ids.len(), 3);
    assert!(ids[0].is_rawid());
    assert_eq!(ids[0].rawid(), "hcat");
    assert_eq!(ids[1].uid(), "siege_builder");
    assert_eq!(ids[2].uid(), "war_shop");
    assert_eq!(context.uids.len(), 2);
}

#[test]
fn uids_list_skips_stock_identifiers() {
    let data = YarpData {
        shops: Vec::new(),
        stock_model_registry: vec![
            YarpStockModel {
                rawid: "hfoo".to_string(),
                model: "units\\Footman.mdl".to_string(),
            },
            YarpStockModel {
                rawid: "hkni".to_string(),
                model: "units\\Knight.mdl".to_string(),
            },
        ],
    };
    let registries = transform_yarp_data(&data);
    let context = liquid_context(&registries);
    assert_eq!(context.uids.len(), 0);
    assert_eq!(registries.id.items().len(), 2);
}

#[test]
fn models_list_has_one_entry_per_table_pair() {
    let data = YarpData {
        shops: vec![YarpDataShopGroup {
            name: "g".to_string(),
            shops: vec![YarpDataShop {
                uid: "shop".to_string(),
                name: "Shop".to_string(),
                model: "m".to_string(),
                scale: 1.0f32.to_bits(),
                // "hfoo" also appears as a unit reference; the models list
                // depends on the table alone.
                sold: vec![stock_unit("hfoo", "units\\Footman.mdl")],
            }],
        }],
        stock_model_registry: vec![
            YarpStockModel {
                rawid: "hfoo".to_string(),
                model: "units\\Footman.mdl".to_string(),
            },
            YarpStockModel {
                rawid: "hkni".to_string(),
                model: "units\\Knight.mdl".to_string(),
            },
        ],
    };
    let registries = transform_yarp_data(&data);
    let context = liquid_context(&registries);
    assert_eq!(context.models.len(), 2);
    assert_eq!(context.models[0].constant, "'hfoo'");
    assert_eq!(context.models[0].path, "units\\Footman.mdl");
    assert_eq!(context.models[1].constant, "'hkni'");
    assert_eq!(context.models[1].path, "units\\Knight.mdl");
}

#[test]
fn empty_source_tree_projects_empty_context() {
    let data = YarpData { shops: Vec::new(), stock_model_registry: Vec::new() };
    let registries = transform_yarp_data(&data);
    let context = liquid_context(&registries);
    assert_eq!(context.units.len(), 0);
    assert_eq!(context.buildings.len(), 0);
    assert_eq!(context.shops.len(), 0);
    assert_eq!(context.builders.len(), 0);
    assert_eq!(context.uids.len(), 0);
    assert_eq!(context.models.len(), 0);
}

#[test]
fn transform_unit_registers_building_kind() {
    let node = YarpDataUnit::Custom(YarpDataCustomUnit {
        uid: "town_hall".to_string(),
        name: "Town Hall".to_string(),
        model: " buildings\\Hall.mdl ".to_string(),
        icon: "icon".to_string(),
        variant: YarpDataUnitVariant::Building,
    });
    let mut registries = Registries::default();
    let id = transform_yarp_data_unit(&node, &mut registries);
    assert_eq!(id.constant(), "TOWN_HALL");
    let record = registries.unit.get(&id);
    assert_eq!(record.model(), "buildings\\Hall.mdl");
    let context = liquid_context(&registries);
    assert_eq!(context.buildings.len(), 1);
    assert_eq!(context.buildings[0].name, "Town Hall");
    assert_eq!(context.units.len(), 0);
}
