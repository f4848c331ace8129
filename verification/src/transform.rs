//! The transformation engine: the depth-first walk that turns a source tree
//! into populated registries, registering every child before the parent that
//! references it.

use crate::ids::{IdView, UnitIdentifier, shouty_snake_of};
use crate::registries::{Registries, RegistriesView, empty_registries, entries_insert};
use crate::strutil::trim_of;
use crate::units::{UnitView, VariantView, YarpUnit, YarpUnitVariant, ids_view};
use crate::yarp_data::{
    DataShopView, DataUnitView, DataVariantView, DataView, YarpData, YarpDataShop, YarpDataUnit,
    YarpDataUnitVariant, data_unit_view, data_units_view, data_variant_view,
    lemma_data_units_view,
};
use vstd::prelude::*;

verus! {

/// The identifier arena cannot hold more entries than this; one more
/// insertion would fault inside the arena.
pub open spec fn id_capacity() -> int {
    0xffff_fffe
}

/// How many identifier insertions transforming one node performs.
pub open spec fn unit_id_count(u: DataUnitView) -> nat
    decreases u,
{
    match u {
        DataUnitView::Custom { variant, .. } => 1 + variant_id_count(variant),
        DataUnitView::Stock { .. } => 1,
    }
}

/// How many identifier insertions transforming a node's variant performs.
pub open spec fn variant_id_count(v: DataVariantView) -> nat
    decreases v,
{
    match v {
        DataVariantView::Builder { built } => units_id_count(built),
        _ => 0,
    }
}

/// How many identifier insertions transforming a list of nodes performs.
pub open spec fn units_id_count(us: Seq<DataUnitView>) -> nat
    decreases us,
{
    if us.len() == 0 {
        0
    } else {
        unit_id_count(us[0]) + units_id_count(us.drop_first())
    }
}

/// How many identifier insertions transforming one shop performs.
pub open spec fn shop_id_count(s: DataShopView) -> nat {
    units_id_count(s.sold) + 1
}

/// How many identifier insertions transforming a list of shops performs.
pub open spec fn shops_id_count(ss: Seq<DataShopView>) -> nat
    decreases ss,
{
    if ss.len() == 0 {
        0
    } else {
        shop_id_count(ss[0]) + shops_id_count(ss.drop_first())
    }
}

/// How many identifier insertions transforming all shop groupings performs.
pub open spec fn groups_id_count(gs: Seq<Seq<DataShopView>>) -> nat
    decreases gs,
{
    if gs.len() == 0 {
        0
    } else {
        shops_id_count(gs[0]) + groups_id_count(gs.drop_first())
    }
}

/// How many identifier insertions one whole transformation pass performs.
pub open spec fn data_id_count(d: DataView) -> nat {
    groups_id_count(d.groups) + d.stock_models.len()
}

/// The registries after transforming one node, and the identifier the node
/// was registered under: children first, then the node's own identifier,
/// then its record.
pub open spec fn transform_unit_spec(u: DataUnitView, r: RegistriesView) -> (RegistriesView, IdView)
    decreases u,
{
    match u {
        DataUnitView::Custom { uid, name, model, icon, variant } => {
            let (r1, vv) = transform_variant_spec(variant, r);
            let idv = IdView::Uid { uid: uid, constant_name: shouty_snake_of(uid) };
            let unit = UnitView::Custom {
                id: idv,
                variant: vv,
                name: name,
                model: trim_of(model),
                icon: icon,
            };
            (
                RegistriesView {
                    ids: r1.ids.push(idv),
                    units: entries_insert(r1.units, idv, unit),
                    models: r1.models,
                },
                idv,
            )
        },
        DataUnitView::Stock { rawid, model } => {
            let idv = IdView::Raw { rawid: rawid };
            let unit = UnitView::Stock { id: idv, model: trim_of(model) };
            (
                RegistriesView {
                    ids: r.ids.push(idv),
                    units: entries_insert(r.units, idv, unit),
                    models: r.models,
                },
                idv,
            )
        },
    }
}

/// The registries after transforming a node's declared kind, and the
/// resulting record variant.
pub open spec fn transform_variant_spec(v: DataVariantView, r: RegistriesView) -> (
    RegistriesView,
    VariantView,
)
    decreases v,
{
    match v {
        DataVariantView::Unit => (r, VariantView::Unit),
        DataVariantView::Building => (r, VariantView::Building),
        DataVariantView::Builder { built } => {
            let (r1, ids) = transform_units_spec(built, r);
            (r1, VariantView::Builder { built_ids: ids })
        },
    }
}

/// The registries after transforming a list of nodes in order, and the
/// identifiers they were registered under, in the same order.
pub open spec fn transform_units_spec(us: Seq<DataUnitView>, r: RegistriesView) -> (
    RegistriesView,
    Seq<IdView>,
)
    decreases us,
{
    if us.len() == 0 {
        (r, Seq::empty())
    } else {
        let (r1, id0) = transform_unit_spec(us[0], r);
        let (r2, rest) = transform_units_spec(us.drop_first(), r1);
        (r2, seq![id0] + rest)
    }
}

/// The registries after transforming one shop: its sold nodes first, then
/// the shop's own identifier and record.
pub open spec fn transform_shop_spec(s: DataShopView, r: RegistriesView) -> RegistriesView {
    let (r1, sold_ids) = transform_units_spec(s.sold, r);
    let idv = IdView::Uid { uid: s.uid, constant_name: shouty_snake_of(s.uid) };
    let unit = UnitView::Custom {
        id: idv,
        variant: VariantView::UnitShop { sold_ids: sold_ids, scale: s.scale },
        name: s.name,
        model: trim_of(s.model),
        icon: Seq::empty(),
    };
    RegistriesView {
        ids: r1.ids.push(idv),
        units: entries_insert(r1.units, idv, unit),
        models: r1.models,
    }
}

/// The registries after transforming a list of shops in order.
pub open spec fn transform_shops_spec(ss: Seq<DataShopView>, r: RegistriesView) -> RegistriesView
    decreases ss,
{
    if ss.len() == 0 {
        r
    } else {
        transform_shops_spec(ss.drop_first(), transform_shop_spec(ss[0], r))
    }
}

/// The registries after transforming every shop grouping in order.
pub open spec fn transform_groups_spec(gs: Seq<Seq<DataShopView>>, r: RegistriesView) -> RegistriesView
    decreases gs,
{
    if gs.len() == 0 {
        r
    } else {
        transform_groups_spec(gs.drop_first(), transform_shops_spec(gs[0], r))
    }
}

/// The registries after registering every stock-model entry in order: each
/// entry adds a stock identifier and a model-path mapping.
pub open spec fn transform_models_spec(ms: Seq<(Seq<char>, Seq<char>)>, r: RegistriesView) -> RegistriesView
    decreases ms,
{
    if ms.len() == 0 {
        r
    } else {
        let idv = IdView::Raw { rawid: ms[0].0 };
        transform_models_spec(
            ms.drop_first(),
            RegistriesView {
                ids: r.ids.push(idv),
                units: r.units,
                models: entries_insert(r.models, idv, ms[0].1),
            },
        )
    }
}

/// One whole transformation pass over a source tree, starting from empty
/// registries: all shop groupings first, then the stock-model table.
pub open spec fn transform_spec(d: DataView) -> RegistriesView {
    transform_models_spec(d.stock_models, transform_groups_spec(d.groups, empty_registries()))
}

/// Transforming a node grows the identifier arena by exactly its insertion
/// count and never touches the model-path registry.
pub proof fn lemma_transform_unit_count(u: DataUnitView, r: RegistriesView)
    ensures
        transform_unit_spec(u, r).0.ids.len() == r.ids.len() + unit_id_count(u),
        transform_unit_spec(u, r).0.models == r.models,
    decreases u,
{
    match u {
        DataUnitView::Custom { variant, .. } => {
            lemma_transform_variant_count(variant, r);
        },
        DataUnitView::Stock { .. } => {},
    }
}

/// Transforming a node's kind grows the identifier arena by exactly its
/// insertion count and never touches the model-path registry.
pub proof fn lemma_transform_variant_count(v: DataVariantView, r: RegistriesView)
    ensures
        transform_variant_spec(v, r).0.ids.len() == r.ids.len() + variant_id_count(v),
        transform_variant_spec(v, r).0.models == r.models,
    decreases v,
{
    match v {
        DataVariantView::Builder { built } => {
            lemma_transform_units_count(built, r);
        },
        _ => {},
    }
}

/// Transforming a list of nodes grows the identifier arena by exactly its
/// insertion count and never touches the model-path registry.
pub proof fn lemma_transform_units_count(us: Seq<DataUnitView>, r: RegistriesView)
    ensures
        transform_units_spec(us, r).0.ids.len() == r.ids.len() + units_id_count(us),
        transform_units_spec(us, r).0.models == r.models,
    decreases us,
{
    if us.len() > 0 {
        lemma_transform_unit_count(us[0], r);
        lemma_transform_units_count(us.drop_first(), transform_unit_spec(us[0], r).0);
    }
}

/// Transforming a list of shops grows the identifier arena by exactly its
/// insertion count and never touches the model-path registry.
pub proof fn lemma_transform_shops_count(ss: Seq<DataShopView>, r: RegistriesView)
    ensures
        transform_shops_spec(ss, r).ids.len() == r.ids.len() + shops_id_count(ss),
        transform_shops_spec(ss, r).models == r.models,
    decreases ss,
{
    if ss.len() > 0 {
        lemma_transform_units_count(ss[0].sold, r);
        lemma_transform_shops_count(ss.drop_first(), transform_shop_spec(ss[0], r));
    }
}

/// Transforming all groupings grows the identifier arena by exactly their
/// insertion count and never touches the model-path registry.
pub proof fn lemma_transform_groups_count(gs: Seq<Seq<DataShopView>>, r: RegistriesView)
    ensures
        transform_groups_spec(gs, r).ids.len() == r.ids.len() + groups_id_count(gs),
        transform_groups_spec(gs, r).models == r.models,
    decreases gs,
{
    if gs.len() > 0 {
        lemma_transform_shops_count(gs[0], r);
        lemma_transform_groups_count(gs.drop_first(), transform_shops_spec(gs[0], r));
    }
}

/// Transforms a list of sibling nodes in order, collecting their
/// identifiers.
fn transform_unit_list(units: &Vec<YarpDataUnit>, registries: &mut Registries) -> (r: Vec<
    UnitIdentifier,
>)
    requires
        old(registries)@.ids.len() + units_id_count(data_units_view(units@)) <= id_capacity(),
    ensures
        final(registries)@ == transform_units_spec(data_units_view(units@), old(registries)@).0,
        ids_view(r@) == transform_units_spec(data_units_view(units@), old(registries)@).1,
    decreases units@,
{
    proof {
        lemma_data_units_view(units@);
    }
    let ghost all = data_units_view(units@);
    let ghost whole = transform_units_spec(all, old(registries)@);
    let mut out: Vec<UnitIdentifier> = Vec::new();
    let mut i: usize = 0;
    proof {
        assert(all.skip(0) =~= all);
        assert(ids_view(out@) =~= Seq::<IdView>::empty());
    }
    while i < units.len()
        invariant
            0 <= i <= units.len(),
            all == data_units_view(units@),
            all.len() == units@.len(),
            forall|j: int| 0 <= j < units@.len() ==> all[j] == data_unit_view(units@[j]),
            whole == transform_units_spec(all, old(registries)@),
            transform_units_spec(all.skip(i as int), registries@).0 == whole.0,
            ids_view(out@) + transform_units_spec(all.skip(i as int), registries@).1 == whole.1,
            registries@.ids.len() + units_id_count(all.skip(i as int)) <= id_capacity(),
        decreases units@.len() - i,
    {
        let ghost rem = all.skip(i as int);
        let ghost cur = registries@;
        proof {
            assert(rem.len() == all.len() - i);
            assert(rem[0] == all[i as int]);
            assert(rem.drop_first() =~= all.skip(i as int + 1));
            assert(units_id_count(rem) == unit_id_count(rem[0]) + units_id_count(
                rem.drop_first(),
            ));
        }
        let id = transform_yarp_data_unit(&units[i], registries);
        proof {
            let p1 = transform_unit_spec(all[i as int], cur);
            assert(registries@ == p1.0 && id@ == p1.1);
            let prest = transform_units_spec(all.skip(i as int + 1), registries@);
            assert(transform_units_spec(rem, cur).0 == prest.0);
            assert(transform_units_spec(rem, cur).1 == seq![p1.1] + prest.1);
            assert(ids_view(out@.push(id)) =~= ids_view(out@).push(id@));
            assert(ids_view(out@) + (seq![p1.1] + prest.1) =~= ids_view(out@).push(id@)
                + prest.1);
            lemma_transform_unit_count(all[i as int], cur);
        }
        out.push(id);
        i = i + 1;
    }
    proof {
        assert(all.skip(units@.len() as int) =~= Seq::<DataUnitView>::empty());
        assert(ids_view(out@) + Seq::<IdView>::empty() =~= ids_view(out@));
    }
    out
}

/// Transforms one entity node depth first: a builder's built children are
/// registered before the builder itself, so the parent record can reference
/// them; the node's identifier is registered next, then its record; the
/// identifier is returned so a parent can reference the node.
pub fn transform_yarp_data_unit(unit: &YarpDataUnit, registries: &mut Registries) -> (r:
    UnitIdentifier)
    requires
        old(registries)@.ids.len() + unit_id_count(data_unit_view(*unit)) <= id_capacity(),
    ensures
        final(registries)@ == transform_unit_spec(data_unit_view(*unit), old(registries)@).0,
        r@ == transform_unit_spec(data_unit_view(*unit), old(registries)@).1,
    decreases *unit,
{
    match unit {
        YarpDataUnit::Custom(custom_unit) => {
            let variant: YarpUnitVariant = match &custom_unit.variant {
                YarpDataUnitVariant::Unit => YarpUnitVariant::Unit,
                YarpDataUnitVariant::Building => YarpUnitVariant::Building,
                YarpDataUnitVariant::Builder { built } => {
                    let built_ids = transform_unit_list(built, registries);
                    YarpUnitVariant::Builder { built_ids }
                },
            };
            proof {
                lemma_transform_variant_count(
                    data_variant_view(custom_unit.variant),
                    old(registries)@,
                );
            }
            let id = registries.id.insert(UnitIdentifier::new_custom(custom_unit.uid.clone()));
            let record = YarpUnit::new_with_variant(
                id.clone(),
                custom_unit.name.clone(),
                custom_unit.model.clone(),
                custom_unit.icon.clone(),
                variant,
            );
            registries.unit.insert(record);
            id
        },
        YarpDataUnit::Stock(stock_unit) => {
            let id = registries.id.insert(UnitIdentifier::new_stock(stock_unit.rawid.clone()));
            let record = YarpUnit::new_stock(id.clone(), stock_unit.model.clone());
            registries.unit.insert(record);
            id
        },
    }
}

/// Transforms one shop: its sold nodes in source order, then the shop's own
/// identifier and its record.
fn transform_shop(shop: &YarpDataShop, registries: &mut Registries)
    requires
        old(registries)@.ids.len() + shop_id_count(shop@) <= id_capacity(),
    ensures
        final(registries)@ == transform_shop_spec(shop@, old(registries)@),
{
    let sold_ids = transform_unit_list(&shop.sold, registries);
    proof {
        lemma_transform_units_count(shop@.sold, old(registries)@);
    }
    let id = registries.id.insert(UnitIdentifier::new_custom(shop.uid.clone()));
    let record = YarpUnit::new_shop(id, shop.name.clone(), shop.model.clone(), sold_ids, shop.scale);
    registries.unit.insert(record);
}

/// One whole transformation pass: walks every shop grouping in order,
/// transforming each shop's sold entities before the shop itself, then
/// registers every stock-model entry; returns the populated registries.
pub fn transform_yarp_data(data: &YarpData) -> (r: Registries)
    requires
        data_id_count(data@) <= id_capacity(),
    ensures
        r@ == transform_spec(data@),
{
    let ghost gs = data@.groups;
    let ghost ms = data@.stock_models;
    let mut registries = Registries::default();
    let ghost after_groups = transform_groups_spec(gs, empty_registries());
    let mut gi: usize = 0;
    proof {
        assert(gs.skip(0) =~= gs);
    }
    while gi < data.shops.len()
        invariant
            0 <= gi <= data.shops.len(),
            gs == data@.groups,
            ms == data@.stock_models,
            gs.len() == data.shops@.len(),
            after_groups == transform_groups_spec(gs, empty_registries()),
            transform_groups_spec(gs.skip(gi as int), registries@) == after_groups,
            registries@.ids.len() + groups_id_count(gs.skip(gi as int)) + ms.len()
                <= id_capacity(),
        decreases data.shops@.len() - gi,
    {
        let ghost grem = gs.skip(gi as int);
        proof {
            assert(grem[0] == gs[gi as int]);
            assert(gs[gi as int] == data.shops@[gi as int]@);
            assert(grem.drop_first() =~= gs.skip(gi as int + 1));
        }
        let group = &data.shops[gi];
        let ghost ss = group@;
        let ghost cur0 = registries@;
        let ghost after_shops = transform_shops_spec(ss, cur0);
        let mut si: usize = 0;
        proof {
            assert(ss.skip(0) =~= ss);
        }
        while si < group.shops.len()
            invariant
                0 <= si <= group.shops.len(),
                ss == group@,
                ss.len() == group.shops@.len(),
                forall|j: int| 0 <= j < ss.len() ==> ss[j] == group.shops@[j]@,
                after_shops == transform_shops_spec(ss, cur0),
                transform_shops_spec(ss.skip(si as int), registries@) == after_shops,
                registries@.ids.len() + shops_id_count(ss.skip(si as int)) <= id_capacity(),
            decreases group.shops@.len() - si,
        {
            let ghost srem = ss.skip(si as int);
            let ghost cur = registries@;
            proof {
                assert(srem[0] == ss[si as int]);
                assert(srem.drop_first() =~= ss.skip(si as int + 1));
            }
            let shop = &group.shops[si];
            transform_shop(shop, &mut registries);
            proof {
                lemma_transform_units_count(ss[si as int].sold, cur);
            }
            si = si + 1;
        }
        proof {
            assert(ss.skip(group.shops@.len() as int) =~= Seq::<DataShopView>::empty());
            lemma_transform_shops_count(ss, cur0);
            lemma_transform_groups_count(gs.skip(gi as int + 1), registries@);
        }
        gi = gi + 1;
    }
    proof {
        assert(gs.skip(data.shops@.len() as int) =~= Seq::<Seq<DataShopView>>::empty());
        assert(ms.skip(0) =~= ms);
    }
    let ghost after_models = transform_models_spec(ms, registries@);
    let ghost reg_after_groups = registries@;
    let mut mi: usize = 0;
    while mi < data.stock_model_registry.len()
        invariant
            0 <= mi <= data.stock_model_registry.len(),
            ms == data@.stock_models,
            ms.len() == data.stock_model_registry@.len(),
            forall|j: int|
                0 <= j < ms.len() ==> ms[j] == (
                    data.stock_model_registry@[j].rawid@,
                    data.stock_model_registry@[j].model@,
                ),
            after_models == transform_models_spec(ms.skip(mi as int), registries@),
            registries@.ids.len() + (ms.len() - mi) <= id_capacity(),
        decreases data.stock_model_registry@.len() - mi,
    {
        let ghost mrem = ms.skip(mi as int);
        proof {
            assert(mrem[0] == ms[mi as int]);
            assert(mrem.drop_first() =~= ms.skip(mi as int + 1));
        }
        let entry = &data.stock_model_registry[mi];
        let id = registries.id.insert(UnitIdentifier::new_stock(entry.rawid.clone()));
        registries.model.insert(&id, entry.model.clone());
        mi = mi + 1;
    }
    proof {
        assert(ms.skip(data.stock_model_registry@.len() as int) =~= Seq::<
            (Seq<char>, Seq<char>),
        >::empty());
    }
    registries
}

} // verus!
