//! Laws relating the transformation engine and the context projector:
//! what the projected reference strings look like, what one pass registers,
//! and how the `uids` and `models` lists mirror the registries.

use crate::context::{
    EntryView, context_after_unit, context_after_units, empty_context, join_seqs,
    models_entries, project_spec, render_built_ref, render_sold_ref, sep_view, uids_entries,
    unit_entry_view,
};
use crate::ids::{IdView, constant_of, id_wf, shouty_snake_of};
use crate::registries::{RegistriesView, empty_registries, entries_insert, has_key};
use crate::transform::{
    transform_groups_spec, transform_models_spec, transform_shop_spec, transform_shops_spec,
    transform_spec, transform_unit_spec, transform_units_spec, transform_variant_spec,
};
use crate::units::{UnitView, VariantView};
use crate::yarp_data::{DataShopView, DataUnitView, DataVariantView, DataView};
use vstd::prelude::*;

verus! {

/// A builder that holds exactly the references `a` then `b` projects to an
/// entry whose `built` string is `a`'s rendering, the separator, then `b`'s
/// rendering; a builder that holds no reference projects the empty string.
pub proof fn lemma_builder_built_strings(
    id: IdView,
    name: Seq<char>,
    model: Seq<char>,
    icon: Seq<char>,
    a: IdView,
    b: IdView,
)
    ensures
        unit_entry_view(
            UnitView::Custom {
                id,
                variant: VariantView::Builder { built_ids: seq![a, b] },
                name,
                model,
                icon,
            },
        ) == Some(
            (EntryView {
                constant: constant_of(id),
                model,
                name,
                icon,
                built: Some(render_built_ref(a) + sep_view() + render_built_ref(b)),
                sold: None,
            }),
        ),
        unit_entry_view(
            UnitView::Custom {
                id,
                variant: VariantView::Builder { built_ids: Seq::empty() },
                name,
                model,
                icon,
            },
        ) == Some(
            (EntryView {
                constant: constant_of(id),
                model,
                name,
                icon,
                built: Some(Seq::<char>::empty()),
                sold: None,
            }),
        ),
{
    reveal_with_fuel(join_seqs, 3);
    let parts = seq![a, b].map_values(|x: IdView| render_built_ref(x));
    assert(parts.len() == 2);
    assert(parts[0] == render_built_ref(a));
    assert(parts.drop_first() =~= seq![render_built_ref(b)]);
    assert(join_seqs(parts.drop_first(), sep_view()) == render_built_ref(b));
    assert(join_seqs(parts, sep_view()) == render_built_ref(a) + sep_view() + render_built_ref(
        b,
    ));
    let none = Seq::<IdView>::empty().map_values(|x: IdView| render_built_ref(x));
    assert(none.len() == 0);
}

/// A shop that sells exactly a stock reference `s` then a custom reference
/// `c` projects to an entry whose `sold` string is the double-quoted raw
/// code, the separator, then the custom constant's raw-code conversion.
pub proof fn lemma_shop_sold_strings(
    id: IdView,
    name: Seq<char>,
    model: Seq<char>,
    icon: Seq<char>,
    scale: u32,
    s: IdView,
    c: IdView,
)
    requires
        s is Raw,
        c is Uid,
    ensures
        unit_entry_view(
            UnitView::Custom {
                id,
                variant: VariantView::UnitShop { sold_ids: seq![s, c], scale },
                name,
                model,
                icon,
            },
        ) == Some(
            (EntryView {
                constant: constant_of(id),
                model,
                name,
                icon,
                built: None,
                sold: Some(
                    seq!['"'] + s->Raw_rawid + seq!['"'] + sep_view() + constant_of(c)
                        + (".toRawCode()")@,
                ),
            }),
        ),
{
    reveal_with_fuel(join_seqs, 3);
    let parts = seq![s, c].map_values(|x: IdView| render_sold_ref(x));
    assert(parts.len() == 2);
    assert(parts[0] == render_sold_ref(s));
    assert(parts.drop_first() =~= seq![render_sold_ref(c)]);
    assert(join_seqs(parts.drop_first(), sep_view()) == render_sold_ref(c));
    assert(join_seqs(parts, sep_view()) == render_sold_ref(s) + sep_view() + render_sold_ref(c));
    assert(render_sold_ref(s) + sep_view() + render_sold_ref(c) =~= seq!['"'] + s->Raw_rawid
        + seq!['"'] + sep_view() + constant_of(c) + (".toRawCode()")@);
}

/// How many identifiers of a sequence are custom.
pub open spec fn count_uids(ids: Seq<IdView>) -> nat
    decreases ids,
{
    if ids.len() == 0 {
        0
    } else {
        (if ids[0] is Uid {
            1nat
        } else {
            0nat
        }) + count_uids(ids.drop_first())
    }
}

/// The `uids` list holds exactly one entry per custom identifier insertion
/// and none for stock insertions.
pub proof fn lemma_uids_entries_count(ids: Seq<IdView>)
    ensures
        uids_entries(ids).len() == count_uids(ids),
    decreases ids,
{
    if ids.len() > 0 {
        lemma_uids_entries_count(ids.drop_first());
    }
}

/// When every inserted identifier is well formed, every `uids` entry pairs
/// the derived constant name with the uid it was derived from.
pub proof fn lemma_uids_entries_matching(ids: Seq<IdView>)
    requires
        forall|i: int| 0 <= i < ids.len() ==> id_wf(#[trigger] ids[i]),
    ensures
        forall|i: int|
            0 <= i < uids_entries(ids).len() ==> #[trigger] uids_entries(ids)[i].0
                == shouty_snake_of(uids_entries(ids)[i].1),
    decreases ids,
{
    if ids.len() > 0 {
        assert(id_wf(ids[0]));
        assert(forall|i: int|
            0 <= i < ids.drop_first().len() ==> id_wf(#[trigger] ids.drop_first()[i]));
        lemma_uids_entries_matching(ids.drop_first());
        let rest = uids_entries(ids.drop_first());
        let e = uids_entries(ids);
        match ids[0] {
            IdView::Uid { uid, constant_name } => {
                assert(e == seq![(constant_name, uid)] + rest);
                assert forall|i: int| 0 <= i < e.len() implies #[trigger] e[i].0
                    == shouty_snake_of(e[i].1) by {
                    if i == 0 {
                        assert(e[0] == (constant_name, uid));
                        assert(constant_name == shouty_snake_of(uid));
                    } else {
                        assert(e[i] == rest[i - 1]);
                    }
                }
            },
            IdView::Raw { .. } => {
                assert(e == rest);
                assert forall|i: int| 0 <= i < e.len() implies #[trigger] e[i].0
                    == shouty_snake_of(e[i].1) by {
                    assert(e[i] == rest[i]);
                }
            },
        }
    }
}

/// The projected `models` list pairs each stored identifier's constant with
/// its path, entry for entry and in registry order.
pub proof fn lemma_models_entries_pointwise(ms: Seq<(IdView, Seq<char>)>)
    ensures
        models_entries(ms).len() == ms.len(),
        forall|i: int|
            0 <= i < ms.len() ==> #[trigger] models_entries(ms)[i] == (
                constant_of(ms[i].0),
                ms[i].1,
            ),
    decreases ms,
{
    if ms.len() > 0 {
        lemma_models_entries_pointwise(ms.drop_first());
    }
}

/// Registering a stock-model table with pairwise-distinct raw codes, none of
/// which is already a key, appends exactly one model-path entry per table
/// pair, in table order.
pub proof fn lemma_models_one_entry_per_pair(ms: Seq<(Seq<char>, Seq<char>)>, r: RegistriesView)
    requires
        forall|i: int, j: int| 0 <= i < j < ms.len() ==> ms[i].0 != ms[j].0,
        forall|i: int|
            0 <= i < ms.len() ==> !has_key(r.models, (IdView::Raw { rawid: ms[i].0 })),
    ensures
        transform_models_spec(ms, r).models == r.models + ms.map_values(
            |p: (Seq<char>, Seq<char>)| (IdView::Raw { rawid: p.0 }, p.1),
        ),
    decreases ms,
{
    let f = |p: (Seq<char>, Seq<char>)| (IdView::Raw { rawid: p.0 }, p.1);
    if ms.len() == 0 {
        assert(r.models + ms.map_values(f) =~= r.models);
    } else {
        let idv = IdView::Raw { rawid: ms[0].0 };
        assert(!has_key(r.models, idv));
        let models1 = r.models.push((idv, ms[0].1));
        assert(entries_insert(r.models, idv, ms[0].1) == models1);
        let r1 = RegistriesView { ids: r.ids.push(idv), units: r.units, models: models1 };
        let tail = ms.drop_first();
        assert forall|i: int| 0 <= i < tail.len() implies !has_key(
            r1.models,
            (IdView::Raw { rawid: tail[i].0 }),
        ) by {
            let key = IdView::Raw { rawid: tail[i].0 };
            assert(tail[i] == ms[i + 1]);
            assert(ms[i + 1].0 != ms[0].0);
            if has_key(r1.models, key) {
                let j = choose|j: int| 0 <= j < models1.len() && models1[j].0 == key;
                if j < r.models.len() {
                    assert(has_key(r.models, key));
                } else {
                    assert(models1[j].0 == idv);
                }
            }
        }
        lemma_models_one_entry_per_pair(tail, r1);
        assert(transform_models_spec(ms, r).models == r1.models + tail.map_values(f));
        assert(r1.models + tail.map_values(f) =~= r.models + ms.map_values(f));
    }
}

/// One pass over a source tree whose stock-model table carries
/// pairwise-distinct raw codes projects a `models` list with exactly one
/// entry per table pair, in table order, each pairing the raw code's
/// constant with its path — independent of the shop groupings.
pub proof fn lemma_models_list(d: crate::yarp_data::DataView)
    requires
        forall|i: int, j: int|
            0 <= i < j < d.stock_models.len() ==> d.stock_models[i].0 != d.stock_models[j].0,
    ensures
        project_spec(transform_spec(d)).models.len() == d.stock_models.len(),
        forall|i: int|
            0 <= i < d.stock_models.len() ==> #[trigger] project_spec(
                transform_spec(d),
            ).models[i] == (
                constant_of((IdView::Raw { rawid: d.stock_models[i].0 })),
                d.stock_models[i].1,
            ),
{
    let after_groups = crate::transform::transform_groups_spec(
        d.groups,
        crate::registries::empty_registries(),
    );
    crate::transform::lemma_transform_groups_count(
        d.groups,
        crate::registries::empty_registries(),
    );
    assert(after_groups.models =~= Seq::<(IdView, Seq<char>)>::empty());
    assert(forall|i: int|
        0 <= i < d.stock_models.len() ==> !has_key(
            after_groups.models,
            (IdView::Raw { rawid: d.stock_models[i].0 }),
        ));
    lemma_models_one_entry_per_pair(d.stock_models, after_groups);
    let f = |p: (Seq<char>, Seq<char>)| (IdView::Raw { rawid: p.0 }, p.1);
    let stored = transform_spec(d).models;
    assert(stored =~= d.stock_models.map_values(f));
    lemma_models_entries_pointwise(stored);
}

/// All identifiers a registry view holds are well formed.
pub open spec fn ids_wf(r: RegistriesView) -> bool {
    forall|i: int| 0 <= i < r.ids.len() ==> id_wf(#[trigger] r.ids[i])
}

proof fn lemma_push_ids_wf(r1: RegistriesView, prev: Seq<IdView>, idv: IdView)
    requires
        r1.ids == prev.push(idv),
        forall|i: int| 0 <= i < prev.len() ==> id_wf(#[trigger] prev[i]),
        id_wf(idv),
    ensures
        ids_wf(r1),
{
    assert forall|i: int| 0 <= i < r1.ids.len() implies id_wf(#[trigger] r1.ids[i]) by {
        if i < prev.len() {
            assert(r1.ids[i] == prev[i]);
        } else {
            assert(r1.ids[i] == idv);
        }
    }
}

proof fn lemma_unit_ids_wf(u: DataUnitView, r: RegistriesView)
    requires
        ids_wf(r),
    ensures
        ids_wf(transform_unit_spec(u, r).0),
        id_wf(transform_unit_spec(u, r).1),
    decreases u,
{
    match u {
        DataUnitView::Custom { uid, variant, .. } => {
            lemma_variant_ids_wf(variant, r);
            let r1 = transform_variant_spec(variant, r).0;
            let idv = IdView::Uid { uid, constant_name: shouty_snake_of(uid) };
            lemma_push_ids_wf(transform_unit_spec(u, r).0, r1.ids, idv);
        },
        DataUnitView::Stock { rawid, .. } => {
            let idv = IdView::Raw { rawid };
            lemma_push_ids_wf(transform_unit_spec(u, r).0, r.ids, idv);
        },
    }
}

proof fn lemma_variant_ids_wf(v: DataVariantView, r: RegistriesView)
    requires
        ids_wf(r),
    ensures
        ids_wf(transform_variant_spec(v, r).0),
    decreases v,
{
    match v {
        DataVariantView::Builder { built } => {
            lemma_units_ids_wf(built, r);
        },
        _ => {},
    }
}

proof fn lemma_units_ids_wf(us: Seq<DataUnitView>, r: RegistriesView)
    requires
        ids_wf(r),
    ensures
        ids_wf(transform_units_spec(us, r).0),
    decreases us,
{
    if us.len() > 0 {
        lemma_unit_ids_wf(us[0], r);
        lemma_units_ids_wf(us.drop_first(), transform_unit_spec(us[0], r).0);
    }
}

proof fn lemma_shops_ids_wf(ss: Seq<DataShopView>, r: RegistriesView)
    requires
        ids_wf(r),
    ensures
        ids_wf(transform_shops_spec(ss, r)),
    decreases ss,
{
    if ss.len() > 0 {
        lemma_units_ids_wf(ss[0].sold, r);
        let r1 = transform_units_spec(ss[0].sold, r).0;
        let idv = IdView::Uid { uid: ss[0].uid, constant_name: shouty_snake_of(ss[0].uid) };
        lemma_push_ids_wf(transform_shop_spec(ss[0], r), r1.ids, idv);
        lemma_shops_ids_wf(ss.drop_first(), transform_shop_spec(ss[0], r));
    }
}

proof fn lemma_groups_ids_wf(gs: Seq<Seq<DataShopView>>, r: RegistriesView)
    requires
        ids_wf(r),
    ensures
        ids_wf(transform_groups_spec(gs, r)),
    decreases gs,
{
    if gs.len() > 0 {
        lemma_shops_ids_wf(gs[0], r);
        lemma_groups_ids_wf(gs.drop_first(), transform_shops_spec(gs[0], r));
    }
}

proof fn lemma_models_ids_wf(ms: Seq<(Seq<char>, Seq<char>)>, r: RegistriesView)
    requires
        ids_wf(r),
    ensures
        ids_wf(transform_models_spec(ms, r)),
    decreases ms,
{
    if ms.len() > 0 {
        let idv = IdView::Raw { rawid: ms[0].0 };
        let r1 = RegistriesView {
            ids: r.ids.push(idv),
            units: r.units,
            models: entries_insert(r.models, idv, ms[0].1),
        };
        lemma_push_ids_wf(r1, r.ids, idv);
        lemma_models_ids_wf(ms.drop_first(), r1);
    }
}

/// Every identifier one transformation pass inserts is well formed: its
/// cached constant name is the derived form of its uid.
pub proof fn lemma_transform_ids_wf(d: DataView)
    ensures
        ids_wf(transform_spec(d)),
{
    let r0 = empty_registries();
    assert(ids_wf(r0));
    lemma_groups_ids_wf(d.groups, r0);
    lemma_models_ids_wf(d.stock_models, transform_groups_spec(d.groups, r0));
}

/// In the context projected from one pass over any source tree, every
/// `uids` entry pairs the derived constant name with the uid it was derived
/// from.
pub proof fn lemma_transform_uids_matching(d: DataView)
    ensures
        forall|i: int|
            0 <= i < project_spec(transform_spec(d)).uids.len() ==> #[trigger] project_spec(
                transform_spec(d),
            ).uids[i].0 == shouty_snake_of(project_spec(transform_spec(d)).uids[i].1),
{
    lemma_transform_ids_wf(d);
    lemma_uids_entries_matching(transform_spec(d).ids);
}

/// Transforming a source tree that holds exactly one shop, selling one
/// builder that builds one stock unit, registers three identifiers — the
/// stock unit's, then the builder's, then the shop's, children before
/// parents — and projects exactly one `shops` entry, one `builders` entry
/// and two `uids` entries; the subtree contributes no `units` or
/// `buildings` entry, and the stock unit, though registered in the
/// identifier arena, contributes to no entity list.
pub proof fn lemma_shop_builder_stock_round_trip(
    shop_uid: Seq<char>,
    shop_name: Seq<char>,
    shop_model: Seq<char>,
    scale: u32,
    builder_uid: Seq<char>,
    builder_name: Seq<char>,
    builder_model: Seq<char>,
    builder_icon: Seq<char>,
    stock_rawid: Seq<char>,
    stock_model: Seq<char>,
)
    requires
        builder_uid != shop_uid,
    ensures
        ({
            let stock = DataUnitView::Stock { rawid: stock_rawid, model: stock_model };
            let builder = DataUnitView::Custom {
                uid: builder_uid,
                name: builder_name,
                model: builder_model,
                icon: builder_icon,
                variant: DataVariantView::Builder { built: seq![stock] },
            };
            let shop = DataShopView {
                uid: shop_uid,
                name: shop_name,
                model: shop_model,
                scale,
                sold: seq![builder],
            };
            let d = DataView { groups: seq![seq![shop]], stock_models: Seq::empty() };
            let r = transform_spec(d);
            let c = project_spec(r);
            &&& r.ids == seq![
                (IdView::Raw { rawid: stock_rawid }),
                (IdView::Uid { uid: builder_uid, constant_name: shouty_snake_of(builder_uid) }),
                (IdView::Uid { uid: shop_uid, constant_name: shouty_snake_of(shop_uid) }),
            ]
            &&& c.shops.len() == 1
            &&& c.builders.len() == 1
            &&& c.units.len() == 0
            &&& c.buildings.len() == 0
            &&& c.uids.len() == 2
        }),
{
    let stock = DataUnitView::Stock { rawid: stock_rawid, model: stock_model };
    let builder = DataUnitView::Custom {
        uid: builder_uid,
        name: builder_name,
        model: builder_model,
        icon: builder_icon,
        variant: DataVariantView::Builder { built: seq![stock] },
    };
    let shop = DataShopView {
        uid: shop_uid,
        name: shop_name,
        model: shop_model,
        scale,
        sold: seq![builder],
    };
    let d = DataView { groups: seq![seq![shop]], stock_models: Seq::empty() };
    let r0 = empty_registries();
    let raw_id = IdView::Raw { rawid: stock_rawid };
    let b_id = IdView::Uid { uid: builder_uid, constant_name: shouty_snake_of(builder_uid) };
    let s_id = IdView::Uid { uid: shop_uid, constant_name: shouty_snake_of(shop_uid) };

    // The stock child: the first identifier and the first record.
    let p_stock = transform_unit_spec(stock, r0);
    let stock_rec = UnitView::Stock { id: raw_id, model: crate::strutil::trim_of(stock_model) };
    let r_a = p_stock.0;
    assert(r_a.ids =~= seq![raw_id]);
    assert(!has_key(r0.units, raw_id));
    assert(r_a.units =~= seq![(raw_id, stock_rec)]);
    assert(p_stock.1 == raw_id);

    // The builder: its built child first, then its own identifier and record.
    let p_built = transform_units_spec(seq![stock], r0);
    assert(seq![stock][0] == stock);
    assert(seq![stock].drop_first() =~= Seq::<DataUnitView>::empty());
    assert(transform_units_spec(Seq::<DataUnitView>::empty(), r_a) == (
        r_a,
        Seq::<IdView>::empty(),
    ));
    assert(p_built.0 == r_a);
    assert(p_built.1 =~= seq![raw_id]);
    let p_builder = transform_unit_spec(builder, r0);
    let b_rec = UnitView::Custom {
        id: b_id,
        variant: VariantView::Builder { built_ids: p_built.1 },
        name: builder_name,
        model: crate::strutil::trim_of(builder_model),
        icon: builder_icon,
    };
    assert(!has_key(r_a.units, b_id)) by {
        if has_key(r_a.units, b_id) {
            let j = choose|j: int| 0 <= j < r_a.units.len() && r_a.units[j].0 == b_id;
            assert(r_a.units[j].0 == raw_id);
        }
    }
    let r_b = p_builder.0;
    assert(r_b.ids =~= seq![raw_id, b_id]);
    assert(r_b.units =~= seq![(raw_id, stock_rec), (b_id, b_rec)]);
    assert(p_builder.1 == b_id);

    // The shop: its sold child first, then its own identifier and record.
    let p_sold = transform_units_spec(seq![builder], r0);
    assert(seq![builder][0] == builder);
    assert(seq![builder].drop_first() =~= Seq::<DataUnitView>::empty());
    assert(transform_units_spec(Seq::<DataUnitView>::empty(), r_b) == (
        r_b,
        Seq::<IdView>::empty(),
    ));
    assert(p_sold.0 == r_b);
    assert(p_sold.1 =~= seq![b_id]);
    let r_c = transform_shop_spec(shop, r0);
    let s_rec = UnitView::Custom {
        id: s_id,
        variant: VariantView::UnitShop { sold_ids: p_sold.1, scale },
        name: shop_name,
        model: crate::strutil::trim_of(shop_model),
        icon: Seq::empty(),
    };
    assert(!has_key(r_b.units, s_id)) by {
        if has_key(r_b.units, s_id) {
            let j = choose|j: int| 0 <= j < r_b.units.len() && r_b.units[j].0 == s_id;
            assert(j == 0 || j == 1);
        }
    }
    assert(r_c.ids =~= seq![raw_id, b_id, s_id]);
    assert(r_c.units =~= seq![(raw_id, stock_rec), (b_id, b_rec), (s_id, s_rec)]);

    // The whole pass: one grouping with one shop, an empty stock-model table.
    assert(seq![shop][0] == shop);
    assert(seq![shop].drop_first() =~= Seq::<DataShopView>::empty());
    assert(transform_shops_spec(Seq::<DataShopView>::empty(), r_c) == r_c);
    assert(transform_shops_spec(seq![shop], r0) == r_c);
    assert(seq![seq![shop]][0] == seq![shop]);
    assert(seq![seq![shop]].drop_first() =~= Seq::<Seq<DataShopView>>::empty());
    assert(transform_groups_spec(Seq::<Seq<DataShopView>>::empty(), r_c) == r_c);
    assert(transform_groups_spec(seq![seq![shop]], r0) == r_c);
    assert(transform_models_spec(Seq::<(Seq<char>, Seq<char>)>::empty(), r_c) == r_c);
    let r = transform_spec(d);
    assert(r == r_c);

    // The projection: the stock record contributes nothing, the builder and
    // the shop one entry each.
    let c0 = empty_context();
    let c1 = context_after_unit(c0, stock_rec);
    assert(c1 == c0);
    let c2 = context_after_unit(c1, b_rec);
    assert(c2.builders.len() == 1 && c2.units.len() == 0 && c2.buildings.len() == 0
        && c2.shops.len() == 0);
    let c3 = context_after_unit(c2, s_rec);
    assert(c3.shops.len() == 1 && c3.builders.len() == 1 && c3.units.len() == 0
        && c3.buildings.len() == 0);
    assert(r.units[0] == (raw_id, stock_rec));
    assert(r.units.drop_first() =~= seq![(b_id, b_rec), (s_id, s_rec)]);
    assert(r.units.drop_first()[0] == (b_id, b_rec));
    assert(r.units.drop_first().drop_first() =~= seq![(s_id, s_rec)]);
    assert(seq![(s_id, s_rec)][0] == (s_id, s_rec));
    assert(seq![(s_id, s_rec)].drop_first() =~= Seq::<(IdView, UnitView)>::empty());
    assert(context_after_units(c3, Seq::<(IdView, UnitView)>::empty()) == c3);
    assert(context_after_units(c2, seq![(s_id, s_rec)]) == c3);
    assert(context_after_units(c1, seq![(b_id, b_rec), (s_id, s_rec)]) == c3);
    assert(context_after_units(c0, r.units) == c3);
    let c = project_spec(r);
    assert(c.shops.len() == 1 && c.builders.len() == 1 && c.units.len() == 0
        && c.buildings.len() == 0);

    // Two custom identifiers were inserted, so `uids` has two entries.
    assert(r.ids[0] == raw_id);
    assert(r.ids.drop_first() =~= seq![b_id, s_id]);
    assert(r.ids.drop_first()[0] == b_id);
    assert(r.ids.drop_first().drop_first() =~= seq![s_id]);
    assert(seq![s_id][0] == s_id);
    assert(seq![s_id].drop_first() =~= Seq::<IdView>::empty());
    assert(uids_entries(Seq::<IdView>::empty()) == Seq::<(Seq<char>, Seq<char>)>::empty());
    assert(uids_entries(seq![s_id]) =~= seq![(shouty_snake_of(shop_uid), shop_uid)]);
    assert(uids_entries(r.ids.drop_first()) =~= seq![
        (shouty_snake_of(builder_uid), builder_uid),
        (shouty_snake_of(shop_uid), shop_uid),
    ]);
    assert(c.uids.len() == 2);
}

} // verus!
