//! The context projector: turns populated registries into a single
//! structured value of named lists, ready for a template renderer, including
//! the comma-joined code-literal expressions for reference lists.

use crate::ids::{IdView, UnitIdentifier, constant_of};
use crate::registries::{Registries, RegistriesView};
use crate::units::{UnitView, VariantView, YarpUnit, YarpUnitVariant, ids_view};
use itertools::Itertools;
use vstd::prelude::*;

verus! {

/// The characters of a sequence of strings, element by element.
pub open spec fn strings_view(parts: Seq<String>) -> Seq<Seq<char>> {
    parts.map_values(|s: String| s@)
}

/// Strings joined with a separator between consecutive elements; no
/// separator leads or trails, and no elements yield the empty string.
pub open spec fn join_seqs(parts: Seq<Seq<char>>, sep: Seq<char>) -> Seq<char>
    decreases parts,
{
    if parts.len() == 0 {
        Seq::empty()
    } else if parts.len() == 1 {
        parts[0]
    } else {
        parts[0] + sep + join_seqs(parts.drop_first(), sep)
    }
}

/// Relies on itertools' `Itertools::join`: formats the elements in order,
/// with the separator between consecutive elements and nowhere else; a
/// `String` element formats as its own characters.
#[verifier::external_body]
fn join_strings(parts: &Vec<String>, sep: &str) -> (r: String)
    ensures
        r@ == join_seqs(strings_view(parts@), sep@),
{
    parts.iter().join(sep)
}

/// The separator placed between two reference expressions: runtime string
/// concatenation of a literal comma.
pub open spec fn sep_view() -> Seq<char> {
    (" + \",\" + ")@
}

/// How a built reference renders: the identifier's constant followed by a
/// raw-code conversion call, for custom and stock identifiers alike.
pub open spec fn render_built_ref(v: IdView) -> Seq<char> {
    constant_of(v) + (".toRawCode()")@
}

/// How a sold reference renders: a double-quoted literal of the raw code for
/// a stock identifier, otherwise as a built reference renders.
pub open spec fn render_sold_ref(v: IdView) -> Seq<char> {
    match v {
        IdView::Raw { rawid } => seq!['"'] + rawid + seq!['"'],
        _ => render_built_ref(v),
    }
}

/// Mathematical value of one projected entity record.
pub struct EntryView {
    pub constant: Seq<char>,
    pub model: Seq<char>,
    pub name: Seq<char>,
    pub icon: Seq<char>,
    pub built: Option<Seq<char>>,
    pub sold: Option<Seq<char>>,
}

/// The projection of one catalog record: custom records carry their
/// constant, model, name and icon, a builder additionally the joined built
/// expression, a shop the joined sold expression; stock records project to
/// nothing.
pub open spec fn unit_entry_view(v: UnitView) -> Option<EntryView> {
    match v {
        UnitView::Custom { id, variant, name, model, icon } => Some(
            EntryView {
                constant: constant_of(id),
                model: model,
                name: name,
                icon: icon,
                built: match variant {
                    VariantView::Builder { built_ids } => Some(
                        join_seqs(
                            built_ids.map_values(|b: IdView| render_built_ref(b)),
                            sep_view(),
                        ),
                    ),
                    _ => None,
                },
                sold: match variant {
                    VariantView::UnitShop { sold_ids, .. } => Some(
                        join_seqs(
                            sold_ids.map_values(|b: IdView| render_sold_ref(b)),
                            sep_view(),
                        ),
                    ),
                    _ => None,
                },
            },
        ),
        UnitView::Stock { .. } => None,
    }
}

/// One projected entity record.
#[derive(Debug)]
pub struct UnitEntry {
    pub constant: String,
    pub model: String,
    pub name: String,
    pub icon: String,
    pub built: Option<String>,
    pub sold: Option<String>,
}

impl View for UnitEntry {
    type V = EntryView;

    open spec fn view(&self) -> EntryView {
        EntryView {
            constant: self.constant@,
            model: self.model@,
            name: self.name@,
            icon: self.icon@,
            built: match self.built {
                Some(s) => Some(s@),
                None => None,
            },
            sold: match self.sold {
                Some(s) => Some(s@),
                None => None,
            },
        }
    }
}

/// One entry of the `uids` list: a custom identifier's constant and uid.
#[derive(Debug)]
pub struct UidEntry {
    pub constant: String,
    pub uid: String,
}

impl View for UidEntry {
    type V = (Seq<char>, Seq<char>);

    open spec fn view(&self) -> (Seq<char>, Seq<char>) {
        (self.constant@, self.uid@)
    }
}

/// One entry of the `models` list: an identifier's constant and a path.
#[derive(Debug)]
pub struct ModelEntry {
    pub constant: String,
    pub path: String,
}

impl View for ModelEntry {
    type V = (Seq<char>, Seq<char>);

    open spec fn view(&self) -> (Seq<char>, Seq<char>) {
        (self.constant@, self.path@)
    }
}

/// Mathematical value of the whole projected context.
pub struct ContextView {
    pub units: Seq<EntryView>,
    pub buildings: Seq<EntryView>,
    pub shops: Seq<EntryView>,
    pub builders: Seq<EntryView>,
    pub uids: Seq<(Seq<char>, Seq<char>)>,
    pub models: Seq<(Seq<char>, Seq<char>)>,
}

/// The projected context: six named, ordered lists.
#[derive(Debug)]
pub struct LiquidContext {
    pub units: Vec<UnitEntry>,
    pub buildings: Vec<UnitEntry>,
    pub shops: Vec<UnitEntry>,
    pub builders: Vec<UnitEntry>,
    pub uids: Vec<UidEntry>,
    pub models: Vec<ModelEntry>,
}

pub open spec fn entries_view(es: Seq<UnitEntry>) -> Seq<EntryView> {
    es.map_values(|e: UnitEntry| e@)
}

pub open spec fn pairs_view(es: Seq<UidEntry>) -> Seq<(Seq<char>, Seq<char>)> {
    es.map_values(|e: UidEntry| e@)
}

pub open spec fn model_pairs_view(es: Seq<ModelEntry>) -> Seq<(Seq<char>, Seq<char>)> {
    es.map_values(|e: ModelEntry| e@)
}

impl View for LiquidContext {
    type V = ContextView;

    open spec fn view(&self) -> ContextView {
        ContextView {
            units: entries_view(self.units@),
            buildings: entries_view(self.buildings@),
            shops: entries_view(self.shops@),
            builders: entries_view(self.builders@),
            uids: pairs_view(self.uids@),
            models: model_pairs_view(self.models@),
        }
    }
}

/// The context with all six lists empty.
pub open spec fn empty_context() -> ContextView {
    ContextView {
        units: Seq::empty(),
        buildings: Seq::empty(),
        shops: Seq::empty(),
        builders: Seq::empty(),
        uids: Seq::empty(),
        models: Seq::empty(),
    }
}

/// The context after one record contributes its projection: a custom record
/// appends to the list matching its variant, a stock record contributes
/// nothing.
pub open spec fn context_after_unit(c: ContextView, v: UnitView) -> ContextView {
    match unit_entry_view(v) {
        Some(e) => match v {
            UnitView::Custom { variant: VariantView::Unit, .. } => ContextView {
                units: c.units.push(e),
                ..c
            },
            UnitView::Custom { variant: VariantView::Building, .. } => ContextView {
                buildings: c.buildings.push(e),
                ..c
            },
            UnitView::Custom { variant: VariantView::Builder { .. }, .. } => ContextView {
                builders: c.builders.push(e),
                ..c
            },
            UnitView::Custom { variant: VariantView::UnitShop { .. }, .. } => ContextView {
                shops: c.shops.push(e),
                ..c
            },
            UnitView::Stock { .. } => c,
        },
        None => c,
    }
}

/// The context after every record of an entry sequence contributes, in
/// order.
pub open spec fn context_after_units(c: ContextView, entries: Seq<(IdView, UnitView)>) -> ContextView
    decreases entries,
{
    if entries.len() == 0 {
        c
    } else {
        context_after_units(context_after_unit(c, entries[0].1), entries.drop_first())
    }
}

/// The `uids` list: one `(constant, uid)` pair per custom identifier of the
/// arena, in arena order; stock identifiers contribute nothing.
pub open spec fn uids_entries(ids: Seq<IdView>) -> Seq<(Seq<char>, Seq<char>)>
    decreases ids,
{
    if ids.len() == 0 {
        Seq::empty()
    } else {
        let rest = uids_entries(ids.drop_first());
        match ids[0] {
            IdView::Uid { uid, constant_name } => seq![(constant_name, uid)] + rest,
            IdView::Raw { .. } => rest,
        }
    }
}

/// The `models` list: one `(constant, path)` pair per model-path entry, in
/// registry order.
pub open spec fn models_entries(ms: Seq<(IdView, Seq<char>)>) -> Seq<(Seq<char>, Seq<char>)>
    decreases ms,
{
    if ms.len() == 0 {
        Seq::empty()
    } else {
        seq![(constant_of(ms[0].0), ms[0].1)] + models_entries(ms.drop_first())
    }
}

/// The whole projection of populated registries.
pub open spec fn project_spec(r: RegistriesView) -> ContextView {
    let c = context_after_units(empty_context(), r.units);
    ContextView {
        units: c.units,
        buildings: c.buildings,
        shops: c.shops,
        builders: c.builders,
        uids: uids_entries(r.ids),
        models: models_entries(r.models),
    }
}

/// Renders one built reference.
fn render_built_item(id: &UnitIdentifier) -> (r: String)
    ensures
        r@ == render_built_ref(id@),
{
    let mut s = id.constant();
    s.push_str(".toRawCode()");
    s
}

/// Renders one sold reference.
fn render_sold_item(id: &UnitIdentifier) -> (r: String)
    ensures
        r@ == render_sold_ref(id@),
{
    if id.is_rawid() {
        let mut s = String::new();
        s.push('"');
        s.push_str(id.rawid());
        s.push('"');
        proof {
            assert(s@ =~= seq!['"'] + id@->Raw_rawid + seq!['"']);
        }
        s
    } else {
        render_built_item(id)
    }
}

/// Renders and joins a builder's built references.
fn render_built_list(ids: &Vec<UnitIdentifier>) -> (r: String)
    ensures
        r@ == join_seqs(ids_view(ids@).map_values(|b: IdView| render_built_ref(b)), sep_view()),
{
    let mut parts: Vec<String> = Vec::new();
    let mut i: usize = 0;
    while i < ids.len()
        invariant
            0 <= i <= ids@.len(),
            parts@.len() == i,
            forall|j: int| 0 <= j < i ==> parts@[j]@ == render_built_ref(ids@[j]@),
        decreases ids@.len() - i,
    {
        parts.push(render_built_item(&ids[i]));
        i = i + 1;
    }
    let r = join_strings(&parts, " + \",\" + ");
    proof {
        assert(strings_view(parts@) =~= ids_view(ids@).map_values(
            |b: IdView| render_built_ref(b),
        ));
    }
    r
}

/// Renders and joins a shop's sold references.
fn render_sold_list(ids: &Vec<UnitIdentifier>) -> (r: String)
    ensures
        r@ == join_seqs(ids_view(ids@).map_values(|b: IdView| render_sold_ref(b)), sep_view()),
{
    let mut parts: Vec<String> = Vec::new();
    let mut i: usize = 0;
    while i < ids.len()
        invariant
            0 <= i <= ids@.len(),
            parts@.len() == i,
            forall|j: int| 0 <= j < i ==> parts@[j]@ == render_sold_ref(ids@[j]@),
        decreases ids@.len() - i,
    {
        parts.push(render_sold_item(&ids[i]));
        i = i + 1;
    }
    let r = join_strings(&parts, " + \",\" + ");
    proof {
        assert(strings_view(parts@) =~= ids_view(ids@).map_values(
            |b: IdView| render_sold_ref(b),
        ));
    }
    r
}

impl YarpUnit {
    /// The projection of this record: a populated entry for a custom record,
    /// nothing for a stock one.
    pub fn liquid_value(&self) -> (r: Option<UnitEntry>)
        ensures
            match r {
                Some(e) => unit_entry_view(self@) == Some(e@),
                None => unit_entry_view(self@) is None,
            },
    {
        match self {
            YarpUnit::Custom { id, variant, name, model, icon } => {
                let constant = id.constant();
                let built: Option<String> = match variant {
                    YarpUnitVariant::Builder { built_ids } => Some(render_built_list(built_ids)),
                    _ => None,
                };
                let sold: Option<String> = match variant {
                    YarpUnitVariant::UnitShop { sold_ids, .. } => Some(
                        render_sold_list(sold_ids),
                    ),
                    _ => None,
                };
                Some(
                    UnitEntry {
                        constant,
                        model: model.clone(),
                        name: name.clone(),
                        icon: icon.clone(),
                        built,
                        sold,
                    },
                )
            },
            YarpUnit::Stock { .. } => None,
        }
    }

    /// Appends this record's projection to the context list matching its
    /// variant; a stock record leaves the context unchanged.
    pub fn liquid_insert_into_context(&self, context: &mut LiquidContext)
        ensures
            final(context)@ == context_after_unit(old(context)@, self@),
    {
        match self {
            YarpUnit::Custom { variant, .. } => {
                let value = match self.liquid_value() {
                    Some(v) => v,
                    None => vstd::pervasive::unreached(),
                };
                match variant {
                    YarpUnitVariant::Unit => {
                        context.units.push(value);
                        proof {
                            assert(entries_view(context.units@) =~= entries_view(
                                old(context).units@,
                            ).push(value@));
                        }
                    },
                    YarpUnitVariant::Building => {
                        context.buildings.push(value);
                        proof {
                            assert(entries_view(context.buildings@) =~= entries_view(
                                old(context).buildings@,
                            ).push(value@));
                        }
                    },
                    YarpUnitVariant::Builder { .. } => {
                        context.builders.push(value);
                        proof {
                            assert(entries_view(context.builders@) =~= entries_view(
                                old(context).builders@,
                            ).push(value@));
                        }
                    },
                    YarpUnitVariant::UnitShop { .. } => {
                        context.shops.push(value);
                        proof {
                            assert(entries_view(context.shops@) =~= entries_view(
                                old(context).shops@,
                            ).push(value@));
                        }
                    },
                }
            },
            YarpUnit::Stock { .. } => {},
        }
    }
}

/// Projects populated registries into the structured context value: the four
/// entity lists in entity-registry order, the `uids` list in arena order,
/// the `models` list in model-registry order.
pub fn liquid_context(registries: &Registries) -> (r: LiquidContext)
    ensures
        r@ == project_spec(registries@),
{
    let mut value = LiquidContext {
        units: Vec::new(),
        buildings: Vec::new(),
        shops: Vec::new(),
        builders: Vec::new(),
        uids: Vec::new(),
        models: Vec::new(),
    };
    let ghost entries = registries.unit@;
    let ghost c0 = value@;
    proof {
        assert(c0.units =~= Seq::<EntryView>::empty());
        assert(c0.buildings =~= Seq::<EntryView>::empty());
        assert(c0.shops =~= Seq::<EntryView>::empty());
        assert(c0.builders =~= Seq::<EntryView>::empty());
        assert(c0.uids =~= Seq::<(Seq<char>, Seq<char>)>::empty());
        assert(c0.models =~= Seq::<(Seq<char>, Seq<char>)>::empty());
        assert(c0 == empty_context());
        assert(entries.skip(0) =~= entries);
    }
    let ghost goal_c = context_after_units(c0, entries);
    let units = registries.unit.values();
    let mut i: usize = 0;
    while i < units.len()
        invariant
            0 <= i <= units@.len(),
            units@.len() == entries.len(),
            forall|j: int| 0 <= j < entries.len() ==> units@[j]@ == entries[j].1,
            goal_c == context_after_units(c0, entries),
            context_after_units(value@, entries.skip(i as int)) == goal_c,
            value@.uids == Seq::<(Seq<char>, Seq<char>)>::empty(),
            value@.models == Seq::<(Seq<char>, Seq<char>)>::empty(),
        decreases units@.len() - i,
    {
        let ghost rem = entries.skip(i as int);
        proof {
            assert(rem[0] == entries[i as int]);
            assert(rem.drop_first() =~= entries.skip(i as int + 1));
        }
        units[i].liquid_insert_into_context(&mut value);
        i = i + 1;
    }
    proof {
        assert(entries.skip(entries.len() as int) =~= Seq::<(IdView, UnitView)>::empty());
    }
    let ghost c_done = value@;
    let ghost idseq = registries.id@;
    let ghost goal_uids = uids_entries(idseq);
    proof {
        assert(idseq.skip(0) =~= idseq);
        assert(pairs_view(value.uids@) + uids_entries(idseq) =~= uids_entries(idseq));
    }
    let ids = registries.id.items();
    let mut k: usize = 0;
    while k < ids.len()
        invariant
            0 <= k <= ids@.len(),
            ids@.len() == idseq.len(),
            forall|j: int| 0 <= j < idseq.len() ==> ids@[j]@ == idseq[j],
            goal_uids == uids_entries(idseq),
            pairs_view(value.uids@) + uids_entries(idseq.skip(k as int)) == goal_uids,
            value@.units == c_done.units,
            value@.buildings == c_done.buildings,
            value@.shops == c_done.shops,
            value@.builders == c_done.builders,
            value@.models == Seq::<(Seq<char>, Seq<char>)>::empty(),
        decreases ids@.len() - k,
    {
        let ghost rem = idseq.skip(k as int);
        proof {
            assert(rem[0] == idseq[k as int]);
            assert(rem.drop_first() =~= idseq.skip(k as int + 1));
        }
        let id = &ids[k];
        if id.is_uid() {
            let constant = id.constant();
            let uid = id.uid().to_owned();
            let entry = UidEntry { constant, uid };
            let ghost prev = value.uids@;
            proof {
                assert(entry@ == (constant_of(idseq[k as int]), idseq[k as int]->Uid_uid));
            }
            value.uids.push(entry);
            proof {
                assert(pairs_view(value.uids@) =~= pairs_view(prev).push(entry@));
                assert(pairs_view(prev).push(entry@) + uids_entries(
                    idseq.skip(k as int + 1),
                ) =~= pairs_view(prev) + uids_entries(rem));
            }
        }
        k = k + 1;
    }
    proof {
        assert(idseq.skip(idseq.len() as int) =~= Seq::<IdView>::empty());
    }
    let ghost mseq = registries.model@;
    let ghost goal_models = models_entries(mseq);
    proof {
        assert(mseq.skip(0) =~= mseq);
    }
    let model_pairs = registries.model.pairs();
    let mut m: usize = 0;
    while m < model_pairs.len()
        invariant
            0 <= m <= model_pairs@.len(),
            model_pairs@.len() == mseq.len(),
            forall|j: int|
                0 <= j < mseq.len() ==> (model_pairs@[j].0@, model_pairs@[j].1@) == mseq[j],
            goal_models == models_entries(mseq),
            model_pairs_view(value.models@) + models_entries(mseq.skip(m as int)) == goal_models,
            value@.units == c_done.units,
            value@.buildings == c_done.buildings,
            value@.shops == c_done.shops,
            value@.builders == c_done.builders,
            pairs_view(value.uids@) == goal_uids,
        decreases model_pairs@.len() - m,
    {
        let ghost rem = mseq.skip(m as int);
        proof {
            assert(rem[0] == mseq[m as int]);
            assert(rem.drop_first() =~= mseq.skip(m as int + 1));
        }
        let pair = &model_pairs[m];
        let constant = pair.0.constant();
        let path = pair.1.clone();
        let entry = ModelEntry { constant, path };
        let ghost prev = value.models@;
        value.models.push(entry);
        proof {
            assert(model_pairs_view(value.models@) =~= model_pairs_view(prev).push(entry@));
            assert(model_pairs_view(prev).push(entry@) + models_entries(
                mseq.skip(m as int + 1),
            ) =~= model_pairs_view(prev) + models_entries(rem));
        }
        m = m + 1;
    }
    proof {
        assert(mseq.skip(mseq.len() as int) =~= Seq::<(IdView, Seq<char>)>::empty());
        assert(value@.units == project_spec(registries@).units);
        assert(value@.buildings == project_spec(registries@).buildings);
        assert(value@.shops == project_spec(registries@).shops);
        assert(value@.builders == project_spec(registries@).builders);
        assert(value@.uids =~= project_spec(registries@).uids);
        assert(value@.models =~= project_spec(registries@).models);
    }
    value
}

} // verus!
