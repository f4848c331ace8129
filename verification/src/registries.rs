//! The three registries: the append-only identifier arena, the
//! insertion-ordered entity map, and the insertion-ordered model-path map.
//!
//! The arena is idcontain's `IdSlab`, the two maps are indexmap's `IndexMap`;
//! each is held behind a small set of trusted wrappers whose contracts state,
//! over a sequence model, what the crates' sources show.

use crate::ids::{IdView, UnitIdentifier};
use crate::units::{UnitView, YarpUnit, unit_id_of};
use idcontain::IdSlab;
use indexmap::IndexMap;
use vstd::prelude::*;

verus! {

#[verifier::external_type_specification]
#[verifier::external_body]
#[verifier::reject_recursive_types(T)]
pub struct ExIdSlab<T>(IdSlab<T>);

#[verifier::external_type_specification]
#[verifier::external_body]
#[verifier::reject_recursive_types(K)]
#[verifier::reject_recursive_types(V)]
#[verifier::reject_recursive_types(S)]
pub struct ExIndexMap<K, V, S>(IndexMap<K, V, S>);

/// What an identifier slab holds, in iteration order.
pub uninterp spec fn slab_view(s: IdSlab<UnitIdentifier>) -> Seq<IdView>;

/// What the entity map holds, as key-value pairs in iteration order.
pub uninterp spec fn unit_map_view(m: IndexMap<UnitIdentifier, YarpUnit>) -> Seq<
    (IdView, UnitView),
>;

/// What the model-path map holds, as key-value pairs in iteration order.
pub uninterp spec fn model_map_view(m: IndexMap<UnitIdentifier, String>) -> Seq<
    (IdView, Seq<char>),
>;

/// Some entry of `s` bears the key `k`.
pub open spec fn has_key<V>(s: Seq<(IdView, V)>, k: IdView) -> bool {
    exists|i: int| 0 <= i < s.len() && s[i].0 == k
}

/// An index of `s` whose entry bears the key `k`; with distinct keys it is
/// the only one.
pub open spec fn key_index<V>(s: Seq<(IdView, V)>, k: IdView) -> int {
    choose|i: int| 0 <= i < s.len() && s[i].0 == k
}

/// Overwrite-on-conflict insertion into an ordered entry sequence: an
/// existing key keeps its place and takes the new value, a new key goes last.
pub open spec fn entries_insert<V>(s: Seq<(IdView, V)>, k: IdView, v: V) -> Seq<(IdView, V)> {
    if has_key(s, k) {
        s.update(key_index(s, k), (k, v))
    } else {
        s.push((k, v))
    }
}

/// The value stored under `k`, if any.
pub open spec fn entries_lookup<V>(s: Seq<(IdView, V)>, k: IdView) -> Option<V> {
    if has_key(s, k) {
        Some(s[key_index(s, k)].1)
    } else {
        None
    }
}

/// No two entries bear the same key.
pub open spec fn distinct_keys<V>(s: Seq<(IdView, V)>) -> bool {
    forall|i: int, j: int| 0 <= i < j < s.len() ==> s[i].0 != s[j].0
}

/// Relies on idcontain's `IdSlab::new`: the fresh slab holds no elements.
#[verifier::external_body]
fn slab_new() -> (r: IdSlab<UnitIdentifier>)
    ensures
        slab_view(r) == Seq::<IdView>::empty(),
{
    IdSlab::new()
}

/// Relies on idcontain's `IdSlab::insert` and its `Index` impl: with no
/// removals ever performed, `insert` occupies a fresh slot after all existing
/// ones and returns its handle, and indexing the handle returns the value
/// just stored, which is cloned here.
#[verifier::external_body]
fn slab_insert(s: &mut IdSlab<UnitIdentifier>, id: UnitIdentifier) -> (r: UnitIdentifier)
    requires
        slab_view(*old(s)).len() < 0xffff_fffe,
    ensures
        slab_view(*final(s)) == slab_view(*old(s)).push(id@),
        r@ == id@,
{
    let handle = s.insert(id);
    s[handle].clone()
}

/// Relies on idcontain's `IdSlab::iter`: with no removals ever performed it
/// yields the stored values in insertion order; each is cloned.
#[verifier::external_body]
fn slab_items(s: &IdSlab<UnitIdentifier>) -> (r: Vec<UnitIdentifier>)
    ensures
        r@.len() == slab_view(*s).len(),
        forall|i: int| 0 <= i < r@.len() ==> r@[i]@ == slab_view(*s)[i],
{
    s.iter().cloned().collect()
}

/// Relies on indexmap's `IndexMap::new`: the fresh map holds no entries.
#[verifier::external_body]
fn unit_map_new() -> (r: IndexMap<UnitIdentifier, YarpUnit>)
    ensures
        unit_map_view(r) == Seq::<(IdView, UnitView)>::empty(),
{
    IndexMap::new()
}

/// Relies on indexmap's `IndexMap::insert`: an existing equivalent key keeps
/// its place in the order and has its value replaced; a new key is inserted
/// last. Equality of `UnitIdentifier` keys is field-by-field equality of
/// their strings, which coincides with equality of their views.
#[verifier::external_body]
fn unit_map_insert(m: &mut IndexMap<UnitIdentifier, YarpUnit>, k: UnitIdentifier, v: YarpUnit)
    ensures
        unit_map_view(*final(m)) == entries_insert(unit_map_view(*old(m)), k@, v@),
{
    m.insert(k, v);
}

/// Relies on indexmap's `IndexMap::get`: returns the value stored under an
/// equivalent key, if one is present.
#[verifier::external_body]
fn unit_map_get<'a>(m: &'a IndexMap<UnitIdentifier, YarpUnit>, k: &UnitIdentifier) -> (r: Option<
    &'a YarpUnit,
>)
    ensures
        match r {
            Some(u) => entries_lookup(unit_map_view(*m), k@) == Some(u@),
            None => entries_lookup(unit_map_view(*m), k@) is None,
        },
{
    m.get(k)
}

/// Relies on indexmap's `IndexMap::values`: yields the stored values in the
/// map's order; each is cloned.
#[verifier::external_body]
fn unit_map_values(m: &IndexMap<UnitIdentifier, YarpUnit>) -> (r: Vec<YarpUnit>)
    ensures
        r@.len() == unit_map_view(*m).len(),
        forall|i: int| 0 <= i < r@.len() ==> r@[i]@ == unit_map_view(*m)[i].1,
{
    m.values().cloned().collect()
}

/// Relies on indexmap's `IndexMap::new`: the fresh map holds no entries.
#[verifier::external_body]
fn model_map_new() -> (r: IndexMap<UnitIdentifier, String>)
    ensures
        model_map_view(r) == Seq::<(IdView, Seq<char>)>::empty(),
{
    IndexMap::new()
}

/// Relies on indexmap's `IndexMap::insert`: an existing equivalent key keeps
/// its place in the order and has its value replaced; a new key is inserted
/// last.
#[verifier::external_body]
fn model_map_insert(m: &mut IndexMap<UnitIdentifier, String>, k: UnitIdentifier, v: String)
    ensures
        model_map_view(*final(m)) == entries_insert(model_map_view(*old(m)), k@, v@),
{
    m.insert(k, v);
}

/// Relies on indexmap's `IndexMap::iter`: yields the entries in the map's
/// order; keys and values are cloned.
#[verifier::external_body]
fn model_map_pairs(m: &IndexMap<UnitIdentifier, String>) -> (r: Vec<(UnitIdentifier, String)>)
    ensures
        r@.len() == model_map_view(*m).len(),
        forall|i: int|
            0 <= i < r@.len() ==> (r@[i].0@, r@[i].1@) == model_map_view(*m)[i],
{
    m.iter().map(|(k, v)| (k.clone(), v.clone())).collect()
}

/// The append-only identifier arena: a log of every identifier insertion,
/// iterated in insertion order.
#[derive(Debug)]
pub struct IdRegistry {
    slab: IdSlab<UnitIdentifier>,
}

impl View for IdRegistry {
    type V = Seq<IdView>;

    closed spec fn view(&self) -> Seq<IdView> {
        slab_view(self.slab)
    }
}

impl Default for IdRegistry {
    fn default() -> (r: Self)
        ensures
            r@ == Seq::<IdView>::empty(),
    {
        IdRegistry { slab: slab_new() }
    }
}

impl IdRegistry {
    /// Stores `id` in the arena and returns a value-equal copy of the stored
    /// identifier. No deduplication is performed: the arena is a log of
    /// insertions, not a set.
    pub fn insert(&mut self, id: UnitIdentifier) -> (r: UnitIdentifier)
        requires
            old(self)@.len() < 0xffff_fffe,
        ensures
            final(self)@ == old(self)@.push(id@),
            r@ == id@,
    {
        slab_insert(&mut self.slab, id)
    }

    /// Every identifier ever inserted, in insertion order.
    pub fn items(&self) -> (r: Vec<UnitIdentifier>)
        ensures
            r@.len() == self@.len(),
            forall|i: int| 0 <= i < r@.len() ==> r@[i]@ == self@[i],
    {
        slab_items(&self.slab)
    }
}

/// The entity registry: an insertion-ordered, unique-keyed map from
/// identifier to catalog record, with overwrite-on-conflict insertion.
#[derive(Debug)]
pub struct UnitRegistry {
    registry: IndexMap<UnitIdentifier, YarpUnit>,
}

impl View for UnitRegistry {
    type V = Seq<(IdView, UnitView)>;

    closed spec fn view(&self) -> Seq<(IdView, UnitView)> {
        unit_map_view(self.registry)
    }
}

impl Default for UnitRegistry {
    fn default() -> (r: Self)
        ensures
            r@ == Seq::<(IdView, UnitView)>::empty(),
            distinct_keys(r@),
    {
        UnitRegistry { registry: unit_map_new() }
    }
}

impl UnitRegistry {
    /// Inserts the record keyed by its own identifier; an existing record
    /// under an equal identifier is overwritten in place, so distinctness of
    /// the keys is preserved.
    pub fn insert(&mut self, unit: YarpUnit)
        ensures
            final(self)@ == entries_insert(old(self)@, unit_id_of(unit@), unit@),
            distinct_keys(old(self)@) ==> distinct_keys(final(self)@),
    {
        let key = unit.id().clone();
        let ghost k = key@;
        let ghost v = unit@;
        unit_map_insert(&mut self.registry, key, unit);
        proof {
            if distinct_keys(old(self)@) {
                lemma_insert_then_lookup::<UnitView>(old(self)@, k, v);
            }
        }
    }

    /// The record stored under `id`. Querying an identifier that was never
    /// inserted is a caller fault, ruled out by the precondition.
    pub fn get(&self, id: &UnitIdentifier) -> (r: &YarpUnit)
        requires
            has_key(self@, id@),
        ensures
            entries_lookup(self@, id@) == Some(r@),
    {
        match unit_map_get(&self.registry, id) {
            Some(u) => u,
            None => vstd::pervasive::unreached(),
        }
    }

    /// Every stored record, in the registry's iteration order.
    pub fn values(&self) -> (r: Vec<YarpUnit>)
        ensures
            r@.len() == self@.len(),
            forall|i: int| 0 <= i < r@.len() ==> r@[i]@ == self@[i].1,
    {
        unit_map_values(&self.registry)
    }
}

/// The model-path registry: an insertion-ordered, unique-keyed map from
/// (stock) identifier to an asset model path.
#[derive(Debug)]
pub struct ModelRegistry {
    registry: IndexMap<UnitIdentifier, String>,
}

impl View for ModelRegistry {
    type V = Seq<(IdView, Seq<char>)>;

    closed spec fn view(&self) -> Seq<(IdView, Seq<char>)> {
        model_map_view(self.registry)
    }
}

impl Default for ModelRegistry {
    fn default() -> (r: Self)
        ensures
            r@ == Seq::<(IdView, Seq<char>)>::empty(),
            distinct_keys(r@),
    {
        ModelRegistry { registry: model_map_new() }
    }
}

impl ModelRegistry {
    /// Overwrite-on-conflict insertion keyed by the identifier, so
    /// distinctness of the keys is preserved.
    pub fn insert(&mut self, id: &UnitIdentifier, model: String)
        ensures
            final(self)@ == entries_insert(old(self)@, id@, model@),
            distinct_keys(old(self)@) ==> distinct_keys(final(self)@),
    {
        let key = id.clone();
        let ghost k = key@;
        let ghost v = model@;
        model_map_insert(&mut self.registry, key, model);
        proof {
            if distinct_keys(old(self)@) {
                lemma_insert_then_lookup::<Seq<char>>(old(self)@, k, v);
            }
        }
    }

    /// Every stored pair of identifier and model path, in insertion order.
    pub fn pairs(&self) -> (r: Vec<(UnitIdentifier, String)>)
        ensures
            r@.len() == self@.len(),
            forall|i: int| 0 <= i < r@.len() ==> (r@[i].0@, r@[i].1@) == self@[i],
    {
        model_map_pairs(&self.registry)
    }
}

/// Mathematical value of the registry aggregate.
pub struct RegistriesView {
    pub ids: Seq<IdView>,
    pub units: Seq<(IdView, UnitView)>,
    pub models: Seq<(IdView, Seq<char>)>,
}

/// The registry aggregate: the sole unit of state threaded through one
/// transformation pass.
#[derive(Debug)]
pub struct Registries {
    pub id: IdRegistry,
    pub unit: UnitRegistry,
    pub model: ModelRegistry,
}

impl View for Registries {
    type V = RegistriesView;

    open spec fn view(&self) -> RegistriesView {
        RegistriesView { ids: self.id@, units: self.unit@, models: self.model@ }
    }
}

/// The value of a freshly created registry aggregate.
pub open spec fn empty_registries() -> RegistriesView {
    RegistriesView { ids: Seq::empty(), units: Seq::empty(), models: Seq::empty() }
}

impl Default for Registries {
    fn default() -> (r: Self)
        ensures
            r@ == empty_registries(),
    {
        Registries {
            id: IdRegistry::default(),
            unit: UnitRegistry::default(),
            model: ModelRegistry::default(),
        }
    }
}

/// Inserting a record and then looking its key up yields exactly that
/// record; every other key keeps its value; key distinctness and the order
/// of keys are preserved, a new key going last.
pub proof fn lemma_insert_then_lookup<V>(s: Seq<(IdView, V)>, k: IdView, v: V)
    requires
        distinct_keys(s),
    ensures
        entries_lookup(entries_insert(s, k, v), k) == Some(v),
        distinct_keys(entries_insert(s, k, v)),
        forall|k2: IdView|
            k2 != k ==> entries_lookup(entries_insert(s, k, v), k2) == entries_lookup(s, k2),
        entries_insert(s, k, v).map_values(|e: (IdView, V)| e.0) == (if has_key(s, k) {
            s.map_values(|e: (IdView, V)| e.0)
        } else {
            s.map_values(|e: (IdView, V)| e.0).push(k)
        }),
{
    let t = entries_insert(s, k, v);
    if has_key(s, k) {
        let i = key_index(s, k);
        assert(0 <= i < s.len() && s[i].0 == k);
        assert(t[i].0 == k);
        assert(has_key(t, k));
        assert(forall|j: int| 0 <= j < t.len() && j != i ==> t[j] == s[j]);
        assert(forall|j: int| 0 <= j < t.len() && t[j].0 == k ==> j == i) by {
            assert forall|j: int| 0 <= j < t.len() && t[j].0 == k implies j == i by {
                if j != i {
                    assert(s[j].0 == k);
                    assert(s[i].0 == k);
                }
            }
        }
        assert(key_index(t, k) == i);
        assert(entries_lookup(t, k) == Some(v));
        assert(distinct_keys(t)) by {
            assert forall|a: int, b: int| 0 <= a < b < t.len() implies t[a].0 != t[b].0 by {
                assert(t[a].0 == s[a].0 && t[b].0 == s[b].0);
            }
        }
        assert forall|k2: IdView| k2 != k implies entries_lookup(t, k2) == entries_lookup(
            s,
            k2,
        ) by {
            assert(forall|j: int| 0 <= j < t.len() ==> t[j].0 == s[j].0);
            if has_key(s, k2) {
                let a = key_index(s, k2);
                assert(t[a].0 == k2);
                assert(has_key(t, k2));
                let b = key_index(t, k2);
                assert(0 <= b < t.len() && t[b].0 == k2);
                assert(s[b].0 == k2);
                assert(a == b || s[a].0 == s[b].0);
                assert(a == b);
                assert(b != i);
                assert(t[b] == s[b]);
            } else {
                assert(!has_key(t, k2)) by {
                    if has_key(t, k2) {
                        let b = key_index(t, k2);
                        assert(s[b].0 == k2);
                    }
                }
            }
        }
        assert(t.map_values(|e: (IdView, V)| e.0) =~= s.map_values(|e: (IdView, V)| e.0));
    } else {
        let n = s.len() as int;
        assert(t[n] == (k, v));
        assert(has_key(t, k));
        assert(forall|j: int| 0 <= j < n ==> t[j] == s[j]);
        assert(forall|j: int| 0 <= j < t.len() && t[j].0 == k ==> j == n) by {
            assert forall|j: int| 0 <= j < t.len() && t[j].0 == k implies j == n by {
                if j != n {
                    assert(s[j].0 == k);
                    assert(has_key(s, k));
                }
            }
        }
        assert(key_index(t, k) == n);
        assert(entries_lookup(t, k) == Some(v));
        assert(distinct_keys(t)) by {
            assert forall|a: int, b: int| 0 <= a < b < t.len() implies t[a].0 != t[b].0 by {
                if b == n {
                    if t[a].0 == k {
                        assert(s[a].0 == k);
                        assert(has_key(s, k));
                    }
                }
            }
        }
        assert forall|k2: IdView| k2 != k implies entries_lookup(t, k2) == entries_lookup(
            s,
            k2,
        ) by {
            if has_key(s, k2) {
                let a = key_index(s, k2);
                assert(t[a].0 == k2);
                assert(has_key(t, k2));
                let b = key_index(t, k2);
                assert(b != n);
                assert(s[b].0 == k2);
                assert(a == b || (distinct_keys(s) && s[a].0 == s[b].0));
                assert(a == b);
                assert(t[b] == s[b]);
            } else {
                assert(!has_key(t, k2)) by {
                    if has_key(t, k2) {
                        let b = key_index(t, k2);
                        assert(b != n);
                        assert(s[b].0 == k2);
                    }
                }
            }
        }
        assert(t.map_values(|e: (IdView, V)| e.0) =~= s.map_values(
            |e: (IdView, V)| e.0,
        ).push(k));
    }
}

} // verus!
