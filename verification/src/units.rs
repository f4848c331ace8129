//! The entity model: catalog records for custom entities (plain units,
//! buildings, shops, builders) and stock passthrough records.

use crate::ids::{IdView, UnitIdentifier};
use crate::strutil::{trim_of, trim_str};
use vstd::prelude::*;

verus! {

/// Mathematical value of a [`YarpUnitVariant`].
pub enum VariantView {
    Unit,
    Building,
    UnitShop { sold_ids: Seq<IdView>, scale: u32 },
    Builder { built_ids: Seq<IdView> },
}

/// Mathematical value of a [`YarpUnit`].
pub enum UnitView {
    Custom {
        id: IdView,
        variant: VariantView,
        name: Seq<char>,
        model: Seq<char>,
        icon: Seq<char>,
    },
    Stock { id: IdView, model: Seq<char> },
}

/// The variant-specific part of a custom catalog record. `scale` holds the
/// bit pattern of the single-precision shop scale factor, carried through
/// without interpretation.
#[derive(Debug, Clone)]
pub enum YarpUnitVariant {
    Unit,
    Building,
    UnitShop { sold_ids: Vec<UnitIdentifier>, scale: u32 },
    Builder { built_ids: Vec<UnitIdentifier> },
}

/// One catalog record: a custom entity with its variant-specific fields, or
/// a stock passthrough carrying only a model path.
#[derive(Debug, Clone)]
pub enum YarpUnit {
    Custom {
        id: UnitIdentifier,
        variant: YarpUnitVariant,
        name: String,
        model: String,
        icon: String,
    },
    Stock { id: UnitIdentifier, model: String },
}

pub open spec fn ids_view(ids: Seq<UnitIdentifier>) -> Seq<IdView> {
    ids.map_values(|id: UnitIdentifier| id@)
}

impl View for YarpUnitVariant {
    type V = VariantView;

    open spec fn view(&self) -> VariantView {
        match self {
            YarpUnitVariant::Unit => VariantView::Unit,
            YarpUnitVariant::Building => VariantView::Building,
            YarpUnitVariant::UnitShop { sold_ids, scale } => VariantView::UnitShop {
                sold_ids: ids_view(sold_ids@),
                scale: *scale,
            },
            YarpUnitVariant::Builder { built_ids } => VariantView::Builder {
                built_ids: ids_view(built_ids@),
            },
        }
    }
}

impl View for YarpUnit {
    type V = UnitView;

    open spec fn view(&self) -> UnitView {
        match self {
            YarpUnit::Custom { id, variant, name, model, icon } => UnitView::Custom {
                id: id@,
                variant: variant@,
                name: name@,
                model: model@,
                icon: icon@,
            },
            YarpUnit::Stock { id, model } => UnitView::Stock { id: id@, model: model@ },
        }
    }
}

/// The identifier a record is keyed by.
pub open spec fn unit_id_of(v: UnitView) -> IdView {
    match v {
        UnitView::Custom { id, .. } => id,
        UnitView::Stock { id, .. } => id,
    }
}

/// The model path a record carries.
pub open spec fn unit_model_of(v: UnitView) -> Seq<char> {
    match v {
        UnitView::Custom { model, .. } => model,
        UnitView::Stock { model, .. } => model,
    }
}

impl YarpUnit {
    /// A plain custom unit; the model path is trimmed at construction.
    pub fn new_unit(id: UnitIdentifier, name: String, model: String, icon: String) -> (r:
        YarpUnit)
        ensures
            r@ == (UnitView::Custom {
                id: id@,
                variant: VariantView::Unit,
                name: name@,
                model: trim_of(model@),
                icon: icon@,
            }),
    {
        let model = trim_str(model.as_str()).to_owned();
        YarpUnit::Custom { id, name, icon, model, variant: YarpUnitVariant::Unit }
    }

    /// A custom building; the model path is trimmed at construction.
    pub fn new_building(id: UnitIdentifier, name: String, model: String, icon: String) -> (r:
        YarpUnit)
        ensures
            r@ == (UnitView::Custom {
                id: id@,
                variant: VariantView::Building,
                name: name@,
                model: trim_of(model@),
                icon: icon@,
            }),
    {
        let model = trim_str(model.as_str()).to_owned();
        YarpUnit::Custom { id, name, icon, model, variant: YarpUnitVariant::Building }
    }

    /// A vendor shop holding the ordered identifiers of what it sells; its
    /// icon is always empty and its model path is trimmed at construction.
    pub fn new_shop(
        id: UnitIdentifier,
        name: String,
        model: String,
        sold_ids: Vec<UnitIdentifier>,
        scale: u32,
    ) -> (r: YarpUnit)
        ensures
            r@ == (UnitView::Custom {
                id: id@,
                variant: VariantView::UnitShop { sold_ids: ids_view(sold_ids@), scale },
                name: name@,
                model: trim_of(model@),
                icon: Seq::empty(),
            }),
    {
        let model = trim_str(model.as_str()).to_owned();
        let icon = String::new();
        proof {
            assert(icon@ =~= Seq::<char>::empty());
        }
        YarpUnit::Custom {
            id,
            name,
            icon,
            model,
            variant: YarpUnitVariant::UnitShop { sold_ids, scale },
        }
    }

    /// A builder holding the ordered identifiers of what it builds; the
    /// model path is trimmed at construction.
    pub fn new_builder(
        id: UnitIdentifier,
        name: String,
        model: String,
        icon: String,
        built_ids: Vec<UnitIdentifier>,
    ) -> (r: YarpUnit)
        ensures
            r@ == (UnitView::Custom {
                id: id@,
                variant: VariantView::Builder { built_ids: ids_view(built_ids@) },
                name: name@,
                model: trim_of(model@),
                icon: icon@,
            }),
    {
        let model = trim_str(model.as_str()).to_owned();
        YarpUnit::Custom {
            id,
            name,
            icon,
            model,
            variant: YarpUnitVariant::Builder { built_ids },
        }
    }

    /// A custom record with an already-built variant; the model path is
    /// trimmed at construction.
    pub fn new_with_variant(
        id: UnitIdentifier,
        name: String,
        model: String,
        icon: String,
        variant: YarpUnitVariant,
    ) -> (r: YarpUnit)
        ensures
            r@ == (UnitView::Custom {
                id: id@,
                variant: variant@,
                name: name@,
                model: trim_of(model@),
                icon: icon@,
            }),
    {
        let model = trim_str(model.as_str()).to_owned();
        YarpUnit::Custom { id, name, icon, model, variant }
    }

    /// A stock passthrough record; the model path is trimmed at
    /// construction, as every record's is.
    pub fn new_stock(id: UnitIdentifier, model: String) -> (r: YarpUnit)
        ensures
            r@ == (UnitView::Stock { id: id@, model: trim_of(model@) }),
    {
        let model = trim_str(model.as_str()).to_owned();
        YarpUnit::Stock { id, model }
    }

    pub fn id(&self) -> (r: &UnitIdentifier)
        ensures
            r@ == unit_id_of(self@),
    {
        match self {
            YarpUnit::Custom { id, .. } => id,
            YarpUnit::Stock { id, .. } => id,
        }
    }

    pub fn model(&self) -> (r: &str)
        ensures
            r@ == unit_model_of(self@),
    {
        match self {
            YarpUnit::Custom { model, .. } => model.as_str(),
            YarpUnit::Stock { model, .. } => model.as_str(),
        }
    }
}

} // verus!
