//! The already-parsed source tree the transformation engine consumes: shop
//! groupings with their sold entity nodes, and a table of stock model paths.
//!
//! The tree must be acyclic along "built" and "sold" edges; the parsing stage
//! that produces it is responsible for that, and Rust's ownership makes any
//! value of these types finite.

use vstd::prelude::*;

verus! {

/// A stock entity node: a raw engine code together with its model path.
pub struct YarpDataStockUnit {
    pub rawid: String,
    pub model: String,
}

/// The declared kind of a custom entity node.
pub enum YarpDataUnitVariant {
    Unit,
    Building,
    Builder { built: Vec<YarpDataUnit> },
}

/// A custom entity node.
pub struct YarpDataCustomUnit {
    pub uid: String,
    pub name: String,
    pub model: String,
    pub icon: String,
    pub variant: YarpDataUnitVariant,
}

/// One entity node of the source tree.
pub enum YarpDataUnit {
    Custom(YarpDataCustomUnit),
    Stock(YarpDataStockUnit),
}

/// A shop definition: the entities it sells, in source order, and a scale
/// factor. `scale` holds the bit pattern of the single-precision scale value;
/// the engine carries it through without interpreting it.
pub struct YarpDataShop {
    pub uid: String,
    pub name: String,
    pub model: String,
    pub scale: u32,
    pub sold: Vec<YarpDataUnit>,
}

/// A named grouping of shop definitions.
pub struct YarpDataShopGroup {
    pub name: String,
    pub shops: Vec<YarpDataShop>,
}

/// An entry of the stock-model table: a raw engine code and its model path.
pub struct YarpStockModel {
    pub rawid: String,
    pub model: String,
}

/// The whole source tree.
pub struct YarpData {
    pub shops: Vec<YarpDataShopGroup>,
    pub stock_model_registry: Vec<YarpStockModel>,
}

/// Mathematical value of a custom node's declared kind.
pub enum DataVariantView {
    Unit,
    Building,
    Builder { built: Seq<DataUnitView> },
}

/// Mathematical value of one entity node.
pub enum DataUnitView {
    Custom {
        uid: Seq<char>,
        name: Seq<char>,
        model: Seq<char>,
        icon: Seq<char>,
        variant: DataVariantView,
    },
    Stock { rawid: Seq<char>, model: Seq<char> },
}

/// Mathematical value of a shop definition.
pub struct DataShopView {
    pub uid: Seq<char>,
    pub name: Seq<char>,
    pub model: Seq<char>,
    pub scale: u32,
    pub sold: Seq<DataUnitView>,
}

/// Mathematical value of the whole source tree. A stock-model entry is the
/// pair of its raw code and its model path.
pub struct DataView {
    pub groups: Seq<Seq<DataShopView>>,
    pub stock_models: Seq<(Seq<char>, Seq<char>)>,
}

pub open spec fn data_unit_view(u: YarpDataUnit) -> DataUnitView
    decreases u,
{
    match u {
        YarpDataUnit::Custom(c) => DataUnitView::Custom {
            uid: c.uid@,
            name: c.name@,
            model: c.model@,
            icon: c.icon@,
            variant: data_variant_view(c.variant),
        },
        YarpDataUnit::Stock(s) => DataUnitView::Stock { rawid: s.rawid@, model: s.model@ },
    }
}

pub open spec fn data_variant_view(v: YarpDataUnitVariant) -> DataVariantView
    decreases v,
{
    match v {
        YarpDataUnitVariant::Unit => DataVariantView::Unit,
        YarpDataUnitVariant::Building => DataVariantView::Building,
        YarpDataUnitVariant::Builder { built } => DataVariantView::Builder {
            built: data_units_view(built@),
        },
    }
}

pub open spec fn data_units_view(us: Seq<YarpDataUnit>) -> Seq<DataUnitView>
    decreases us,
{
    if us.len() == 0 {
        Seq::empty()
    } else {
        seq![data_unit_view(us[0])] + data_units_view(us.drop_first())
    }
}

/// `data_units_view` translates a sequence of nodes element by element.
pub proof fn lemma_data_units_view(us: Seq<YarpDataUnit>)
    ensures
        data_units_view(us).len() == us.len(),
        forall|i: int|
            0 <= i < us.len() ==> data_units_view(us)[i] == data_unit_view(us[i]),
    decreases us.len(),
{
    if us.len() > 0 {
        lemma_data_units_view(us.drop_first());
    }
}

pub open spec fn data_shop_view(s: YarpDataShop) -> DataShopView {
    DataShopView {
        uid: s.uid@,
        name: s.name@,
        model: s.model@,
        scale: s.scale,
        sold: data_units_view(s.sold@),
    }
}

impl View for YarpDataShop {
    type V = DataShopView;

    open spec fn view(&self) -> DataShopView {
        data_shop_view(*self)
    }
}

impl View for YarpDataShopGroup {
    type V = Seq<DataShopView>;

    open spec fn view(&self) -> Seq<DataShopView> {
        self.shops@.map_values(|s: YarpDataShop| data_shop_view(s))
    }
}

impl View for YarpData {
    type V = DataView;

    open spec fn view(&self) -> DataView {
        DataView {
            groups: self.shops@.map_values(|g: YarpDataShopGroup| g@),
            stock_models: self.stock_model_registry@.map_values(
                |m: YarpStockModel| (m.rawid@, m.model@),
            ),
        }
    }
}

} // verus!
