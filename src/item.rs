use vstd::prelude::*;

verus! {

/// Bit pattern of `f32::INFINITY`. Read as unsigned integers, the bit patterns of the
/// positive single-precision numbers (infinity included) are exactly `1..=` this value.
pub const POSITIVE_INFINITY_BITS: u32 = 0x7f80_0000;

/// A price is held as the bit pattern of an IEEE-754 single-precision number; it is
/// valid when that number is greater than zero (so neither zero, a negative number nor
/// NaN).
pub open spec fn is_valid_price(bits: u32) -> bool {
    0 < bits <= POSITIVE_INFINITY_BITS
}

/// Whether a price bit pattern stands for a number greater than zero.
pub fn price_is_valid(bits: u32) -> (r: bool)
    ensures
        r == is_valid_price(bits),
{
    0 < bits && bits <= POSITIVE_INFINITY_BITS
}

/// What a possibly absent string holds, as characters.
pub open spec fn opt_str_view(s: Option<String>) -> Option<Seq<char>> {
    match s {
        Some(s) => Some(s@),
        None => None,
    }
}

fn opt_str_eq(a: &Option<String>, b: &Option<String>) -> (r: bool)
    ensures
        r == (opt_str_view(*a) == opt_str_view(*b)),
{
    match (a, b) {
        (Some(x), Some(y)) => *x == *y,
        (None, None) => true,
        _ => false,
    }
}

fn opt_str_clone(a: &Option<String>) -> (r: Option<String>)
    ensures
        r == *a,
{
    match a {
        Some(s) => Some(s.clone()),
        None => None,
    }
}

/// The identifier of an item: its stock-keeping unit.
#[derive(Debug)]
pub struct ItemIdentifier {
    pub sku: String,
}

impl Clone for ItemIdentifier {
    fn clone(&self) -> (r: Self)
        ensures
            r == *self,
    {
        ItemIdentifier { sku: self.sku.clone() }
    }
}

impl PartialEq for ItemIdentifier {
    fn eq(&self, other: &ItemIdentifier) -> (r: bool) {
        self.sku == other.sku
    }
}

impl vstd::std_specs::cmp::PartialEqSpecImpl for ItemIdentifier {
    open spec fn obeys_eq_spec() -> bool {
        true
    }

    open spec fn eq_spec(&self, other: &ItemIdentifier) -> bool {
        self.sku@ == other.sku@
    }
}

/// The sale state of an item: its price (bit pattern of an `f32`) and how many are held.
#[derive(Debug, Clone, Copy, PartialEq, Eq, Structural)]
pub struct ItemStock {
    pub price: u32,
    pub quantity: u32,
}

/// Descriptive information on an item, never validated.
#[derive(Debug)]
pub struct ItemInformation {
    pub name: Option<String>,
    pub description: Option<String>,
}

/// What an `ItemInformation` holds, as characters.
pub struct InformationView {
    pub name: Option<Seq<char>>,
    pub description: Option<Seq<char>>,
}

impl View for ItemInformation {
    type V = InformationView;

    open spec fn view(&self) -> InformationView {
        InformationView {
            name: opt_str_view(self.name),
            description: opt_str_view(self.description),
        }
    }
}

impl Clone for ItemInformation {
    fn clone(&self) -> (r: Self)
        ensures
            r == *self,
    {
        ItemInformation {
            name: opt_str_clone(&self.name),
            description: opt_str_clone(&self.description),
        }
    }
}

impl PartialEq for ItemInformation {
    fn eq(&self, other: &ItemInformation) -> (r: bool) {
        opt_str_eq(&self.name, &other.name) && opt_str_eq(&self.description, &other.description)
    }
}

impl vstd::std_specs::cmp::PartialEqSpecImpl for ItemInformation {
    open spec fn obeys_eq_spec() -> bool {
        true
    }

    open spec fn eq_spec(&self, other: &ItemInformation) -> bool {
        self@ == other@
    }
}

/// The unit of inventory.
#[derive(Debug)]
pub struct Item {
    pub identifier: Option<ItemIdentifier>,
    pub stock: Option<ItemStock>,
    pub information: Option<ItemInformation>,
}

/// What an `Item` holds: its SKU, its stock and its descriptive information.
pub struct ItemView {
    pub sku: Option<Seq<char>>,
    pub stock: Option<ItemStock>,
    pub information: Option<InformationView>,
}

impl View for Item {
    type V = ItemView;

    open spec fn view(&self) -> ItemView {
        ItemView {
            sku: match self.identifier {
                Some(id) => Some(id.sku@),
                None => None,
            },
            stock: self.stock,
            information: match self.information {
                Some(info) => Some(info@),
                None => None,
            },
        }
    }
}

impl Clone for Item {
    fn clone(&self) -> (r: Self)
        ensures
            r == *self,
    {
        Item {
            identifier: match &self.identifier {
                Some(id) => Some(id.clone()),
                None => None,
            },
            stock: self.stock,
            information: match &self.information {
                Some(info) => Some(info.clone()),
                None => None,
            },
        }
    }
}

impl PartialEq for Item {
    fn eq(&self, other: &Item) -> (r: bool) {
        let same_id = match (&self.identifier, &other.identifier) {
            (Some(a), Some(b)) => a.sku == b.sku,
            (None, None) => true,
            _ => false,
        };
        let same_info = match (&self.information, &other.information) {
            (Some(a), Some(b)) => a.eq(b),
            (None, None) => true,
            _ => false,
        };
        same_id && self.stock == other.stock && same_info
    }
}

impl vstd::std_specs::cmp::PartialEqSpecImpl for Item {
    open spec fn obeys_eq_spec() -> bool {
        true
    }

    open spec fn eq_spec(&self, other: &Item) -> bool {
        self@ == other@
    }
}

} // verus!
