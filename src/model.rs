//! The inventory as a mathematical map from SKU to item, and what each operation
//! does to it.
use vstd::prelude::*;

use crate::error::InventoryError;
use crate::item::{is_valid_price, ItemStock, ItemView};
use crate::messages::{ABSENT_STATUS, REMOVED_STATUS};

verus! {

/// The contents of an inventory: each SKU present mapped to its item.
pub type InventoryMap = Map<Seq<char>, ItemView>;

/// What every stored item satisfies: it sits under its own non-empty SKU and has
/// stock at a valid price.
pub open spec fn stored_item_ok(sku: Seq<char>, item: ItemView) -> bool {
    &&& sku.len() > 0
    &&& item.sku == Some(sku)
    &&& item.stock is Some
    &&& is_valid_price(item.stock->0.price)
}

/// Every stored item satisfies `stored_item_ok`.
pub open spec fn inventory_ok(m: InventoryMap) -> bool {
    forall|sku: Seq<char>| #[trigger] m.contains_key(sku) ==> stored_item_ok(sku, m[sku])
}

/// Why adding `item` to `m` fails, if it does.
pub open spec fn add_error(m: InventoryMap, item: ItemView) -> Option<InventoryError> {
    match item.sku {
        None => Some(InventoryError::NoIdentifier),
        Some(sku) => if sku.len() == 0 {
            Some(InventoryError::EmptySku)
        } else {
            match item.stock {
                None => Some(InventoryError::NoStock),
                Some(stock) => if !is_valid_price(stock.price) {
                    Some(InventoryError::BadPrice)
                } else if m.contains_key(sku) {
                    Some(InventoryError::DuplicateItem)
                } else {
                    None
                },
            }
        },
    }
}

/// The inventory after a successful add of `item`.
pub open spec fn after_add(m: InventoryMap, item: ItemView) -> InventoryMap {
    m.insert(item.sku->0, item)
}

/// What a lookup of `sku` in `m` returns.
pub open spec fn get_result(m: InventoryMap, sku: Seq<char>) -> Result<ItemView, InventoryError> {
    if sku.len() == 0 {
        Err(InventoryError::EmptySku)
    } else if !m.contains_key(sku) {
        Err(InventoryError::ItemNotFound)
    } else {
        Ok(m[sku])
    }
}

/// The status text of a removal of `sku` from `m`.
pub open spec fn remove_status(m: InventoryMap, sku: Seq<char>) -> Seq<char> {
    if m.contains_key(sku) {
        REMOVED_STATUS@
    } else {
        ABSENT_STATUS@
    }
}

/// Why changing the quantity of `sku` in `m` by `delta` fails, if it does.
pub open spec fn quantity_error(m: InventoryMap, sku: Seq<char>, delta: int) -> Option<
    InventoryError,
> {
    if sku.len() == 0 {
        Some(InventoryError::EmptySku)
    } else if delta == 0 {
        Some(InventoryError::ZeroQuantity)
    } else if !m.contains_key(sku) {
        Some(InventoryError::ItemNotFound)
    } else if m[sku].stock is None {
        Some(InventoryError::StockMissing)
    } else if delta < 0 && -delta > m[sku].stock->0.quantity {
        Some(InventoryError::InsufficientInventory)
    } else {
        None
    }
}

/// Whether the quantity that a change by `delta` would give fits the quantity's type
/// (it can only fail to for an increase).
pub open spec fn quantity_change_fits(m: InventoryMap, sku: Seq<char>, delta: int) -> bool {
    m.contains_key(sku) && m[sku].stock is Some ==> m[sku].stock->0.quantity + delta
        <= u32::MAX
}

/// `item` with its quantity set to `quantity` and its price kept.
pub open spec fn with_quantity(item: ItemView, quantity: int) -> ItemView {
    ItemView {
        stock: Some(ItemStock { price: item.stock->0.price, quantity: quantity as u32 }),
        ..item
    }
}

/// The inventory after a successful change of the quantity of `sku` by `delta`.
pub open spec fn after_quantity_change(m: InventoryMap, sku: Seq<char>, delta: int) -> InventoryMap {
    m.insert(sku, with_quantity(m[sku], m[sku].stock->0.quantity + delta))
}

/// Why setting the price of `sku` in `m` to `price` fails, if it does.
pub open spec fn price_error(m: InventoryMap, sku: Seq<char>, price: u32) -> Option<
    InventoryError,
> {
    if sku.len() == 0 {
        Some(InventoryError::EmptySku)
    } else if !is_valid_price(price) {
        Some(InventoryError::BadPrice)
    } else if !m.contains_key(sku) {
        Some(InventoryError::ItemNotFound)
    } else if m[sku].stock is None {
        Some(InventoryError::StockMissing)
    } else if m[sku].stock->0.price == price {
        Some(InventoryError::DuplicatePrice)
    } else {
        None
    }
}

/// `item` with its price set to `price` and its quantity kept.
pub open spec fn with_price(item: ItemView, price: u32) -> ItemView {
    ItemView { stock: Some(ItemStock { price, quantity: item.stock->0.quantity }), ..item }
}

/// The inventory after a successful change of the price of `sku` to `price`.
pub open spec fn after_price_change(m: InventoryMap, sku: Seq<char>, price: u32) -> InventoryMap {
    m.insert(sku, with_price(m[sku], price))
}

} // verus!
