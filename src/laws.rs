use vstd::prelude::*;

use crate::error::InventoryError;
use crate::item::{is_valid_price, ItemView};
use crate::messages::{ABSENT_STATUS, REMOVED_STATUS};
use crate::model::{
    add_error, after_add, after_price_change, after_quantity_change, get_result, inventory_ok,
    price_error, quantity_change_fits, quantity_error, remove_status, InventoryMap,
};

verus! {

/// An item that was added is then returned by a lookup of its SKU exactly as it was
/// given.
pub proof fn lemma_get_after_add(m: InventoryMap, item: ItemView)
    requires
        add_error(m, item) is None,
    ensures
        get_result(after_add(m, item), item.sku->0) == Ok::<ItemView, InventoryError>(item),
{
}

/// Once an item is added, a second add under the same SKU fails with `DuplicateItem`,
/// whatever else the second item holds, provided that it would pass the checks on its
/// own fields (a second item with a bad price fails with `BadPrice` first).
pub proof fn lemma_add_same_sku_rejected(m: InventoryMap, first: ItemView, second: ItemView)
    requires
        add_error(m, first) is None,
        second.sku == first.sku,
        second.stock is Some,
        is_valid_price(second.stock->0.price),
    ensures
        add_error(after_add(m, first), second) == Some(InventoryError::DuplicateItem),
{
}

/// A decrease by more than the quantity held fails with `InsufficientInventory`; a failed
/// quantity change leaves the inventory as it was (see `StoreInventory::update_quantity`),
/// so a lookup afterwards shows the same quantity.
pub proof fn lemma_overdraw_rejected(m: InventoryMap, sku: Seq<char>, decrease: int)
    requires
        inventory_ok(m),
        m.contains_key(sku),
        decrease > m[sku].stock->0.quantity,
    ensures
        quantity_error(m, sku, -decrease) == Some(InventoryError::InsufficientInventory),
{
}

/// After a quantity change that succeeds, a lookup shows the quantity held before plus
/// the change, and the price unchanged.
pub proof fn lemma_quantity_change_seen(m: InventoryMap, sku: Seq<char>, delta: int)
    requires
        quantity_error(m, sku, delta) is None,
        quantity_change_fits(m, sku, delta),
    ensures
        get_result(after_quantity_change(m, sku, delta), sku) matches Ok(v) && v.stock
            matches Some(stock) && stock.quantity == m[sku].stock->0.quantity + delta
            && stock.price == m[sku].stock->0.price,
{
}

/// Setting an item's price to the price already set fails with `DuplicatePrice`.
pub proof fn lemma_same_price_rejected(m: InventoryMap, sku: Seq<char>)
    requires
        inventory_ok(m),
        m.contains_key(sku),
    ensures
        price_error(m, sku, m[sku].stock->0.price) == Some(InventoryError::DuplicatePrice),
{
}

/// Setting a present item's price to another positive price succeeds, and a lookup
/// afterwards shows the new price and the quantity unchanged.
pub proof fn lemma_new_price_seen(m: InventoryMap, sku: Seq<char>, price: u32)
    requires
        inventory_ok(m),
        m.contains_key(sku),
        is_valid_price(price),
        price != m[sku].stock->0.price,
    ensures
        price_error(m, sku, price) is None,
        get_result(after_price_change(m, sku, price), sku) matches Ok(v) && v.stock matches Some(
            stock,
        ) && stock.price == price && stock.quantity == m[sku].stock->0.quantity,
{
}

/// Removing a present SKU reports the removal, and a lookup afterwards fails with
/// `ItemNotFound`; removing an absent SKU reports that it did not exist, a status
/// distinct from the first.
pub proof fn lemma_remove(m: InventoryMap, sku: Seq<char>)
    requires
        sku.len() > 0,
    ensures
        m.contains_key(sku) ==> remove_status(m, sku) == REMOVED_STATUS@ && get_result(
            m.remove(sku),
            sku,
        ) == Err::<ItemView, InventoryError>(InventoryError::ItemNotFound),
        !m.contains_key(sku) ==> remove_status(m, sku) == ABSENT_STATUS@,
        REMOVED_STATUS@ != ABSENT_STATUS@,
{
    reveal_strlit("success: item was removed");
    reveal_strlit("success: item didn't exist");
    assert(REMOVED_STATUS@ == "success: item was removed"@);
    assert(ABSENT_STATUS@ == "success: item didn't exist"@);
    assert(REMOVED_STATUS@.len() != ABSENT_STATUS@.len());
}

} // verus!
