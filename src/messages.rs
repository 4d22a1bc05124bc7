use vstd::prelude::*;

verus! {

/// Status of a successful add, quantity change or price change.
pub const SUCCESS_STATUS: &'static str = "success";

/// Status of a removal that deleted an item.
pub const REMOVED_STATUS: &'static str = "success: item was removed";

/// Status of a removal whose SKU named no item.
pub const ABSENT_STATUS: &'static str = "success: item didn't exist";

/// A request to change the quantity of an item by a signed amount.
#[derive(Debug, PartialEq)]
pub struct QuantityChangeRequest {
    pub sku: String,
    pub change: i32,
}

/// A request to set the price of an item (bit pattern of an `f32`).
#[derive(Debug, PartialEq)]
pub struct PriceChangeRequest {
    pub sku: String,
    pub price: u32,
}

/// The answer to an add or a removal.
#[derive(Debug, PartialEq)]
pub struct InventoryChangeResponse {
    pub status: String,
}

/// The answer to a quantity or price change: the item's stock after it.
#[derive(Debug, PartialEq)]
pub struct InventoryUpdateResponse {
    pub status: String,
    pub price: u32,
    pub quantity: u32,
}

} // verus!
