use vstd::prelude::*;

verus! {

pub const BAD_PRICE_ERR: &'static str = "provided PRICE was invalid";

pub const DUP_PRICE_ERR: &'static str = "item is already at this price";

pub const DUP_ITEM_ERR: &'static str = "item already exists in inventory";

pub const EMPTY_QUANT_ERR: &'static str = "invalid quantity of 0 provided";

pub const EMPTY_SKU_ERR: &'static str = "provided SKU was empty";

pub const NO_ID_ERR: &'static str = "no ID or SKU provided for item";

pub const NO_ITEM_ERR: &'static str = "the item requested was not found";

pub const NO_STOCK_ERR: &'static str = "no stock provided for item";

pub const UNSUFF_INV_ERR: &'static str = "not enough inventory for quantity change";

/// The category of a failure.
#[derive(Debug, Clone, Copy, PartialEq, Eq, Structural)]
pub enum Code {
    InvalidArgument,
    AlreadyExists,
    NotFound,
    ResourceExhausted,
    Internal,
}

/// Why an operation on the inventory failed.
#[derive(Debug, Clone, Copy, PartialEq, Eq, Structural)]
pub enum InventoryError {
    /// The SKU given is the empty string.
    EmptySku,
    /// An item to add carries no identifier.
    NoIdentifier,
    /// A price is zero, negative or not a number.
    BadPrice,
    /// A price change names the price that is already set.
    DuplicatePrice,
    /// An item with that SKU is already present.
    DuplicateItem,
    /// A quantity change of zero.
    ZeroQuantity,
    /// No item with that SKU is present.
    ItemNotFound,
    /// An item to add carries no stock.
    NoStock,
    /// A stored item has no stock (the inventory never stores such an item).
    StockMissing,
    /// A decrease larger than the quantity held.
    InsufficientInventory,
}

impl InventoryError {
    pub open spec fn spec_code(self) -> Code {
        match self {
            InventoryError::DuplicateItem => Code::AlreadyExists,
            InventoryError::ItemNotFound => Code::NotFound,
            InventoryError::InsufficientInventory => Code::ResourceExhausted,
            InventoryError::StockMissing => Code::Internal,
            _ => Code::InvalidArgument,
        }
    }

    pub open spec fn spec_message(self) -> Seq<char> {
        match self {
            InventoryError::EmptySku => EMPTY_SKU_ERR@,
            InventoryError::NoIdentifier => NO_ID_ERR@,
            InventoryError::BadPrice => BAD_PRICE_ERR@,
            InventoryError::DuplicatePrice => DUP_PRICE_ERR@,
            InventoryError::DuplicateItem => DUP_ITEM_ERR@,
            InventoryError::ZeroQuantity => EMPTY_QUANT_ERR@,
            InventoryError::ItemNotFound => NO_ITEM_ERR@,
            InventoryError::NoStock => NO_STOCK_ERR@,
            InventoryError::StockMissing => NO_STOCK_ERR@,
            InventoryError::InsufficientInventory => UNSUFF_INV_ERR@,
        }
    }

    /// The category of this failure.
    pub fn code(&self) -> (r: Code)
        ensures
            r == self.spec_code(),
    {
        match self {
            InventoryError::DuplicateItem => Code::AlreadyExists,
            InventoryError::ItemNotFound => Code::NotFound,
            InventoryError::InsufficientInventory => Code::ResourceExhausted,
            InventoryError::StockMissing => Code::Internal,
            _ => Code::InvalidArgument,
        }
    }

    /// The fixed human-readable text of this failure.
    pub fn message(&self) -> (r: &'static str)
        ensures
            r@ == self.spec_message(),
    {
        match self {
            InventoryError::EmptySku => EMPTY_SKU_ERR,
            InventoryError::NoIdentifier => NO_ID_ERR,
            InventoryError::BadPrice => BAD_PRICE_ERR,
            InventoryError::DuplicatePrice => DUP_PRICE_ERR,
            InventoryError::DuplicateItem => DUP_ITEM_ERR,
            InventoryError::ZeroQuantity => EMPTY_QUANT_ERR,
            InventoryError::ItemNotFound => NO_ITEM_ERR,
            InventoryError::NoStock => NO_STOCK_ERR,
            InventoryError::StockMissing => NO_STOCK_ERR,
            InventoryError::InsufficientInventory => UNSUFF_INV_ERR,
        }
    }
}

} // verus!
