pub mod error;
pub mod item;
pub mod laws;
pub mod messages;
pub mod model;
pub mod store;
pub mod watch;

pub use error::{
    Code, InventoryError, BAD_PRICE_ERR, DUP_ITEM_ERR, DUP_PRICE_ERR, EMPTY_QUANT_ERR,
    EMPTY_SKU_ERR, NO_ID_ERR, NO_ITEM_ERR, NO_STOCK_ERR, UNSUFF_INV_ERR,
};
pub use item::{price_is_valid, Item, ItemIdentifier, ItemInformation, ItemStock};
pub use messages::{
    InventoryChangeResponse, InventoryUpdateResponse, PriceChangeRequest, QuantityChangeRequest,
    ABSENT_STATUS, REMOVED_STATUS, SUCCESS_STATUS,
};
pub use store::StoreInventory;
pub use watch::{WatchEvent, Watcher};
