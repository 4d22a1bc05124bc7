use inventory::{
    Item, ItemIdentifier, ItemStock, PriceChangeRequest, QuantityChangeRequest, StoreInventory,
    BAD_PRICE_ERR, DUP_ITEM_ERR, DUP_PRICE_ERR, EMPTY_QUANT_ERR, EMPTY_SKU_ERR, NO_ID_ERR,
    NO_ITEM_ERR, NO_STOCK_ERR, UNSUFF_INV_ERR,
};

fn item_quantity(item: &Item) -> u32 {
    item.stock.as_ref().unwrap().quantity
}

fn item_price(item: &Item) -> f32 {
    f32::from_bits(item.stock.as_ref().unwrap().price)
}

#[test]
fn inventory_management() {
    let mut store = StoreInventory::new();

    // adding a single item to the inventory
    let sku = "9b2f4c1e-7d3a-4e58-a0c6-52f1d8e3b7a9".to_string();
    let item_id = ItemIdentifier { sku: sku.clone() };
    let item_stock = ItemStock {
        price: 1.79f32.to_bits(),
        quantity: 42,
    };
    let item = Item {
        identifier: Some(item_id.clone()),
        stock: Some(item_stock),
        information: None,
    };
    let response = store.add(item.clone()).unwrap();
    assert_eq!(response.status, "success");

    // verifying that items with an blank SKU are rejected
    let bad_item = Item {
        identifier: Some(ItemIdentifier { sku: "".into() }),
        stock: Some(item_stock),
        information: None,
    };
    let response = store.add(bad_item);
    assert!(response.is_err());
    assert_eq!(response.err().unwrap().message(), EMPTY_SKU_ERR);

    // verifying that items with no ID are rejected
    let bad_item = Item {
        identifier: None,
        stock: Some(item_stock),
        information: None,
    };
    let response = store.add(bad_item);
    assert!(response.is_err());
    assert_eq!(response.err().unwrap().message(), NO_ID_ERR);

    // verifying that items marked as $0.00 in cost are rejected
    let bad_item = Item {
        identifier: Some(ItemIdentifier { sku: "FREE".into() }),
        stock: Some(ItemStock {
            price: 0.00f32.to_bits(),
            quantity: 42,
        }),
        information: None,
    };
    let response = store.add(bad_item);
    assert!(response.is_err());
    assert_eq!(response.err().unwrap().message(), BAD_PRICE_ERR);

    // verifying that items with no stock information are rejected
    let bad_item = Item {
        identifier: Some(ItemIdentifier { sku: "NONE".into() }),
        stock: None,
        information: None,
    };
    let response = store.add(bad_item);
    assert!(response.is_err());
    assert_eq!(response.err().unwrap().message(), NO_STOCK_ERR);

    // verifying that duplicate items are rejected
    let response = store.add(item.clone());
    assert!(response.is_err());
    assert_eq!(response.err().unwrap().message(), DUP_ITEM_ERR);

    // adding a 1000 generic items to the inventory
    for i in 1000..2000 {
        let item_id = ItemIdentifier {
            sku: format!("SKU{}", i),
        };
        let item = Item {
            identifier: Some(item_id),
            stock: Some(item_stock),
            information: None,
        };
        let response = store.add(item).unwrap();
        assert_eq!(response.status, "success");
    }

    // reducing item inventory by 35 units
    let request = QuantityChangeRequest {
        sku: sku.clone(),
        change: -35,
    };
    assert!(store.quantity_change_fits(&request));
    let response = store.update_quantity(&request).unwrap();
    assert_eq!(response.status, "success");

    // verifying quantity change
    let quantity = item_quantity(&store.get(&ItemIdentifier { sku: sku.clone() }).unwrap());
    assert_eq!(quantity, 7);

    // increasing item inventory by 7 units
    let request = QuantityChangeRequest {
        sku: sku.clone(),
        change: 7,
    };
    assert!(store.quantity_change_fits(&request));
    let response = store.update_quantity(&request).unwrap();
    assert_eq!(response.status, "success");

    // verifying quantity updates for no-SKU items are rejected
    let request = QuantityChangeRequest {
        sku: "".into(),
        change: 1024,
    };
    let response = store.update_quantity(&request);
    assert!(response.is_err());
    assert_eq!(response.err().unwrap().message(), EMPTY_SKU_ERR);

    // verifying quantity updates that introduce no change are rejected
    let request = QuantityChangeRequest {
        sku: sku.clone(),
        change: 0,
    };
    let response = store.update_quantity(&request);
    assert!(response.is_err());
    assert_eq!(response.err().unwrap().message(), EMPTY_QUANT_ERR);

    // verifying quantity updates for non-existent items are rejected
    let request = QuantityChangeRequest {
        sku: "DOESNTEXIST".into(),
        change: 4098,
    };
    let response = store.update_quantity(&request);
    assert!(response.is_err());
    assert_eq!(response.err().unwrap().message(), NO_ITEM_ERR);

    // verifying quantity updates that would reduce below 0 are rejected
    let request = QuantityChangeRequest {
        sku: sku.clone(),
        change: -15,
    };
    let response = store.update_quantity(&request);
    assert!(response.is_err());
    assert_eq!(response.err().unwrap().message(), UNSUFF_INV_ERR);

    // verifying current item quantity
    let quantity = item_quantity(&store.get(&ItemIdentifier { sku: sku.clone() }).unwrap());
    assert_eq!(quantity, 14);

    // increasing the price of an item to $2.49
    let request = PriceChangeRequest {
        sku: item_id.sku.clone(),
        price: 2.49f32.to_bits(),
    };
    let response = store.update_price(&request).unwrap();
    assert_eq!(response.status, "success");

    // verifying price updates for items with no SKU are rejected
    let request = PriceChangeRequest {
        sku: "".into(),
        price: 9.99f32.to_bits(),
    };
    let response = store.update_price(&request);
    assert!(response.is_err());
    assert_eq!(response.err().unwrap().message(), EMPTY_SKU_ERR);

    // verifying price updates to $0.00 are rejected
    let request = PriceChangeRequest {
        sku: sku.clone(),
        price: 0.00f32.to_bits(),
    };
    let response = store.update_price(&request);
    assert!(response.is_err());
    assert_eq!(response.err().unwrap().message(), BAD_PRICE_ERR);

    // verifying price updates to a negative value are rejected
    let request = PriceChangeRequest {
        sku: sku.clone(),
        price: (-8096.64f32).to_bits(),
    };
    let response = store.update_price(&request);
    assert!(response.is_err());
    assert_eq!(response.err().unwrap().message(), BAD_PRICE_ERR);

    // verifying price updates to a non-existent item are rejected
    let request = PriceChangeRequest {
        sku: "DOESNTEXIST".into(),
        price: 299.99f32.to_bits(),
    };
    let response = store.update_price(&request);
    assert!(response.is_err());
    assert_eq!(response.err().unwrap().message(), NO_ITEM_ERR);

    // verifying price updates to the price already set are rejected
    let request = PriceChangeRequest {
        sku: sku.clone(),
        price: 2.49f32.to_bits(),
    };
    let response = store.update_price(&request);
    assert!(response.is_err());
    assert_eq!(response.err().unwrap().message(), DUP_PRICE_ERR);

    // verifying current item price
    let price = item_price(&store.get(&ItemIdentifier { sku: sku.clone() }).unwrap());
    assert_eq!(price, 2.49);

    // verifying that retrievals of items with no SKU are rejected
    let response = store.get(&ItemIdentifier { sku: "".into() });
    assert!(response.is_err());
    assert_eq!(response.err().unwrap().message(), EMPTY_SKU_ERR);

    // verifying that retrievals of items which don't exist are rejected
    let response = store.get(&ItemIdentifier {
        sku: "DOESNTEXIST".into(),
    });
    assert!(response.is_err());
    assert_eq!(response.err().unwrap().message(), NO_ITEM_ERR);

    // removing all added items
    let response = store.remove(&item_id).unwrap();
    assert_eq!(response.status, "success: item was removed");
    for i in 1000..2000 {
        let item_id = ItemIdentifier {
            sku: format!("SKU{}", i),
        };
        let response = store.remove(&item_id).unwrap();
        assert_eq!(response.status, "success: item was removed");
    }

    // verifying removing items with no SKU is rejected
    let response = store.remove(&ItemIdentifier { sku: "".into() });
    assert!(response.is_err());
    assert_eq!(response.err().unwrap().message(), EMPTY_SKU_ERR);

    // verifying removing non-existent items succeeds, but is reported
    let response = store.remove(&item_id).unwrap();
    assert_eq!(response.status, "success: item didn't exist");
}
