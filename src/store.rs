use vstd::prelude::*;

use crate::error::InventoryError;
use crate::item::{price_is_valid, Item, ItemIdentifier, ItemStock};
use crate::messages::{
    InventoryChangeResponse, InventoryUpdateResponse, PriceChangeRequest, QuantityChangeRequest,
    ABSENT_STATUS, REMOVED_STATUS, SUCCESS_STATUS,
};
use crate::model::{
    add_error, after_add, after_price_change, after_quantity_change, get_result, inventory_ok,
    price_error, quantity_change_fits, quantity_error, remove_status, stored_item_ok, with_price,
    with_quantity, InventoryMap,
};

verus! {

/// The SKU under which `item` is filed, when it has one.
pub open spec fn sku_of(item: Item) -> Option<Seq<char>> {
    item@.sku
}

/// `items` holds exactly the entries of `m`, each under a distinct SKU, and every entry
/// of `m` satisfies `inventory_ok`.
spec fn list_matches(items: Seq<Item>, m: InventoryMap) -> bool {
    &&& inventory_ok(m)
    &&& forall|i: int|
        0 <= i < items.len() ==> {
            &&& #[trigger] sku_of(items[i]) is Some
            &&& m.contains_key(sku_of(items[i])->0)
            &&& m[sku_of(items[i])->0] == items[i]@
        }
    &&& forall|i: int, j: int|
        0 <= i < items.len() && 0 <= j < items.len() && i != j ==> sku_of(
            #[trigger] items[i],
        ) != sku_of(#[trigger] items[j])
    &&& forall|sku: Seq<char>|
        #[trigger] m.contains_key(sku) ==> exists|i: int|
            0 <= i < items.len() && #[trigger] sku_of(items[i]) == Some(sku)
}

/// Replacing the item at position `i` by one under the same SKU keeps the list in
/// agreement with the map whose entry for that SKU is replaced in the same way.
proof fn lemma_replace(items: Seq<Item>, m: InventoryMap, i: int, item: Item)
    requires
        list_matches(items, m),
        0 <= i < items.len(),
        sku_of(item) == sku_of(items[i]),
        stored_item_ok(sku_of(item)->0, item@),
    ensures
        list_matches(items.update(i, item), m.insert(sku_of(item)->0, item@)),
{
    let items2 = items.update(i, item);
    let m2 = m.insert(sku_of(item)->0, item@);
    assert forall|k: Seq<char>| #[trigger] m2.contains_key(k) implies exists|n: int|
        0 <= n < items2.len() && #[trigger] sku_of(items2[n]) == Some(k) by {
        let j = choose|j: int| 0 <= j < items.len() && #[trigger] sku_of(items[j]) == Some(k);
        assert(sku_of(items2[j]) == Some(k));
    }
}

/// The inventory: a map from SKU to item, kept as a list of items whose SKUs are
/// distinct. Callers that share one between tasks guard it with a single lock, so that
/// each operation below is atomic.
pub struct StoreInventory {
    items: Vec<Item>,
    contents: Ghost<InventoryMap>,
}

impl View for StoreInventory {
    type V = InventoryMap;

    closed spec fn view(&self) -> InventoryMap {
        self.contents@
    }
}

impl Default for StoreInventory {
    fn default() -> (r: Self)
        ensures
            r.wf(),
            r@ == InventoryMap::empty(),
    {
        StoreInventory::new()
    }
}

impl StoreInventory {
    /// The list and the map agree, the SKUs in the list are distinct, and every stored
    /// item satisfies `inventory_ok`.
    pub closed spec fn wf(&self) -> bool {
        list_matches(self.items@, self.contents@)
    }

    /// An empty inventory.
    pub fn new() -> (r: Self)
        ensures
            r.wf(),
            r@ == InventoryMap::empty(),
    {
        StoreInventory { items: Vec::new(), contents: Ghost(InventoryMap::empty()) }
    }

    /// The position of the item filed under `sku`, if any.
    fn find(&self, sku: &String) -> (r: Option<usize>)
        requires
            self.wf(),
        ensures
            match r {
                Some(i) => i < self.items@.len() && sku_of(self.items@[i as int]) == Some(sku@)
                    && self@.contains_key(sku@) && self@[sku@] == self.items@[i as int]@,
                None => !self@.contains_key(sku@),
            },
    {
        let mut i: usize = 0;
        while i < self.items.len()
            invariant
                i <= self.items@.len(),
                self.wf(),
                forall|j: int| 0 <= j < i ==> sku_of(#[trigger] self.items@[j]) != Some(sku@),
            decreases self.items@.len() - i,
        {
            let found = match &self.items[i].identifier {
                Some(id) => id.sku == *sku,
                None => false,
            };
            if found {
                return Some(i);
            }
            i = i + 1;
        }
        proof {
            if self@.contains_key(sku@) {
                let j = choose|j: int|
                    0 <= j < self.items@.len() && #[trigger] sku_of(self.items@[j]) == Some(sku@);
                assert(sku_of(self.items@[j]) != Some(sku@));
            }
        }
        None
    }

    /// Adds `item`, which must have a non-empty SKU and stock at a positive price, and
    /// whose SKU must not be present yet.
    pub fn add(&mut self, item: Item) -> (r: Result<InventoryChangeResponse, InventoryError>)
        requires
            old(self).wf(),
        ensures
            final(self).wf(),
            inventory_ok(final(self)@),
            match add_error(old(self)@, item@) {
                Some(e) => r == Err::<InventoryChangeResponse, InventoryError>(e) && final(self)@
                    == old(self)@,
                None => r is Ok && r->Ok_0.status@ == SUCCESS_STATUS@ && final(self)@
                    == after_add(old(self)@, item@),
            },
    {
        let sku = match &item.identifier {
            Some(id) => {
                if id.sku.as_str().is_empty() {
                    return Err(InventoryError::EmptySku);
                }
                id.sku.clone()
            },
            None => return Err(InventoryError::NoIdentifier),
        };
        match &item.stock {
            Some(stock) => {
                if !price_is_valid(stock.price) {
                    return Err(InventoryError::BadPrice);
                }
            },
            None => return Err(InventoryError::NoStock),
        }
        if self.find(&sku).is_some() {
            return Err(InventoryError::DuplicateItem);
        }
        let ghost old_items = self.items@;
        let ghost m = self.contents@;
        let ghost v = item@;
        self.items.push(item);
        proof {
            let m2 = m.insert(sku@, v);
            assert forall|k: Seq<char>| #[trigger] m2.contains_key(k) implies exists|i: int|
                0 <= i < self.items@.len() && #[trigger] sku_of(self.items@[i]) == Some(k) by {
                if k == sku@ {
                    assert(sku_of(self.items@[old_items.len() as int]) == Some(k));
                } else {
                    let j = choose|j: int|
                        0 <= j < old_items.len() && #[trigger] sku_of(old_items[j]) == Some(k);
                    assert(self.items@[j] == old_items[j]);
                }
            }
            assert forall|i: int|
                0 <= i < old_items.len() implies sku_of(#[trigger] old_items[i]) != Some(sku@) by {
                assert(m.contains_key(sku_of(old_items[i])->0));
            }
        }
        self.contents = Ghost(self.contents@.insert(sku@, v));
        Ok(InventoryChangeResponse { status: SUCCESS_STATUS.to_owned() })
    }

    /// Removes the item filed under `id.sku`, if there is one. Removing a SKU that is
    /// not present is no error; the status tells the two cases apart.
    pub fn remove(&mut self, id: &ItemIdentifier) -> (r: Result<
        InventoryChangeResponse,
        InventoryError,
    >)
        requires
            old(self).wf(),
        ensures
            final(self).wf(),
            inventory_ok(final(self)@),
            if id.sku@.len() == 0 {
                r == Err::<InventoryChangeResponse, InventoryError>(InventoryError::EmptySku)
                    && final(self)@ == old(self)@
            } else {
                r is Ok && r->Ok_0.status@ == remove_status(old(self)@, id.sku@) && final(self)@
                    == old(self)@.remove(id.sku@)
            },
    {
        if id.sku.as_str().is_empty() {
            return Err(InventoryError::EmptySku);
        }
        match self.find(&id.sku) {
            Some(i) => {
                let ghost old_items = self.items@;
                let ghost m = self.contents@;
                let ghost sku = id.sku@;
                self.items.remove(i);
                proof {
                    let m2 = m.remove(sku);
                    assert forall|k: Seq<char>| #[trigger] m2.contains_key(k) implies exists|n: int|
                        0 <= n < self.items@.len() && #[trigger] sku_of(self.items@[n]) == Some(
                            k,
                        ) by {
                        let j = choose|j: int|
                            0 <= j < old_items.len() && #[trigger] sku_of(old_items[j]) == Some(k);
                        assert(j != i);
                        if j < i {
                            assert(self.items@[j] == old_items[j]);
                        } else {
                            assert(self.items@[j - 1] == old_items[j]);
                        }
                    }
                    assert forall|n: int| 0 <= n < self.items@.len() implies sku_of(
                        #[trigger] self.items@[n],
                    ) != Some(sku) by {
                        if n < i {
                            assert(self.items@[n] == old_items[n]);
                        } else {
                            assert(self.items@[n] == old_items[n + 1]);
                        }
                    }
                }
                self.contents = Ghost(self.contents@.remove(id.sku@));
                Ok(InventoryChangeResponse { status: REMOVED_STATUS.to_owned() })
            },
            None => {
                proof {
                    assert(self.contents@.remove(id.sku@) =~= self.contents@);
                }
                Ok(InventoryChangeResponse { status: ABSENT_STATUS.to_owned() })
            },
        }
    }

    /// A copy of the item filed under `id.sku`.
    pub fn get(&self, id: &ItemIdentifier) -> (r: Result<Item, InventoryError>)
        requires
            self.wf(),
        ensures
            match get_result(self@, id.sku@) {
                Ok(v) => r is Ok && r->Ok_0@ == v,
                Err(e) => r == Err::<Item, InventoryError>(e),
            },
    {
        if id.sku.as_str().is_empty() {
            return Err(InventoryError::EmptySku);
        }
        self.lookup(&id.sku).ok_or(InventoryError::ItemNotFound)
    }

    /// A copy of the item filed under `sku`, if there is one; unlike `get`, an empty SKU
    /// is looked up like any other.
    pub fn lookup(&self, sku: &String) -> (r: Option<Item>)
        requires
            self.wf(),
        ensures
            match r {
                Some(item) => self@.contains_key(sku@) && item@ == self@[sku@],
                None => !self@.contains_key(sku@),
            },
    {
        match self.find(sku) {
            Some(i) => Some(self.items[i].clone()),
            None => None,
        }
    }

    /// Whether a change of the quantity held under `change.sku` by `change.change`
    /// gives a quantity that a `u32` holds.
    pub fn quantity_change_fits(&self, change: &QuantityChangeRequest) -> (r: bool)
        requires
            self.wf(),
        ensures
            r == quantity_change_fits(self@, change.sku@, change.change as int),
    {
        match self.find(&change.sku) {
            Some(i) => match self.items[i].stock {
                Some(stock) => change.change <= 0 || stock.quantity as i64 + change.change as i64
                    <= u32::MAX as i64,
                None => true,
            },
            None => true,
        }
    }

    /// Changes the quantity held under `change.sku` by `change.change`, which must not
    /// be zero; a decrease larger than the quantity held is refused.
    pub fn update_quantity(&mut self, change: &QuantityChangeRequest) -> (r: Result<
        InventoryUpdateResponse,
        InventoryError,
    >)
        requires
            old(self).wf(),
            quantity_change_fits(old(self)@, change.sku@, change.change as int),
        ensures
            final(self).wf(),
            inventory_ok(final(self)@),
            match quantity_error(old(self)@, change.sku@, change.change as int) {
                Some(e) => r == Err::<InventoryUpdateResponse, InventoryError>(e) && final(self)@
                    == old(self)@,
                None => {
                    &&& final(self)@ == after_quantity_change(
                        old(self)@,
                        change.sku@,
                        change.change as int,
                    )
                    &&& r is Ok
                    &&& r->Ok_0.status@ == SUCCESS_STATUS@
                    &&& r->Ok_0.price == final(self)@[change.sku@].stock->0.price
                    &&& r->Ok_0.quantity == final(self)@[change.sku@].stock->0.quantity
                },
            },
    {
        if change.sku.as_str().is_empty() {
            return Err(InventoryError::EmptySku);
        }
        if change.change == 0 {
            return Err(InventoryError::ZeroQuantity);
        }
        let i = match self.find(&change.sku) {
            Some(i) => i,
            None => return Err(InventoryError::ItemNotFound),
        };
        let stock = match self.items[i].stock {
            Some(stock) => stock,
            None => return Err(InventoryError::StockMissing),
        };
        let quantity: u32 = if change.change < 0 {
            let decrease: u32 = (-(change.change as i64)) as u32;
            if decrease > stock.quantity {
                return Err(InventoryError::InsufficientInventory);
            }
            stock.quantity - decrease
        } else {
            stock.quantity + change.change as u32
        };
        let new_stock = ItemStock { price: stock.price, quantity };
        let ghost old_items = self.items@;
        let ghost sku = change.sku@;
        self.items[i].stock = Some(new_stock);
        proof {
            assert(with_quantity(self.contents@[sku], quantity as int) == self.items@[i as int]@);
            lemma_replace(old_items, self.contents@, i as int, self.items@[i as int]);
            assert(self.items@ == old_items.update(i as int, self.items@[i as int]));
        }
        self.contents = Ghost(
            self.contents@.insert(sku, with_quantity(self.contents@[sku], quantity as int)),
        );
        Ok(
            InventoryUpdateResponse {
                status: SUCCESS_STATUS.to_owned(),
                price: stock.price,
                quantity,
            },
        )
    }

    /// Sets the price of the item filed under `change.sku` to `change.price`, which must
    /// be positive and differ from the price already set.
    pub fn update_price(&mut self, change: &PriceChangeRequest) -> (r: Result<
        InventoryUpdateResponse,
        InventoryError,
    >)
        requires
            old(self).wf(),
        ensures
            final(self).wf(),
            inventory_ok(final(self)@),
            match price_error(old(self)@, change.sku@, change.price) {
                Some(e) => r == Err::<InventoryUpdateResponse, InventoryError>(e) && final(self)@
                    == old(self)@,
                None => {
                    &&& final(self)@ == after_price_change(old(self)@, change.sku@, change.price)
                    &&& r is Ok
                    &&& r->Ok_0.status@ == SUCCESS_STATUS@
                    &&& r->Ok_0.price == final(self)@[change.sku@].stock->0.price
                    &&& r->Ok_0.quantity == final(self)@[change.sku@].stock->0.quantity
                },
            },
    {
        if change.sku.as_str().is_empty() {
            return Err(InventoryError::EmptySku);
        }
        if !price_is_valid(change.price) {
            return Err(InventoryError::BadPrice);
        }
        let i = match self.find(&change.sku) {
            Some(i) => i,
            None => return Err(InventoryError::ItemNotFound),
        };
        let stock = match self.items[i].stock {
            Some(stock) => stock,
            None => return Err(InventoryError::StockMissing),
        };
        if stock.price == change.price {
            return Err(InventoryError::DuplicatePrice);
        }
        let new_stock = ItemStock { price: change.price, quantity: stock.quantity };
        let ghost old_items = self.items@;
        let ghost sku = change.sku@;
        self.items[i].stock = Some(new_stock);
        proof {
            assert(with_price(self.contents@[sku], change.price) == self.items@[i as int]@);
            lemma_replace(old_items, self.contents@, i as int, self.items@[i as int]);
            assert(self.items@ == old_items.update(i as int, self.items@[i as int]));
        }
        self.contents = Ghost(
            self.contents@.insert(sku, with_price(self.contents@[sku], change.price)),
        );
        Ok(InventoryUpdateResponse {
            status: SUCCESS_STATUS.to_owned(),
            price: change.price,
            quantity: stock.quantity,
        })
    }
}

} // verus!
