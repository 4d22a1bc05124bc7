use vstd::prelude::*;

use crate::error::InventoryError;
use crate::item::{Item, ItemIdentifier, ItemView};
use crate::model::get_result;
use crate::store::StoreInventory;

verus! {

/// What one poll of a watched item gives.
#[derive(Debug)]
pub enum WatchEvent {
    /// The item differs from the last snapshot: this is its new state, to be sent on.
    Changed(Item),
    /// The item is as it was: nothing is sent.
    Unchanged,
    /// The item is gone: a `NotFound` failure is sent and the watch ends.
    Removed,
    /// The watch has ended: nothing more is polled or sent.
    Closed,
}

/// A subscription to the changes of one item: its SKU, the last state seen of it, and
/// whether it has ended.
pub struct Watcher {
    sku: String,
    last: Item,
    finished: bool,
}

impl Watcher {
    pub closed spec fn spec_sku(&self) -> Seq<char> {
        self.sku@
    }

    /// The state of the item when it was last seen.
    pub closed spec fn spec_last(&self) -> ItemView {
        self.last@
    }

    pub closed spec fn spec_finished(&self) -> bool {
        self.finished
    }

    /// The SKU watched.
    pub fn sku(&self) -> (r: &String)
        ensures
            r@ == self.spec_sku(),
    {
        &self.sku
    }

    /// The state of the item when it was last seen.
    pub fn last(&self) -> (r: &Item)
        ensures
            r@ == self.spec_last(),
    {
        &self.last
    }

    /// Whether the watch has ended.
    pub fn is_finished(&self) -> (r: bool)
        ensures
            r == self.spec_finished(),
    {
        self.finished
    }

    /// Reads the watched item from `store` once and says what to send. The item is
    /// compared with the last snapshot by its whole value, descriptive fields included.
    pub fn poll(&mut self, store: &StoreInventory) -> (r: WatchEvent)
        requires
            store.wf(),
        ensures
            final(self).spec_sku() == old(self).spec_sku(),
            old(self).spec_finished() ==> r is Closed && final(self).spec_finished()
                && final(self).spec_last() == old(self).spec_last(),
            !old(self).spec_finished() && !store@.contains_key(old(self).spec_sku()) ==> {
                &&& r is Removed
                &&& final(self).spec_finished()
                &&& final(self).spec_last() == old(self).spec_last()
            },
            !old(self).spec_finished() && store@.contains_key(old(self).spec_sku())
                && store@[old(self).spec_sku()] != old(self).spec_last() ==> {
                &&& r matches WatchEvent::Changed(item) && item@ == store@[old(self).spec_sku()]
                &&& !final(self).spec_finished()
                &&& final(self).spec_last() == store@[old(self).spec_sku()]
            },
            !old(self).spec_finished() && store@.contains_key(old(self).spec_sku())
                && store@[old(self).spec_sku()] == old(self).spec_last() ==> {
                &&& r is Unchanged
                &&& !final(self).spec_finished()
                &&& final(self).spec_last() == old(self).spec_last()
            },
    {
        if self.finished {
            return WatchEvent::Closed;
        }
        match store.lookup(&self.sku) {
            None => {
                self.finished = true;
                WatchEvent::Removed
            },
            Some(item) => {
                if item == self.last {
                    WatchEvent::Unchanged
                } else {
                    self.last = item.clone();
                    WatchEvent::Changed(item)
                }
            },
        }
    }

    /// Ends the watch, as when the subscriber has gone away.
    pub fn close(&mut self)
        ensures
            final(self).spec_finished(),
            final(self).spec_sku() == old(self).spec_sku(),
            final(self).spec_last() == old(self).spec_last(),
    {
        self.finished = true;
    }
}

impl StoreInventory {
    /// Starts watching the item filed under `id.sku`, with its present state as the
    /// first snapshot. Fails as `get` does.
    pub fn watch(&self, id: &ItemIdentifier) -> (r: Result<Watcher, InventoryError>)
        requires
            self.wf(),
        ensures
            match get_result(self@, id.sku@) {
                Ok(v) => r matches Ok(w) && w.spec_sku() == id.sku@ && w.spec_last() == v
                    && !w.spec_finished(),
                Err(e) => r matches Err(f) && f == e,
            },
    {
        let last = self.get(id)?;
        Ok(Watcher { sku: id.sku.clone(), last, finished: false })
    }
}

} // verus!
