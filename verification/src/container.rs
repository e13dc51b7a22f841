//! A container whose item type is fixed by each implementation.

use vstd::prelude::*;

verus! {

/// A store that items are added to and taken from.
pub trait Container {
    /// What the container holds.
    type Item;

    /// The items held, in the order they were added.
    spec fn held(&self) -> Seq<Self::Item>;

    /// Adds `item` behind all others.
    fn add(&mut self, item: Self::Item)
        ensures
            final(self).held() == old(self).held().push(item),
    ;

    /// Takes the item added last, if there is one.
    fn remove(&mut self) -> (item: Option<Self::Item>)
        ensures
            match item {
                Some(last) => old(self).held().len() > 0 && last == old(self).held().last()
                    && final(self).held() == old(self).held().drop_last(),
                None => old(self).held().len() == 0 && final(self).held() == old(self).held(),
            },
    ;
}

/// A container of 32-bit integers.
pub struct BoxContainer {
    pub items: Vec<i32>,
}

impl Container for BoxContainer {
    type Item = i32;

    open spec fn held(&self) -> Seq<i32> {
        self.items@
    }

    fn add(&mut self, item: i32) {
        self.items.push(item);
    }

    fn remove(&mut self) -> (item: Option<i32>) {
        self.items.pop()
    }
}

} // verus!
