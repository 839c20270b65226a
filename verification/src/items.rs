//! The dynamic list: items that each own a counter, told apart by a key that
//! is assigned when the item is appended and never given out again.

use vstd::prelude::*;

verus! {

/// How many items the list starts with.
pub const INITIAL_ITEMS: u32 = 5;

/// One item of the list: its key and its own count.
#[derive(Clone, Copy, Debug, PartialEq, Eq, Structural)]
pub struct Item {
    pub key: u32,
    pub count: u32,
}

/// The items of the list in the order in which they were appended, and the
/// key that the next appended item receives.
#[derive(Debug)]
pub struct ItemList {
    items: Vec<Item>,
    next_key: u32,
}

impl View for ItemList {
    type V = Seq<Item>;

    closed spec fn view(&self) -> Seq<Item> {
        self.items@
    }
}

/// The item that is appended when `key` is the next key: its count starts one
/// above its key.
pub open spec fn fresh_item(key: nat) -> Item {
    Item { key: key as u32, count: (key + 1) as u32 }
}

/// The items a new list holds.
pub open spec fn initial_items() -> Seq<Item> {
    Seq::new(INITIAL_ITEMS as nat, |i: int| fresh_item(i as nat))
}

/// Whether one of `items` has the key `key`.
pub open spec fn has_key(items: Seq<Item>, key: u32) -> bool {
    exists|i: int| 0 <= i < items.len() && #[trigger] items[i].key == key
}

/// The keys stand in rising order, so that no two items share one.
pub open spec fn keys_rise(items: Seq<Item>) -> bool {
    forall|i: int, j: int|
        0 <= i < j < items.len() ==> #[trigger] items[i].key < #[trigger] items[j].key
}

/// `items` after a click on the item with the key `key`: that item's count is
/// one higher, and every other item is as it was.
pub open spec fn after_click(items: Seq<Item>, key: u32) -> Seq<Item> {
    Seq::new(
        items.len(),
        |i: int|
            if items[i].key == key {
                Item { key, count: (items[i].count + 1) as u32 }
            } else {
                items[i]
            },
    )
}

impl ItemList {
    /// The key that the next appended item receives.
    pub closed spec fn upcoming_key(&self) -> nat {
        self.next_key as nat
    }

    /// The list is well formed: keys rise along it, and every key that was
    /// given out lies below the next one.
    pub open spec fn wf(&self) -> bool {
        &&& keys_rise(self@)
        &&& forall|i: int| 0 <= i < self@.len() ==> (#[trigger] self@[i]).key < self.upcoming_key()
    }

    /// The list as the page first shows it.
    pub fn new() -> (list: ItemList)
        ensures
            list.wf(),
            list@ == initial_items(),
            list.upcoming_key() == INITIAL_ITEMS,
    {
        let mut items: Vec<Item> = Vec::new();
        let mut key: u32 = 0;
        while key < INITIAL_ITEMS
            invariant
                key <= INITIAL_ITEMS,
                items@.len() == key,
                forall|i: int| 0 <= i < key ==> #[trigger] items@[i] == fresh_item(i as nat),
            decreases INITIAL_ITEMS - key,
        {
            items.push(Item { key, count: key + 1 });
            key = key + 1;
        }
        ItemList { items, next_key: key }
    }

    /// Appends one item under a key that no item had before.
    pub fn add_item(&mut self)
        requires
            old(self).wf(),
            old(self).upcoming_key() < u32::MAX,
        ensures
            final(self).wf(),
            final(self)@ == old(self)@.push(fresh_item(old(self).upcoming_key())),
            final(self).upcoming_key() == old(self).upcoming_key() + 1,
            final(self)@.len() == old(self)@.len() + 1,
            !has_key(old(self)@, final(self)@.last().key),
    {
        let key = self.next_key;
        self.items.push(Item { key, count: key + 1 });
        self.next_key = key + 1;
    }

    /// A click on the button of the item with the key `key`: its count goes
    /// up by one. Says whether the list has such an item.
    pub fn click_item(&mut self, key: u32) -> (found: bool)
        requires
            old(self).wf(),
            forall|i: int|
                0 <= i < old(self)@.len() && (#[trigger] old(self)@[i]).key == key
                    ==> old(self)@[i].count < u32::MAX,
        ensures
            final(self).wf(),
            final(self)@ == after_click(old(self)@, key),
            final(self).upcoming_key() == old(self).upcoming_key(),
            found == has_key(old(self)@, key),
    {
        let mut index: usize = 0;
        while index < self.items.len()
            invariant
                *self == *old(self),
                self.wf(),
                forall|i: int|
                    0 <= i < self@.len() && (#[trigger] self@[i]).key == key
                        ==> self@[i].count < u32::MAX,
                index <= self@.len(),
                forall|i: int| 0 <= i < index ==> (#[trigger] self@[i]).key != key,
            decreases self@.len() - index,
        {
            let item = self.items[index];
            if item.key == key {
                self.items.set(index, Item { key, count: item.count + 1 });
                return true;
            }
            index = index + 1;
        }
        false
    }

    /// The count of the item with the key `key`, if the list has one.
    pub fn count_of(&self, key: u32) -> (count: Option<u32>)
        requires
            self.wf(),
        ensures
            match count {
                Some(shown) => exists|i: int|
                    0 <= i < self@.len() && #[trigger] self@[i] == (Item { key, count: shown }),
                None => !has_key(self@, key),
            },
    {
        let mut index: usize = 0;
        while index < self.items.len()
            invariant
                index <= self@.len(),
                forall|i: int| 0 <= i < index ==> (#[trigger] self@[i]).key != key,
            decreases self@.len() - index,
        {
            let item = self.items[index];
            if item.key == key {
                return Some(item.count);
            }
            index = index + 1;
        }
        None
    }

    /// The items, in the order in which they were appended.
    pub fn items(&self) -> (items: &Vec<Item>)
        ensures
            items@ == self@,
    {
        &self.items
    }

    /// How many items the list holds.
    pub fn len(&self) -> (len: usize)
        ensures
            len == self@.len(),
    {
        self.items.len()
    }

    /// The key that the next appended item receives.
    pub fn next_key(&self) -> (key: u32)
        ensures
            key == self.upcoming_key(),
    {
        self.next_key
    }
}

/// No two items of a well-formed list share a key.
pub proof fn keys_are_unique(list: ItemList, i: int, j: int)
    requires
        list.wf(),
        0 <= i < list@.len(),
        0 <= j < list@.len(),
        i != j,
    ensures
        list@[i].key != list@[j].key,
{
}

} // verus!
