use vstd::prelude::*;
use crate::item::{ItemModel, TodoItem};

verus! {

/// Whether some record of `items` carries the identifier `id`.
pub open spec fn has_id(items: Seq<ItemModel>, id: Seq<char>) -> bool {
    exists|i: int| 0 <= i < items.len() && #[trigger] items[i].id == id
}

/// No two records of `items` share an identifier.
pub open spec fn ids_unique(items: Seq<ItemModel>) -> bool {
    forall|i: int, j: int|
        0 <= i < items.len() && 0 <= j < items.len() && i != j ==> #[trigger] items[i].id
            != #[trigger] items[j].id
}

/// The position of the record with identifier `id` (meaningful when `has_id`).
pub open spec fn index_of(items: Seq<ItemModel>, id: Seq<char>) -> int {
    choose|i: int| 0 <= i < items.len() && #[trigger] items[i].id == id
}

/// The record with identifier `id`, if any.
pub open spec fn lookup(items: Seq<ItemModel>, id: Seq<char>) -> Option<ItemModel> {
    if has_id(items, id) {
        Some(items[index_of(items, id)])
    } else {
        None
    }
}

/// `items` without the record whose identifier is `id`.
pub open spec fn without(items: Seq<ItemModel>, id: Seq<char>) -> Seq<ItemModel> {
    if has_id(items, id) {
        items.remove(index_of(items, id))
    } else {
        items
    }
}

/// `item` after an update: both fields replaced and the update time stamped.
pub open spec fn revised(item: ItemModel, title: Seq<char>, quantity: u32, stamp: Seq<char>) -> ItemModel {
    ItemModel { title, quantity, updated_at: Some(stamp), ..item }
}

/// `items` after updating the record whose identifier is `id`.
pub open spec fn with_update(
    items: Seq<ItemModel>,
    id: Seq<char>,
    title: Seq<char>,
    quantity: u32,
    stamp: Seq<char>,
) -> Seq<ItemModel> {
    if has_id(items, id) {
        items.update(index_of(items, id), revised(items[index_of(items, id)], title, quantity, stamp))
    } else {
        items
    }
}

pub open spec fn views(v: Seq<TodoItem>) -> Seq<ItemModel> {
    v.map_values(|t: TodoItem| t@)
}

pub open spec fn opt_item_view(o: Option<TodoItem>) -> Option<ItemModel> {
    match o {
        Some(t) => Some(t@),
        None => None,
    }
}

/// The one position of a unique identifier.
pub proof fn lemma_index_of_unique(items: Seq<ItemModel>, id: Seq<char>, i: int)
    requires
        ids_unique(items),
        0 <= i < items.len(),
        items[i].id == id,
    ensures
        has_id(items, id),
        index_of(items, id) == i,
{
    assert(items[i].id == id);
}

/// After an update of a stored identifier, that identifier finds the revised
/// record.
pub proof fn lemma_lookup_updated(
    items: Seq<ItemModel>,
    id: Seq<char>,
    title: Seq<char>,
    quantity: u32,
    stamp: Seq<char>,
)
    requires
        ids_unique(items),
        has_id(items, id),
    ensures
        lookup(with_update(items, id, title, quantity, stamp), id) == Some(
            revised(items[index_of(items, id)], title, quantity, stamp),
        ),
        ids_unique(with_update(items, id, title, quantity, stamp)),
{
    let i = index_of(items, id);
    let after = with_update(items, id, title, quantity, stamp);
    assert forall|a: int, b: int|
        0 <= a < after.len() && 0 <= b < after.len() && a != b implies #[trigger] after[a].id
            != #[trigger] after[b].id by {
        assert(items[a].id != items[b].id);
    }
    lemma_index_of_unique(after, id, i);
}

/// Why an insertion was refused.
#[derive(Debug, PartialEq, Eq)]
pub enum StoreError {
    /// A record with the same identifier is already stored.
    DuplicateId,
}

/// The to-do records, in insertion order, with unique identifiers.
pub struct TodoStore {
    items: Vec<TodoItem>,
}

impl View for TodoStore {
    type V = Seq<ItemModel>;

    closed spec fn view(&self) -> Seq<ItemModel> {
        views(self.items@)
    }
}

impl TodoStore {
    /// The store's invariant: identifiers are unique.
    pub open spec fn wf(&self) -> bool {
        ids_unique(self@)
    }

    /// An empty store.
    pub fn new() -> (r: TodoStore)
        ensures
            r@ == Seq::<ItemModel>::empty(),
            r.wf(),
    {
        let r = TodoStore { items: Vec::new() };
        assert(r@ =~= Seq::<ItemModel>::empty());
        r
    }

    /// The number of stored records.
    pub fn len(&self) -> (r: usize)
        ensures
            r == self@.len(),
    {
        self.items.len()
    }

    /// Every record, in insertion order.
    pub fn list(&self) -> (r: Vec<TodoItem>)
        ensures
            views(r@) == self@,
    {
        let n = self.items.len();
        let mut out: Vec<TodoItem> = Vec::new();
        let mut i: usize = 0;
        while i < n
            invariant
                n == self@.len(),
                i <= n,
                views(out@) =~= self@.subrange(0, i as int),
            decreases n - i,
        {
            assert(self@[i as int] == self.items@[i as int]@);
            let t = self.items[i].duplicate();
            let ghost prev = out@;
            out.push(t);
            assert(views(out@) =~= views(prev).push(self@[i as int]));
            i = i + 1;
        }
        out
    }

    /// The record with identifier `id`, if one is stored.
    pub fn get(&self, id: &String) -> (r: Option<TodoItem>)
        requires
            self.wf(),
        ensures
            opt_item_view(r) == lookup(self@, id@),
    {
        match self.position(id) {
            Some(i) => Some(self.items[i].duplicate()),
            None => None,
        }
    }

    /// Stores `item` at the end, unless its identifier is already taken.
    pub fn insert(&mut self, item: TodoItem) -> (r: Result<(), StoreError>)
        requires
            old(self).wf(),
        ensures
            final(self).wf(),
            has_id(old(self)@, item.id@) ==> r == Err::<(), StoreError>(StoreError::DuplicateId)
                && final(self)@ == old(self)@,
            !has_id(old(self)@, item.id@) ==> r == Ok::<(), StoreError>(())
                && final(self)@ == old(self)@.push(item@),
    {
        match self.position(&item.id) {
            Some(_) => Err(StoreError::DuplicateId),
            None => {
                let ghost before = self@;
                self.items.push(item);
                assert(self@ =~= before.push(item@));
                assert(ids_unique(self@)) by {
                    assert forall|i: int, j: int|
                        0 <= i < self@.len() && 0 <= j < self@.len() && i != j implies #[trigger] self@[i].id
                            != #[trigger] self@[j].id by {
                        if i == before.len() as int {
                            assert(before[j].id != item@.id);
                        } else if j == before.len() as int {
                            assert(before[i].id != item@.id);
                        }
                    }
                }
                Ok(())
            },
        }
    }

    /// Replaces the title and quantity of the record with identifier `id`
    /// and stamps its update time; returns the updated record, or `None`
    /// (leaving the store as it was) when no record has that identifier.
    pub fn update(&mut self, id: &String, title: String, quantity: u32, stamp: String) -> (r: Option<
        TodoItem,
    >)
        requires
            old(self).wf(),
        ensures
            final(self).wf(),
            final(self)@ == with_update(old(self)@, id@, title@, quantity, stamp@),
            opt_item_view(r) == lookup(final(self)@, id@),
            r.is_some() == has_id(old(self)@, id@),
    {
        match self.position(id) {
            Some(i) => {
                let ghost before = self@;
                let t = TodoItem {
                    id: self.items[i].id.clone(),
                    title,
                    quantity,
                    created_at: self.items[i].created_at.clone(),
                    updated_at: Some(stamp),
                };
                let ghost tv = t@;
                let copy = t.duplicate();
                self.items.set(i, t);
                let ghost nv = revised(before[i as int], title@, quantity, stamp@);
                assert(tv == nv);
                assert(self@ =~= before.update(i as int, nv));
                assert(ids_unique(self@)) by {
                    assert forall|a: int, b: int|
                        0 <= a < self@.len() && 0 <= b < self@.len() && a != b implies #[trigger] self@[a].id
                            != #[trigger] self@[b].id by {
                        assert(before[a].id != before[b].id);
                    }
                }
                proof {
                    lemma_index_of_unique(self@, id@, i as int);
                }
                Some(copy)
            },
            None => None,
        }
    }

    /// Removes the record with identifier `id`; `false` (and no change) when
    /// no record has that identifier.
    pub fn remove(&mut self, id: &String) -> (r: bool)
        requires
            old(self).wf(),
        ensures
            final(self).wf(),
            final(self)@ == without(old(self)@, id@),
            r == has_id(old(self)@, id@),
    {
        match self.position(id) {
            Some(i) => {
                let ghost before = self@;
                let _ = self.items.remove(i);
                assert(self@ =~= before.remove(i as int));
                assert(ids_unique(self@)) by {
                    assert forall|a: int, b: int|
                        0 <= a < self@.len() && 0 <= b < self@.len() && a != b implies #[trigger] self@[a].id
                            != #[trigger] self@[b].id by {
                        let a2 = if a < i { a } else { a + 1 };
                        let b2 = if b < i { b } else { b + 1 };
                        assert(self@[a] == before[a2]);
                        assert(self@[b] == before[b2]);
                    }
                }
                true
            },
            None => false,
        }
    }

    /// The position of the record with identifier `id`.
    fn position(&self, id: &String) -> (r: Option<usize>)
        requires
            self.wf(),
        ensures
            match r {
                Some(i) => i < self@.len() && has_id(self@, id@) && index_of(self@, id@) == i,
                None => !has_id(self@, id@),
            },
    {
        let n = self.items.len();
        let mut i: usize = 0;
        while i < n
            invariant
                self.wf(),
                n == self@.len(),
                i <= n,
                forall|k: int| 0 <= k < i ==> #[trigger] self@[k].id != id@,
            decreases n - i,
        {
            assert(self@[i as int] == self.items@[i as int]@);
            if self.items[i].id == *id {
                proof {
                    lemma_index_of_unique(self@, id@, i as int);
                }
                return Some(i);
            }
            i = i + 1;
        }
        None
    }
}

} // verus!
