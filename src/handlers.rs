use vstd::prelude::*;
use crate::fresh::{new_id, now_rfc3339};
use crate::item::{ItemModel, NewItem, TodoItem};
use crate::reply::{
    BodyModel, Reply, CREATED, INTERNAL_ERROR, NOT_FOUND, OK, create_reply, delete_reply,
    fetch_reply, item_reply, list_reply, revised_reply, text_reply,
};
use crate::store::{has_id, lookup, with_update, without, TodoStore};

verus! {

/// The record that a create request with these values produces.
pub open spec fn created(id: Seq<char>, title: Seq<char>, quantity: u32, created_at: Seq<char>) -> ItemModel {
    ItemModel { id, title, quantity, created_at, updated_at: None }
}

/// Lists every stored record, in insertion order.
pub fn get_todo_item(store: &TodoStore) -> (r: Reply)
    ensures
        r.status == OK,
        r.body@ == BodyModel::Items(store@),
{
    list_reply(Ok(store.list()))
}

/// Fetches the record with identifier `id`.
pub fn get_item(store: &TodoStore, id: &String) -> (r: Reply)
    requires
        store.wf(),
    ensures
        match lookup(store@, id@) {
            Some(t) => item_reply(r, OK, t),
            None => text_reply(r, NOT_FOUND, "Todo item not found"@),
        },
{
    fetch_reply(store.get(id))
}

/// The record that a create request produces under the given identifier
/// and creation time.
pub fn new_record(todo: NewItem, id: String, created_at: String) -> (r: TodoItem)
    ensures
        r@ == created(id@, todo.title@, todo.quantity, created_at@),
{
    TodoItem { id, title: todo.title, quantity: todo.quantity, created_at, updated_at: None }
}

/// Creates a record under the given identifier and creation time. The
/// store refuses an identifier that is already taken, which is reported as
/// a storage failure.
pub fn add_item_with(store: &mut TodoStore, todo: NewItem, id: String, created_at: String) -> (r: Reply)
    requires
        old(store).wf(),
    ensures
        final(store).wf(),
        has_id(old(store)@, id@) ==> text_reply(r, INTERNAL_ERROR, "Failed to add item"@)
            && final(store)@ == old(store)@,
        !has_id(old(store)@, id@) ==> item_reply(r, CREATED, created(id@, todo.title@, todo.quantity, created_at@))
            && final(store)@ == old(store)@.push(created(id@, todo.title@, todo.quantity, created_at@)),
{
    let item = new_record(todo, id, created_at);
    let copy = item.duplicate();
    match store.insert(item) {
        Ok(()) => create_reply(Ok(copy)),
        Err(_) => create_reply(Err(())),
    }
}

/// Creates a record with a fresh random identifier, stamped with the
/// current time.
pub fn add_item(store: &mut TodoStore, todo: NewItem) -> (r: Reply)
    requires
        old(store).wf(),
    ensures
        final(store).wf(),
        r.status == CREATED || r.status == INTERNAL_ERROR,
        r.status == INTERNAL_ERROR ==> exists|i: int|
            0 <= i < old(store)@.len() && (#[trigger] old(store)@[i]).id.len() == 36,
        r.status == INTERNAL_ERROR ==> text_reply(r, INTERNAL_ERROR, "Failed to add item"@)
            && final(store)@ == old(store)@,
        r.status == CREATED ==> ({
            let t = r.body@->Item_0;
            &&& r.body@ is Item
            &&& t == created(t.id, todo.title@, todo.quantity, t.created_at)
            &&& t.id.len() == 36
            &&& t.created_at.len() > 0
            &&& !has_id(old(store)@, t.id)
            &&& final(store)@ == old(store)@.push(t)
        }),
{
    let id = new_id();
    let created_at = now_rfc3339();
    add_item_with(store, todo, id, created_at)
}

/// Replaces the title and quantity of the record with identifier `id` and
/// stamps its update time with `stamp`.
pub fn update_item_with(store: &mut TodoStore, id: &String, todo: NewItem, stamp: String) -> (r: Reply)
    requires
        old(store).wf(),
    ensures
        final(store).wf(),
        final(store)@ == with_update(old(store)@, id@, todo.title@, todo.quantity, stamp@),
        match lookup(final(store)@, id@) {
            Some(t) => has_id(old(store)@, id@) && item_reply(r, OK, t),
            None => !has_id(old(store)@, id@) && text_reply(r, NOT_FOUND, "Item not found"@),
        },
{
    revised_reply(store.update(id, todo.title, todo.quantity, stamp))
}

/// Replaces the title and quantity of the record with identifier `id` and
/// stamps its update time with the current time.
pub fn update_item(store: &mut TodoStore, id: &String, todo: NewItem) -> (r: Reply)
    requires
        old(store).wf(),
    ensures
        final(store).wf(),
        has_id(old(store)@, id@) ==> ({
            let t = lookup(final(store)@, id@)->0;
            &&& lookup(final(store)@, id@) is Some
            &&& item_reply(r, OK, t)
            &&& t.updated_at is Some
            &&& t.updated_at->0.len() > 0
            &&& final(store)@ == with_update(old(store)@, id@, todo.title@, todo.quantity, t.updated_at->0)
        }),
        !has_id(old(store)@, id@) ==> text_reply(r, NOT_FOUND, "Item not found"@)
            && final(store)@ == old(store)@,
{
    let stamp = now_rfc3339();
    let ghost s = stamp@;
    let r = update_item_with(store, id, todo, stamp);
    proof {
        if has_id(old(store)@, id@) {
            crate::store::lemma_lookup_updated(old(store)@, id@, todo.title@, todo.quantity, s);
        }
    }
    r
}

/// Deletes the record with identifier `id`.
pub fn delete_item(store: &mut TodoStore, id: &String) -> (r: Reply)
    requires
        old(store).wf(),
    ensures
        final(store).wf(),
        final(store)@ == without(old(store)@, id@),
        has_id(old(store)@, id@) ==> text_reply(r, OK, "Item deleted successfully"@),
        !has_id(old(store)@, id@) ==> text_reply(r, NOT_FOUND, "Item not found"@),
{
    let removed = store.remove(id);
    delete_reply(Ok(if removed { 1 } else { 0 }))
}

} // verus!
