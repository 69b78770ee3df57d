use vstd::prelude::*;
use crate::item::{ItemModel, TodoItem};
use crate::store::views;

verus! {

/// What a response carries: a list of records, one record, or a message.
#[derive(Debug)]
pub enum Body {
    Items(Vec<TodoItem>),
    Item(TodoItem),
    Text(String),
}

/// The mathematical value of a response body.
pub enum BodyModel {
    Items(Seq<ItemModel>),
    Item(ItemModel),
    Text(Seq<char>),
}

impl View for Body {
    type V = BodyModel;

    open spec fn view(&self) -> BodyModel {
        match self {
            Body::Items(v) => BodyModel::Items(views(v@)),
            Body::Item(t) => BodyModel::Item(t@),
            Body::Text(s) => BodyModel::Text(s@),
        }
    }
}

/// A response: an HTTP status code and a body.
#[derive(Debug)]
pub struct Reply {
    pub status: u16,
    pub body: Body,
}

pub const OK: u16 = 200;

pub const CREATED: u16 = 201;

pub const NOT_FOUND: u16 = 404;

pub const INTERNAL_ERROR: u16 = 500;

/// A reply with a plain message.
pub open spec fn text_reply(r: Reply, status: u16, msg: Seq<char>) -> bool {
    r.status == status && r.body@ == BodyModel::Text(msg)
}

/// A reply that carries one record.
pub open spec fn item_reply(r: Reply, status: u16, item: ItemModel) -> bool {
    r.status == status && r.body@ == BodyModel::Item(item)
}

fn message(status: u16, msg: &str) -> (r: Reply)
    ensures
        text_reply(r, status, msg@),
{
    Reply { status, body: Body::Text(msg.to_owned()) }
}

/// The reply to a list request, from the records read or a storage failure.
pub fn list_reply(read: Result<Vec<TodoItem>, ()>) -> (r: Reply)
    ensures
        match read {
            Ok(v) => r.status == OK && r.body@ == BodyModel::Items(views(v@)),
            Err(_) => text_reply(r, INTERNAL_ERROR, "Failed to fetch items"@),
        },
{
    match read {
        Ok(v) => Reply { status: OK, body: Body::Items(v) },
        Err(_) => message(INTERNAL_ERROR, "Failed to fetch items"),
    }
}

/// The reply to a fetch by identifier, from the record found, if any.
pub fn fetch_reply(found: Option<TodoItem>) -> (r: Reply)
    ensures
        match found {
            Some(t) => item_reply(r, OK, t@),
            None => text_reply(r, NOT_FOUND, "Todo item not found"@),
        },
{
    match found {
        Some(t) => Reply { status: OK, body: Body::Item(t) },
        None => message(NOT_FOUND, "Todo item not found"),
    }
}

/// The reply to a fetch by identifier, from the lookup's outcome: the
/// record found, none, or a storage failure.
pub fn lookup_reply(looked_up: Result<Option<TodoItem>, ()>) -> (r: Reply)
    ensures
        match looked_up {
            Ok(Some(t)) => item_reply(r, OK, t@),
            Ok(None) => text_reply(r, NOT_FOUND, "Todo item not found"@),
            Err(_) => text_reply(r, INTERNAL_ERROR, "Failed to fetch item"@),
        },
{
    match looked_up {
        Ok(found) => fetch_reply(found),
        Err(_) => message(INTERNAL_ERROR, "Failed to fetch item"),
    }
}

/// The reply to a create request, from the stored record or a storage failure.
pub fn create_reply(stored: Result<TodoItem, ()>) -> (r: Reply)
    ensures
        match stored {
            Ok(t) => item_reply(r, CREATED, t@),
            Err(_) => text_reply(r, INTERNAL_ERROR, "Failed to add item"@),
        },
{
    match stored {
        Ok(t) => Reply { status: CREATED, body: Body::Item(t) },
        Err(_) => message(INTERNAL_ERROR, "Failed to add item"),
    }
}

/// The reply to an update that returns the updated record, if one was found.
pub fn revised_reply(updated: Option<TodoItem>) -> (r: Reply)
    ensures
        match updated {
            Some(t) => item_reply(r, OK, t@),
            None => text_reply(r, NOT_FOUND, "Item not found"@),
        },
{
    match updated {
        Some(t) => Reply { status: OK, body: Body::Item(t) },
        None => message(NOT_FOUND, "Item not found"),
    }
}

/// The reply to an update, from the number of rows written or a storage
/// failure.
pub fn update_reply(written: Result<u64, ()>) -> (r: Reply)
    ensures
        match written {
            Ok(n) => if n > 0 {
                text_reply(r, OK, "Item updated successfully"@)
            } else {
                text_reply(r, NOT_FOUND, "Item not found"@)
            },
            Err(_) => text_reply(r, INTERNAL_ERROR, "Failed to update item"@),
        },
{
    match written {
        Ok(n) => if n > 0 {
            message(OK, "Item updated successfully")
        } else {
            message(NOT_FOUND, "Item not found")
        },
        Err(_) => message(INTERNAL_ERROR, "Failed to update item"),
    }
}

/// The reply to a delete, from the number of rows removed or a storage
/// failure.
pub fn delete_reply(removed: Result<u64, ()>) -> (r: Reply)
    ensures
        match removed {
            Ok(n) => if n > 0 {
                text_reply(r, OK, "Item deleted successfully"@)
            } else {
                text_reply(r, NOT_FOUND, "Item not found"@)
            },
            Err(_) => text_reply(r, INTERNAL_ERROR, "Failed to delete item"@),
        },
{
    match removed {
        Ok(n) => if n > 0 {
            message(OK, "Item deleted successfully")
        } else {
            message(NOT_FOUND, "Item not found")
        },
        Err(_) => message(INTERNAL_ERROR, "Failed to delete item"),
    }
}

} // verus!
