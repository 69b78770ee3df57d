use vstd::prelude::*;

verus! {

/// The mathematical value of a to-do record.
pub struct ItemModel {
    pub id: Seq<char>,
    pub title: Seq<char>,
    pub quantity: u32,
    pub created_at: Seq<char>,
    pub updated_at: Option<Seq<char>>,
}

/// One task record: identity, text, quantity and its timestamps
/// (RFC 3339 strings).
#[derive(Debug, PartialEq, Eq)]
pub struct TodoItem {
    pub id: String,
    pub title: String,
    pub quantity: u32,
    pub created_at: String,
    pub updated_at: Option<String>,
}

/// The body of a create or update request.
#[derive(Debug, PartialEq, Eq)]
pub struct NewItem {
    pub title: String,
    pub quantity: u32,
}

pub open spec fn opt_view(o: Option<String>) -> Option<Seq<char>> {
    match o {
        Some(s) => Some(s@),
        None => None,
    }
}

impl View for TodoItem {
    type V = ItemModel;

    open spec fn view(&self) -> ItemModel {
        ItemModel {
            id: self.id@,
            title: self.title@,
            quantity: self.quantity,
            created_at: self.created_at@,
            updated_at: opt_view(self.updated_at),
        }
    }
}

impl TodoItem {
    /// A field-by-field copy of the record.
    pub fn duplicate(&self) -> (r: TodoItem)
        ensures
            r@ == self@,
    {
        let updated_at = match &self.updated_at {
            Some(s) => Some(s.clone()),
            None => None,
        };
        TodoItem {
            id: self.id.clone(),
            title: self.title.clone(),
            quantity: self.quantity,
            created_at: self.created_at.clone(),
            updated_at,
        }
    }
}

impl Clone for TodoItem {
    fn clone(&self) -> (r: TodoItem)
        ensures
            r@ == self@,
    {
        self.duplicate()
    }
}

} // verus!
