//! An in-memory to-do list store with verified create, read, update and
//! delete operations, and the request-level decisions of the service.

pub mod item;
pub mod store;
mod fresh;
pub mod reply;
pub mod handlers;
pub mod laws;
