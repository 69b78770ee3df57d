use todo_store::handlers::{
    add_item, add_item_with, delete_item, get_item, get_todo_item, new_record, update_item,
    update_item_with,
};
use todo_store::item::{NewItem, TodoItem};
use todo_store::reply::{
    create_reply, delete_reply, fetch_reply, list_reply, lookup_reply, revised_reply, update_reply, Body, Reply,
};
use todo_store::store::{StoreError, TodoStore};

fn body(title: &str, quantity: u32) -> NewItem {
    NewItem { title: title.to_string(), quantity }
}

fn record(r: &Reply) -> TodoItem {
    match &r.body {
        Body::Item(t) => t.clone(),
        other => panic!("expected a record, got {:?}", other),
    }
}

fn text(r: &Reply) -> String {
    match &r.body {
        Body::Text(s) => s.clone(),
        other => panic!("expected a message, got {:?}", other),
    }
}

fn items(r: &Reply) -> Vec<TodoItem> {
    match &r.body {
        Body::Items(v) => v.clone(),
        other => panic!("expected a list, got {:?}", other),
    }
}

fn item(id: &str, title: &str, quantity: u32, created_at: &str) -> TodoItem {
    TodoItem {
        id: id.to_string(),
        title: title.to_string(),
        quantity,
        created_at: created_at.to_string(),
        updated_at: None,
    }
}

#[test]
fn milk_scenario() {
    let mut store = TodoStore::new();
    let r = add_item(&mut store, body("milk", 2));
    assert_eq!(r.status, 201);
    let created = record(&r);
    assert_eq!(created.id.len(), 36);
    assert_eq!(created.title, "milk");
    assert_eq!(created.quantity, 2);
    assert!(!created.created_at.is_empty());
    assert_eq!(created.updated_at, None);

    let r = get_item(&store, &created.id);
    assert_eq!(r.status, 200);
    assert_eq!(record(&r), created);

    let r = update_item(&mut store, &created.id, body("milk", 5));
    assert_eq!(r.status, 200);

    let r = get_item(&store, &created.id);
    assert_eq!(r.status, 200);
    let now = record(&r);
    assert_eq!(now.quantity, 5);
    assert!(now.updated_at.is_some());
    assert_eq!(now.created_at, created.created_at);

    let r = delete_item(&mut store, &created.id);
    assert_eq!(r.status, 200);
    assert_eq!(text(&r), "Item deleted successfully");

    let r = get_item(&store, &created.id);
    assert_eq!(r.status, 404);
    assert_eq!(text(&r), "Todo item not found");
}

#[test]
fn create_then_fetch_round_trip() {
    let mut store = TodoStore::new();
    let r = add_item_with(&mut store, body("bread", 3), "a1".to_string(), "2024-01-01T00:00:00+00:00".to_string());
    assert_eq!(r.status, 201);
    let expected = item("a1", "bread", 3, "2024-01-01T00:00:00+00:00");
    assert_eq!(record(&r), expected);
    let r = get_item(&store, &"a1".to_string());
    assert_eq!(r.status, 200);
    assert_eq!(record(&r), expected);
}

#[test]
fn delete_twice_reports_not_found() {
    let mut store = TodoStore::new();
    add_item_with(&mut store, body("eggs", 12), "e".to_string(), "t0".to_string());
    let first = delete_item(&mut store, &"e".to_string());
    assert_eq!(first.status, 200);
    let second = delete_item(&mut store, &"e".to_string());
    assert_eq!(second.status, 404);
    assert_eq!(text(&second), "Item not found");
    assert_eq!(store.len(), 0);
}

#[test]
fn update_stamps_in_order() {
    let mut store = TodoStore::new();
    add_item_with(&mut store, body("tea", 1), "t".to_string(), "2024-01-01T00:00:00+00:00".to_string());
    let id = "t".to_string();
    let r = update_item_with(&mut store, &id, body("green tea", 4), "2024-01-02T00:00:00+00:00".to_string());
    assert_eq!(r.status, 200);
    let once = record(&r);
    assert_eq!(once.title, "green tea");
    assert_eq!(once.quantity, 4);
    assert_eq!(once.created_at, "2024-01-01T00:00:00+00:00");
    let first = once.updated_at.clone().unwrap();
    assert!(first.as_str() >= once.created_at.as_str());
    let r = update_item_with(&mut store, &id, body("green tea", 4), "2024-01-03T00:00:00+00:00".to_string());
    let twice = record(&r);
    let second = twice.updated_at.clone().unwrap();
    assert!(second > first);
    assert_eq!(record(&get_item(&store, &id)), twice);
}

#[test]
fn update_with_clock_stamps_time() {
    let mut store = TodoStore::new();
    let created = record(&add_item(&mut store, body("rice", 1)));
    let r = update_item(&mut store, &created.id, body("rice", 2));
    let updated = record(&r);
    assert_eq!(updated.quantity, 2);
    assert!(!updated.updated_at.unwrap().is_empty());
}

#[test]
fn update_of_unknown_id_is_not_found() {
    let mut store = TodoStore::new();
    add_item_with(&mut store, body("salt", 1), "s".to_string(), "t0".to_string());
    let r = update_item_with(&mut store, &"x".to_string(), body("pepper", 9), "t1".to_string());
    assert_eq!(r.status, 404);
    assert_eq!(text(&r), "Item not found");
    assert_eq!(record(&get_item(&store, &"s".to_string())), item("s", "salt", 1, "t0"));
}

#[test]
fn created_ids_are_distinct() {
    let mut store = TodoStore::new();
    let mut ids: Vec<String> = Vec::new();
    for k in 0..20u32 {
        let r = add_item(&mut store, body("x", k));
        assert_eq!(r.status, 201);
        ids.push(record(&r).id);
    }
    let mut sorted = ids.clone();
    sorted.sort();
    sorted.dedup();
    assert_eq!(sorted.len(), 20);
    assert_eq!(store.len(), 20);
    assert_eq!(get_item(&store, &"not-an-id".to_string()).status, 404);
}

#[test]
fn duplicate_id_is_a_storage_failure() {
    let mut store = TodoStore::new();
    add_item_with(&mut store, body("a", 1), "same".to_string(), "t0".to_string());
    let r = add_item_with(&mut store, body("b", 2), "same".to_string(), "t1".to_string());
    assert_eq!(r.status, 500);
    assert_eq!(text(&r), "Failed to add item");
    assert_eq!(store.len(), 1);
    assert_eq!(record(&get_item(&store, &"same".to_string())).title, "a");
}

#[test]
fn store_insert_refuses_duplicate() {
    let mut store = TodoStore::new();
    assert_eq!(store.insert(item("k", "a", 1, "t")), Ok(()));
    assert_eq!(store.insert(item("k", "b", 2, "t")), Err(StoreError::DuplicateId));
    assert_eq!(store.list(), vec![item("k", "a", 1, "t")]);
}

#[test]
fn list_after_delete_keeps_order() {
    let mut store = TodoStore::new();
    add_item_with(&mut store, body("A", 1), "a".to_string(), "t1".to_string());
    add_item_with(&mut store, body("B", 2), "b".to_string(), "t2".to_string());
    add_item_with(&mut store, body("C", 3), "c".to_string(), "t3".to_string());
    delete_item(&mut store, &"b".to_string());
    let r = get_todo_item(&store);
    assert_eq!(r.status, 200);
    assert_eq!(items(&r), vec![item("a", "A", 1, "t1"), item("c", "C", 3, "t3")]);
}

#[test]
fn list_of_empty_store() {
    let store = TodoStore::new();
    let r = get_todo_item(&store);
    assert_eq!(r.status, 200);
    assert!(items(&r).is_empty());
}

#[test]
fn reply_builders() {
    let t = item("i", "x", 1, "t");
    assert_eq!(list_reply(Ok(vec![t.clone()])).status, 200);
    let r = list_reply(Err(()));
    assert_eq!((r.status, text(&r)), (500, "Failed to fetch items".to_string()));
    assert_eq!(record(&fetch_reply(Some(t.clone()))), t);
    assert_eq!(fetch_reply(None).status, 404);
    let r = create_reply(Ok(t.clone()));
    assert_eq!((r.status, record(&r)), (201, t.clone()));
    let r = create_reply(Err(()));
    assert_eq!((r.status, text(&r)), (500, "Failed to add item".to_string()));
    assert_eq!(revised_reply(Some(t.clone())).status, 200);
    assert_eq!(text(&revised_reply(None)), "Item not found");
    let r = update_reply(Ok(1));
    assert_eq!((r.status, text(&r)), (200, "Item updated successfully".to_string()));
    let r = update_reply(Ok(0));
    assert_eq!((r.status, text(&r)), (404, "Item not found".to_string()));
    let r = update_reply(Err(()));
    assert_eq!((r.status, text(&r)), (500, "Failed to update item".to_string()));
    let r = delete_reply(Ok(3));
    assert_eq!((r.status, text(&r)), (200, "Item deleted successfully".to_string()));
    let r = delete_reply(Ok(0));
    assert_eq!((r.status, text(&r)), (404, "Item not found".to_string()));
    let r = delete_reply(Err(()));
    assert_eq!((r.status, text(&r)), (500, "Failed to delete item".to_string()));
}

#[test]
fn lookup_reply_tells_failure_from_absence() {
    let t = item("i", "x", 1, "t");
    let r = lookup_reply(Ok(Some(t.clone())));
    assert_eq!((r.status, record(&r)), (200, t));
    let r = lookup_reply(Ok(None));
    assert_eq!((r.status, text(&r)), (404, "Todo item not found".to_string()));
    let r = lookup_reply(Err(()));
    assert_eq!((r.status, text(&r)), (500, "Failed to fetch item".to_string()));
}

#[test]
fn new_record_has_no_update_time() {
    let t = new_record(body("jam", 7), "j".to_string(), "t0".to_string());
    assert_eq!(t, item("j", "jam", 7, "t0"));
}

#[test]
fn empty_title_and_zero_quantity_are_accepted() {
    let mut store = TodoStore::new();
    let r = add_item(&mut store, body("", 0));
    assert_eq!(r.status, 201);
    let t = record(&r);
    assert_eq!((t.title.as_str(), t.quantity, t.updated_at), ("", 0, None));
    assert_eq!(record(&get_item(&store, &t.id)).id, t.id);
}
