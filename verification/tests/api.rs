use kv_store::routes::api::{
    delete_item, delete_reply, get_item, list_item, serve_delete, serve_get, serve_list,
    serve_set, set_item, set_reply,
};
use kv_store::routes::{Reply, Status};
use kv_store::store::AppState;
use kv_store::table::{PutOutcome, StoreError, Table};

#[test]
fn get_item_found() {
    let (key, value) = ("a", "1");
    let mock_state = AppState::default();
    mock_state.put(key.to_string(), value.to_string());

    let res = serve_get(&mock_state, format!("{key}"));

    assert_eq!(res.status, Status::Found);
    assert_eq!(res.status.code(), 302);

    assert_eq!(res.body, value)
}

#[test]
fn get_item_key_not_found() {
    let mock_state = AppState::default();
    let res = serve_get(&mock_state, "a".to_string());

    assert_eq!(res.status, Status::NotFound);
    assert_eq!(res.status.code(), 404);

    assert_eq!(res.body, "a not found in db");
}

#[test]
fn set_item_create_new() {
    let (key, value) = ("a", "1");
    let mock_state = AppState::default();

    let res = serve_set(&mock_state, format!("{key}"), value.to_string());

    assert_eq!(res.status, Status::Created);
    assert_eq!(res.status.code(), 201);

    assert_eq!(res.body, "Item Created");
    assert_eq!(mock_state.get(&key.to_string()), Ok(value.to_string()));
}

#[test]
fn set_item_update_old() {
    let (key, old_value, new_value) = ("a", "1", "2");
    let mock_state = AppState::default();
    mock_state.put(key.to_string(), old_value.to_string());

    let res = serve_set(&mock_state, format!("{key}"), new_value.to_string());

    assert_eq!(res.status, Status::Success);
    assert_eq!(res.status.code(), 200);

    assert_eq!(res.body, "Item Updated");
    assert_eq!(mock_state.get(&key.to_string()), Ok(new_value.to_string()));
}

#[test]
fn delete_item_ok() {
    let (key, value) = ("a", "1");
    let mock_state = AppState::default();
    mock_state.put(key.to_string(), value.to_string());

    let res = serve_delete(&mock_state, format!("{key}"));

    assert_eq!(res.status, Status::Success);
    assert_eq!(res.status.code(), 200);

    assert_eq!(res.body, value);
    assert_eq!(mock_state.get(&key.to_string()), Err(StoreError::NotFound));
}

#[test]
fn delete_item_not_found() {
    let (key, _) = ("a", "1");
    let mock_state = AppState::default();

    let res = serve_delete(&mock_state, format!("{key}"));

    assert_eq!(res.status, Status::NotFound);
    assert_eq!(res.status.code(), 404);

    assert_eq!(res.body, format!("{key} not found"));
    assert!(mock_state.list().is_empty());
}

#[test]
fn terse_replies_are_fixed_by_the_outcome() {
    assert_eq!(
        set_reply(PutOutcome::Created),
        Reply { status: Status::Created, body: "Item Created".to_string() }
    );
    assert_eq!(
        set_reply(PutOutcome::Updated),
        Reply { status: Status::Success, body: "Item Updated".to_string() }
    );
    assert_eq!(
        delete_reply(&"k".to_string(), Ok("v".to_string())),
        Reply { status: Status::Success, body: "v".to_string() }
    );
    assert_eq!(
        delete_reply(&"k".to_string(), Err(StoreError::NotFound)),
        Reply { status: Status::NotFound, body: "k not found".to_string() }
    );
}

#[test]
fn terse_handlers_run_the_whole_life_of_an_entry_on_a_table() {
    let mut table = Table::new();
    let a = || "a".to_string();

    let reply = set_item(&mut table, a(), "1".to_string());
    assert_eq!(reply, Reply { status: Status::Created, body: "Item Created".to_string() });
    let reply = get_item(&table, a());
    assert_eq!(reply, Reply { status: Status::Found, body: "1".to_string() });
    let reply = set_item(&mut table, a(), "2".to_string());
    assert_eq!(reply, Reply { status: Status::Success, body: "Item Updated".to_string() });
    let reply = get_item(&table, a());
    assert_eq!(reply, Reply { status: Status::Found, body: "2".to_string() });
    let reply = delete_item(&mut table, a());
    assert_eq!(reply, Reply { status: Status::Success, body: "2".to_string() });
    let reply = get_item(&table, a());
    assert_eq!(reply, Reply { status: Status::NotFound, body: "a not found in db".to_string() });
    let reply = delete_item(&mut table, a());
    assert_eq!(reply, Reply { status: Status::NotFound, body: "a not found".to_string() });
    assert!(list_item(&table).entries.is_empty());
}

#[test]
fn terse_delete_item_removes_exactly_the_key() {
    let mut table = Table::new();
    table.put("a".to_string(), "1".to_string());
    table.put("b".to_string(), "2".to_string());
    let reply = delete_item(&mut table, "a".to_string());
    assert_eq!(reply, Reply { status: Status::Success, body: "1".to_string() });
    let listing = list_item(&table);
    assert_eq!(listing.status, Status::Success);
    assert_eq!(listing.entries.len(), 1);
    assert_eq!(listing.entries[0].key, "b");
    assert_eq!(listing.entries[0].value, "2");
}

#[test]
fn terse_serve_list_replies_with_every_entry() {
    let state = AppState::default();
    serve_set(&state, "a".to_string(), "1".to_string());
    serve_set(&state, "b".to_string(), "2".to_string());
    let listing = serve_list(&state);
    assert_eq!(listing.status, Status::Success);
    let mut pairs: Vec<(String, String)> =
        listing.entries.into_iter().map(|e| (e.key, e.value)).collect();
    pairs.sort();
    assert_eq!(
        pairs,
        vec![("a".to_string(), "1".to_string()), ("b".to_string(), "2".to_string())]
    );
}
