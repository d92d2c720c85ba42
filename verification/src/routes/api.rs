//! Handlers that answer tersely: a write is confirmed in two words, and a
//! delete hands back the bare value that it removed. The layers are those of
//! [`crate::routes`]; listing and reading reply as they do there.

use crate::routes::{expected_get_reply, Listing, Reply, Status};
use crate::store::AppState;
use crate::table::{
    entries_map, keys_distinct, lookup, put_outcome, value_view, Mapping, PutOutcome, StoreError,
    Table,
};
use vstd::prelude::*;
use vstd::string::StringExecFns;

verus! {

/// The reply to a write that came out as `outcome`.
pub open spec fn expected_set_reply(outcome: PutOutcome) -> (Status, Seq<char>) {
    match outcome {
        PutOutcome::Created => (Status::Created, "Item Created"@),
        PutOutcome::Updated => (Status::Success, "Item Updated"@),
    }
}

/// The reply to a delete of `key` that came out as `removed`.
pub open spec fn expected_delete_reply(
    key: Seq<char>,
    removed: Result<Seq<char>, StoreError>,
) -> (Status, Seq<char>) {
    match removed {
        Ok(value) => (Status::Success, value),
        Err(StoreError::NotFound) => (Status::NotFound, key + " not found"@),
    }
}

/// The two confirmations of a write differ in status and in body, so the
/// reply alone tells a new entry from a replaced one.
pub proof fn law_set_replies_differ()
    ensures
        expected_set_reply(PutOutcome::Created).0 != expected_set_reply(PutOutcome::Updated).0,
        expected_set_reply(PutOutcome::Created).1 != expected_set_reply(PutOutcome::Updated).1,
{
    reveal_strlit("Item Created");
    reveal_strlit("Item Updated");
    assert("Item Created"@[5] != "Item Updated"@[5]);
}

/// A write replies `Created` exactly when the key was absent, and `Success`
/// exactly when it was present.
pub proof fn law_set_reply(m: Mapping, key: Seq<char>)
    ensures
        expected_set_reply(put_outcome(m, key)).0 == Status::Created <==> !m.contains_key(key),
        expected_set_reply(put_outcome(m, key)).0 == Status::Success <==> m.contains_key(key),
{
}

/// A delete replies `Success` with the bare removed value exactly when the
/// key was present, and `NotFound` with the message for the key when it was
/// absent.
pub proof fn law_delete_reply(m: Mapping, key: Seq<char>)
    ensures
        m.contains_key(key) ==> expected_delete_reply(key, lookup(m, key)) == (
            Status::Success,
            m[key],
        ),
        !m.contains_key(key) ==> expected_delete_reply(key, lookup(m, key)) == (
            Status::NotFound,
            key + " not found"@,
        ),
{
}

/// Builds the reply to a write from what the store reported.
pub fn set_reply(outcome: PutOutcome) -> (r: Reply)
    ensures
        r@ == expected_set_reply(outcome),
{
    match outcome {
        PutOutcome::Created => Reply { status: Status::Created, body: "Item Created".to_owned() },
        PutOutcome::Updated => Reply { status: Status::Success, body: "Item Updated".to_owned() },
    }
}

/// Builds the reply to a delete of `key` from what the store returned.
pub fn delete_reply(key: &String, removed: Result<String, StoreError>) -> (r: Reply)
    ensures
        r@ == expected_delete_reply(key@, value_view(removed)),
{
    match removed {
        Ok(value) => Reply { status: Status::Success, body: value },
        Err(StoreError::NotFound) => Reply {
            status: Status::NotFound,
            body: key.clone().concat(" not found"),
        },
    }
}

/// Lists the table, as [`crate::routes::list_item`] does.
pub fn list_item(table: &Table) -> (r: Listing)
    ensures
        r.status == Status::Success,
        keys_distinct(r.entries@),
        entries_map(r.entries@) == table@,
        r.entries@.len() == table@.len(),
{
    crate::routes::list_item(table)
}

/// Reads `key` from the table, as [`crate::routes::get_item`] does.
pub fn get_item(table: &Table, key: String) -> (r: Reply)
    ensures
        r@ == expected_get_reply(key@, lookup(table@, key@)),
{
    crate::routes::get_item(table, key)
}

/// Writes `value` under `key` and replies with the confirmation for a new
/// or for a replaced entry.
pub fn set_item(table: &mut Table, key: String, value: String) -> (r: Reply)
    ensures
        r@ == expected_set_reply(put_outcome(old(table)@, key@)),
        final(table)@ == old(table)@.insert(key@, value@),
        final(table)@.len() == old(table)@.len() + if old(table)@.contains_key(key@) {
            0nat
        } else {
            1nat
        },
{
    set_reply(table.put(key, value))
}

/// Removes `key` from the table and replies with the removed value, or with
/// the not-found message for `key`, in which case the table stays as it is.
pub fn delete_item(table: &mut Table, key: String) -> (r: Reply)
    ensures
        r@ == expected_delete_reply(key@, lookup(old(table)@, key@)),
        final(table)@ == old(table)@.remove(key@),
        !old(table)@.contains_key(key@) ==> final(table)@ == old(table)@,
        old(table)@.contains_key(key@) ==> final(table)@.len() + 1 == old(table)@.len(),
{
    let removed = table.delete(&key);
    delete_reply(&key, removed)
}

/// Runs [`list_item`] on the shared store, under the shared lock.
pub fn serve_list(state: &AppState) -> (r: Listing)
    ensures
        r.status == Status::Success,
        keys_distinct(r.entries@),
{
    let handle = state.db.acquire_read();
    let r = list_item(handle.borrow());
    handle.release_read();
    r
}

/// Runs [`get_item`] on the shared store, under the shared lock: the reply
/// is the one for the mapping that the lock held.
pub fn serve_get(state: &AppState, key: String) -> (r: Reply)
    ensures
        exists|m: Mapping| r@ == expected_get_reply(key@, #[trigger] lookup(m, key@)),
{
    let handle = state.db.acquire_read();
    let r = get_item(handle.borrow(), key);
    handle.release_read();
    r
}

/// Runs [`set_item`] on the shared store, under the exclusive lock: the
/// reply is the one for the mapping that the lock held.
pub fn serve_set(state: &AppState, key: String, value: String) -> (r: Reply)
    ensures
        exists|m: Mapping| r@ == expected_set_reply(#[trigger] put_outcome(m, key@)),
{
    let (mut table, handle) = state.db.acquire_write();
    let r = set_item(&mut table, key, value);
    handle.release_write(table);
    r
}

/// Runs [`delete_item`] on the shared store, under the exclusive lock: the
/// reply is the one for the mapping that the lock held.
pub fn serve_delete(state: &AppState, key: String) -> (r: Reply)
    ensures
        exists|m: Mapping| r@ == expected_delete_reply(key@, #[trigger] lookup(m, key@)),
{
    let (mut table, handle) = state.db.acquire_write();
    let r = delete_item(&mut table, key);
    handle.release_write(table);
    r
}

} // verus!
