//! The replies that a dispatcher sends for each store operation.
//!
//! Three layers, each built on the one before:
//!
//! * the reply builders take the outcome of a table operation and give the
//!   reply, a status and a body;
//! * the handlers `list_item`, `get_item`, `set_item` and `delete_item` take
//!   the table, run the operation on it and build the reply. Their contracts
//!   say exactly which reply is sent and how the table changes;
//! * the `serve_*` functions take the shared store, acquire its lock once,
//!   call the handler on the table that the lock holds, release the lock and
//!   hand the reply back as it is. What other callers wrote before is not
//!   known to a contract, so theirs say only that the reply is the
//!   handler's reply for some mapping.
//!
//! The handlers of this module word their confirmations in full; those of
//! [`api`] answer tersely.

use crate::store::AppState;
use crate::table::{
    entries_map, keys_distinct, lookup, put_outcome, value_view, Entry, Mapping, PutOutcome,
    StoreError, Table,
};
use vstd::prelude::*;
use vstd::string::StringExecFns;

pub mod api;

verus! {

/// The status line of a reply.
#[derive(Clone, Copy, Debug, PartialEq, Eq, Structural)]
pub enum Status {
    /// 200, the request was carried out.
    Success,
    /// 201, the request made a new entry.
    Created,
    /// 302, the key was found.
    Found,
    /// 404, the key is absent.
    NotFound,
}

impl Status {
    /// The numeric code that stands for the status on the wire.
    pub open spec fn spec_code(self) -> u16 {
        match self {
            Status::Success => 200,
            Status::Created => 201,
            Status::Found => 302,
            Status::NotFound => 404,
        }
    }

    /// The numeric code that stands for the status on the wire.
    #[verifier::when_used_as_spec(spec_code)]
    pub fn code(self) -> (c: u16)
        ensures
            c == self.spec_code(),
    {
        match self {
            Status::Success => 200,
            Status::Created => 201,
            Status::Found => 302,
            Status::NotFound => 404,
        }
    }
}

/// A reply with a text body.
#[derive(Clone, Debug, PartialEq, Eq)]
pub struct Reply {
    pub status: Status,
    pub body: String,
}

impl View for Reply {
    type V = (Status, Seq<char>);

    open spec fn view(&self) -> (Status, Seq<char>) {
        (self.status, self.body@)
    }
}

/// The reply to a request for all entries.
#[derive(Clone, Debug, PartialEq, Eq)]
pub struct Listing {
    pub status: Status,
    pub entries: Vec<Entry>,
}

/// The reply to a read of `key` that came out as `found`.
pub open spec fn expected_get_reply(key: Seq<char>, found: Result<Seq<char>, StoreError>) -> (
    Status,
    Seq<char>,
) {
    match found {
        Ok(value) => (Status::Found, value),
        Err(StoreError::NotFound) => (Status::NotFound, key + " not found in db"@),
    }
}

/// The reply to a write that came out as `outcome`.
pub open spec fn expected_set_reply(outcome: PutOutcome) -> (Status, Seq<char>) {
    match outcome {
        PutOutcome::Created => (Status::Created, "Created Successfuly"@),
        PutOutcome::Updated => (Status::Success, "Updated Successfuly"@),
    }
}

/// The reply to a delete of `key` that came out as `removed`.
pub open spec fn expected_delete_reply(
    key: Seq<char>,
    removed: Result<Seq<char>, StoreError>,
) -> (Status, Seq<char>) {
    match removed {
        Ok(value) => (Status::Success, value + " deleted successfuly"@),
        Err(StoreError::NotFound) => (Status::NotFound, key + " not found in database"@),
    }
}

/// The two confirmations of a write differ in status and in body, so the
/// reply alone tells a new entry from a replaced one.
pub proof fn law_set_replies_differ()
    ensures
        expected_set_reply(PutOutcome::Created).0 != expected_set_reply(PutOutcome::Updated).0,
        expected_set_reply(PutOutcome::Created).1 != expected_set_reply(PutOutcome::Updated).1,
{
    reveal_strlit("Created Successfuly");
    reveal_strlit("Updated Successfuly");
    assert("Created Successfuly"@[0] != "Updated Successfuly"@[0]);
}

/// The reply to a delete that removed `value` is `Success`, and its body
/// begins with the removed value.
pub proof fn law_delete_reply_holds_value(key: Seq<char>, value: Seq<char>)
    ensures
        expected_delete_reply(key, Ok(value)).0 == Status::Success,
        value.is_prefix_of(expected_delete_reply(key, Ok(value)).1),
{
    let body = value + " deleted successfuly"@;
    assert(body.subrange(0, value.len() as int) =~= value);
}

/// A read replies `Found` with the stored value exactly when the key is
/// present, and `NotFound` with the message for the key when it is absent.
pub proof fn law_get_reply(m: Mapping, key: Seq<char>)
    ensures
        m.contains_key(key) ==> expected_get_reply(key, lookup(m, key)) == (Status::Found, m[key]),
        !m.contains_key(key) ==> expected_get_reply(key, lookup(m, key)) == (
            Status::NotFound,
            key + " not found in db"@,
        ),
{
}

/// A write replies `Created` exactly when the key was absent, and `Success`
/// exactly when it was present.
pub proof fn law_set_reply(m: Mapping, key: Seq<char>)
    ensures
        expected_set_reply(put_outcome(m, key)).0 == Status::Created <==> !m.contains_key(key),
        expected_set_reply(put_outcome(m, key)).0 == Status::Success <==> m.contains_key(key),
{
}

/// A delete replies `Success` exactly when the key was present, with a body
/// made of the removed value, and `NotFound` with the message for the key
/// when it was absent.
pub proof fn law_delete_reply(m: Mapping, key: Seq<char>)
    ensures
        m.contains_key(key) ==> expected_delete_reply(key, lookup(m, key)) == (
            Status::Success,
            m[key] + " deleted successfuly"@,
        ),
        !m.contains_key(key) ==> expected_delete_reply(key, lookup(m, key)) == (
            Status::NotFound,
            key + " not found in database"@,
        ),
{
}

/// The fixed reply of the liveness probe.
pub fn health_handler() -> (r: Reply)
    ensures
        r@ == (Status::Success, "Hi, I'm healthy!"@),
{
    Reply { status: Status::Success, body: "Hi, I'm healthy!".to_owned() }
}

/// Builds the reply to a read of `key` from what the store returned.
pub fn get_reply(key: &String, found: Result<String, StoreError>) -> (r: Reply)
    ensures
        r@ == expected_get_reply(key@, value_view(found)),
{
    match found {
        Ok(value) => Reply { status: Status::Found, body: value },
        Err(StoreError::NotFound) => Reply {
            status: Status::NotFound,
            body: key.clone().concat(" not found in db"),
        },
    }
}

/// Builds the reply to a write from what the store reported.
pub fn set_reply(outcome: PutOutcome) -> (r: Reply)
    ensures
        r@ == expected_set_reply(outcome),
{
    match outcome {
        PutOutcome::Created => Reply {
            status: Status::Created,
            body: "Created Successfuly".to_owned(),
        },
        PutOutcome::Updated => Reply {
            status: Status::Success,
            body: "Updated Successfuly".to_owned(),
        },
    }
}

/// Builds the reply to a delete of `key` from what the store returned.
pub fn delete_reply(key: &String, removed: Result<String, StoreError>) -> (r: Reply)
    ensures
        r@ == expected_delete_reply(key@, value_view(removed)),
{
    match removed {
        Ok(value) => Reply { status: Status::Success, body: value.concat(" deleted successfuly") },
        Err(StoreError::NotFound) => Reply {
            status: Status::NotFound,
            body: key.clone().concat(" not found in database"),
        },
    }
}

/// Lists the table: the reply is `Success` and its entries stand for the
/// mapping, each key once.
pub fn list_item(table: &Table) -> (r: Listing)
    ensures
        r.status == Status::Success,
        keys_distinct(r.entries@),
        entries_map(r.entries@) == table@,
        r.entries@.len() == table@.len(),
{
    Listing { status: Status::Success, entries: table.list() }
}

/// Reads `key` from the table and replies with the value, or with the
/// not-found message for `key`.
pub fn get_item(table: &Table, key: String) -> (r: Reply)
    ensures
        r@ == expected_get_reply(key@, lookup(table@, key@)),
{
    let found = table.get(&key);
    get_reply(&key, found)
}

/// Writes `value` under `key` and replies with the confirmation for a new
/// or for a replaced entry.
pub fn set_item(table: &mut Table, key: String, value: String) -> (r: Reply)
    ensures
        r@ == expected_set_reply(put_outcome(old(table)@, key@)),
        final(table)@ == old(table)@.insert(key@, value@),
        final(table)@.len() == old(table)@.len() + if old(table)@.contains_key(key@) {
            0nat
        } else {
            1nat
        },
{
    set_reply(table.put(key, value))
}

/// Removes `key` from the table and replies with a message that holds the
/// removed value, or with the not-found message for `key`, in which case
/// the table stays as it is.
pub fn delete_item(table: &mut Table, key: String) -> (r: Reply)
    ensures
        r@ == expected_delete_reply(key@, lookup(old(table)@, key@)),
        final(table)@ == old(table)@.remove(key@),
        !old(table)@.contains_key(key@) ==> final(table)@ == old(table)@,
        old(table)@.contains_key(key@) ==> final(table)@.len() + 1 == old(table)@.len(),
{
    let removed = table.delete(&key);
    delete_reply(&key, removed)
}

/// Runs [`list_item`] on the shared store, under the shared lock.
pub fn serve_list(state: &AppState) -> (r: Listing)
    ensures
        r.status == Status::Success,
        keys_distinct(r.entries@),
{
    let handle = state.db.acquire_read();
    let r = list_item(handle.borrow());
    handle.release_read();
    r
}

/// Runs [`get_item`] on the shared store, under the shared lock: the reply
/// is the one for the mapping that the lock held.
pub fn serve_get(state: &AppState, key: String) -> (r: Reply)
    ensures
        exists|m: Mapping| r@ == expected_get_reply(key@, #[trigger] lookup(m, key@)),
{
    let handle = state.db.acquire_read();
    let r = get_item(handle.borrow(), key);
    handle.release_read();
    r
}

/// Runs [`set_item`] on the shared store, under the exclusive lock: the
/// reply is the one for the mapping that the lock held.
pub fn serve_set(state: &AppState, key: String, value: String) -> (r: Reply)
    ensures
        exists|m: Mapping| r@ == expected_set_reply(#[trigger] put_outcome(m, key@)),
{
    let (mut table, handle) = state.db.acquire_write();
    let r = set_item(&mut table, key, value);
    handle.release_write(table);
    r
}

/// Runs [`delete_item`] on the shared store, under the exclusive lock: the
/// reply is the one for the mapping that the lock held.
pub fn serve_delete(state: &AppState, key: String) -> (r: Reply)
    ensures
        exists|m: Mapping| r@ == expected_delete_reply(key@, #[trigger] lookup(m, key@)),
{
    let (mut table, handle) = state.db.acquire_write();
    let r = delete_item(&mut table, key);
    handle.release_write(table);
    r
}

} // verus!
