//! The store that concurrent callers share: one table behind one
//! reader/writer lock.
//!
//! Every operation is a single critical section: it takes the lock once,
//! runs the operation of the same name on the [`Table`], and releases the
//! lock. Reads take the lock shared, writes take it exclusively, so a write
//! is never seen half done and two writes never overlap; concurrent
//! operations take effect one after the other, in the order in which they
//! got the lock.
//!
//! What an operation returns is what [`Table`] returns for the mapping as it
//! stands while the lock is held. Other callers may write between any two
//! calls, so the contracts here relate no result to an earlier call: what a
//! sequence of operations does to one mapping is stated on [`Table`] and in
//! [`crate::laws`].
//!
//! The operations on the table cannot panic, so the lock is never left held
//! or the mapping half written, and taking the lock has no error to report.

use crate::table::{Entry, PutOutcome, StoreError, Table};
use std::sync::Arc;
use vstd::prelude::*;
use vstd::rwlock::{RwLock, RwLockPredicate};

verus! {

/// The lock admits every table: a table keeps its own invariant.
pub(crate) struct AnyTable;

impl RwLockPredicate<Table> for AnyTable {
    open spec fn inv(self, v: Table) -> bool {
        true
    }
}

/// A handle on the shared store. Clones of a handle reach the same mapping.
#[derive(Clone)]
pub struct AppState {
    pub(crate) db: Arc<RwLock<Table, AnyTable>>,
}

impl AppState {
    /// A fresh, empty store.
    pub fn new() -> (s: Self) {
        AppState { db: Arc::new(RwLock::new(Table::new(), Ghost(AnyTable))) }
    }

    /// A snapshot of all entries, taken under the shared lock.
    pub fn list(&self) -> (r: Vec<Entry>)
        ensures
            crate::table::keys_distinct(r@),
    {
        let handle = self.db.acquire_read();
        let entries = handle.borrow().list();
        handle.release_read();
        entries
    }

    /// Reads the value under `key`, under the shared lock.
    pub fn get(&self, key: &String) -> (r: Result<String, StoreError>) {
        let handle = self.db.acquire_read();
        let found = handle.borrow().get(key);
        handle.release_read();
        found
    }

    /// Writes `value` under `key`, under the exclusive lock.
    pub fn put(&self, key: String, value: String) -> (r: PutOutcome) {
        let (mut table, handle) = self.db.acquire_write();
        let outcome = table.put(key, value);
        handle.release_write(table);
        outcome
    }

    /// Removes `key`, under the exclusive lock.
    pub fn delete(&self, key: &String) -> (r: Result<String, StoreError>) {
        let (mut table, handle) = self.db.acquire_write();
        let removed = table.delete(key);
        handle.release_write(table);
        removed
    }
}

impl Default for AppState {
    fn default() -> (s: Self) {
        AppState::new()
    }
}

} // verus!
