//! What holds of the four operations taken together.
//!
//! The contracts of [`crate::table::Table`] say what one call does: `get`
//! returns `lookup` of the mapping, `put` reports `put_outcome` and leaves
//! the mapping with the pair inserted, `delete` returns `lookup` and leaves
//! the mapping with the key removed. The laws below follow calls through
//! those statements.

use crate::table::{lookup, put_outcome, Mapping, PutOutcome, StoreError};
use vstd::prelude::*;

verus! {

/// One change to a mapping.
pub enum Change {
    /// A write of the value under the key.
    Put(Seq<char>, Seq<char>),
    /// A delete of the key.
    Delete(Seq<char>),
}

/// The mapping after one change.
pub open spec fn apply(m: Mapping, c: Change) -> Mapping {
    match c {
        Change::Put(key, value) => m.insert(key, value),
        Change::Delete(key) => m.remove(key),
    }
}

/// The mapping that a fresh table holds after the changes of `history`,
/// first to last.
pub open spec fn replay(history: Seq<Change>) -> Mapping
    decreases history.len(),
{
    if history.len() == 0 {
        Mapping::empty()
    } else {
        apply(replay(history.drop_last()), history.last())
    }
}

/// The change at position `i` of `history` is a write to `key`.
pub open spec fn writes_at(history: Seq<Change>, key: Seq<char>, i: int) -> bool {
    0 <= i < history.len() && match history[i] {
        Change::Put(k, _) => k == key,
        Change::Delete(_) => false,
    }
}

/// A key that no change so far has written is not found, whatever else has
/// been written or deleted.
pub proof fn law_unwritten_key_not_found(history: Seq<Change>, key: Seq<char>)
    requires
        forall|i: int| !writes_at(history, key, i),
    ensures
        lookup(replay(history), key) == Err::<Seq<char>, StoreError>(StoreError::NotFound),
    decreases history.len(),
{
    if history.len() > 0 {
        let earlier = history.drop_last();
        assert forall|i: int| !writes_at(earlier, key, i) by {
            assert(!writes_at(history, key, i));
        }
        law_unwritten_key_not_found(earlier, key);
        assert(!writes_at(history, key, history.len() - 1));
    }
}

/// In a fresh table no key is found.
pub proof fn law_fresh_table_finds_nothing(key: Seq<char>)
    ensures
        lookup(Mapping::empty(), key) == Err::<Seq<char>, StoreError>(StoreError::NotFound),
{
}

/// A read after a write to the same key returns the value written.
pub proof fn law_get_after_put(m: Mapping, key: Seq<char>, value: Seq<char>)
    ensures
        lookup(m.insert(key, value), key) == Ok::<Seq<char>, StoreError>(value),
{
}

/// A write leaves every other key as it was.
pub proof fn law_put_keeps_other_keys(
    m: Mapping,
    key: Seq<char>,
    value: Seq<char>,
    other: Seq<char>,
)
    requires
        other != key,
    ensures
        lookup(m.insert(key, value), other) == lookup(m, other),
{
}

/// A write reports `Created` exactly when the key was absent. A second
/// write to the same key reports `Updated`, and a read then returns the
/// second value: the last write wins.
pub proof fn law_put_twice(m: Mapping, key: Seq<char>, first: Seq<char>, second: Seq<char>)
    ensures
        put_outcome(m, key) == PutOutcome::Created <==> !m.contains_key(key),
        put_outcome(m.insert(key, first), key) == PutOutcome::Updated,
        lookup(m.insert(key, first).insert(key, second), key) == Ok::<Seq<char>, StoreError>(
            second,
        ),
        m.insert(key, first).insert(key, second) == m.insert(key, second),
{
    assert(m.insert(key, first).insert(key, second) =~= m.insert(key, second));
}

/// A delete after a write to the same key returns the value written, and a
/// read after the delete does not find the key.
pub proof fn law_delete_after_put(m: Mapping, key: Seq<char>, value: Seq<char>)
    ensures
        lookup(m.insert(key, value), key) == Ok::<Seq<char>, StoreError>(value),
        lookup(m.insert(key, value).remove(key), key) == Err::<Seq<char>, StoreError>(
            StoreError::NotFound,
        ),
{
}

/// A delete after a write of a new key gives back the mapping as it was
/// before the write.
pub proof fn law_delete_undoes_put(m: Mapping, key: Seq<char>, value: Seq<char>)
    requires
        !m.contains_key(key),
    ensures
        m.insert(key, value).remove(key) == m,
{
    assert(m.insert(key, value).remove(key) =~= m);
}

/// A delete leaves every other key as it was.
pub proof fn law_delete_keeps_other_keys(m: Mapping, key: Seq<char>, other: Seq<char>)
    requires
        other != key,
    ensures
        lookup(m.remove(key), other) == lookup(m, other),
{
}

/// A delete of an absent key reports that it was not found and leaves the
/// mapping unchanged.
pub proof fn law_delete_absent(m: Mapping, key: Seq<char>)
    requires
        !m.contains_key(key),
    ensures
        lookup(m, key) == Err::<Seq<char>, StoreError>(StoreError::NotFound),
        m.remove(key) == m,
{
    assert(m.remove(key) =~= m);
}

/// Writes to two different keys give the same mapping in either order, and
/// it holds both values: neither write is lost.
pub proof fn law_puts_to_distinct_keys_commute(
    m: Mapping,
    key1: Seq<char>,
    value1: Seq<char>,
    key2: Seq<char>,
    value2: Seq<char>,
)
    requires
        key1 != key2,
    ensures
        m.insert(key1, value1).insert(key2, value2) == m.insert(key2, value2).insert(key1, value1),
        lookup(m.insert(key1, value1).insert(key2, value2), key1) == Ok::<Seq<char>, StoreError>(
            value1,
        ),
        lookup(m.insert(key1, value1).insert(key2, value2), key2) == Ok::<Seq<char>, StoreError>(
            value2,
        ),
{
    assert(m.insert(key1, value1).insert(key2, value2) =~= m.insert(key2, value2).insert(
        key1,
        value1,
    ));
}

/// Two writes to one key, in whichever order they take effect, leave under
/// the key one of the two values whole, and leave every other key as it was.
pub proof fn law_puts_to_one_key_leave_one_value(
    m: Mapping,
    key: Seq<char>,
    value1: Seq<char>,
    value2: Seq<char>,
)
    ensures
        m.insert(key, value1).insert(key, value2) == m.insert(key, value2),
        m.insert(key, value2).insert(key, value1) == m.insert(key, value1),
        lookup(m.insert(key, value1).insert(key, value2), key) == Ok::<Seq<char>, StoreError>(
            value2,
        ),
        lookup(m.insert(key, value2).insert(key, value1), key) == Ok::<Seq<char>, StoreError>(
            value1,
        ),
{
    assert(m.insert(key, value1).insert(key, value2) =~= m.insert(key, value2));
    assert(m.insert(key, value2).insert(key, value1) =~= m.insert(key, value1));
}

} // verus!
