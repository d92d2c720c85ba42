//! The mapping from keys to values and its four operations.
//!
//! A [`Table`] is an owned mapping; its contracts say exactly what each
//! operation returns and how it changes the mapping. The store that many
//! callers share, a lock around one table, is [`crate::store::AppState`].

use vstd::prelude::*;

verus! {

/// The mathematical model of a table: a partial map from key text to value text.
pub type Mapping = Map<Seq<char>, Seq<char>>;

/// One key-value pair held by a table. Key and value are arbitrary text,
/// the empty text included.
#[derive(Clone, Debug, PartialEq, Eq)]
pub struct Entry {
    pub key: String,
    pub value: String,
}

/// What a write did to the mapping.
#[derive(Clone, Copy, Debug, PartialEq, Eq, Structural)]
pub enum PutOutcome {
    /// The key was absent and has been inserted.
    Created,
    /// The key was present and its value has been replaced.
    Updated,
}

/// The one way in which a read or a delete can fail.
#[derive(Clone, Copy, Debug, PartialEq, Eq, Structural)]
pub enum StoreError {
    /// The mapping holds no value under the key.
    NotFound,
}

/// What a read of `key` yields on the mapping `m`.
pub open spec fn lookup(m: Mapping, key: Seq<char>) -> Result<Seq<char>, StoreError> {
    if m.contains_key(key) {
        Ok(m[key])
    } else {
        Err(StoreError::NotFound)
    }
}

/// What a write to `key` reports on the mapping `m`.
pub open spec fn put_outcome(m: Mapping, key: Seq<char>) -> PutOutcome {
    if m.contains_key(key) {
        PutOutcome::Updated
    } else {
        PutOutcome::Created
    }
}

/// The text of a value that an operation handed out, or its error.
pub open spec fn value_view(r: Result<String, StoreError>) -> Result<Seq<char>, StoreError> {
    match r {
        Ok(v) => Ok(v@),
        Err(e) => Err(e),
    }
}

/// `i` is a position of `s` whose entry has the key `key`.
pub open spec fn has_key_at(s: Seq<Entry>, key: Seq<char>, i: int) -> bool {
    0 <= i < s.len() && s[i].key@ == key
}

/// No two entries of `s` share a key.
pub open spec fn keys_distinct(s: Seq<Entry>) -> bool {
    forall|i: int, j: int| 0 <= i < j < s.len() ==> s[i].key@ != s[j].key@
}

/// The mapping that a list of entries stands for: its domain is the keys
/// that occur, and each key maps to the value of an entry that carries it.
/// Where the keys are distinct there is exactly one such entry.
pub open spec fn entries_map(s: Seq<Entry>) -> Mapping {
    Map::new(
        |k: Seq<char>| exists|i: int| has_key_at(s, k, i),
        |k: Seq<char>| s[choose|i: int| has_key_at(s, k, i)].value@,
    )
}

/// With distinct keys, the entry at position `i` is what the mapping holds
/// under that entry's key.
pub proof fn lemma_entry_in_map(s: Seq<Entry>, i: int)
    requires
        keys_distinct(s),
        0 <= i < s.len(),
    ensures
        entries_map(s).contains_pair(s[i].key@, s[i].value@),
{
    let k = s[i].key@;
    assert(has_key_at(s, k, i));
    let j = choose|j: int| has_key_at(s, k, j);
    assert(has_key_at(s, k, j));
    assert(j == i);
}

/// A mapping from text keys to text values, at most one value per key.
pub struct Table {
    entries: Vec<Entry>,
}

impl View for Table {
    type V = Mapping;

    closed spec fn view(&self) -> Mapping {
        entries_map(self.entries@)
    }
}

impl Table {
    #[verifier::type_invariant]
    spec fn well_formed(&self) -> bool {
        keys_distinct(self.entries@)
    }

    /// An empty table.
    pub fn new() -> (s: Self)
        ensures
            s@ == Mapping::empty(),
    {
        let s = Table { entries: Vec::new() };
        assert(s@ =~= Mapping::empty());
        s
    }

    /// The position of the entry that carries `key`, if there is one.
    fn position(&self, key: &String) -> (r: Option<usize>)
        ensures
            match r {
                Some(i) => has_key_at(self.entries@, key@, i as int),
                None => forall|i: int| !has_key_at(self.entries@, key@, i),
            },
    {
        let mut i: usize = 0;
        while i < self.entries.len()
            invariant
                i <= self.entries.len(),
                forall|j: int| 0 <= j < i ==> !has_key_at(self.entries@, key@, j),
            decreases self.entries.len() - i,
        {
            if self.entries[i].key == *key {
                return Some(i);
            }
            i += 1;
        }
        None
    }

    /// Reads the value under `key`.
    pub fn get(&self, key: &String) -> (r: Result<String, StoreError>)
        ensures
            value_view(r) == lookup(self@, key@),
    {
        proof {
            use_type_invariant(self);
        }
        match self.position(key) {
            Some(i) => {
                proof {
                    lemma_entry_in_map(self.entries@, i as int);
                }
                Ok(self.entries[i].value.clone())
            },
            None => Err(StoreError::NotFound),
        }
    }

    /// Writes `value` under `key`, replacing any value already there, and
    /// reports whether the key was new. A new key adds one entry; a present
    /// key keeps the number of entries.
    pub fn put(&mut self, key: String, value: String) -> (r: PutOutcome)
        ensures
            r == put_outcome(old(self)@, key@),
            final(self)@ == old(self)@.insert(key@, value@),
            final(self)@.len() == old(self)@.len() + if old(self)@.contains_key(key@) {
                0nat
            } else {
                1nat
            },
    {
        proof {
            use_type_invariant(&*self);
            lemma_len(self.entries@);
        }
        let found = self.position(&key);
        let ghost before = self.entries@;
        let ghost entry = Entry { key, value };
        let mut entries = Vec::new();
        std::mem::swap(&mut entries, &mut self.entries);
        let outcome = match found {
            Some(i) => {
                entries.set(i, Entry { key, value });
                proof {
                    lemma_replace(before, i as int, entry);
                }
                PutOutcome::Updated
            },
            None => {
                entries.push(Entry { key, value });
                proof {
                    lemma_append(before, entry);
                }
                PutOutcome::Created
            },
        };
        proof {
            lemma_len(entries@);
        }
        self.entries = entries;
        outcome
    }

    /// Removes `key` and hands out the value that was under it, which
    /// leaves one entry less. Where the key is absent the mapping stays as
    /// it is.
    pub fn delete(&mut self, key: &String) -> (r: Result<String, StoreError>)
        ensures
            value_view(r) == lookup(old(self)@, key@),
            final(self)@ == old(self)@.remove(key@),
            r is Err ==> final(self)@ == old(self)@,
            r is Ok ==> final(self)@.len() + 1 == old(self)@.len(),
    {
        proof {
            use_type_invariant(&*self);
            lemma_len(self.entries@);
        }
        match self.position(key) {
            Some(i) => {
                let ghost before = self.entries@;
                let mut entries = Vec::new();
                std::mem::swap(&mut entries, &mut self.entries);
                let removed = entries.remove(i);
                proof {
                    lemma_entry_in_map(before, i as int);
                    lemma_remove(before, i as int);
                    lemma_len(entries@);
                }
                self.entries = entries;
                Ok(removed.value)
            },
            None => {
                assert(self@ =~= self@.remove(key@));
                Err(StoreError::NotFound)
            },
        }
    }

    /// A snapshot of all entries, each key once, in no particular order:
    /// the entries listed stand for the mapping, and there are as many of
    /// them as the mapping has keys. Later writes to the table do not show
    /// in it.
    pub fn list(&self) -> (r: Vec<Entry>)
        ensures
            keys_distinct(r@),
            entries_map(r@) == self@,
            r@.len() == self@.len(),
    {
        proof {
            use_type_invariant(self);
        }
        let mut out: Vec<Entry> = Vec::new();
        let mut i: usize = 0;
        while i < self.entries.len()
            invariant
                i <= self.entries.len(),
                out@.len() == i,
                forall|j: int|
                    0 <= j < i ==> out@[j].key@ == self.entries@[j].key@ && out@[j].value@
                        == self.entries@[j].value@,
            decreases self.entries.len() - i,
        {
            let e = &self.entries[i];
            out.push(Entry { key: e.key.clone(), value: e.value.clone() });
            i += 1;
        }
        proof {
            lemma_same_texts(out@, self.entries@);
            lemma_len(out@);
        }
        out
    }
}

/// A list of entries with distinct keys stands for a mapping with finitely
/// many keys, as many as the list has entries.
pub proof fn lemma_len(s: Seq<Entry>)
    requires
        keys_distinct(s),
    ensures
        entries_map(s).dom().finite(),
        entries_map(s).len() == s.len(),
    decreases s.len(),
{
    if s.len() == 0 {
        assert(entries_map(s) =~= Mapping::empty());
    } else {
        let front = s.drop_last();
        let e = s.last();
        assert(keys_distinct(front));
        lemma_len(front);
        assert forall|i: int| !has_key_at(front, e.key@, i) by {
            if has_key_at(front, e.key@, i) {
                assert(s[i].key@ != s[s.len() - 1].key@);
            }
        }
        lemma_append(front, e);
        assert(front.push(e) =~= s);
    }
}

/// The mapping of a table has finitely many keys.
pub proof fn lemma_finite(table: Table)
    ensures
        table@.dom().finite(),
{
    lemma_keys_finite(table.entries@);
}

/// The keys that occur in a list of entries are finitely many.
proof fn lemma_keys_finite(s: Seq<Entry>)
    ensures
        entries_map(s).dom().finite(),
    decreases s.len(),
{
    if s.len() == 0 {
        assert(entries_map(s).dom() =~= Set::<Seq<char>>::empty());
    } else {
        let front = s.drop_last();
        lemma_keys_finite(front);
        assert forall|k: Seq<char>| #[trigger]
            entries_map(s).dom().contains(k) <==> entries_map(front).dom().insert(
                s.last().key@,
            ).contains(k) by {
            if entries_map(s).dom().contains(k) {
                let i = choose|i: int| has_key_at(s, k, i);
                if i < s.len() - 1 {
                    assert(has_key_at(front, k, i));
                }
            }
            if entries_map(front).dom().contains(k) {
                let i = choose|i: int| has_key_at(front, k, i);
                assert(has_key_at(s, k, i));
            }
            if k == s.last().key@ {
                assert(has_key_at(s, k, s.len() - 1));
            }
        }
        assert(entries_map(s).dom() =~= entries_map(front).dom().insert(s.last().key@));
    }
}

/// Two lists that agree position by position on the text of keys and values
/// stand for the same mapping, and the one has distinct keys if the other has.
proof fn lemma_same_texts(a: Seq<Entry>, b: Seq<Entry>)
    requires
        a.len() == b.len(),
        forall|j: int| 0 <= j < a.len() ==> a[j].key@ == b[j].key@ && a[j].value@ == b[j].value@,
        keys_distinct(b),
    ensures
        keys_distinct(a),
        entries_map(a) == entries_map(b),
{
    let ma = entries_map(a);
    let mb = entries_map(b);
    assert forall|k: Seq<char>| #[trigger] ma.dom().contains(k) implies mb.dom().contains(k)
        && ma[k] == mb[k] by {
        let i = choose|i: int| has_key_at(a, k, i);
        assert(has_key_at(b, k, i));
        lemma_entry_in_map(a, i);
        lemma_entry_in_map(b, i);
    }
    assert forall|k: Seq<char>| #[trigger] mb.dom().contains(k) implies ma.dom().contains(k) by {
        let i = choose|i: int| has_key_at(b, k, i);
        assert(has_key_at(a, k, i));
    }
    assert(ma =~= mb);
}

/// Replacing the entry at position `i` by one with the same key writes that
/// entry's value under the key and keeps the keys distinct.
proof fn lemma_replace(s: Seq<Entry>, i: int, e: Entry)
    requires
        keys_distinct(s),
        has_key_at(s, e.key@, i),
    ensures
        keys_distinct(s.update(i, e)),
        entries_map(s.update(i, e)) == entries_map(s).insert(e.key@, e.value@),
{
    let t = s.update(i, e);
    assert(keys_distinct(t));
    let mt = entries_map(t);
    let want = entries_map(s).insert(e.key@, e.value@);
    assert forall|k: Seq<char>| #[trigger] mt.dom().contains(k) implies want.dom().contains(k)
        && mt[k] == want[k] by {
        let j = choose|j: int| has_key_at(t, k, j);
        lemma_entry_in_map(t, j);
        if j != i {
            assert(has_key_at(s, k, j));
            lemma_entry_in_map(s, j);
        }
    }
    assert forall|k: Seq<char>| #[trigger] want.dom().contains(k) implies mt.dom().contains(k) by {
        if k == e.key@ {
            assert(has_key_at(t, k, i));
        } else {
            let j = choose|j: int| has_key_at(s, k, j);
            assert(has_key_at(t, k, j));
        }
    }
    assert(mt =~= want);
}

/// Appending an entry whose key does not occur yet writes its value under
/// the key and keeps the keys distinct.
proof fn lemma_append(s: Seq<Entry>, e: Entry)
    requires
        keys_distinct(s),
        forall|i: int| !has_key_at(s, e.key@, i),
    ensures
        keys_distinct(s.push(e)),
        entries_map(s.push(e)) == entries_map(s).insert(e.key@, e.value@),
        !entries_map(s).contains_key(e.key@),
{
    let t = s.push(e);
    assert forall|i: int, j: int| 0 <= i < j < t.len() implies t[i].key@ != t[j].key@ by {
        if j == s.len() {
            assert(!has_key_at(s, e.key@, i));
        }
    }
    let mt = entries_map(t);
    let want = entries_map(s).insert(e.key@, e.value@);
    assert forall|k: Seq<char>| #[trigger] mt.dom().contains(k) implies want.dom().contains(k)
        && mt[k] == want[k] by {
        let j = choose|j: int| has_key_at(t, k, j);
        lemma_entry_in_map(t, j);
        if j != s.len() {
            assert(has_key_at(s, k, j));
            lemma_entry_in_map(s, j);
        }
    }
    assert forall|k: Seq<char>| #[trigger] want.dom().contains(k) implies mt.dom().contains(k) by {
        if k == e.key@ {
            assert(has_key_at(t, k, s.len() as int));
        } else {
            let j = choose|j: int| has_key_at(s, k, j);
            assert(has_key_at(t, k, j));
        }
    }
    assert(mt =~= want);
}

/// Taking out the entry at position `i` removes its key from the mapping,
/// leaves every other key as it was and keeps the keys distinct.
proof fn lemma_remove(s: Seq<Entry>, i: int)
    requires
        keys_distinct(s),
        0 <= i < s.len(),
    ensures
        keys_distinct(s.remove(i)),
        entries_map(s.remove(i)) == entries_map(s).remove(s[i].key@),
{
    let t = s.remove(i);
    let shift = |j: int| if j < i { j } else { j + 1 };
    assert forall|a: int, b: int| 0 <= a < b < t.len() implies t[a].key@ != t[b].key@ by {
        assert(t[a] == s[shift(a)]);
        assert(t[b] == s[shift(b)]);
    }
    let mt = entries_map(t);
    let want = entries_map(s).remove(s[i].key@);
    assert forall|k: Seq<char>| #[trigger] mt.dom().contains(k) implies want.dom().contains(k)
        && mt[k] == want[k] by {
        let j = choose|j: int| has_key_at(t, k, j);
        lemma_entry_in_map(t, j);
        assert(t[j] == s[shift(j)]);
        assert(has_key_at(s, k, shift(j)));
        lemma_entry_in_map(s, shift(j));
    }
    assert forall|k: Seq<char>| #[trigger] want.dom().contains(k) implies mt.dom().contains(k) by {
        let j = choose|j: int| has_key_at(s, k, j);
        assert(has_key_at(s, k, j));
        assert(j != i);
        let jt = if j < i { j } else { j - 1 };
        assert(t[jt] == s[j]);
        assert(has_key_at(t, k, jt));
    }
    assert(mt =~= want);
}

} // verus!
