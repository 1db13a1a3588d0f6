use vstd::prelude::*;

use crate::codec::{from_json, parsed_json_of, pretty_json_of, to_pretty_json};
use crate::error::DbError;

verus! {

/// The view of one stored pair.
pub type Entry = (Seq<char>, Seq<char>);

/// The mapping that a sequence of pairs stands for: a later pair wins over
/// an earlier one with the same key.
pub open spec fn map_of(s: Seq<Entry>) -> Map<Seq<char>, Seq<char>>
    decreases s.len(),
{
    if s.len() == 0 {
        Map::empty()
    } else {
        map_of(s.drop_last()).insert(s.last().0, s.last().1)
    }
}

/// No two pairs share a key.
pub open spec fn keys_distinct(s: Seq<Entry>) -> bool {
    forall|i: int, j: int| 0 <= i < j < s.len() ==> s[i].0 != s[j].0
}

/// The view of a vector of string pairs.
pub open spec fn entries_view(v: Seq<(String, String)>) -> Seq<Entry> {
    v.map_values(|p: (String, String)| (p.0@, p.1@))
}

/// A key is in the mapping exactly when some pair carries it.
pub proof fn lemma_map_of_contains(s: Seq<Entry>, k: Seq<char>)
    ensures
        map_of(s).contains_key(k) <==> exists|i: int| 0 <= i < s.len() && s[i].0 == k,
    decreases s.len(),
{
    if s.len() > 0 {
        lemma_map_of_contains(s.drop_last(), k);
        if map_of(s.drop_last()).contains_key(k) {
            let i = choose|i: int| 0 <= i < s.drop_last().len() && s.drop_last()[i].0 == k;
            assert(s[i].0 == k);
        }
        if exists|i: int| 0 <= i < s.len() && s[i].0 == k {
            let i = choose|i: int| 0 <= i < s.len() && s[i].0 == k;
            if i < s.len() - 1 {
                assert(s.drop_last()[i].0 == k);
            }
        }
    }
}

/// With distinct keys, each pair's value is the mapping's value of its key.
pub proof fn lemma_map_of_index(s: Seq<Entry>, i: int)
    requires
        keys_distinct(s),
        0 <= i < s.len(),
    ensures
        map_of(s).contains_key(s[i].0),
        map_of(s)[s[i].0] == s[i].1,
    decreases s.len(),
{
    if i < s.len() - 1 {
        lemma_map_of_index(s.drop_last(), i);
    }
}

/// The mapping of a sequence of pairs is finite.
pub proof fn lemma_map_of_finite(s: Seq<Entry>)
    ensures
        map_of(s).dom().finite(),
    decreases s.len(),
{
    if s.len() > 0 {
        lemma_map_of_finite(s.drop_last());
        assert(map_of(s).dom() == map_of(s.drop_last()).dom().insert(s.last().0));
    }
}

/// With distinct keys, the mapping has one record per pair.
pub proof fn lemma_map_of_len(s: Seq<Entry>)
    requires
        keys_distinct(s),
    ensures
        map_of(s).dom().finite(),
        map_of(s).len() == s.len(),
    decreases s.len(),
{
    if s.len() > 0 {
        lemma_map_of_len(s.drop_last());
        lemma_map_of_contains(s.drop_last(), s.last().0);
        assert(map_of(s).dom() == map_of(s.drop_last()).dom().insert(s.last().0));
    }
}

/// With distinct keys, replacing one pair's value replaces that record.
pub proof fn lemma_map_of_update(s: Seq<Entry>, i: int, v: Seq<char>)
    requires
        keys_distinct(s),
        0 <= i < s.len(),
    ensures
        keys_distinct(s.update(i, (s[i].0, v))),
        map_of(s.update(i, (s[i].0, v))) == map_of(s).insert(s[i].0, v),
    decreases s.len(),
{
    let t = s.update(i, (s[i].0, v));
    if i == s.len() - 1 {
        assert(t.drop_last() == s.drop_last());
    } else {
        lemma_map_of_update(s.drop_last(), i, v);
        assert(t.drop_last() == s.drop_last().update(i, (s[i].0, v)));
        assert(map_of(t) == map_of(s).insert(s[i].0, v));
    }
}

/// With distinct keys, removing one pair removes that record.
pub proof fn lemma_map_of_remove(s: Seq<Entry>, i: int)
    requires
        keys_distinct(s),
        0 <= i < s.len(),
    ensures
        keys_distinct(s.remove(i)),
        map_of(s.remove(i)) == map_of(s).remove(s[i].0),
    decreases s.len(),
{
    let t = s.remove(i);
    assert(keys_distinct(t)) by {
        assert forall|a: int, b: int| 0 <= a < b < t.len() implies t[a].0 != t[b].0 by {
            let a2 = if a < i { a } else { a + 1 };
            let b2 = if b < i { b } else { b + 1 };
            assert(t[a] == s[a2] && t[b] == s[b2]);
        }
    }
    if i == s.len() - 1 {
        assert(t == s.drop_last());
        lemma_map_of_contains(s.drop_last(), s[i].0);
        assert(map_of(t) == map_of(s).remove(s[i].0));
    } else {
        lemma_map_of_remove(s.drop_last(), i);
        assert(t.drop_last() == s.drop_last().remove(i));
        assert(t.last() == s.last());
        assert(map_of(t) == map_of(s).remove(s[i].0));
    }
}

/// Outcome of `insert(k, _)` on the records `m`.
pub open spec fn insert_result(m: Map<Seq<char>, Seq<char>>, k: Seq<char>) -> Result<(), DbError> {
    if m.contains_key(k) {
        Err(DbError::InsertKeyExist)
    } else {
        Ok(())
    }
}

/// Records after `insert(k, v)` on `m`.
pub open spec fn insert_post(m: Map<Seq<char>, Seq<char>>, k: Seq<char>, v: Seq<char>) -> Map<
    Seq<char>,
    Seq<char>,
> {
    if m.contains_key(k) {
        m
    } else {
        m.insert(k, v)
    }
}

/// Outcome of `update(k, v)` on the records `m`: an absent key and an
/// unchanged value are both refused.
pub open spec fn update_result(m: Map<Seq<char>, Seq<char>>, k: Seq<char>, v: Seq<char>) -> Result<
    (),
    DbError,
> {
    if !m.contains_key(k) {
        Err(DbError::UpdateKeyNotExist)
    } else if m[k] == v {
        Err(DbError::UpdateValueMatch)
    } else {
        Ok(())
    }
}

/// Records after `update(k, v)` on `m`.
pub open spec fn update_post(m: Map<Seq<char>, Seq<char>>, k: Seq<char>, v: Seq<char>) -> Map<
    Seq<char>,
    Seq<char>,
> {
    if m.contains_key(k) {
        m.insert(k, v)
    } else {
        m
    }
}

/// Outcome of `delete(k)` on the records `m`.
pub open spec fn delete_result(m: Map<Seq<char>, Seq<char>>, k: Seq<char>) -> Result<(), DbError> {
    if m.contains_key(k) {
        Ok(())
    } else {
        Err(DbError::DeleteKeyNotExist)
    }
}

/// Records after `delete(k)` on `m`.
pub open spec fn delete_post(m: Map<Seq<char>, Seq<char>>, k: Seq<char>) -> Map<Seq<char>, Seq<char>> {
    m.remove(k)
}

/// Outcome of `get(k)` on the records `m`.
pub open spec fn get_result(m: Map<Seq<char>, Seq<char>>, k: Seq<char>) -> Result<Seq<char>, DbError> {
    if m.contains_key(k) {
        Ok(m[k])
    } else {
        Err(DbError::GetKeyNotExist)
    }
}

/// The view of a returned value.
pub open spec fn value_view(r: Result<String, DbError>) -> Result<Seq<char>, DbError> {
    match r {
        Ok(s) => Ok(s@),
        Err(e) => Err(e),
    }
}

/// The modified flag after an operation: set by every success of a mutation.
pub open spec fn modified_after(modified: bool, outcome: Result<(), DbError>) -> bool {
    modified || outcome is Ok
}

/// The modified flag after a dump: cleared only where the snapshot text was
/// produced.
pub open spec fn modified_after_dump(modified: bool, encoded: bool) -> bool {
    modified && !encoded
}

/// A dump produces a snapshot text exactly when the records are modified.
pub open spec fn dump_writes(modified: bool) -> bool {
    modified
}

/// The records and their modified flag: the data that a lock guards as one
/// unit. Keys are kept unique.
pub struct DbMap {
    data: Vec<(String, String)>,
    modified: bool,
}

impl DbMap {
    /// The stored pairs, in storage order.
    pub closed spec fn entries(&self) -> Seq<Entry> {
        entries_view(self.data@)
    }

    /// The mapping from keys to values.
    pub closed spec fn records(&self) -> Map<Seq<char>, Seq<char>> {
        map_of(self.entries())
    }

    /// Whether the records changed since the last snapshot.
    pub closed spec fn is_modified(&self) -> bool {
        self.modified
    }

    #[verifier::type_invariant]
    closed spec fn inv(&self) -> bool {
        keys_distinct(self.entries())
    }

    /// A store holds finitely many records.
    pub proof fn lemma_records_finite(&self)
        ensures
            self.records().dom().finite(),
    {
        lemma_map_of_finite(self.entries());
    }

    /// An empty store, not modified.
    pub fn new() -> (r: DbMap)
        ensures
            r.records() == Map::<Seq<char>, Seq<char>>::empty(),
            !r.is_modified(),
    {
        let r = DbMap { data: Vec::new(), modified: false };
        assert(r.entries() =~= Seq::<Entry>::empty());
        r
    }

    /// A store holding the mapping read from a snapshot text, not modified.
    pub fn load(text: &str) -> (r: Result<DbMap, DbError>)
        ensures
            r is Ok <==> parsed_json_of(text@) is Some,
            r matches Ok(m) ==> Some(m.records()) == parsed_json_of(text@) && !m.is_modified(),
            r is Err ==> r == Err::<DbMap, DbError>(DbError::ParseFailure),
    {
        match from_json(text) {
            Ok(data) => Ok(DbMap { data, modified: false }),
            Err(_) => Err(DbError::ParseFailure),
        }
    }

    /// Position of `key` among the stored pairs.
    fn find(&self, key: &String) -> (r: Option<usize>)
        ensures
            r is None ==> !self.records().contains_key(key@),
            r matches Some(i) ==> i < self.entries().len() && self.entries()[i as int].0 == key@
                && self.records().contains_key(key@) && self.records()[key@] == self.entries()[i as int].1,
    {
        proof {
            use_type_invariant(self);
        }
        let n = self.data.len();
        let mut i: usize = 0;
        while i < n
            invariant
                n == self.data.len(),
                i <= n,
                keys_distinct(self.entries()),
                forall|j: int| 0 <= j < i ==> self.entries()[j].0 != key@,
            decreases n - i,
        {
            if self.data[i].0 == *key {
                proof {
                    lemma_map_of_index(self.entries(), i as int);
                }
                return Some(i);
            }
            i = i + 1;
        }
        proof {
            lemma_map_of_contains(self.entries(), key@);
        }
        None
    }

    /// Moves the pairs and the flag out, leaving an empty store behind.
    fn take_parts(&mut self) -> (r: (Vec<(String, String)>, bool))
        ensures
            entries_view(r.0@) == old(self).entries(),
            keys_distinct(entries_view(r.0@)),
            r.1 == old(self).is_modified(),
    {
        proof {
            use_type_invariant(&*self);
        }
        let mut taken = DbMap::new();
        std::mem::swap(self, &mut taken);
        proof {
            use_type_invariant(&taken);
        }
        let DbMap { data, modified } = taken;
        (data, modified)
    }

    /// Number of records.
    pub fn len(&self) -> (r: usize)
        ensures
            r == self.records().len(),
    {
        proof {
            use_type_invariant(self);
            lemma_map_of_len(self.entries());
        }
        self.data.len()
    }

    /// Adds `key` with `value`, refused where the key is present.
    pub fn insert(&mut self, key: String, value: String) -> (r: Result<(), DbError>)
        ensures
            r == insert_result(old(self).records(), key@),
            final(self).records() == insert_post(old(self).records(), key@, value@),
            final(self).records().dom().finite(),
            final(self).records().len() == old(self).records().len() + (if r is Ok {
                1int
            } else {
                0
            }),
            final(self).is_modified() == modified_after(old(self).is_modified(), r),
    {
        proof {
            use_type_invariant(&*self);
            lemma_map_of_len(self.entries());
        }
        match self.find(&key) {
            Some(_) => Err(DbError::InsertKeyExist),
            None => {
                proof {
                    lemma_map_of_contains(self.entries(), key@);
                }
                let ghost before = self.entries();
                let (mut data, _) = self.take_parts();
                data.push((key, value));
                proof {
                    assert(entries_view(data@) =~= before.push((key@, value@)));
                    assert(entries_view(data@).drop_last() =~= before);
                    assert(keys_distinct(entries_view(data@)));
                    lemma_map_of_len(entries_view(data@));
                }
                *self = DbMap { data, modified: true };
                Ok(())
            },
        }
    }

    /// Replaces the value of `key`, refused where the key is absent or the
    /// value is already `value`.
    pub fn update(&mut self, key: String, value: String) -> (r: Result<(), DbError>)
        ensures
            r == update_result(old(self).records(), key@, value@),
            final(self).records() == (if r is Ok {
                update_post(old(self).records(), key@, value@)
            } else {
                old(self).records()
            }),
            final(self).is_modified() == modified_after(old(self).is_modified(), r),
    {
        proof {
            use_type_invariant(&*self);
        }
        match self.find(&key) {
            None => Err(DbError::UpdateKeyNotExist),
            Some(i) => {
                if self.data[i].1 == value {
                    Err(DbError::UpdateValueMatch)
                } else {
                    let ghost before = self.entries();
                    proof {
                        lemma_map_of_update(before, i as int, value@);
                    }
                    let (mut data, _) = self.take_parts();
                    data.set(i, (key, value));
                    proof {
                        assert(entries_view(data@) =~= before.update(i as int, (before[i as int].0, value@)));
                    }
                    *self = DbMap { data, modified: true };
                    Ok(())
                }
            },
        }
    }

    /// Removes `key`, refused where it is absent.
    pub fn delete(&mut self, key: String) -> (r: Result<(), DbError>)
        ensures
            r == delete_result(old(self).records(), key@),
            final(self).records() == delete_post(old(self).records(), key@),
            final(self).records().dom().finite(),
            final(self).records().len() + (if r is Ok {
                1int
            } else {
                0
            }) == old(self).records().len(),
            final(self).is_modified() == modified_after(old(self).is_modified(), r),
    {
        proof {
            use_type_invariant(&*self);
            lemma_map_of_len(self.entries());
        }
        match self.find(&key) {
            None => {
                assert(old(self).records().remove(key@) =~= old(self).records());
                Err(DbError::DeleteKeyNotExist)
            },
            Some(i) => {
                let ghost before = self.entries();
                proof {
                    lemma_map_of_remove(before, i as int);
                }
                let (mut data, _) = self.take_parts();
                data.remove(i);
                proof {
                    assert(entries_view(data@) =~= before.remove(i as int));
                    lemma_map_of_len(entries_view(data@));
                }
                *self = DbMap { data, modified: true };
                Ok(())
            },
        }
    }

    /// A copy of the value stored under `key`.
    pub fn get(&self, key: String) -> (r: Result<String, DbError>)
        ensures
            value_view(r) == get_result(self.records(), key@),
    {
        match self.find(&key) {
            None => Err(DbError::GetKeyNotExist),
            Some(i) => Ok(self.data[i].1.clone()),
        }
    }

    /// The snapshot text of the records where they were modified, `None`
    /// where they were not. The flag is cleared when the text is produced.
    pub fn dump_text(&mut self) -> (r: Result<Option<String>, DbError>)
        ensures
            final(self).records() == old(self).records(),
            !dump_writes(old(self).is_modified()) ==> r == Ok::<Option<String>, DbError>(None),
            dump_writes(old(self).is_modified()) ==> (r matches Ok(Some(t)) && t@ == pretty_json_of(
                old(self).records(),
            )),
            final(self).is_modified() == modified_after_dump(old(self).is_modified(), r is Ok),
    {
        proof {
            use_type_invariant(&*self);
        }
        if !self.modified {
            return Ok(None);
        }
        match to_pretty_json(&self.data) {
            Ok(t) => {
                self.modified = false;
                Ok(Some(t))
            },
            Err(_) => Err(DbError::SerializeFailure),
        }
    }

    /// The snapshot text of the records, whether or not they were modified.
    /// The flag is cleared when the text is produced.
    pub fn flush_text(&mut self) -> (r: Result<String, DbError>)
        ensures
            final(self).records() == old(self).records(),
            r matches Ok(t) && t@ == pretty_json_of(old(self).records()),
            final(self).is_modified() == modified_after_dump(old(self).is_modified(), r is Ok),
    {
        proof {
            use_type_invariant(&*self);
        }
        match to_pretty_json(&self.data) {
            Ok(t) => {
                self.modified = false;
                Ok(t)
            },
            Err(_) => Err(DbError::SerializeFailure),
        }
    }

    /// Marks the records modified again, so that the next dump produces a
    /// snapshot: for when the text of an earlier dump was not written.
    pub fn mark_modified(&mut self)
        ensures
            final(self).records() == old(self).records(),
            final(self).is_modified(),
    {
        proof {
            use_type_invariant(&*self);
        }
        self.modified = true;
    }
}

} // verus!
