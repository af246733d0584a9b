//! The record store: a thread-safe associative map from resource keys to
//! grade values, with last-writer-wins semantics on same-key races.
//!
//! The store is backed by `dashmap::DashMap`, whose sharded per-key locking
//! keeps a write to one key from blocking operations on other keys. The map is
//! kept behind a small set of trusted wrappers; everything layered on top is
//! verified against the abstract contents those wrappers describe.

use vstd::prelude::*;
use crate::key::ResourceKey;

verus! {

#[verifier::external_type_specification]
#[verifier::external_body]
#[verifier::reject_recursive_types(K)]
#[verifier::reject_recursive_types(V)]
#[verifier::reject_recursive_types(S)]
pub struct ExDashMap<K, V, S>(dashmap::DashMap<K, V, S>);

/// The entries a backing map holds, as a mathematical map from a
/// (student id, subject id) pair to the stored grade.
pub uninterp spec fn contents(m: dashmap::DashMap<(String, String), String>) -> Map<
    (Seq<char>, Seq<char>),
    Seq<char>,
>;

/// The empty store contents: a map with no entries.
pub open spec fn empty_contents() -> Map<(Seq<char>, Seq<char>), Seq<char>> {
    Map::empty()
}

/// Relies on dashmap::DashMap::new: creates a map that holds no entries.
#[verifier::external_body]
fn backing_new() -> (m: dashmap::DashMap<(String, String), String>)
    ensures
        contents(m) == empty_contents(),
{
    dashmap::DashMap::new()
}

/// Relies on dashmap::DashMap::get: returns a reference to the value the key
/// maps to, or `None` when the map holds no entry for it.
#[verifier::external_body]
fn backing_get(
    m: &dashmap::DashMap<(String, String), String>,
    student_id: &String,
    subject_id: &String,
) -> (r: Option<String>)
    ensures
        r is Some <==> contents(*m).contains_key((student_id@, subject_id@)),
        r is Some ==> r->0@ == contents(*m)[(student_id@, subject_id@)],
{
    let key = (student_id.clone(), subject_id.clone());
    m.get(&key).map(|entry| entry.value().clone())
}

/// Relies on dashmap::DashMap::insert: maps the key to the value, replacing
/// the entry the key had before, if any.
#[verifier::external_body]
fn backing_insert(
    m: &mut dashmap::DashMap<(String, String), String>,
    student_id: &String,
    subject_id: &String,
    value: String,
)
    ensures
        contents(*final(m)) == contents(*old(m)).insert((student_id@, subject_id@), value@),
{
    m.insert((student_id.clone(), subject_id.clone()), value);
}

/// A mapping from resource keys to grade values. At most one value per key at
/// any instant; entries are created on first write, overwritten on later
/// writes, and never deleted. Safe for concurrent callers: the backing map
/// synchronizes internally, so no external locking is needed per key.
pub struct RecordStore {
    records: dashmap::DashMap<(String, String), String>,
}

impl View for RecordStore {
    type V = Map<(Seq<char>, Seq<char>), Seq<char>>;

    closed spec fn view(&self) -> Map<(Seq<char>, Seq<char>), Seq<char>> {
        contents(self.records)
    }
}

impl RecordStore {
    /// Creates an empty store.
    pub fn new() -> (s: RecordStore)
        ensures
            s@ == empty_contents(),
    {
        RecordStore { records: backing_new() }
    }

    /// Returns the current value under `key`, or `None` when the store has no
    /// entry for it. No side effects.
    pub fn get(&self, key: &ResourceKey) -> (r: Option<String>)
        ensures
            self@.contains_key(key@) ==> (r matches Some(v) && v@ == self@[key@]),
            !self@.contains_key(key@) ==> r is None,
    {
        backing_get(&self.records, key.student_id(), key.subject_id())
    }

    /// Inserts or overwrites the entry under `key` in one atomic replace, and
    /// returns the value that was written so callers can echo it back. No
    /// other key is affected.
    pub fn set(&mut self, key: &ResourceKey, value: String) -> (written: String)
        ensures
            final(self)@ == old(self)@.insert(key@, value@),
            written@ == value@,
    {
        let written = value.clone();
        backing_insert(&mut self.records, key.student_id(), key.subject_id(), value);
        written
    }
}

/// Law: read-after-write consistency. In the absence of an interleaved
/// writer, a `set` of `v` under `k` leaves the store with an entry for `k`,
/// and a `get` of `k` then returns exactly `v`.
pub proof fn lemma_read_after_write(
    m: Map<(Seq<char>, Seq<char>), Seq<char>>,
    k: (Seq<char>, Seq<char>),
    v: Seq<char>,
)
    ensures
        m.insert(k, v).contains_key(k),
        m.insert(k, v)[k] == v,
{
}

/// The store contents after a sequence of writes of `values`, oldest first,
/// all under the key `k`.
pub open spec fn write_all(
    m: Map<(Seq<char>, Seq<char>), Seq<char>>,
    k: (Seq<char>, Seq<char>),
    values: Seq<Seq<char>>,
) -> Map<(Seq<char>, Seq<char>), Seq<char>>
    decreases values.len(),
{
    if values.len() == 0 {
        m
    } else {
        write_all(m, k, values.drop_last()).insert(k, values.last())
    }
}

/// Law: last-writer-wins. However many writes race on one key, once they have
/// all completed in some order the store is exactly what one write of the
/// last value in that order would have produced: it holds exactly one of the
/// written values under the key, uncorrupted, and no other key is affected.
pub proof fn lemma_last_writer_wins(
    m: Map<(Seq<char>, Seq<char>), Seq<char>>,
    k: (Seq<char>, Seq<char>),
    values: Seq<Seq<char>>,
)
    requires
        values.len() > 0,
    ensures
        write_all(m, k, values) == m.insert(k, values.last()),
        write_all(m, k, values)[k] == values.last(),
        values.contains(write_all(m, k, values)[k]),
    decreases values.len(),
{
    if values.len() == 1 {
        assert(write_all(m, k, values) == write_all(m, k, values.drop_last()).insert(
            k,
            values.last(),
        ));
        assert(values.drop_last().len() == 0);
    } else {
        lemma_last_writer_wins(m, k, values.drop_last());
        assert(m.insert(k, values.drop_last().last()).insert(k, values.last()) =~= m.insert(
            k,
            values.last(),
        ));
    }
    assert(values.contains(values.last())) by {
        assert(values[values.len() - 1] == values.last());
    }
}

} // verus!
