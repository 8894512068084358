//! A map from strings to strings, kept as parallel key and value lists in
//! insertion order; a later insertion of a key overrides an earlier one.

use vstd::prelude::*;
use vstd::string::*;

use crate::text::{seq_starts_with, str_eq, str_starts_with};

verus! {

/// The map made by inserting `keys[i] -> values[i]` for each `i` in turn.
pub open spec fn entries_map(keys: Seq<Seq<char>>, values: Seq<Seq<char>>) -> Map<Seq<char>, Seq<char>>
    decreases keys.len(),
{
    if keys.len() == 0 || values.len() == 0 {
        Map::empty()
    } else {
        entries_map(keys.drop_last(), values.drop_last()).insert(keys.last(), values.last())
    }
}

/// Inserting keys that all differ from `k` changes neither whether `k` is
/// present nor its value.
proof fn lemma_entries_map_other_keys(
    keys: Seq<Seq<char>>,
    values: Seq<Seq<char>>,
    m: int,
    k: Seq<char>,
)
    requires
        keys.len() == values.len(),
        0 <= m <= keys.len(),
        forall|j: int| m <= j < keys.len() ==> keys[j] != k,
    ensures
        entries_map(keys, values).contains_key(k) == entries_map(
            keys.take(m),
            values.take(m),
        ).contains_key(k),
        entries_map(keys, values)[k] == entries_map(keys.take(m), values.take(m))[k],
    decreases keys.len() - m,
{
    if m < keys.len() {
        assert(keys.drop_last().take(m) =~= keys.take(m));
        assert(values.drop_last().take(m) =~= values.take(m));
        lemma_entries_map_other_keys(keys.drop_last(), values.drop_last(), m, k);
    } else {
        assert(keys.take(m) =~= keys);
        assert(values.take(m) =~= values);
    }
}

/// `k` is a key of the map exactly when it occurs in the key list.
proof fn lemma_entries_map_dom(keys: Seq<Seq<char>>, values: Seq<Seq<char>>, k: Seq<char>)
    requires
        keys.len() == values.len(),
    ensures
        entries_map(keys, values).contains_key(k) <==> exists|i: int|
            0 <= i < keys.len() && keys[i] == k,
    decreases keys.len(),
{
    if keys.len() > 0 {
        lemma_entries_map_dom(keys.drop_last(), values.drop_last(), k);
        if exists|i: int| 0 <= i < keys.len() && keys[i] == k {
            let i = choose|i: int| 0 <= i < keys.len() && keys[i] == k;
            if i < keys.len() - 1 {
                assert(keys.drop_last()[i] == k);
            }
        }
        if exists|i: int| 0 <= i < keys.drop_last().len() && keys.drop_last()[i] == k {
            let i = choose|i: int| 0 <= i < keys.drop_last().len() && keys.drop_last()[i] == k;
            assert(keys[i] == k);
        }
    }
}

/// A map from strings to strings.
#[derive(Debug, Clone)]
pub struct StringMap {
    entries: Vec<(String, String)>,
}

impl StringMap {
    /// The key list as character sequences.
    pub closed spec fn key_seq(&self) -> Seq<Seq<char>> {
        self.entries@.map_values(|e: (String, String)| e.0@)
    }

    /// The value list as character sequences.
    pub closed spec fn value_seq(&self) -> Seq<Seq<char>> {
        self.entries@.map_values(|e: (String, String)| e.1@)
    }
}

impl View for StringMap {
    type V = Map<Seq<char>, Seq<char>>;

    closed spec fn view(&self) -> Map<Seq<char>, Seq<char>> {
        entries_map(self.key_seq(), self.value_seq())
    }
}

impl StringMap {
    /// The empty map.
    pub fn new() -> (r: StringMap)
        ensures
            r@ == Map::<Seq<char>, Seq<char>>::empty(),
    {
        let r = StringMap { entries: Vec::new() };
        assert(r.key_seq() =~= Seq::<Seq<char>>::empty());
        r
    }

    /// Insert `key -> value`, overriding an earlier value of `key`.
    pub fn insert(&mut self, key: String, value: String)
        ensures
            final(self)@ == old(self)@.insert(key@, value@),
    {
        self.entries.push((key, value));
        assert(self.key_seq().drop_last() =~= old(self).key_seq());
        assert(self.value_seq().drop_last() =~= old(self).value_seq());
    }

    /// Whether the map is empty.
    pub fn is_empty(&self) -> (r: bool)
        ensures
            r == (self@.dom() == Set::<Seq<char>>::empty()),
    {
        if self.entries.len() == 0 {
            assert(self.key_seq() =~= Seq::<Seq<char>>::empty());
            assert(self@.dom() =~= Set::<Seq<char>>::empty());
            true
        } else {
            let ghost k = self.key_seq()[0];
            proof {
                lemma_entries_map_dom(self.key_seq(), self.value_seq(), k);
            }
            assert(self@.dom().contains(k));
            false
        }
    }

    /// Whether `key` has a value.
    pub fn contains_key(&self, key: &str) -> (r: bool)
        ensures
            r == self@.contains_key(key@),
    {
        proof {
            lemma_entries_map_dom(self.key_seq(), self.value_seq(), key@);
        }
        let n = self.entries.len();
        let mut i: usize = 0;
        while i < n
            invariant
                n == self.entries@.len(),
                i <= n,
                forall|j: int| 0 <= j < i ==> self.key_seq()[j] != key@,
            decreases n - i,
        {
            if str_eq(self.entries[i].0.as_str(), key) {
                assert(self.key_seq()[i as int] == key@);
                proof {
                    lemma_entries_map_dom(self.key_seq(), self.value_seq(), key@);
                }
                return true;
            }
            i = i + 1;
        }
        false
    }

    /// The value of `key`, if it has one.
    pub fn get(&self, key: &str) -> (r: Option<&String>)
        ensures
            r is Some <==> self@.contains_key(key@),
            r matches Some(v) ==> v@ == self@[key@],
    {
        let n = self.entries.len();
        let mut i: usize = n;
        assert(self.key_seq().take(n as int) =~= self.key_seq());
        assert(self.value_seq().take(n as int) =~= self.value_seq());
        while i > 0
            invariant
                n == self.entries@.len(),
                i <= n,
                forall|j: int| i <= j < n ==> self.key_seq()[j] != key@,
            decreases i,
        {
            if str_eq(self.entries[i - 1].0.as_str(), key) {
                proof {
                    let ks = self.key_seq();
                    let vs = self.value_seq();
                    lemma_entries_map_other_keys(ks, vs, i as int, key@);
                    assert(ks.take(i as int).drop_last() =~= ks.take(i - 1));
                    assert(vs.take(i as int).drop_last() =~= vs.take(i - 1));
                }
                return Some(&self.entries[i - 1].1);
            }
            i = i - 1;
        }
        proof {
            lemma_entries_map_dom(self.key_seq(), self.value_seq(), key@);
        }
        None
    }

    /// The inserted entries, in insertion order; the map is what inserting
    /// them in turn makes.
    pub fn entries(&self) -> (r: &Vec<(String, String)>)
        ensures
            entries_map(
                r@.map_values(|e: (String, String)| e.0@),
                r@.map_values(|e: (String, String)| e.1@),
            ) == self@,
    {
        &self.entries
    }

    /// Whether some key begins with `prefix`.
    pub fn any_key_starts_with(&self, prefix: &str) -> (r: bool)
        ensures
            r == exists|k: Seq<char>| #[trigger] self@.contains_key(k) && seq_starts_with(k, prefix@),
    {
        let n = self.entries.len();
        let mut i: usize = 0;
        while i < n
            invariant
                n == self.entries@.len(),
                i <= n,
                forall|j: int| 0 <= j < i ==> !seq_starts_with(#[trigger] self.key_seq()[j], prefix@),
            decreases n - i,
        {
            if str_starts_with(self.entries[i].0.as_str(), prefix) {
                proof {
                    let k = self.key_seq()[i as int];
                    lemma_entries_map_dom(self.key_seq(), self.value_seq(), k);
                    assert(self@.contains_key(k));
                }
                return true;
            }
            i = i + 1;
        }
        proof {
            assert forall|k: Seq<char>| #[trigger] self@.contains_key(k) implies !seq_starts_with(k, prefix@) by {
                lemma_entries_map_dom(self.key_seq(), self.value_seq(), k);
                let j = choose|j: int| 0 <= j < self.key_seq().len() && self.key_seq()[j] == k;
            }
        }
        false
    }
}

} // verus!
