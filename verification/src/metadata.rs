//! The string-to-string side channel that travels with a request.

use vstd::prelude::*;
use vstd::std_specs::cmp::PartialEqSpecImpl;
use crate::json::{
    last_index, lemma_last_index, lemma_map_of_no_pairs, lemma_map_of_pairs_push, map_of_pairs,
};
use crate::text::str_eq;

verus! {

/// A mapping from string to string. Entries are kept in the order in which
/// they were inserted; of two entries with the same key the later one counts.
/// Two mappings are equal where they map the same keys to the same values,
/// whatever the order of insertion.
#[derive(Debug)]
pub struct Metadata {
    entries: Vec<(String, String)>,
}

/// The key-value pairs that a list of entries denotes, in order.
pub open spec fn entry_views(entries: Seq<(String, String)>) -> Seq<(Seq<char>, Seq<char>)> {
    Seq::new(entries.len(), |i: int| (entries[i].0@, entries[i].1@))
}

impl View for Metadata {
    type V = Map<Seq<char>, Seq<char>>;

    closed spec fn view(&self) -> Map<Seq<char>, Seq<char>> {
        map_of_pairs(entry_views(self.entries@))
    }
}

impl Metadata {
    /// The entries in the order of insertion.
    pub closed spec fn entries(&self) -> Seq<(Seq<char>, Seq<char>)> {
        entry_views(self.entries@)
    }

    /// The mapping is what its entries denote.
    pub proof fn lemma_view(&self)
        ensures
            self@ == map_of_pairs(self.entries()),
    {
    }

    /// An empty mapping.
    pub fn new() -> (m: Metadata)
        ensures
            m@ == (Map::<Seq<char>, Seq<char>>::empty()),
            m.entries() == (Seq::<(Seq<char>, Seq<char>)>::empty()),
    {
        let m = Metadata { entries: Vec::new() };
        proof {
            lemma_map_of_no_pairs::<Seq<char>>();
            assert(entry_views(m.entries@) =~= Seq::empty());
        }
        m
    }

    /// Maps `key` to `value`, in place of what it was mapped to.
    pub fn insert(&mut self, key: String, value: String)
        ensures
            final(self)@ == old(self)@.insert(key@, value@),
            final(self).entries() == old(self).entries().push((key@, value@)),
    {
        proof {
            lemma_map_of_pairs_push(entry_views(self.entries@), key@, value@);
        }
        let ghost before = self.entries@;
        self.entries.push((key, value));
        proof {
            assert(entry_views(self.entries@) =~= entry_views(before).push((key@, value@)));
        }
    }

    /// The value that `key` is mapped to.
    pub fn get<'a>(&'a self, key: &str) -> (r: Option<&'a String>)
        ensures
            match r {
                Some(v) => self@.contains_key(key@) && self@[key@] == v@,
                None => !self@.contains_key(key@),
            },
    {
        let ghost ps = entry_views(self.entries@);
        let mut i: usize = self.entries.len();
        while i > 0
            invariant
                i <= self.entries.len(),
                ps == entry_views(self.entries@),
                forall|j: int| i <= j < self.entries.len() ==> (#[trigger] ps[j]).0 != key@,
            decreases i,
        {
            i -= 1;
            if str_eq(self.entries[i].0.as_str(), key) {
                proof {
                    lemma_last_index(ps, key@);
                    assert(ps[i as int].0 == key@);
                    assert(last_index(ps, key@) == i);
                }
                return Some(&self.entries[i].1);
            }
            assert(ps[i as int].0 != key@);
        }
        proof {
            lemma_last_index(ps, key@);
        }
        None
    }

    /// Whether `key` is mapped to anything.
    pub fn contains_key(&self, key: &str) -> (r: bool)
        ensures
            r == self@.contains_key(key@),
    {
        self.get(key).is_some()
    }

    /// The number of entries, counting each insertion.
    pub fn len(&self) -> (n: usize)
        ensures
            n == self.entries().len(),
    {
        self.entries.len()
    }

    /// The key of the `i`-th entry.
    pub fn key_at(&self, i: usize) -> (k: &String)
        requires
            i < self.entries().len(),
        ensures
            k@ == self.entries()[i as int].0,
    {
        &self.entries[i].0
    }

    /// The value of the `i`-th entry.
    pub fn value_at(&self, i: usize) -> (v: &String)
        requires
            i < self.entries().len(),
        ensures
            v@ == self.entries()[i as int].1,
    {
        &self.entries[i].1
    }
}

impl Metadata {
    /// Whether `other` maps every key of this mapping to the same value.
    fn within(&self, other: &Metadata) -> (r: bool)
        ensures
            r == (forall|k: Seq<char>|
                self@.contains_key(k) ==> #[trigger] other@.contains_key(k) && other@[k] == self@[k]),
    {
        let ghost ps = entry_views(self.entries@);
        let mut i: usize = 0;
        while i < self.entries.len()
            invariant
                i <= self.entries.len(),
                ps == entry_views(self.entries@),
                forall|j: int|
                    0 <= j < i ==> other@.contains_key((#[trigger] ps[j]).0) && other@[ps[j].0]
                        == self@[ps[j].0],
            decreases self.entries.len() - i,
        {
            let key = self.entries[i].0.as_str();
            proof {
                lemma_last_index(ps, key@);
                assert(ps[i as int].0 == key@);
                assert(self@.contains_key(key@));
            }
            let same = match (self.get(key), other.get(key)) {
                (Some(mine), Some(theirs)) => str_eq(mine.as_str(), theirs.as_str()),
                _ => false,
            };
            if !same {
                return false;
            }
            i += 1;
        }
        proof {
            assert forall|k: Seq<char>| self@.contains_key(k) implies #[trigger] other@.contains_key(
                k,
            ) && other@[k] == self@[k] by {
                lemma_last_index(ps, k);
                let at = last_index(ps, k);
                assert(ps[at].0 == k);
            }
        }
        true
    }
}

impl PartialEq for Metadata {
    fn eq(&self, other: &Self) -> (r: bool) {
        let r = self.within(other) && other.within(self);
        proof {
            if r {
                assert(self@ =~= other@);
            }
        }
        r
    }
}

impl PartialEqSpecImpl for Metadata {
    open spec fn obeys_eq_spec() -> bool {
        true
    }

    open spec fn eq_spec(&self, other: &Self) -> bool {
        self@ == other@
    }
}

impl Clone for Metadata {
    fn clone(&self) -> (r: Self)
        ensures
            r@ == self@,
            r.entries() == self.entries(),
    {
        let mut out: Vec<(String, String)> = Vec::new();
        let mut i: usize = 0;
        while i < self.entries.len()
            invariant
                i <= self.entries.len(),
                out@.len() == i,
                forall|k: int|
                    0 <= k < i ==> (#[trigger] out@[k]).0@ == self.entries@[k].0@ && out@[k].1@
                        == self.entries@[k].1@,
            decreases self.entries.len() - i,
        {
            out.push((self.entries[i].0.clone(), self.entries[i].1.clone()));
            i += 1;
        }
        proof {
            assert(entry_views(out@) =~= entry_views(self.entries@));
        }
        Metadata { entries: out }
    }
}

} // verus!
