//! A JSON document as a tree of plain values, with its mathematical model.
//!
//! Every ingress payload reaches the gateway as a [`Json`] tree. The model of a
//! tree is a [`JsonTree`]: objects are maps from key to value, so the order in
//! which the fields of an object were written never matters, and of two fields
//! with the same key the later one counts.

use vstd::prelude::*;
use crate::text::str_eq;

verus! {

/// A JSON number. Integers are held as such; any other number is carried as
/// the value the JSON reader produced for it and is never computed with.
#[derive(Debug, PartialEq)]
pub enum JsonNumber {
    PosInt(u64),
    NegInt(i64),
    Float(serde_json::Number),
}

/// The model of a number: the integer it denotes, or the bits of the double
/// it denotes.
pub enum NumberView {
    Int(int),
    Float(u64),
}

/// `serde_json::Number`, whose inside is known only through [`number_view`].
#[verifier::external_type_specification]
#[verifier::external_body]
pub struct ExJsonNumber(serde_json::Number);

/// The number that a `serde_json::Number` holds: an integer, or else a
/// double.
pub uninterp spec fn number_view(n: serde_json::Number) -> NumberView;

/// `Clone::clone` of `serde_json::Number`: the copy holds the same number.
pub assume_specification[ <serde_json::Number as Clone>::clone ](n: &serde_json::Number) -> (r:
    serde_json::Number)
    ensures
        number_view(r) == number_view(*n),
;

impl View for JsonNumber {
    type V = NumberView;

    open spec fn view(&self) -> NumberView {
        match self {
            JsonNumber::PosInt(u) => NumberView::Int(*u as int),
            JsonNumber::NegInt(i) => NumberView::Int(*i as int),
            JsonNumber::Float(n) => number_view(*n),
        }
    }
}

impl Clone for JsonNumber {
    fn clone(&self) -> (r: Self)
        ensures
            r@ == self@,
    {
        match self {
            JsonNumber::PosInt(u) => JsonNumber::PosInt(*u),
            JsonNumber::NegInt(i) => JsonNumber::NegInt(*i),
            JsonNumber::Float(n) => JsonNumber::Float(n.clone()),
        }
    }
}

/// A JSON document.
#[derive(Debug, PartialEq)]
pub enum Json {
    Null,
    Bool(bool),
    Number(JsonNumber),
    String(String),
    Array(Vec<Json>),
    Object(Vec<(String, Json)>),
}

/// The model of a JSON document.
pub enum JsonTree {
    Null,
    Bool(bool),
    Number(NumberView),
    String(Seq<char>),
    Array(Seq<JsonTree>),
    Object(Map<Seq<char>, JsonTree>),
}

/// The position of the last pair of `pairs` whose key is `key`, or -1.
pub open spec fn last_index<V>(pairs: Seq<(Seq<char>, V)>, key: Seq<char>) -> int
    decreases pairs.len(),
{
    if pairs.len() == 0 {
        -1
    } else if pairs.last().0 == key {
        pairs.len() - 1
    } else {
        last_index(pairs.drop_last(), key)
    }
}

/// The map that a list of key-value pairs denotes: a later pair overrides an
/// earlier one with the same key.
pub open spec fn map_of_pairs<V>(pairs: Seq<(Seq<char>, V)>) -> Map<Seq<char>, V> {
    Map::new(
        |k: Seq<char>| last_index(pairs, k) >= 0,
        |k: Seq<char>| pairs[last_index(pairs, k)].1,
    )
}

/// The model of a document.
pub open spec fn tree_of(j: Json) -> JsonTree
    decreases j,
{
    match j {
        Json::Null => JsonTree::Null,
        Json::Bool(b) => JsonTree::Bool(b),
        Json::Number(n) => JsonTree::Number(n@),
        Json::String(s) => JsonTree::String(s@),
        Json::Array(items) => JsonTree::Array(trees(items@)),
        Json::Object(fields) => JsonTree::Object(map_of_pairs(pairs(fields@))),
    }
}

/// The models of a list of documents, in order.
pub open spec fn trees(items: Seq<Json>) -> Seq<JsonTree>
    decreases items,
{
    Seq::new(
        items.len(),
        |i: int|
            if 0 <= i < items.len() {
                tree_of(items[i])
            } else {
                JsonTree::Null
            },
    )
}

/// The key-value pairs that a list of fields denotes, in order.
pub open spec fn pairs(fields: Seq<(String, Json)>) -> Seq<(Seq<char>, JsonTree)>
    decreases fields,
{
    Seq::new(
        fields.len(),
        |i: int|
            if 0 <= i < fields.len() {
                (fields[i].0@, tree_of(fields[i].1))
            } else {
                (Seq::empty(), JsonTree::Null)
            },
    )
}

impl View for Json {
    type V = JsonTree;

    open spec fn view(&self) -> JsonTree {
        tree_of(*self)
    }
}

/// The value that an object holds under `key`; `None` for a missing key and
/// for a document that is no object.
pub open spec fn field_of(t: JsonTree, key: Seq<char>) -> Option<JsonTree> {
    match t {
        JsonTree::Object(m) => if m.contains_key(key) {
            Some(m[key])
        } else {
            None
        },
        _ => None,
    }
}

/// `last_index` finds the last pair with the key, and only such a pair.
pub proof fn lemma_last_index<V>(pairs: Seq<(Seq<char>, V)>, key: Seq<char>)
    ensures
        -1 <= last_index(pairs, key) < pairs.len(),
        last_index(pairs, key) >= 0 ==> pairs[last_index(pairs, key)].0 == key,
        forall|j: int| last_index(pairs, key) < j < pairs.len() ==> (#[trigger] pairs[j]).0 != key,
    decreases pairs.len(),
{
    if pairs.len() > 0 && pairs.last().0 != key {
        lemma_last_index(pairs.drop_last(), key);
        assert forall|j: int| last_index(pairs, key) < j < pairs.len() implies (
        #[trigger] pairs[j]).0 != key by {
            if j < pairs.len() - 1 {
                assert(pairs.drop_last()[j] == pairs[j]);
            }
        }
    }
}

/// An empty list of pairs denotes the empty map.
pub proof fn lemma_map_of_no_pairs<V>()
    ensures
        map_of_pairs(Seq::<(Seq<char>, V)>::empty()) == (Map::<Seq<char>, V>::empty()),
{
    assert(map_of_pairs(Seq::<(Seq<char>, V)>::empty()) =~= Map::<Seq<char>, V>::empty());
}

/// Appending a pair inserts it into the map.
pub proof fn lemma_map_of_pairs_push<V>(pairs: Seq<(Seq<char>, V)>, key: Seq<char>, value: V)
    ensures
        map_of_pairs(pairs.push((key, value))) == map_of_pairs(pairs).insert(key, value),
{
    let longer = pairs.push((key, value));
    assert(longer.drop_last() =~= pairs);
    assert forall|k: Seq<char>| k != key implies last_index(longer, k) == last_index(pairs, k) by {}
    assert forall|k: Seq<char>| k != key && last_index(pairs, k) >= 0 implies #[trigger] longer[last_index(
        pairs,
        k,
    )] == pairs[last_index(pairs, k)] by {
        lemma_last_index(pairs, k);
    }
    assert(map_of_pairs(longer) =~= map_of_pairs(pairs).insert(key, value));
}

/// A map denoted by a list of pairs has finitely many keys.
pub proof fn lemma_map_of_pairs_finite<V>(pairs: Seq<(Seq<char>, V)>)
    ensures
        map_of_pairs(pairs).dom().finite(),
    decreases pairs.len(),
{
    if pairs.len() == 0 {
        assert(pairs =~= Seq::empty());
        lemma_map_of_no_pairs::<V>();
    } else {
        let shorter = pairs.drop_last();
        assert(shorter.push((pairs.last().0, pairs.last().1)) =~= pairs);
        lemma_map_of_pairs_finite(shorter);
        lemma_map_of_pairs_push(shorter, pairs.last().0, pairs.last().1);
        assert(map_of_pairs(pairs).dom() =~= map_of_pairs(shorter).dom().insert(pairs.last().0));
    }
}

impl Json {
    /// The value stored under `key`, where this document is an object that
    /// holds one.
    pub fn field<'a>(&'a self, key: &str) -> (r: Option<&'a Json>)
        ensures
            match r {
                Some(v) => field_of(self@, key@) == Some(v@),
                None => field_of(self@, key@) is None,
            },
    {
        match self {
            Json::Object(fields) => {
                let ghost ps = pairs(fields@);
                let mut i: usize = fields.len();
                while i > 0
                    invariant
                        i <= fields.len(),
                        ps == pairs(fields@),
                        self@ == JsonTree::Object(map_of_pairs(ps)),
                        forall|j: int| i <= j < fields.len() ==> (#[trigger] ps[j]).0 != key@,
                    decreases i,
                {
                    i -= 1;
                    if str_eq(fields[i].0.as_str(), key) {
                        proof {
                            lemma_last_index(ps, key@);
                            assert(ps[i as int].0 == key@);
                            assert(last_index(ps, key@) == i);
                        }
                        return Some(&fields[i].1);
                    }
                    assert(ps[i as int].0 != key@);
                }
                proof {
                    lemma_last_index(ps, key@);
                }
                None
            },
            _ => None,
        }
    }

    /// A copy of this document.
    pub fn duplicate(&self) -> (r: Json)
        ensures
            r@ == self@,
        decreases self,
    {
        match self {
            Json::Null => Json::Null,
            Json::Bool(b) => Json::Bool(*b),
            Json::Number(n) => Json::Number(n.clone()),
            Json::String(s) => Json::String(s.clone()),
            Json::Array(items) => {
                let mut out: Vec<Json> = Vec::new();
                let mut i: usize = 0;
                while i < items.len()
                    invariant
                        i <= items.len(),
                        out@.len() == i,
                        self == Json::Array(*items),
                        forall|k: int| 0 <= k < i ==> (#[trigger] out@[k])@ == items@[k]@,
                    decreases items.len() - i,
                {
                    proof {
                        assert(decreases_to!(self => self->Array_0));
                        assert(decreases_to!(items => items@));
                        assert(decreases_to!(items@ => items@[i as int]));
                    }
                    out.push(items[i].duplicate());
                    i += 1;
                }
                assert(trees(out@) =~= trees(items@));
                Json::Array(out)
            },
            Json::Object(fields) => {
                let mut out: Vec<(String, Json)> = Vec::new();
                let mut i: usize = 0;
                while i < fields.len()
                    invariant
                        i <= fields.len(),
                        out@.len() == i,
                        self == Json::Object(*fields),
                        forall|k: int|
                            0 <= k < i ==> (#[trigger] out@[k]).0@ == fields@[k].0@ && out@[k].1@
                                == fields@[k].1@,
                    decreases fields.len() - i,
                {
                    proof {
                        assert(decreases_to!(self => self->Object_0));
                        assert(decreases_to!(fields => fields@));
                        assert(decreases_to!(fields@ => fields@[i as int]));
                        assert(decreases_to!(fields@[i as int] => fields@[i as int].1));
                    }
                    out.push((fields[i].0.clone(), fields[i].1.duplicate()));
                    i += 1;
                }
                assert(pairs(out@) =~= pairs(fields@));
                Json::Object(out)
            },
        }
    }
}

impl Clone for Json {
    fn clone(&self) -> (r: Self)
        ensures
            r@ == self@,
    {
        self.duplicate()
    }
}

/// Putting a pair in front leaves the map as it is where the key comes
/// again later, and inserts the pair where it does not.
pub proof fn lemma_map_of_pairs_prepend<V>(pairs: Seq<(Seq<char>, V)>, key: Seq<char>, value: V)
    ensures
        map_of_pairs(seq![(key, value)] + pairs) == if map_of_pairs(pairs).contains_key(key) {
            map_of_pairs(pairs)
        } else {
            map_of_pairs(pairs).insert(key, value)
        },
    decreases pairs.len(),
{
    let longer = seq![(key, value)] + pairs;
    assert forall|k: Seq<char>|
        last_index(longer, k) == if last_index(pairs, k) >= 0 {
            last_index(pairs, k) + 1
        } else if k == key {
            0
        } else {
            -1
        } by {
        lemma_last_index_prepend(pairs, key, value, k);
    }
    assert forall|k: Seq<char>| last_index(pairs, k) >= 0 implies #[trigger] longer[last_index(
        pairs,
        k,
    ) + 1] == pairs[last_index(pairs, k)] by {
        lemma_last_index(pairs, k);
    }
    if map_of_pairs(pairs).contains_key(key) {
        assert(map_of_pairs(longer) =~= map_of_pairs(pairs));
    } else {
        assert(map_of_pairs(longer) =~= map_of_pairs(pairs).insert(key, value));
    }
}

/// Where the last pair with a key stands once a pair is put in front.
pub proof fn lemma_last_index_prepend<V>(
    pairs: Seq<(Seq<char>, V)>,
    key: Seq<char>,
    value: V,
    k: Seq<char>,
)
    ensures
        last_index(seq![(key, value)] + pairs, k) == if last_index(pairs, k) >= 0 {
            last_index(pairs, k) + 1
        } else if k == key {
            0
        } else {
            -1
        },
    decreases pairs.len(),
{
    let longer = seq![(key, value)] + pairs;
    assert(longer.len() == pairs.len() + 1);
    if pairs.len() == 0 {
        assert(longer.last() == (key, value));
        assert(longer.drop_last() =~= Seq::empty());
        assert(last_index(longer.drop_last(), k) == -1);
    } else {
        assert(longer.last() == pairs.last());
        assert(longer.drop_last() =~= seq![(key, value)] + pairs.drop_last());
        if pairs.last().0 != k {
            lemma_last_index_prepend(pairs.drop_last(), key, value, k);
        }
    }
}

} // verus!
