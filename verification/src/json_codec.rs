//! Reading and printing JSON text.
//!
//! The text is read and printed by `serde_json`. This module takes a value of
//! that crate apart and puts one together, one level at a time, so that the
//! conversion between it and a [`Json`] tree is verified code.
//!
//! What is taken on trust here: that reading and printing are functions of
//! the text and of the document, that a `serde_json::Value` holds a document
//! in the way the calls below say, and that a `serde_json::Map` holds each
//! key once. The text that is printed is a function of the document alone as
//! long as `serde_json` keeps the fields of an object in the order of their
//! keys, which it does unless it is built to preserve the order of insertion.

use vstd::prelude::*;
use crate::json::{
    lemma_last_index, lemma_map_of_no_pairs, lemma_map_of_pairs_finite, lemma_map_of_pairs_push,
    last_index, map_of_pairs, number_view, pairs, trees, Json, JsonNumber, JsonTree, NumberView,
};

verus! {

/// `serde_json::Value`, whose inside is known only through [`value_tree`].
#[verifier::external_type_specification]
#[verifier::external_body]
pub struct ExJsonValue(serde_json::Value);

/// `serde_json::Error`, of which nothing is known.
#[verifier::external_type_specification]
#[verifier::external_body]
pub struct ExJsonError(serde_json::Error);

/// `serde_json::Map`, whose inside is known only through [`object_fields`].
#[verifier::external_type_specification]
#[verifier::external_body]
#[verifier::reject_recursive_types(K)]
#[verifier::reject_recursive_types(V)]
pub struct ExJsonMap<K, V>(serde_json::Map<K, V>);

/// The document that a `serde_json::Value` holds.
pub uninterp spec fn value_tree(v: serde_json::Value) -> JsonTree;

/// The fields that a `serde_json::Map` holds.
pub uninterp spec fn object_fields(m: serde_json::Map<String, serde_json::Value>) -> Map<
    Seq<char>,
    JsonTree,
>;

/// The document that a text denotes, as `serde_json::from_slice` reads it;
/// `None` where it reads none.
pub uninterp spec fn parsed_text(bytes: Seq<u8>) -> Option<JsonTree>;

/// The compact text of a document, as `serde_json` prints it: without white
/// space, the fields of an object in the order of their keys.
pub uninterp spec fn compact_text(t: JsonTree) -> Seq<char>;

/// The top level of a borrowed `serde_json::Value`.
enum Opened<'a> {
    Null,
    Bool(bool),
    Number(&'a serde_json::Number),
    Text(&'a String),
    Items(&'a Vec<serde_json::Value>),
    Fields(&'a serde_json::Map<String, serde_json::Value>),
}

/// The top level of a `serde_json::Value` that is being built.
enum Closed {
    Null,
    Bool(bool),
    Number(serde_json::Number),
    Text(String),
    Items(Vec<serde_json::Value>),
    Fields(serde_json::Map<String, serde_json::Value>),
}

spec fn value_trees(items: Seq<serde_json::Value>) -> Seq<JsonTree> {
    Seq::new(items.len(), |i: int| value_tree(items[i]))
}

spec fn entry_pairs(entries: Seq<(&String, &serde_json::Value)>) -> Seq<(Seq<char>, JsonTree)> {
    Seq::new(entries.len(), |i: int| (entries[i].0@, value_tree(*entries[i].1)))
}

spec fn opened_tree(o: Opened) -> JsonTree {
    match o {
        Opened::Null => JsonTree::Null,
        Opened::Bool(b) => JsonTree::Bool(b),
        Opened::Number(n) => JsonTree::Number(number_view(*n)),
        Opened::Text(s) => JsonTree::String(s@),
        Opened::Items(items) => JsonTree::Array(value_trees(items@)),
        Opened::Fields(m) => JsonTree::Object(object_fields(*m)),
    }
}

spec fn closed_tree(c: Closed) -> JsonTree {
    match c {
        Closed::Null => JsonTree::Null,
        Closed::Bool(b) => JsonTree::Bool(b),
        Closed::Number(n) => JsonTree::Number(number_view(n)),
        Closed::Text(s) => JsonTree::String(s@),
        Closed::Items(items) => JsonTree::Array(value_trees(items@)),
        Closed::Fields(m) => JsonTree::Object(object_fields(m)),
    }
}

/// `serde_json::from_slice` at the type `serde_json::Value`: the value holds
/// the document that the text denotes, and the call fails exactly where the
/// text denotes none.
#[verifier::external_body]
fn parse_value(bytes: &[u8]) -> (r: Result<serde_json::Value, serde_json::Error>)
    ensures
        match r {
            Ok(v) => parsed_text(bytes@) == Some(value_tree(v)),
            Err(_) => parsed_text(bytes@) is None,
        },
{
    serde_json::from_slice::<serde_json::Value>(bytes)
}

/// `Display` of `serde_json::Value` through `to_string`: the compact text of
/// the document that the value holds.
#[verifier::external_body]
fn value_text(v: &serde_json::Value) -> (s: String)
    ensures
        s@ == compact_text(value_tree(*v)),
{
    v.to_string()
}

/// Tells the variants of a `serde_json::Value` apart: what comes back holds,
/// one level deep, what the value holds.
#[verifier::external_body]
fn open_value<'a>(v: &'a serde_json::Value) -> (o: Opened<'a>)
    ensures
        opened_tree(o) == value_tree(*v),
{
    match v {
        serde_json::Value::Null => Opened::Null,
        serde_json::Value::Bool(b) => Opened::Bool(*b),
        serde_json::Value::Number(n) => Opened::Number(n),
        serde_json::Value::String(s) => Opened::Text(s),
        serde_json::Value::Array(items) => Opened::Items(items),
        serde_json::Value::Object(m) => Opened::Fields(m),
    }
}

/// Builds the variant of `serde_json::Value` that holds the given parts.
#[verifier::external_body]
fn close_value(c: Closed) -> (v: serde_json::Value)
    ensures
        value_tree(v) == closed_tree(c),
{
    match c {
        Closed::Null => serde_json::Value::Null,
        Closed::Bool(b) => serde_json::Value::Bool(b),
        Closed::Number(n) => serde_json::Value::Number(n),
        Closed::Text(s) => serde_json::Value::String(s),
        Closed::Items(items) => serde_json::Value::Array(items),
        Closed::Fields(m) => serde_json::Value::Object(m),
    }
}

/// `serde_json::Map::iter`, collected: every field of the map once, each key
/// a single time.
#[verifier::external_body]
fn map_entries<'a>(m: &'a serde_json::Map<String, serde_json::Value>) -> (entries: Vec<
    (&'a String, &'a serde_json::Value),
>)
    ensures
        object_fields(*m) == map_of_pairs(entry_pairs(entries@)),
        forall|i: int, j: int|
            0 <= i < j < entries@.len() ==> (#[trigger] entries@[i]).0@ != (
            #[trigger] entries@[j]).0@,
{
    m.iter().collect()
}

/// `serde_json::Map::new`: a map without fields.
#[verifier::external_body]
fn new_map() -> (fresh: serde_json::Map<String, serde_json::Value>)
    ensures
        object_fields(fresh) == (Map::<Seq<char>, JsonTree>::empty()),
{
    serde_json::Map::new()
}

/// `serde_json::Map::insert`: the map holds the value under the key, in
/// place of what it held there, and is otherwise unchanged.
#[verifier::external_body]
fn map_insert(m: &mut serde_json::Map<String, serde_json::Value>, key: String, value: serde_json::Value)
    ensures
        object_fields(*final(m)) == object_fields(*old(m)).insert(key@, value_tree(value)),
{
    m.insert(key, value);
}

/// `serde_json::Number::as_u64` and `as_i64`: an integer is handed out as
/// such, and only a number that is no integer is kept as it is.
#[verifier::external_body]
fn read_number(n: &serde_json::Number) -> (r: JsonNumber)
    ensures
        r@ == number_view(*n),
        r is Float ==> r@ is Float,
{
    match (n.as_u64(), n.as_i64()) {
        (Some(u), _) => JsonNumber::PosInt(u),
        (None, Some(i)) => JsonNumber::NegInt(i),
        (None, None) => JsonNumber::Float(n.clone()),
    }
}

/// `From<u64>` and `From<i64>` of `serde_json::Number`: the number that
/// denotes the same integer; another number is handed on as it is.
#[verifier::external_body]
fn write_number(n: &JsonNumber) -> (r: serde_json::Number)
    ensures
        number_view(r) == n@,
{
    match n {
        JsonNumber::PosInt(u) => serde_json::Number::from(*u),
        JsonNumber::NegInt(i) => serde_json::Number::from(*i),
        JsonNumber::Float(x) => x.clone(),
    }
}

/// The tree that holds what a value of the JSON reader holds.
pub fn tree_of_value(v: &serde_json::Value) -> (j: Json)
    ensures
        j@ == value_tree(*v),
    decreases value_tree(*v),
{
    match open_value(v) {
        Opened::Null => Json::Null,
        Opened::Bool(b) => Json::Bool(b),
        Opened::Number(n) => Json::Number(read_number(n)),
        Opened::Text(s) => Json::String(s.clone()),
        Opened::Items(items) => {
            let mut out: Vec<Json> = Vec::new();
            let mut i: usize = 0;
            while i < items.len()
                invariant
                    i <= items.len(),
                    out@.len() == i,
                    value_tree(*v) == JsonTree::Array(value_trees(items@)),
                    forall|k: int| 0 <= k < i ==> (#[trigger] out@[k])@ == value_tree(items@[k]),
                decreases items.len() - i,
            {
                proof {
                    let whole = value_tree(*v);
                    let inner = value_trees(items@);
                    assert(inner[i as int] == value_tree(items@[i as int]));
                    assert(decreases_to!(whole => whole->Array_0));
                    assert(decreases_to!(inner => inner[i as int]));
                }
                let item = tree_of_value(&items[i]);
                out.push(item);
                i += 1;
            }
            assert(trees(out@) =~= value_trees(items@));
            Json::Array(out)
        },
        Opened::Fields(m) => {
            let entries = map_entries(m);
            let ghost ps = entry_pairs(entries@);
            let mut out: Vec<(String, Json)> = Vec::new();
            let mut i: usize = 0;
            while i < entries.len()
                invariant
                    i <= entries.len(),
                    out@.len() == i,
                    ps == entry_pairs(entries@),
                    value_tree(*v) == JsonTree::Object(map_of_pairs(ps)),
                    forall|a: int, b: int|
                        0 <= a < b < entries@.len() ==> (#[trigger] entries@[a]).0@ != (
                        #[trigger] entries@[b]).0@,
                    forall|k: int|
                        0 <= k < i ==> (#[trigger] out@[k]).0@ == entries@[k].0@ && out@[k].1@
                            == value_tree(*entries@[k].1),
                decreases entries.len() - i,
            {
                proof {
                    lemma_last_index(ps, ps[i as int].0);
                    let at = last_index(ps, ps[i as int].0);
                    if at != i {
                        assert(entries@[i as int].0@ != entries@[at].0@);
                    }
                    lemma_map_of_pairs_finite(ps);
                    let whole = value_tree(*v);
                    let inner = map_of_pairs(ps);
                    assert(inner[ps[i as int].0] == value_tree(*entries@[i as int].1));
                    assert(decreases_to!(whole => whole->Object_0));
                    assert(decreases_to!(inner => inner[ps[i as int].0]));
                }
                let key = entries[i].0.clone();
                let value = tree_of_value(entries[i].1);
                out.push((key, value));
                i += 1;
            }
            assert(pairs(out@) =~= ps);
            Json::Object(out)
        },
    }
}

/// The value of the JSON reader that holds what a tree holds.
pub fn value_of_tree(j: &Json) -> (v: serde_json::Value)
    ensures
        value_tree(v) == j@,
    decreases j,
{
    match j {
        Json::Null => close_value(Closed::Null),
        Json::Bool(b) => close_value(Closed::Bool(*b)),
        Json::Number(n) => close_value(Closed::Number(write_number(n))),
        Json::String(s) => close_value(Closed::Text(s.clone())),
        Json::Array(items) => {
            let mut out: Vec<serde_json::Value> = Vec::new();
            let mut i: usize = 0;
            while i < items.len()
                invariant
                    i <= items.len(),
                    out@.len() == i,
                    j == Json::Array(*items),
                    forall|k: int| 0 <= k < i ==> value_tree(#[trigger] out@[k]) == items@[k]@,
                decreases items.len() - i,
            {
                proof {
                    assert(decreases_to!(j => j->Array_0));
                    assert(decreases_to!(items => items@));
                    assert(decreases_to!(items@ => items@[i as int]));
                }
                let item = value_of_tree(&items[i]);
                out.push(item);
                i += 1;
            }
            assert(value_trees(out@) =~= trees(items@));
            close_value(Closed::Items(out))
        },
        Json::Object(fields) => {
            let mut m = new_map();
            let mut i: usize = 0;
            proof {
                lemma_map_of_no_pairs::<JsonTree>();
                assert(pairs(fields@).take(0) =~= Seq::empty());
            }
            while i < fields.len()
                invariant
                    i <= fields.len(),
                    j == Json::Object(*fields),
                    object_fields(m) == map_of_pairs(pairs(fields@).take(i as int)),
                decreases fields.len() - i,
            {
                let key = fields[i].0.clone();
                proof {
                    assert(decreases_to!(j => j->Object_0));
                    assert(decreases_to!(fields => fields@));
                    assert(decreases_to!(fields@ => fields@[i as int]));
                    assert(decreases_to!(fields@[i as int] => fields@[i as int].1));
                }
                let value = value_of_tree(&fields[i].1);
                proof {
                    let ps = pairs(fields@);
                    lemma_map_of_pairs_push(ps.take(i as int), ps[i as int].0, ps[i as int].1);
                    assert(ps.take(i as int).push((ps[i as int].0, ps[i as int].1)) =~= ps.take(
                        i + 1,
                    ));
                }
                map_insert(&mut m, key, value);
                i += 1;
            }
            assert(pairs(fields@).take(fields@.len() as int) =~= pairs(fields@));
            close_value(Closed::Fields(m))
        },
    }
}

/// The 32-bit count that a number denotes, if it denotes one.
pub open spec fn count_of(n: NumberView) -> Option<u32> {
    match n {
        NumberView::Int(k) => if 0 <= k <= u32::MAX {
            Some(k as u32)
        } else {
            None
        },
        NumberView::Float(_) => None,
    }
}

impl JsonNumber {
    /// The 32-bit count that this number denotes, if it denotes one.
    pub fn as_u32(&self) -> (r: Option<u32>)
        ensures
            r == count_of(self@),
    {
        match self {
            JsonNumber::PosInt(u) => if *u <= u32::MAX as u64 {
                Some(*u as u32)
            } else {
                None
            },
            JsonNumber::NegInt(i) => if 0 <= *i && *i <= u32::MAX as i64 {
                Some(*i as u32)
            } else {
                None
            },
            JsonNumber::Float(n) => match read_number(n) {
                JsonNumber::PosInt(u) => if u <= u32::MAX as u64 {
                    Some(u as u32)
                } else {
                    None
                },
                JsonNumber::NegInt(i) => if 0 <= i && i <= u32::MAX as i64 {
                    Some(i as u32)
                } else {
                    None
                },
                JsonNumber::Float(_) => None,
            },
        }
    }
}

impl Json {
    /// Reads a document from JSON text. Fails exactly where the text is not
    /// JSON.
    pub fn parse(bytes: &[u8]) -> (r: Option<Json>)
        ensures
            match r {
                Some(j) => parsed_text(bytes@) == Some(j@),
                None => parsed_text(bytes@) is None,
            },
    {
        match parse_value(bytes) {
            Ok(v) => Some(tree_of_value(&v)),
            Err(_) => None,
        }
    }

    /// The compact JSON text of this document.
    pub fn to_text(&self) -> (s: String)
        ensures
            s@ == compact_text(self@),
    {
        let v = value_of_tree(self);
        value_text(&v)
    }
}

} // verus!
