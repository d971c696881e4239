//! Reading typed fields out of a JSON object.
//!
//! Every reader comes as a pair: a spec function on the model of the
//! document, which says what the field holds, and an executable function that
//! computes it. A reader fails (`None`) where the field is present with a
//! value of the wrong kind. Unknown fields are never looked at.

use vstd::prelude::*;
use crate::json::{field_of, trees, Json, JsonNumber, JsonTree, NumberView};
use crate::json_codec::count_of;
use crate::text::{opt_text, texts};

verus! {

/// The text of a field that must be a string.
pub open spec fn text_field(t: JsonTree, key: Seq<char>) -> Option<Seq<char>> {
    match field_of(t, key) {
        Some(JsonTree::String(s)) => Some(s),
        _ => None,
    }
}

/// The text of a field that may be missing or null.
pub open spec fn opt_text_field(t: JsonTree, key: Seq<char>) -> Option<Option<Seq<char>>> {
    match field_of(t, key) {
        None => Some(None),
        Some(JsonTree::Null) => Some(None),
        Some(JsonTree::String(s)) => Some(Some(s)),
        _ => None,
    }
}

/// A flag that is off where the field is missing.
pub open spec fn flag_field(t: JsonTree, key: Seq<char>) -> Option<bool> {
    match field_of(t, key) {
        None => Some(false),
        Some(JsonTree::Bool(b)) => Some(b),
        _ => None,
    }
}

/// A count that may be missing or null: a non-negative integer of 32 bits.
pub open spec fn opt_u32_field(t: JsonTree, key: Seq<char>) -> Option<Option<u32>> {
    match field_of(t, key) {
        None => Some(None),
        Some(JsonTree::Null) => Some(None),
        Some(JsonTree::Number(n)) => match count_of(n) {
            Some(k) => Some(Some(k)),
            None => None,
        },
        _ => None,
    }
}

/// A number that may be missing or null.
pub open spec fn opt_number_field(t: JsonTree, key: Seq<char>) -> Option<Option<NumberView>> {
    match field_of(t, key) {
        None => Some(None),
        Some(JsonTree::Null) => Some(None),
        Some(JsonTree::Number(n)) => Some(Some(n)),
        _ => None,
    }
}

/// A document of any kind that may be missing; null counts as missing.
pub open spec fn opt_any_field(t: JsonTree, key: Seq<char>) -> Option<JsonTree> {
    match field_of(t, key) {
        None => None,
        Some(JsonTree::Null) => None,
        Some(v) => Some(v),
    }
}

/// The items of a list field; the list is empty where the field is missing.
pub open spec fn items_field(t: JsonTree, key: Seq<char>) -> Option<Seq<JsonTree>> {
    match field_of(t, key) {
        None => Some(Seq::empty()),
        Some(JsonTree::Array(items)) => Some(items),
        _ => None,
    }
}

/// The text of a document that is a string.
pub open spec fn text_of(t: JsonTree) -> Option<Seq<char>> {
    match t {
        JsonTree::String(s) => Some(s),
        _ => None,
    }
}

/// The text of every item, in order; fails where one item is no string.
pub open spec fn all_texts(items: Seq<JsonTree>) -> Option<Seq<Seq<char>>> {
    if forall|i: int| 0 <= i < items.len() ==> text_of(#[trigger] items[i]) is Some {
        Some(Seq::new(items.len(), |i: int| text_of(items[i])->0))
    } else {
        None
    }
}

/// A list of strings that is empty where the field is missing.
pub open spec fn texts_field(t: JsonTree, key: Seq<char>) -> Option<Seq<Seq<char>>> {
    match items_field(t, key) {
        Some(items) => all_texts(items),
        None => None,
    }
}

/// The model of an optional optional string.
pub open spec fn opt_opt_text(o: Option<Option<String>>) -> Option<Option<Seq<char>>> {
    match o {
        Some(inner) => Some(opt_text(inner)),
        None => None,
    }
}

/// The model of an optional optional number.
pub open spec fn opt_opt_number(o: Option<Option<JsonNumber>>) -> Option<Option<NumberView>> {
    match o {
        Some(Some(n)) => Some(Some(n@)),
        Some(None) => Some(None),
        None => None,
    }
}

/// The model of an optional list of strings.
pub open spec fn opt_texts(o: Option<Vec<String>>) -> Option<Seq<Seq<char>>> {
    match o {
        Some(v) => Some(texts(v@)),
        None => None,
    }
}

/// Reads a field that must be a string.
pub fn read_text_field(t: &Json, key: &str) -> (r: Option<String>)
    ensures
        opt_text(r) == text_field(t@, key@),
{
    match t.field(key) {
        Some(Json::String(s)) => Some(s.clone()),
        _ => None,
    }
}

/// Reads a string field that may be missing or null.
pub fn read_opt_text_field(t: &Json, key: &str) -> (r: Option<Option<String>>)
    ensures
        opt_opt_text(r) == opt_text_field(t@, key@),
{
    match t.field(key) {
        None => Some(None),
        Some(Json::Null) => Some(None),
        Some(Json::String(s)) => Some(Some(s.clone())),
        _ => None,
    }
}

/// Reads a flag that is off where the field is missing.
pub fn read_flag_field(t: &Json, key: &str) -> (r: Option<bool>)
    ensures
        r == flag_field(t@, key@),
{
    match t.field(key) {
        None => Some(false),
        Some(Json::Bool(b)) => Some(*b),
        _ => None,
    }
}

/// Reads a 32-bit count that may be missing or null.
pub fn read_opt_u32_field(t: &Json, key: &str) -> (r: Option<Option<u32>>)
    ensures
        r == opt_u32_field(t@, key@),
{
    match t.field(key) {
        None => Some(None),
        Some(Json::Null) => Some(None),
        Some(Json::Number(n)) => match n.as_u32() {
            Some(k) => Some(Some(k)),
            None => None,
        },
        _ => None,
    }
}

/// Reads a number that may be missing or null.
pub fn read_opt_number_field(t: &Json, key: &str) -> (r: Option<Option<JsonNumber>>)
    ensures
        opt_opt_number(r) == opt_number_field(t@, key@),
{
    match t.field(key) {
        None => Some(None),
        Some(Json::Null) => Some(None),
        Some(Json::Number(n)) => Some(Some(n.clone())),
        _ => None,
    }
}

/// The items of a list field, borrowed; no items where the field is missing.
pub fn read_items_field<'a>(t: &'a Json, key: &str) -> (r: Option<&'a [Json]>)
    ensures
        match r {
            Some(items) => items_field(t@, key@) == Some(trees(items@)),
            None => items_field(t@, key@) is None,
        },
{
    match t.field(key) {
        None => {
            let none: &[Json] = &[];
            assert(trees(none@) =~= Seq::empty());
            Some(none)
        },
        Some(Json::Array(items)) => Some(items.as_slice()),
        _ => None,
    }
}

/// Reads a list of strings that is empty where the field is missing.
pub fn read_texts_field(t: &Json, key: &str) -> (r: Option<Vec<String>>)
    ensures
        opt_texts(r) == texts_field(t@, key@),
{
    match read_items_field(t, key) {
        None => None,
        Some(items) => {
            let ghost all = trees(items@);
            let mut out: Vec<String> = Vec::new();
            let mut i: usize = 0;
            while i < items.len()
                invariant
                    i <= items.len(),
                    out@.len() == i,
                    all == trees(items@),
                    items_field(t@, key@) == Some(all),
                    forall|k: int| 0 <= k < i ==> text_of(all[k]) == Some((#[trigger] out@[k])@),
                decreases items.len() - i,
            {
                match &items[i] {
                    Json::String(s) => {
                        out.push(s.clone());
                    },
                    _ => {
                        assert(text_of(all[i as int]) is None);
                        return None;
                    },
                }
                i += 1;
            }
            assert forall|k: int| 0 <= k < all.len() implies text_of(#[trigger] all[k]) is Some by {
                assert(text_of(all[k]) == Some(out@[k]@));
            }
            assert(texts(out@) =~= all_texts(all)->0);
            Some(out)
        },
    }
}

} // verus!
