//! Decoding the federation's JSON replies: the routed stores of a routing
//! query and the hits of a federated search.

use vstd::prelude::*;

use crate::config::opt_text;
use crate::json::{
    array_items, field_text, field_unsigned, field_value, parse_value, parsed_value, value_field,
    value_field_text, value_field_unsigned, value_items,
};

verus! {

/// A store picked by routing. Its score stays the JSON value the engine sent
/// (a floating-point number).
pub struct RoutedStore {
    pub store: String,
    pub score: serde_json::Value,
}

/// A federated hit as the engine reports it. The score and confidence stay
/// the JSON values the engine sent (floating-point numbers).
pub struct FederatedRecord {
    pub store: String,
    pub frame_id: String,
    pub score: serde_json::Value,
    pub confidence: serde_json::Value,
    pub path_length: u32,
    pub snippet: String,
}

/// The elements of a reply that is a JSON array; none when the text is not
/// JSON or not an array.
pub open spec fn reply_items(text: Seq<char>) -> Seq<serde_json::Value> {
    match parsed_value(text) {
        Some(v) => match array_items(v) {
            Some(items) => items,
            None => Seq::empty(),
        },
        None => Seq::empty(),
    }
}

/// A string field of an element, empty where it is missing.
pub open spec fn text_or_empty(v: serde_json::Value, key: Seq<char>) -> Seq<char> {
    match field_text(v, key) {
        Some(t) => t,
        None => Seq::empty(),
    }
}

/// The path length of an element: its unsigned `path_length` field (zero
/// where missing), cut to its low 32 bits as `as u32` does.
pub open spec fn path_length_of(v: serde_json::Value) -> u32 {
    match field_unsigned(v, "path_length"@) {
        Some(n) => (n % 4294967296) as u32,
        None => 0,
    }
}

/// The elements a reply is decoded from are exactly the elements of the JSON
/// array the text parses to, every one of them, in order; a text that is not
/// JSON, or not an array, has none.
pub proof fn law_reply_items_are_the_array(text: Seq<char>)
    ensures
        match parsed_value(text) {
            Some(v) => match array_items(v) {
                Some(items) => reply_items(text) == items && reply_items(text).len() == items.len(),
                None => reply_items(text).len() == 0,
            },
            None => reply_items(text).len() == 0,
        },
{
}

/// A decoded string field is the whole string under its key, uncut, and empty
/// exactly where the key holds no string.
pub proof fn law_text_field_is_whole(v: serde_json::Value, key: Seq<char>)
    ensures
        match field_text(v, key) {
            Some(t) => text_or_empty(v, key) == t && text_or_empty(v, key).len() == t.len(),
            None => text_or_empty(v, key).len() == 0,
        },
{
}

/// The path length of an element is its unsigned `path_length` field whenever
/// that fits in 32 bits; a larger one keeps its low 32 bits (it differs from
/// the field by a multiple of 2^32); zero where there is none.
pub proof fn law_path_length_kept(v: serde_json::Value)
    ensures
        match field_unsigned(v, "path_length"@) {
            Some(n) => {
                &&& n < 4294967296 ==> path_length_of(v) == n
                &&& (n - path_length_of(v)) % 4294967296 == 0
            },
            None => path_length_of(v) == 0,
        },
{
}

pub(crate) fn elements(reply: &str) -> (items: Vec<serde_json::Value>)
    ensures
        items@ == reply_items(reply@),
{
    match parse_value(reply) {
        Some(v) => match value_items(&v) {
            Some(items) => items,
            None => Vec::new(),
        },
        None => Vec::new(),
    }
}

fn text_field(v: &serde_json::Value, key: &str) -> (s: String)
    ensures
        s@ == text_or_empty(*v, key@),
{
    match value_field_text(v, key) {
        Some(s) => s,
        None => String::new(),
    }
}

/// The stores of a routing reply, one per element of its JSON array, in
/// order: each element's `store` string (empty where missing) and its
/// `score` value.
pub fn routed_stores(reply: &str) -> (out: Vec<RoutedStore>)
    ensures
        out@.len() == reply_items(reply@).len(),
        forall|i: int|
            0 <= i < out@.len() ==> {
                let item = reply_items(reply@)[i];
                &&& (#[trigger] out@[i]).store@ == text_or_empty(item, "store"@)
                &&& out@[i].score == field_value(item, "score"@)
            },
{
    let items = elements(reply);
    let mut out: Vec<RoutedStore> = Vec::new();
    let mut i: usize = 0;
    while i < items.len()
        invariant
            i <= items@.len(),
            items@ == reply_items(reply@),
            out@.len() == i,
            forall|j: int|
                0 <= j < i ==> {
                    let item = items@[j];
                    &&& (#[trigger] out@[j]).store@ == text_or_empty(item, "store"@)
                    &&& out@[j].score == field_value(item, "score"@)
                },
        decreases items@.len() - i,
    {
        let item = &items[i];
        out.push(RoutedStore { store: text_field(item, "store"), score: value_field(item, "score") });
        i = i + 1;
    }
    out
}

/// The hits of a federated search reply, one per element of its JSON array,
/// in order: string fields empty where missing, `path_length` zero where
/// missing and cut to 32 bits, scores as the JSON values sent.
pub fn federated_records(reply: &str) -> (out: Vec<FederatedRecord>)
    ensures
        out@.len() == reply_items(reply@).len(),
        forall|i: int|
            0 <= i < out@.len() ==> {
                let item = reply_items(reply@)[i];
                &&& (#[trigger] out@[i]).store@ == text_or_empty(item, "store"@)
                &&& out@[i].frame_id@ == text_or_empty(item, "frame_id"@)
                &&& out@[i].score == field_value(item, "score"@)
                &&& out@[i].confidence == field_value(item, "confidence"@)
                &&& out@[i].path_length == path_length_of(item)
                &&& out@[i].snippet@ == text_or_empty(item, "snippet"@)
            },
{
    let items = elements(reply);
    let mut out: Vec<FederatedRecord> = Vec::new();
    let mut i: usize = 0;
    while i < items.len()
        invariant
            i <= items@.len(),
            items@ == reply_items(reply@),
            out@.len() == i,
            forall|j: int|
                0 <= j < i ==> {
                    let item = items@[j];
                    &&& (#[trigger] out@[j]).store@ == text_or_empty(item, "store"@)
                    &&& out@[j].frame_id@ == text_or_empty(item, "frame_id"@)
                    &&& out@[j].score == field_value(item, "score"@)
                    &&& out@[j].confidence == field_value(item, "confidence"@)
                    &&& out@[j].path_length == path_length_of(item)
                    &&& out@[j].snippet@ == text_or_empty(item, "snippet"@)
                },
        decreases items@.len() - i,
    {
        let item = &items[i];
        let path_length: u32 = match value_field_unsigned(item, "path_length") {
            Some(n) => {
                let low: u64 = n % 4294967296;
                low as u32
            },
            None => 0,
        };
        out.push(
            FederatedRecord {
                store: text_field(item, "store"),
                frame_id: text_field(item, "frame_id"),
                score: value_field(item, "score"),
                confidence: value_field(item, "confidence"),
                path_length,
                snippet: text_field(item, "snippet"),
            },
        );
        i = i + 1;
    }
    out
}

} // verus!
