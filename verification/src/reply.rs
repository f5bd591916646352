//! The engine's reply conventions: what each status code it returns means, and
//! the typed values built from its flat replies.

use vstd::prelude::*;

use crate::config::opt_text;
use crate::federation::{elements, reply_items};
use crate::json::{array_items, parsed_value};
use crate::json::{
    field_text, parse_string_array, parsed_string_array, string_value, value_field_text,
    value_string,
};

verus! {

/// Outcome of a lookup by frame id (content or embedding).
#[derive(Debug, PartialEq, Eq, Structural, Clone, Copy)]
pub enum Lookup {
    /// The frame exists; its data was handed back.
    Found,
    /// No frame has that id.
    Missing,
    /// The engine failed; its last error says why.
    Failed,
}

/// Outcome of copying into a caller-owned buffer.
#[derive(Debug, PartialEq, Eq, Structural, Clone, Copy)]
pub enum Fill {
    /// The data was written; the count written was handed back.
    Written,
    /// No frame has that id.
    Missing,
    /// The buffer is too small; the count required was handed back.
    TooSmall,
    /// The engine failed; its last error says why.
    Failed,
}

/// A plain status code: zero is success, anything else a failure.
pub fn succeeded(code: i32) -> (ok: bool)
    ensures
        ok == (code == 0),
{
    code == 0
}

/// A yes/no answer coded as `1` for yes (`is_sealed`, `refresh`).
pub fn flag_set(code: i32) -> (yes: bool)
    ensures
        yes == (code == 1),
{
    code == 1
}

/// The code of an unsubscribe: `0` when the subscriber was found and
/// removed; a negative code when the id is unknown.
pub fn unsubscribed(code: i32) -> (found: bool)
    ensures
        found == (code == 0),
{
    code == 0
}

/// The code of a lookup: `0` found, `1` missing, anything else a failure.
pub fn lookup_code(code: i32) -> (r: Lookup)
    ensures
        r == (if code == 0 {
            Lookup::Found
        } else if code == 1 {
            Lookup::Missing
        } else {
            Lookup::Failed
        }),
{
    if code == 0 {
        Lookup::Found
    } else if code == 1 {
        Lookup::Missing
    } else {
        Lookup::Failed
    }
}

/// The code of a store buffer fill: `0` written, `1` missing, `2` too small,
/// anything else a failure.
pub fn store_fill_code(code: i32) -> (r: Fill)
    ensures
        r == (if code == 0 {
            Fill::Written
        } else if code == 1 {
            Fill::Missing
        } else if code == 2 {
            Fill::TooSmall
        } else {
            Fill::Failed
        }),
{
    if code == 0 {
        Fill::Written
    } else if code == 1 {
        Fill::Missing
    } else if code == 2 {
        Fill::TooSmall
    } else {
        Fill::Failed
    }
}

/// The code of an encoder buffer fill: `0` written, `2` too small, anything
/// else (`1` included) a failure.
pub fn encoder_fill_code(code: i32) -> (r: Fill)
    ensures
        r == (if code == 0 {
            Fill::Written
        } else if code == 2 {
            Fill::TooSmall
        } else {
            Fill::Failed
        }),
{
    if code == 0 {
        Fill::Written
    } else if code == 2 {
        Fill::TooSmall
    } else {
        Fill::Failed
    }
}

/// The code of an integrity check: `-1` a failure (`None`), otherwise
/// whether the chain is intact, which is `0` alone.
pub fn verify_code(code: i32) -> (r: Option<bool>)
    ensures
        r == (if code == -1 { None } else { Some(code == 0) }),
{
    if code == -1 {
        None
    } else {
        Some(code == 0)
    }
}

/// The code of a warp fixup: `1` recalibrated, `0` skipped, anything else a
/// failure (`None`).
pub fn fixup_code(code: i32) -> (r: Option<bool>)
    ensures
        r == (if code == 1 {
            Some(true)
        } else if code == 0 {
            Some(false)
        } else {
            None
        }),
{
    if code == 1 {
        Some(true)
    } else if code == 0 {
        Some(false)
    } else {
        None
    }
}

/// The slot number of a declared relation: a negative code is a failure
/// (`None`); otherwise its low sixteen bits, as `code as u16` keeps them.
pub fn relation_slot(code: i32) -> (r: Option<u16>)
    ensures
        r == (if code < 0 { None } else { Some((code % 65536) as u16) }),
{
    if code < 0 {
        None
    } else {
        let low: i32 = code % 65536;
        Some(low as u16)
    }
}

/// A subscriber id: `0` is a failure (`None`), any other value the id.
pub fn subscription_id(id: u64) -> (r: Option<u64>)
    ensures
        r == (if id == 0 { None } else { Some(id) }),
{
    if id == 0 {
        None
    } else {
        Some(id)
    }
}

/// The list of ids in an engine reply that is a JSON array of strings: empty
/// when there was no reply or the text is not such an array.
pub open spec fn id_list(reply: Option<Seq<char>>) -> Seq<Seq<char>> {
    match reply {
        Some(text) => match parsed_string_array(text) {
            Some(ids) => ids,
            None => Seq::empty(),
        },
        None => Seq::empty(),
    }
}

/// Decodes a reply holding a JSON array of id strings (frame ids, eigenframe
/// ids, snapshot frame ids, batch-inserted frame ids, member names).
pub fn ids_from_reply(reply: Option<String>) -> (ids: Vec<String>)
    ensures
        ids.deep_view() == id_list(match reply {
            Some(t) => Some(t@),
            None => None,
        }),
{
    match reply {
        Some(text) => match parse_string_array(text.as_str()) {
            Some(ids) => ids,
            None => Vec::new(),
        },
        None => Vec::new(),
    }
}

/// The id an element of a record array stands for: the element itself when
/// it is a string, otherwise its string field `key`.
pub open spec fn item_id(item: serde_json::Value, key: Seq<char>) -> Option<Seq<char>> {
    match string_value(item) {
        Some(s) => Some(s),
        None => field_text(item, key),
    }
}

/// The ids of the elements of a record array, in order; elements with no id
/// are passed over.
pub open spec fn ids_of_items(items: Seq<serde_json::Value>, key: Seq<char>) -> Seq<Seq<char>>
    decreases items.len(),
{
    if items.len() == 0 {
        Seq::empty()
    } else {
        let prev = ids_of_items(items.drop_last(), key);
        match item_id(items.last(), key) {
            Some(id) => prev.push(id),
            None => prev,
        }
    }
}

/// The ids of an engine reply holding a JSON array of records (or of plain
/// id strings): empty when there was no reply or it is not an array.
pub open spec fn record_ids(reply: Option<Seq<char>>, key: Seq<char>) -> Seq<Seq<char>> {
    match reply {
        Some(text) => ids_of_items(reply_items(text), key),
        None => Seq::empty(),
    }
}

/// When a reply parses as a JSON array of strings, the decoded list is that
/// whole array, whatever its length; otherwise, or with no reply, it is empty.
pub proof fn law_id_list_is_the_array(text: Seq<char>)
    ensures
        match parsed_string_array(text) {
            Some(ids) => id_list(Some(text)) == ids && id_list(Some(text)).len() == ids.len(),
            None => id_list(Some(text)).len() == 0,
        },
        id_list(None).len() == 0,
{
}

/// An element that is a string stands for itself; any other element for its
/// string field `key`.
pub proof fn law_item_id(item: serde_json::Value, key: Seq<char>)
    ensures
        string_value(item) matches Some(s) ==> item_id(item, key) == Some(s),
        string_value(item).is_none() ==> item_id(item, key) == field_text(item, key),
{
}

/// Decoding two runs of elements one after the other gives the ids of the
/// first run followed by the ids of the second.
pub proof fn law_ids_of_items_concat(a: Seq<serde_json::Value>, b: Seq<serde_json::Value>, key: Seq<char>)
    ensures
        ids_of_items(a + b, key) == ids_of_items(a, key) + ids_of_items(b, key),
    decreases b.len(),
{
    if b.len() == 0 {
        assert(a + b =~= a);
        assert(ids_of_items(b, key) =~= Seq::<Seq<char>>::empty());
        assert(ids_of_items(a, key) + ids_of_items(b, key) =~= ids_of_items(a, key));
    } else {
        let b0 = b.drop_last();
        law_ids_of_items_concat(a, b0, key);
        assert((a + b).drop_last() =~= a + b0);
        assert((a + b).last() == b.last());
        match item_id(b.last(), key) {
            Some(id) => {
                assert(ids_of_items(a, key) + ids_of_items(b, key) =~= (ids_of_items(a, key)
                    + ids_of_items(b0, key)).push(id));
            },
            None => {
                assert(ids_of_items(a, key) + ids_of_items(b, key) =~= ids_of_items(a, key)
                    + ids_of_items(b0, key));
            },
        }
    }
}

/// A single element gives its id, or nothing when it has none.
pub proof fn law_ids_of_one_item(x: serde_json::Value, key: Seq<char>)
    ensures
        ids_of_items(seq![x], key) == (match item_id(x, key) {
            Some(id) => seq![id],
            None => Seq::<Seq<char>>::empty(),
        }),
{
    assert(seq![x].drop_last() =~= Seq::<serde_json::Value>::empty());
    assert(ids_of_items(Seq::<serde_json::Value>::empty(), key) =~= Seq::<Seq<char>>::empty());
    assert(seq![x].last() == x);
    match item_id(x, key) {
        Some(id) => {
            assert(Seq::<Seq<char>>::empty().push(id) =~= seq![id]);
        },
        None => {},
    }
}

/// When every element has an id, there is one id per element, in order, each
/// the id of its element.
pub proof fn law_ids_one_per_element(items: Seq<serde_json::Value>, key: Seq<char>)
    requires
        forall|i: int| 0 <= i < items.len() ==> (#[trigger] item_id(items[i], key)).is_some(),
    ensures
        ids_of_items(items, key).len() == items.len(),
        forall|i: int|
            0 <= i < items.len() ==> Some(#[trigger] ids_of_items(items, key)[i]) == item_id(
                items[i],
                key,
            ),
    decreases items.len(),
{
    if items.len() > 0 {
        let prev = items.drop_last();
        assert forall|i: int| 0 <= i < prev.len() implies (#[trigger] item_id(prev[i], key)).is_some() by {
            assert(prev[i] == items[i]);
            assert(item_id(items[i], key).is_some());
        }
        law_ids_one_per_element(prev, key);
        assert(item_id(items[items.len() - 1], key).is_some());
        assert(items.last() == items[items.len() - 1]);
        assert forall|i: int| 0 <= i < items.len() implies Some(
            #[trigger] ids_of_items(items, key)[i],
        ) == item_id(items[i], key) by {
            if i < items.len() - 1 {
                assert(prev[i] == items[i]);
                assert(Some(ids_of_items(prev, key)[i]) == item_id(prev[i], key));
            }
        }
    }
}

/// A reply holding a JSON array of records whose elements all have an id is
/// decoded to one id per element, in order, each the id of its element; with
/// no reply there are none.
pub proof fn law_record_ids_one_per_element(text: Seq<char>, key: Seq<char>)
    requires
        parsed_value(text).is_some(),
        array_items(parsed_value(text).unwrap()).is_some(),
        forall|i: int|
            0 <= i < array_items(parsed_value(text).unwrap()).unwrap().len() ==> (#[trigger] item_id(
                array_items(parsed_value(text).unwrap()).unwrap()[i],
                key,
            )).is_some(),
    ensures
        ({
            let items = array_items(parsed_value(text).unwrap()).unwrap();
            &&& record_ids(Some(text), key).len() == items.len()
            &&& forall|i: int|
                0 <= i < items.len() ==> Some(#[trigger] record_ids(Some(text), key)[i]) == item_id(
                    items[i],
                    key,
                )
        }),
        record_ids(None, key).len() == 0,
{
    let items = array_items(parsed_value(text).unwrap()).unwrap();
    assert(reply_items(text) == items);
    law_ids_one_per_element(items, key);
}

/// Decoding a record array keeps every id: the decoded list is the ids of the
/// array's elements, all of them, in order.
pub proof fn law_record_ids_are_the_elements(text: Seq<char>, key: Seq<char>)
    ensures
        match parsed_value(text) {
            Some(v) => match array_items(v) {
                Some(items) => record_ids(Some(text), key) == ids_of_items(items, key),
                None => record_ids(Some(text), key).len() == 0,
            },
            None => record_ids(Some(text), key).len() == 0,
        },
{
}

fn ids_of_records(reply: Option<String>, key: &str) -> (ids: Vec<String>)
    ensures
        ids.deep_view() == record_ids(opt_text(reply), key@),
{
    let text = match reply {
        Some(t) => t,
        None => {
            return Vec::new();
        },
    };
    let items = elements(text.as_str());
    let mut ids: Vec<String> = Vec::new();
    let mut i: usize = 0;
    while i < items.len()
        invariant
            i <= items@.len(),
            items@ == reply_items(text@),
            ids.deep_view() == ids_of_items(items@.take(i as int), key@),
        decreases items@.len() - i,
    {
        let item = &items[i];
        let id = match value_string(item) {
            Some(s) => Some(s),
            None => value_field_text(item, key),
        };
        proof {
            assert(items@.take(i + 1).drop_last() =~= items@.take(i as int));
            assert(items@.take(i + 1).last() == items@[i as int]);
        }
        match id {
            Some(s) => {
                ids.push(s);
                proof {
                    assert(ids.deep_view() =~= ids_of_items(items@.take(i as int), key@).push(s@));
                }
            },
            None => {},
        }
        i = i + 1;
    }
    assert(items@.take(items@.len() as int) =~= items@);
    ids
}

/// Decodes a reply holding a JSON array of frame objects (children, lineage,
/// path, subtree): each frame's `id`, in order; empty when there was no reply.
pub fn frame_record_ids(reply: Option<String>) -> (ids: Vec<String>)
    ensures
        ids.deep_view() == record_ids(opt_text(reply), "id"@),
{
    ids_of_records(reply, "id")
}

/// Decodes an integrity check's failure list, a JSON array of
/// `{frame_id, reason}` records: each failing frame's `frame_id`, in order;
/// empty when there was no list.
pub fn failure_record_ids(reply: Option<String>) -> (ids: Vec<String>)
    ensures
        ids.deep_view() == record_ids(opt_text(reply), "frame_id"@),
{
    ids_of_records(reply, "frame_id")
}

} // verus!
