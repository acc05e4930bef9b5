//! Checks that JSON records carry the keys a store expects.
use vstd::prelude::*;
use crate::text::string_views;
use crate::json::{
    has_all_keys, index_pointer, index_pointer_of, json_at, json_document, node_has_all_keys,
    parse_json, parse_json_at, root_pointer, JsonNode, JsonShape,
};

verus! {

/// Whether `input` is a JSON document with an entry under every key of `key`.
pub fn is_json(input_string: &str, key: Vec<String>) -> (r: bool)
    ensures
        r == (json_document(input_string@) is Some && has_all_keys(
            json_document(input_string@),
            key@.map_values(|k: String| k@),
        )),
{
    let doc = parse_json(input_string);
    match doc {
        Some(_) => node_has_all_keys(&doc, &key),
        None => false,
    }
}

/// The last of the first `n` elements of the top-level array of `doc` that
/// lacks one of `keys`, as its compact JSON text from `items`, or `null` where
/// every one of them has all keys.
pub open spec fn last_incomplete(
    doc: Seq<char>,
    items: Seq<Seq<char>>,
    keys: Seq<Seq<char>>,
    n: int,
) -> Seq<char>
    decreases n,
{
    if n <= 0 {
        "null"@
    } else if !has_all_keys(json_at(doc, index_pointer(root_pointer(), (n - 1) as nat)), keys) {
        items[n - 1]
    } else {
        last_incomplete(doc, items, keys, n - 1)
    }
}

/// For a JSON array, the last element that lacks one of `key` (as JSON text),
/// or `null` where none does; `None` where `input_string` is not a JSON array.
pub fn is_arr_json(input_string: &str, key: Vec<String>) -> (r: Option<String>)
    ensures
        match json_document(input_string@) {
            Some(JsonShape::Array(items)) => r is Some && r->0@ == last_incomplete(
                input_string@,
                items,
                key@.map_values(|k: String| k@),
                items.len() as int,
            ),
            _ => r is None,
        },
{
    let doc = parse_json(input_string);
    match doc {
        Some(JsonNode::Array(items)) => {
            let ghost item_views = string_views(items@);
            let ghost key_views = key@.map_values(|k: String| k@);
            let mut wrong = String::from_str("null");
            let root = String::new();
            let mut i: usize = 0;
            while i < items.len()
                invariant
                    i <= items.len(),
                    item_views == string_views(items@),
                    key_views == key@.map_values(|k: String| k@),
                    root@ == root_pointer(),
                    wrong@ == last_incomplete(input_string@, item_views, key_views, i as int),
                decreases items.len() - i,
            {
                let at = index_pointer_of(root.as_str(), i);
                let element = parse_json_at(input_string, at.as_str());
                if !node_has_all_keys(&element, &key) {
                    wrong = items[i].clone();
                }
                i = i + 1;
            }
            Some(wrong)
        },
        _ => None,
    }
}

} // verus!
