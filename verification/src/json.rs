//! JSON documents as the library reads them: the node at a JSON pointer of a
//! document, one level deep, whose children are kept as their compact JSON text.
use vstd::prelude::*;
use crate::text::{chars_of, string_views};
use serde_json::Value;

verus! {

/// One level of a parsed JSON document. The elements of an array and the values
/// of an object are held as their compact JSON text; object entries come in the
/// order in which the parser's map hands them out.
pub enum JsonNode {
    Null,
    Bool(bool),
    Number(String),
    Str(String),
    Array(Vec<String>),
    Object(Vec<(String, String)>),
}

/// The mathematical value of a `JsonNode`.
pub enum JsonShape {
    Null,
    Bool(bool),
    Number(Seq<char>),
    Str(Seq<char>),
    Array(Seq<Seq<char>>),
    Object(Seq<(Seq<char>, Seq<char>)>),
}

impl View for JsonNode {
    type V = JsonShape;

    open spec fn view(&self) -> JsonShape {
        match self {
            JsonNode::Null => JsonShape::Null,
            JsonNode::Bool(b) => JsonShape::Bool(*b),
            JsonNode::Number(n) => JsonShape::Number(n@),
            JsonNode::Str(s) => JsonShape::Str(s@),
            JsonNode::Array(items) => JsonShape::Array(string_views(items@)),
            JsonNode::Object(entries) => JsonShape::Object(entry_views(entries@)),
        }
    }
}

/// The entries of an object node, by their views.
pub open spec fn entry_views(entries: Seq<(String, String)>) -> Seq<(Seq<char>, Seq<char>)> {
    entries.map_values(|e: (String, String)| (e.0@, e.1@))
}

/// The node that `serde_json::Value::pointer` finds at the JSON pointer
/// `pointer` in the document that `serde_json::from_str::<serde_json::Value>`
/// reads from `text`, one level deep as `JsonNode` holds it; `None` where the
/// text does not parse or nothing is found there.
pub uninterp spec fn json_at(text: Seq<char>, pointer: Seq<char>) -> Option<JsonShape>;

/// The JSON pointer to the whole document.
pub open spec fn root_pointer() -> Seq<char> {
    Seq::<char>::empty()
}

/// The top level of the document read from `text`.
pub open spec fn json_document(text: Seq<char>) -> Option<JsonShape> {
    json_at(text, root_pointer())
}

/// The JSON pointer token for an object key: `~` written `~0`, `/` written `~1`.
pub open spec fn pointer_token(key: Seq<char>) -> Seq<char>
    decreases key.len(),
{
    if key.len() == 0 {
        Seq::<char>::empty()
    } else {
        pointer_token(key.drop_last()) + if key.last() == '~' {
            seq!['~', '0']
        } else if key.last() == '/' {
            seq!['~', '1']
        } else {
            seq![key.last()]
        }
    }
}

/// The JSON pointer to the entry under `key` of the object at `pointer`.
pub open spec fn child_pointer(pointer: Seq<char>, key: Seq<char>) -> Seq<char> {
    pointer + seq!['/'] + pointer_token(key)
}

/// The decimal digit for `d` below ten.
pub open spec fn digit_char(d: nat) -> char {
    if d == 0 {
        '0'
    } else if d == 1 {
        '1'
    } else if d == 2 {
        '2'
    } else if d == 3 {
        '3'
    } else if d == 4 {
        '4'
    } else if d == 5 {
        '5'
    } else if d == 6 {
        '6'
    } else if d == 7 {
        '7'
    } else if d == 8 {
        '8'
    } else {
        '9'
    }
}

/// `n` written in decimal, without leading zeros.
pub open spec fn decimal(n: nat) -> Seq<char>
    decreases n,
{
    if n < 10 {
        seq![digit_char(n)]
    } else {
        decimal(n / 10).push(digit_char(n % 10))
    }
}

/// The JSON pointer to the element at `index` of the array at `pointer`.
pub open spec fn index_pointer(pointer: Seq<char>, index: nat) -> Seq<char> {
    pointer + seq!['/'] + decimal(index)
}

/// The shape of an optional node.
pub open spec fn shape_of(r: Option<JsonNode>) -> Option<JsonShape> {
    match r {
        Some(n) => Some(n@),
        None => None,
    }
}

/// Calls `serde_json::from_str::<serde_json::Value>` on `text` and
/// `Value::pointer` with `pointer` on the result, and hands out the node found
/// one level deep, each child as the text that `Value`'s `Display` (compact JSON)
/// writes for it. The result is named `json_at(text, pointer)`: the grammar of
/// JSON, pointer lookup, the map order of objects and the way numbers print are
/// serde_json's and are not restated here.
#[verifier::external_body]
pub(crate) fn parse_json_at(text: &str, pointer: &str) -> (r: Option<JsonNode>)
    ensures
        shape_of(r) == json_at(text@, pointer@),
{
    let v: Value = serde_json::from_str(text).ok()?;
    Some(
        match v.pointer(pointer)? {
            Value::Null => JsonNode::Null,
            Value::Bool(b) => JsonNode::Bool(*b),
            Value::Number(n) => JsonNode::Number(n.to_string()),
            Value::String(s) => JsonNode::Str(s.clone()),
            Value::Array(items) => JsonNode::Array(items.iter().map(|x| x.to_string()).collect()),
            Value::Object(map) => JsonNode::Object(
                map.iter().map(|(k, x)| (k.clone(), x.to_string())).collect(),
            ),
        },
    )
}

/// The top level of the document read from `text`.
pub fn parse_json(text: &str) -> (r: Option<JsonNode>)
    ensures
        shape_of(r) == json_document(text@),
{
    let root = String::new();
    parse_json_at(text, root.as_str())
}

/// `out` followed by the JSON pointer token for `key`.
fn append_pointer_token(out: &mut String, key: &str)
    ensures
        final(out)@ == old(out)@ + pointer_token(key@),
{
    proof {
        reveal_strlit("~0");
        reveal_strlit("~1");
    }
    let v = chars_of(key);
    let ghost start = out@;
    let mut i: usize = 0;
    assert(key@.take(0) =~= Seq::<char>::empty());
    assert(start + pointer_token(key@.take(0)) =~= start);
    while i < v.len()
        invariant
            v@ == key@,
            i <= v.len(),
            out@ == start + pointer_token(key@.take(i as int)),
        decreases v.len() - i,
    {
        let ghost before = out@;
        let ghost prefix = key@.take(i + 1);
        assert(prefix.drop_last() =~= key@.take(i as int));
        assert(prefix.last() == v@[i as int]);
        assert(prefix.len() > 0);
        if v[i] == '~' {
            out.append("~0");
            proof {
                reveal_strlit("~0");
            }
            assert(pointer_token(prefix) == pointer_token(key@.take(i as int)) + seq!['~', '0']);
            assert("~0"@ =~= seq!['~', '0']);
        } else if v[i] == '/' {
            out.append("~1");
            proof {
                reveal_strlit("~1");
            }
            assert(pointer_token(prefix) == pointer_token(key@.take(i as int)) + seq!['~', '1']);
            assert("~1"@ =~= seq!['~', '1']);
        } else {
            let piece = key.substring_char(i, i + 1);
            assert(piece@ =~= seq![v@[i as int]]);
            out.append(piece);
            assert(pointer_token(prefix) == pointer_token(key@.take(i as int)) + seq![v@[i as int]]);
        }
        assert(out@ =~= start + pointer_token(prefix));
        i = i + 1;
    }
    assert(key@.take(v.len() as int) =~= key@);
}

/// The JSON pointer to the entry under `key` of the object at `pointer`.
pub fn child_pointer_of(pointer: &str, key: &str) -> (r: String)
    ensures
        r@ == child_pointer(pointer@, key@),
{
    proof {
        reveal_strlit("/");
    }
    let mut r = String::from_str(pointer);
    r.append("/");
    append_pointer_token(&mut r, key);
    assert(r@ =~= child_pointer(pointer@, key@));
    r
}

/// The one-character string of the digit `d`.
fn digit_str(d: usize) -> (r: &'static str)
    requires
        d < 10,
    ensures
        r@ == seq![digit_char(d as nat)],
{
    proof {
        reveal_strlit("0");
        reveal_strlit("1");
        reveal_strlit("2");
        reveal_strlit("3");
        reveal_strlit("4");
        reveal_strlit("5");
        reveal_strlit("6");
        reveal_strlit("7");
        reveal_strlit("8");
        reveal_strlit("9");
    }
    if d == 0 {
        "0"
    } else if d == 1 {
        "1"
    } else if d == 2 {
        "2"
    } else if d == 3 {
        "3"
    } else if d == 4 {
        "4"
    } else if d == 5 {
        "5"
    } else if d == 6 {
        "6"
    } else if d == 7 {
        "7"
    } else if d == 8 {
        "8"
    } else {
        "9"
    }
}

/// `n` written in decimal.
fn decimal_string(n: usize) -> (r: String)
    ensures
        r@ == decimal(n as nat),
    decreases n,
{
    if n < 10 {
        String::from_str(digit_str(n))
    } else {
        let mut r = decimal_string(n / 10);
        r.append(digit_str(n % 10));
        r
    }
}

/// The JSON pointer to the element at `index` of the array at `pointer`.
pub fn index_pointer_of(pointer: &str, index: usize) -> (r: String)
    ensures
        r@ == index_pointer(pointer@, index as nat),
{
    proof {
        reveal_strlit("/");
    }
    let mut r = String::from_str(pointer);
    r.append("/");
    r.append(decimal_string(index).as_str());
    r
}

/// Whether some entry of `entries` has the key `key`.
pub open spec fn has_entry(entries: Seq<(Seq<char>, Seq<char>)>, key: Seq<char>) -> bool {
    exists|i: int| 0 <= i < entries.len() && #[trigger] entries[i].0 == key
}

/// Whether `doc` is an object with an entry under `key`, which is when
/// `Value::get` with a string index finds something.
pub open spec fn has_key(doc: Option<JsonShape>, key: Seq<char>) -> bool {
    match doc {
        Some(JsonShape::Object(entries)) => has_entry(entries, key),
        _ => false,
    }
}

/// Whether `doc` has an entry under every key of `keys`.
pub open spec fn has_all_keys(doc: Option<JsonShape>, keys: Seq<Seq<char>>) -> bool {
    forall|i: int| 0 <= i < keys.len() ==> has_key(doc, #[trigger] keys[i])
}

/// Whether some entry of `entries` has the key `key`.
pub fn entries_have_key(entries: &Vec<(String, String)>, key: &str) -> (r: bool)
    ensures
        r == has_entry(entry_views(entries@), key@),
{
    let ghost es = entry_views(entries@);
    let mut i: usize = 0;
    while i < entries.len()
        invariant
            i <= entries.len(),
            es == entry_views(entries@),
            forall|j: int| 0 <= j < i ==> #[trigger] es[j].0 != key@,
        decreases entries.len() - i,
    {
        assert(es[i as int] == (entries@[i as int].0@, entries@[i as int].1@));
        if crate::text::str_eq(entries[i].0.as_str(), key) {
            assert(es[i as int].0 == key@);
            return true;
        }
        i = i + 1;
    }
    false
}

/// Whether the node `doc` has an entry under `key`.
pub fn node_has_key(doc: &Option<JsonNode>, key: &str) -> (r: bool)
    ensures
        r == has_key(shape_of(*doc), key@),
{
    match doc {
        Some(JsonNode::Object(entries)) => entries_have_key(entries, key),
        _ => false,
    }
}

/// Whether the node `doc` has an entry under every key of `keys`.
pub fn node_has_all_keys(doc: &Option<JsonNode>, keys: &Vec<String>) -> (r: bool)
    ensures
        r == has_all_keys(shape_of(*doc), keys@.map_values(|k: String| k@)),
{
    let ghost key_views = keys@.map_values(|k: String| k@);
    let mut i: usize = 0;
    while i < keys.len()
        invariant
            i <= keys.len(),
            key_views == keys@.map_values(|k: String| k@),
            forall|j: int| 0 <= j < i ==> has_key(shape_of(*doc), #[trigger] key_views[j]),
        decreases keys.len() - i,
    {
        if !node_has_key(doc, keys[i].as_str()) {
            assert(key_views[i as int] == keys@[i as int]@);
            return false;
        }
        i = i + 1;
    }
    true
}

} // verus!
