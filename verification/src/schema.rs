//! Checking the schema of an object store, given as a JSON document such as
//! `{"name":"person","primaryKey":"id","properties":{"id":"string","age":"number"}}`.
use vstd::prelude::*;
use crate::errors::{Outcome, SchemaError, SchemaErrorModel};
use crate::json::{
    child_pointer, child_pointer_of, entries_have_key, entry_views, has_entry, json_at, json_document,
    parse_json, parse_json_at, root_pointer, JsonNode, JsonShape,
};
use crate::stores::check_if_cf_exists;
use crate::text::{chars_of, str_eq, string_views, trim_seq, trim_str};

verus! {

/// The data types a property may be declared with.
pub open spec fn data_type_ok(dt: Seq<char>) -> bool {
    ||| dt == "string"@
    ||| dt == "number"@
    ||| dt == "date"@
    ||| dt == "list"@
    ||| dt == "object"@
    ||| dt == "image"@
    ||| dt == "blob"@
}

/// The top-level fields of a schema.
pub open spec fn is_field(field: Seq<char>) -> bool {
    field == "name"@ || field == "primaryKey"@ || field == "properties"@
}

/// An ASCII letter.
pub open spec fn ascii_letter(c: char) -> bool {
    ('A' <= c && c <= 'Z') || ('a' <= c && c <= 'z')
}

/// A character that names may hold: ASCII letters and digits, `_` and `-`.
pub open spec fn name_char(c: char) -> bool {
    ascii_letter(c) || ('0' <= c && c <= '9') || c == '_' || c == '-'
}

/// Whether `s` holds a character that names may not hold (what the pattern
/// `[^a-zA-Z0-9_-]` finds).
pub open spec fn has_disallowed_char(s: Seq<char>) -> bool {
    exists|i: int| 0 <= i < s.len() && !name_char(#[trigger] s[i])
}

/// What is wrong with `name` as the name of a store, a key or a property.
pub open spec fn naming_fault(name: Seq<char>) -> Option<SchemaErrorModel> {
    if trim_seq(name).len() == 0 {
        Some(SchemaErrorModel::InvalidPropNaming { expected: "a-Z"@, found: Seq::<char>::empty() })
    } else if !ascii_letter(name[0]) {
        Some(
            SchemaErrorModel::InvalidPropNaming {
                expected: "a-Z"@,
                found: "cannot start with "@ + seq![name[0]],
            },
        )
    } else if has_disallowed_char(name) {
        Some(SchemaErrorModel::InvalidPropNaming { expected: "alphanumeric only"@, found: name })
    } else {
        None
    }
}

/// What is wrong with the entry under `key` of the property declared as an
/// object at the pointer `ptr` of the schema document `doc`.
pub open spec fn entry_fault(
    doc: Seq<char>,
    ptr: Seq<char>,
    key: Seq<char>,
    stores: Seq<Seq<char>>,
) -> Option<SchemaErrorModel> {
    match json_at(doc, child_pointer(ptr, key)) {
        Some(JsonShape::Str(dt)) => {
            if key == "type"@ && !data_type_ok(dt) {
                Some(SchemaErrorModel::TypeDeclarationWrong(key))
            } else if key == "linkingObject"@ && !stores.contains(dt) {
                Some(SchemaErrorModel::UnknownObject(dt))
            } else {
                None
            }
        },
        _ => Some(SchemaErrorModel::TypeDeclarationWrong(key)),
    }
}

/// The first fault among `entries[i..]`, the entries of the property declared
/// as an object at `ptr`.
pub open spec fn first_entry_fault(
    doc: Seq<char>,
    ptr: Seq<char>,
    entries: Seq<(Seq<char>, Seq<char>)>,
    stores: Seq<Seq<char>>,
    i: int,
) -> Option<SchemaErrorModel>
    decreases entries.len() - i,
{
    if i >= entries.len() {
        None
    } else {
        match entry_fault(doc, ptr, entries[i].0, stores) {
            Some(e) => Some(e),
            None => first_entry_fault(doc, ptr, entries, stores, i + 1),
        }
    }
}

/// What is wrong with the declaration at `ptr` of one property, whose compact
/// JSON text is `printed`: it must be a known data type, or an object of strings.
pub open spec fn property_fault(
    doc: Seq<char>,
    ptr: Seq<char>,
    printed: Seq<char>,
    stores: Seq<Seq<char>>,
) -> Option<SchemaErrorModel> {
    match json_at(doc, ptr) {
        Some(JsonShape::Object(entries)) => first_entry_fault(doc, ptr, entries, stores, 0),
        Some(JsonShape::Str(s)) => if data_type_ok(s) {
            None
        } else {
            Some(SchemaErrorModel::TypeDeclarationWrong(printed))
        },
        _ => Some(SchemaErrorModel::TypeDeclarationWrong(printed)),
    }
}

/// The first fault among `entries[i..]`, the properties of the object at `ptr`:
/// a bad name, then a bad declaration.
pub open spec fn first_property_fault(
    doc: Seq<char>,
    ptr: Seq<char>,
    entries: Seq<(Seq<char>, Seq<char>)>,
    stores: Seq<Seq<char>>,
    i: int,
) -> Option<SchemaErrorModel>
    decreases entries.len() - i,
{
    if i >= entries.len() {
        None
    } else {
        match naming_fault(entries[i].0) {
            Some(e) => Some(e),
            None => match property_fault(
                doc,
                child_pointer(ptr, entries[i].0),
                entries[i].1,
                stores,
            ) {
                Some(e) => Some(e),
                None => first_property_fault(doc, ptr, entries, stores, i + 1),
            },
        }
    }
}

/// The pointer to the top-level field `prop`.
pub open spec fn field_pointer(prop: Seq<char>) -> Seq<char> {
    child_pointer(root_pointer(), prop)
}

/// What checking the top-level field `prop` of the schema document `doc` comes
/// to. A `name` or `primaryKey` that is not a string is not handled.
pub open spec fn field_outcome(doc: Seq<char>, prop: Seq<char>, stores: Seq<Seq<char>>) -> Outcome<
    Option<SchemaErrorModel>,
> {
    if prop == "name"@ || prop == "primaryKey"@ {
        match json_at(doc, field_pointer(prop)) {
            Some(JsonShape::Str(s)) => Outcome::Done(naming_fault(s)),
            _ => Outcome::Aborted,
        }
    } else if prop == "properties"@ {
        match json_at(doc, field_pointer(prop)) {
            Some(JsonShape::Object(entries)) => Outcome::Done(
                first_property_fault(doc, field_pointer(prop), entries, stores, 0),
            ),
            _ => Outcome::Done(Some(SchemaErrorModel::MalformedPropertyDeclaration)),
        }
    } else {
        Outcome::Done(Some(SchemaErrorModel::MalformedPropertyDeclaration))
    }
}

/// Whether all three top-level fields are among `entries`.
pub open spec fn all_fields(entries: Seq<(Seq<char>, Seq<char>)>) -> bool {
    &&& has_entry(entries, "name"@)
    &&& has_entry(entries, "primaryKey"@)
    &&& has_entry(entries, "properties"@)
}

/// What checking the top-level entries `entries[i..]` of `doc` comes to, once
/// those before `i` passed. Unknown keys are skipped; all three fields must be
/// there.
pub open spec fn fields_outcome(
    doc: Seq<char>,
    entries: Seq<(Seq<char>, Seq<char>)>,
    stores: Seq<Seq<char>>,
    i: int,
) -> Outcome<Option<SchemaErrorModel>>
    decreases entries.len() - i,
{
    if i >= entries.len() {
        if all_fields(entries) {
            Outcome::Done(None)
        } else {
            Outcome::Done(Some(SchemaErrorModel::MalformedSchema))
        }
    } else if is_field(entries[i].0) {
        match field_outcome(doc, entries[i].0, stores) {
            Outcome::Aborted => Outcome::Aborted,
            Outcome::Done(Some(e)) => Outcome::Done(Some(e)),
            Outcome::Done(None) => fields_outcome(doc, entries, stores, i + 1),
        }
    } else {
        fields_outcome(doc, entries, stores, i + 1)
    }
}

/// What checking the schema document `doc`, whose top level is `root`, comes to.
pub open spec fn document_outcome(doc: Seq<char>, root: JsonShape, stores: Seq<Seq<char>>) -> Outcome<
    Option<SchemaErrorModel>,
> {
    match root {
        JsonShape::Object(entries) => fields_outcome(doc, entries, stores, 0),
        _ => Outcome::Done(Some(SchemaErrorModel::MalformedSchema)),
    }
}

/// What checking the schema text `schema` comes to, where `stores` are the
/// stores that a property may link to.
pub open spec fn schema_outcome(schema: Seq<char>, stores: Seq<Seq<char>>) -> Outcome<
    Option<SchemaErrorModel>,
> {
    match json_document(schema) {
        None => Outcome::Done(Some(SchemaErrorModel::InvalidSchema(schema))),
        Some(root) => document_outcome(schema, root, stores),
    }
}

/// A sound name: an ASCII letter, then ASCII letters, digits, `_` and `-`.
pub open spec fn id_ok(name: Seq<char>) -> bool {
    &&& name.len() > 0
    &&& ascii_letter(name[0])
    &&& forall|i: int| 0 <= i < name.len() ==> name_char(#[trigger] name[i])
}

/// A sound entry under `key` of the property declared as an object at `ptr`:
/// a string, a known data type under `type`, a known store under `linkingObject`.
pub open spec fn link_entry_ok(
    doc: Seq<char>,
    ptr: Seq<char>,
    key: Seq<char>,
    stores: Seq<Seq<char>>,
) -> bool {
    match json_at(doc, child_pointer(ptr, key)) {
        Some(JsonShape::Str(dt)) => (key == "type"@ ==> data_type_ok(dt)) && (key
            == "linkingObject"@ ==> stores.contains(dt)),
        _ => false,
    }
}

/// A sound declaration at `ptr` of a property: a known data type, or an object
/// of sound entries.
pub open spec fn declaration_ok(doc: Seq<char>, ptr: Seq<char>, stores: Seq<Seq<char>>) -> bool {
    match json_at(doc, ptr) {
        Some(JsonShape::Str(s)) => data_type_ok(s),
        Some(JsonShape::Object(entries)) => forall|j: int|
            0 <= j < entries.len() ==> link_entry_ok(doc, ptr, #[trigger] entries[j].0, stores),
        _ => false,
    }
}

/// A sound value of the top-level field `prop`: a sound name for `name` and
/// `primaryKey`, an object of soundly named, soundly declared properties for
/// `properties`.
pub open spec fn field_value_ok(doc: Seq<char>, prop: Seq<char>, stores: Seq<Seq<char>>) -> bool {
    if prop == "name"@ || prop == "primaryKey"@ {
        match json_at(doc, field_pointer(prop)) {
            Some(JsonShape::Str(s)) => id_ok(s),
            _ => false,
        }
    } else {
        match json_at(doc, field_pointer(prop)) {
            Some(JsonShape::Object(props)) => forall|k: int|
                0 <= k < props.len() ==> id_ok(#[trigger] props[k].0) && declaration_ok(
                    doc,
                    child_pointer(field_pointer(prop), props[k].0),
                    stores,
                ),
            _ => false,
        }
    }
}

/// A sound schema: a JSON object with `name`, `primaryKey` and `properties`,
/// each with a sound value; other keys are ignored.
pub open spec fn schema_acceptable(schema: Seq<char>, stores: Seq<Seq<char>>) -> bool {
    match json_document(schema) {
        Some(JsonShape::Object(entries)) => {
            &&& all_fields(entries)
            &&& forall|j: int|
                0 <= j < entries.len() && is_field(#[trigger] entries[j].0) ==> field_value_ok(
                    schema,
                    entries[j].0,
                    stores,
                )
        },
        _ => false,
    }
}

/// Every top-level field present in `entries` passes its own check.
pub open spec fn present_fields_pass(
    doc: Seq<char>,
    entries: Seq<(Seq<char>, Seq<char>)>,
    stores: Seq<Seq<char>>,
) -> bool {
    forall|j: int|
        0 <= j < entries.len() && is_field(#[trigger] entries[j].0) ==> field_outcome(
            doc,
            entries[j].0,
            stores,
        ) == Outcome::Done(None::<SchemaErrorModel>)
}

/// The fault that a check's result reports, if any.
pub open spec fn fault_of(r: Result<(), SchemaError>) -> Option<SchemaErrorModel> {
    match r {
        Ok(()) => None,
        Err(e) => Some(e@),
    }
}

/// The outcome that a check's result reports.
pub open spec fn verdict_of(o: Outcome<Result<(), SchemaError>>) -> Outcome<
    Option<SchemaErrorModel>,
> {
    match o {
        Outcome::Done(r) => Outcome::Done(fault_of(r)),
        Outcome::Aborted => Outcome::Aborted,
    }
}

/// Whether `dt` is a data type a property may be declared with.
pub fn is_data_type_ok(dt: &str) -> (r: bool)
    ensures
        r == data_type_ok(dt@),
{
    str_eq(dt, "string") || str_eq(dt, "number") || str_eq(dt, "date") || str_eq(dt, "list")
        || str_eq(dt, "object") || str_eq(dt, "image") || str_eq(dt, "blob")
}

/// Whether `field` is one of the top-level fields of a schema.
pub fn has_field(field: &str) -> (r: bool)
    ensures
        r == is_field(field@),
{
    str_eq(field, "name") || str_eq(field, "primaryKey") || str_eq(field, "properties")
}

/// Whether the regular expression `pattern` finds a match in `text`, as the
/// `regex` crate decides it, or `None` where `pattern` does not compile.
pub uninterp spec fn regex_search(pattern: Seq<char>, text: Seq<char>) -> Option<bool>;

/// Calls `regex::Regex::new(pattern)` and, where it compiles, `Regex::is_match`
/// on `text`. The result is named `regex_search(pattern, text)`. Of the one
/// pattern this library uses, `[^a-zA-Z0-9_-]` (a negated class of ASCII
/// letters, digits, `_` and a final literal `-`), it is stated that it compiles
/// and finds a match exactly where `text` holds a character outside the class;
/// regex semantics in general are not restated.
#[verifier::external_body]
fn regex_is_match(pattern: &str, text: &str) -> (r: Option<bool>)
    ensures
        r == regex_search(pattern@, text@),
        pattern@ == "[^a-zA-Z0-9_-]"@ ==> r == Some(has_disallowed_char(text@)),
{
    match regex::Regex::new(pattern) {
        Ok(re) => Some(re.is_match(text)),
        Err(_) => None,
    }
}

/// Checks `name` as the name of a store, a key or a property: not blank,
/// starting with an ASCII letter, and made of ASCII letters, digits, `_` and `-`.
pub fn is_schema_pv_ok(name: &str) -> (r: Result<(), SchemaError>)
    ensures
        fault_of(r) == naming_fault(name@),
{
    let disallowed = regex_is_match("[^a-zA-Z0-9_-]", name);
    let trimmed = trim_str(name);
    if trimmed.unicode_len() == 0 {
        return Err(
            SchemaError::InvalidPropNaming {
                expected: String::from_str("a-Z"),
                found: String::new(),
            },
        );
    }
    let v = chars_of(name);
    if v.len() == 0 {
        assert(trim_seq(name@) == name@);
        return Err(
            SchemaError::InvalidPropNaming {
                expected: String::from_str("a-Z"),
                found: String::new(),
            },
        );
    }
    let first = v[0];
    if !(('A' <= first && first <= 'Z') || ('a' <= first && first <= 'z')) {
        let mut found = String::from_str("cannot start with ");
        let head = name.substring_char(0, 1);
        assert(head@ =~= seq![name@[0]]);
        found.append(head);
        return Err(SchemaError::InvalidPropNaming { expected: String::from_str("a-Z"), found });
    }
    if disallowed == Some(true) {
        return Err(
            SchemaError::InvalidPropNaming {
                expected: String::from_str("alphanumeric only"),
                found: String::from_str(name),
            },
        );
    }
    Ok(())
}

/// Checks the declaration at `ptr` of one property of the schema document
/// `doc`; `printed` is its compact JSON text. `stores` are the stores that a
/// `linkingObject` may name.
fn is_schema_properties_ok(doc: &str, ptr: &str, printed: &str, stores: &Vec<String>) -> (r: Result<
    (),
    SchemaError,
>)
    ensures
        fault_of(r) == property_fault(doc@, ptr@, printed@, string_views(stores@)),
{
    let ghost sv = string_views(stores@);
    match parse_json_at(doc, ptr) {
        Some(JsonNode::Object(entries)) => {
            let ghost es = entry_views(entries@);
            let mut i: usize = 0;
            while i < entries.len()
                invariant
                    i <= entries.len(),
                    es == entry_views(entries@),
                    sv == string_views(stores@),
                    json_at(doc@, ptr@) == Some(JsonShape::Object(es)),
                    first_entry_fault(doc@, ptr@, es, sv, 0) == first_entry_fault(
                        doc@,
                        ptr@,
                        es,
                        sv,
                        i as int,
                    ),
                decreases entries.len() - i,
            {
                let key = entries[i].0.as_str();
                assert(es[i as int] == (key@, entries@[i as int].1@));
                let at = child_pointer_of(ptr, key);
                match parse_json_at(doc, at.as_str()) {
                    Some(JsonNode::Str(dt)) => {
                        if str_eq(key, "type") && !is_data_type_ok(dt.as_str()) {
                            let r = SchemaError::TypeDeclarationWrong(String::from_str(key));
                            assert(entry_fault(doc@, ptr@, es[i as int].0, sv) == Some(r@));
                            return Err(r);
                        }
                        if str_eq(key, "linkingObject") && !check_if_cf_exists(dt.as_str(), stores) {
                            return Err(SchemaError::UnknownObject(dt));
                        }
                    },
                    _ => {
                        let r = SchemaError::TypeDeclarationWrong(String::from_str(key));
                        assert(entry_fault(doc@, ptr@, es[i as int].0, sv) == Some(r@));
                        return Err(r);
                    },
                }
                i = i + 1;
            }
            Ok(())
        },
        Some(JsonNode::Str(s)) => {
            if is_data_type_ok(s.as_str()) {
                Ok(())
            } else {
                Err(SchemaError::TypeDeclarationWrong(String::from_str(printed)))
            }
        },
        _ => Err(SchemaError::TypeDeclarationWrong(String::from_str(printed))),
    }
}

/// Checks every property of the `properties` object at `ptr`, whose entries
/// are `entries`: its name, then its declaration.
fn properties_check(
    doc: &str,
    ptr: &str,
    entries: &Vec<(String, String)>,
    stores: &Vec<String>,
) -> (r: Result<(), SchemaError>)
    ensures
        fault_of(r) == first_property_fault(
            doc@,
            ptr@,
            entry_views(entries@),
            string_views(stores@),
            0,
        ),
{
    let ghost sv = string_views(stores@);
    let ghost es = entry_views(entries@);
    let mut i: usize = 0;
    while i < entries.len()
        invariant
            i <= entries.len(),
            es == entry_views(entries@),
            sv == string_views(stores@),
            first_property_fault(doc@, ptr@, es, sv, 0) == first_property_fault(
                doc@,
                ptr@,
                es,
                sv,
                i as int,
            ),
        decreases entries.len() - i,
    {
        assert(es[i as int] == (entries@[i as int].0@, entries@[i as int].1@));
        let col = is_schema_pv_ok(entries[i].0.as_str());
        if col.is_err() {
            return col;
        }
        let at = child_pointer_of(ptr, entries[i].0.as_str());
        let res = is_schema_properties_ok(doc, at.as_str(), entries[i].1.as_str(), stores);
        if res.is_err() {
            return res;
        }
        i = i + 1;
    }
    Ok(())
}

/// Checks the top-level field `prop` of the schema document `doc`.
fn prop_value_check(doc: &str, prop: &str, stores: &Vec<String>) -> (o: Outcome<
    Result<(), SchemaError>,
>)
    ensures
        verdict_of(o) == field_outcome(doc@, prop@, string_views(stores@)),
{
    let root = String::new();
    let at = child_pointer_of(root.as_str(), prop);
    assert(root@ == root_pointer());
    if str_eq(prop, "name") || str_eq(prop, "primaryKey") {
        match parse_json_at(doc, at.as_str()) {
            Some(JsonNode::Str(s)) => Outcome::Done(is_schema_pv_ok(s.as_str())),
            _ => Outcome::Aborted,
        }
    } else if str_eq(prop, "properties") {
        match parse_json_at(doc, at.as_str()) {
            Some(JsonNode::Object(entries)) => Outcome::Done(
                properties_check(doc, at.as_str(), &entries, stores),
            ),
            _ => Outcome::Done(Err(SchemaError::MalformedPropertyDeclaration)),
        }
    } else {
        Outcome::Done(Err(SchemaError::MalformedPropertyDeclaration))
    }
}

/// Checks the schema document `doc`, whose top level is `schema`: an object
/// whose `name`, `primaryKey` and `properties` are all there and sound.
fn schema_check(doc: &str, schema: &JsonNode, stores: &Vec<String>) -> (o: Outcome<
    Result<(), SchemaError>,
>)
    ensures
        verdict_of(o) == document_outcome(doc@, schema@, string_views(stores@)),
{
    let ghost sv = string_views(stores@);
    match schema {
        JsonNode::Object(props) => {
            let ghost es = entry_views(props@);
            let mut i: usize = 0;
            while i < props.len()
                invariant
                    i <= props.len(),
                    es == entry_views(props@),
                    sv == string_views(stores@),
                    schema@ == JsonShape::Object(es),
                    fields_outcome(doc@, es, sv, 0) == fields_outcome(doc@, es, sv, i as int),
                decreases props.len() - i,
            {
                assert(es[i as int] == (props@[i as int].0@, props@[i as int].1@));
                if has_field(props[i].0.as_str()) {
                    let pv_check = prop_value_check(doc, props[i].0.as_str(), stores);
                    match pv_check {
                        Outcome::Aborted => {
                            assert(fields_outcome(doc@, es, sv, i as int) == Outcome::<
                                Option<SchemaErrorModel>,
                            >::Aborted);
                            return Outcome::Aborted;
                        },
                        Outcome::Done(Err(e)) => {
                            assert(fields_outcome(doc@, es, sv, i as int) == Outcome::Done(Some(e@)));
                            return Outcome::Done(Err(e));
                        },
                        Outcome::Done(Ok(())) => {},
                    }
                }
                i = i + 1;
            }
            if !(entries_have_key(props, "name") && entries_have_key(props, "primaryKey")
                && entries_have_key(props, "properties")) {
                return Outcome::Done(Err(SchemaError::MalformedSchema));
            }
            Outcome::Done(Ok(()))
        },
        _ => Outcome::Done(Err(SchemaError::MalformedSchema)),
    }
}

/// Checks the schema text `schema`, where `stores` are the stores that a
/// property may link to; `Aborted` where the check cannot handle the document.
/// The schema passes exactly where it is sound; where it is an object whose
/// fields present all pass but one of the three is missing, it is malformed.
pub fn check_schema(schema: &str, stores: &Vec<String>) -> (o: Outcome<Result<(), SchemaError>>)
    ensures
        verdict_of(o) == schema_outcome(schema@, string_views(stores@)),
        (verdict_of(o) == Outcome::Done(None::<SchemaErrorModel>)) == schema_acceptable(
            schema@,
            string_views(stores@),
        ),
        (json_document(schema@) matches Some(JsonShape::Object(entries)) && present_fields_pass(
            schema@,
            entries,
            string_views(stores@),
        ) && !all_fields(entries)) ==> verdict_of(o) == Outcome::Done(
            Some(SchemaErrorModel::MalformedSchema),
        ),
{
    let parsed = parse_json(schema);
    match parsed {
        None => Outcome::Done(Err(SchemaError::InvalidSchema(String::from_str(schema)))),
        Some(doc) => {
            proof {
                if doc is Object {
                    crate::laws::lemma_document_outcome(
                        schema@,
                        entry_views(doc->Object_0@),
                        string_views(stores@),
                    );
                }
            }
            schema_check(schema, &doc, stores)
        },
    }
}

/// Checks the schema text `schema`, where `stores` are the stores that a
/// property may link to.
pub fn is_schema_ok(schema: &str, stores: &Vec<String>) -> (r: Result<(), SchemaError>)
    requires
        schema_outcome(schema@, string_views(stores@)) != Outcome::<Option<SchemaErrorModel>>::Aborted,
    ensures
        schema_outcome(schema@, string_views(stores@)) == Outcome::Done(fault_of(r)),
        r is Ok == schema_acceptable(schema@, string_views(stores@)),
{
    match check_schema(schema, stores) {
        Outcome::Done(r) => r,
        Outcome::Aborted => Err(SchemaError::MalformedSchema),
    }
}

} // verus!
