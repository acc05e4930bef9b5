//! Properties that hold across all inputs: of the statement language and its
//! whitespace, of schema checks, of JSON pointers and of the private key search.
use vstd::prelude::*;
use crate::errors::{Outcome, SchemaErrorModel, StatementErrorModel};
use crate::json::{
    child_pointer, decimal, digit_char, index_pointer, json_at, pointer_token, JsonShape,
};
use crate::pem::{first_private_key, pem_next, PemKind};
use crate::schema::{
    all_fields, declaration_ok, entry_fault, field_outcome, field_pointer, field_value_ok,
    fields_outcome, first_entry_fault, first_property_fault, has_disallowed_char, id_ok, is_field,
    link_entry_ok, naming_fault, present_fields_pass, property_fault, schema_outcome,
};
use crate::statement::{lemma_split_nonempty, statement_of_tokens, stmt_outcome, StatementModel, StatementType};
use crate::text::{join_seq, split_seq, trim_end_seq, trim_seq, trim_start_seq, white_space};

verus! {

/// Trimming never lengthens a string.
pub proof fn lemma_trim_shrinks(s: Seq<char>)
    ensures
        trim_start_seq(s).len() <= s.len(),
        trim_end_seq(s).len() <= s.len(),
        trim_seq(s).len() <= s.len(),
    decreases s.len(),
{
    if s.len() > 0 {
        lemma_trim_shrinks(s.drop_first());
        lemma_trim_shrinks(s.drop_last());
    }
    lemma_trim_end_shrinks(trim_start_seq(s));
}

/// Trimming the back never lengthens a string.
proof fn lemma_trim_end_shrinks(s: Seq<char>)
    ensures
        trim_end_seq(s).len() <= s.len(),
    decreases s.len(),
{
    if s.len() > 0 {
        lemma_trim_end_shrinks(s.drop_last());
    }
}

/// After trimming the front, a string is empty or starts with a character
/// that is not whitespace.
proof fn lemma_trim_start_result(s: Seq<char>)
    ensures
        trim_start_seq(s).len() == 0 || !white_space(trim_start_seq(s)[0]),
    decreases s.len(),
{
    if s.len() > 0 && white_space(s[0]) {
        lemma_trim_start_result(s.drop_first());
    }
}

/// Trimming the back keeps a prefix, which is empty or ends with a character
/// that is not whitespace.
proof fn lemma_trim_end_result(s: Seq<char>)
    ensures
        trim_end_seq(s).len() <= s.len(),
        forall|i: int| 0 <= i < trim_end_seq(s).len() ==> #[trigger] trim_end_seq(s)[i] == s[i],
        trim_end_seq(s).len() == 0 || !white_space(trim_end_seq(s).last()),
    decreases s.len(),
{
    if s.len() > 0 && white_space(s.last()) {
        lemma_trim_end_result(s.drop_last());
    }
}

/// Trimming a trimmed string changes nothing.
pub proof fn lemma_trim_idempotent(s: Seq<char>)
    ensures
        trim_seq(trim_seq(s)) == trim_seq(s),
{
    let u = trim_start_seq(s);
    let t = trim_end_seq(u);
    lemma_trim_start_result(s);
    lemma_trim_end_result(u);
    if t.len() > 0 {
        assert(t[0] == u[0]);
    }
    assert(trim_start_seq(t) == t);
    assert(trim_end_seq(t) == t);
}

/// The database and store that a statement names are trimmed already, so a
/// statement names no database exactly where its database part is empty.
pub proof fn lemma_names_are_trimmed(tokens: Seq<Seq<char>>)
    ensures
        trim_seq(statement_of_tokens(tokens).db) == statement_of_tokens(tokens).db,
        trim_seq(statement_of_tokens(tokens).store) == statement_of_tokens(tokens).store,
        (trim_seq(statement_of_tokens(tokens).db).len() == 0) == (statement_of_tokens(tokens).db.len() == 0),
{
    let target = if tokens.len() > 1 {
        trim_seq(tokens[1])
    } else {
        Seq::<char>::empty()
    };
    let parts = split_seq(target, ':');
    if target.len() > 0 && parts.len() > 1 {
        lemma_trim_idempotent(parts[1]);
    }
    if target.len() > 0 && parts.len() > 2 {
        lemma_trim_idempotent(parts[2]);
    }
}

/// A statement that parses names a database and carries what its kind needs:
/// `CREATE` of a store a schema that passes the check, `GET` and `DELETE` a store
/// and an argument, `UPSERT` its data, `DROP` and `TRUNCATE` of a store no data,
/// dropping and listing databases neither a store nor data, and creating a
/// database either both or neither.
pub proof fn lemma_accepted_statement_shape(
    st: Seq<char>,
    stores: Seq<Seq<char>>,
    p: StatementModel,
)
    requires
        stmt_outcome(st, stores) == Outcome::Done(Ok::<StatementModel, StatementErrorModel>(p)),
    ensures
        p == statement_of_tokens(split_seq(st, ' ')),
        p.cmd is Some,
        p.db.len() > 0,
        match p.cmd->0 {
            StatementType::Create => p.data.len() > 0 && schema_outcome(p.data, stores)
                == Outcome::Done(None::<SchemaErrorModel>),
            StatementType::Get | StatementType::Delete => p.store.len() > 0 && p.data.len() > 0,
            StatementType::Upsert => p.data.len() > 0,
            StatementType::Drop | StatementType::Truncate => p.store.len() > 0 && p.data.len()
                == 0,
            StatementType::CreateDb => (p.store.len() == 0) == (p.data.len() == 0),
            StatementType::DropDb | StatementType::DbList => p.store.len() == 0 && p.data.len()
                == 0,
        },
{
    let q = statement_of_tokens(split_seq(st, ' '));
    lemma_trim_shrinks(q.db);
}

/// The stores on disk matter only to the `CREATE` of a store: every other
/// statement parses the same whatever the stores are.
pub proof fn lemma_stores_matter_only_to_create(
    st: Seq<char>,
    stores1: Seq<Seq<char>>,
    stores2: Seq<Seq<char>>,
)
    requires
        statement_of_tokens(split_seq(st, ' ')).cmd != Some(StatementType::Create),
    ensures
        stmt_outcome(st, stores1) == stmt_outcome(st, stores2),
{
}

/// Joining pieces after adding a character to the last one adds that character
/// to the joined text.
proof fn lemma_join_push_last(parts: Seq<Seq<char>>, sep: Seq<char>, c: char)
    requires
        parts.len() >= 1,
    ensures
        join_seq(parts.update(parts.len() - 1, parts.last().push(c)), sep) == join_seq(
            parts,
            sep,
        ).push(c),
{
    let grown = parts.update(parts.len() - 1, parts.last().push(c));
    if parts.len() >= 2 {
        assert(grown.drop_last() =~= parts.drop_last());
        assert(join_seq(grown, sep) == join_seq(grown.drop_last(), sep) + sep + grown.last());
        assert(join_seq(grown, sep) =~= join_seq(parts, sep).push(c));
    }
}

/// Splitting a text at a separator and joining the pieces with that separator
/// gives the text back, and no piece holds the separator.
pub proof fn lemma_split_join(s: Seq<char>, sep: char)
    ensures
        join_seq(split_seq(s, sep), seq![sep]) == s,
        forall|i: int|
            0 <= i < split_seq(s, sep).len() ==> !(#[trigger] split_seq(s, sep)[i]).contains(sep),
    decreases s.len(),
{
    if s.len() == 0 {
        assert(join_seq(split_seq(s, sep), seq![sep]) =~= s);
        assert forall|i: int| 0 <= i < split_seq(s, sep).len() implies !(#[trigger] split_seq(
            s,
            sep,
        )[i]).contains(sep) by {
            assert(split_seq(s, sep)[i] =~= Seq::<char>::empty());
        }
    } else {
        let init = s.drop_last();
        let before = split_seq(init, sep);
        lemma_split_join(init, sep);
        lemma_split_nonempty(init, sep);
        if s.last() == sep {
            let after = before.push(Seq::<char>::empty());
            assert(after.drop_last() =~= before);
            assert(join_seq(after, seq![sep]) == join_seq(before, seq![sep]) + seq![sep]
                + Seq::<char>::empty());
            assert(join_seq(after, seq![sep]) =~= s);
            assert forall|i: int| 0 <= i < after.len() implies !(#[trigger] after[i]).contains(
                sep,
            ) by {
                if i < before.len() {
                    assert(after[i] == before[i]);
                } else {
                    assert(after[i] =~= Seq::<char>::empty());
                }
            }
        } else {
            let after = before.update(before.len() - 1, before.last().push(s.last()));
            lemma_join_push_last(before, seq![sep], s.last());
            assert(join_seq(after, seq![sep]) =~= s);
            assert forall|i: int| 0 <= i < after.len() implies !(#[trigger] after[i]).contains(
                sep,
            ) by {
                if i < before.len() - 1 {
                    assert(after[i] == before[i]);
                } else {
                    let last = before.last();
                    assert(after[i] == last.push(s.last()));
                    assert(!before[before.len() - 1].contains(sep));
                    if after[i].contains(sep) {
                        let k = choose|k: int| 0 <= k < after[i].len() && after[i][k] == sep;
                        if k < last.len() {
                            assert(last[k] == sep);
                        }
                    }
                }
            }
        }
    }
}

/// A string that starts with a character that is not whitespace keeps it when
/// its back is trimmed.
proof fn lemma_trim_end_keeps_head(s: Seq<char>)
    requires
        s.len() > 0,
        !white_space(s[0]),
    ensures
        trim_end_seq(s).len() > 0,
    decreases s.len(),
{
    if white_space(s.last()) {
        assert(s.len() > 1);
        lemma_trim_end_keeps_head(s.drop_last());
    }
}

/// The naming check passes exactly on sound names.
pub proof fn lemma_naming_is_id(name: Seq<char>)
    ensures
        (naming_fault(name) == None::<SchemaErrorModel>) == id_ok(name),
{
    lemma_trim_shrinks(name);
    if id_ok(name) {
        assert(trim_start_seq(name) == name);
        lemma_trim_end_keeps_head(name);
        assert(!has_disallowed_char(name));
    }
    if naming_fault(name) == None::<SchemaErrorModel> {
        assert forall|i: int| 0 <= i < name.len() implies crate::schema::name_char(
            #[trigger] name[i],
        ) by {
            if !crate::schema::name_char(name[i]) {
                assert(has_disallowed_char(name));
            }
        }
    }
}

/// The entries from `i` on of the property declared as an object at `ptr` pass
/// exactly where each of them is sound.
proof fn lemma_first_entry_fault(
    doc: Seq<char>,
    ptr: Seq<char>,
    entries: Seq<(Seq<char>, Seq<char>)>,
    stores: Seq<Seq<char>>,
    i: int,
)
    requires
        0 <= i,
    ensures
        (first_entry_fault(doc, ptr, entries, stores, i) == None::<SchemaErrorModel>) == (forall|
            j: int,
        | i <= j < entries.len() ==> link_entry_ok(doc, ptr, #[trigger] entries[j].0, stores)),
    decreases entries.len() - i,
{
    if i < entries.len() {
        lemma_first_entry_fault(doc, ptr, entries, stores, i + 1);
        assert((entry_fault(doc, ptr, entries[i].0, stores) == None::<SchemaErrorModel>)
            == link_entry_ok(doc, ptr, entries[i].0, stores));
    }
}

/// A property's declaration passes exactly where it is sound.
pub proof fn lemma_declaration(
    doc: Seq<char>,
    ptr: Seq<char>,
    printed: Seq<char>,
    stores: Seq<Seq<char>>,
)
    ensures
        (property_fault(doc, ptr, printed, stores) == None::<SchemaErrorModel>) == declaration_ok(
            doc,
            ptr,
            stores,
        ),
{
    if let Some(JsonShape::Object(entries)) = json_at(doc, ptr) {
        lemma_first_entry_fault(doc, ptr, entries, stores, 0);
    }
}

/// The properties from `i` on of the object at `ptr` pass exactly where each
/// has a sound name and a sound declaration.
proof fn lemma_first_property_fault(
    doc: Seq<char>,
    ptr: Seq<char>,
    props: Seq<(Seq<char>, Seq<char>)>,
    stores: Seq<Seq<char>>,
    i: int,
)
    requires
        0 <= i,
    ensures
        (first_property_fault(doc, ptr, props, stores, i) == None::<SchemaErrorModel>) == (forall|
            k: int,
        |
            i <= k < props.len() ==> id_ok(#[trigger] props[k].0) && declaration_ok(
                doc,
                child_pointer(ptr, props[k].0),
                stores,
            )),
    decreases props.len() - i,
{
    if i < props.len() {
        lemma_first_property_fault(doc, ptr, props, stores, i + 1);
        lemma_naming_is_id(props[i].0);
        lemma_declaration(doc, child_pointer(ptr, props[i].0), props[i].1, stores);
        if first_property_fault(doc, ptr, props, stores, i) == None::<SchemaErrorModel> {
            assert forall|k: int| i <= k < props.len() implies id_ok(#[trigger] props[k].0)
                && declaration_ok(doc, child_pointer(ptr, props[k].0), stores) by {
                if k > i {
                    assert(i + 1 <= k < props.len());
                }
            }
        }
        if forall|k: int|
            i <= k < props.len() ==> id_ok(#[trigger] props[k].0) && declaration_ok(
                doc,
                child_pointer(ptr, props[k].0),
                stores,
            ) {
            assert(id_ok(props[i].0));
            assert forall|k: int| i + 1 <= k < props.len() implies id_ok(#[trigger] props[k].0)
                && declaration_ok(doc, child_pointer(ptr, props[k].0), stores) by {
                assert(i <= k);
            }
        }
    }
}

/// The three field names differ.
proof fn lemma_field_names_differ()
    ensures
        "name"@ != "primaryKey"@,
        "name"@ != "properties"@,
        "primaryKey"@ != "properties"@,
{
    reveal_strlit("name");
    reveal_strlit("primaryKey");
    reveal_strlit("properties");
    assert("name"@[1] != "primaryKey"@[1]);
    assert("name"@[1] != "properties"@[1]);
    assert("primaryKey"@[2] != "properties"@[2]);
}

/// A top-level field passes its check exactly where its value is sound.
pub proof fn lemma_field(doc: Seq<char>, prop: Seq<char>, stores: Seq<Seq<char>>)
    requires
        is_field(prop),
    ensures
        (field_outcome(doc, prop, stores) == Outcome::Done(None::<SchemaErrorModel>))
            == field_value_ok(doc, prop, stores),
{
    lemma_field_names_differ();
    match json_at(doc, field_pointer(prop)) {
        Some(JsonShape::Str(s)) => {
            lemma_naming_is_id(s);
        },
        Some(JsonShape::Object(props)) => {
            lemma_first_property_fault(doc, field_pointer(prop), props, stores, 0);
        },
        _ => {},
    }
}

/// The top-level entries from `i` on pass exactly where every field among them
/// passes and all three fields are there; where every field among them passes,
/// a missing field makes the schema malformed.
proof fn lemma_fields_outcome(
    doc: Seq<char>,
    entries: Seq<(Seq<char>, Seq<char>)>,
    stores: Seq<Seq<char>>,
    i: int,
)
    requires
        0 <= i,
    ensures
        (forall|j: int|
            i <= j < entries.len() && is_field(#[trigger] entries[j].0) ==> field_outcome(
                doc,
                entries[j].0,
                stores,
            ) == Outcome::Done(None::<SchemaErrorModel>)) ==> fields_outcome(doc, entries, stores, i)
            == (if all_fields(entries) {
            Outcome::Done(None::<SchemaErrorModel>)
        } else {
            Outcome::Done(Some(SchemaErrorModel::MalformedSchema))
        }),
        fields_outcome(doc, entries, stores, i) == Outcome::Done(None::<SchemaErrorModel>) ==> (
        forall|j: int|
            i <= j < entries.len() && is_field(#[trigger] entries[j].0) ==> field_outcome(
                doc,
                entries[j].0,
                stores,
            ) == Outcome::Done(None::<SchemaErrorModel>)),
    decreases entries.len() - i,
{
    if i < entries.len() {
        lemma_fields_outcome(doc, entries, stores, i + 1);
    }
}

/// A parsed schema document passes exactly where it is sound; and where every
/// field present passes, a missing field is reported as a malformed schema.
pub proof fn lemma_document_outcome(
    doc: Seq<char>,
    entries: Seq<(Seq<char>, Seq<char>)>,
    stores: Seq<Seq<char>>,
)
    ensures
        (fields_outcome(doc, entries, stores, 0) == Outcome::Done(None::<SchemaErrorModel>)) == (
        all_fields(entries) && forall|j: int|
            0 <= j < entries.len() && is_field(#[trigger] entries[j].0) ==> field_value_ok(
                doc,
                entries[j].0,
                stores,
            )),
        present_fields_pass(doc, entries, stores) && !all_fields(entries) ==> fields_outcome(
            doc,
            entries,
            stores,
            0,
        ) == Outcome::Done(Some(SchemaErrorModel::MalformedSchema)),
{
    lemma_fields_outcome(doc, entries, stores, 0);
    assert forall|j: int| 0 <= j < entries.len() && is_field(#[trigger] entries[j].0) implies (
    field_outcome(doc, entries[j].0, stores) == Outcome::Done(None::<SchemaErrorModel>))
        == field_value_ok(doc, entries[j].0, stores) by {
        lemma_field(doc, entries[j].0, stores);
    }
}

/// Adding a character to a string adds it to the string's trimmed front, unless
/// the string is all whitespace.
proof fn lemma_trim_start_push(t: Seq<char>, c: char)
    ensures
        trim_start_seq(t.push(c)) == (if trim_start_seq(t).len() == 0 {
            trim_start_seq(seq![c])
        } else {
            trim_start_seq(t).push(c)
        }),
    decreases t.len(),
{
    if t.len() == 0 {
        assert(t.push(c) =~= seq![c]);
    } else if white_space(t[0]) {
        assert(t.push(c).drop_first() =~= t.drop_first().push(c));
        lemma_trim_start_push(t.drop_first(), c);
    }
}

/// Whitespace added at the end of a string is trimmed away.
pub proof fn lemma_trim_push_space(t: Seq<char>, c: char)
    requires
        white_space(c),
    ensures
        trim_seq(t.push(c)) == trim_seq(t),
{
    lemma_trim_start_push(t, c);
    assert(seq![c].drop_first() =~= Seq::<char>::empty());
    let u = trim_start_seq(t);
    if u.len() > 0 {
        assert(u.push(c).drop_last() =~= u);
        assert(u.push(c).last() == c);
        assert(trim_end_seq(u.push(c)) == trim_end_seq(u));
    } else {
        assert(trim_start_seq(Seq::<char>::empty()) == Seq::<char>::empty());
        assert(trim_start_seq(seq![c]) == trim_start_seq(Seq::<char>::empty()));
        assert(trim_end_seq(Seq::<char>::empty()) == Seq::<char>::empty());
        assert(u =~= Seq::<char>::empty());
    }
}

/// Token lists whose tokens trim alike make the same statement.
proof fn lemma_same_trims(a: Seq<Seq<char>>, b: Seq<Seq<char>>)
    requires
        a.len() == b.len(),
        forall|i: int| 0 <= i < a.len() ==> trim_seq(#[trigger] a[i]) == trim_seq(b[i]),
    ensures
        statement_of_tokens(a) == statement_of_tokens(b),
{
    if a.len() > 2 {
        assert(crate::statement::trim_all(a.subrange(2, a.len() as int)) =~= crate::statement::trim_all(
            b.subrange(2, b.len() as int),
        ));
    }
}

/// A newline at the end of a statement whose command is known changes nothing:
/// tokens are trimmed.
pub proof fn lemma_trailing_newline(st: Seq<char>, stores: Seq<Seq<char>>)
    requires
        st.len() > 0,
        statement_of_tokens(split_seq(st, ' ')).cmd is Some,
    ensures
        stmt_outcome(st.push('\n'), stores) == stmt_outcome(st, stores),
{
    let longer = st.push('\n');
    assert(longer.drop_last() =~= st);
    let a = split_seq(longer, ' ');
    let b = split_seq(st, ' ');
    lemma_split_nonempty(st, ' ');
    assert forall|i: int| 0 <= i < a.len() implies trim_seq(#[trigger] a[i]) == trim_seq(b[i]) by {
        if i == b.len() - 1 {
            lemma_trim_push_space(b[i], '\n');
        }
    }
    lemma_same_trims(a, b);
}

/// A carriage return and newline at the end of a statement whose command is
/// known change nothing: tokens are trimmed, and `\r` is whitespace as `\n` is.
pub proof fn lemma_trailing_crlf(st: Seq<char>, stores: Seq<Seq<char>>)
    requires
        st.len() > 0,
        statement_of_tokens(split_seq(st, ' ')).cmd is Some,
    ensures
        stmt_outcome(st + seq!['\r', '\n'], stores) == stmt_outcome(st, stores),
{
    let mid = st.push('\r');
    let longer = mid.push('\n');
    assert(longer =~= st + seq!['\r', '\n']);
    assert(longer.drop_last() =~= mid);
    assert(mid.drop_last() =~= st);
    let a = split_seq(longer, ' ');
    let m = split_seq(mid, ' ');
    let b = split_seq(st, ' ');
    lemma_split_nonempty(st, ' ');
    lemma_split_nonempty(mid, ' ');
    assert(a.len() == b.len());
    assert forall|i: int| 0 <= i < a.len() implies trim_seq(#[trigger] a[i]) == trim_seq(b[i]) by {
        if i == b.len() - 1 {
            lemma_trim_push_space(b[i], '\r');
            lemma_trim_push_space(m[i], '\n');
        }
    }
    lemma_same_trims(a, b);
}

/// The characters that Unicode's `White_Space` property (and so
/// `char::is_whitespace`) names, one by one.
pub open spec fn listed_white_space(c: char) -> bool {
    ||| c == '\t'
    ||| c == '\n'
    ||| c == '\u{b}'
    ||| c == '\u{c}'
    ||| c == '\r'
    ||| c == ' '
    ||| c == '\u{85}'
    ||| c == '\u{a0}'
    ||| c == '\u{1680}'
    ||| c == '\u{2000}'
    ||| c == '\u{2001}'
    ||| c == '\u{2002}'
    ||| c == '\u{2003}'
    ||| c == '\u{2004}'
    ||| c == '\u{2005}'
    ||| c == '\u{2006}'
    ||| c == '\u{2007}'
    ||| c == '\u{2008}'
    ||| c == '\u{2009}'
    ||| c == '\u{200a}'
    ||| c == '\u{2028}'
    ||| c == '\u{2029}'
    ||| c == '\u{202f}'
    ||| c == '\u{205f}'
    ||| c == '\u{3000}'
}

/// Whitespace, as trimming reads it, is exactly the twenty-five characters of
/// Unicode's `White_Space` property: tab, line feed, vertical tab, form feed,
/// carriage return, space, next line, no-break space, Ogham space mark, the
/// spaces U+2000 to U+200A, the line and paragraph separators, the narrow
/// no-break space, the medium mathematical space and the ideographic space.
pub proof fn lemma_white_space_is_unicode(c: char)
    ensures
        white_space(c) == listed_white_space(c),
{
}

/// The private key search of a PEM text: a key section (RSA, PKCS#8 or EC)
/// read first is the key found, with its own DER bytes; a section of another
/// kind is skipped and the search goes on with what follows it; a text with no
/// section left has no key, and one whose next section cannot be read is an
/// error.
pub proof fn lemma_first_private_key(pem: Seq<u8>)
    ensures
        pem_next(pem) is None ==> first_private_key(pem) == Err::<Option<Seq<u8>>, ()>(()),
        pem_next(pem) == Some(None::<(PemKind, Seq<u8>, nat)>) ==> first_private_key(pem)
            == Ok::<Option<Seq<u8>>, ()>(None),
        pem_next(pem) matches Some(Some(section)) && section.0 == PemKind::RsaKey
            ==> first_private_key(pem) == Ok::<Option<Seq<u8>>, ()>(
            Some((pem_next(pem)->0->0).1),
        ),
        pem_next(pem) matches Some(Some(section)) && section.0 == PemKind::Pkcs8Key
            ==> first_private_key(pem) == Ok::<Option<Seq<u8>>, ()>(
            Some((pem_next(pem)->0->0).1),
        ),
        pem_next(pem) matches Some(Some(section)) && section.0 == PemKind::EcKey
            ==> first_private_key(pem) == Ok::<Option<Seq<u8>>, ()>(
            Some((pem_next(pem)->0->0).1),
        ),
        pem_next(pem) matches Some(Some(section)) && (section.0 == PemKind::Certificate
            || section.0 == PemKind::Other) && section.2 < pem.len() ==> first_private_key(pem)
            == first_private_key(
            pem.subrange(pem.len() - (pem_next(pem)->0->0).2, pem.len() as int),
        ),
{
}

/// A JSON pointer token keeps every character of its key but `~` and `/`.
pub proof fn lemma_pointer_token_plain(key: Seq<char>)
    requires
        forall|i: int| 0 <= i < key.len() ==> #[trigger] key[i] != '~' && key[i] != '/',
    ensures
        pointer_token(key) == key,
    decreases key.len(),
{
    if key.len() > 0 {
        lemma_pointer_token_plain(key.drop_last());
        assert(key.drop_last().push(key.last()) =~= key);
    }
}

/// The pointer token of two pieces of a key is the tokens of the pieces, one
/// after the other.
pub proof fn lemma_pointer_token_concat(a: Seq<char>, b: Seq<char>)
    ensures
        pointer_token(a + b) == pointer_token(a) + pointer_token(b),
    decreases b.len(),
{
    if b.len() > 0 {
        lemma_pointer_token_concat(a, b.drop_last());
        assert((a + b).drop_last() =~= a + b.drop_last());
        assert((a + b).last() == b.last());
        assert(pointer_token(a) + pointer_token(b.drop_last()) + (if b.last() == '~' {
            seq!['~', '0']
        } else if b.last() == '/' {
            seq!['~', '1']
        } else {
            seq![b.last()]
        }) =~= pointer_token(a) + (pointer_token(b.drop_last()) + (if b.last() == '~' {
            seq!['~', '0']
        } else if b.last() == '/' {
            seq!['~', '1']
        } else {
            seq![b.last()]
        })));
    } else {
        assert(a + b =~= a);
        assert(pointer_token(a) + pointer_token(b) =~= pointer_token(a));
    }
}

/// In a JSON pointer token, `~` is written `~0` and `/` is written `~1`
/// (RFC 6901), and any other character stands for itself.
pub proof fn lemma_pointer_token_escapes(c: char)
    ensures
        pointer_token(seq!['~']) == seq!['~', '0'],
        pointer_token(seq!['/']) == seq!['~', '1'],
        c != '~' && c != '/' ==> pointer_token(seq![c]) == seq![c],
{
    assert(seq!['~'].drop_last() =~= Seq::<char>::empty());
    assert(seq!['/'].drop_last() =~= Seq::<char>::empty());
    assert(seq![c].drop_last() =~= Seq::<char>::empty());
    assert(pointer_token(Seq::<char>::empty()) == Seq::<char>::empty());
    assert(seq!['~'].last() == '~');
    assert(seq!['/'].last() == '/');
    assert(seq![c].last() == c);
    assert(pointer_token(seq!['~']) == pointer_token(Seq::<char>::empty()) + seq!['~', '0']);
    assert(pointer_token(seq!['/']) == pointer_token(Seq::<char>::empty()) + seq!['~', '1']);
    assert(Seq::<char>::empty() + seq!['~', '0'] =~= seq!['~', '0']);
    assert(Seq::<char>::empty() + seq!['~', '1'] =~= seq!['~', '1']);
    assert(Seq::<char>::empty() + seq![c] =~= seq![c]);
}

/// The number that a string of decimal digits stands for.
pub open spec fn numeral_value(s: Seq<char>) -> int
    decreases s.len(),
{
    if s.len() == 0 {
        0
    } else {
        numeral_value(s.drop_last()) * 10 + (s.last() as int - '0' as int)
    }
}

/// A decimal digit.
pub open spec fn is_digit(c: char) -> bool {
    '0' <= c && c <= '9'
}

/// The digit written for a number below ten stands for that number.
pub proof fn lemma_digit_char(d: nat)
    requires
        d < 10,
    ensures
        is_digit(digit_char(d)),
        digit_char(d) as int - '0' as int == d,
{
}

/// `decimal(n)` is the decimal numeral of `n`: digits only, with no leading
/// zero but for `0` itself, standing for `n`. So the index pointer of element
/// `i` names element `i`.
pub proof fn lemma_decimal(n: nat)
    ensures
        decimal(n).len() > 0,
        forall|i: int| 0 <= i < decimal(n).len() ==> is_digit(#[trigger] decimal(n)[i]),
        decimal(n)[0] == '0' ==> n == 0,
        numeral_value(decimal(n)) == n,
    decreases n,
{
    if n < 10 {
        lemma_digit_char(n);
        assert(seq![digit_char(n)].drop_last() =~= Seq::<char>::empty());
        assert(numeral_value(Seq::<char>::empty()) == 0);
        assert(numeral_value(seq![digit_char(n)]) == numeral_value(Seq::<char>::empty()) * 10 + (
        digit_char(n) as int - '0' as int));
    } else {
        let q = n / 10;
        let r = n % 10;
        lemma_decimal(q);
        lemma_digit_char(r);
        let s = decimal(q).push(digit_char(r));
        assert(s.drop_last() =~= decimal(q));
        assert forall|i: int| 0 <= i < s.len() implies is_digit(#[trigger] s[i]) by {
            if i < decimal(q).len() {
                assert(s[i] == decimal(q)[i]);
            }
        }
        assert(q * 10 + r == n) by (nonlinear_arith)
            requires
                q == n / 10,
                r == n % 10,
        ;
        assert(q >= 1);
        assert(s.last() == digit_char(r));
        assert(numeral_value(s) == numeral_value(decimal(q)) * 10 + (digit_char(r) as int
            - '0' as int));
        assert(decimal(n) == s);
    }
}

/// A pointer one level below `p` is `p`, then a `/`, then the step: the
/// escaped key of an object entry, or the decimal index of an array element.
pub proof fn lemma_pointer_steps(p: Seq<char>, key: Seq<char>, index: nat)
    ensures
        child_pointer(p, key).len() == p.len() + 1 + pointer_token(key).len(),
        child_pointer(p, key).subrange(0, p.len() as int) == p,
        child_pointer(p, key)[p.len() as int] == '/',
        child_pointer(p, key).subrange(p.len() as int + 1, child_pointer(p, key).len() as int)
            == pointer_token(key),
        index_pointer(p, index).len() == p.len() + 1 + decimal(index).len(),
        index_pointer(p, index).subrange(0, p.len() as int) == p,
        index_pointer(p, index)[p.len() as int] == '/',
        numeral_value(
            index_pointer(p, index).subrange(p.len() as int + 1, index_pointer(p, index).len() as int),
        ) == index,
{
    let c = child_pointer(p, key);
    assert(c.subrange(0, p.len() as int) =~= p);
    assert(c.subrange(p.len() as int + 1, c.len() as int) =~= pointer_token(key));
    let x = index_pointer(p, index);
    assert(x.subrange(0, p.len() as int) =~= p);
    assert(x.subrange(p.len() as int + 1, x.len() as int) =~= decimal(index));
    lemma_decimal(index);
}

} // verus!
