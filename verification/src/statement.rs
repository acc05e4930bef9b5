//! The statement language of the store, in the style of Redis commands:
//!
//! ```text
//! SHOW :*
//! GET :moss:product {"product_code":"A001"}
//! UPSERT :moss:product {....}
//! DELETE :moss:product {"product_code":"A001"}
//! CREATE :moss
//! CREATE :moss {"name":"person","primaryKey":"id","properties":{"id":"string"}}
//! DROP :moss
//! DROP :moss:product
//! TRUNCATE :moss:product
//! ```
//!
//! A statement is split at single spaces: the first token is the command, the
//! second names the database and store as `:db:store`, and the remaining tokens,
//! trimmed and joined with single spaces, are the statement's data.
use vstd::prelude::*;
use crate::errors::{Outcome, SchemaErrorModel, StatementError, StatementErrorModel, schema_error_text};
use crate::schema::{check_schema, schema_outcome};
use crate::text::{
    join_seq, join_strs, split_seq, split_str, str_eq, string_views, trim_seq, trim_str, views_of,
};

verus! {

/// The kinds of statement.
#[derive(Clone, Copy, Debug, PartialEq, Eq, Structural, PartialOrd, Ord)]
pub enum StatementType {
    Create,
    CreateDb,
    Get,
    Upsert,
    Delete,
    Drop,
    DropDb,
    DbList,
    Truncate,
}

/// A statement taken apart: its command (where known), the database and store
/// it names, and its data.
#[derive(Debug)]
pub struct ParsedStatement {
    pub cmd: Option<StatementType>,
    pub db: String,
    pub store: String,
    pub pbs_data: String,
}

/// The mathematical value of a `ParsedStatement`.
pub struct StatementModel {
    pub cmd: Option<StatementType>,
    pub db: Seq<char>,
    pub store: Seq<char>,
    pub data: Seq<char>,
}

impl View for ParsedStatement {
    type V = StatementModel;

    open spec fn view(&self) -> StatementModel {
        StatementModel { cmd: self.cmd, db: self.db@, store: self.store@, data: self.pbs_data@ }
    }
}

/// The statement kind that a command word names.
pub open spec fn keyword_command(word: Seq<char>) -> Option<StatementType> {
    if word == "SHOW"@ {
        Some(StatementType::DbList)
    } else if word == "GET"@ {
        Some(StatementType::Get)
    } else if word == "UPSERT"@ {
        Some(StatementType::Upsert)
    } else if word == "DELETE"@ {
        Some(StatementType::Delete)
    } else if word == "CREATE"@ {
        Some(StatementType::Create)
    } else if word == "CREATE-DB"@ {
        Some(StatementType::CreateDb)
    } else if word == "DROP"@ {
        Some(StatementType::Drop)
    } else if word == "DROP-DB"@ {
        Some(StatementType::DropDb)
    } else if word == "TRUNCATE"@ {
        Some(StatementType::Truncate)
    } else {
        None
    }
}

/// The statement kind of a command word, given the database, store and data it
/// comes with: `CREATE` of a database alone creates the database, and `DROP` of
/// a database alone drops it.
pub open spec fn command_of(
    word: Seq<char>,
    db: Seq<char>,
    store: Seq<char>,
    data: Seq<char>,
) -> Option<StatementType> {
    let word = if word == "CREATE"@ && db.len() > 0 && data.len() == 0 && store.len() == 0 {
        "CREATE-DB"@
    } else {
        word
    };
    let word = if word == "DROP"@ && db.len() > 0 && store.len() == 0 {
        "DROP-DB"@
    } else {
        word
    };
    keyword_command(word)
}

/// Every piece of `parts`, trimmed.
pub open spec fn trim_all(parts: Seq<Seq<char>>) -> Seq<Seq<char>> {
    parts.map_values(|t: Seq<char>| trim_seq(t))
}

/// The data of a statement: the tokens after the second, trimmed and joined
/// with single spaces.
pub open spec fn data_of(tokens: Seq<Seq<char>>) -> Seq<char> {
    if tokens.len() > 2 {
        join_seq(trim_all(tokens.subrange(2, tokens.len() as int)), " "@)
    } else {
        Seq::<char>::empty()
    }
}

/// The trimmed `k`-th piece of `target` split at `:`, where `target` is not empty
/// and has that many pieces.
pub open spec fn target_part(target: Seq<char>, k: int) -> Seq<char> {
    if target.len() > 0 && split_seq(target, ':').len() > k {
        trim_seq(split_seq(target, ':')[k])
    } else {
        Seq::<char>::empty()
    }
}

/// The statement that `tokens` make.
pub open spec fn statement_of_tokens(tokens: Seq<Seq<char>>) -> StatementModel {
    let word = if tokens.len() > 0 {
        trim_seq(tokens[0])
    } else {
        Seq::<char>::empty()
    };
    let target = if tokens.len() > 1 {
        trim_seq(tokens[1])
    } else {
        Seq::<char>::empty()
    };
    let data = data_of(tokens);
    let db = target_part(target, 1);
    let store = target_part(target, 2);
    StatementModel { cmd: command_of(word, db, store, data), db, store, data }
}

/// What the checks for the kind `cmd` make of the statement `p`.
pub open spec fn command_outcome(
    cmd: StatementType,
    p: StatementModel,
    stores: Seq<Seq<char>>,
) -> Outcome<Result<StatementModel, StatementErrorModel>> {
    match cmd {
        StatementType::Create => if p.data.len() == 0 {
            Outcome::Done(Err(StatementErrorModel::NoStoreSchemaProvided(p.store)))
        } else {
            match schema_outcome(p.data, stores) {
                Outcome::Aborted => Outcome::Aborted,
                Outcome::Done(Some(e)) => Outcome::Done(
                    Err(StatementErrorModel::SchemaError(schema_error_text(e))),
                ),
                Outcome::Done(None) => Outcome::Done(Ok(p)),
            }
        },
        StatementType::Get | StatementType::Delete => if p.store.len() == 0 {
            Outcome::Done(Err(StatementErrorModel::NoStoreSelected))
        } else if p.data.len() == 0 {
            Outcome::Done(Err(StatementErrorModel::NoArgumentWhileGet))
        } else {
            Outcome::Done(Ok(p))
        },
        StatementType::Upsert => if p.data.len() != 0 {
            Outcome::Done(Ok(p))
        } else if p.store.len() == 0 {
            Outcome::Done(Err(StatementErrorModel::NoStoreSelected))
        } else {
            Outcome::Aborted
        },
        StatementType::Drop | StatementType::Truncate => if p.store.len() == 0 {
            Outcome::Done(Err(StatementErrorModel::NoStoreSelected))
        } else if p.data.len() != 0 {
            Outcome::Done(Err(StatementErrorModel::UnknownCommand(p.data)))
        } else {
            Outcome::Done(Ok(p))
        },
        StatementType::CreateDb => if p.store.len() == 0 && p.data.len() == 0 {
            Outcome::Done(Ok(p))
        } else if p.store.len() == 0 {
            Outcome::Done(Err(StatementErrorModel::UnknownCommand(p.store)))
        } else if p.data.len() == 0 {
            Outcome::Done(Err(StatementErrorModel::UnknownCommand(p.data)))
        } else {
            Outcome::Done(Ok(p))
        },
        StatementType::DropDb | StatementType::DbList => if p.store.len() != 0 {
            Outcome::Done(Err(StatementErrorModel::UnknownCommand(p.store)))
        } else if p.data.len() != 0 {
            Outcome::Done(Err(StatementErrorModel::UnknownCommand(p.data)))
        } else {
            Outcome::Done(Ok(p))
        },
    }
}

/// What parsing the statement `st` comes to, where `stores` are the stores that
/// a schema may link to. An `UPSERT` of a store without data is not handled.
pub open spec fn stmt_outcome(st: Seq<char>, stores: Seq<Seq<char>>) -> Outcome<
    Result<StatementModel, StatementErrorModel>,
> {
    if st.len() == 0 {
        Outcome::Done(Err(StatementErrorModel::InvalidStatement(st)))
    } else {
        let tokens = split_seq(st, ' ');
        let p = statement_of_tokens(tokens);
        match p.cmd {
            None => Outcome::Done(Err(StatementErrorModel::UnknownCommand(tokens[0]))),
            Some(cmd) => if trim_seq(p.db).len() == 0 {
                Outcome::Done(Err(StatementErrorModel::NoDatabaseSelected))
            } else {
                command_outcome(cmd, p, stores)
            },
        }
    }
}

/// The value of a parse result.
pub open spec fn parsed_view(r: Result<ParsedStatement, StatementError>) -> Result<
    StatementModel,
    StatementErrorModel,
> {
    match r {
        Ok(p) => Ok(p@),
        Err(e) => Err(e@),
    }
}

/// The value of a parse outcome.
pub open spec fn parse_verdict(o: Outcome<Result<ParsedStatement, StatementError>>) -> Outcome<
    Result<StatementModel, StatementErrorModel>,
> {
    match o {
        Outcome::Done(r) => Outcome::Done(parsed_view(r)),
        Outcome::Aborted => Outcome::Aborted,
    }
}

/// The statement kind that a command word names.
fn command_for_word(word: &str) -> (r: Option<StatementType>)
    ensures
        r == keyword_command(word@),
{
    if str_eq(word, "SHOW") {
        Some(StatementType::DbList)
    } else if str_eq(word, "GET") {
        Some(StatementType::Get)
    } else if str_eq(word, "UPSERT") {
        Some(StatementType::Upsert)
    } else if str_eq(word, "DELETE") {
        Some(StatementType::Delete)
    } else if str_eq(word, "CREATE") {
        Some(StatementType::Create)
    } else if str_eq(word, "CREATE-DB") {
        Some(StatementType::CreateDb)
    } else if str_eq(word, "DROP") {
        Some(StatementType::Drop)
    } else if str_eq(word, "DROP-DB") {
        Some(StatementType::DropDb)
    } else if str_eq(word, "TRUNCATE") {
        Some(StatementType::Truncate)
    } else {
        None
    }
}

/// The trimmed `k`-th piece of `target` split at `:`.
fn target_piece(target: &str, k: usize) -> (r: String)
    ensures
        r@ == target_part(target@, k as int),
{
    if target.unicode_len() == 0 {
        return String::new();
    }
    let parts = split_str(target, ':');
    if parts.len() > k {
        assert(views_of(parts@)[k as int] == parts@[k as int]@);
        String::from_str(trim_str(parts[k]))
    } else {
        String::new()
    }
}

/// Takes a statement apart from its space-separated tokens.
pub fn parse_tokens(tokens: Vec<&str>) -> (p: ParsedStatement)
    ensures
        p@ == statement_of_tokens(views_of(tokens@)),
{
    let ghost toks = views_of(tokens@);
    let n = tokens.len();
    proof {
        reveal_strlit("");
    }
    let word: &str = if n > 0 {
        trim_str(tokens[0])
    } else {
        ""
    };
    let target: &str = if n > 1 {
        trim_str(tokens[1])
    } else {
        ""
    };
    assert(word@ == (if toks.len() > 0 { trim_seq(toks[0]) } else { Seq::<char>::empty() }));
    assert(target@ == (if toks.len() > 1 { trim_seq(toks[1]) } else { Seq::<char>::empty() }));
    let mut rest: Vec<&str> = Vec::new();
    let mut i: usize = 2;
    while i < n
        invariant
            n == tokens.len(),
            toks == views_of(tokens@),
            2 <= i,
            i <= n || n < 2,
            n < 2 ==> rest@.len() == 0,
            n >= 2 ==> views_of(rest@) == trim_all(toks.subrange(2, i as int)),
        decreases n - i,
    {
        let piece = trim_str(tokens[i]);
        let ghost before = rest@;
        rest.push(piece);
        proof {
            assert(views_of(rest@) =~= views_of(before).push(piece@));
            assert(trim_all(toks.subrange(2, i + 1)) =~= trim_all(toks.subrange(2, i as int)).push(
                trim_seq(toks[i as int]),
            ));
        }
        i = i + 1;
    }
    let data = join_strs(&rest, " ");
    proof {
        if n <= 2 {
            assert(views_of(rest@) =~= Seq::<Seq<char>>::empty());
            assert(data@ == data_of(toks));
        } else {
            assert(toks.subrange(2, n as int) == toks.subrange(2, toks.len() as int));
        }
    }
    assert(data@ == data_of(toks));
    let db = target_piece(target, 1);
    let store = target_piece(target, 2);
    let mut command = word;
    if str_eq(command, "CREATE") && db.unicode_len() > 0 && data.unicode_len() == 0
        && store.unicode_len() == 0 {
        command = "CREATE-DB";
    }
    if str_eq(command, "DROP") && db.unicode_len() > 0 && store.unicode_len() == 0 {
        command = "DROP-DB";
    }
    ParsedStatement { cmd: command_for_word(command), db, store, pbs_data: data }
}

/// The result of the checks for the kind `cmd` on the statement `p`.
fn check_command(cmd: StatementType, p: ParsedStatement, stores: &Vec<String>) -> (o: Outcome<
    Result<ParsedStatement, StatementError>,
>)
    requires
        p.cmd == Some(cmd),
    ensures
        parse_verdict(o) == command_outcome(cmd, p@, string_views(stores@)),
{
    let store_empty = p.store.unicode_len() == 0;
    let data_empty = p.pbs_data.unicode_len() == 0;
    match cmd {
        StatementType::Create => {
            if data_empty {
                return Outcome::Done(Err(StatementError::NoStoreSchemaProvided(p.store)));
            }
            match check_schema(p.pbs_data.as_str(), stores) {
                Outcome::Aborted => Outcome::Aborted,
                Outcome::Done(Err(e)) => Outcome::Done(Err(StatementError::SchemaError(e.message()))),
                Outcome::Done(Ok(())) => Outcome::Done(Ok(p)),
            }
        },
        StatementType::Get | StatementType::Delete => {
            if store_empty {
                return Outcome::Done(Err(StatementError::NoStoreSelected));
            }
            if data_empty {
                return Outcome::Done(Err(StatementError::NoArgumentWhileGet));
            }
            Outcome::Done(Ok(p))
        },
        StatementType::Upsert => {
            if !data_empty {
                return Outcome::Done(Ok(p));
            }
            if store_empty {
                return Outcome::Done(Err(StatementError::NoStoreSelected));
            }
            Outcome::Aborted
        },
        StatementType::Drop | StatementType::Truncate => {
            if store_empty {
                return Outcome::Done(Err(StatementError::NoStoreSelected));
            }
            if !data_empty {
                return Outcome::Done(Err(StatementError::UnknownCommand(p.pbs_data)));
            }
            Outcome::Done(Ok(p))
        },
        StatementType::CreateDb => {
            if store_empty && data_empty {
                return Outcome::Done(Ok(p));
            }
            if store_empty {
                return Outcome::Done(Err(StatementError::UnknownCommand(p.store)));
            }
            if data_empty {
                return Outcome::Done(Err(StatementError::UnknownCommand(p.pbs_data)));
            }
            Outcome::Done(Ok(p))
        },
        StatementType::DropDb | StatementType::DbList => {
            if !store_empty {
                return Outcome::Done(Err(StatementError::UnknownCommand(p.store)));
            }
            if !data_empty {
                return Outcome::Done(Err(StatementError::UnknownCommand(p.pbs_data)));
            }
            Outcome::Done(Ok(p))
        },
    }
}

/// Parses the statement `st`, where `stores` are the stores that the schema of
/// a `CREATE` may link to; `Aborted` for an `UPSERT` of a store without data
/// and for a schema whose `name` or `primaryKey` is not a string.
pub fn check_stmt(st: &str, stores: &Vec<String>) -> (o: Outcome<
    Result<ParsedStatement, StatementError>,
>)
    ensures
        parse_verdict(o) == stmt_outcome(st@, string_views(stores@)),
{
    if st.unicode_len() == 0 {
        return Outcome::Done(Err(StatementError::InvalidStatement(String::from_str(st))));
    }
    let tokens = split_str(st, ' ');
    assert(tokens@.len() > 0) by {
        assert(views_of(tokens@).len() == split_seq(st@, ' ').len());
        lemma_split_nonempty(st@, ' ');
    }
    let first = String::from_str(tokens[0]);
    assert(first@ == split_seq(st@, ' ')[0]) by {
        assert(views_of(tokens@)[0] == tokens@[0]@);
    }
    let parsed = parse_tokens(tokens);
    match parsed.cmd {
        None => Outcome::Done(Err(StatementError::UnknownCommand(first))),
        Some(cmd) => {
            if trim_str(parsed.db.as_str()).unicode_len() == 0 {
                return Outcome::Done(Err(StatementError::NoDatabaseSelected));
            }
            check_command(cmd, parsed, stores)
        },
    }
}

/// Parses the statement `st`, where `stores` are the stores that the schema of
/// a `CREATE` may link to.
pub fn parse_stmt(st: &str, stores: &Vec<String>) -> (r: Result<ParsedStatement, StatementError>)
    requires
        stmt_outcome(st@, string_views(stores@)) != Outcome::<
            Result<StatementModel, StatementErrorModel>,
        >::Aborted,
    ensures
        stmt_outcome(st@, string_views(stores@)) == Outcome::Done(parsed_view(r)),
{
    match check_stmt(st, stores) {
        Outcome::Done(r) => r,
        Outcome::Aborted => Err(StatementError::InvalidStatement(String::from_str(st))),
    }
}

/// Splitting always gives at least one piece.
pub proof fn lemma_split_nonempty(s: Seq<char>, sep: char)
    ensures
        split_seq(s, sep).len() >= 1,
    decreases s.len(),
{
    if s.len() > 0 {
        lemma_split_nonempty(s.drop_last(), sep);
    }
}

} // verus!
