//! The errors of schema checks and statement parsing, with their messages.
use vstd::prelude::*;

verus! {

/// What a check comes to: its result, or `Aborted` where the check meets input
/// that it cannot handle and gives up by panicking.
pub enum Outcome<T> {
    Done(T),
    Aborted,
}

/// Why a store schema was refused.
#[derive(Debug, PartialEq, Eq)]
pub enum SchemaError {
    InvalidSchema(String),
    MalformedSchema,
    InvalidPropNaming { expected: String, found: String },
    TypeDeclarationWrong(String),
    MalformedPropertyDeclaration,
    UnknownObject(String),
}

/// The mathematical value of a `SchemaError`.
pub enum SchemaErrorModel {
    InvalidSchema(Seq<char>),
    MalformedSchema,
    InvalidPropNaming { expected: Seq<char>, found: Seq<char> },
    TypeDeclarationWrong(Seq<char>),
    MalformedPropertyDeclaration,
    UnknownObject(Seq<char>),
}

impl View for SchemaError {
    type V = SchemaErrorModel;

    open spec fn view(&self) -> SchemaErrorModel {
        match self {
            SchemaError::InvalidSchema(s) => SchemaErrorModel::InvalidSchema(s@),
            SchemaError::MalformedSchema => SchemaErrorModel::MalformedSchema,
            SchemaError::InvalidPropNaming { expected, found } => SchemaErrorModel::InvalidPropNaming {
                expected: expected@,
                found: found@,
            },
            SchemaError::TypeDeclarationWrong(s) => SchemaErrorModel::TypeDeclarationWrong(s@),
            SchemaError::MalformedPropertyDeclaration => SchemaErrorModel::MalformedPropertyDeclaration,
            SchemaError::UnknownObject(s) => SchemaErrorModel::UnknownObject(s@),
        }
    }
}

/// Why a statement was refused.
#[derive(Debug, Clone, PartialEq, Eq)]
pub enum StatementError {
    InvalidStatement(String),
    UnknownCommand(String),
    NoDatabaseSelected,
    NoStoreSelected,
    NoStoreSchemaProvided(String),
    DatabaseExists(String),
    StoreExists(String),
    SchemaError(String),
    NoArgumentWhileGet,
}

/// The mathematical value of a `StatementError`.
pub enum StatementErrorModel {
    InvalidStatement(Seq<char>),
    UnknownCommand(Seq<char>),
    NoDatabaseSelected,
    NoStoreSelected,
    NoStoreSchemaProvided(Seq<char>),
    DatabaseExists(Seq<char>),
    StoreExists(Seq<char>),
    SchemaError(Seq<char>),
    NoArgumentWhileGet,
}

impl View for StatementError {
    type V = StatementErrorModel;

    open spec fn view(&self) -> StatementErrorModel {
        match self {
            StatementError::InvalidStatement(s) => StatementErrorModel::InvalidStatement(s@),
            StatementError::UnknownCommand(s) => StatementErrorModel::UnknownCommand(s@),
            StatementError::NoDatabaseSelected => StatementErrorModel::NoDatabaseSelected,
            StatementError::NoStoreSelected => StatementErrorModel::NoStoreSelected,
            StatementError::NoStoreSchemaProvided(s) => StatementErrorModel::NoStoreSchemaProvided(s@),
            StatementError::DatabaseExists(s) => StatementErrorModel::DatabaseExists(s@),
            StatementError::StoreExists(s) => StatementErrorModel::StoreExists(s@),
            StatementError::SchemaError(s) => StatementErrorModel::SchemaError(s@),
            StatementError::NoArgumentWhileGet => StatementErrorModel::NoArgumentWhileGet,
        }
    }
}

/// The text that `format!("{:?}", s)` writes for a string `s`: quoted, with
/// quotes, backslashes and control characters escaped.
pub uninterp spec fn debug_text(s: Seq<char>) -> Seq<char>;

/// Calls `<str as Debug>::fmt` through `format!("{:?}", s)`. The result is named
/// `debug_text(s)`; std's escaping rules are not restated here.
#[verifier::external_body]
fn debug_quoted(s: &str) -> (r: String)
    ensures
        r@ == debug_text(s@),
{
    format!("{:?}", s)
}

/// The message of a schema error.
pub open spec fn schema_error_text(e: SchemaErrorModel) -> Seq<char> {
    match e {
        SchemaErrorModel::InvalidSchema(s) => "invalid schema provided `"@ + s + "`"@,
        SchemaErrorModel::MalformedSchema => "malformed schema"@,
        SchemaErrorModel::InvalidPropNaming { expected, found } => "invalid naming (expected "@
            + debug_text(expected) + ", outcome "@ + debug_text(found) + ")"@,
        SchemaErrorModel::TypeDeclarationWrong(s) => "invalid type declaration for field `"@ + s
            + "`"@,
        SchemaErrorModel::MalformedPropertyDeclaration => "invalid declaration of properties"@,
        SchemaErrorModel::UnknownObject(s) => "unknown object `"@ + s + "`"@,
    }
}

/// The message of a statement error.
pub open spec fn statement_error_text(e: StatementErrorModel) -> Seq<char> {
    match e {
        StatementErrorModel::InvalidStatement(s) => "invalid statement provided `"@ + s + "`"@,
        StatementErrorModel::UnknownCommand(s) => "unknown command `"@ + s + "`"@,
        StatementErrorModel::NoDatabaseSelected => "no database selected"@,
        StatementErrorModel::NoStoreSelected => "no store selected"@,
        StatementErrorModel::NoStoreSchemaProvided(s) => "no store schema provided for `"@ + s
            + "`"@,
        StatementErrorModel::DatabaseExists(s) => "database already exists `"@ + s + "`"@,
        StatementErrorModel::StoreExists(s) => "store already exists `"@ + s + "`"@,
        StatementErrorModel::SchemaError(s) => "schema error "@ + s,
        StatementErrorModel::NoArgumentWhileGet =>
            "no argument is provided. must be a type of keyValue pair where key is either command or store prop"@,
    }
}

/// `head`, then `middle`, then `tail`.
fn enclose(head: &str, middle: &str, tail: &str) -> (r: String)
    ensures
        r@ == head@ + middle@ + tail@,
{
    let mut r = String::from_str(head);
    r.append(middle);
    r.append(tail);
    r
}

impl SchemaError {
    /// The message that describes this error.
    pub fn message(&self) -> (r: String)
        ensures
            r@ == schema_error_text(self@),
    {
        match self {
            SchemaError::InvalidSchema(s) => enclose("invalid schema provided `", s.as_str(), "`"),
            SchemaError::MalformedSchema => String::from_str("malformed schema"),
            SchemaError::InvalidPropNaming { expected, found } => {
                let mut r = enclose(
                    "invalid naming (expected ",
                    debug_quoted(expected.as_str()).as_str(),
                    ", outcome ",
                );
                r.append(debug_quoted(found.as_str()).as_str());
                r.append(")");
                r
            },
            SchemaError::TypeDeclarationWrong(s) => enclose(
                "invalid type declaration for field `",
                s.as_str(),
                "`",
            ),
            SchemaError::MalformedPropertyDeclaration => String::from_str(
                "invalid declaration of properties",
            ),
            SchemaError::UnknownObject(s) => enclose("unknown object `", s.as_str(), "`"),
        }
    }
}

impl StatementError {
    /// The message that describes this error.
    pub fn message(&self) -> (r: String)
        ensures
            r@ == statement_error_text(self@),
    {
        match self {
            StatementError::InvalidStatement(s) => enclose(
                "invalid statement provided `",
                s.as_str(),
                "`",
            ),
            StatementError::UnknownCommand(s) => enclose("unknown command `", s.as_str(), "`"),
            StatementError::NoDatabaseSelected => String::from_str("no database selected"),
            StatementError::NoStoreSelected => String::from_str("no store selected"),
            StatementError::NoStoreSchemaProvided(s) => enclose(
                "no store schema provided for `",
                s.as_str(),
                "`",
            ),
            StatementError::DatabaseExists(s) => enclose(
                "database already exists `",
                s.as_str(),
                "`",
            ),
            StatementError::StoreExists(s) => enclose("store already exists `", s.as_str(), "`"),
            StatementError::SchemaError(s) => {
                let mut r = String::from_str("schema error ");
                r.append(s.as_str());
                r
            },
            StatementError::NoArgumentWhileGet => String::from_str(
                "no argument is provided. must be a type of keyValue pair where key is either command or store prop",
            ),
        }
    }
}

} // verus!
