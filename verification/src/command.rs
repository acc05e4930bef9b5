//! The handler that answers statements sent to the store over its socket.
use vstd::prelude::*;
use crate::errors::{Outcome, StatementError, StatementErrorModel};
use crate::memory::Memory;
use crate::statement::{check_stmt, stmt_outcome, StatementModel};
use crate::text::string_views;

verus! {

/// The answer to one statement: whether it was refused, why (or what became of
/// it), and the data it produced (JSON text).
#[derive(Debug)]
pub struct SocketResponse {
    pub err: bool,
    pub message: StatementError,
    pub data: String,
}

/// The statement handler, holding the in-memory cache `M` and the disk store `D`
/// that it works on.
pub struct Command<M, D> {
    pub mem: M,
    pub disk: D,
}

/// What the answer to the statement `stmt` says, where `stores` are the stores
/// on disk.
pub open spec fn response_for(
    stmt: Seq<char>,
    stores: Seq<Seq<char>>,
    err: bool,
    message: StatementErrorModel,
    data: Seq<char>,
) -> bool {
    &&& data == Seq::<char>::empty()
    &&& match stmt_outcome(stmt, stores) {
        Outcome::Done(Err(e)) => err && message == e,
        Outcome::Done(Ok(_)) => !err && message == StatementErrorModel::UnknownCommand("TODO"@),
        Outcome::Aborted => false,
    }
}

impl<D> Command<Memory, D> {
    /// A handler over a fresh cache and the disk store that was opened, or the
    /// error met in opening it.
    pub fn new<E>(disk: Result<D, E>) -> (r: Result<Self, E>)
        ensures
            match disk {
                Err(e) => r == Err::<Self, E>(e),
                Ok(d) => r matches Ok(c) && c.disk == d && c.mem.databases() == Set::<
                    Seq<char>,
                >::empty(),
            },
    {
        let mem = Memory::new();
        match disk {
            Err(e) => Err(e),
            Ok(d) => Ok(Command { mem, disk: d }),
        }
    }
}

impl<M, D> Command<M, D> {
    /// Answers the statement `stmt`: the parse error where it is refused. The
    /// statements that parse are not carried out yet; their answer says so.
    /// `stores` are the stores on disk, which a schema may link to.
    pub fn receive(&self, stmt: String, stores: &Vec<String>) -> (r: SocketResponse)
        requires
            stmt_outcome(stmt@, string_views(stores@)) != Outcome::<
                Result<StatementModel, StatementErrorModel>,
            >::Aborted,
        ensures
            response_for(stmt@, string_views(stores@), r.err, r.message@, r.data@),
    {
        match check_stmt(stmt.as_str(), stores) {
            Outcome::Done(Err(e)) => SocketResponse { err: true, message: e, data: String::new() },
            _ => SocketResponse {
                err: false,
                message: StatementError::UnknownCommand(String::from_str("TODO")),
                data: String::new(),
            },
        }
    }

    /// Answers the statement `stmt` as `receive` does, or `None` where the
    /// statement cannot be handled (an `UPSERT` of a store without data, a schema
    /// whose `name` or `primaryKey` is not a string).
    pub fn answer(&self, stmt: String, stores: &Vec<String>) -> (r: Option<SocketResponse>)
        ensures
            r is None == (stmt_outcome(stmt@, string_views(stores@)) == Outcome::<
                Result<StatementModel, StatementErrorModel>,
            >::Aborted),
            r matches Some(resp) ==> response_for(
                stmt@,
                string_views(stores@),
                resp.err,
                resp.message@,
                resp.data@,
            ),
    {
        match check_stmt(stmt.as_str(), stores) {
            Outcome::Aborted => None,
            Outcome::Done(Err(e)) => Some(SocketResponse { err: true, message: e, data: String::new() }),
            Outcome::Done(Ok(_)) => Some(
                SocketResponse {
                    err: false,
                    message: StatementError::UnknownCommand(String::from_str("TODO")),
                    data: String::new(),
                },
            ),
        }
    }
}

} // verus!
