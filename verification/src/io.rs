//! Reading from non-blocking sockets.
use vstd::prelude::*;

verus! {

#[verifier::external_type_specification]
#[verifier::external_body]
pub struct ExIoError(std::io::Error);

/// Calls `std::io::Error::kind` and tells whether the kind is
/// `ErrorKind::WouldBlock`. Which errors have that kind is decided by std and
/// the operating system; nothing is stated of it.
#[verifier::external_body]
fn would_block(e: &std::io::Error) -> bool {
    match e.kind() {
        std::io::ErrorKind::WouldBlock => true,
        _ => false,
    }
}

/// The result of a read on a non-blocking socket, given whether its error (if
/// any) is of the kind "would block": a read of `n` bytes gives `Some(n)`, a read
/// that would block gives `None`, and any other error is handed on unchanged.
pub fn read_outcome(r: std::io::Result<usize>, would_block: bool) -> (res: std::io::Result<
    Option<usize>,
>)
    ensures
        match r {
            Ok(n) => res == Ok::<Option<usize>, std::io::Error>(Some(n)),
            Err(e) => if would_block {
                res == Ok::<Option<usize>, std::io::Error>(None)
            } else {
                res == Err::<Option<usize>, std::io::Error>(e)
            },
        },
{
    match r {
        Ok(len) => Ok(Some(len)),
        Err(e) => {
            if would_block {
                Ok(None)
            } else {
                Err(e)
            }
        },
    }
}

/// The result of a read on a non-blocking socket, with "would block" turned
/// into `Ok(None)`: a read of `n` bytes gives `Some(n)`, and any other error is
/// handed on. Which errors would block is asked of the error itself
/// (`would_block`), and `read_outcome` settles the rest.
pub fn try_read(r: std::io::Result<usize>) -> (res: std::io::Result<Option<usize>>)
    ensures
        match r {
            Ok(n) => res == Ok::<Option<usize>, std::io::Error>(Some(n)),
            Err(e) => res == Ok::<Option<usize>, std::io::Error>(None) || res == Err::<
                Option<usize>,
                std::io::Error,
            >(e),
        },
{
    let blocked = match &r {
        Ok(_) => false,
        Err(e) => would_block(e),
    };
    read_outcome(r, blocked)
}

} // verus!
