//! The bookkeeping of a server connection: what its readiness events do to its
//! flags, and what becomes of its socket afterwards. The socket work itself
//! (reads, TLS records, registration with the poller) is the caller's.
use vstd::prelude::*;

verus! {

/// The events a connection registers for.
#[derive(Debug, Clone, Copy, PartialEq, Eq, Structural)]
pub enum Interest {
    Readable,
    Writable,
    ReadableWritable,
}

/// What becomes of a connection's socket once an event is handled.
#[derive(Debug, Clone, Copy, PartialEq, Eq, Structural)]
pub enum Settle {
    /// Register the socket again for further events.
    Reregister(Interest),
    /// Shut the socket down and take it off the poller.
    ShutDown,
}

/// How a read of TLS records from the socket went.
#[derive(Debug, Clone, Copy, PartialEq, Eq, Structural)]
pub enum TlsRead {
    /// Nothing to read yet.
    WouldBlock,
    /// The read failed.
    Failed,
    /// The peer closed the connection.
    Closed,
    /// Some bytes were read.
    Received,
}

/// What a listener's `accept` gave.
#[derive(Debug, Clone, Copy, PartialEq, Eq, Structural)]
pub enum AcceptEvent {
    /// A new connection.
    Accepted,
    /// No connection is waiting.
    WouldBlock,
    /// `accept` failed.
    Failed,
}

/// What to do after an `accept`.
#[derive(Debug, Clone, Copy, PartialEq, Eq, Structural)]
pub enum AcceptAction {
    /// Register the new connection under this token and accept again.
    Register(usize),
    /// Stop accepting until the listener is ready again.
    Stop,
    /// Stop accepting and report the error.
    Fail,
}

/// The counter and action after one accept step from the counter `n`: a new
/// connection gets the token `n` and the counter moves on; otherwise the loop
/// stops, with an error where `accept` failed.
pub open spec fn accept_next(n: int, ev: AcceptEvent) -> (int, AcceptAction) {
    match ev {
        AcceptEvent::Accepted => (n + 1, AcceptAction::Register(n as usize)),
        AcceptEvent::WouldBlock => (n, AcceptAction::Stop),
        AcceptEvent::Failed => (n, AcceptAction::Fail),
    }
}

/// The counter and the actions of an accept loop that starts from the counter
/// `n` and is handed the events `evs`, one step each, until a step stops it.
pub open spec fn accept_run(n: int, evs: Seq<AcceptEvent>) -> (int, Seq<AcceptAction>)
    decreases evs.len(),
{
    if evs.len() == 0 {
        (n, Seq::<AcceptAction>::empty())
    } else if evs[0] == AcceptEvent::Accepted {
        let rest = accept_run(n + 1, evs.drop_first());
        (rest.0, seq![AcceptAction::Register(n as usize)] + rest.1)
    } else {
        (accept_next(n, evs[0]).0, seq![accept_next(n, evs[0]).1])
    }
}

/// `k` accepted connections, then the event `last` that ends the loop.
pub open spec fn accepts_then(k: nat, last: AcceptEvent) -> Seq<AcceptEvent> {
    Seq::new(k, |i: int| AcceptEvent::Accepted).push(last)
}

/// The tokens from `lo` up to but not including `hi`.
pub open spec fn token_range(lo: int, hi: int) -> Set<int> {
    Set::new(|t: int| lo <= t < hi)
}

/// The actions of a loop that accepts `k` connections from the counter `n`,
/// one step each: each new connection gets the next token.
proof fn lemma_accepts(n: int, k: nat, last: AcceptEvent)
    requires
        last != AcceptEvent::Accepted,
    ensures
        accept_run(n, accepts_then(k, last)).0 == n + k,
        accept_run(n, accepts_then(k, last)).1.len() == k + 1,
        forall|i: int|
            0 <= i < k ==> #[trigger] accept_run(n, accepts_then(k, last)).1[i]
                == AcceptAction::Register((n + i) as usize),
        accept_run(n, accepts_then(k, last)).1[k as int] == accept_next(n + k, last).1,
    decreases k,
{
    let evs = accepts_then(k, last);
    if k > 0 {
        assert(evs.drop_first() =~= accepts_then((k - 1) as nat, last));
        lemma_accepts(n + 1, (k - 1) as nat, last);
        let rest = accept_run(n + 1, evs.drop_first());
        assert forall|i: int| 0 <= i < k implies #[trigger] accept_run(n, evs).1[i]
            == AcceptAction::Register((n + i) as usize) by {
            if i > 0 {
                assert(accept_run(n, evs).1[i] == rest.1[i - 1]);
            }
        }
    } else {
        assert(evs[0] == last);
    }
}

/// An accept loop that takes `k` connections and then meets an event `last`
/// that ends it (no connection waiting, or a failed `accept`): each step
/// registers the next token, so the tokens registered are `n0`, `n0 + 1`, ...,
/// `n0 + k - 1`, each once and in order; the counter ends at `n0 + k`; the loop
/// stops, reporting an error exactly where `accept` failed. Where every token
/// already in use (`open`) lies in `lo..n0`, no new token is one of them, none
/// of those entries is replaced, the tokens in use afterwards number
/// `open.len() + k` and all lie in `lo..n0 + k`.
pub proof fn lemma_accept_loop(n0: int, k: nat, last: AcceptEvent, open: Set<int>, lo: int)
    requires
        last != AcceptEvent::Accepted,
        open.finite(),
        lo <= n0,
        forall|t: int| open.contains(t) ==> lo <= t < n0,
    ensures
        accept_run(n0, accepts_then(k, last)).0 == n0 + k,
        accept_run(n0, accepts_then(k, last)).1.len() == k + 1,
        forall|i: int|
            0 <= i < k ==> #[trigger] accept_run(n0, accepts_then(k, last)).1[i]
                == AcceptAction::Register((n0 + i) as usize),
        accept_run(n0, accepts_then(k, last)).1[k as int] == (if last == AcceptEvent::WouldBlock {
            AcceptAction::Stop
        } else {
            AcceptAction::Fail
        }),
        open.disjoint(token_range(n0, n0 + k)),
        (open + token_range(n0, n0 + k)).len() == open.len() + k,
        forall|t: int| #[trigger] (open + token_range(n0, n0 + k)).contains(t) ==> lo <= t < n0 + k,
{
    lemma_accepts(n0, k, last);
    assert(token_range(n0, n0 + k) =~= vstd::set_lib::set_int_range(n0, n0 + k));
    vstd::set_lib::lemma_int_range(n0, n0 + k);
    vstd::set_lib::lemma_set_disjoint_lens(open, token_range(n0, n0 + k));
}

/// One step of a listener's accept loop: a new connection gets the next token
/// and the counter moves on; otherwise the loop stops, with an error where
/// `accept` failed.
pub fn accept_step(next_id: &mut usize, ev: AcceptEvent) -> (a: AcceptAction)
    requires
        ev == AcceptEvent::Accepted ==> *old(next_id) < usize::MAX,
    ensures
        (*final(next_id) as int, a) == accept_next(*old(next_id) as int, ev),
        match ev {
            AcceptEvent::Accepted => a == AcceptAction::Register(*old(next_id)) && *final(next_id)
                == *old(next_id) + 1,
            AcceptEvent::WouldBlock => a == AcceptAction::Stop && *final(next_id) == *old(next_id),
            AcceptEvent::Failed => a == AcceptAction::Fail && *final(next_id) == *old(next_id),
        },
{
    match ev {
        AcceptEvent::Accepted => {
            let token = *next_id;
            *next_id = token + 1;
            AcceptAction::Register(token)
        },
        AcceptEvent::WouldBlock => AcceptAction::Stop,
        AcceptEvent::Failed => AcceptAction::Fail,
    }
}

/// The flags of a server connection.
#[derive(Debug, Clone, Copy, PartialEq, Eq, Structural)]
pub struct ConnFlags {
    pub is_writable: bool,
    pub closing: bool,
    pub closed: bool,
}

/// The events to register for, from what the TLS session wants: both where it
/// wants to read and to write, writing where it wants only that, else reading.
pub open spec fn interest_wanted(wants_read: bool, wants_write: bool) -> Interest {
    if wants_read && wants_write {
        Interest::ReadableWritable
    } else if wants_write {
        Interest::Writable
    } else {
        Interest::Readable
    }
}

/// The events to register for, from what the TLS session wants.
pub fn interest_for(wants_read: bool, wants_write: bool) -> (i: Interest)
    ensures
        i == interest_wanted(wants_read, wants_write),
{
    if wants_read && wants_write {
        Interest::ReadableWritable
    } else if wants_write {
        Interest::Writable
    } else {
        Interest::Readable
    }
}

/// Whether a plain read of `nbytes` bytes means the peer has gone, so that the
/// socket is taken off the poller.
pub fn read_ends_connection(nbytes: usize) -> (r: bool)
    ensures
        r == (nbytes == 0),
{
    nbytes == 0
}

impl ConnFlags {
    /// The flags of a connection just accepted: not writable, not closing, open.
    pub fn new() -> (f: ConnFlags)
        ensures
            !f.is_writable && !f.closing && !f.closed,
    {
        ConnFlags { is_writable: false, closing: false, closed: false }
    }

    /// Whether the connection has been closed.
    pub fn is_closed(&self) -> (r: bool)
        ensures
            r == self.closed,
    {
        self.closed
    }

    /// The end of an event: a closing connection is shut down and marked
    /// closed; any other is registered again for `interest`.
    fn settle(&mut self, interest: Interest) -> (s: Settle)
        ensures
            final(self).is_writable == old(self).is_writable,
            final(self).closing == old(self).closing,
            final(self).closed == (old(self).closed || old(self).closing),
            s == (if old(self).closing {
                Settle::ShutDown
            } else {
                Settle::Reregister(interest)
            }),
    {
        if self.closing {
            self.closed = true;
            Settle::ShutDown
        } else {
            Settle::Reregister(interest)
        }
    }

    /// The end of an event on a plain connection: the socket is writable as the
    /// event says, a connection not writable stops closing, and the socket is
    /// then shut down or registered again for reading and writing.
    pub fn settle_plain(&mut self, writable: bool) -> (s: Settle)
        ensures
            final(self).is_writable == writable,
            final(self).closing == (old(self).closing && writable),
            final(self).closed == (old(self).closed || final(self).closing),
            s == (if final(self).closing {
                Settle::ShutDown
            } else {
                Settle::Reregister(Interest::ReadableWritable)
            }),
    {
        if writable {
            self.is_writable = true;
        } else {
            self.closing = false;
            self.is_writable = false;
        }
        self.settle(Interest::ReadableWritable)
    }

    /// After reading TLS records: a failed read or a closed peer starts
    /// closing; the result says whether the records read are to be processed.
    pub fn after_tls_read(&mut self, read: TlsRead) -> (process: bool)
        ensures
            final(self).is_writable == old(self).is_writable,
            final(self).closed == old(self).closed,
            final(self).closing == (old(self).closing || read == TlsRead::Failed || read
                == TlsRead::Closed),
            process == (read == TlsRead::Received),
    {
        match read {
            TlsRead::WouldBlock => false,
            TlsRead::Failed => {
                self.closing = true;
                false
            },
            TlsRead::Closed => {
                self.closing = true;
                false
            },
            TlsRead::Received => true,
        }
    }

    /// After processing TLS records: where processing failed (the alert having
    /// been written), the connection starts closing.
    pub fn after_tls_process(&mut self, processed: bool)
        ensures
            final(self).is_writable == old(self).is_writable,
            final(self).closed == old(self).closed,
            final(self).closing == (old(self).closing || !processed),
    {
        if !processed {
            self.closing = true;
        }
    }

    /// After writing TLS records to the socket: a failed write starts closing.
    pub fn after_tls_write(&mut self, written: bool)
        ensures
            final(self).is_writable == old(self).is_writable,
            final(self).closed == old(self).closed,
            final(self).closing == (old(self).closing || !written),
    {
        if !written {
            self.closing = true;
        }
    }

    /// The end of an event on a TLS connection: shut down where closing, else
    /// registered again for what the session wants.
    pub fn settle_tls(&mut self, wants_read: bool, wants_write: bool) -> (s: Settle)
        ensures
            final(self).is_writable == old(self).is_writable,
            final(self).closing == old(self).closing,
            final(self).closed == (old(self).closed || old(self).closing),
            s == (if old(self).closing {
                Settle::ShutDown
            } else {
                Settle::Reregister(interest_wanted(wants_read, wants_write))
            }),
    {
        let interest = interest_for(wants_read, wants_write);
        self.settle(interest)
    }
}

} // verus!
