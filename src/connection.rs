//! The decisions of a connection's lifecycle. The caller performs the network work
//! each decision asks for and hands the outcome back.
use crate::errors::{ErrorKind, LibError};
use vstd::prelude::*;

verus! {

/// Whether the background driver is still servicing the connection.
#[derive(Debug, Clone, Copy, PartialEq, Eq, Structural)]
pub enum ConnState {
    Open,
    Closed,
}

/// What the caller must do after a request to close.
#[derive(Debug, Clone, Copy, PartialEq, Eq, Structural)]
pub enum CloseAction {
    /// Abort the background driver task: this is the first close.
    AbortDriver,
    /// The driver was already aborted; nothing is left to do.
    Nothing,
}

/// The route of a statement to the server.
#[derive(Debug, Clone, Copy, PartialEq, Eq, Structural)]
pub enum ExecPath {
    /// A batch statement without parameters.
    Simple,
    /// A statement with bound parameters.
    Prepared,
}

/// The lifecycle of one connection; clones of a connection share one of these.
#[derive(Debug, Clone, Copy, PartialEq, Eq, Structural)]
pub struct Lifecycle {
    pub state: ConnState,
}

/// The lifecycle after a close.
pub open spec fn after_close(l: Lifecycle) -> Lifecycle {
    Lifecycle { state: ConnState::Closed }
}

/// What a close asks of the caller: to abort the driver the first time only.
pub open spec fn close_action(l: Lifecycle) -> CloseAction {
    if l.state == ConnState::Open {
        CloseAction::AbortDriver
    } else {
        CloseAction::Nothing
    }
}

/// Whether a request may be sent.
pub open spec fn admits(l: Lifecycle) -> bool {
    l.state == ConnState::Open
}

impl Lifecycle {
    /// The lifecycle of a connection just established, its driver running.
    pub fn open() -> (r: Lifecycle)
        ensures
            r.state == ConnState::Open,
    {
        Lifecycle { state: ConnState::Open }
    }

    /// Closes the connection, saying whether the driver task is to be aborted.
    pub fn close(&mut self) -> (r: CloseAction)
        ensures
            *final(self) == after_close(*old(self)),
            r == close_action(*old(self)),
    {
        let r = match self.state {
            ConnState::Open => CloseAction::AbortDriver,
            ConnState::Closed => CloseAction::Nothing,
        };
        self.state = ConnState::Closed;
        r
    }

    /// Lets a request through while the connection is open; after a close every
    /// request fails with a transport error.
    pub fn check_open(&self) -> (r: Result<(), LibError>)
        ensures
            r is Ok <==> admits(*self),
            r matches Err(e) ==> e.kind == ErrorKind::Transport,
    {
        match self.state {
            ConnState::Open => Ok(()),
            ConnState::Closed => Err(LibError::closed()),
        }
    }
}

/// Once closed, a connection admits no request, and closing it again changes
/// nothing and aborts nothing.
pub proof fn lemma_close_is_final(l: Lifecycle)
    ensures
        !admits(after_close(l)),
        after_close(after_close(l)) == after_close(l),
        close_action(after_close(l)) == CloseAction::Nothing,
{
}

/// The route of a statement: with parameters it is prepared, without it runs as a batch.
pub fn execute_path(n_params: usize) -> (r: ExecPath)
    ensures
        r == (if n_params > 0 {
            ExecPath::Prepared
        } else {
            ExecPath::Simple
        }),
{
    if n_params > 0 {
        ExecPath::Prepared
    } else {
        ExecPath::Simple
    }
}

/// The rows affected by the statements of a batch, given for each message of its
/// response the row count it completes with, if it is a completion.
pub open spec fn completed_rows(counts: Seq<Option<u64>>) -> nat
    decreases counts.len(),
{
    if counts.len() == 0 {
        0
    } else {
        completed_rows(counts.drop_last()) + match counts.last() {
            Some(n) => n as nat,
            None => 0,
        }
    }
}

/// The number of rows a batch affected, saturating at `u64::MAX`.
pub fn affected_rows(counts: &Vec<Option<u64>>) -> (r: u64)
    ensures
        r as nat == if completed_rows(counts@) > u64::MAX as nat {
            u64::MAX as nat
        } else {
            completed_rows(counts@)
        },
{
    let mut total: u64 = 0;
    let mut i: usize = 0;
    while i < counts.len()
        invariant
            i <= counts@.len(),
            total as nat == if completed_rows(counts@.subrange(0, i as int)) > u64::MAX as nat {
                u64::MAX as nat
            } else {
                completed_rows(counts@.subrange(0, i as int))
            },
        decreases counts@.len() - i,
    {
        assert(counts@.subrange(0, i + 1).drop_last() =~= counts@.subrange(0, i as int));
        match counts[i] {
            Some(n) => {
                total = total.saturating_add(n);
            },
            None => {},
        }
        i = i + 1;
    }
    assert(counts@.subrange(0, counts@.len() as int) =~= counts@);
    total
}

/// The single row a query must give: `NotFound` when it gave none or several.
pub fn single_row<T>(rows: Vec<T>) -> (r: Result<T, LibError>)
    ensures
        r is Ok <==> rows@.len() == 1,
        r matches Ok(x) ==> x == rows@[0],
        r matches Err(e) ==> e.kind == ErrorKind::NotFound,
{
    let n = rows.len();
    if n != 1 {
        return Err(LibError::not_found("exactly one row"));
    }
    let mut rows = rows;
    let x = rows.pop().unwrap();
    Ok(x)
}

} // verus!
