use vstd::prelude::*;

use crate::error::{SrtError, SRT_EINVOP};

verus! {

/// Lifecycle states that the engine reports for a socket.
#[derive(Clone, Copy, Debug, PartialEq, Eq, Structural)]
pub enum SrtSocketStatus {
    Init,
    Opened,
    Listening,
    Connecting,
    Connected,
    Broken,
    Closing,
    Closed,
    NonExist,
}

/// Native status code of each state, as the engine numbers them.
pub open spec fn status_code(s: SrtSocketStatus) -> i32 {
    match s {
        SrtSocketStatus::Init => 1,
        SrtSocketStatus::Opened => 2,
        SrtSocketStatus::Listening => 3,
        SrtSocketStatus::Connecting => 4,
        SrtSocketStatus::Connected => 5,
        SrtSocketStatus::Broken => 6,
        SrtSocketStatus::Closing => 7,
        SrtSocketStatus::Closed => 8,
        SrtSocketStatus::NonExist => 9,
    }
}

/// Operations of the socket lifecycle.
#[derive(Clone, Copy, Debug, PartialEq, Eq, Structural)]
pub enum SocketOp {
    Bind,
    Listen,
    Connect,
    Rendezvous,
    Accept,
    Send,
    Recv,
    Close,
}

/// A state that no operation leaves: the socket is gone.
pub open spec fn is_terminal(s: SrtSocketStatus) -> bool {
    s == SrtSocketStatus::Closed || s == SrtSocketStatus::NonExist
}

/// The transition table: the state that `op` leads to from `s`, or `None`
/// where `op` is not allowed in `s`. Connecting (plain or rendezvous) is
/// allowed from `Init` as well, where the engine binds the socket itself.
/// Accepting leaves the listener listening; data transfer leaves a connected
/// socket connected.
pub open spec fn transition(s: SrtSocketStatus, op: SocketOp) -> Option<SrtSocketStatus> {
    match op {
        SocketOp::Bind => if s == SrtSocketStatus::Init {
            Some(SrtSocketStatus::Opened)
        } else {
            None
        },
        SocketOp::Listen => if s == SrtSocketStatus::Opened {
            Some(SrtSocketStatus::Listening)
        } else {
            None
        },
        SocketOp::Connect | SocketOp::Rendezvous => if s == SrtSocketStatus::Init || s
            == SrtSocketStatus::Opened {
            Some(SrtSocketStatus::Connecting)
        } else {
            None
        },
        SocketOp::Accept => if s == SrtSocketStatus::Listening {
            Some(SrtSocketStatus::Listening)
        } else {
            None
        },
        SocketOp::Send | SocketOp::Recv => if s == SrtSocketStatus::Connected {
            Some(SrtSocketStatus::Connected)
        } else {
            None
        },
        SocketOp::Close => if is_terminal(s) {
            None
        } else {
            Some(SrtSocketStatus::Closed)
        },
    }
}

/// The result of applying `op` in state `s`, with the state after it.
pub open spec fn apply_spec(s: SrtSocketStatus, op: SocketOp) -> (
    Result<(), SrtError>,
    SrtSocketStatus,
) {
    match transition(s, op) {
        Some(next) => (Ok(()), next),
        None => (Err(SrtError::InvalidOperationForState(SRT_EINVOP)), s),
    }
}

impl SrtSocketStatus {
    /// Reads a native status code; a code outside the engine's numbering is
    /// an error that keeps the code.
    pub fn from_code(code: i32) -> (r: Result<SrtSocketStatus, SrtError>)
        ensures
            match r {
                Ok(s) => status_code(s) == code,
                Err(e) => (forall|s: SrtSocketStatus| status_code(s) != code) && e
                    == SrtError::NativeProtocolError(code),
            },
    {
        if code == 1 {
            Ok(SrtSocketStatus::Init)
        } else if code == 2 {
            Ok(SrtSocketStatus::Opened)
        } else if code == 3 {
            Ok(SrtSocketStatus::Listening)
        } else if code == 4 {
            Ok(SrtSocketStatus::Connecting)
        } else if code == 5 {
            Ok(SrtSocketStatus::Connected)
        } else if code == 6 {
            Ok(SrtSocketStatus::Broken)
        } else if code == 7 {
            Ok(SrtSocketStatus::Closing)
        } else if code == 8 {
            Ok(SrtSocketStatus::Closed)
        } else if code == 9 {
            Ok(SrtSocketStatus::NonExist)
        } else {
            Err(SrtError::NativeProtocolError(code))
        }
    }

    /// Applies `op` to the state. An operation outside the transition table
    /// is refused with `InvalidOperationForState` and leaves the state as it was.
    pub fn apply(&mut self, op: SocketOp) -> (r: Result<(), SrtError>)
        ensures
            (r, *final(self)) == apply_spec(*old(self), op),
    {
        let s = *self;
        let next = match op {
            SocketOp::Bind => if s == SrtSocketStatus::Init {
                Some(SrtSocketStatus::Opened)
            } else {
                None
            },
            SocketOp::Listen => if s == SrtSocketStatus::Opened {
                Some(SrtSocketStatus::Listening)
            } else {
                None
            },
            SocketOp::Connect | SocketOp::Rendezvous => if s == SrtSocketStatus::Init || s
                == SrtSocketStatus::Opened {
                Some(SrtSocketStatus::Connecting)
            } else {
                None
            },
            SocketOp::Accept => if s == SrtSocketStatus::Listening {
                Some(SrtSocketStatus::Listening)
            } else {
                None
            },
            SocketOp::Send | SocketOp::Recv => if s == SrtSocketStatus::Connected {
                Some(SrtSocketStatus::Connected)
            } else {
                None
            },
            SocketOp::Close => if s == SrtSocketStatus::Closed || s == SrtSocketStatus::NonExist {
                None
            } else {
                Some(SrtSocketStatus::Closed)
            },
        };
        match next {
            Some(t) => {
                *self = t;
                Ok(())
            },
            None => Err(SrtError::InvalidOperationForState(SRT_EINVOP)),
        }
    }
}

/// An operation outside the transition table, applied to any state, is
/// refused with `InvalidOperationForState` and the state stays as it was.
pub proof fn lemma_illegal_op_keeps_state(s: SrtSocketStatus, op: SocketOp)
    requires
        transition(s, op) is None,
    ensures
        apply_spec(s, op) == (
        Err::<(), SrtError>(SrtError::InvalidOperationForState(SRT_EINVOP)),
        s,
        ),
{
}

/// Once a socket is closed, every further operation on it is refused.
pub proof fn lemma_closed_refuses_all(op: SocketOp)
    ensures
        transition(SrtSocketStatus::Closed, op) is None,
        transition(SrtSocketStatus::NonExist, op) is None,
{
}

/// Closing is allowed from every state that is not terminal, and always
/// leads to `Closed`.
pub proof fn lemma_close_from_any_live_state(s: SrtSocketStatus)
    requires
        !is_terminal(s),
    ensures
        transition(s, SocketOp::Close) == Some(SrtSocketStatus::Closed),
{
}

} // verus!
