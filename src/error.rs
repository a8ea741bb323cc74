use vstd::prelude::*;

verus! {

/// Native error code: no error recorded.
pub const SRT_SUCCESS: i32 = 0;
/// Native error code: connection setup failure.
pub const SRT_ECONNSETUP: i32 = 1000;
/// Native error code: the peer did not respond.
pub const SRT_ENOSERVER: i32 = 1001;
/// Native error code: the peer rejected the connection.
pub const SRT_ECONNREJ: i32 = 1002;
/// Native error code: a socket could not be created or configured.
pub const SRT_ESOCKFAIL: i32 = 1003;
/// Native error code: security (handshake) failure.
pub const SRT_ESECFAIL: i32 = 1004;
/// Native error code: the socket was closed during the operation.
pub const SRT_ESCLOSED: i32 = 1005;
/// Native error code: connection failure.
pub const SRT_ECONNFAIL: i32 = 2000;
/// Native error code: the connection was lost.
pub const SRT_ECONNLOST: i32 = 2001;
/// Native error code: the socket is not connected (yet, or any more).
pub const SRT_ENOCONN: i32 = 2002;
/// Native error code: system resources are exhausted.
pub const SRT_ERESOURCE: i32 = 3000;
/// Native error code: a worker thread could not be started.
pub const SRT_ETHREAD: i32 = 3001;
/// Native error code: no buffer space could be allocated.
pub const SRT_ENOBUF: i32 = 3002;
/// Native error code: the operation is not valid for the socket.
pub const SRT_EINVOP: i32 = 5000;
/// Native error code: the socket is already bound.
pub const SRT_EBOUNDSOCK: i32 = 5001;
/// Native error code: the socket is already connected.
pub const SRT_ECONNSOCK: i32 = 5002;
/// Native error code: an invalid parameter was passed.
pub const SRT_EINVPARAM: i32 = 5003;
/// Native error code: the socket identifier is not known to the engine.
pub const SRT_EINVSOCK: i32 = 5004;
/// Native error code: the socket is not bound.
pub const SRT_EUNBOUNDSOCK: i32 = 5005;
/// Native error code: the socket is not listening.
pub const SRT_ENOLISTEN: i32 = 5006;
/// Native error code: rendezvous mode forbids the operation.
pub const SRT_ERDVNOSERV: i32 = 5007;
/// Native error code: rendezvous on an unbound socket.
pub const SRT_ERDVUNBOUND: i32 = 5008;
/// Native error code: the socket already listens.
pub const SRT_EDUPLISTEN: i32 = 5011;
/// Native error code: a non-blocking send would block.
pub const SRT_EASYNCSND: i32 = 6001;
/// Native error code: a non-blocking receive would block, or a receive timed out.
pub const SRT_EASYNCRCV: i32 = 6002;
/// Native error code: the operation timed out.
pub const SRT_ETIMEOUT: i32 = 6003;

/// Why a connection attempt was rejected, as the engine reports it.
#[derive(Clone, Copy, Debug, PartialEq, Eq, Structural)]
pub enum SrtRejectReason {
    Unknown,
    System,
    Peer,
    Resource,
    Rogue,
    Backlog,
    Ipe,
    Close,
    Version,
    RdvCookie,
    BadSecret,
    Unsecure,
    MessageApi,
    Congestion,
    Filter,
    Group,
    Timeout,
    /// A code in the range that the engine reserves for predefined
    /// application reasons (1000 to 1999); the raw code is kept.
    Predefined(i32),
    /// A code in the range left to applications (2000 and up); the raw code is kept.
    UserDefined(i32),
    /// A code that no reason is assigned to; the raw code is kept.
    Other(i32),
}

/// The reason that a native reject code stands for.
pub open spec fn reject_reason_spec(code: i32) -> SrtRejectReason {
    if code == 0 { SrtRejectReason::Unknown }
    else if code == 1 { SrtRejectReason::System }
    else if code == 2 { SrtRejectReason::Peer }
    else if code == 3 { SrtRejectReason::Resource }
    else if code == 4 { SrtRejectReason::Rogue }
    else if code == 5 { SrtRejectReason::Backlog }
    else if code == 6 { SrtRejectReason::Ipe }
    else if code == 7 { SrtRejectReason::Close }
    else if code == 8 { SrtRejectReason::Version }
    else if code == 9 { SrtRejectReason::RdvCookie }
    else if code == 10 { SrtRejectReason::BadSecret }
    else if code == 11 { SrtRejectReason::Unsecure }
    else if code == 12 { SrtRejectReason::MessageApi }
    else if code == 13 { SrtRejectReason::Congestion }
    else if code == 14 { SrtRejectReason::Filter }
    else if code == 15 { SrtRejectReason::Group }
    else if code == 16 { SrtRejectReason::Timeout }
    else if 1000 <= code < 2000 { SrtRejectReason::Predefined(code) }
    else if code >= 2000 { SrtRejectReason::UserDefined(code) }
    else { SrtRejectReason::Other(code) }
}

/// The native code of a reject reason.
pub open spec fn reject_code_spec(r: SrtRejectReason) -> i32 {
    match r {
        SrtRejectReason::Unknown => 0,
        SrtRejectReason::System => 1,
        SrtRejectReason::Peer => 2,
        SrtRejectReason::Resource => 3,
        SrtRejectReason::Rogue => 4,
        SrtRejectReason::Backlog => 5,
        SrtRejectReason::Ipe => 6,
        SrtRejectReason::Close => 7,
        SrtRejectReason::Version => 8,
        SrtRejectReason::RdvCookie => 9,
        SrtRejectReason::BadSecret => 10,
        SrtRejectReason::Unsecure => 11,
        SrtRejectReason::MessageApi => 12,
        SrtRejectReason::Congestion => 13,
        SrtRejectReason::Filter => 14,
        SrtRejectReason::Group => 15,
        SrtRejectReason::Timeout => 16,
        SrtRejectReason::Predefined(c) => c,
        SrtRejectReason::UserDefined(c) => c,
        SrtRejectReason::Other(c) => c,
    }
}

impl SrtRejectReason {
    /// The reason for a native reject code; every code has one.
    pub fn from_code(code: i32) -> (r: SrtRejectReason)
        ensures
            r == reject_reason_spec(code),
    {
        if code == 0 { SrtRejectReason::Unknown }
        else if code == 1 { SrtRejectReason::System }
        else if code == 2 { SrtRejectReason::Peer }
        else if code == 3 { SrtRejectReason::Resource }
        else if code == 4 { SrtRejectReason::Rogue }
        else if code == 5 { SrtRejectReason::Backlog }
        else if code == 6 { SrtRejectReason::Ipe }
        else if code == 7 { SrtRejectReason::Close }
        else if code == 8 { SrtRejectReason::Version }
        else if code == 9 { SrtRejectReason::RdvCookie }
        else if code == 10 { SrtRejectReason::BadSecret }
        else if code == 11 { SrtRejectReason::Unsecure }
        else if code == 12 { SrtRejectReason::MessageApi }
        else if code == 13 { SrtRejectReason::Congestion }
        else if code == 14 { SrtRejectReason::Filter }
        else if code == 15 { SrtRejectReason::Group }
        else if code == 16 { SrtRejectReason::Timeout }
        else if 1000 <= code && code < 2000 { SrtRejectReason::Predefined(code) }
        else if code >= 2000 { SrtRejectReason::UserDefined(code) }
        else { SrtRejectReason::Other(code) }
    }

    /// The native code of this reason.
    pub fn code(&self) -> (c: i32)
        ensures
            c == reject_code_spec(*self),
    {
        match *self {
            SrtRejectReason::Unknown => 0,
            SrtRejectReason::System => 1,
            SrtRejectReason::Peer => 2,
            SrtRejectReason::Resource => 3,
            SrtRejectReason::Rogue => 4,
            SrtRejectReason::Backlog => 5,
            SrtRejectReason::Ipe => 6,
            SrtRejectReason::Close => 7,
            SrtRejectReason::Version => 8,
            SrtRejectReason::RdvCookie => 9,
            SrtRejectReason::BadSecret => 10,
            SrtRejectReason::Unsecure => 11,
            SrtRejectReason::MessageApi => 12,
            SrtRejectReason::Congestion => 13,
            SrtRejectReason::Filter => 14,
            SrtRejectReason::Group => 15,
            SrtRejectReason::Timeout => 16,
            SrtRejectReason::Predefined(c) => c,
            SrtRejectReason::UserDefined(c) => c,
            SrtRejectReason::Other(c) => c,
        }
    }
}

/// Reading a reject code as a reason loses nothing: the code can be read back.
pub proof fn lemma_reject_code_round_trip(code: i32)
    ensures
        reject_code_spec(reject_reason_spec(code)) == code,
{
}

/// The errors of the control layer. Those that come from the engine keep
/// the native error code they stand for.
#[derive(Clone, Copy, Debug, PartialEq, Eq, Structural)]
pub enum SrtError {
    /// An address specification resolved to no concrete address.
    AddressResolutionFailed,
    /// The engine reported success but handed back no usable address.
    BadAddress,
    /// The engine handed back an enumeration code outside its range.
    UnknownValue(i32),
    /// The engine could not allocate or set up a socket.
    SocketCreationFailed(i32),
    /// The operation is not allowed in the socket's current state.
    InvalidOperationForState(i32),
    /// The peer rejected a connection attempt, for the given reason.
    ConnectionRejected(SrtRejectReason),
    /// An established or pending connection failed or was closed under the caller.
    ConnectionBroken(i32),
    /// A blocking operation ran out of time, or a non-blocking one would block.
    Timeout(i32),
    /// A value does not have the width that its option is marshalled with.
    BufferTooSmall,
    /// A byte-string value is longer than its option accepts; it is refused
    /// rather than cut.
    ValueTruncated,
    /// Any other native error, with its code.
    NativeProtocolError(i32),
}

/// The error that a native error code stands for. `reject` is the reject
/// reason code that the engine reported with it; only a rejection reads it.
pub open spec fn error_spec(code: i32, reject: i32) -> SrtError {
    if code == SRT_ECONNREJ {
        SrtError::ConnectionRejected(reject_reason_spec(reject))
    } else if code == SRT_ESOCKFAIL || code == SRT_ERESOURCE || code == SRT_ETHREAD || code
        == SRT_ENOBUF {
        SrtError::SocketCreationFailed(code)
    } else if code == SRT_EINVOP || code == SRT_EBOUNDSOCK || code == SRT_ECONNSOCK || code
        == SRT_EUNBOUNDSOCK || code == SRT_ENOLISTEN || code == SRT_ERDVNOSERV || code
        == SRT_ERDVUNBOUND || code == SRT_EDUPLISTEN || code == SRT_ENOCONN {
        SrtError::InvalidOperationForState(code)
    } else if code == SRT_ECONNFAIL || code == SRT_ECONNLOST || code == SRT_ESCLOSED {
        SrtError::ConnectionBroken(code)
    } else if code == SRT_EASYNCSND || code == SRT_EASYNCRCV || code == SRT_ETIMEOUT {
        SrtError::Timeout(code)
    } else {
        SrtError::NativeProtocolError(code)
    }
}

impl SrtError {
    /// The error for a native error code (and the reject code reported with it).
    pub fn from_code(code: i32, reject: i32) -> (e: SrtError)
        ensures
            e == error_spec(code, reject),
    {
        if code == SRT_ECONNREJ {
            SrtError::ConnectionRejected(SrtRejectReason::from_code(reject))
        } else if code == SRT_ESOCKFAIL || code == SRT_ERESOURCE || code == SRT_ETHREAD || code
            == SRT_ENOBUF {
            SrtError::SocketCreationFailed(code)
        } else if code == SRT_EINVOP || code == SRT_EBOUNDSOCK || code == SRT_ECONNSOCK || code
            == SRT_EUNBOUNDSOCK || code == SRT_ENOLISTEN || code == SRT_ERDVNOSERV || code
            == SRT_ERDVUNBOUND || code == SRT_EDUPLISTEN || code == SRT_ENOCONN {
            SrtError::InvalidOperationForState(code)
        } else if code == SRT_ECONNFAIL || code == SRT_ECONNLOST || code == SRT_ESCLOSED {
            SrtError::ConnectionBroken(code)
        } else if code == SRT_EASYNCSND || code == SRT_EASYNCRCV || code == SRT_ETIMEOUT {
            SrtError::Timeout(code)
        } else {
            SrtError::NativeProtocolError(code)
        }
    }
}

/// What a native call returned, with the side-channel codes that the caller
/// read right after a failure (`error_code` from the last-error channel,
/// `reject_code` from the reject-reason query). After a success the two
/// codes are not read.
#[derive(Clone, Copy, Debug, PartialEq, Eq, Structural)]
pub struct CallOutcome {
    pub result: i32,
    pub error_code: i32,
    pub reject_code: i32,
}

impl CallOutcome {
    /// A native call failed: it returned the sentinel (any negative value).
    pub open spec fn failed(self) -> bool {
        self.result < 0
    }

    /// The error that a failed call stands for.
    pub open spec fn error(self) -> SrtError {
        error_spec(self.error_code, self.reject_code)
    }
}

/// The one place where native results are read: a failed call gives its
/// error, any other gives `value`.
pub open spec fn handle_result_spec<T>(value: T, outcome: CallOutcome) -> Result<T, SrtError> {
    if outcome.failed() {
        Err(outcome.error())
    } else {
        Ok(value)
    }
}

/// Reads a native result.
pub fn handle_result<T>(value: T, outcome: CallOutcome) -> (r: Result<T, SrtError>)
    ensures
        r == handle_result_spec(value, outcome),
{
    if outcome.result < 0 {
        Err(SrtError::from_code(outcome.error_code, outcome.reject_code))
    } else {
        Ok(value)
    }
}

/// A connection attempt that the peer refused fails with the rejection and
/// its reason, never with a generic error.
pub proof fn lemma_rejection_keeps_reason(outcome: CallOutcome)
    requires
        outcome.failed(),
        outcome.error_code == SRT_ECONNREJ,
    ensures
        handle_result_spec((), outcome) == Err::<(), SrtError>(
            SrtError::ConnectionRejected(reject_reason_spec(outcome.reject_code)),
        ),
        reject_code_spec(reject_reason_spec(outcome.reject_code)) == outcome.reject_code,
{
}

/// An operation on an identifier that the engine no longer knows (a socket
/// closed through another path) fails with a native error that keeps the
/// code, never with a result that could be taken for success.
pub proof fn lemma_stale_handle_fails(outcome: CallOutcome)
    requires
        outcome.failed(),
        outcome.error_code == SRT_EINVSOCK,
    ensures
        handle_result_spec((), outcome) == Err::<(), SrtError>(
            SrtError::NativeProtocolError(SRT_EINVSOCK),
        ),
{
}

} // verus!
