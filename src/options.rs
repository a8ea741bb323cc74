use vstd::prelude::*;

use crate::error::{CallOutcome, SrtError, SRT_EINVOP};

verus! {

/// The longest byte string that a byte-string option accepts. A longer value
/// is refused as a whole (`ValueTruncated`), never cut short.
pub const MAX_OPTION_BYTES: usize = 512;

/// Width of a boolean option on the wire: the engine stores its flags as a
/// one-byte C++ `bool`.
pub const BOOL_WIDTH: usize = 1;

/// Key-material (encryption handshake) state.
#[derive(Clone, Copy, Debug, PartialEq, Eq, Structural)]
pub enum SrtKmState {
    Unsecured,
    Securing,
    Secured,
    NoSecret,
    BadSecret,
}

/// Transmission type; the engine numbers them `Live` 0, `File` 1, `Invalid` 2.
#[derive(Clone, Copy, Debug, PartialEq, Eq, Structural)]
pub enum SrtTransmissionType {
    Live,
    File,
    Invalid,
}

/// Congestion controller; the engine selects one by name.
#[derive(Clone, Copy, Debug, PartialEq, Eq, Structural)]
pub enum SrtCongestionController {
    Live,
    File,
}

/// The linger setting: whether closing waits, and for how many seconds.
#[derive(Clone, Copy, Debug, PartialEq, Eq, Structural)]
pub struct SrtLinger {
    pub enabled: bool,
    pub secs: i32,
}

/// The value type of an option.
#[derive(Clone, Copy, Debug, PartialEq, Eq, Structural)]
pub enum OptionType {
    Bool,
    Int32,
    Int64,
    Bytes,
    Linger,
    TransType,
    KmState,
}

/// Whether an option can be read, written, or both.
#[derive(Clone, Copy, Debug, PartialEq, Eq, Structural)]
pub enum Access {
    GetOnly,
    SetOnly,
    Both,
}

/// When an option may be written: only before the socket is bound or
/// connected (`Pre`), or at any time (`Post`). The engine enforces it.
#[derive(Clone, Copy, Debug, PartialEq, Eq, Structural)]
pub enum Phase {
    Pre,
    Post,
}

/// What the registry knows of one option.
#[derive(Clone, Copy, Debug, PartialEq, Eq, Structural)]
pub struct OptionDescriptor {
    /// The engine's identifier of the option.
    pub id: i32,
    pub kind: OptionType,
    pub access: Access,
    pub phase: Phase,
}

/// The options of a socket.
#[derive(Clone, Copy, Debug, PartialEq, Eq, Structural)]
pub enum SrtSockOpt {
    Mss,
    SndSyn,
    RcvSyn,
    Isn,
    Fc,
    SndBuf,
    RcvBuf,
    Linger,
    UdpSndBuf,
    UdpRcvBuf,
    Rendezvous,
    SndTimeo,
    RcvTimeo,
    ReuseAddr,
    MaxBw,
    Event,
    SndData,
    RcvData,
    Sender,
    TsbpdMode,
    Latency,
    InputBw,
    OheadBw,
    Passphrase,
    PbKeyLen,
    IpTtl,
    IpTos,
    TlPktDrop,
    SndDropDelay,
    NakReport,
    Version,
    PeerVersion,
    ConnTimeo,
    DriftTracer,
    SndKmState,
    RcvKmState,
    LossMaxTtl,
    RcvLatency,
    PeerLatency,
    MinVersion,
    StreamId,
    Congestion,
    MessageApi,
    PayloadSize,
    TransType,
    KmRefreshRate,
    KmPreAnnounce,
    EnforcedEncryption,
    Ipv6Only,
    PeerIdleTimeo,
    BindToDevice,
    PacketFilter,
    RetransmitAlgo,
}

/// The registry: the descriptor of each option.
pub open spec fn descriptor(o: SrtSockOpt) -> OptionDescriptor {
    match o {
        SrtSockOpt::Mss => OptionDescriptor {
            id: 0,
            kind: OptionType::Int32,
            access: Access::Both,
            phase: Phase::Pre,
        },
        SrtSockOpt::SndSyn => OptionDescriptor {
            id: 1,
            kind: OptionType::Bool,
            access: Access::Both,
            phase: Phase::Post,
        },
        SrtSockOpt::RcvSyn => OptionDescriptor {
            id: 2,
            kind: OptionType::Bool,
            access: Access::Both,
            phase: Phase::Pre,
        },
        SrtSockOpt::Isn => OptionDescriptor {
            id: 3,
            kind: OptionType::Int32,
            access: Access::GetOnly,
            phase: Phase::Post,
        },
        SrtSockOpt::Fc => OptionDescriptor {
            id: 4,
            kind: OptionType::Int32,
            access: Access::Both,
            phase: Phase::Pre,
        },
        SrtSockOpt::SndBuf => OptionDescriptor {
            id: 5,
            kind: OptionType::Int32,
            access: Access::Both,
            phase: Phase::Pre,
        },
        SrtSockOpt::RcvBuf => OptionDescriptor {
            id: 6,
            kind: OptionType::Int32,
            access: Access::Both,
            phase: Phase::Pre,
        },
        SrtSockOpt::Linger => OptionDescriptor {
            id: 7,
            kind: OptionType::Linger,
            access: Access::Both,
            phase: Phase::Pre,
        },
        SrtSockOpt::UdpSndBuf => OptionDescriptor {
            id: 8,
            kind: OptionType::Int32,
            access: Access::Both,
            phase: Phase::Pre,
        },
        SrtSockOpt::UdpRcvBuf => OptionDescriptor {
            id: 9,
            kind: OptionType::Int32,
            access: Access::Both,
            phase: Phase::Pre,
        },
        SrtSockOpt::Rendezvous => OptionDescriptor {
            id: 12,
            kind: OptionType::Bool,
            access: Access::Both,
            phase: Phase::Pre,
        },
        SrtSockOpt::SndTimeo => OptionDescriptor {
            id: 13,
            kind: OptionType::Int32,
            access: Access::Both,
            phase: Phase::Post,
        },
        SrtSockOpt::RcvTimeo => OptionDescriptor {
            id: 14,
            kind: OptionType::Int32,
            access: Access::Both,
            phase: Phase::Post,
        },
        SrtSockOpt::ReuseAddr => OptionDescriptor {
            id: 15,
            kind: OptionType::Bool,
            access: Access::Both,
            phase: Phase::Pre,
        },
        SrtSockOpt::MaxBw => OptionDescriptor {
            id: 16,
            kind: OptionType::Int64,
            access: Access::Both,
            phase: Phase::Pre,
        },
        SrtSockOpt::Event => OptionDescriptor {
            id: 18,
            kind: OptionType::Int32,
            access: Access::GetOnly,
            phase: Phase::Post,
        },
        SrtSockOpt::SndData => OptionDescriptor {
            id: 19,
            kind: OptionType::Int32,
            access: Access::GetOnly,
            phase: Phase::Post,
        },
        SrtSockOpt::RcvData => OptionDescriptor {
            id: 20,
            kind: OptionType::Int32,
            access: Access::GetOnly,
            phase: Phase::Post,
        },
        SrtSockOpt::Sender => OptionDescriptor {
            id: 21,
            kind: OptionType::Bool,
            access: Access::SetOnly,
            phase: Phase::Pre,
        },
        SrtSockOpt::TsbpdMode => OptionDescriptor {
            id: 22,
            kind: OptionType::Bool,
            access: Access::Both,
            phase: Phase::Pre,
        },
        SrtSockOpt::Latency => OptionDescriptor {
            id: 23,
            kind: OptionType::Int32,
            access: Access::Both,
            phase: Phase::Pre,
        },
        SrtSockOpt::InputBw => OptionDescriptor {
            id: 24,
            kind: OptionType::Int64,
            access: Access::Both,
            phase: Phase::Post,
        },
        SrtSockOpt::OheadBw => OptionDescriptor {
            id: 25,
            kind: OptionType::Int32,
            access: Access::Both,
            phase: Phase::Post,
        },
        SrtSockOpt::Passphrase => OptionDescriptor {
            id: 26,
            kind: OptionType::Bytes,
            access: Access::SetOnly,
            phase: Phase::Pre,
        },
        SrtSockOpt::PbKeyLen => OptionDescriptor {
            id: 27,
            kind: OptionType::Int32,
            access: Access::Both,
            phase: Phase::Pre,
        },
        SrtSockOpt::IpTtl => OptionDescriptor {
            id: 29,
            kind: OptionType::Int32,
            access: Access::Both,
            phase: Phase::Pre,
        },
        SrtSockOpt::IpTos => OptionDescriptor {
            id: 30,
            kind: OptionType::Int32,
            access: Access::Both,
            phase: Phase::Pre,
        },
        SrtSockOpt::TlPktDrop => OptionDescriptor {
            id: 31,
            kind: OptionType::Bool,
            access: Access::Both,
            phase: Phase::Pre,
        },
        SrtSockOpt::SndDropDelay => OptionDescriptor {
            id: 32,
            kind: OptionType::Int32,
            access: Access::Both,
            phase: Phase::Pre,
        },
        SrtSockOpt::NakReport => OptionDescriptor {
            id: 33,
            kind: OptionType::Bool,
            access: Access::Both,
            phase: Phase::Pre,
        },
        SrtSockOpt::Version => OptionDescriptor {
            id: 34,
            kind: OptionType::Int32,
            access: Access::GetOnly,
            phase: Phase::Post,
        },
        SrtSockOpt::PeerVersion => OptionDescriptor {
            id: 35,
            kind: OptionType::Int32,
            access: Access::GetOnly,
            phase: Phase::Post,
        },
        SrtSockOpt::ConnTimeo => OptionDescriptor {
            id: 36,
            kind: OptionType::Int32,
            access: Access::Both,
            phase: Phase::Pre,
        },
        SrtSockOpt::DriftTracer => OptionDescriptor {
            id: 37,
            kind: OptionType::Bool,
            access: Access::Both,
            phase: Phase::Post,
        },
        SrtSockOpt::SndKmState => OptionDescriptor {
            id: 40,
            kind: OptionType::KmState,
            access: Access::GetOnly,
            phase: Phase::Post,
        },
        SrtSockOpt::RcvKmState => OptionDescriptor {
            id: 41,
            kind: OptionType::KmState,
            access: Access::GetOnly,
            phase: Phase::Post,
        },
        SrtSockOpt::LossMaxTtl => OptionDescriptor {
            id: 42,
            kind: OptionType::Int32,
            access: Access::Both,
            phase: Phase::Pre,
        },
        SrtSockOpt::RcvLatency => OptionDescriptor {
            id: 43,
            kind: OptionType::Int32,
            access: Access::Both,
            phase: Phase::Pre,
        },
        SrtSockOpt::PeerLatency => OptionDescriptor {
            id: 44,
            kind: OptionType::Int32,
            access: Access::Both,
            phase: Phase::Pre,
        },
        SrtSockOpt::MinVersion => OptionDescriptor {
            id: 45,
            kind: OptionType::Int32,
            access: Access::Both,
            phase: Phase::Pre,
        },
        SrtSockOpt::StreamId => OptionDescriptor {
            id: 46,
            kind: OptionType::Bytes,
            access: Access::Both,
            phase: Phase::Pre,
        },
        SrtSockOpt::Congestion => OptionDescriptor {
            id: 47,
            kind: OptionType::Bytes,
            access: Access::Both,
            phase: Phase::Pre,
        },
        SrtSockOpt::MessageApi => OptionDescriptor {
            id: 48,
            kind: OptionType::Bool,
            access: Access::Both,
            phase: Phase::Pre,
        },
        SrtSockOpt::PayloadSize => OptionDescriptor {
            id: 49,
            kind: OptionType::Int32,
            access: Access::Both,
            phase: Phase::Pre,
        },
        SrtSockOpt::TransType => OptionDescriptor {
            id: 50,
            kind: OptionType::TransType,
            access: Access::SetOnly,
            phase: Phase::Pre,
        },
        SrtSockOpt::KmRefreshRate => OptionDescriptor {
            id: 51,
            kind: OptionType::Int32,
            access: Access::Both,
            phase: Phase::Pre,
        },
        SrtSockOpt::KmPreAnnounce => OptionDescriptor {
            id: 52,
            kind: OptionType::Int32,
            access: Access::Both,
            phase: Phase::Pre,
        },
        SrtSockOpt::EnforcedEncryption => OptionDescriptor {
            id: 53,
            kind: OptionType::Bool,
            access: Access::Both,
            phase: Phase::Pre,
        },
        SrtSockOpt::Ipv6Only => OptionDescriptor {
            id: 54,
            kind: OptionType::Int32,
            access: Access::Both,
            phase: Phase::Pre,
        },
        SrtSockOpt::PeerIdleTimeo => OptionDescriptor {
            id: 55,
            kind: OptionType::Int32,
            access: Access::Both,
            phase: Phase::Pre,
        },
        SrtSockOpt::BindToDevice => OptionDescriptor {
            id: 56,
            kind: OptionType::Bytes,
            access: Access::Both,
            phase: Phase::Pre,
        },
        SrtSockOpt::PacketFilter => OptionDescriptor {
            id: 60,
            kind: OptionType::Bytes,
            access: Access::Both,
            phase: Phase::Pre,
        },
        SrtSockOpt::RetransmitAlgo => OptionDescriptor {
            id: 61,
            kind: OptionType::Int32,
            access: Access::Both,
            phase: Phase::Pre,
        },
    }
}

impl SrtSockOpt {
    /// The descriptor of this option.
    pub fn descriptor(&self) -> (d: OptionDescriptor)
        ensures
            d == descriptor(*self),
    {
        match *self {
            SrtSockOpt::Mss => OptionDescriptor {
                id: 0,
                kind: OptionType::Int32,
                access: Access::Both,
                phase: Phase::Pre,
            },
            SrtSockOpt::SndSyn => OptionDescriptor {
                id: 1,
                kind: OptionType::Bool,
                access: Access::Both,
                phase: Phase::Post,
            },
            SrtSockOpt::RcvSyn => OptionDescriptor {
                id: 2,
                kind: OptionType::Bool,
                access: Access::Both,
                phase: Phase::Pre,
            },
            SrtSockOpt::Isn => OptionDescriptor {
                id: 3,
                kind: OptionType::Int32,
                access: Access::GetOnly,
                phase: Phase::Post,
            },
            SrtSockOpt::Fc => OptionDescriptor {
                id: 4,
                kind: OptionType::Int32,
                access: Access::Both,
                phase: Phase::Pre,
            },
            SrtSockOpt::SndBuf => OptionDescriptor {
                id: 5,
                kind: OptionType::Int32,
                access: Access::Both,
                phase: Phase::Pre,
            },
            SrtSockOpt::RcvBuf => OptionDescriptor {
                id: 6,
                kind: OptionType::Int32,
                access: Access::Both,
                phase: Phase::Pre,
            },
            SrtSockOpt::Linger => OptionDescriptor {
                id: 7,
                kind: OptionType::Linger,
                access: Access::Both,
                phase: Phase::Pre,
            },
            SrtSockOpt::UdpSndBuf => OptionDescriptor {
                id: 8,
                kind: OptionType::Int32,
                access: Access::Both,
                phase: Phase::Pre,
            },
            SrtSockOpt::UdpRcvBuf => OptionDescriptor {
                id: 9,
                kind: OptionType::Int32,
                access: Access::Both,
                phase: Phase::Pre,
            },
            SrtSockOpt::Rendezvous => OptionDescriptor {
                id: 12,
                kind: OptionType::Bool,
                access: Access::Both,
                phase: Phase::Pre,
            },
            SrtSockOpt::SndTimeo => OptionDescriptor {
                id: 13,
                kind: OptionType::Int32,
                access: Access::Both,
                phase: Phase::Post,
            },
            SrtSockOpt::RcvTimeo => OptionDescriptor {
                id: 14,
                kind: OptionType::Int32,
                access: Access::Both,
                phase: Phase::Post,
            },
            SrtSockOpt::ReuseAddr => OptionDescriptor {
                id: 15,
                kind: OptionType::Bool,
                access: Access::Both,
                phase: Phase::Pre,
            },
            SrtSockOpt::MaxBw => OptionDescriptor {
                id: 16,
                kind: OptionType::Int64,
                access: Access::Both,
                phase: Phase::Pre,
            },
            SrtSockOpt::Event => OptionDescriptor {
                id: 18,
                kind: OptionType::Int32,
                access: Access::GetOnly,
                phase: Phase::Post,
            },
            SrtSockOpt::SndData => OptionDescriptor {
                id: 19,
                kind: OptionType::Int32,
                access: Access::GetOnly,
                phase: Phase::Post,
            },
            SrtSockOpt::RcvData => OptionDescriptor {
                id: 20,
                kind: OptionType::Int32,
                access: Access::GetOnly,
                phase: Phase::Post,
            },
            SrtSockOpt::Sender => OptionDescriptor {
                id: 21,
                kind: OptionType::Bool,
                access: Access::SetOnly,
                phase: Phase::Pre,
            },
            SrtSockOpt::TsbpdMode => OptionDescriptor {
                id: 22,
                kind: OptionType::Bool,
                access: Access::Both,
                phase: Phase::Pre,
            },
            SrtSockOpt::Latency => OptionDescriptor {
                id: 23,
                kind: OptionType::Int32,
                access: Access::Both,
                phase: Phase::Pre,
            },
            SrtSockOpt::InputBw => OptionDescriptor {
                id: 24,
                kind: OptionType::Int64,
                access: Access::Both,
                phase: Phase::Post,
            },
            SrtSockOpt::OheadBw => OptionDescriptor {
                id: 25,
                kind: OptionType::Int32,
                access: Access::Both,
                phase: Phase::Post,
            },
            SrtSockOpt::Passphrase => OptionDescriptor {
                id: 26,
                kind: OptionType::Bytes,
                access: Access::SetOnly,
                phase: Phase::Pre,
            },
            SrtSockOpt::PbKeyLen => OptionDescriptor {
                id: 27,
                kind: OptionType::Int32,
                access: Access::Both,
                phase: Phase::Pre,
            },
            SrtSockOpt::IpTtl => OptionDescriptor {
                id: 29,
                kind: OptionType::Int32,
                access: Access::Both,
                phase: Phase::Pre,
            },
            SrtSockOpt::IpTos => OptionDescriptor {
                id: 30,
                kind: OptionType::Int32,
                access: Access::Both,
                phase: Phase::Pre,
            },
            SrtSockOpt::TlPktDrop => OptionDescriptor {
                id: 31,
                kind: OptionType::Bool,
                access: Access::Both,
                phase: Phase::Pre,
            },
            SrtSockOpt::SndDropDelay => OptionDescriptor {
                id: 32,
                kind: OptionType::Int32,
                access: Access::Both,
                phase: Phase::Pre,
            },
            SrtSockOpt::NakReport => OptionDescriptor {
                id: 33,
                kind: OptionType::Bool,
                access: Access::Both,
                phase: Phase::Pre,
            },
            SrtSockOpt::Version => OptionDescriptor {
                id: 34,
                kind: OptionType::Int32,
                access: Access::GetOnly,
                phase: Phase::Post,
            },
            SrtSockOpt::PeerVersion => OptionDescriptor {
                id: 35,
                kind: OptionType::Int32,
                access: Access::GetOnly,
                phase: Phase::Post,
            },
            SrtSockOpt::ConnTimeo => OptionDescriptor {
                id: 36,
                kind: OptionType::Int32,
                access: Access::Both,
                phase: Phase::Pre,
            },
            SrtSockOpt::DriftTracer => OptionDescriptor {
                id: 37,
                kind: OptionType::Bool,
                access: Access::Both,
                phase: Phase::Post,
            },
            SrtSockOpt::SndKmState => OptionDescriptor {
                id: 40,
                kind: OptionType::KmState,
                access: Access::GetOnly,
                phase: Phase::Post,
            },
            SrtSockOpt::RcvKmState => OptionDescriptor {
                id: 41,
                kind: OptionType::KmState,
                access: Access::GetOnly,
                phase: Phase::Post,
            },
            SrtSockOpt::LossMaxTtl => OptionDescriptor {
                id: 42,
                kind: OptionType::Int32,
                access: Access::Both,
                phase: Phase::Pre,
            },
            SrtSockOpt::RcvLatency => OptionDescriptor {
                id: 43,
                kind: OptionType::Int32,
                access: Access::Both,
                phase: Phase::Pre,
            },
            SrtSockOpt::PeerLatency => OptionDescriptor {
                id: 44,
                kind: OptionType::Int32,
                access: Access::Both,
                phase: Phase::Pre,
            },
            SrtSockOpt::MinVersion => OptionDescriptor {
                id: 45,
                kind: OptionType::Int32,
                access: Access::Both,
                phase: Phase::Pre,
            },
            SrtSockOpt::StreamId => OptionDescriptor {
                id: 46,
                kind: OptionType::Bytes,
                access: Access::Both,
                phase: Phase::Pre,
            },
            SrtSockOpt::Congestion => OptionDescriptor {
                id: 47,
                kind: OptionType::Bytes,
                access: Access::Both,
                phase: Phase::Pre,
            },
            SrtSockOpt::MessageApi => OptionDescriptor {
                id: 48,
                kind: OptionType::Bool,
                access: Access::Both,
                phase: Phase::Pre,
            },
            SrtSockOpt::PayloadSize => OptionDescriptor {
                id: 49,
                kind: OptionType::Int32,
                access: Access::Both,
                phase: Phase::Pre,
            },
            SrtSockOpt::TransType => OptionDescriptor {
                id: 50,
                kind: OptionType::TransType,
                access: Access::SetOnly,
                phase: Phase::Pre,
            },
            SrtSockOpt::KmRefreshRate => OptionDescriptor {
                id: 51,
                kind: OptionType::Int32,
                access: Access::Both,
                phase: Phase::Pre,
            },
            SrtSockOpt::KmPreAnnounce => OptionDescriptor {
                id: 52,
                kind: OptionType::Int32,
                access: Access::Both,
                phase: Phase::Pre,
            },
            SrtSockOpt::EnforcedEncryption => OptionDescriptor {
                id: 53,
                kind: OptionType::Bool,
                access: Access::Both,
                phase: Phase::Pre,
            },
            SrtSockOpt::Ipv6Only => OptionDescriptor {
                id: 54,
                kind: OptionType::Int32,
                access: Access::Both,
                phase: Phase::Pre,
            },
            SrtSockOpt::PeerIdleTimeo => OptionDescriptor {
                id: 55,
                kind: OptionType::Int32,
                access: Access::Both,
                phase: Phase::Pre,
            },
            SrtSockOpt::BindToDevice => OptionDescriptor {
                id: 56,
                kind: OptionType::Bytes,
                access: Access::Both,
                phase: Phase::Pre,
            },
            SrtSockOpt::PacketFilter => OptionDescriptor {
                id: 60,
                kind: OptionType::Bytes,
                access: Access::Both,
                phase: Phase::Pre,
            },
            SrtSockOpt::RetransmitAlgo => OptionDescriptor {
                id: 61,
                kind: OptionType::Int32,
                access: Access::Both,
                phase: Phase::Pre,
            },
        }
    }
}

/// An option value as the control layer holds it.
#[derive(Clone, Debug, PartialEq, Eq)]
pub enum OptionValue {
    Bool(bool),
    Int32(i32),
    Int64(i64),
    Bytes(Vec<u8>),
    Linger(SrtLinger),
    TransType(SrtTransmissionType),
    KmState(SrtKmState),
}

/// The mathematical model of an option value.
pub enum OptionValueModel {
    Bool(bool),
    Int32(i32),
    Int64(i64),
    Bytes(Seq<u8>),
    Linger(SrtLinger),
    TransType(SrtTransmissionType),
    KmState(SrtKmState),
}

impl View for OptionValue {
    type V = OptionValueModel;

    open spec fn view(&self) -> OptionValueModel {
        match self {
            OptionValue::Bool(b) => OptionValueModel::Bool(*b),
            OptionValue::Int32(x) => OptionValueModel::Int32(*x),
            OptionValue::Int64(x) => OptionValueModel::Int64(*x),
            OptionValue::Bytes(b) => OptionValueModel::Bytes(b@),
            OptionValue::Linger(l) => OptionValueModel::Linger(*l),
            OptionValue::TransType(t) => OptionValueModel::TransType(*t),
            OptionValue::KmState(k) => OptionValueModel::KmState(*k),
        }
    }
}

/// The model of a result that holds an option value.
pub open spec fn value_result_view(r: Result<OptionValue, SrtError>) -> Result<
    OptionValueModel,
    SrtError,
> {
    match r {
        Ok(v) => Ok(v@),
        Err(e) => Err(e),
    }
}

/// The type of a value.
pub open spec fn value_type(v: OptionValueModel) -> OptionType {
    match v {
        OptionValueModel::Bool(_) => OptionType::Bool,
        OptionValueModel::Int32(_) => OptionType::Int32,
        OptionValueModel::Int64(_) => OptionType::Int64,
        OptionValueModel::Bytes(_) => OptionType::Bytes,
        OptionValueModel::Linger(_) => OptionType::Linger,
        OptionValueModel::TransType(_) => OptionType::TransType,
        OptionValueModel::KmState(_) => OptionType::KmState,
    }
}

/// The number of bytes that a value of a fixed-width type occupies natively;
/// for byte strings, the most that the engine hands back.
pub open spec fn type_width(t: OptionType) -> nat {
    match t {
        OptionType::Bool => BOOL_WIDTH as nat,
        OptionType::Int32 => 4,
        OptionType::Int64 => 8,
        OptionType::Bytes => MAX_OPTION_BYTES as nat,
        OptionType::Linger => 8,
        OptionType::TransType => 4,
        OptionType::KmState => 4,
    }
}

/// The four bytes of `x`, least significant first.
pub open spec fn le_bytes_u32(x: u32) -> Seq<u8> {
    seq![
        (x & 0xff) as u8,
        ((x >> 8u32) & 0xff) as u8,
        ((x >> 16u32) & 0xff) as u8,
        ((x >> 24u32) & 0xff) as u8,
    ]
}

/// The number that four bytes, least significant first, stand for.
pub open spec fn u32_from_le(b0: u8, b1: u8, b2: u8, b3: u8) -> u32 {
    (b0 as u32) | ((b1 as u32) << 8u32) | ((b2 as u32) << 16u32) | ((b3 as u32) << 24u32)
}

/// The eight bytes of `x`, least significant first.
pub open spec fn le_bytes_u64(x: u64) -> Seq<u8> {
    le_bytes_u32((x & 0xffff_ffff) as u32) + le_bytes_u32((x >> 32u64) as u32)
}

/// The number that eight bytes, least significant first, stand for.
pub open spec fn u64_from_le(lo: u32, hi: u32) -> u64 {
    (lo as u64) | ((hi as u64) << 32u64)
}

/// The native code of a transmission type.
pub open spec fn trans_type_code(t: SrtTransmissionType) -> u32 {
    match t {
        SrtTransmissionType::Live => 0,
        SrtTransmissionType::File => 1,
        SrtTransmissionType::Invalid => 2,
    }
}

/// The native code of a key-material state.
pub open spec fn km_state_code(k: SrtKmState) -> u32 {
    match k {
        SrtKmState::Unsecured => 0,
        SrtKmState::Securing => 1,
        SrtKmState::Secured => 2,
        SrtKmState::NoSecret => 3,
        SrtKmState::BadSecret => 4,
    }
}

/// The native representation of a value: integers in the byte order of the
/// little-endian hosts that the engine runs on, a flag as one byte 0 or 1, a
/// linger setting as the C pair (`l_onoff`, `l_linger`) of two 32-bit ints,
/// enumerations as their 32-bit codes, byte strings as they are.
pub open spec fn encode_spec(v: OptionValueModel) -> Seq<u8> {
    match v {
        OptionValueModel::Bool(b) => seq![if b { 1u8 } else { 0u8 }],
        OptionValueModel::Int32(x) => le_bytes_u32(x as u32),
        OptionValueModel::Int64(x) => le_bytes_u64(x as u64),
        OptionValueModel::Bytes(b) => b,
        OptionValueModel::Linger(l) => le_bytes_u32(if l.enabled { 1u32 } else { 0u32 })
            + le_bytes_u32(l.secs as u32),
        OptionValueModel::TransType(t) => le_bytes_u32(trans_type_code(t)),
        OptionValueModel::KmState(k) => le_bytes_u32(km_state_code(k)),
    }
}

/// The 32-bit number at offset `i` of `b`.
pub open spec fn u32_at(b: Seq<u8>, i: int) -> u32 {
    u32_from_le(b[i], b[i + 1], b[i + 2], b[i + 3])
}

/// Reads a native buffer of the given type. A fixed-width type needs exactly
/// its width (`BufferTooSmall` otherwise); a byte string at most
/// `MAX_OPTION_BYTES`; an enumeration code outside its range is an
/// `UnknownValue` error.
pub open spec fn decode_spec(t: OptionType, b: Seq<u8>) -> Result<OptionValueModel, SrtError> {
    if t == OptionType::Bytes {
        if b.len() <= MAX_OPTION_BYTES {
            Ok(OptionValueModel::Bytes(b))
        } else {
            Err(SrtError::ValueTruncated)
        }
    } else if b.len() != type_width(t) {
        Err(SrtError::BufferTooSmall)
    } else {
        match t {
            OptionType::Bool => Ok(OptionValueModel::Bool(b[0] != 0)),
            OptionType::Int32 => Ok(OptionValueModel::Int32(u32_at(b, 0) as i32)),
            OptionType::Int64 => Ok(
                OptionValueModel::Int64(u64_from_le(u32_at(b, 0), u32_at(b, 4)) as i64),
            ),
            OptionType::Linger => Ok(
                OptionValueModel::Linger(
                    SrtLinger { enabled: u32_at(b, 0) != 0, secs: u32_at(b, 4) as i32 },
                ),
            ),
            OptionType::TransType => {
                let c = u32_at(b, 0);
                if c == 0 {
                    Ok(OptionValueModel::TransType(SrtTransmissionType::Live))
                } else if c == 1 {
                    Ok(OptionValueModel::TransType(SrtTransmissionType::File))
                } else if c == 2 {
                    Ok(OptionValueModel::TransType(SrtTransmissionType::Invalid))
                } else {
                    Err(SrtError::UnknownValue(c as i32))
                }
            },
            _ => {
                let c = u32_at(b, 0);
                if c == 0 {
                    Ok(OptionValueModel::KmState(SrtKmState::Unsecured))
                } else if c == 1 {
                    Ok(OptionValueModel::KmState(SrtKmState::Securing))
                } else if c == 2 {
                    Ok(OptionValueModel::KmState(SrtKmState::Secured))
                } else if c == 3 {
                    Ok(OptionValueModel::KmState(SrtKmState::NoSecret))
                } else if c == 4 {
                    Ok(OptionValueModel::KmState(SrtKmState::BadSecret))
                } else {
                    Err(SrtError::UnknownValue(c as i32))
                }
            },
        }
    }
}

/// Four bytes read back least significant first give the number they were
/// written from.
pub proof fn lemma_u32_round_trip(x: u32)
    ensures
        u32_at(le_bytes_u32(x), 0) == x,
{
    assert(u32_from_le(
        (x & 0xff) as u8,
        ((x >> 8u32) & 0xff) as u8,
        ((x >> 16u32) & 0xff) as u8,
        ((x >> 24u32) & 0xff) as u8,
    ) == x) by (bit_vector);
}

/// Eight bytes read back least significant first give the number they were
/// written from.
pub proof fn lemma_u64_round_trip(x: u64)
    ensures
        u64_from_le(u32_at(le_bytes_u64(x), 0), u32_at(le_bytes_u64(x), 4)) == x,
{
    let lo = (x & 0xffff_ffff) as u32;
    let hi = (x >> 32u64) as u32;
    lemma_u32_round_trip(lo);
    lemma_u32_round_trip(hi);
    let b = le_bytes_u64(x);
    assert(b.subrange(0, 4) =~= le_bytes_u32(lo));
    assert(b.subrange(4, 8) =~= le_bytes_u32(hi));
    assert(u32_at(b, 0) == u32_at(le_bytes_u32(lo), 0));
    assert(u32_at(b, 4) == u32_at(le_bytes_u32(hi), 0));
    assert(u64_from_le(((x & 0xffff_ffff) as u32), ((x >> 32u64) as u32)) == x) by (bit_vector);
}

/// Appends the four bytes of `x`, least significant first.
fn push_u32(out: &mut Vec<u8>, x: u32)
    ensures
        final(out)@ == old(out)@ + le_bytes_u32(x),
{
    out.push((x & 0xff) as u8);
    out.push(((x >> 8u32) & 0xff) as u8);
    out.push(((x >> 16u32) & 0xff) as u8);
    out.push(((x >> 24u32) & 0xff) as u8);
    assert(final(out)@ =~= old(out)@ + le_bytes_u32(x));
}

/// Reads the 32-bit number at offset `i`, least significant byte first.
fn read_u32(b: &Vec<u8>, i: usize) -> (r: u32)
    requires
        i + 4 <= b@.len(),
    ensures
        r == u32_at(b@, i as int),
{
    let n = b.len();
    assert(i + 4 <= n);
    (b[i] as u32) | ((b[i + 1] as u32) << 8u32) | ((b[i + 2] as u32) << 16u32) | ((b[i + 3]
        as u32) << 24u32)
}

/// The native representation of a value.
pub fn encode_value(v: &OptionValue) -> (r: Vec<u8>)
    ensures
        r@ == encode_spec(v@),
{
    let mut out: Vec<u8> = Vec::new();
    match v {
        OptionValue::Bool(b) => {
            out.push(if *b { 1u8 } else { 0u8 });
            assert(out@ =~= encode_spec(v@));
        },
        OptionValue::Int32(x) => {
            push_u32(&mut out, *x as u32);
            assert(out@ =~= encode_spec(v@));
        },
        OptionValue::Int64(x) => {
            let u = *x as u64;
            push_u32(&mut out, (u & 0xffff_ffff) as u32);
            push_u32(&mut out, (u >> 32u64) as u32);
            assert(out@ =~= encode_spec(v@));
        },
        OptionValue::Bytes(b) => {
            out = b.clone();
        },
        OptionValue::Linger(l) => {
            push_u32(&mut out, if l.enabled { 1u32 } else { 0u32 });
            push_u32(&mut out, l.secs as u32);
            assert(out@ =~= encode_spec(v@));
        },
        OptionValue::TransType(t) => {
            let c: u32 = match t {
                SrtTransmissionType::Live => 0,
                SrtTransmissionType::File => 1,
                SrtTransmissionType::Invalid => 2,
            };
            push_u32(&mut out, c);
            assert(out@ =~= encode_spec(v@));
        },
        OptionValue::KmState(k) => {
            let c: u32 = match k {
                SrtKmState::Unsecured => 0,
                SrtKmState::Securing => 1,
                SrtKmState::Secured => 2,
                SrtKmState::NoSecret => 3,
                SrtKmState::BadSecret => 4,
            };
            push_u32(&mut out, c);
            assert(out@ =~= encode_spec(v@));
        },
    }
    out
}

/// Reads a native buffer of type `t`.
pub fn decode_value(t: OptionType, b: &Vec<u8>) -> (r: Result<OptionValue, SrtError>)
    ensures
        value_result_view(r) == decode_spec(t, b@),
{
    if t == OptionType::Bytes {
        if b.len() <= MAX_OPTION_BYTES {
            Ok(OptionValue::Bytes(b.clone()))
        } else {
            Err(SrtError::ValueTruncated)
        }
    } else {
        if b.len() != width(t) {
            return Err(SrtError::BufferTooSmall);
        }
        match t {
            OptionType::Bool => Ok(OptionValue::Bool(b[0] != 0)),
            OptionType::Int32 => Ok(OptionValue::Int32(read_u32(b, 0) as i32)),
            OptionType::Int64 => {
                let lo = read_u32(b, 0);
                let hi = read_u32(b, 4);
                Ok(OptionValue::Int64(((lo as u64) | ((hi as u64) << 32u64)) as i64))
            },
            OptionType::Linger => {
                let on = read_u32(b, 0);
                let secs = read_u32(b, 4);
                Ok(OptionValue::Linger(SrtLinger { enabled: on != 0, secs: secs as i32 }))
            },
            OptionType::TransType => {
                let c = read_u32(b, 0);
                if c == 0 {
                    Ok(OptionValue::TransType(SrtTransmissionType::Live))
                } else if c == 1 {
                    Ok(OptionValue::TransType(SrtTransmissionType::File))
                } else if c == 2 {
                    Ok(OptionValue::TransType(SrtTransmissionType::Invalid))
                } else {
                    Err(SrtError::UnknownValue(c as i32))
                }
            },
            _ => {
                let c = read_u32(b, 0);
                if c == 0 {
                    Ok(OptionValue::KmState(SrtKmState::Unsecured))
                } else if c == 1 {
                    Ok(OptionValue::KmState(SrtKmState::Securing))
                } else if c == 2 {
                    Ok(OptionValue::KmState(SrtKmState::Secured))
                } else if c == 3 {
                    Ok(OptionValue::KmState(SrtKmState::NoSecret))
                } else if c == 4 {
                    Ok(OptionValue::KmState(SrtKmState::BadSecret))
                } else {
                    Err(SrtError::UnknownValue(c as i32))
                }
            },
        }
    }
}

/// Decoding the native representation of a value gives the value back, for
/// every value that its type admits (a byte string of at most
/// `MAX_OPTION_BYTES`).
pub proof fn lemma_encode_decode(v: OptionValueModel)
    requires
        v is Bytes ==> v->Bytes_0.len() <= MAX_OPTION_BYTES,
    ensures
        decode_spec(value_type(v), encode_spec(v)) == Ok::<OptionValueModel, SrtError>(v),
{
    match v {
        OptionValueModel::Int32(x) => {
            lemma_u32_round_trip(x as u32);
            assert(((x as u32) as i32) == x) by (bit_vector);
        },
        OptionValueModel::Int64(x) => {
            lemma_u64_round_trip(x as u64);
            assert(((x as u64) as i64) == x) by (bit_vector);
        },
        OptionValueModel::Linger(l) => {
            let on: u32 = if l.enabled { 1 } else { 0 };
            lemma_u32_round_trip(on);
            lemma_u32_round_trip(l.secs as u32);
            let b = encode_spec(v);
            assert(b.subrange(4, 8) =~= le_bytes_u32(l.secs as u32));
            assert(u32_at(b, 4) == u32_at(le_bytes_u32(l.secs as u32), 0));
            assert(u32_at(b, 0) == u32_at(le_bytes_u32(on), 0));
            let s = l.secs;
            assert(((s as u32) as i32) == s) by (bit_vector);
        },
        OptionValueModel::TransType(t) => {
            lemma_u32_round_trip(trans_type_code(t));
        },
        OptionValueModel::KmState(k) => {
            lemma_u32_round_trip(km_state_code(k));
        },
        _ => {},
    }
}

/// The model of a result that holds a byte buffer.
pub open spec fn bytes_result_view(r: Result<Vec<u8>, SrtError>) -> Result<Seq<u8>, SrtError> {
    match r {
        Ok(b) => Ok(b@),
        Err(e) => Err(e),
    }
}

/// The bytes to hand the engine to write option `o` with `v`: the native
/// representation of `v`, where `o` can be written, `v` has the option's
/// type and, for a byte string, at most `MAX_OPTION_BYTES` bytes.
pub open spec fn set_request_spec(o: SrtSockOpt, v: OptionValueModel) -> Result<
    Seq<u8>,
    SrtError,
> {
    if descriptor(o).access == Access::GetOnly {
        Err(SrtError::InvalidOperationForState(SRT_EINVOP))
    } else if value_type(v) != descriptor(o).kind {
        Err(SrtError::BufferTooSmall)
    } else if v is Bytes && v->Bytes_0.len() > MAX_OPTION_BYTES {
        Err(SrtError::ValueTruncated)
    } else {
        Ok(encode_spec(v))
    }
}

/// Marshals `v` for writing option `o`.
pub fn set_request(o: SrtSockOpt, v: &OptionValue) -> (r: Result<Vec<u8>, SrtError>)
    ensures
        bytes_result_view(r) == set_request_spec(o, v@),
{
    let d = o.descriptor();
    if d.access == Access::GetOnly {
        return Err(SrtError::InvalidOperationForState(SRT_EINVOP));
    }
    let t = match v {
        OptionValue::Bool(_) => OptionType::Bool,
        OptionValue::Int32(_) => OptionType::Int32,
        OptionValue::Int64(_) => OptionType::Int64,
        OptionValue::Bytes(_) => OptionType::Bytes,
        OptionValue::Linger(_) => OptionType::Linger,
        OptionValue::TransType(_) => OptionType::TransType,
        OptionValue::KmState(_) => OptionType::KmState,
    };
    if t != d.kind {
        return Err(SrtError::BufferTooSmall);
    }
    if let OptionValue::Bytes(b) = v {
        if b.len() > MAX_OPTION_BYTES {
            return Err(SrtError::ValueTruncated);
        }
    }
    Ok(encode_value(v))
}

/// The size of the buffer to hand the engine for reading option `o`, where
/// `o` can be read.
pub open spec fn get_capacity_spec(o: SrtSockOpt) -> Result<nat, SrtError> {
    if descriptor(o).access == Access::SetOnly {
        Err(SrtError::InvalidOperationForState(SRT_EINVOP))
    } else {
        Ok(type_width(descriptor(o).kind))
    }
}

/// The native width of a value of type `t`.
pub fn width(t: OptionType) -> (n: usize)
    ensures
        n == type_width(t),
{
    match t {
        OptionType::Bool => BOOL_WIDTH,
        OptionType::Int32 | OptionType::TransType | OptionType::KmState => 4,
        OptionType::Int64 | OptionType::Linger => 8,
        OptionType::Bytes => MAX_OPTION_BYTES,
    }
}

/// Sizes the buffer for reading option `o`.
pub fn get_capacity(o: SrtSockOpt) -> (r: Result<usize, SrtError>)
    ensures
        match r {
            Ok(n) => get_capacity_spec(o) == Ok::<nat, SrtError>(n as nat),
            Err(e) => get_capacity_spec(o) == Err::<nat, SrtError>(e),
        },
{
    let d = o.descriptor();
    if d.access == Access::SetOnly {
        return Err(SrtError::InvalidOperationForState(SRT_EINVOP));
    }
    Ok(width(d.kind))
}

/// The value read for option `o`: the error that the engine reported where the call
/// failed; otherwise the first `reported` bytes of `buf`, the length the
/// engine reported, decoded by the option's type. A reported length that
/// does not fit the buffer is `BufferTooSmall`.
pub open spec fn get_reply_spec(o: SrtSockOpt, outcome: CallOutcome, buf: Seq<u8>, reported: i32) -> Result<
    OptionValueModel,
    SrtError,
> {
    if outcome.failed() {
        Err(outcome.error())
    } else if reported < 0 || reported > buf.len() {
        Err(SrtError::BufferTooSmall)
    } else {
        decode_spec(descriptor(o).kind, buf.take(reported as int))
    }
}

/// Reads the reply of the engine to a read of option `o`.
pub fn get_reply(o: SrtSockOpt, outcome: CallOutcome, buf: &Vec<u8>, reported: i32) -> (r: Result<
    OptionValue,
    SrtError,
>)
    ensures
        value_result_view(r) == get_reply_spec(o, outcome, buf@, reported),
{
    if outcome.result < 0 {
        return Err(SrtError::from_code(outcome.error_code, outcome.reject_code));
    }
    if reported < 0 || reported as usize > buf.len() {
        return Err(SrtError::BufferTooSmall);
    }
    let n = reported as usize;
    let mut head: Vec<u8> = Vec::new();
    let mut i: usize = 0;
    while i < n
        invariant
            n <= buf@.len(),
            i <= n,
            head@ =~= buf@.take(i as int),
        decreases n - i,
    {
        head.push(buf[i]);
        i = i + 1;
    }
    decode_value(o.descriptor().kind, &head)
}

/// Every buffer handed to the engine for a fixed-width option has exactly
/// the width of the option's type; a byte string has at most
/// `MAX_OPTION_BYTES`.
pub proof fn lemma_set_width(o: SrtSockOpt, v: OptionValueModel)
    requires
        set_request_spec(o, v) is Ok,
    ensures
        descriptor(o).kind != OptionType::Bytes ==> set_request_spec(o, v)->Ok_0.len()
            == type_width(descriptor(o).kind),
        descriptor(o).kind == OptionType::Bytes ==> set_request_spec(o, v)->Ok_0.len()
            <= MAX_OPTION_BYTES,
{
}

/// Writing an option and reading it back gives the value written, for every
/// option that can be both written and read and every value of its type
/// (a byte string of at most `MAX_OPTION_BYTES`): whatever buffer the reply
/// arrives in, as long as it starts with the bytes written and the engine
/// reports their length.
pub proof fn lemma_option_round_trip(
    o: SrtSockOpt,
    v: OptionValueModel,
    outcome: CallOutcome,
    buf: Seq<u8>,
)
    requires
        descriptor(o).access == Access::Both,
        value_type(v) == descriptor(o).kind,
        v is Bytes ==> v->Bytes_0.len() <= MAX_OPTION_BYTES,
        !outcome.failed(),
        encode_spec(v).len() <= buf.len(),
        buf.take(encode_spec(v).len() as int) == encode_spec(v),
    ensures
        set_request_spec(o, v) == Ok::<Seq<u8>, SrtError>(encode_spec(v)),
        get_capacity_spec(o) == Ok::<nat, SrtError>(type_width(descriptor(o).kind)),
        encode_spec(v).len() <= type_width(descriptor(o).kind),
        get_reply_spec(o, outcome, buf, encode_spec(v).len() as i32) == Ok::<
            OptionValueModel,
            SrtError,
        >(v),
{
    lemma_encode_decode(v);
    assert(encode_spec(v).len() <= 512) by {
        match v {
            OptionValueModel::Bytes(b) => {},
            OptionValueModel::Int64(x) => {},
            OptionValueModel::Linger(l) => {},
            _ => {},
        }
    }
}

/// A byte string of `MAX_OPTION_BYTES` is accepted as it is; any longer one
/// is refused with `ValueTruncated`, the same way for every input.
pub proof fn lemma_byte_string_cap(o: SrtSockOpt, s: Seq<u8>)
    requires
        descriptor(o).kind == OptionType::Bytes,
        descriptor(o).access != Access::GetOnly,
    ensures
        s.len() <= MAX_OPTION_BYTES ==> set_request_spec(o, OptionValueModel::Bytes(s)) == Ok::<
            Seq<u8>,
            SrtError,
        >(s),
        s.len() > MAX_OPTION_BYTES ==> set_request_spec(o, OptionValueModel::Bytes(s)) == Err::<
            Seq<u8>,
            SrtError,
        >(SrtError::ValueTruncated),
{
}

} // verus!
