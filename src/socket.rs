use vstd::prelude::*;
use vstd::slice::slice_to_vec;
use vstd::string::StringSliceAdditionalSpecFns;

use crate::address::{first_candidate, first_candidate_spec, SrtSocketAddr};
use crate::error::{handle_result, handle_result_spec, CallOutcome, SrtError};
use crate::options::{
    encode_value, width, get_capacity, get_capacity_spec, get_reply, get_reply_spec, set_request,
    set_request_spec, OptionType, OptionValue, OptionValueModel, SrtCongestionController,
    SrtKmState, SrtLinger, SrtSockOpt, SrtTransmissionType, descriptor, value_result_view,
};

verus! {

/// A socket of the engine, known by its native identifier. A value of this
/// type is the sole owner of its identifier: it cannot be copied, and
/// `close` consumes it, so no request can name a closed socket through it.
#[derive(Debug, PartialEq, Eq, Structural)]
pub struct SrtSocket {
    pub id: i32,
}

/// One call into the engine, with the arguments that this layer decided.
/// The caller performs it and hands the outcome back to the matching
/// reply function.
#[derive(Clone, Debug, PartialEq, Eq)]
pub enum NativeCall {
    CreateSocket,
    Bind { sock: i32, addr: SrtSocketAddr },
    Listen { sock: i32, backlog: i32 },
    Connect { sock: i32, addr: SrtSocketAddr },
    Rendezvous { sock: i32, local: SrtSocketAddr, remote: SrtSocketAddr },
    Accept { sock: i32 },
    Close { sock: i32 },
    /// Send the first `len` bytes of the caller's buffer.
    Send { sock: i32, len: i32 },
    /// Receive into the first `len` bytes of the caller's buffer.
    Recv { sock: i32, len: i32 },
    LocalAddr { sock: i32 },
    PeerAddr { sock: i32 },
    SenderBuffer { sock: i32 },
    /// Read option `opt` into a buffer of `capacity` bytes.
    GetFlag { sock: i32, opt: SrtSockOpt, capacity: i32 },
    /// Write option `opt` with exactly the bytes `value`.
    SetFlag { sock: i32, opt: SrtSockOpt, value: Vec<u8> },
    SocketState { sock: i32 },
    RejectReason { sock: i32 },
    /// Take a statistics snapshot; `clear` (0 or 1) resets the interval counters.
    BStats { sock: i32, clear: i32 },
}

/// `c` reads option `o` of socket `sock`, into a buffer of the option's width.
pub open spec fn is_get_call(c: NativeCall, sock: i32, o: SrtSockOpt) -> bool {
    c matches NativeCall::GetFlag { sock: s, opt, capacity } && s == sock && opt == o
        && get_capacity_spec(o) is Ok && capacity as int == get_capacity_spec(o)->Ok_0
}

/// `c` writes option `o` of socket `sock` with the native representation of `v`.
pub open spec fn is_set_call(c: NativeCall, sock: i32, o: SrtSockOpt, v: OptionValueModel) -> bool {
    c matches NativeCall::SetFlag { sock: s, opt, value } && s == sock && opt == o
        && set_request_spec(o, v) == Ok::<Seq<u8>, SrtError>(value@)
}

/// `r` is the request that writes `v` to option `o` of `sock`, or the error
/// with which the registry refuses it.
pub open spec fn set_result(
    r: Result<NativeCall, SrtError>,
    sock: i32,
    o: SrtSockOpt,
    v: OptionValueModel,
) -> bool {
    match r {
        Ok(c) => is_set_call(c, sock, o, v),
        Err(e) => set_request_spec(o, v) == Err::<Seq<u8>, SrtError>(e),
    }
}

/// The bytes of the congestion controller's name, `live` or `file`.
pub open spec fn congestion_name(c: SrtCongestionController) -> Seq<u8> {
    match c {
        SrtCongestionController::Live => seq![108u8, 105u8, 118u8, 101u8],
        SrtCongestionController::File => seq![102u8, 105u8, 108u8, 101u8],
    }
}

/// The largest count that one native send or receive can carry.
pub const MAX_TRANSFER: usize = 0x7fff_ffff;

/// The count of bytes that one native transfer carries for a buffer of `n`.
pub open spec fn transfer_len(n: nat) -> i32 {
    if n <= MAX_TRANSFER {
        n as i32
    } else {
        MAX_TRANSFER as i32
    }
}

/// Lifecycle requests.
impl SrtSocket {
    /// The socket that a creation call gave: its identifier, or
    /// `SocketCreationFailed` with the native error code.
    pub fn new(outcome: CallOutcome) -> (r: Result<SrtSocket, SrtError>)
        ensures
            outcome.failed() ==> r == Err::<SrtSocket, SrtError>(
                SrtError::SocketCreationFailed(outcome.error_code),
            ),
            !outcome.failed() ==> r == Ok::<SrtSocket, SrtError>(SrtSocket { id: outcome.result }),
    {
        if outcome.result < 0 {
            Err(SrtError::SocketCreationFailed(outcome.error_code))
        } else {
            Ok(SrtSocket { id: outcome.result })
        }
    }

    /// The request that binds the socket to the first resolved candidate;
    /// no candidate is `AddressResolutionFailed`.
    pub fn bind(&self, candidates: &Vec<SrtSocketAddr>) -> (r: Result<NativeCall, SrtError>)
        ensures
            match first_candidate_spec(candidates@) {
                Ok(a) => r == Ok::<NativeCall, SrtError>(NativeCall::Bind { sock: self.id, addr: a }),
                Err(e) => r == Err::<NativeCall, SrtError>(e),
            },
    {
        match first_candidate(candidates) {
            Ok(a) => Ok(NativeCall::Bind { sock: self.id, addr: a }),
            Err(e) => Err(e),
        }
    }

    /// The request that connects to the first resolved candidate; no
    /// candidate is `AddressResolutionFailed`.
    pub fn connect(&self, candidates: &Vec<SrtSocketAddr>) -> (r: Result<NativeCall, SrtError>)
        ensures
            match first_candidate_spec(candidates@) {
                Ok(a) => r == Ok::<NativeCall, SrtError>(
                    NativeCall::Connect { sock: self.id, addr: a },
                ),
                Err(e) => r == Err::<NativeCall, SrtError>(e),
            },
    {
        match first_candidate(candidates) {
            Ok(a) => Ok(NativeCall::Connect { sock: self.id, addr: a }),
            Err(e) => Err(e),
        }
    }

    /// The request for a rendezvous between the first local and the first
    /// remote candidate. Both must have resolved: otherwise there is no
    /// request at all, only `AddressResolutionFailed`.
    pub fn rendezvous(&self, local: &Vec<SrtSocketAddr>, remote: &Vec<SrtSocketAddr>) -> (r:
        Result<NativeCall, SrtError>)
        ensures
            match (first_candidate_spec(local@), first_candidate_spec(remote@)) {
                (Ok(l), Ok(m)) => r == Ok::<NativeCall, SrtError>(
                    NativeCall::Rendezvous { sock: self.id, local: l, remote: m },
                ),
                _ => r == Err::<NativeCall, SrtError>(SrtError::AddressResolutionFailed),
            },
    {
        let l = match first_candidate(local) {
            Ok(a) => a,
            Err(e) => return Err(e),
        };
        let m = match first_candidate(remote) {
            Ok(a) => a,
            Err(e) => return Err(e),
        };
        Ok(NativeCall::Rendezvous { sock: self.id, local: l, remote: m })
    }

    /// The request that makes the socket listen.
    pub fn listen(&self, backlog: i32) -> (r: NativeCall)
        ensures
            r == (NativeCall::Listen { sock: self.id, backlog }),
    {
        NativeCall::Listen { sock: self.id, backlog }
    }

    /// The request that accepts a pending connection.
    pub fn accept(&self) -> (r: NativeCall)
        ensures
            r == (NativeCall::Accept { sock: self.id }),
    {
        NativeCall::Accept { sock: self.id }
    }

    /// The request that closes the socket. The handle is consumed: nothing
    /// can be asked of it afterwards.
    pub fn close(self) -> (r: NativeCall)
        ensures
            r == (NativeCall::Close { sock: self.id }),
    {
        NativeCall::Close { sock: self.id }
    }

    /// The request that sends `buf`, or as much of it as one native call carries.
    pub fn send(&self, buf: &[u8]) -> (r: NativeCall)
        ensures
            r == (NativeCall::Send { sock: self.id, len: transfer_len(buf@.len()) }),
    {
        let n = buf.len();
        let len: i32 = if n <= MAX_TRANSFER {
            n as i32
        } else {
            MAX_TRANSFER as i32
        };
        NativeCall::Send { sock: self.id, len }
    }

    /// The request that receives into a buffer of `capacity` bytes, or into
    /// as much of it as one native call fills.
    pub fn recv(&self, capacity: usize) -> (r: NativeCall)
        ensures
            r == (NativeCall::Recv { sock: self.id, len: transfer_len(capacity as nat) }),
    {
        let len: i32 = if capacity <= MAX_TRANSFER {
            capacity as i32
        } else {
            MAX_TRANSFER as i32
        };
        NativeCall::Recv { sock: self.id, len }
    }

    /// The request for the socket's own address.
    pub fn local_addr(&self) -> (r: NativeCall)
        ensures
            r == (NativeCall::LocalAddr { sock: self.id }),
    {
        NativeCall::LocalAddr { sock: self.id }
    }

    /// The request for the connected peer's address.
    pub fn peer_addr(&self) -> (r: NativeCall)
        ensures
            r == (NativeCall::PeerAddr { sock: self.id }),
    {
        NativeCall::PeerAddr { sock: self.id }
    }

    /// The request for the sender buffer's occupancy (blocks and bytes).
    pub fn get_sender_buffer(&self) -> (r: NativeCall)
        ensures
            r == (NativeCall::SenderBuffer { sock: self.id }),
    {
        NativeCall::SenderBuffer { sock: self.id }
    }

    /// The request for the socket's lifecycle state.
    pub fn get_socket_state(&self) -> (r: NativeCall)
        ensures
            r == (NativeCall::SocketState { sock: self.id }),
    {
        NativeCall::SocketState { sock: self.id }
    }

    /// The request for the reason of the last rejected connection attempt.
    pub fn get_reject_reason(&self) -> (r: NativeCall)
        ensures
            r == (NativeCall::RejectReason { sock: self.id }),
    {
        NativeCall::RejectReason { sock: self.id }
    }

    /// The request for a statistics snapshot; `clear_interval` resets the
    /// interval counters after the read.
    pub fn bistats(&self, clear_interval: bool) -> (r: NativeCall)
        ensures
            r == (NativeCall::BStats { sock: self.id, clear: if clear_interval { 1 } else { 0 } }),
    {
        NativeCall::BStats { sock: self.id, clear: if clear_interval { 1 } else { 0 } }
    }
}

/// Generic option requests.
impl SrtSocket {
    /// The request that writes `v` to option `o`, or the error with which
    /// the registry refuses it (read-only option, wrong type, byte string
    /// over `MAX_OPTION_BYTES`).
    pub fn set_option(&self, o: SrtSockOpt, v: &OptionValue) -> (r: Result<NativeCall, SrtError>)
        ensures
            set_result(r, self.id, o, v@),
    {
        match set_request(o, v) {
            Ok(bytes) => Ok(NativeCall::SetFlag { sock: self.id, opt: o, value: bytes }),
            Err(e) => Err(e),
        }
    }

    /// The request that reads option `o`, or `InvalidOperationForState`
    /// where the option can only be written.
    pub fn get_option(&self, o: SrtSockOpt) -> (r: Result<NativeCall, SrtError>)
        ensures
            match r {
                Ok(c) => is_get_call(c, self.id, o),
                Err(e) => get_capacity_spec(o) == Err::<nat, SrtError>(e),
            },
    {
        match get_capacity(o) {
            Ok(n) => Ok(NativeCall::GetFlag { sock: self.id, opt: o, capacity: n as i32 }),
            Err(e) => Err(e),
        }
    }

    /// The request that writes a value the registry accepts.
    fn flag(&self, o: SrtSockOpt, v: OptionValue) -> (r: NativeCall)
        requires
            set_request_spec(o, v@) is Ok,
        ensures
            is_set_call(r, self.id, o, v@),
    {
        NativeCall::SetFlag { sock: self.id, opt: o, value: encode_value(&v) }
    }

    /// The request that reads an option that can be read.
    fn query(&self, o: SrtSockOpt) -> (r: NativeCall)
        requires
            get_capacity_spec(o) is Ok,
        ensures
            is_get_call(r, self.id, o),
    {
        let n = width(o.descriptor().kind);
        NativeCall::GetFlag { sock: self.id, opt: o, capacity: n as i32 }
    }

    /// The request that sets linger: enabled for a positive number of
    /// seconds, disabled otherwise.
    pub fn set_linger(&self, secs: i32) -> (r: NativeCall)
        ensures
            is_set_call(
                r,
                self.id,
                SrtSockOpt::Linger,
                OptionValueModel::Linger(SrtLinger { enabled: secs > 0, secs }),
            ),
    {
        self.flag(SrtSockOpt::Linger, OptionValue::Linger(SrtLinger { enabled: secs > 0, secs }))
    }

    /// The request that selects the retransmission algorithm: 1 for the
    /// reduced one, 0 for the default.
    pub fn set_retransmission_algorithm(&self, reduced: bool) -> (r: NativeCall)
        ensures
            is_set_call(
                r,
                self.id,
                SrtSockOpt::RetransmitAlgo,
                OptionValueModel::Int32(if reduced { 1 } else { 0 }),
            ),
    {
        let v: i32 = if reduced { 1 } else { 0 };
        self.flag(SrtSockOpt::RetransmitAlgo, OptionValue::Int32(v))
    }

    /// The request that selects a congestion controller by its name.
    pub fn set_congestion_controller(&self, controller: SrtCongestionController) -> (r: NativeCall)
        ensures
            is_set_call(
                r,
                self.id,
                SrtSockOpt::Congestion,
                OptionValueModel::Bytes(congestion_name(controller)),
            ),
    {
        let name: Vec<u8> = match controller {
            SrtCongestionController::Live => vec![108u8, 105u8, 118u8, 101u8],
            SrtCongestionController::File => vec![102u8, 105u8, 108u8, 101u8],
        };
        assert(name@ =~= congestion_name(controller));
        self.flag(SrtSockOpt::Congestion, OptionValue::Bytes(name))
    }
}

impl SrtSocket {
    /// The request that reads option `Fc`.
    pub fn get_flight_flag_size(&self) -> (r: NativeCall)
        ensures
            is_get_call(r, self.id, SrtSockOpt::Fc),
    {
        self.query(SrtSockOpt::Fc)
    }

    /// The request that reads option `InputBw`.
    pub fn get_input_bandwith(&self) -> (r: NativeCall)
        ensures
            is_get_call(r, self.id, SrtSockOpt::InputBw),
    {
        self.query(SrtSockOpt::InputBw)
    }

    /// The request that reads option `IpTos`.
    pub fn get_ip_type_of_service(&self) -> (r: NativeCall)
        ensures
            is_get_call(r, self.id, SrtSockOpt::IpTos),
    {
        self.query(SrtSockOpt::IpTos)
    }

    /// The request that reads option `Isn`.
    pub fn get_initial_sequence_number(&self) -> (r: NativeCall)
        ensures
            is_get_call(r, self.id, SrtSockOpt::Isn),
    {
        self.query(SrtSockOpt::Isn)
    }

    /// The request that reads option `IpTtl`.
    pub fn get_ip_time_to_live(&self) -> (r: NativeCall)
        ensures
            is_get_call(r, self.id, SrtSockOpt::IpTtl),
    {
        self.query(SrtSockOpt::IpTtl)
    }

    /// The request that reads option `Ipv6Only`.
    pub fn get_ipv6_only(&self) -> (r: NativeCall)
        ensures
            is_get_call(r, self.id, SrtSockOpt::Ipv6Only),
    {
        self.query(SrtSockOpt::Ipv6Only)
    }

    /// The request that reads option `KmRefreshRate`.
    pub fn get_km_refresh_rate(&self) -> (r: NativeCall)
        ensures
            is_get_call(r, self.id, SrtSockOpt::KmRefreshRate),
    {
        self.query(SrtSockOpt::KmRefreshRate)
    }

    /// The request that reads option `KmPreAnnounce`.
    pub fn get_km_preannounce(&self) -> (r: NativeCall)
        ensures
            is_get_call(r, self.id, SrtSockOpt::KmPreAnnounce),
    {
        self.query(SrtSockOpt::KmPreAnnounce)
    }

    /// The request that reads option `Linger`.
    pub fn get_linger(&self) -> (r: NativeCall)
        ensures
            is_get_call(r, self.id, SrtSockOpt::Linger),
    {
        self.query(SrtSockOpt::Linger)
    }

    /// The request that reads option `LossMaxTtl`.
    pub fn get_max_reorder_tolerance(&self) -> (r: NativeCall)
        ensures
            is_get_call(r, self.id, SrtSockOpt::LossMaxTtl),
    {
        self.query(SrtSockOpt::LossMaxTtl)
    }

    /// The request that reads option `MaxBw`.
    pub fn get_max_bandwith(&self) -> (r: NativeCall)
        ensures
            is_get_call(r, self.id, SrtSockOpt::MaxBw),
    {
        self.query(SrtSockOpt::MaxBw)
    }

    /// The request that reads option `Mss`.
    pub fn get_mss(&self) -> (r: NativeCall)
        ensures
            is_get_call(r, self.id, SrtSockOpt::Mss),
    {
        self.query(SrtSockOpt::Mss)
    }

    /// The request that reads option `NakReport`.
    pub fn get_nak_report(&self) -> (r: NativeCall)
        ensures
            is_get_call(r, self.id, SrtSockOpt::NakReport),
    {
        self.query(SrtSockOpt::NakReport)
    }

    /// The request that reads option `PbKeyLen`.
    pub fn get_encryption_key_length(&self) -> (r: NativeCall)
        ensures
            is_get_call(r, self.id, SrtSockOpt::PbKeyLen),
    {
        self.query(SrtSockOpt::PbKeyLen)
    }

    /// The request that reads option `PeerLatency`.
    pub fn get_peer_latency(&self) -> (r: NativeCall)
        ensures
            is_get_call(r, self.id, SrtSockOpt::PeerLatency),
    {
        self.query(SrtSockOpt::PeerLatency)
    }

    /// The request that reads option `PeerVersion`.
    pub fn get_peer_version(&self) -> (r: NativeCall)
        ensures
            is_get_call(r, self.id, SrtSockOpt::PeerVersion),
    {
        self.query(SrtSockOpt::PeerVersion)
    }

    /// The request that reads option `RcvBuf`.
    pub fn get_receive_buffer(&self) -> (r: NativeCall)
        ensures
            is_get_call(r, self.id, SrtSockOpt::RcvBuf),
    {
        self.query(SrtSockOpt::RcvBuf)
    }

    /// The request that reads option `RcvData`.
    pub fn get_receive_data(&self) -> (r: NativeCall)
        ensures
            is_get_call(r, self.id, SrtSockOpt::RcvData),
    {
        self.query(SrtSockOpt::RcvData)
    }

    /// The request that reads option `RcvKmState`.
    pub fn get_receive_km_state(&self) -> (r: NativeCall)
        ensures
            is_get_call(r, self.id, SrtSockOpt::RcvKmState),
    {
        self.query(SrtSockOpt::RcvKmState)
    }

    /// The request that reads option `RcvLatency`.
    pub fn get_receive_latency(&self) -> (r: NativeCall)
        ensures
            is_get_call(r, self.id, SrtSockOpt::RcvLatency),
    {
        self.query(SrtSockOpt::RcvLatency)
    }

    /// The request that reads option `RcvSyn`.
    pub fn get_receive_blocking(&self) -> (r: NativeCall)
        ensures
            is_get_call(r, self.id, SrtSockOpt::RcvSyn),
    {
        self.query(SrtSockOpt::RcvSyn)
    }

    /// The request that reads option `RcvTimeo`.
    pub fn get_receive_timeout(&self) -> (r: NativeCall)
        ensures
            is_get_call(r, self.id, SrtSockOpt::RcvTimeo),
    {
        self.query(SrtSockOpt::RcvTimeo)
    }

    /// The request that reads option `Rendezvous`.
    pub fn get_rendezvous(&self) -> (r: NativeCall)
        ensures
            is_get_call(r, self.id, SrtSockOpt::Rendezvous),
    {
        self.query(SrtSockOpt::Rendezvous)
    }

    /// The request that reads option `ReuseAddr`.
    pub fn get_reuse_address(&self) -> (r: NativeCall)
        ensures
            is_get_call(r, self.id, SrtSockOpt::ReuseAddr),
    {
        self.query(SrtSockOpt::ReuseAddr)
    }

    /// The request that reads option `SndBuf`.
    pub fn get_send_buffer(&self) -> (r: NativeCall)
        ensures
            is_get_call(r, self.id, SrtSockOpt::SndBuf),
    {
        self.query(SrtSockOpt::SndBuf)
    }

    /// The request that reads option `SndData`.
    pub fn get_send_data(&self) -> (r: NativeCall)
        ensures
            is_get_call(r, self.id, SrtSockOpt::SndData),
    {
        self.query(SrtSockOpt::SndData)
    }

    /// The request that reads option `SndKmState`.
    pub fn get_send_km_state(&self) -> (r: NativeCall)
        ensures
            is_get_call(r, self.id, SrtSockOpt::SndKmState),
    {
        self.query(SrtSockOpt::SndKmState)
    }

    /// The request that reads option `SndSyn`.
    pub fn get_send_blocking(&self) -> (r: NativeCall)
        ensures
            is_get_call(r, self.id, SrtSockOpt::SndSyn),
    {
        self.query(SrtSockOpt::SndSyn)
    }

    /// The request that reads option `SndTimeo`.
    pub fn get_send_timeout(&self) -> (r: NativeCall)
        ensures
            is_get_call(r, self.id, SrtSockOpt::SndTimeo),
    {
        self.query(SrtSockOpt::SndTimeo)
    }

    /// The request that reads option `StreamId`.
    pub fn get_stream_id(&self) -> (r: NativeCall)
        ensures
            is_get_call(r, self.id, SrtSockOpt::StreamId),
    {
        self.query(SrtSockOpt::StreamId)
    }

    /// The request that reads option `TlPktDrop`.
    pub fn get_too_late_packet_drop(&self) -> (r: NativeCall)
        ensures
            is_get_call(r, self.id, SrtSockOpt::TlPktDrop),
    {
        self.query(SrtSockOpt::TlPktDrop)
    }

    /// The request that reads option `TsbpdMode`.
    pub fn get_timestamp_based_packet_delivery_mode(&self) -> (r: NativeCall)
        ensures
            is_get_call(r, self.id, SrtSockOpt::TsbpdMode),
    {
        self.query(SrtSockOpt::TsbpdMode)
    }

    /// The request that reads option `UdpRcvBuf`.
    pub fn get_udp_receive_buffer(&self) -> (r: NativeCall)
        ensures
            is_get_call(r, self.id, SrtSockOpt::UdpRcvBuf),
    {
        self.query(SrtSockOpt::UdpRcvBuf)
    }

    /// The request that reads option `UdpSndBuf`.
    pub fn get_udp_send_buffer(&self) -> (r: NativeCall)
        ensures
            is_get_call(r, self.id, SrtSockOpt::UdpSndBuf),
    {
        self.query(SrtSockOpt::UdpSndBuf)
    }

    /// The request that reads option `Version`.
    pub fn get_srt_version(&self) -> (r: NativeCall)
        ensures
            is_get_call(r, self.id, SrtSockOpt::Version),
    {
        self.query(SrtSockOpt::Version)
    }

    /// The request that reads option `Event`.
    pub fn get_events(&self) -> (r: NativeCall)
        ensures
            is_get_call(r, self.id, SrtSockOpt::Event),
    {
        self.query(SrtSockOpt::Event)
    }

}

impl SrtSocket {
    /// The request that writes option `DriftTracer`.
    pub fn set_time_drift_tracer(&self, enable: bool) -> (r: NativeCall)
        ensures
            is_set_call(r, self.id, SrtSockOpt::DriftTracer, OptionValueModel::Bool(enable)),
    {
        self.flag(SrtSockOpt::DriftTracer, OptionValue::Bool(enable))
    }

    /// The request that writes option `InputBw`.
    pub fn set_input_bandwith(&self, bytes_per_sec: i64) -> (r: NativeCall)
        ensures
            is_set_call(r, self.id, SrtSockOpt::InputBw, OptionValueModel::Int64(bytes_per_sec)),
    {
        self.flag(SrtSockOpt::InputBw, OptionValue::Int64(bytes_per_sec))
    }

    /// The request that writes option `OheadBw`.
    pub fn set_recovery_bandwidth_overhead(&self, per_cent: i32) -> (r: NativeCall)
        ensures
            is_set_call(r, self.id, SrtSockOpt::OheadBw, OptionValueModel::Int32(per_cent)),
    {
        self.flag(SrtSockOpt::OheadBw, OptionValue::Int32(per_cent))
    }

    /// The request that writes option `RcvTimeo`.
    pub fn set_receive_timeout(&self, msecs: i32) -> (r: NativeCall)
        ensures
            is_set_call(r, self.id, SrtSockOpt::RcvTimeo, OptionValueModel::Int32(msecs)),
    {
        self.flag(SrtSockOpt::RcvTimeo, OptionValue::Int32(msecs))
    }

    /// The request that writes option `SndSyn`.
    pub fn set_send_blocking(&self, blocking: bool) -> (r: NativeCall)
        ensures
            is_set_call(r, self.id, SrtSockOpt::SndSyn, OptionValueModel::Bool(blocking)),
    {
        self.flag(SrtSockOpt::SndSyn, OptionValue::Bool(blocking))
    }

    /// The request that writes option `SndTimeo`.
    pub fn set_send_timeout(&self, msecs: i32) -> (r: NativeCall)
        ensures
            is_set_call(r, self.id, SrtSockOpt::SndTimeo, OptionValueModel::Int32(msecs)),
    {
        self.flag(SrtSockOpt::SndTimeo, OptionValue::Int32(msecs))
    }

    /// The request that writes option `ConnTimeo`.
    pub fn set_connection_timeout(&self, msecs: i32) -> (r: NativeCall)
        ensures
            is_set_call(r, self.id, SrtSockOpt::ConnTimeo, OptionValueModel::Int32(msecs)),
    {
        self.flag(SrtSockOpt::ConnTimeo, OptionValue::Int32(msecs))
    }

    /// The request that writes option `Fc`.
    pub fn set_flight_flag_size(&self, packets: i32) -> (r: NativeCall)
        ensures
            is_set_call(r, self.id, SrtSockOpt::Fc, OptionValueModel::Int32(packets)),
    {
        self.flag(SrtSockOpt::Fc, OptionValue::Int32(packets))
    }

    /// The request that writes option `IpTos`.
    pub fn set_ip_type_of_service(&self, type_of_service: i32) -> (r: NativeCall)
        ensures
            is_set_call(r, self.id, SrtSockOpt::IpTos, OptionValueModel::Int32(type_of_service)),
    {
        self.flag(SrtSockOpt::IpTos, OptionValue::Int32(type_of_service))
    }

    /// The request that writes option `IpTtl`.
    pub fn set_ipv4_time_to_live(&self, hops: i32) -> (r: NativeCall)
        ensures
            is_set_call(r, self.id, SrtSockOpt::IpTtl, OptionValueModel::Int32(hops)),
    {
        self.flag(SrtSockOpt::IpTtl, OptionValue::Int32(hops))
    }

    /// The request that writes option `Ipv6Only`.
    pub fn set_ipv6_only(&self, value: i32) -> (r: NativeCall)
        ensures
            is_set_call(r, self.id, SrtSockOpt::Ipv6Only, OptionValueModel::Int32(value)),
    {
        self.flag(SrtSockOpt::Ipv6Only, OptionValue::Int32(value))
    }

    /// The request that writes option `KmRefreshRate`.
    pub fn set_km_refresh_rate(&self, packets: i32) -> (r: NativeCall)
        ensures
            is_set_call(r, self.id, SrtSockOpt::KmRefreshRate, OptionValueModel::Int32(packets)),
    {
        self.flag(SrtSockOpt::KmRefreshRate, OptionValue::Int32(packets))
    }

    /// The request that writes option `KmPreAnnounce`.
    pub fn set_km_preannounce(&self, packets: i32) -> (r: NativeCall)
        ensures
            is_set_call(r, self.id, SrtSockOpt::KmPreAnnounce, OptionValueModel::Int32(packets)),
    {
        self.flag(SrtSockOpt::KmPreAnnounce, OptionValue::Int32(packets))
    }

    /// The request that writes option `LossMaxTtl`.
    pub fn set_max_reorder_tolerance(&self, packets: i32) -> (r: NativeCall)
        ensures
            is_set_call(r, self.id, SrtSockOpt::LossMaxTtl, OptionValueModel::Int32(packets)),
    {
        self.flag(SrtSockOpt::LossMaxTtl, OptionValue::Int32(packets))
    }

    /// The request that writes option `MaxBw`.
    pub fn set_max_bandwith(&self, bytes_per_sec: i64) -> (r: NativeCall)
        ensures
            is_set_call(r, self.id, SrtSockOpt::MaxBw, OptionValueModel::Int64(bytes_per_sec)),
    {
        self.flag(SrtSockOpt::MaxBw, OptionValue::Int64(bytes_per_sec))
    }

    /// The request that writes option `MessageApi`.
    pub fn set_message_api(&self, enable: bool) -> (r: NativeCall)
        ensures
            is_set_call(r, self.id, SrtSockOpt::MessageApi, OptionValueModel::Bool(enable)),
    {
        self.flag(SrtSockOpt::MessageApi, OptionValue::Bool(enable))
    }

    /// The request that writes option `MinVersion`.
    pub fn set_min_version(&self, version: i32) -> (r: NativeCall)
        ensures
            is_set_call(r, self.id, SrtSockOpt::MinVersion, OptionValueModel::Int32(version)),
    {
        self.flag(SrtSockOpt::MinVersion, OptionValue::Int32(version))
    }

    /// The request that writes option `Mss`.
    pub fn set_mss(&self, bytes: i32) -> (r: NativeCall)
        ensures
            is_set_call(r, self.id, SrtSockOpt::Mss, OptionValueModel::Int32(bytes)),
    {
        self.flag(SrtSockOpt::Mss, OptionValue::Int32(bytes))
    }

    /// The request that writes option `NakReport`.
    pub fn set_nak_report(&self, enable: bool) -> (r: NativeCall)
        ensures
            is_set_call(r, self.id, SrtSockOpt::NakReport, OptionValueModel::Bool(enable)),
    {
        self.flag(SrtSockOpt::NakReport, OptionValue::Bool(enable))
    }

    /// The request that writes option `PayloadSize`.
    pub fn set_payload_size(&self, bytes: i32) -> (r: NativeCall)
        ensures
            is_set_call(r, self.id, SrtSockOpt::PayloadSize, OptionValueModel::Int32(bytes)),
    {
        self.flag(SrtSockOpt::PayloadSize, OptionValue::Int32(bytes))
    }

    /// The request that writes option `PbKeyLen`.
    pub fn set_encryption_key_length(&self, bytes: i32) -> (r: NativeCall)
        ensures
            is_set_call(r, self.id, SrtSockOpt::PbKeyLen, OptionValueModel::Int32(bytes)),
    {
        self.flag(SrtSockOpt::PbKeyLen, OptionValue::Int32(bytes))
    }

    /// The request that writes option `PeerIdleTimeo`.
    pub fn set_peer_idle_timeout(&self, msecs: i32) -> (r: NativeCall)
        ensures
            is_set_call(r, self.id, SrtSockOpt::PeerIdleTimeo, OptionValueModel::Int32(msecs)),
    {
        self.flag(SrtSockOpt::PeerIdleTimeo, OptionValue::Int32(msecs))
    }

    /// The request that writes option `PeerLatency`.
    pub fn set_peer_latency(&self, msecs: i32) -> (r: NativeCall)
        ensures
            is_set_call(r, self.id, SrtSockOpt::PeerLatency, OptionValueModel::Int32(msecs)),
    {
        self.flag(SrtSockOpt::PeerLatency, OptionValue::Int32(msecs))
    }

    /// The request that writes option `RcvBuf`.
    pub fn set_receive_buffer(&self, bytes: i32) -> (r: NativeCall)
        ensures
            is_set_call(r, self.id, SrtSockOpt::RcvBuf, OptionValueModel::Int32(bytes)),
    {
        self.flag(SrtSockOpt::RcvBuf, OptionValue::Int32(bytes))
    }

    /// The request that writes option `RcvLatency`.
    pub fn set_receive_latency(&self, msecs: i32) -> (r: NativeCall)
        ensures
            is_set_call(r, self.id, SrtSockOpt::RcvLatency, OptionValueModel::Int32(msecs)),
    {
        self.flag(SrtSockOpt::RcvLatency, OptionValue::Int32(msecs))
    }

    /// The request that writes option `RcvSyn`.
    pub fn set_receive_blocking(&self, blocking: bool) -> (r: NativeCall)
        ensures
            is_set_call(r, self.id, SrtSockOpt::RcvSyn, OptionValueModel::Bool(blocking)),
    {
        self.flag(SrtSockOpt::RcvSyn, OptionValue::Bool(blocking))
    }

    /// The request that writes option `Rendezvous`.
    pub fn set_rendezvous(&self, rendezvous: bool) -> (r: NativeCall)
        ensures
            is_set_call(r, self.id, SrtSockOpt::Rendezvous, OptionValueModel::Bool(rendezvous)),
    {
        self.flag(SrtSockOpt::Rendezvous, OptionValue::Bool(rendezvous))
    }

    /// The request that writes option `Latency`.
    pub fn set_latency(&self, latency: i32) -> (r: NativeCall)
        ensures
            is_set_call(r, self.id, SrtSockOpt::Latency, OptionValueModel::Int32(latency)),
    {
        self.flag(SrtSockOpt::Latency, OptionValue::Int32(latency))
    }

    /// The request that writes option `Sender`.
    pub fn set_sender(&self, sender: bool) -> (r: NativeCall)
        ensures
            is_set_call(r, self.id, SrtSockOpt::Sender, OptionValueModel::Bool(sender)),
    {
        self.flag(SrtSockOpt::Sender, OptionValue::Bool(sender))
    }

    /// The request that writes option `ReuseAddr`.
    pub fn set_reuse_address(&self, reuse: bool) -> (r: NativeCall)
        ensures
            is_set_call(r, self.id, SrtSockOpt::ReuseAddr, OptionValueModel::Bool(reuse)),
    {
        self.flag(SrtSockOpt::ReuseAddr, OptionValue::Bool(reuse))
    }

    /// The request that writes option `SndBuf`.
    pub fn set_send_buffer(&self, bytes: i32) -> (r: NativeCall)
        ensures
            is_set_call(r, self.id, SrtSockOpt::SndBuf, OptionValueModel::Int32(bytes)),
    {
        self.flag(SrtSockOpt::SndBuf, OptionValue::Int32(bytes))
    }

    /// The request that writes option `SndDropDelay`.
    pub fn set_send_drop_delay(&self, msecs: i32) -> (r: NativeCall)
        ensures
            is_set_call(r, self.id, SrtSockOpt::SndDropDelay, OptionValueModel::Int32(msecs)),
    {
        self.flag(SrtSockOpt::SndDropDelay, OptionValue::Int32(msecs))
    }

    /// The request that writes option `EnforcedEncryption`.
    pub fn set_enforced_encryption(&self, enforced: bool) -> (r: NativeCall)
        ensures
            is_set_call(
                r,
                self.id,
                SrtSockOpt::EnforcedEncryption,
                OptionValueModel::Bool(enforced),
            ),
    {
        self.flag(SrtSockOpt::EnforcedEncryption, OptionValue::Bool(enforced))
    }

    /// The request that writes option `TlPktDrop`.
    pub fn set_too_late_packet_drop(&self, enable: bool) -> (r: NativeCall)
        ensures
            is_set_call(r, self.id, SrtSockOpt::TlPktDrop, OptionValueModel::Bool(enable)),
    {
        self.flag(SrtSockOpt::TlPktDrop, OptionValue::Bool(enable))
    }

    /// The request that writes option `TransType`.
    pub fn set_transmission_type(&self, transmission_type: SrtTransmissionType) -> (r: NativeCall)
        ensures
            is_set_call(
                r,
                self.id,
                SrtSockOpt::TransType,
                OptionValueModel::TransType(transmission_type),
            ),
    {
        self.flag(SrtSockOpt::TransType, OptionValue::TransType(transmission_type))
    }

    /// The request that writes option `TsbpdMode`.
    pub fn set_timestamp_based_packet_delivery_mode(&self, enable: bool) -> (r: NativeCall)
        ensures
            is_set_call(r, self.id, SrtSockOpt::TsbpdMode, OptionValueModel::Bool(enable)),
    {
        self.flag(SrtSockOpt::TsbpdMode, OptionValue::Bool(enable))
    }

    /// The request that writes option `UdpSndBuf`.
    pub fn set_udp_send_buffer(&self, bytes: i32) -> (r: NativeCall)
        ensures
            is_set_call(r, self.id, SrtSockOpt::UdpSndBuf, OptionValueModel::Int32(bytes)),
    {
        self.flag(SrtSockOpt::UdpSndBuf, OptionValue::Int32(bytes))
    }

    /// The request that writes option `UdpRcvBuf`.
    pub fn set_udp_receive_buffer(&self, bytes: i32) -> (r: NativeCall)
        ensures
            is_set_call(r, self.id, SrtSockOpt::UdpRcvBuf, OptionValueModel::Int32(bytes)),
    {
        self.flag(SrtSockOpt::UdpRcvBuf, OptionValue::Int32(bytes))
    }

    /// The request that writes option `BindToDevice` with the bytes of `device`;
    /// refused with `ValueTruncated` when they are more than `MAX_OPTION_BYTES`.
    pub fn set_bind_to_device(&self, device: &str) -> (r: Result<NativeCall, SrtError>)
        ensures
            set_result(
                r,
                self.id,
                SrtSockOpt::BindToDevice,
                OptionValueModel::Bytes(device.spec_bytes()),
            ),
    {
        let bytes = slice_to_vec(device.as_bytes());
        self.set_option(SrtSockOpt::BindToDevice, &OptionValue::Bytes(bytes))
    }

    /// The request that writes option `PacketFilter` with the bytes of `filter`;
    /// refused with `ValueTruncated` when they are more than `MAX_OPTION_BYTES`.
    pub fn set_packet_filter(&self, filter: &str) -> (r: Result<NativeCall, SrtError>)
        ensures
            set_result(
                r,
                self.id,
                SrtSockOpt::PacketFilter,
                OptionValueModel::Bytes(filter.spec_bytes()),
            ),
    {
        let bytes = slice_to_vec(filter.as_bytes());
        self.set_option(SrtSockOpt::PacketFilter, &OptionValue::Bytes(bytes))
    }

    /// The request that writes option `Passphrase` with the bytes of `passphrase`;
    /// refused with `ValueTruncated` when they are more than `MAX_OPTION_BYTES`.
    pub fn set_passphrase(&self, passphrase: &str) -> (r: Result<NativeCall, SrtError>)
        ensures
            set_result(
                r,
                self.id,
                SrtSockOpt::Passphrase,
                OptionValueModel::Bytes(passphrase.spec_bytes()),
            ),
    {
        let bytes = slice_to_vec(passphrase.as_bytes());
        self.set_option(SrtSockOpt::Passphrase, &OptionValue::Bytes(bytes))
    }

    /// The request that writes option `StreamId` with the bytes of `id`;
    /// refused with `ValueTruncated` when they are more than `MAX_OPTION_BYTES`.
    pub fn set_stream_id(&self, id: &str) -> (r: Result<NativeCall, SrtError>)
        ensures
            set_result(
                r,
                self.id,
                SrtSockOpt::StreamId,
                OptionValueModel::Bytes(id.spec_bytes()),
            ),
    {
        let bytes = slice_to_vec(id.as_bytes());
        self.set_option(SrtSockOpt::StreamId, &OptionValue::Bytes(bytes))
    }

}
/// Reading the engine's replies.
impl SrtSocket {
    /// The result of a call that reports only success or failure.
    pub fn finish(outcome: CallOutcome) -> (r: Result<(), SrtError>)
        ensures
            r == handle_result_spec((), outcome),
    {
        handle_result((), outcome)
    }

    /// The number of bytes that a send or receive of `len` bytes moved. A
    /// count above `len` cannot be trusted and is `BufferTooSmall`.
    pub fn finish_transfer(outcome: CallOutcome, len: i32) -> (r: Result<usize, SrtError>)
        ensures
            outcome.failed() ==> r == Err::<usize, SrtError>(outcome.error()),
            !outcome.failed() && outcome.result <= len ==> r == Ok::<usize, SrtError>(
                outcome.result as usize,
            ),
            !outcome.failed() && outcome.result > len ==> r == Err::<usize, SrtError>(
                SrtError::BufferTooSmall,
            ),
    {
        if outcome.result < 0 {
            Err(SrtError::from_code(outcome.error_code, outcome.reject_code))
        } else if outcome.result > len {
            Err(SrtError::BufferTooSmall)
        } else {
            Ok(outcome.result as usize)
        }
    }

    /// The new socket and the peer's address from an accept. A success
    /// without a readable address is `BadAddress`.
    pub fn finish_accept(outcome: CallOutcome, peer: Option<SrtSocketAddr>) -> (r: Result<
        (SrtSocket, SrtSocketAddr),
        SrtError,
    >)
        ensures
            outcome.failed() ==> r == Err::<(SrtSocket, SrtSocketAddr), SrtError>(outcome.error()),
            !outcome.failed() ==> r == match peer {
                Some(a) => Ok::<(SrtSocket, SrtSocketAddr), SrtError>(
                    (SrtSocket { id: outcome.result }, a),
                ),
                None => Err(SrtError::BadAddress),
            },
    {
        if outcome.result < 0 {
            return Err(SrtError::from_code(outcome.error_code, outcome.reject_code));
        }
        match peer {
            Some(a) => Ok((SrtSocket { id: outcome.result }, a)),
            None => Err(SrtError::BadAddress),
        }
    }

    /// The address from a local- or peer-address query. A success without a
    /// readable address is `BadAddress`.
    pub fn finish_addr(outcome: CallOutcome, addr: Option<SrtSocketAddr>) -> (r: Result<
        SrtSocketAddr,
        SrtError,
    >)
        ensures
            outcome.failed() ==> r == Err::<SrtSocketAddr, SrtError>(outcome.error()),
            !outcome.failed() ==> r == match addr {
                Some(a) => Ok::<SrtSocketAddr, SrtError>(a),
                None => Err(SrtError::BadAddress),
            },
    {
        if outcome.result < 0 {
            return Err(SrtError::from_code(outcome.error_code, outcome.reject_code));
        }
        match addr {
            Some(a) => Ok(a),
            None => Err(SrtError::BadAddress),
        }
    }

    /// The value of any option from the engine's reply to a read.
    pub fn finish_get(o: SrtSockOpt, outcome: CallOutcome, buf: &Vec<u8>, reported: i32) -> (r:
        Result<OptionValue, SrtError>)
        ensures
            value_result_view(r) == get_reply_spec(o, outcome, buf@, reported),
    {
        get_reply(o, outcome, buf, reported)
    }

    /// The bytes of a byte-string option from the engine's reply to a read.
    pub fn finish_get_bytes(o: SrtSockOpt, outcome: CallOutcome, buf: &Vec<u8>, reported: i32) -> (r:
        Result<Vec<u8>, SrtError>)
        requires
            descriptor(o).kind == OptionType::Bytes,
        ensures
            match r {
                Ok(b) => get_reply_spec(o, outcome, buf@, reported) == Ok::<
                    OptionValueModel,
                    SrtError,
                >(OptionValueModel::Bytes(b@)),
                Err(e) => get_reply_spec(o, outcome, buf@, reported) == Err::<
                    OptionValueModel,
                    SrtError,
                >(e),
            },
    {
        match get_reply(o, outcome, buf, reported) {
            Ok(OptionValue::Bytes(b)) => Ok(b),
            Ok(_) => Err(SrtError::BufferTooSmall),
            Err(e) => Err(e),
        }
    }

    /// The value of a `Bool` option from the engine's reply to a read.
    pub fn finish_get_bool(o: SrtSockOpt, outcome: CallOutcome, buf: &Vec<u8>, reported: i32) -> (r:
        Result<bool, SrtError>)
        requires
            descriptor(o).kind == OptionType::Bool,
        ensures
            match r {
                Ok(b) => get_reply_spec(o, outcome, buf@, reported) == Ok::<
                    OptionValueModel,
                    SrtError,
                >(OptionValueModel::Bool(b)),
                Err(e) => get_reply_spec(o, outcome, buf@, reported) == Err::<
                    OptionValueModel,
                    SrtError,
                >(e),
            },
    {
        match get_reply(o, outcome, buf, reported) {
            Ok(OptionValue::Bool(b)) => Ok(b),
            Ok(_) => Err(SrtError::BufferTooSmall),
            Err(e) => Err(e),
        }
    }

    /// The value of a `Int32` option from the engine's reply to a read.
    pub fn finish_get_i32(o: SrtSockOpt, outcome: CallOutcome, buf: &Vec<u8>, reported: i32) -> (r:
        Result<i32, SrtError>)
        requires
            descriptor(o).kind == OptionType::Int32,
        ensures
            match r {
                Ok(x) => get_reply_spec(o, outcome, buf@, reported) == Ok::<
                    OptionValueModel,
                    SrtError,
                >(OptionValueModel::Int32(x)),
                Err(e) => get_reply_spec(o, outcome, buf@, reported) == Err::<
                    OptionValueModel,
                    SrtError,
                >(e),
            },
    {
        match get_reply(o, outcome, buf, reported) {
            Ok(OptionValue::Int32(x)) => Ok(x),
            Ok(_) => Err(SrtError::BufferTooSmall),
            Err(e) => Err(e),
        }
    }

    /// The value of a `Int64` option from the engine's reply to a read.
    pub fn finish_get_i64(o: SrtSockOpt, outcome: CallOutcome, buf: &Vec<u8>, reported: i32) -> (r:
        Result<i64, SrtError>)
        requires
            descriptor(o).kind == OptionType::Int64,
        ensures
            match r {
                Ok(x) => get_reply_spec(o, outcome, buf@, reported) == Ok::<
                    OptionValueModel,
                    SrtError,
                >(OptionValueModel::Int64(x)),
                Err(e) => get_reply_spec(o, outcome, buf@, reported) == Err::<
                    OptionValueModel,
                    SrtError,
                >(e),
            },
    {
        match get_reply(o, outcome, buf, reported) {
            Ok(OptionValue::Int64(x)) => Ok(x),
            Ok(_) => Err(SrtError::BufferTooSmall),
            Err(e) => Err(e),
        }
    }

    /// The value of a `Linger` option from the engine's reply to a read.
    pub fn finish_get_linger(o: SrtSockOpt, outcome: CallOutcome, buf: &Vec<u8>, reported: i32) -> (r:
        Result<SrtLinger, SrtError>)
        requires
            descriptor(o).kind == OptionType::Linger,
        ensures
            match r {
                Ok(l) => get_reply_spec(o, outcome, buf@, reported) == Ok::<
                    OptionValueModel,
                    SrtError,
                >(OptionValueModel::Linger(l)),
                Err(e) => get_reply_spec(o, outcome, buf@, reported) == Err::<
                    OptionValueModel,
                    SrtError,
                >(e),
            },
    {
        match get_reply(o, outcome, buf, reported) {
            Ok(OptionValue::Linger(l)) => Ok(l),
            Ok(_) => Err(SrtError::BufferTooSmall),
            Err(e) => Err(e),
        }
    }

    /// The value of a `KmState` option from the engine's reply to a read.
    pub fn finish_get_km_state(o: SrtSockOpt, outcome: CallOutcome, buf: &Vec<u8>, reported: i32) -> (r:
        Result<SrtKmState, SrtError>)
        requires
            descriptor(o).kind == OptionType::KmState,
        ensures
            match r {
                Ok(k) => get_reply_spec(o, outcome, buf@, reported) == Ok::<
                    OptionValueModel,
                    SrtError,
                >(OptionValueModel::KmState(k)),
                Err(e) => get_reply_spec(o, outcome, buf@, reported) == Err::<
                    OptionValueModel,
                    SrtError,
                >(e),
            },
    {
        match get_reply(o, outcome, buf, reported) {
            Ok(OptionValue::KmState(k)) => Ok(k),
            Ok(_) => Err(SrtError::BufferTooSmall),
            Err(e) => Err(e),
        }
    }
}

} // verus!
