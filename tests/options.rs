use srt_rs::error::{CallOutcome, SrtError};
use srt_rs::options::{
    decode_value, encode_value, OptionType, OptionValue, SrtCongestionController, SrtKmState,
    SrtLinger, SrtSockOpt, SrtTransmissionType, MAX_OPTION_BYTES,
};
use srt_rs::socket::{NativeCall, SrtSocket};

fn ok() -> CallOutcome {
    CallOutcome { result: 0, error_code: 0, reject_code: 0 }
}

fn written(c: NativeCall) -> Vec<u8> {
    match c {
        NativeCall::SetFlag { value, .. } => value,
        other => panic!("not a write: {:?}", other),
    }
}

fn capacity(c: &NativeCall) -> usize {
    match c {
        NativeCall::GetFlag { capacity, .. } => *capacity as usize,
        other => panic!("not a read: {:?}", other),
    }
}

/// Writes `v` to `o`, lets a buffer of the read's capacity start with the
/// written bytes, and reads it back.
fn round_trip(o: SrtSockOpt, v: OptionValue) -> OptionValue {
    let s = SrtSocket { id: 1 };
    let bytes = written(s.set_option(o, &v).unwrap());
    let read = s.get_option(o).unwrap();
    let mut buf = vec![0xaau8; capacity(&read)];
    buf[..bytes.len()].copy_from_slice(&bytes);
    SrtSocket::finish_get(o, ok(), &buf, bytes.len() as i32).unwrap()
}

#[test]
fn integer_encodings_are_exact() {
    let s = SrtSocket { id: 5 };
    assert_eq!(
        s.set_mss(1500),
        NativeCall::SetFlag { sock: 5, opt: SrtSockOpt::Mss, value: vec![0xdc, 0x05, 0, 0] }
    );
    assert_eq!(written(s.set_send_timeout(10)), vec![10, 0, 0, 0]);
    assert_eq!(written(s.set_latency(-1)), vec![0xff, 0xff, 0xff, 0xff]);
    assert_eq!(written(s.set_max_bandwith(-1)), vec![0xff; 8]);
    assert_eq!(
        written(s.set_input_bandwith(0x0102_0304_0506_0708)),
        vec![8, 7, 6, 5, 4, 3, 2, 1]
    );
}

#[test]
fn flag_and_pair_encodings_are_exact() {
    let s = SrtSocket { id: 5 };
    assert_eq!(written(s.set_send_blocking(true)), vec![1]);
    assert_eq!(written(s.set_nak_report(false)), vec![0]);
    assert_eq!(written(s.set_time_drift_tracer(true)), vec![1]);
    assert_eq!(written(s.set_linger(180)), vec![1, 0, 0, 0, 180, 0, 0, 0]);
    assert_eq!(written(s.set_linger(0)), vec![0, 0, 0, 0, 0, 0, 0, 0]);
    assert_eq!(written(s.set_retransmission_algorithm(true)), vec![1, 0, 0, 0]);
    assert_eq!(written(s.set_retransmission_algorithm(false)), vec![0, 0, 0, 0]);
    assert_eq!(written(s.set_transmission_type(SrtTransmissionType::File)), vec![1, 0, 0, 0]);
    assert_eq!(written(s.set_transmission_type(SrtTransmissionType::Live)), vec![0, 0, 0, 0]);
    assert_eq!(written(s.set_congestion_controller(SrtCongestionController::Live)), b"live".to_vec());
    assert_eq!(written(s.set_congestion_controller(SrtCongestionController::File)), b"file".to_vec());
}

#[test]
fn byte_string_setters_carry_the_bytes() {
    let s = SrtSocket { id: 6 };
    assert_eq!(
        s.set_stream_id("#!::r=live/cam1"),
        Ok(NativeCall::SetFlag {
            sock: 6,
            opt: SrtSockOpt::StreamId,
            value: b"#!::r=live/cam1".to_vec()
        })
    );
    assert_eq!(written(s.set_passphrase("SECRET-REDACTED").unwrap()), b"SECRET-REDACTED".to_vec());
    assert_eq!(written(s.set_packet_filter("fec,cols:10").unwrap()), b"fec,cols:10".to_vec());
    assert_eq!(written(s.set_bind_to_device("eth0").unwrap()), b"eth0".to_vec());
    assert_eq!(written(s.set_stream_id("").unwrap()), Vec::<u8>::new());
}

#[test]
fn byte_strings_at_the_cap_and_over_it() {
    let s = SrtSocket { id: 6 };
    let at_cap = "x".repeat(MAX_OPTION_BYTES);
    let over = "x".repeat(MAX_OPTION_BYTES + 1);
    assert_eq!(written(s.set_stream_id(&at_cap).unwrap()).len(), MAX_OPTION_BYTES);
    assert_eq!(s.set_stream_id(&over), Err(SrtError::ValueTruncated));
    assert_eq!(s.set_stream_id(&over), Err(SrtError::ValueTruncated));
    assert_eq!(s.set_passphrase(&over), Err(SrtError::ValueTruncated));
    assert_eq!(s.set_packet_filter(&"y".repeat(4000)), Err(SrtError::ValueTruncated));
}

#[test]
fn round_trips_of_integers_and_flags() {
    for x in [0, 1, -1, 1500, i32::MAX, i32::MIN] {
        assert_eq!(round_trip(SrtSockOpt::Mss, OptionValue::Int32(x)), OptionValue::Int32(x));
        assert_eq!(round_trip(SrtSockOpt::RcvTimeo, OptionValue::Int32(x)), OptionValue::Int32(x));
    }
    for x in [0, -1, 1_000_000_000_000, i64::MAX, i64::MIN] {
        assert_eq!(round_trip(SrtSockOpt::MaxBw, OptionValue::Int64(x)), OptionValue::Int64(x));
    }
    for b in [true, false] {
        assert_eq!(round_trip(SrtSockOpt::TlPktDrop, OptionValue::Bool(b)), OptionValue::Bool(b));
        assert_eq!(round_trip(SrtSockOpt::RcvSyn, OptionValue::Bool(b)), OptionValue::Bool(b));
    }
    let l = SrtLinger { enabled: true, secs: 30 };
    assert_eq!(round_trip(SrtSockOpt::Linger, OptionValue::Linger(l)), OptionValue::Linger(l));
    let l = SrtLinger { enabled: false, secs: -4 };
    assert_eq!(round_trip(SrtSockOpt::Linger, OptionValue::Linger(l)), OptionValue::Linger(l));
}

#[test]
fn round_trips_of_byte_strings() {
    for v in [Vec::new(), b"stream".to_vec(), vec![7u8; MAX_OPTION_BYTES]] {
        assert_eq!(
            round_trip(SrtSockOpt::StreamId, OptionValue::Bytes(v.clone())),
            OptionValue::Bytes(v)
        );
    }
}

#[test]
fn registry_refusals() {
    let s = SrtSocket { id: 1 };
    assert_eq!(
        s.set_option(SrtSockOpt::Isn, &OptionValue::Int32(1)),
        Err(SrtError::InvalidOperationForState(5000))
    );
    assert_eq!(s.get_option(SrtSockOpt::Passphrase), Err(SrtError::InvalidOperationForState(5000)));
    assert_eq!(s.set_option(SrtSockOpt::Mss, &OptionValue::Int64(1)), Err(SrtError::BufferTooSmall));
    assert_eq!(
        s.set_option(SrtSockOpt::StreamId, &OptionValue::Bool(true)),
        Err(SrtError::BufferTooSmall)
    );
}

#[test]
fn read_requests_have_the_option_width() {
    let s = SrtSocket { id: 9 };
    assert_eq!(s.get_mss(), NativeCall::GetFlag { sock: 9, opt: SrtSockOpt::Mss, capacity: 4 });
    assert_eq!(capacity(&s.get_max_bandwith()), 8);
    assert_eq!(capacity(&s.get_input_bandwith()), 8);
    assert_eq!(capacity(&s.get_receive_blocking()), 1);
    assert_eq!(capacity(&s.get_linger()), 8);
    assert_eq!(capacity(&s.get_send_km_state()), 4);
    assert_eq!(capacity(&s.get_stream_id()), MAX_OPTION_BYTES);
    assert_eq!(
        s.get_stream_id(),
        NativeCall::GetFlag { sock: 9, opt: SrtSockOpt::StreamId, capacity: 512 }
    );
}

#[test]
fn typed_replies() {
    let buf = vec![0xdc, 0x05, 0, 0];
    assert_eq!(SrtSocket::finish_get_i32(SrtSockOpt::Mss, ok(), &buf, 4), Ok(1500));
    assert_eq!(SrtSocket::finish_get_bool(SrtSockOpt::RcvSyn, ok(), &vec![1], 1), Ok(true));
    assert_eq!(SrtSocket::finish_get_bool(SrtSockOpt::RcvSyn, ok(), &vec![0], 1), Ok(false));
    assert_eq!(
        SrtSocket::finish_get_i64(SrtSockOpt::MaxBw, ok(), &vec![0, 1, 0, 0, 0, 0, 0, 0], 8),
        Ok(256)
    );
    assert_eq!(
        SrtSocket::finish_get_linger(SrtSockOpt::Linger, ok(), &vec![1, 0, 0, 0, 9, 0, 0, 0], 8),
        Ok(SrtLinger { enabled: true, secs: 9 })
    );
    assert_eq!(
        SrtSocket::finish_get_km_state(SrtSockOpt::SndKmState, ok(), &vec![2, 0, 0, 0], 4),
        Ok(SrtKmState::Secured)
    );
    assert_eq!(
        SrtSocket::finish_get_km_state(SrtSockOpt::RcvKmState, ok(), &vec![4, 0, 0, 0], 4),
        Ok(SrtKmState::BadSecret)
    );
    let mut id = b"cam1".to_vec();
    id.resize(MAX_OPTION_BYTES, b' ');
    assert_eq!(
        SrtSocket::finish_get_bytes(SrtSockOpt::StreamId, ok(), &id, 4),
        Ok(b"cam1".to_vec())
    );
}

#[test]
fn reply_failures() {
    let failed = CallOutcome { result: -1, error_code: 5000, reject_code: 0 };
    assert_eq!(
        SrtSocket::finish_get_i32(SrtSockOpt::Mss, failed, &vec![0; 4], 4),
        Err(SrtError::InvalidOperationForState(5000))
    );
    assert_eq!(
        SrtSocket::finish_get_i32(SrtSockOpt::Mss, ok(), &vec![0; 4], 3),
        Err(SrtError::BufferTooSmall)
    );
    assert_eq!(
        SrtSocket::finish_get_i32(SrtSockOpt::Mss, ok(), &vec![0; 4], 5),
        Err(SrtError::BufferTooSmall)
    );
    assert_eq!(
        SrtSocket::finish_get_i32(SrtSockOpt::Mss, ok(), &vec![0; 4], -1),
        Err(SrtError::BufferTooSmall)
    );
    assert_eq!(
        SrtSocket::finish_get_km_state(SrtSockOpt::SndKmState, ok(), &vec![7, 0, 0, 0], 4),
        Err(SrtError::UnknownValue(7))
    );
}

#[test]
fn decoding_checks_width() {
    assert_eq!(decode_value(OptionType::Int32, &vec![1, 0]), Err(SrtError::BufferTooSmall));
    assert_eq!(decode_value(OptionType::Bool, &vec![1, 0]), Err(SrtError::BufferTooSmall));
    assert_eq!(
        decode_value(OptionType::Bytes, &vec![0; MAX_OPTION_BYTES + 1]),
        Err(SrtError::ValueTruncated)
    );
    assert_eq!(
        decode_value(OptionType::TransType, &vec![2, 0, 0, 0]),
        Ok(OptionValue::TransType(SrtTransmissionType::Invalid))
    );
    assert_eq!(encode_value(&OptionValue::KmState(SrtKmState::NoSecret)), vec![3, 0, 0, 0]);
}

#[test]
fn option_identifiers() {
    assert_eq!(SrtSockOpt::Mss.descriptor().id, 0);
    assert_eq!(SrtSockOpt::StreamId.descriptor().id, 46);
    assert_eq!(SrtSockOpt::Passphrase.descriptor().id, 26);
    assert_eq!(SrtSockOpt::RetransmitAlgo.descriptor().id, 61);
    assert_eq!(SrtSockOpt::Linger.descriptor().kind, OptionType::Linger);
}
