use srt_rs::error::{handle_result, CallOutcome, SrtError, SrtRejectReason};
use srt_rs::socket::SrtSocket;

fn failure(code: i32, reject: i32) -> CallOutcome {
    CallOutcome { result: -1, error_code: code, reject_code: reject }
}

#[test]
fn error_codes_are_classified() {
    assert_eq!(SrtError::from_code(1003, 0), SrtError::SocketCreationFailed(1003));
    assert_eq!(SrtError::from_code(3000, 0), SrtError::SocketCreationFailed(3000));
    assert_eq!(SrtError::from_code(5000, 0), SrtError::InvalidOperationForState(5000));
    assert_eq!(SrtError::from_code(5006, 0), SrtError::InvalidOperationForState(5006));
    assert_eq!(SrtError::from_code(2001, 0), SrtError::ConnectionBroken(2001));
    assert_eq!(SrtError::from_code(1005, 0), SrtError::ConnectionBroken(1005));
    assert_eq!(SrtError::from_code(2000, 0), SrtError::ConnectionBroken(2000));
    assert_eq!(SrtError::from_code(2002, 0), SrtError::InvalidOperationForState(2002));
    assert_eq!(SrtError::from_code(6002, 0), SrtError::Timeout(6002));
    assert_eq!(SrtError::from_code(6003, 0), SrtError::Timeout(6003));
    assert_eq!(SrtError::from_code(5004, 0), SrtError::NativeProtocolError(5004));
    assert_eq!(SrtError::from_code(-1, 0), SrtError::NativeProtocolError(-1));
    assert_eq!(SrtError::from_code(5003, 0), SrtError::NativeProtocolError(5003));
}

#[test]
fn reject_reasons_keep_their_codes() {
    assert_eq!(SrtRejectReason::from_code(0), SrtRejectReason::Unknown);
    assert_eq!(SrtRejectReason::from_code(2), SrtRejectReason::Peer);
    assert_eq!(SrtRejectReason::from_code(10), SrtRejectReason::BadSecret);
    assert_eq!(SrtRejectReason::from_code(16), SrtRejectReason::Timeout);
    assert_eq!(SrtRejectReason::from_code(1403), SrtRejectReason::Predefined(1403));
    assert_eq!(SrtRejectReason::from_code(2001), SrtRejectReason::UserDefined(2001));
    assert_eq!(SrtRejectReason::from_code(17), SrtRejectReason::Other(17));
    assert_eq!(SrtRejectReason::from_code(-3), SrtRejectReason::Other(-3));
    for code in [-5, 0, 1, 5, 9, 16, 17, 999, 1000, 1999, 2000, i32::MAX] {
        assert_eq!(SrtRejectReason::from_code(code).code(), code);
    }
}

#[test]
fn rejected_connection_reports_the_reason() {
    let r = SrtSocket::finish(failure(1002, 2));
    assert_eq!(r, Err(SrtError::ConnectionRejected(SrtRejectReason::Peer)));
    let r = SrtSocket::finish(failure(1002, 8));
    assert_eq!(r, Err(SrtError::ConnectionRejected(SrtRejectReason::Version)));
}

#[test]
fn success_passes_the_value_through() {
    let ok = CallOutcome { result: 0, error_code: 1002, reject_code: 2 };
    assert_eq!(handle_result(7u8, ok), Ok(7u8));
    assert_eq!(handle_result(7u8, failure(2001, 0)), Err(SrtError::ConnectionBroken(2001)));
    let odd = CallOutcome { result: -9, error_code: 6003, reject_code: 0 };
    assert_eq!(handle_result((), odd), Err(SrtError::Timeout(6003)));
}

#[test]
fn receive_timeout_is_classified_as_timeout() {
    let r = SrtSocket::finish_transfer(failure(6002, 0), 1316);
    assert_eq!(r, Err(SrtError::Timeout(6002)));
}

#[test]
fn closed_socket_errors_are_native_errors() {
    let r = SrtSocket::finish(failure(5004, 0));
    assert_eq!(r, Err(SrtError::NativeProtocolError(5004)));
}
