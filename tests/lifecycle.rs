use srt_rs::address::{first_candidate, SrtSocketAddr};
use srt_rs::error::{CallOutcome, SrtError};
use srt_rs::socket::{NativeCall, SrtSocket};
use srt_rs::state::{SocketOp, SrtSocketStatus};

const ALL_STATES: [SrtSocketStatus; 9] = [
    SrtSocketStatus::Init,
    SrtSocketStatus::Opened,
    SrtSocketStatus::Listening,
    SrtSocketStatus::Connecting,
    SrtSocketStatus::Connected,
    SrtSocketStatus::Broken,
    SrtSocketStatus::Closing,
    SrtSocketStatus::Closed,
    SrtSocketStatus::NonExist,
];

const ALL_OPS: [SocketOp; 8] = [
    SocketOp::Bind,
    SocketOp::Listen,
    SocketOp::Connect,
    SocketOp::Rendezvous,
    SocketOp::Accept,
    SocketOp::Send,
    SocketOp::Recv,
    SocketOp::Close,
];

fn ok(result: i32) -> CallOutcome {
    CallOutcome { result, error_code: 0, reject_code: 0 }
}

fn loopback(port: u16) -> SrtSocketAddr {
    SrtSocketAddr::V4 { ip: 0x7f00_0001, port }
}

#[test]
fn legal_transitions() {
    let mut s = SrtSocketStatus::Init;
    assert_eq!(s.apply(SocketOp::Bind), Ok(()));
    assert_eq!(s, SrtSocketStatus::Opened);
    assert_eq!(s.apply(SocketOp::Listen), Ok(()));
    assert_eq!(s, SrtSocketStatus::Listening);
    assert_eq!(s.apply(SocketOp::Accept), Ok(()));
    assert_eq!(s, SrtSocketStatus::Listening);
    assert_eq!(s.apply(SocketOp::Close), Ok(()));
    assert_eq!(s, SrtSocketStatus::Closed);

    let mut c = SrtSocketStatus::Init;
    assert_eq!(c.apply(SocketOp::Connect), Ok(()));
    assert_eq!(c, SrtSocketStatus::Connecting);
    let mut d = SrtSocketStatus::Connected;
    assert_eq!(d.apply(SocketOp::Send), Ok(()));
    assert_eq!(d.apply(SocketOp::Recv), Ok(()));
    assert_eq!(d, SrtSocketStatus::Connected);
}

#[test]
fn illegal_operations_leave_state_unchanged() {
    let mut refused = 0;
    for s in ALL_STATES {
        for op in ALL_OPS {
            let mut t = s;
            match t.apply(op) {
                Ok(()) => {}
                Err(e) => {
                    refused += 1;
                    assert_eq!(e, SrtError::InvalidOperationForState(5000));
                    assert_eq!(t, s);
                }
            }
        }
    }
    assert!(refused > 0);
    let mut l = SrtSocketStatus::Opened;
    assert_eq!(l.apply(SocketOp::Accept), Err(SrtError::InvalidOperationForState(5000)));
    assert_eq!(l, SrtSocketStatus::Opened);
}

#[test]
fn closed_socket_refuses_everything() {
    for op in ALL_OPS {
        let mut s = SrtSocketStatus::Closed;
        assert_eq!(s.apply(op), Err(SrtError::InvalidOperationForState(5000)));
        assert_eq!(s, SrtSocketStatus::Closed);
        let mut n = SrtSocketStatus::NonExist;
        assert!(n.apply(op).is_err());
    }
}

#[test]
fn status_codes() {
    assert_eq!(SrtSocketStatus::from_code(1), Ok(SrtSocketStatus::Init));
    assert_eq!(SrtSocketStatus::from_code(5), Ok(SrtSocketStatus::Connected));
    assert_eq!(SrtSocketStatus::from_code(9), Ok(SrtSocketStatus::NonExist));
    assert_eq!(SrtSocketStatus::from_code(0), Err(SrtError::NativeProtocolError(0)));
    assert_eq!(SrtSocketStatus::from_code(10), Err(SrtError::NativeProtocolError(10)));
}

#[test]
fn creation_outcomes() {
    assert_eq!(SrtSocket::new(ok(42)), Ok(SrtSocket { id: 42 }));
    let failed = CallOutcome { result: -1, error_code: 3000, reject_code: 0 };
    assert_eq!(SrtSocket::new(failed), Err(SrtError::SocketCreationFailed(3000)));
}

#[test]
fn first_candidate_is_used() {
    let a = loopback(9000);
    let b = SrtSocketAddr::V6 { ip: 1, port: 9000, flowinfo: 0, scope_id: 0 };
    assert_eq!(first_candidate(&vec![a, b]), Ok(a));
    assert_eq!(first_candidate(&vec![b, a]), Ok(b));
    assert_eq!(first_candidate(&vec![]), Err(SrtError::AddressResolutionFailed));
    let s = SrtSocket { id: 3 };
    assert_eq!(s.bind(&vec![a, b]), Ok(NativeCall::Bind { sock: 3, addr: a }));
    assert_eq!(s.connect(&vec![b]), Ok(NativeCall::Connect { sock: 3, addr: b }));
    assert_eq!(s.connect(&vec![]), Err(SrtError::AddressResolutionFailed));
}

#[test]
fn rendezvous_needs_both_addresses() {
    let s = SrtSocket { id: 4 };
    let l = loopback(5000);
    let r = loopback(5001);
    assert_eq!(
        s.rendezvous(&vec![l], &vec![r]),
        Ok(NativeCall::Rendezvous { sock: 4, local: l, remote: r })
    );
    assert_eq!(s.rendezvous(&vec![], &vec![r]), Err(SrtError::AddressResolutionFailed));
    assert_eq!(s.rendezvous(&vec![l], &vec![]), Err(SrtError::AddressResolutionFailed));
}

#[test]
fn listen_accept_send_recv_exchange() {
    let a = SrtSocket::new(ok(10)).unwrap();
    let bound = loopback(0);
    assert_eq!(a.bind(&vec![bound]), Ok(NativeCall::Bind { sock: 10, addr: bound }));
    assert_eq!(SrtSocket::finish(ok(0)), Ok(()));
    assert_eq!(a.listen(1), NativeCall::Listen { sock: 10, backlog: 1 });
    let local = loopback(41000);
    assert_eq!(a.local_addr(), NativeCall::LocalAddr { sock: 10 });
    assert_eq!(SrtSocket::finish_addr(ok(0), Some(local)), Ok(local));

    let b = SrtSocket::new(ok(11)).unwrap();
    assert_eq!(b.connect(&vec![local]), Ok(NativeCall::Connect { sock: 11, addr: local }));
    assert_eq!(b.peer_addr(), NativeCall::PeerAddr { sock: 11 });
    assert_eq!(SrtSocket::finish_addr(ok(0), Some(local)), Ok(local));

    assert_eq!(a.accept(), NativeCall::Accept { sock: 10 });
    let peer = loopback(41001);
    let (c, from) = SrtSocket::finish_accept(ok(12), Some(peer)).unwrap();
    assert_eq!(c, SrtSocket { id: 12 });
    assert_eq!(from, peer);

    assert_eq!(b.send(b"hello"), NativeCall::Send { sock: 11, len: 5 });
    assert_eq!(SrtSocket::finish_transfer(ok(5), 5), Ok(5));
    assert_eq!(c.recv(1500), NativeCall::Recv { sock: 12, len: 1500 });
    assert_eq!(SrtSocket::finish_transfer(ok(5), 1500), Ok(5));
}

#[test]
fn transfer_counts_are_checked() {
    let s = SrtSocket { id: 1 };
    assert_eq!(s.recv(usize::MAX), NativeCall::Recv { sock: 1, len: i32::MAX });
    assert_eq!(s.send(&[]), NativeCall::Send { sock: 1, len: 0 });
    assert_eq!(SrtSocket::finish_transfer(ok(6), 5), Err(SrtError::BufferTooSmall));
    assert_eq!(SrtSocket::finish_transfer(ok(0), 5), Ok(0));
}

#[test]
fn accept_and_address_failures() {
    let failed = CallOutcome { result: -1, error_code: 5006, reject_code: 0 };
    assert_eq!(
        SrtSocket::finish_accept(failed, None),
        Err(SrtError::InvalidOperationForState(5006))
    );
    assert_eq!(SrtSocket::finish_accept(ok(7), None), Err(SrtError::BadAddress));
    assert_eq!(SrtSocket::finish_addr(ok(0), None), Err(SrtError::BadAddress));
}

#[test]
fn close_consumes_the_handle() {
    let s = SrtSocket { id: 8 };
    assert_eq!(s.close(), NativeCall::Close { sock: 8 });
}

#[test]
fn statistics_requests() {
    let s = SrtSocket { id: 2 };
    assert_eq!(s.bistats(true), NativeCall::BStats { sock: 2, clear: 1 });
    assert_eq!(s.bistats(false), NativeCall::BStats { sock: 2, clear: 0 });
    let not_connected = CallOutcome { result: -1, error_code: 2002, reject_code: 0 };
    assert_eq!(SrtSocket::finish(not_connected), Err(SrtError::InvalidOperationForState(2002)));
    assert_eq!(SrtSocket::finish(not_connected), SrtSocket::finish(not_connected));
    assert_eq!(s.get_socket_state(), NativeCall::SocketState { sock: 2 });
    assert_eq!(s.get_reject_reason(), NativeCall::RejectReason { sock: 2 });
    assert_eq!(s.get_sender_buffer(), NativeCall::SenderBuffer { sock: 2 });
}
