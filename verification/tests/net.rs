use std::io::{Error, ErrorKind};

use std::time::Duration;

use yaay::net::{
    io_poll_step, keepalive_fits, lift_io, IoError, IoErrorKind, IoPoll, MioTcpListener, TcpListener,
};

fn listener() -> TcpListener {
    let addr = "127.0.0.1:0".parse().unwrap();
    let listener = mio::net::TcpListener::bind(&addr).unwrap();
    TcpListener::from_mio(MioTcpListener { listener })
}

#[test]
fn io_error_from_std_keeps_kind_and_code() {
    let e = IoError::from_io(Error::from(ErrorKind::WouldBlock));
    assert!(e.kind == IoErrorKind::WouldBlock);
    assert!(e.would_block());
    assert_eq!(e.raw_os_error, None);
    let e = IoError::from_io(Error::from_raw_os_error(111));
    assert!(e.kind == IoErrorKind::ConnectionRefused);
    assert_eq!(e.raw_os_error, Some(111));
    let e = IoError::from_io(Error::new(ErrorKind::Other, "x"));
    assert!(e.kind == IoErrorKind::Other);
    assert!(!e.would_block());
}

#[test]
fn io_error_kinds_are_told_apart() {
    let cases = [
        (ErrorKind::NotFound, IoErrorKind::NotFound),
        (ErrorKind::PermissionDenied, IoErrorKind::PermissionDenied),
        (ErrorKind::ConnectionRefused, IoErrorKind::ConnectionRefused),
        (ErrorKind::ConnectionReset, IoErrorKind::ConnectionReset),
        (ErrorKind::BrokenPipe, IoErrorKind::BrokenPipe),
        (ErrorKind::WouldBlock, IoErrorKind::WouldBlock),
        (ErrorKind::TimedOut, IoErrorKind::TimedOut),
        (ErrorKind::Interrupted, IoErrorKind::Interrupted),
        (ErrorKind::UnexpectedEof, IoErrorKind::UnexpectedEof),
        (ErrorKind::InvalidInput, IoErrorKind::Other),
    ];
    for (std_kind, kind) in cases {
        assert!(IoError::from_io(Error::from(std_kind)).kind == kind);
    }
}

#[test]
fn lift_io_keeps_success() {
    assert_eq!(lift_io::<u32>(Ok(5)).ok(), Some(5));
    let r = lift_io::<u32>(Err(Error::from(ErrorKind::TimedOut)));
    assert!(r.unwrap_err().kind == IoErrorKind::TimedOut);
}

#[test]
fn io_poll_step_waits_only_on_would_block() {
    match io_poll_step::<u8>(Ok(3)) {
        IoPoll::Ready(Ok(v)) => assert_eq!(v, 3),
        _ => panic!("expected ready"),
    }
    let wb = IoError { kind: IoErrorKind::WouldBlock, raw_os_error: Some(11), error: Error::from_raw_os_error(11) };
    assert!(matches!(io_poll_step::<u8>(Err(wb)), IoPoll::Wait));
    let other = IoError { kind: IoErrorKind::BrokenPipe, raw_os_error: Some(32), error: Error::from_raw_os_error(32) };
    match io_poll_step::<u8>(Err(other)) {
        IoPoll::Ready(Err(e)) => assert!(e.kind == IoErrorKind::BrokenPipe),
        _ => panic!("expected the error"),
    }
}

#[test]
fn listener_options() {
    let l = listener();
    l.set_ttl(99).unwrap();
    assert_eq!(l.ttl().unwrap(), 99);
    let c = l.try_clone().unwrap();
    assert_eq!(c.ttl().unwrap(), 99);
    assert!(l.take_error().unwrap().is_none());
    let e = l.set_only_v6(true).unwrap_err();
    assert!(e.raw_os_error.is_some());
    assert!(l.only_v6().is_err() || !l.only_v6().unwrap());
}

#[test]
fn lift_io_hands_on_the_os_error() {
    let e = lift_io::<u32>(Err(Error::from_raw_os_error(104))).unwrap_err();
    assert!(e.kind == IoErrorKind::ConnectionReset);
    assert_eq!(e.raw_os_error, Some(104));
    assert_eq!(e.error.raw_os_error(), Some(104));
    assert_eq!(e.error.kind(), ErrorKind::ConnectionReset);
}

#[test]
fn keepalive_bound_on_milliseconds() {
    assert!(keepalive_fits(&None));
    assert!(keepalive_fits(&Some(Duration::from_secs(30))));
    assert!(keepalive_fits(&Some(Duration::new(4_294_967, 295_999_999))));
    assert!(!keepalive_fits(&Some(Duration::new(4_294_967, 296_000_000))));
    assert!(!keepalive_fits(&Some(Duration::from_secs(4_294_968))));
    // the seconds are cut to 32 bits before the multiplication
    assert!(keepalive_fits(&Some(Duration::from_secs(1 << 32))));
}
