use abstractions::handler_traits::{chain_next, chain_start};
use abstractions::app_shutdown::AppContext;
use abstractions::handler_traits::Handler;
use abstractions::unix_event::{
    LoggingMiddleware, PollTimeoutMiddleware, PtyMiddleware, SignalEventFollowUp, SignalInfo, SignalfdMiddleware, StdMiddleware,
    UnixEvent, UnixEventResponse, ZeroBytesMiddleware,
};

#[test]
fn pty_middleware_forwards_stdin() {
    let mut ctx = AppContext::default();
    let mut m = PtyMiddleware::new();
    let mut bytes = *b"ls\n";
    match m.handle(&mut ctx, UnixEvent::Stdin(&mut bytes)) {
        UnixEventResponse::WriteToPtyMaster(out) => assert_eq!(out, b"ls\n"),
        other => panic!("unexpected {:?}", other),
    }
    let mut other = *b"x";
    assert!(matches!(m.handle(&mut ctx, UnixEvent::PtyMaster(&mut other)), UnixEventResponse::Unhandled));
    assert!(!ctx.shutdown.is_stop());
}

#[test]
fn zero_bytes_middleware_begins_stop() {
    let mut ctx = AppContext::default();
    let mut m = ZeroBytesMiddleware::new();
    assert!(matches!(m.handle(&mut ctx, UnixEvent::PollTimeout), UnixEventResponse::Unhandled));
    assert!(!ctx.shutdown.is_stop());
    assert!(matches!(m.handle(&mut ctx, UnixEvent::ReadZeroBytes), UnixEventResponse::Unhandled));
    assert!(ctx.shutdown.is_stop());
    assert_eq!(ctx.shutdown.stop_code(), 5);
}

#[test]
fn passing_middlewares_change_nothing() {
    let mut ctx = AppContext::default();
    let mut std = StdMiddleware::new();
    let mut timeout: PollTimeoutMiddleware = StdMiddleware::new();
    let mut logging: LoggingMiddleware = StdMiddleware::new();
    assert!(matches!(std.handle(&mut ctx, UnixEvent::ReadZeroBytes), UnixEventResponse::Unhandled));
    assert!(matches!(timeout.handle(&mut ctx, UnixEvent::PollTimeout), UnixEventResponse::Unhandled));
    assert!(matches!(logging.handle(&mut ctx, UnixEvent::PollEventNotHandle), UnixEventResponse::Unhandled));
    assert!(!ctx.shutdown.is_stop());
    assert_eq!(ctx.shutdown.stop_code(), 255);
}

#[test]
fn signalfd_middleware_stops_and_reaps() {
    let mut ctx = AppContext::default();
    let mut m = SignalfdMiddleware::new();
    let mut info = SignalInfo { ssi_signo: libc::SIGCHLD as u32, ssi_pid: 321, ssi_uid: 0 };
    let (r, f) = m.handle_event(&mut ctx, &UnixEvent::Signal(libc::SIGCHLD, &mut info));
    assert!(matches!(r, UnixEventResponse::Unhandled));
    assert_eq!(f, SignalEventFollowUp::Reap(321));
    assert!(!ctx.shutdown.is_stop());

    let mut info = SignalInfo { ssi_signo: libc::SIGTERM as u32, ssi_pid: 1, ssi_uid: 0 };
    let (_, f) = m.handle_event(&mut ctx, &UnixEvent::Signal(libc::SIGTERM, &mut info));
    assert_eq!(f, SignalEventFollowUp::Nothing);
    assert!(ctx.shutdown.is_stop());
    assert_eq!(ctx.shutdown.stop_code(), 0);

    let mut ctx2 = AppContext::default();
    let mut info = SignalInfo { ssi_signo: libc::SIGUSR1 as u32, ssi_pid: 1, ssi_uid: 0 };
    let (_, f) = m.handle_event(&mut ctx2, &UnixEvent::Signal(libc::SIGUSR1, &mut info));
    assert_eq!(f, SignalEventFollowUp::Nothing);
    assert!(!ctx2.shutdown.is_stop());
}

#[test]
fn middleware_chain_positions() {
    assert_eq!(chain_start(0), None);
    assert_eq!(chain_start(3), Some(2));
    assert_eq!(chain_next(2, 3), Some(1));
    assert_eq!(chain_next(1, 3), Some(0));
    assert_eq!(chain_next(0, 3), None);
    assert_eq!(chain_next(5, 3), None);
}
