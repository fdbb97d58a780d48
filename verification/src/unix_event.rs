use vstd::prelude::*;
use vstd::string::StringExecFns;

use crate::app_shutdown::{AppContext, AppShutdownFlags};
use crate::handler_traits::Handler;
use crate::signals::{signal_kind, signal_kind_of, SignalKind};

verus! {

/// What the loop reads of a signal record: the signal's number and its sender's pid and uid.
#[derive(Debug, Clone, Copy, PartialEq, Eq, Structural)]
pub struct SignalInfo {
    pub ssi_signo: u32,
    pub ssi_pid: u32,
    pub ssi_uid: u32,
}

/// An event of the application's loop, with the bytes read where there are any.
#[derive(Debug)]
pub enum UnixEvent<'a> {
    Stdin(&'a mut [u8]),
    PtyMaster(&'a mut [u8]),
    PtySlave(&'a mut [u8]),
    /// A signal, by its number, with its record.
    Signal(i32, &'a mut SignalInfo),
    ReadZeroBytes,
    PollTimeout,
    PollEventNotHandle,
}

/// What a handler answers to an event: nothing, or bytes to send somewhere.
#[derive(Debug)]
pub enum UnixEventResponse<'a> {
    Unhandled,
    /// Send the bytes to the descriptor at this position of the poll list.
    SendTo(usize, &'a mut [u8]),
    WriteToStdOut(&'a mut [u8]),
    WriteToStdIn(&'a mut [u8]),
    WriteToPtyMaster(&'a mut [u8]),
    WriteToPtySlave(&'a mut [u8]),
}

/// The handler that sends what was typed on standard input to the pseudo-terminal.
#[derive(Debug, Default)]
pub struct PtyMiddleware {}

impl PtyMiddleware {
    /// A handler.
    pub fn new() -> (m: Self) {
        PtyMiddleware {}
    }
}

impl<'a> Handler<&'a mut AppContext, UnixEvent<'a>, UnixEventResponse<'a>> for PtyMiddleware {
    /// Bytes read from standard input are to be written to the pseudo-terminal's master side,
    /// unchanged; any other event is left unhandled, and the context is not changed.
    fn handle(&mut self, context: &'a mut AppContext, value: UnixEvent<'a>) -> (r: UnixEventResponse<'a>)
        ensures
            *final(context) == *old(context),
            match value {
                UnixEvent::Stdin(buf) => r matches UnixEventResponse::WriteToPtyMaster(out) && out@ == buf@,
                _ => r is Unhandled,
            },
    {
        match value {
            UnixEvent::Stdin(buf) => UnixEventResponse::WriteToPtyMaster(buf),
            _ => UnixEventResponse::Unhandled,
        }
    }
}

/// The handler that begins a stop when a read gave zero bytes.
#[derive(Debug, Default)]
pub struct ZeroBytesMiddleware {}

impl ZeroBytesMiddleware {
    /// A handler.
    pub fn new() -> (m: Self) {
        ZeroBytesMiddleware {}
    }
}

impl<'a> Handler<&'a mut AppContext, UnixEvent<'a>, UnixEventResponse<'a>> for ZeroBytesMiddleware {
    /// A read of zero bytes begins a stop with code 5 and an error that says so; nothing
    /// changes on any other event. The event is left unhandled.
    fn handle(&mut self, context: &'a mut AppContext, value: UnixEvent<'a>) -> (r: UnixEventResponse<'a>)
        ensures
            r is Unhandled,
            value is ReadZeroBytes ==> final(context).shutdown@ == (AppShutdownFlags {
                is_stoped: false,
                is_stop: true,
                has_time: true,
                stop_code: Some(5i32),
                stop_error: Some("reading zero bytes from system event"@),
            }),
            !(value is ReadZeroBytes) ==> *final(context) == *old(context),
    {
        if let UnixEvent::ReadZeroBytes = value {
            proof {
                reveal_strlit("reading zero bytes from system event");
            }
            context.shutdown.shutdown_starting(5, Some(String::from_str("reading zero bytes from system event")));
        }
        UnixEventResponse::Unhandled
    }
}

/// A handler that passes every event on: it leaves them unhandled and changes nothing. The
/// standard-descriptor, poll-timeout and logging handlers of the loop are of this kind.
#[derive(Debug, Default)]
pub struct StdMiddleware {}

impl StdMiddleware {
    /// A handler.
    pub fn new() -> (m: Self) {
        StdMiddleware {}
    }
}

impl<'a> Handler<&'a mut AppContext, UnixEvent<'a>, UnixEventResponse<'a>> for StdMiddleware {
    /// Leaves the event unhandled and the context as it is.
    fn handle(&mut self, context: &'a mut AppContext, value: UnixEvent<'a>) -> (r: UnixEventResponse<'a>)
        ensures
            r is Unhandled,
            *final(context) == *old(context),
    {
        UnixEventResponse::Unhandled
    }
}

/// The handler of poll timeouts: it passes every event on (see `StdMiddleware`).
pub type PollTimeoutMiddleware = StdMiddleware;

/// The handler that traces the events: it passes every event on (see `StdMiddleware`); the
/// trace itself is the program's.
pub type LoggingMiddleware = StdMiddleware;

/// What to do after the signal handler of the loop took in a signal.
#[derive(Debug, Clone, Copy, PartialEq, Eq, Structural)]
pub enum SignalEventFollowUp {
    Nothing,
    /// Look at the child process `pid` without waiting.
    Reap(i32),
}

/// The handler of the signals of the loop.
#[derive(Debug, Default)]
pub struct SignalfdMiddleware {}

impl SignalfdMiddleware {
    /// A handler.
    pub fn new() -> (m: Self) {
        SignalfdMiddleware {}
    }

    /// Acts on an event: `SIGINT` and `SIGTERM` begin a stop with code 0 and no error;
    /// `SIGCHLD` asks to look at the child that sent it; nothing else changes. The event is
    /// left unhandled.
    pub fn handle_event<'a>(&mut self, context: &mut AppContext, value: &UnixEvent<'a>) -> (r: (UnixEventResponse<'a>, SignalEventFollowUp))
        ensures
            r.0 is Unhandled,
            match *value {
                UnixEvent::Signal(signo, info) => {
                    &&& (signal_kind_of(signo) matches Some(k) && (k is Int || k is Term)) ==> final(context).shutdown@ == (AppShutdownFlags {
                        is_stoped: false,
                        is_stop: true,
                        has_time: true,
                        stop_code: Some(0i32),
                        stop_error: None,
                    })
                    &&& !(signal_kind_of(signo) matches Some(k) && (k is Int || k is Term)) ==> *final(context) == *old(context)
                    &&& r.1 == if signal_kind_of(signo) == Some(SignalKind::Chld) {
                        SignalEventFollowUp::Reap(info.ssi_pid as i32)
                    } else {
                        SignalEventFollowUp::Nothing
                    }
                },
                _ => *final(context) == *old(context) && r.1 == SignalEventFollowUp::Nothing,
            },
    {
        let mut follow_up = SignalEventFollowUp::Nothing;
        if let UnixEvent::Signal(signo, info) = value {
            match signal_kind(*signo) {
                Some(SignalKind::Int) | Some(SignalKind::Term) => {
                    context.shutdown.shutdown_starting(0, None);
                },
                Some(SignalKind::Chld) => {
                    #[verifier::truncate]
                    let pid: i32 = info.ssi_pid as i32;
                    follow_up = SignalEventFollowUp::Reap(pid);
                },
                _ => {},
            }
        }
        (UnixEventResponse::Unhandled, follow_up)
    }
}

} // verus!
