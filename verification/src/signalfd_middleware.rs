use vstd::prelude::*;
use crate::signals::{make_signal_message, signal_kind, signal_kind_of, signal_message, signal_name, signal_name_of, SignalKind};
use crate::unix_app::{AppShutdown, shutdown_code, shutdown_message};

verus! {

/// What to do after a signal was taken in.
#[derive(Debug, Clone, Copy, PartialEq, Eq, Structural)]
pub enum SignalfdFollowUp {
    /// Nothing more.
    Nothing,
    /// Reap the child process `pid` without waiting.
    Reap(u32),
}

/// The handler of the signal descriptor of the application's loop.
#[derive(Debug, Default)]
pub struct DefaultSignalfdMiddleware {}

impl DefaultSignalfdMiddleware {
    /// A signal handler.
    pub fn new() -> (h: Self) {
        DefaultSignalfdMiddleware {}
    }

    /// Acts on a signal read from the descriptor, given its number and its sender's pid and
    /// uid: `SIGTERM`, `SIGINT` and `SIGQUIT` begin a smart, fast or immediate stop with code 0
    /// and a message that names the signal and its sender; `SIGCHLD` asks to reap the child;
    /// other signals change nothing.
    pub fn handle_signal(&mut self, signo: u32, pid: u32, uid: u32, shutdown: &mut AppShutdown) -> (r: SignalfdFollowUp)
        requires
            signal_kind_of(signo as i32) is Some,
        ensures
            ({
                let n = signo as i32;
                let k = signal_kind_of(n)->0;
                let msg = signal_message(signal_name_of(n), pid, uid);
                &&& (k is Term ==> *final(shutdown) is SmartStop)
                &&& (k is Int ==> *final(shutdown) is FastStop)
                &&& (k is Quit ==> *final(shutdown) is ImmediateStop)
                &&& (k is Term || k is Int || k is Quit) ==> shutdown_code(*final(shutdown)) == Some(0i32)
                    && (shutdown_message(*final(shutdown)) matches Some(m) && m@ == msg)
                &&& !(k is Term || k is Int || k is Quit) ==> *final(shutdown) == *old(shutdown)
                &&& r == (if k is Chld { SignalfdFollowUp::Reap(pid) } else { SignalfdFollowUp::Nothing })
            }),
    {
        #[verifier::truncate]
        let n: i32 = signo as i32;
        let k = match signal_kind(n) {
            Some(k) => k,
            None => SignalKind::Other,
        };
        let name = match signal_name(n) {
            Some(s) => s,
            None => String::new(),
        };
        match k {
            SignalKind::Term => {
                shutdown.shutdown_smart(0, Some(make_signal_message(name.as_str(), pid, uid)));
                SignalfdFollowUp::Nothing
            },
            SignalKind::Int => {
                shutdown.shutdown_fast(0, Some(make_signal_message(name.as_str(), pid, uid)));
                SignalfdFollowUp::Nothing
            },
            SignalKind::Quit => {
                shutdown.shutdown_immediate(0, Some(make_signal_message(name.as_str(), pid, uid)));
                SignalfdFollowUp::Nothing
            },
            SignalKind::Chld => SignalfdFollowUp::Reap(pid),
            _ => SignalfdFollowUp::Nothing,
        }
    }

    /// Acts on a signal as `handle_signal` does, when its number is a signal; `None`, and
    /// nothing changed, when it is not.
    pub fn try_handle_signal(&mut self, signo: u32, pid: u32, uid: u32, shutdown: &mut AppShutdown) -> (r: Option<SignalfdFollowUp>)
        ensures
            r is None <==> signal_kind_of(signo as i32) is None,
            r is None ==> *final(shutdown) == *old(shutdown),
            r matches Some(f) ==> ({
                let n = signo as i32;
                let k = signal_kind_of(n)->0;
                let msg = signal_message(signal_name_of(n), pid, uid);
                &&& (k is Term ==> *final(shutdown) is SmartStop)
                &&& (k is Int ==> *final(shutdown) is FastStop)
                &&& (k is Quit ==> *final(shutdown) is ImmediateStop)
                &&& (k is Term || k is Int || k is Quit) ==> shutdown_code(*final(shutdown)) == Some(0i32)
                    && (shutdown_message(*final(shutdown)) matches Some(m) && m@ == msg)
                &&& !(k is Term || k is Int || k is Quit) ==> *final(shutdown) == *old(shutdown)
                &&& f == (if k is Chld { SignalfdFollowUp::Reap(pid) } else { SignalfdFollowUp::Nothing })
            }),
    {
        #[verifier::truncate]
        let n: i32 = signo as i32;
        match signal_kind(n) {
            None => None,
            Some(_) => Some(self.handle_signal(signo, pid, uid, shutdown)),
        }
    }
}

} // verus!
