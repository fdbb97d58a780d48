use vstd::prelude::*;
use vstd::string::StringExecFns;
use std::time::Instant;
use crate::errno::{errno_display, errno_kind, errno_kind_of, errno_text, ErrnoKind};
use crate::shutdown::{AppShutdown, AppShutdownView, ShutdownType, begin_shutdown, is_stopping_type};
use crate::text::{decimal, push_decimal};
use crate::unix_app::instant_now;
use crate::unix_poll::UnixPoll;

verus! {

/// The errors of the poll plugin.
#[derive(Debug)]
pub enum PluginError {
    /// `poll(2)` was interrupted; the next round polls again.
    Temporary(String),
    /// `poll(2)` failed, but the plugin goes on.
    Warning(String),
    /// The plugin cannot go on.
    Fatal(String),
}

/// An error of the poll plugin, its text taken by its view.
pub enum PollErrorView {
    Temporary(Seq<char>),
    Warning(Seq<char>),
    Fatal(Seq<char>),
}

/// The view of an error of the poll plugin.
pub open spec fn poll_error_view(e: PluginError) -> PollErrorView {
    match e {
        PluginError::Temporary(m) => PollErrorView::Temporary(m@),
        PluginError::Warning(m) => PollErrorView::Warning(m@),
        PluginError::Fatal(m) => PollErrorView::Fatal(m@),
    }
}

/// The error for a failed `poll(2)` of the error number `code`: an interruption is temporary,
/// an invalid pointer is fatal, and anything else is a warning.
pub open spec fn poll_error_for(code: i32) -> PollErrorView {
    let t = errno_display(code);
    let k = errno_kind_of(code);
    if k is Interrupted {
        PollErrorView::Temporary("Poll interrupted by signal: "@ + t)
    } else if k is NoMem {
        PollErrorView::Warning("Poll failed due to memory shortage: "@ + t)
    } else if k is Fault {
        PollErrorView::Fatal("Poll failed with invalid pointer: "@ + t)
    } else if k is Invalid {
        PollErrorView::Warning("Poll failed with invalid argument: "@ + t)
    } else {
        PollErrorView::Warning("Poll failed with unexpected error: "@ + t)
    }
}

impl PluginError {
    /// The code the plugin returns for this error: 1 for a fatal one, which ends the plugin,
    /// and 0 otherwise.
    pub fn to_return_code(&self) -> (c: i32)
        ensures
            c == (if *self is Fatal { 1i32 } else { 0i32 }),
    {
        match self {
            PluginError::Fatal(_) => 1,
            _ => 0,
        }
    }
}

/// The plugin that calls `poll(2)` once a round, counting failures and stopping the
/// application when they pile up.
#[derive(Debug)]
pub struct PollPlugin {
    error_count: usize,
    max_errors: usize,
    consecutive_errors: usize,
    max_consecutive_errors: usize,
    last_success: Instant,
    max_error_interval_secs: u64,
    poll_count: u64,
    error_types: Vec<i32>,
}

/// What the poll plugin holds; the time of the last success is left out.
pub struct PollPluginView {
    pub error_count: usize,
    pub max_errors: usize,
    pub consecutive_errors: usize,
    pub max_consecutive_errors: usize,
    pub max_error_interval_secs: u64,
    pub poll_count: u64,
    pub error_types: Seq<i32>,
}

impl View for PollPlugin {
    type V = PollPluginView;

    closed spec fn view(&self) -> PollPluginView {
        PollPluginView {
            error_count: self.error_count,
            max_errors: self.max_errors,
            consecutive_errors: self.consecutive_errors,
            max_consecutive_errors: self.max_consecutive_errors,
            max_error_interval_secs: self.max_error_interval_secs,
            poll_count: self.poll_count,
            error_types: self.error_types@,
        }
    }
}

/// The history of error numbers after one more: it keeps the first ten.
pub open spec fn noted(history: Seq<i32>, code: i32) -> Seq<i32> {
    if history.len() < 10 { history.push(code) } else { history }
}

/// How a round of the poll plugin starts.
#[derive(Debug, Clone, Copy, PartialEq, Eq, Structural)]
pub enum RoundStart {
    /// Return this code at once.
    Return(i32),
    /// Call `poll(2)` on the poll set.
    Poll,
    /// The poll set is empty: nothing to poll.
    NoFds,
}

/// The shutdown state after the poll plugin gave up at `now` with the message `msg`.
pub open spec fn given_up(s: AppShutdownView, now: u64, msg: Seq<char>) -> AppShutdownView {
    AppShutdownView { code: -1i32, message: Some(msg), ..begin_shutdown(s, ShutdownType::SmartStop, now) }
}

impl PollPlugin {
    /// How many rounds were counted.
    pub fn poll_count(&self) -> (n: u64)
        ensures
            n == self@.poll_count,
    {
        self.poll_count
    }

    /// How many errors were counted since the last success.
    pub fn error_count(&self) -> (n: usize)
        ensures
            n == self@.error_count,
    {
        self.error_count
    }

    /// How many errors came in a row.
    pub fn consecutive_errors(&self) -> (n: usize)
        ensures
            n == self@.consecutive_errors,
    {
        self.consecutive_errors
    }

    /// A plugin that allows 100 errors in all and 5 in a row.
    pub fn new() -> (p: Self)
        ensures
            p@ == (PollPluginView {
                error_count: 0,
                max_errors: 100,
                consecutive_errors: 0,
                max_consecutive_errors: 5,
                max_error_interval_secs: 60,
                poll_count: 0,
                error_types: Seq::empty(),
            }),
    {
        PollPlugin {
            error_count: 0,
            max_errors: 100,
            consecutive_errors: 0,
            max_consecutive_errors: 5,
            last_success: instant_now(),
            max_error_interval_secs: 60,
            poll_count: 0,
            error_types: Vec::new(),
        }
    }

    /// The error for a failed `poll(2)` of the error number `code`.
    pub fn classify_error(code: i32) -> (e: PluginError)
        ensures
            poll_error_view(e) == poll_error_for(code),
    {
        let t = errno_text(code);
        let (prefix, kind) = match errno_kind(code) {
            ErrnoKind::Interrupted => ("Poll interrupted by signal: ", 0u8),
            ErrnoKind::NoMem => ("Poll failed due to memory shortage: ", 1u8),
            ErrnoKind::Fault => ("Poll failed with invalid pointer: ", 2u8),
            ErrnoKind::Invalid => ("Poll failed with invalid argument: ", 1u8),
            _ => ("Poll failed with unexpected error: ", 1u8),
        };
        let mut m = String::from_str(prefix);
        m.append(t.as_str());
        if kind == 0 {
            PluginError::Temporary(m)
        } else if kind == 2 {
            PluginError::Fatal(m)
        } else {
            PluginError::Warning(m)
        }
    }

    /// Takes in the outcome of `poll(2)`: the number of descriptors with events, or the error
    /// number, which is noted in the history of errors while it holds fewer than ten.
    pub fn poll_outcome(&mut self, outcome: Result<i32, i32>) -> (r: Result<i32, PluginError>)
        ensures
            match outcome {
                Ok(n) => r matches Ok(m) && m == n && final(self)@ == old(self)@,
                Err(code) => (r matches Err(e) && poll_error_view(e) == poll_error_for(code))
                    && final(self)@ == (PollPluginView { error_types: noted(old(self)@.error_types, code), ..old(self)@ }),
            },
    {
        match outcome {
            Ok(n) => Ok(n),
            Err(code) => {
                if self.error_types.len() < 10 {
                    self.error_types.push(code);
                }
                Err(Self::classify_error(code))
            },
        }
    }

    /// The start of a round: a stopping application with nothing left to poll ends the plugin
    /// (the number of the stopped state); otherwise the round is counted, and the poll set is
    /// polled unless it is empty.
    pub fn begin_round(&mut self, shutdown: &AppShutdown, poll: &UnixPoll) -> (r: RoundStart)
        requires
            old(self)@.poll_count < u64::MAX,
        ensures
            is_stopping_type(shutdown@.kind) && poll.entries().len() == 0 ==> r == RoundStart::Return(1)
                && final(self)@ == old(self)@,
            !(is_stopping_type(shutdown@.kind) && poll.entries().len() == 0) ==> final(self)@ == (PollPluginView {
                poll_count: (old(self)@.poll_count + 1) as u64,
                ..old(self)@
            }) && r == (if poll.entries().len() == 0 { RoundStart::NoFds } else { RoundStart::Poll }),
    {
        if shutdown.is_stoping() && poll.is_empty() {
            return RoundStart::Return(ShutdownType::Stoped.to_int());
        }
        self.poll_count = self.poll_count + 1;
        if poll.is_empty() {
            RoundStart::NoFds
        } else {
            RoundStart::Poll
        }
    }

    /// The end of a round, given the outcome of `poll(2)` (`None` when nothing was polled,
    /// which counts as no events). Success stores the result in the poll set, ends the run of
    /// errors and, after errors, forgets them. An error is counted; 5 in a row or 100 in all
    /// begin a smart stop of the application with code -1 and a message, and end the plugin.
    pub fn finish_round(&mut self, shutdown: &mut AppShutdown, poll: &mut UnixPoll, outcome: Option<Result<i32, i32>>) -> (c: i32)
        requires
            old(self)@.error_count < usize::MAX,
            old(self)@.consecutive_errors < usize::MAX,
        ensures
            match outcome {
                None => c == 0 && final(poll).spec_result() == 0,
                Some(Ok(n)) => c == 0 && final(poll).spec_result() == n,
                Some(Err(_)) => *final(poll) == *old(poll),
            },
            final(poll).entries() == old(poll).entries(),
            final(poll).spec_timeout() == old(poll).spec_timeout(),
            match outcome {
                Some(Err(code)) => {
                    let errors = old(self)@.error_count + 1;
                    let run = old(self)@.consecutive_errors + 1;
                    &&& final(self)@ == (PollPluginView {
                        error_count: errors as usize,
                        consecutive_errors: run as usize,
                        error_types: noted(old(self)@.error_types, code),
                        ..old(self)@
                    })
                    &&& if run >= old(self)@.max_consecutive_errors {
                        c == 1 && exists|now: u64| final(shutdown)@ == #[trigger] given_up(old(shutdown)@, now,
                            "Poll system failed after "@ + decimal(run as nat) + " consecutive errors"@)
                    } else if errors >= old(self)@.max_errors {
                        c == 1 && exists|now: u64| final(shutdown)@ == #[trigger] given_up(old(shutdown)@, now,
                            "Poll system failed after "@ + decimal(errors as nat) + " total errors"@)
                    } else {
                        c == (if poll_error_for(code) is Fatal { 1i32 } else { 0i32 }) && final(shutdown)@ == old(shutdown)@
                    }
                },
                _ => final(shutdown)@ == old(shutdown)@ && final(self)@ == (PollPluginView {
                    consecutive_errors: 0,
                    error_count: 0,
                    error_types: if old(self)@.error_count > 0 { Seq::empty() } else { old(self)@.error_types },
                    ..old(self)@
                }),
            },
    {
        let res = match outcome {
            None => Ok(0),
            Some(o) => self.poll_outcome(o),
        };
        match res {
            Ok(number_events) => {
                poll.set_result(number_events);
                self.consecutive_errors = 0;
                self.last_success = instant_now();
                if self.error_count > 0 {
                    self.error_count = 0;
                    self.error_types.clear();
                }
                0
            },
            Err(err) => {
                self.error_count = self.error_count + 1;
                self.consecutive_errors = self.consecutive_errors + 1;
                if self.consecutive_errors >= self.max_consecutive_errors {
                    let ghost before = shutdown@;
                    shutdown.shutdown_smart();
                    let ghost now = choose|now: u64| shutdown@ == begin_shutdown(before, ShutdownType::SmartStop, now);
                    shutdown.set_code(-1);
                    let mut m = String::from_str("Poll system failed after ");
                    push_decimal(&mut m, self.consecutive_errors as u64);
                    m.append(" consecutive errors");
                    let ghost text = m@;
                    shutdown.set_message(m);
                    assert(text == "Poll system failed after "@ + decimal((old(self)@.consecutive_errors + 1) as nat) + " consecutive errors"@);
                    assert(shutdown@ == given_up(before, now, text));
                    return 1;
                }
                if self.error_count >= self.max_errors {
                    let ghost before = shutdown@;
                    shutdown.shutdown_smart();
                    let ghost now = choose|now: u64| shutdown@ == begin_shutdown(before, ShutdownType::SmartStop, now);
                    shutdown.set_code(-1);
                    let mut m = String::from_str("Poll system failed after ");
                    push_decimal(&mut m, self.error_count as u64);
                    m.append(" total errors");
                    let ghost text = m@;
                    shutdown.set_message(m);
                    assert(text == "Poll system failed after "@ + decimal((old(self)@.error_count + 1) as nat) + " total errors"@);
                    assert(shutdown@ == given_up(before, now, text));
                    return 1;
                }
                err.to_return_code()
            },
        }
    }

    /// Releases the plugin; nothing can fail.
    pub fn free(&mut self) -> (c: i32)
        ensures
            c == 0,
            final(self)@ == old(self)@,
    {
        0
    }
}

} // verus!
