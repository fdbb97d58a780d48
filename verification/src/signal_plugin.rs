use vstd::prelude::*;
use vstd::string::StringExecFns;
use crate::buffer::{available, Buffer, BufferError, BufferView};
use crate::fd_io::ReadResult;
use crate::poll_handlers::PollBits;
use crate::reload_config::ReloadConfig;
use crate::shutdown::{AppShutdown, AppShutdownView, ShutdownType, begin_shutdown};
use crate::signals::{
    signal_kind, signal_kind_of, signal_message, signal_name, signal_name_of, frame_number, framed_number,
    make_signal_message, SignalKind,
};
use crate::text::{decimal, push_decimal, push_signed_decimal, signed_decimal};
use crate::unix_poll::{PollFd, UnixPoll, watches};

verus! {

/// The errors of the signal plugin.
#[derive(Debug)]
pub enum PluginError {
    /// A problem of the signal descriptor that making it again may cure.
    RecoverableFdError(String),
    /// Reading the descriptor failed.
    ReadError(String),
    /// What was read could not be taken as a signal.
    ProcessingError(String),
    /// The plugin cannot go on.
    Fatal(String),
}

/// An error of the signal plugin, its text taken by its view.
pub enum PluginErrorView {
    Recoverable(Seq<char>),
    Read(Seq<char>),
    Processing(Seq<char>),
    Fatal(Seq<char>),
}

/// The view of an error of the signal plugin.
pub open spec fn plugin_error_view(e: PluginError) -> PluginErrorView {
    match e {
        PluginError::RecoverableFdError(m) => PluginErrorView::Recoverable(m@),
        PluginError::ReadError(m) => PluginErrorView::Read(m@),
        PluginError::ProcessingError(m) => PluginErrorView::Processing(m@),
        PluginError::Fatal(m) => PluginErrorView::Fatal(m@),
    }
}

impl PluginError {
    /// The code the plugin returns for this error: 1 for a fatal one, which ends the plugin,
    /// and 0 otherwise.
    pub fn to_return_code(&self) -> (c: i32)
        ensures
            c == (if *self is Fatal { 1i32 } else { 0i32 }),
    {
        match self {
            PluginError::Fatal(_) => 1,
            _ => 0,
        }
    }
}

/// What to do with the signal descriptor after `poll(2)`.
#[derive(Debug)]
pub enum EventsStart {
    /// Stop with this error.
    Failed(PluginError),
    /// Read the descriptor, then clear its reported events.
    ReadThenReset,
    /// Clear its reported events.
    Reset,
}

/// What to do after a signal was taken in.
#[derive(Debug, Clone, Copy, PartialEq, Eq, Structural)]
pub enum SignalFollowUp {
    /// Nothing more.
    Nothing,
    /// Reap the child process `pid` without waiting.
    Reap(u32),
}

/// The step after the plugin failed.
#[derive(Debug, Clone, Copy, PartialEq, Eq, Structural)]
pub enum ErrorStep {
    /// Try to make the signal descriptor again.
    TryRecover,
    /// Return this code.
    Code(i32),
}

/// The reported events of the entry that watches `fd`.
pub open spec fn fd_revents(s: Seq<PollFd>, fd: i32) -> i16 {
    s[choose|i: int| 0 <= i < s.len() && s[i].fd == fd].revents
}

/// The start of the handling of events, as a view.
pub enum EventsStartView {
    Failed(PluginErrorView),
    ReadThenReset,
    Reset,
}

/// The view of the start of the handling of events.
pub open spec fn events_start_view(s: EventsStart) -> EventsStartView {
    match s {
        EventsStart::Failed(e) => EventsStartView::Failed(plugin_error_view(e)),
        EventsStart::ReadThenReset => EventsStartView::ReadThenReset,
        EventsStart::Reset => EventsStartView::Reset,
    }
}

/// How the handling of events starts for the descriptor `fd`, given whether `poll(2)` watches
/// it and its reported events: a descriptor that is not watched, an unknown event, an error,
/// an invalid descriptor or a hang-up is an error; input is read; otherwise the events are
/// cleared.
pub open spec fn events_start(fd: i32, watched: bool, revents: i16, bits: PollBits) -> EventsStartView {
    if !watched {
        EventsStartView::Failed(PluginErrorView::Recoverable(framed_number("Signal fd "@, fd as int, " not found in poll"@)))
    } else if revents > 0 {
        if revents & !bits.known != 0 {
            EventsStartView::Failed(PluginErrorView::Read(
                "Unknown revents: "@ + signed_decimal(revents as int) + " on signal fd "@ + signed_decimal(fd as int)))
        } else if revents & bits.pollerr != 0 {
            EventsStartView::Failed(PluginErrorView::Recoverable(framed_number("POLLERR on signal fd "@, fd as int, ""@)))
        } else if revents & bits.pollnval != 0 {
            EventsStartView::Failed(PluginErrorView::Recoverable(framed_number("POLLNVAL on signal fd "@, fd as int, ""@)))
        } else if revents & bits.pollhup != 0 {
            EventsStartView::Failed(PluginErrorView::Recoverable(framed_number("POLLHUP on signal fd "@, fd as int, ""@)))
        } else if revents & bits.pollin != 0 {
            EventsStartView::ReadThenReset
        } else {
            EventsStartView::Reset
        }
    } else {
        EventsStartView::Reset
    }
}

/// The plugin that takes in the signals sent to the process through a signal descriptor.
#[derive(Debug)]
pub struct SignalFdPlugin {
    fd: i32,
    buf: Buffer,
    expected_size: usize,
    error_count: usize,
    max_errors: usize,
    recovery_attempts: usize,
    max_recovery_attempts: usize,
}

/// What the signal plugin holds.
pub struct SignalPluginView {
    pub fd: i32,
    pub buf: BufferView,
    pub expected_size: usize,
    pub error_count: usize,
    pub max_errors: usize,
    pub recovery_attempts: usize,
    pub max_recovery_attempts: usize,
}

impl View for SignalFdPlugin {
    type V = SignalPluginView;

    closed spec fn view(&self) -> SignalPluginView {
        SignalPluginView {
            fd: self.fd,
            buf: self.buf@,
            expected_size: self.expected_size,
            error_count: self.error_count,
            max_errors: self.max_errors,
            recovery_attempts: self.recovery_attempts,
            max_recovery_attempts: self.max_recovery_attempts,
        }
    }
}

/// The code after an error once no recovery helped: 1 beyond the error limit, and otherwise
/// the error's own code.
pub open spec fn error_code(errors: usize, max_errors: usize, fatal: bool) -> i32 {
    if errors > max_errors {
        1
    } else if fatal {
        1
    } else {
        0
    }
}

impl SignalFdPlugin {
    /// A plugin reading the signal descriptor `fd` into a buffer of `expected_size` bytes, the
    /// size of one signal record. It gives up after 5 errors in a row and 3 recoveries.
    pub fn new(fd: i32, expected_size: usize) -> (p: Self)
        ensures
            p@.fd == fd,
            p@.buf.bytes == Seq::new(expected_size as nat, |i: int| 0u8),
            p@.buf.data_len == 0,
            p@.buf.data_offset == 0,
            p@.expected_size == expected_size,
            p@.error_count == 0,
            p@.max_errors == 5,
            p@.recovery_attempts == 0,
            p@.max_recovery_attempts == 3,
    {
        SignalFdPlugin {
            fd,
            buf: Buffer::new(expected_size),
            expected_size,
            error_count: 0,
            max_errors: 5,
            recovery_attempts: 0,
            max_recovery_attempts: 3,
        }
    }

    /// The signal descriptor.
    pub fn fd(&self) -> (fd: i32)
        ensures
            fd == self@.fd,
    {
        self.fd
    }

    /// How many errors were counted since the last success.
    pub fn error_count(&self) -> (n: usize)
        ensures
            n == self@.error_count,
    {
        self.error_count
    }

    /// How many recoveries were counted since the last success.
    pub fn recovery_attempts(&self) -> (n: usize)
        ensures
            n == self@.recovery_attempts,
    {
        self.recovery_attempts
    }

    /// The buffer the descriptor is read into.
    pub fn buffer_mut(&mut self) -> (b: &mut Buffer)
        ensures
            b@ == old(self)@.buf,
            final(self)@ == (SignalPluginView { buf: final(b)@, ..old(self)@ }),
    {
        &mut self.buf
    }

    /// How the handling of events starts, from what `poll(2)` reported for the descriptor.
    pub fn check_events(&self, poll: &UnixPoll, bits: PollBits) -> (r: EventsStart)
        ensures
            events_start_view(r) == events_start(self@.fd, watches(poll.entries(), self@.fd),
                fd_revents(poll.entries(), self@.fd), bits),
    {
        let fd = self.fd;
        if !poll.has_fd(fd) {
            let m = frame_number("Signal fd ", fd as i64, " not found in poll");
            return EventsStart::Failed(PluginError::RecoverableFdError(m));
        }
        let revents: i16 = match poll.get_revents(fd) {
            Some(r) => r,
            None => 0,
        };
        proof {
            use_type_invariant(&*poll);
            poll.lemma_wf_distinct();
            let s = poll.entries();
            let i = choose|i: int| 0 <= i < s.len() && s[i].fd == fd && s[i].revents == revents;
            let j = choose|j: int| 0 <= j < s.len() && s[j].fd == fd;
            assert(s[i].fd == s[j].fd);
            assert(revents == fd_revents(s, fd));
        }
        if revents > 0 {
            if revents & !bits.known != 0 {
                let mut m = String::from_str("Unknown revents: ");
                push_signed_decimal(&mut m, revents as i64);
                m.append(" on signal fd ");
                push_signed_decimal(&mut m, fd as i64);
                return EventsStart::Failed(PluginError::ReadError(m));
            }
            if revents & bits.pollerr != 0 {
                let m = frame_number("POLLERR on signal fd ", fd as i64, "");
                return EventsStart::Failed(PluginError::RecoverableFdError(m));
            }
            if revents & bits.pollnval != 0 {
                let m = frame_number("POLLNVAL on signal fd ", fd as i64, "");
                return EventsStart::Failed(PluginError::RecoverableFdError(m));
            }
            if revents & bits.pollhup != 0 {
                let m = frame_number("POLLHUP on signal fd ", fd as i64, "");
                return EventsStart::Failed(PluginError::RecoverableFdError(m));
            }
            if revents & bits.pollin != 0 {
                return EventsStart::ReadThenReset;
            }
        }
        EventsStart::Reset
    }

    /// Takes in the outcome of a read of the descriptor. A whole signal record asks for the
    /// signal to be processed (`Ok(true)`); a partial record, an invalid descriptor, the end of
    /// the stream or a failed read is an error; a full buffer is grown when it is smaller than
    /// a record and emptied otherwise; a read that would block or was interrupted waits for
    /// the next event.
    pub fn after_read(&mut self, result: ReadResult) -> (r: Result<bool, PluginError>)
        ensures
            final(self)@.fd == old(self)@.fd,
            final(self)@.expected_size == old(self)@.expected_size,
            final(self)@.error_count == old(self)@.error_count,
            final(self)@.max_errors == old(self)@.max_errors,
            final(self)@.recovery_attempts == old(self)@.recovery_attempts,
            final(self)@.max_recovery_attempts == old(self)@.max_recovery_attempts,
            !(result is BufferIsFull) ==> final(self)@.buf == old(self)@.buf,
            match result {
                ReadResult::Success(n) => if n == old(self)@.expected_size {
                    r matches Ok(b) && b
                } else {
                    r matches Err(e) && plugin_error_view(e) == PluginErrorView::Recoverable(
                        "Unexpected number of bytes read: "@ + decimal(n as nat) + " for signalfd: "@
                        + signed_decimal(old(self)@.fd as int) + ". the "@ + decimal(old(self)@.expected_size as nat)
                        + " byte is expected to arrive"@)
                },
                ReadResult::BufferIsFull { fd: _, data_len } => r matches Ok(b) && !b && if data_len < old(self)@.expected_size {
                    final(self)@.buf.data_len == old(self)@.buf.data_len
                        && final(self)@.buf.data_offset == old(self)@.buf.data_offset
                        && final(self)@.buf.bytes.len() == old(self)@.expected_size - data_len
                        && final(self)@.buf.bytes.subrange(0, min_len(old(self)@.buf.bytes.len(),
                            (old(self)@.expected_size - data_len) as nat) as int)
                            == old(self)@.buf.bytes.subrange(0, min_len(old(self)@.buf.bytes.len(),
                            (old(self)@.expected_size - data_len) as nat) as int)
                } else {
                    final(self)@.buf == (BufferView { data_len: 0, data_offset: 0, ..old(self)@.buf })
                },
                ReadResult::WouldBlock { .. } => r matches Ok(b) && !b,
                ReadResult::Interrupted { .. } => r matches Ok(b) && !b,
                ReadResult::InvalidFd { .. } => r matches Err(e) && plugin_error_view(e) == PluginErrorView::Recoverable(
                    framed_number("Invalid signal fd "@, old(self)@.fd as int, ""@)),
                ReadResult::Eof { .. } => r matches Err(e) && plugin_error_view(e) == PluginErrorView::Fatal(
                    framed_number("signal fd eof "@, old(self)@.fd as int, ""@)),
                ReadResult::Fatal { fd: _, msg } => r matches Err(e) && plugin_error_view(e) == PluginErrorView::Read(
                    framed_number("signal fd fatal "@, old(self)@.fd as int, ": "@) + msg@),
            },
    {
        let fd = self.fd;
        match result {
            ReadResult::Success(n) => {
                if n == self.expected_size {
                    Ok(true)
                } else {
                    let mut m = String::from_str("Unexpected number of bytes read: ");
                    push_decimal(&mut m, n as u64);
                    m.append(" for signalfd: ");
                    push_signed_decimal(&mut m, fd as i64);
                    m.append(". the ");
                    push_decimal(&mut m, self.expected_size as u64);
                    m.append(" byte is expected to arrive");
                    Err(PluginError::RecoverableFdError(m))
                }
            },
            ReadResult::BufferIsFull { fd: _, data_len } => {
                if data_len < self.expected_size {
                    self.buf.resize(self.expected_size - data_len);
                } else {
                    self.buf.clear();
                }
                Ok(false)
            },
            ReadResult::WouldBlock { .. } => Ok(false),
            ReadResult::Interrupted { .. } => Ok(false),
            ReadResult::InvalidFd { .. } => {
                Err(PluginError::RecoverableFdError(frame_number("Invalid signal fd ", fd as i64, "")))
            },
            ReadResult::Eof { .. } => Err(PluginError::Fatal(frame_number("signal fd eof ", fd as i64, ""))),
            ReadResult::Fatal { fd: _, msg } => {
                let mut m = frame_number("signal fd fatal ", fd as i64, ": ");
                m.append(msg.as_str());
                Err(PluginError::ReadError(m))
            },
        }
    }

    /// Checks that the buffer holds a whole signal record, of `size` bytes and alignment
    /// `align` (see `record_problem`); `aligned` tells whether the data starts at an address
    /// aligned for it. When it does not, the buffer is emptied and the error says why.
    pub fn check_record(&mut self, size: usize, align: usize, aligned: bool, structure: &str) -> (r: Result<(), PluginError>)
        ensures
            match record_problem(old(self)@.buf, size as nat, align as nat, aligned, structure@) {
                None => r is Ok && final(self)@ == old(self)@,
                Some(m) => (r matches Err(e) && plugin_error_view(e) == PluginErrorView::Processing(m))
                    && final(self)@ == (SignalPluginView {
                        buf: BufferView { data_len: 0, data_offset: 0, ..old(self)@.buf },
                        ..old(self)@
                    }),
            },
    {
        proof {
            reveal_strlit("Failed to read siginfo from buffer: data len is less than required: required: ");
            reveal_strlit(", available: ");
            reveal_strlit(", type_name: ");
            reveal_strlit("Failed to read siginfo from buffer: align error: required: ");
        }
        match self.buf.check_read_struct(size, align, aligned, structure) {
            Ok(()) => Ok(()),
            Err(BufferError::DataLenIsLessReadableType { required, available, structure: name }) => {
                self.buf.clear();
                let mut m = String::from_str("Failed to read siginfo from buffer: data len is less than required: required: ");
                push_decimal(&mut m, required as u64);
                m.append(", available: ");
                push_decimal(&mut m, available as u64);
                m.append(", type_name: ");
                m.append(name.as_str());
                Err(PluginError::ProcessingError(m))
            },
            Err(BufferError::AlignError { required, structure: name }) => {
                self.buf.clear();
                let mut m = String::from_str("Failed to read siginfo from buffer: align error: required: ");
                push_decimal(&mut m, required as u64);
                m.append(", type_name: ");
                m.append(name.as_str());
                Err(PluginError::ProcessingError(m))
            },
        }
    }

    /// Acts on a signal read from the descriptor, given its number and its sender's pid and
    /// uid: `SIGTERM`, `SIGINT` and `SIGQUIT` begin a smart, fast or immediate stop with code 0
    /// and a message that names the signal and its sender; `SIGCHLD` asks to reap the child;
    /// `SIGHUP` asks for the configuration to be reloaded; other signals change nothing. A
    /// number that is no signal is an error.
    pub fn process_signal(
        &mut self,
        signo: u32,
        pid: u32,
        uid: u32,
        shutdown: &mut AppShutdown,
        reload: &mut ReloadConfig,
    ) -> (r: Result<SignalFollowUp, PluginError>)
        ensures
            *final(self) == *old(self),
            ({
                let n = signo as i32;
                match signal_kind_of(n) {
                    None => *final(shutdown) == *old(shutdown) && final(reload)@ == old(reload)@
                        && (r matches Err(e) && plugin_error_view(e) == PluginErrorView::Processing(
                            "Failed to convert signal number to enum: "@ + decimal(signo as nat))),
                    Some(k) => {
                        let msg = signal_message(signal_name_of(n), pid, uid);
                        let stop = |kind: ShutdownType| exists|now: u64|
                            final(shutdown)@ == #[trigger] stopped_by_signal(old(shutdown)@, kind, now, msg);
                        &&& (k is Term ==> stop(ShutdownType::SmartStop))
                        &&& (k is Int ==> stop(ShutdownType::FastStop))
                        &&& (k is Quit ==> stop(ShutdownType::ImmediateStop))
                        &&& (!(k is Term || k is Int || k is Quit) ==> *final(shutdown) == *old(shutdown))
                        &&& final(reload)@ == (old(reload)@ || k is Hup)
                        &&& r matches Ok(f)
                        &&& f == (if k is Chld { SignalFollowUp::Reap(pid) } else { SignalFollowUp::Nothing })
                    },
                }
            }),
    {
        #[verifier::truncate]
        let n: i32 = signo as i32;
        let kind = signal_kind(n);
        let k = match kind {
            None => {
                let mut m = String::from_str("Failed to convert signal number to enum: ");
                push_decimal(&mut m, signo as u64);
                return Err(PluginError::ProcessingError(m));
            },
            Some(k) => k,
        };
        let name = match signal_name(n) {
            Some(s) => s,
            None => String::new(),
        };
        match k {
            SignalKind::Term => {
                let ghost before = shutdown@;
                shutdown.shutdown_smart();
                let ghost now = choose|now: u64| shutdown@ == begin_shutdown(before, ShutdownType::SmartStop, now);
                shutdown.set_code(0);
                let msg = make_signal_message(name.as_str(), pid, uid);
                let ghost text = msg@;
                shutdown.set_message(msg);
                assert(shutdown@ == stopped_by_signal(before, ShutdownType::SmartStop, now, text));
                Ok(SignalFollowUp::Nothing)
            },
            SignalKind::Int => {
                let ghost before = shutdown@;
                shutdown.shutdown_fast();
                let ghost now = choose|now: u64| shutdown@ == begin_shutdown(before, ShutdownType::FastStop, now);
                shutdown.set_code(0);
                let msg = make_signal_message(name.as_str(), pid, uid);
                let ghost text = msg@;
                shutdown.set_message(msg);
                assert(shutdown@ == stopped_by_signal(before, ShutdownType::FastStop, now, text));
                Ok(SignalFollowUp::Nothing)
            },
            SignalKind::Quit => {
                let ghost before = shutdown@;
                shutdown.shutdown_immediate();
                let ghost now = choose|now: u64| shutdown@ == begin_shutdown(before, ShutdownType::ImmediateStop, now);
                shutdown.set_code(0);
                let msg = make_signal_message(name.as_str(), pid, uid);
                let ghost text = msg@;
                shutdown.set_message(msg);
                assert(shutdown@ == stopped_by_signal(before, ShutdownType::ImmediateStop, now, text));
                Ok(SignalFollowUp::Nothing)
            },
            SignalKind::Chld => Ok(SignalFollowUp::Reap(pid)),
            SignalKind::Hup => {
                reload.set_reload_needed();
                Ok(SignalFollowUp::Nothing)
            },
            _ => Ok(SignalFollowUp::Nothing),
        }
    }

    /// Empties the buffer after a signal was processed.
    pub fn finish_signal(&mut self)
        ensures
            final(self)@ == (SignalPluginView {
                buf: BufferView { data_len: 0, data_offset: 0, ..old(self)@.buf },
                ..old(self)@
            }),
    {
        self.buf.clear();
    }

    /// The first step of handling a round: a code to return at once when the application is
    /// stopping (1, which ends the plugin) or `poll(2)` reported nothing (0); `None` to go on.
    pub fn handle_start(&self, shutdown: &AppShutdown, poll: &UnixPoll) -> (r: Option<i32>)
        ensures
            r == (if crate::shutdown::is_stopping_type(shutdown@.kind) {
                Some(1i32)
            } else if poll.spec_result() <= 0 {
                Some(0i32)
            } else {
                None::<i32>
            }),
    {
        if shutdown.is_stoping() {
            return Some(1);
        }
        if poll.get_result() <= 0 {
            return Some(0);
        }
        None
    }

    /// Takes in a round handled without error: the error and recovery counts start again.
    pub fn handle_ok(&mut self) -> (c: i32)
        ensures
            c == 0,
            final(self)@ == (SignalPluginView { error_count: 0, recovery_attempts: 0, ..old(self)@ }),
    {
        self.error_count = 0;
        if self.recovery_attempts > 0 {
            self.recovery_attempts = 0;
        }
        0
    }

    /// Takes in a round that failed with `err`: the error is counted; a descriptor error is
    /// counted as a recovery and asks for one while recoveries are left; otherwise the code to
    /// return follows.
    pub fn handle_err(&mut self, err: &PluginError) -> (step: ErrorStep)
        requires
            old(self)@.error_count < usize::MAX,
            old(self)@.recovery_attempts < usize::MAX,
        ensures
            final(self)@.error_count == old(self)@.error_count + 1,
            final(self)@.recovery_attempts == old(self)@.recovery_attempts + (if *err is RecoverableFdError { 1int } else { 0int }),
            final(self)@ == (SignalPluginView {
                error_count: final(self)@.error_count,
                recovery_attempts: final(self)@.recovery_attempts,
                ..old(self)@
            }),
            step == (if *err is RecoverableFdError && final(self)@.recovery_attempts <= old(self)@.max_recovery_attempts {
                ErrorStep::TryRecover
            } else {
                ErrorStep::Code(error_code(final(self)@.error_count, old(self)@.max_errors, *err is Fatal))
            }),
    {
        self.error_count = self.error_count + 1;
        match err {
            PluginError::RecoverableFdError(_) => {
                self.recovery_attempts = self.recovery_attempts + 1;
                if self.recovery_attempts <= self.max_recovery_attempts {
                    return ErrorStep::TryRecover;
                }
            },
            _ => {},
        }
        if self.error_count > self.max_errors {
            return ErrorStep::Code(1);
        }
        ErrorStep::Code(err.to_return_code())
    }

    /// Takes in the outcome of a recovery: 0 when it worked, and otherwise the code after the
    /// error.
    pub fn after_recover(&self, recovered: bool, err: &PluginError) -> (c: i32)
        ensures
            c == (if recovered { 0 } else { error_code(self@.error_count, self@.max_errors, *err is Fatal) }),
    {
        if recovered {
            return 0;
        }
        if self.error_count > self.max_errors {
            return 1;
        }
        err.to_return_code()
    }

    /// The first part of a recovery: the old descriptor leaves the poll set and the buffer is
    /// emptied. Returns whether the descriptor was in the poll set.
    pub fn begin_recover(&mut self, poll: &mut UnixPoll) -> (removed: bool)
        ensures
            removed == watches(old(poll).entries(), old(self)@.fd),
            !watches(final(poll).entries(), old(self)@.fd),
            final(self)@ == (SignalPluginView {
                buf: BufferView { data_len: 0, data_offset: 0, ..old(self)@.buf },
                ..old(self)@
            }),
    {
        proof {
            use_type_invariant(&*poll);
            poll.lemma_wf_distinct();
        }
        let ghost before = poll.entries();
        let removed = poll.remove_fd(self.fd);
        proof {
            if removed {
                let i = choose|i: int| 0 <= i < before.len() && before[i].fd == self.fd
                    && poll.entries() == before.update(i, before.last()).drop_last();
                crate::unix_poll::lemma_removed_not_watched(before, i, self.fd);
            }
        }
        self.buf.clear();
        removed
    }

    /// The last part of a recovery: the new descriptor `fd`, with a fresh buffer for records of
    /// `expected_size` bytes.
    pub fn complete_recover(&mut self, fd: i32, expected_size: usize)
        ensures
            final(self)@ == (SignalPluginView {
                fd,
                buf: BufferView { bytes: Seq::new(expected_size as nat, |i: int| 0u8), data_len: 0, data_offset: 0 },
                expected_size,
                ..old(self)@
            }),
    {
        self.fd = fd;
        self.buf = Buffer::new(expected_size);
        self.expected_size = expected_size;
    }
}

/// The shutdown state after a stopping signal: the stop of kind `kind` begins at `now` (unless
/// one of that kind is under way), with code 0 and the message `msg`.
pub open spec fn stopped_by_signal(s: AppShutdownView, kind: ShutdownType, now: u64, msg: Seq<char>) -> AppShutdownView {
    AppShutdownView { code: 0, message: Some(msg), ..begin_shutdown(s, kind, now) }
}

/// What keeps a signal record of `size` bytes and alignment `align` from being read out of the
/// buffer: too little data first, then a start that is not aligned; `None` when it can be read.
pub open spec fn record_problem(b: BufferView, size: nat, align: nat, aligned: bool, structure: Seq<char>) -> Option<Seq<char>> {
    if available(b) < size {
        Some("Failed to read siginfo from buffer: data len is less than required: required: "@ + decimal(size)
            + ", available: "@ + decimal(available(b)) + ", type_name: "@ + structure)
    } else if !aligned {
        Some("Failed to read siginfo from buffer: align error: required: "@ + decimal(align) + ", type_name: "@ + structure)
    } else {
        None
    }
}

/// The line the plugin logs at info level for a signal of kind `k` named `name`, sent by
/// `pid` and `uid`: a reload for `SIGHUP`, the sender for `SIGUSR1`, `SIGUSR2` and any other
/// signal; none for the stopping signals and `SIGCHLD`, whose handling says the rest.
pub open spec fn signal_note(k: SignalKind, name: Seq<char>, pid: u32, uid: u32) -> Option<Seq<char>> {
    match k {
        SignalKind::Hup => Some("Received SIGHUP, triggering configuration reload"@),
        SignalKind::Usr1 => Some("Received "@ + signal_message(name, pid, uid)),
        SignalKind::Usr2 => Some("Received "@ + signal_message(name, pid, uid)),
        SignalKind::Other => Some("Received signal "@ + signal_message(name, pid, uid)),
        _ => None,
    }
}

/// The line logged at info level for the signal `signo` from `pid` and `uid` (see
/// `signal_note`); none for a number that is no signal.
pub fn signal_log_note(signo: u32, pid: u32, uid: u32) -> (r: Option<String>)
    ensures
        match signal_kind_of(signo as i32) {
            None => r is None,
            Some(k) => match r {
                Some(t) => signal_note(k, signal_name_of(signo as i32), pid, uid) == Some(t@),
                None => signal_note(k, signal_name_of(signo as i32), pid, uid) is None,
            },
        },
{
    proof {
        reveal_strlit("Received SIGHUP, triggering configuration reload");
        reveal_strlit("Received ");
        reveal_strlit("Received signal ");
    }
    #[verifier::truncate]
    let n: i32 = signo as i32;
    let k = match signal_kind(n) {
        Some(k) => k,
        None => {
            return None;
        },
    };
    let name = match signal_name(n) {
        Some(t) => t,
        None => String::new(),
    };
    let prefix: &str = match k {
        SignalKind::Hup => {
            return Some(String::from_str("Received SIGHUP, triggering configuration reload"));
        },
        SignalKind::Usr1 => "Received ",
        SignalKind::Usr2 => "Received ",
        SignalKind::Other => "Received signal ",
        _ => {
            return None;
        },
    };
    let mut t = String::from_str(prefix);
    t.append(make_signal_message(name.as_str(), pid, uid).as_str());
    Some(t)
}

/// The smaller of two lengths.
pub open spec fn min_len(a: nat, b: nat) -> nat {
    if a <= b { a } else { b }
}

} // verus!
