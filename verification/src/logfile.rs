use vstd::prelude::*;
use vstd::string::StringExecFns;
use std::time::{Duration, Instant};
use crate::buffer::{Buffer, BufferView, offsets_in_order};
use crate::fd_io::ReadResult;
use crate::poll_handlers::PollBits;
use crate::shutdown::{AppShutdown, is_stopping_type};
use crate::signal_plugin::fd_revents;
use crate::signals::{frame_number, framed_number};
use crate::text::{push_signed_decimal, signed_decimal};
use crate::unix_app::instant_now;
use crate::unix_poll::{PollFd, UnixPoll, revents_cleared, watches};

verus! {

/// `Instant::elapsed`: the time since `t` by the monotonic clock. Nothing is stated of it.
#[verifier::external_body]
fn instant_elapsed(t: Instant) -> (d: Duration) {
    t.elapsed()
}

/// `Duration::as_secs`: the whole seconds of `d`. `Duration` is opaque here, so nothing is
/// stated of the number.
#[verifier::external_body]
fn duration_whole_secs(d: Duration) -> (s: u64) {
    d.as_secs()
}

/// The errors of the log-file plugin.
#[derive(Debug)]
pub enum PluginError {
    /// The log file could not be opened or written.
    FileError(String),
    /// A problem of a descriptor that may pass.
    RecoverableFdError(String),
    /// The plugin cannot go on.
    Fatal(String),
}

/// An error of the log-file plugin, its text taken by its view.
pub enum LogErrorView {
    File(Seq<char>),
    Recoverable(Seq<char>),
    Fatal(Seq<char>),
}

/// The view of an error of the log-file plugin.
pub open spec fn log_error_view(e: PluginError) -> LogErrorView {
    match e {
        PluginError::FileError(m) => LogErrorView::File(m@),
        PluginError::RecoverableFdError(m) => LogErrorView::Recoverable(m@),
        PluginError::Fatal(m) => LogErrorView::Fatal(m@),
    }
}

impl PluginError {
    /// The code the plugin returns for this error: 1 for a fatal one, which ends the plugin,
    /// and 0 otherwise.
    pub fn to_return_code(&self) -> (c: i32)
        ensures
            c == (if *self is Fatal { 1i32 } else { 0i32 }),
    {
        match self {
            PluginError::Fatal(_) => 1,
            _ => 0,
        }
    }
}

/// What to do with a descriptor of the plugin after `poll(2)`.
#[derive(Debug)]
pub enum FdStep {
    /// Stop with this error.
    Failed(PluginError),
    /// Nothing was reported: nothing to do.
    Idle,
    /// Read the descriptor.
    Read,
    /// Clear its reported events: there is nothing to read.
    Reset,
}

/// The step for a descriptor, as a view.
pub enum FdStepView {
    Failed(LogErrorView),
    Idle,
    Read,
    Reset,
}

/// The view of the step for a descriptor.
pub open spec fn fd_step_view(s: FdStep) -> FdStepView {
    match s {
        FdStep::Failed(e) => FdStepView::Failed(log_error_view(e)),
        FdStep::Idle => FdStepView::Idle,
        FdStep::Read => FdStepView::Read,
        FdStep::Reset => FdStepView::Reset,
    }
}

/// The step for the descriptor `fd`: one that is not watched is an error; no reported events
/// means nothing to do; unknown events, an error, a hang-up or an invalid descriptor is an
/// error; input is read; otherwise the events are cleared.
pub open spec fn fd_step(fd: i32, watched: bool, revents: i16, bits: PollBits) -> FdStepView {
    if !watched {
        FdStepView::Failed(LogErrorView::Recoverable(framed_number("fd "@, fd as int, " not registered"@)))
    } else if revents == 0 {
        FdStepView::Idle
    } else if revents & !bits.known != 0 {
        FdStepView::Failed(LogErrorView::Recoverable(framed_number("Unknown revents: "@, revents as int, ""@)))
    } else if revents & (bits.pollerr | bits.pollhup | bits.pollnval) != 0 {
        FdStepView::Failed(LogErrorView::Recoverable(framed_number("FD issue on "@, fd as int, ""@)))
    } else if revents & bits.pollin != 0 {
        FdStepView::Read
    } else {
        FdStepView::Reset
    }
}

/// A descriptor the plugin reads, with its buffer.
#[derive(Debug)]
pub struct FdHandler {
    fd: i32,
    buffer: Buffer,
}

/// What a descriptor handler holds.
pub struct FdHandlerView {
    pub fd: i32,
    pub buffer: BufferView,
}

impl View for FdHandler {
    type V = FdHandlerView;

    closed spec fn view(&self) -> FdHandlerView {
        FdHandlerView { fd: self.fd, buffer: self.buffer@ }
    }
}

impl FdHandler {
    /// A handler of `fd` with a buffer of `buffer_size` bytes.
    pub fn new(fd: i32, buffer_size: usize) -> (h: Self)
        ensures
            h@.fd == fd,
            h@.buffer.bytes == Seq::new(buffer_size as nat, |i: int| 0u8),
            h@.buffer.data_len == 0,
            h@.buffer.data_offset == 0,
    {
        FdHandler { fd, buffer: Buffer::new(buffer_size) }
    }

    /// The descriptor.
    pub fn fd(&self) -> (fd: i32)
        ensures
            fd == self@.fd,
    {
        self.fd
    }

    /// The buffer the descriptor is read into.
    pub fn buffer_mut(&mut self) -> (b: &mut Buffer)
        ensures
            b@ == old(self)@.buffer,
            final(self)@ == (FdHandlerView { buffer: final(b)@, ..old(self)@ }),
    {
        &mut self.buffer
    }

    /// Adds the descriptor to the poll set, watched for input, errors, hang-ups and
    /// invalidity.
    pub fn register_with_poll(&self, poll: &mut UnixPoll, bits: PollBits) -> (r: Result<(), String>)
        requires
            old(poll).entries().len() < usize::MAX,
        ensures
            r is Ok,
            watches(final(poll).entries(), self@.fd),
            final(poll).entries().len() <= old(poll).entries().len() + 1,
            forall|f: i32| watches(old(poll).entries(), f) ==> watches(final(poll).entries(), f),
            final(poll).spec_result() == old(poll).spec_result(),
    {
        let flags: i16 = bits.pollin | bits.pollerr | bits.pollhup | bits.pollnval;
        let added = poll.add_fd(self.fd, flags);
        proof {
            let s = poll.entries();
            if added {
                assert(s[s.len() - 1].fd == self.fd);
                assert forall|f: i32| watches(old(poll).entries(), f) implies watches(s, f) by {
                    let i = choose|i: int| 0 <= i < old(poll).entries().len() && #[trigger] old(poll).entries()[i].fd == f;
                    assert(s[i] == old(poll).entries()[i]);
                }
            }
        }
        Ok(())
    }

    /// Removes the descriptor from the poll set; returns whether it was there.
    pub fn unregister_from_poll(&self, poll: &mut UnixPoll) -> (removed: bool)
        ensures
            removed == watches(old(poll).entries(), self@.fd),
    {
        poll.remove_fd(self.fd)
    }

    /// The step for the descriptor, from what `poll(2)` reported for it.
    pub fn check_events(&self, poll: &UnixPoll, bits: PollBits) -> (r: FdStep)
        ensures
            fd_step_view(r) == fd_step(self@.fd, watches(poll.entries(), self@.fd), fd_revents(poll.entries(), self@.fd), bits),
    {
        let fd = self.fd;
        if !poll.has_fd(fd) {
            return FdStep::Failed(PluginError::RecoverableFdError(frame_number("fd ", fd as i64, " not registered")));
        }
        let revents: i16 = match poll.get_revents(fd) {
            Some(r) => r,
            None => 0,
        };
        proof {
            use_type_invariant(&*poll);
            poll.lemma_wf_distinct();
            let s = poll.entries();
            let i = choose|i: int| 0 <= i < s.len() && s[i].fd == fd && s[i].revents == revents;
            let j = choose|j: int| 0 <= j < s.len() && s[j].fd == fd;
            assert(s[i].fd == s[j].fd);
        }
        if revents == 0 {
            return FdStep::Idle;
        }
        if revents & !bits.known != 0 {
            return FdStep::Failed(PluginError::RecoverableFdError(frame_number("Unknown revents: ", revents as i64, "")));
        }
        if revents & (bits.pollerr | bits.pollhup | bits.pollnval) != 0 {
            return FdStep::Failed(PluginError::RecoverableFdError(frame_number("FD issue on ", fd as i64, "")));
        }
        if revents & bits.pollin != 0 {
            FdStep::Read
        } else {
            FdStep::Reset
        }
    }

    /// Takes in the outcome of a read of the descriptor: data read means the event fired
    /// (`Ok(true)`) and empties the buffer; a full buffer is grown when it holds less data
    /// than its capacity and emptied otherwise; a read that would block or was interrupted
    /// waits; in these cases the reported events are cleared. An invalid descriptor or the end
    /// of the stream is an error that may pass, a failed read a fatal one.
    pub fn after_read(&mut self, poll: &mut UnixPoll, result: ReadResult) -> (r: Result<bool, PluginError>)
        ensures
            final(self)@.fd == old(self)@.fd,
            match result {
                ReadResult::InvalidFd { .. } => final(self)@ == old(self)@ && *final(poll) == *old(poll)
                    && (r matches Err(e) && log_error_view(e) == LogErrorView::Recoverable(
                        framed_number("Invalid fd "@, old(self)@.fd as int, ""@))),
                ReadResult::Eof { .. } => final(self)@ == old(self)@ && *final(poll) == *old(poll)
                    && (r matches Err(e) && log_error_view(e) == LogErrorView::Recoverable(
                        framed_number("EOF on fd "@, old(self)@.fd as int, ""@))),
                ReadResult::Fatal { fd: _, msg } => final(self)@ == old(self)@ && *final(poll) == *old(poll)
                    && (r matches Err(e) && log_error_view(e) == LogErrorView::Fatal(
                        framed_number("Fatal on fd "@, old(self)@.fd as int, ": "@) + msg@)),
                _ => final(poll).entries().len() == old(poll).entries().len()
                    && r == Ok::<bool, PluginError>(result is Success)
                    && (result is Success ==> final(self)@.buffer == (BufferView { data_len: 0, data_offset: 0, ..old(self)@.buffer }))
                    && (result is WouldBlock || result is Interrupted ==> final(self)@ == old(self)@),
            },
    {
        let fd = self.fd;
        match result {
            ReadResult::Success(_) => {
                let _ = poll.reset_revents(fd);
                self.buffer.clear();
                Ok(true)
            },
            ReadResult::BufferIsFull { fd: _, data_len } => {
                let capacity = self.buffer.capacity();
                if data_len < capacity {
                    self.buffer.resize(capacity - data_len);
                } else {
                    self.buffer.clear();
                }
                let _ = poll.reset_revents(fd);
                Ok(false)
            },
            ReadResult::WouldBlock { .. } | ReadResult::Interrupted { .. } => {
                let _ = poll.reset_revents(fd);
                Ok(false)
            },
            ReadResult::InvalidFd { .. } => Err(PluginError::RecoverableFdError(frame_number("Invalid fd ", fd as i64, ""))),
            ReadResult::Eof { .. } => Err(PluginError::RecoverableFdError(frame_number("EOF on fd ", fd as i64, ""))),
            ReadResult::Fatal { fd: _, msg } => {
                let mut m = frame_number("Fatal on fd ", fd as i64, ": ");
                m.append(msg.as_str());
                Err(PluginError::Fatal(m))
            },
        }
    }

    /// Clears the reported events of the descriptor, when there is nothing to read.
    pub fn reset(&self, poll: &mut UnixPoll)
        ensures
            revents_cleared(old(poll).entries(), self@.fd, final(poll).entries()),
            final(poll).spec_timeout() == old(poll).spec_timeout(),
            final(poll).spec_result() == old(poll).spec_result(),
    {
        let _ = poll.reset_revents(self.fd);
    }
}

/// The log file: its path, when opening or writing it last failed, and how long to wait
/// before trying again.
#[derive(Debug)]
pub struct LogFileHandler {
    path: String,
    last_error_time: Option<Instant>,
    retry_interval_secs: u64,
}

/// What the log-file handler holds; the time of the last failure is reduced to whether there
/// is one.
pub struct LogFileView {
    pub path: Seq<char>,
    pub failed: bool,
    pub retry_interval_secs: u64,
}

impl View for LogFileHandler {
    type V = LogFileView;

    closed spec fn view(&self) -> LogFileView {
        LogFileView { path: self.path@, failed: self.last_error_time is Some, retry_interval_secs: self.retry_interval_secs }
    }
}

impl LogFileHandler {
    /// A handler of the log file at `path` that waits 5 seconds after a failure.
    pub fn new(path: &str) -> (h: Self)
        ensures
            h@ == (LogFileView { path: path@, failed: false, retry_interval_secs: 5 }),
    {
        LogFileHandler { path: String::from_str(path), last_error_time: None, retry_interval_secs: 5 }
    }

    /// The path of the log file.
    pub fn path(&self) -> (p: &str)
        ensures
            p@ == self@.path,
    {
        self.path.as_str()
    }

    /// Whether the file may be tried when `elapsed_secs` whole seconds have passed since the
    /// last failure: always when nothing failed, and otherwise once the wait is over.
    pub fn can_retry_after(&self, elapsed_secs: u64) -> (b: bool)
        ensures
            b == (!self@.failed || elapsed_secs >= self@.retry_interval_secs),
    {
        match self.last_error_time {
            Some(_) => elapsed_secs >= self.retry_interval_secs,
            None => true,
        }
    }

    /// Whether the file may be tried now (see `can_retry_after`): the whole seconds since the
    /// last failure are read from the monotonic clock, so after a failure the answer depends on
    /// the clock; without one it is always `true`.
    pub fn can_retry(&self) -> (b: bool)
        ensures
            !self@.failed ==> b,
    {
        match self.last_error_time {
            Some(time) => self.can_retry_after(duration_whole_secs(instant_elapsed(time))),
            None => self.can_retry_after(0),
        }
    }

    /// Takes note that opening the file worked: nothing has failed since.
    pub fn note_opened(&mut self)
        ensures
            final(self)@ == (LogFileView { failed: false, ..old(self)@ }),
    {
        self.last_error_time = None;
    }

    /// Takes note that opening or writing the file failed now.
    pub fn note_failure(&mut self)
        ensures
            final(self)@ == (LogFileView { failed: true, ..old(self)@ }),
    {
        self.last_error_time = Some(instant_now());
    }

    /// Takes in the outcome of writing `len` bytes of a formatted entry: all of them written
    /// is a success; fewer, or an error (its text given), is a failure noted now.
    pub fn after_write(&mut self, len: usize, outcome: Result<usize, String>) -> (r: Result<bool, PluginError>)
        ensures
            match outcome {
                Ok(n) => if n == len {
                    r matches Ok(b) && b && final(self)@ == old(self)@
                } else {
                    (r matches Err(e) && log_error_view(e) == LogErrorView::File("Partial write to log file"@))
                        && final(self)@ == (LogFileView { failed: true, ..old(self)@ })
                },
                Err(t) => (r matches Err(e) && log_error_view(e) == LogErrorView::File("Failed to write to log file: "@ + t@))
                    && final(self)@ == (LogFileView { failed: true, ..old(self)@ }),
            },
    {
        match outcome {
            Ok(n) => {
                if n == len {
                    Ok(true)
                } else {
                    self.note_failure();
                    Err(PluginError::FileError(String::from_str("Partial write to log file")))
                }
            },
            Err(t) => {
                self.note_failure();
                let mut m = String::from_str("Failed to write to log file: ");
                m.append(t.as_str());
                Err(PluginError::FileError(m))
            },
        }
    }
}

/// What to do with the next entry while flushing the log buffer.
#[derive(Debug)]
pub enum FlushStep {
    /// The entry was written: take it out of the buffer and go on.
    Dequeue,
    /// Stop flushing for now.
    Stop,
    /// Stop flushing with this error.
    Fail(PluginError),
}

/// The next step of a flush after an attempt to write the oldest entry: a written entry is
/// taken out; an entry not written (the file must wait) or a file error ends the flush
/// quietly; any other error ends it with that error.
pub fn flush_step(written: Result<bool, PluginError>) -> (s: FlushStep)
    ensures
        match written {
            Ok(b) => if b { s is Dequeue } else { s is Stop },
            Err(e) => if e is FileError { s is Stop } else { s matches FlushStep::Fail(f) && log_error_view(f) == log_error_view(e) },
        },
{
    match written {
        Ok(true) => FlushStep::Dequeue,
        Ok(false) => FlushStep::Stop,
        Err(PluginError::FileError(_)) => FlushStep::Stop,
        Err(e) => FlushStep::Fail(e),
    }
}

/// How a round of the log-file plugin starts.
#[derive(Debug, Clone, Copy, PartialEq, Eq, Structural)]
pub enum LogRoundStart {
    /// The application is stopping: flush what is left and end the plugin.
    FlushAndEnd,
    /// `poll(2)` reported nothing: return 0.
    Nothing,
    /// Look at the timer and the event descriptors.
    Go,
}

/// The plugin that writes the log buffer to a file, when its timer fires and when it is told
/// that new entries arrived.
#[derive(Debug)]
pub struct LogPlugin {
    timer: FdHandler,
    event: FdHandler,
    log: LogFileHandler,
    error_count: usize,
    max_errors: usize,
}

/// The counters of the log-file plugin.
pub struct LogPluginView {
    pub timer: FdHandlerView,
    pub event: FdHandlerView,
    pub log: LogFileView,
    pub error_count: usize,
    pub max_errors: usize,
}

impl View for LogPlugin {
    type V = LogPluginView;

    closed spec fn view(&self) -> LogPluginView {
        LogPluginView { timer: self.timer@, event: self.event@, log: self.log@, error_count: self.error_count, max_errors: self.max_errors }
    }
}

impl LogPlugin {
    /// A plugin with the timer descriptor `timer_fd` and the event descriptor `event_fd` (each
    /// read into 8 bytes), writing to `application.log`; it allows 100 errors. Both descriptors
    /// join the poll set.
    pub fn new(poll: &mut UnixPoll, bits: PollBits, timer_fd: i32, event_fd: i32) -> (r: Result<Self, String>)
        requires
            old(poll).entries().len() + 2 <= usize::MAX,
        ensures
            r matches Ok(p) && p@.timer.fd == timer_fd && p@.event.fd == event_fd
                && p@.log == (LogFileView { path: "application.log"@, failed: false, retry_interval_secs: 5 })
                && p@.error_count == 0 && p@.max_errors == 100,
            watches(final(poll).entries(), timer_fd),
            watches(final(poll).entries(), event_fd),
    {
        let log = LogFileHandler::new("application.log");
        let timer = FdHandler::new(timer_fd, 8);
        let event = FdHandler::new(event_fd, 8);
        let _ = timer.register_with_poll(poll, bits);
        let _ = event.register_with_poll(poll, bits);
        Ok(LogPlugin { timer, event, log, error_count: 0, max_errors: 100 })
    }

    /// How many errors were counted since the last success.
    pub fn error_count(&self) -> (n: usize)
        ensures
            n == self@.error_count,
    {
        self.error_count
    }

    /// The timer descriptor's handler.
    pub fn timer_mut(&mut self) -> (h: &mut FdHandler)
        ensures
            h@ == old(self)@.timer,
            final(self)@ == (LogPluginView { timer: final(h)@, ..old(self)@ }),
    {
        &mut self.timer
    }

    /// The event descriptor's handler.
    pub fn event_mut(&mut self) -> (h: &mut FdHandler)
        ensures
            h@ == old(self)@.event,
            final(self)@ == (LogPluginView { event: final(h)@, ..old(self)@ }),
    {
        &mut self.event
    }

    /// The log-file handler.
    pub fn log_mut(&mut self) -> (h: &mut LogFileHandler)
        ensures
            h@ == old(self)@.log,
            final(self)@ == (LogPluginView { log: final(h)@, ..old(self)@ }),
    {
        &mut self.log
    }

    /// How a round starts: the application is stopping, `poll(2)` reported nothing, or the
    /// descriptors are to be looked at.
    pub fn handle_start(&self, shutdown: &AppShutdown, poll: &UnixPoll) -> (r: LogRoundStart)
        ensures
            r == (if is_stopping_type(shutdown@.kind) {
                LogRoundStart::FlushAndEnd
            } else if poll.spec_result() <= 0 {
                LogRoundStart::Nothing
            } else {
                LogRoundStart::Go
            }),
    {
        if shutdown.is_stoping() {
            return LogRoundStart::FlushAndEnd;
        }
        if poll.get_result() <= 0 {
            return LogRoundStart::Nothing;
        }
        LogRoundStart::Go
    }

    /// Takes in an error of the timer, the event descriptor or a flush: it is counted, and the
    /// plugin ends (1) beyond the limit; otherwise the error's own code follows.
    pub fn on_error(&mut self, err: &PluginError) -> (c: i32)
        requires
            old(self)@.error_count < usize::MAX,
        ensures
            final(self)@ == (LogPluginView { error_count: (old(self)@.error_count + 1) as usize, ..old(self)@ }),
            c == (if old(self)@.error_count + 1 > old(self)@.max_errors { 1i32 } else if *err is Fatal { 1i32 } else { 0i32 }),
    {
        self.error_count = self.error_count + 1;
        if self.error_count > self.max_errors {
            return 1;
        }
        err.to_return_code()
    }

    /// Takes in a flush that succeeded: the error count starts again.
    pub fn on_flushed(&mut self) -> (c: i32)
        ensures
            c == 0,
            final(self)@ == (LogPluginView { error_count: 0, ..old(self)@ }),
    {
        if self.error_count > 0 {
            self.error_count = 0;
        }
        0
    }
}

} // verus!
