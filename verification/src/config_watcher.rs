use vstd::prelude::*;
use vstd::string::StringExecFns;
use vstd::bytes::{spec_u32_from_le_bytes, u32_from_le_bytes};
use crate::buffer::{Buffer, BufferView, offsets_in_order, pending};
use crate::fd_io::ReadResult;
use crate::poll_handlers::PollBits;
use crate::reload_config::ReloadConfig;
use crate::shutdown::{AppShutdown, ShutdownType, is_stopping_type};
use crate::signals::{frame_number, framed_number};
use crate::signal_plugin::fd_revents;
use crate::text::{decimal, hex, push_decimal, push_hex, push_signed_decimal, signed_decimal};
use crate::plugin_loader::string_views;
use crate::unix_poll::{UnixPoll, fd_removed, watches};

verus! {

/// The inotify event of a file that was written to.
pub const IN_MODIFY: u32 = 0x00000002;
/// The inotify event of a file opened for writing that was closed.
pub const IN_CLOSE_WRITE: u32 = 0x00000008;
/// The inotify event of a file moved into the watched place.
pub const IN_MOVED_TO: u32 = 0x00000080;
/// The inotify event of a file created in a watched directory.
pub const IN_CREATE: u32 = 0x00000100;
/// The inotify event of a file deleted from a watched directory.
pub const IN_DELETE: u32 = 0x00000200;

/// The size of the fixed part of an inotify record: descriptor, mask, cookie and name length.
pub const INOTIFY_RECORD_SIZE: usize = 16;

/// The fixed part of one inotify record.
#[derive(Debug, Clone, Copy, PartialEq, Eq, Structural)]
pub struct InotifyRecord {
    /// The watch the event belongs to.
    pub wd: i32,
    /// The events.
    pub mask: u32,
    /// Ties the two halves of a rename together.
    pub cookie: u32,
    /// The length of the name that follows.
    pub len: u32,
}

/// The 32-bit word at `off`, in the byte order of the platform that wrote it: little-endian
/// when `le`, big-endian otherwise.
pub open spec fn word_at(data: Seq<u8>, off: int, le: bool) -> u32 {
    if le {
        spec_u32_from_le_bytes(data.subrange(off, off + 4))
    } else {
        spec_u32_from_le_bytes(seq![data[off + 3], data[off + 2], data[off + 1], data[off]])
    }
}

/// The record whose fixed part starts at `off`.
pub open spec fn record_at(data: Seq<u8>, off: int, le: bool) -> InotifyRecord {
    InotifyRecord {
        wd: word_at(data, off, le) as i32,
        mask: word_at(data, off + 4, le),
        cookie: word_at(data, off + 8, le),
        len: word_at(data, off + 12, le),
    }
}

/// The whole records of `data` from `off` on; a record cut short ends them.
pub open spec fn records_from(data: Seq<u8>, off: int, le: bool) -> Seq<InotifyRecord>
    decreases data.len() - off,
{
    if off < 0 || off + 16 > data.len() {
        Seq::empty()
    } else {
        let r = record_at(data, off, le);
        if off + 16 + r.len > data.len() {
            Seq::empty()
        } else {
            seq![r] + records_from(data, off + 16 + r.len, le)
        }
    }
}

/// The 32-bit word at `off` (see `word_at`).
fn read_word(data: &[u8], off: usize, le: bool) -> (w: u32)
    requires
        off + 4 <= data@.len(),
    ensures
        w == word_at(data@, off as int, le),
{
    let n = data.len();
    assert(off + 4 <= n);
    if le {
        u32_from_le_bytes(&data[off..off + 4])
    } else {
        let swapped: [u8; 4] = [data[off + 3], data[off + 2], data[off + 1], data[off]];
        let w = u32_from_le_bytes(&swapped);
        assert(swapped@ =~= seq![data@[off + 3], data@[off + 2], data@[off + 1], data@[off as int]]);
        w
    }
}

/// How far an edit of the configuration file has come.
#[derive(Debug, Clone, Copy, PartialEq, Eq, Structural)]
pub enum EditPattern {
    /// Nothing seen yet.
    Idle,
    /// The file was written to.
    ModifyStarted,
    /// A temporary file was made.
    TempFileCreated,
    /// The file was deleted.
    FileDeleted,
    /// An edit is complete.
    Completed,
}

/// One step of the edit pattern on an event of the watched file: a write starts an edit, and a
/// close after writing completes it (also without a write seen before). Returns the new
/// pattern and whether an edit was completed.
pub open spec fn edit_step(p: EditPattern, mask: u32) -> (EditPattern, bool) {
    let (p1, c1) = match p {
        EditPattern::Idle => if mask & IN_MODIFY != 0 { (EditPattern::ModifyStarted, false) } else { (p, false) },
        EditPattern::ModifyStarted => if mask & IN_CLOSE_WRITE != 0 { (EditPattern::Completed, true) } else { (p, false) },
        _ => (p, false),
    };
    if mask & IN_CLOSE_WRITE != 0 && p1 == EditPattern::Idle {
        (EditPattern::Completed, true)
    } else {
        (p1, c1)
    }
}

/// The edit pattern after the records `recs`, those of other watches left aside, and whether
/// an edit was completed on the way.
pub open spec fn edit_after(p: EditPattern, recs: Seq<InotifyRecord>, wd: i32) -> (EditPattern, bool)
    decreases recs.len(),
{
    if recs.len() == 0 {
        (p, false)
    } else {
        let (p1, c1) = if recs[0].wd == wd { edit_step(p, recs[0].mask) } else { (p, false) };
        let (p2, c2) = edit_after(p1, recs.drop_first(), wd);
        (p2, c1 || c2)
    }
}

/// The pattern after the first check of a record of the watched file (before a lone close
/// after writing is looked at).
pub open spec fn pattern_checked(p: EditPattern, mask: u32) -> EditPattern {
    match p {
        EditPattern::Idle => if mask & IN_MODIFY != 0 { EditPattern::ModifyStarted } else { p },
        EditPattern::ModifyStarted => if mask & IN_CLOSE_WRITE != 0 { EditPattern::Completed } else { p },
        _ => p,
    }
}

/// The trace lines for one record of the watched file, from the pattern `p`: the event with
/// its mask (hexadecimal) and cookie; then the start of an edit by a write, or its completion
/// by a close after the write; then a close after writing seen with no edit under way.
pub open spec fn step_notes(p: EditPattern, mask: u32, cookie: u32) -> Seq<Seq<char>> {
    let event = seq!["Config file event: mask="@ + hex(mask as nat) + ", cookie="@ + decimal(cookie as nat)];
    let checked = match p {
        EditPattern::Idle => if mask & IN_MODIFY != 0 { seq!["Pattern 1 started: IN_MODIFY"@] } else { Seq::empty() },
        EditPattern::ModifyStarted => if mask & IN_CLOSE_WRITE != 0 {
            seq!["Pattern 1 completed: IN_MODIFY + IN_CLOSE_WRITE"@]
        } else {
            Seq::empty()
        },
        _ => Seq::empty(),
    };
    let direct = if mask & IN_CLOSE_WRITE != 0 && pattern_checked(p, mask) == EditPattern::Idle {
        seq!["Direct write detected: IN_CLOSE_WRITE"@]
    } else {
        Seq::empty()
    };
    event + checked + direct
}

/// The trace lines for the records `recs`, those of other watches left aside, from the
/// pattern `p`.
pub open spec fn notes_after(p: EditPattern, recs: Seq<InotifyRecord>, wd: i32) -> Seq<Seq<char>>
    decreases recs.len(),
{
    if recs.len() == 0 {
        Seq::empty()
    } else if recs[0].wd == wd {
        step_notes(p, recs[0].mask, recs[0].cookie) + notes_after(edit_step(p, recs[0].mask).0, recs.drop_first(), wd)
    } else {
        notes_after(p, recs.drop_first(), wd)
    }
}

/// The errors of the configuration watcher.
#[derive(Debug)]
pub enum PluginError {
    /// Reading the inotify descriptor failed.
    ReadError(String),
    /// The plugin cannot go on.
    Fatal(String),
}

/// An error of the configuration watcher, its text taken by its view.
pub enum WatcherErrorView {
    Read(Seq<char>),
    Fatal(Seq<char>),
}

/// The view of an error of the configuration watcher.
pub open spec fn watcher_error_view(e: PluginError) -> WatcherErrorView {
    match e {
        PluginError::ReadError(m) => WatcherErrorView::Read(m@),
        PluginError::Fatal(m) => WatcherErrorView::Fatal(m@),
    }
}

impl PluginError {
    /// The code the plugin returns for this error: 1 for a fatal one, which ends the plugin,
    /// and 0 otherwise.
    pub fn to_return_code(&self) -> (c: i32)
        ensures
            c == (if *self is Fatal { 1i32 } else { 0i32 }),
    {
        match self {
            PluginError::Fatal(_) => 1,
            _ => 0,
        }
    }
}

/// What to do with the inotify descriptor after `poll(2)`.
#[derive(Debug)]
pub enum WatchStart {
    /// Stop with this error.
    Failed(PluginError),
    /// Read the descriptor, then clear its reported events.
    ReadThenReset,
    /// Clear its reported events.
    Reset,
}

/// The start of the handling of events, as a view.
pub enum WatchStartView {
    Failed(WatcherErrorView),
    ReadThenReset,
    Reset,
}

/// The view of the start of the handling of events.
pub open spec fn watch_start_view(s: WatchStart) -> WatchStartView {
    match s {
        WatchStart::Failed(e) => WatchStartView::Failed(watcher_error_view(e)),
        WatchStart::ReadThenReset => WatchStartView::ReadThenReset,
        WatchStart::Reset => WatchStartView::Reset,
    }
}

/// How the handling of events starts for the inotify descriptor `fd`: a descriptor that is not
/// watched, an error, an invalid descriptor or a hang-up is fatal, an unknown event a read
/// error; input is read; otherwise the events are cleared.
pub open spec fn watch_start(fd: i32, watched: bool, revents: i16, bits: PollBits) -> WatchStartView {
    if !watched {
        WatchStartView::Failed(WatcherErrorView::Fatal(framed_number("Inotify fd "@, fd as int, " not found in poll"@)))
    } else if revents > 0 {
        if revents & !bits.known != 0 {
            WatchStartView::Failed(WatcherErrorView::Read(
                "Unknown revents: "@ + signed_decimal(revents as int) + " on inotify fd "@ + signed_decimal(fd as int)))
        } else if revents & bits.pollerr != 0 {
            WatchStartView::Failed(WatcherErrorView::Fatal(framed_number("POLLERR on inotify fd "@, fd as int, ""@)))
        } else if revents & bits.pollnval != 0 {
            WatchStartView::Failed(WatcherErrorView::Fatal(framed_number("POLLNVAL on inotify fd "@, fd as int, ""@)))
        } else if revents & bits.pollhup != 0 {
            WatchStartView::Failed(WatcherErrorView::Fatal(framed_number("POLLHUP on inotify fd "@, fd as int, ""@)))
        } else if revents & bits.pollin != 0 {
            WatchStartView::ReadThenReset
        } else {
            WatchStartView::Reset
        }
    } else {
        WatchStartView::Reset
    }
}

/// The plugin that watches the configuration file through inotify and asks for a reload once
/// an edit of it is complete.
#[derive(Debug)]
pub struct ConfigWatcherPlugin {
    inotify_fd: i32,
    watch_descriptor: i32,
    config_path: String,
    buf: Buffer,
    error_count: usize,
    max_errors: usize,
    edit_pattern: EditPattern,
    last_cookie: u32,
    little_endian: bool,
}

/// What the configuration watcher holds.
pub struct WatcherView {
    pub inotify_fd: i32,
    pub watch_descriptor: i32,
    pub config_path: Seq<char>,
    pub buf: BufferView,
    pub error_count: usize,
    pub max_errors: usize,
    pub edit_pattern: EditPattern,
    pub last_cookie: u32,
    /// Whether the platform writes inotify records little-endian.
    pub little_endian: bool,
}

impl View for ConfigWatcherPlugin {
    type V = WatcherView;

    closed spec fn view(&self) -> WatcherView {
        WatcherView {
            inotify_fd: self.inotify_fd,
            watch_descriptor: self.watch_descriptor,
            config_path: self.config_path@,
            buf: self.buf@,
            error_count: self.error_count,
            max_errors: self.max_errors,
            edit_pattern: self.edit_pattern,
            last_cookie: self.last_cookie,
            little_endian: self.little_endian,
        }
    }
}

/// The watcher's state after a batch of events was taken in: when an edit completed, the
/// pattern starts again; the buffer is emptied either way.
pub open spec fn after_batch(w: WatcherView) -> (WatcherView, bool) {
    let (p, done) = edit_after(w.edit_pattern, records_from(pending(w.buf), 0, w.little_endian), w.watch_descriptor);
    (WatcherView {
        edit_pattern: if done { EditPattern::Idle } else { p },
        buf: BufferView { data_len: 0, data_offset: 0, ..w.buf },
        ..w
    }, done)
}

/// From a pattern with no edit completed (nothing seen, or a write seen), records of the
/// watched file that include a close after writing, without a write in the same record,
/// complete an edit.
proof fn lemma_close_write_completes(p: EditPattern, recs: Seq<InotifyRecord>, wd: i32, k: int)
    requires
        p == EditPattern::Idle || p == EditPattern::ModifyStarted,
        0 <= k < recs.len(),
        recs[k].wd == wd,
        recs[k].mask & IN_CLOSE_WRITE != 0,
        recs[k].mask & IN_MODIFY == 0,
    ensures
        edit_after(p, recs, wd).1,
    decreases recs.len(),
{
    let rest = recs.drop_first();
    if recs[0].wd == wd {
        let (p1, c1) = edit_step(p, recs[0].mask);
        if !c1 {
            assert(k != 0);
            assert(rest[k - 1] == recs[k]);
            lemma_close_write_completes(p1, rest, wd, k - 1);
        }
    } else {
        assert(k != 0);
        assert(rest[k - 1] == recs[k]);
        lemma_close_write_completes(p, rest, wd, k - 1);
    }
}

/// A completed edit starts the pattern again: after a batch in which an edit completed, the
/// pattern is back to nothing seen, so a later batch that holds a close after writing of the
/// watched file (a record with `IN_CLOSE_WRITE` and no `IN_MODIFY`) completes an edit again
/// and asks for another reload.
pub proof fn lemma_completed_edit_rearms(w: WatcherView, later: WatcherView, k: int)
    requires
        after_batch(w).1,
        later.edit_pattern == after_batch(w).0.edit_pattern,
        0 <= k < records_from(pending(later.buf), 0, later.little_endian).len(),
        records_from(pending(later.buf), 0, later.little_endian)[k].wd == later.watch_descriptor,
        records_from(pending(later.buf), 0, later.little_endian)[k].mask & IN_CLOSE_WRITE != 0,
        records_from(pending(later.buf), 0, later.little_endian)[k].mask & IN_MODIFY == 0,
    ensures
        after_batch(w).0.edit_pattern == EditPattern::Idle,
        after_batch(later).1,
{
    lemma_close_write_completes(
        later.edit_pattern,
        records_from(pending(later.buf), 0, later.little_endian),
        later.watch_descriptor,
        k,
    );
}

/// An edit of the file, a record with `IN_MODIFY` followed by one with `IN_CLOSE_WRITE`,
/// completes from a pattern with nothing seen.
pub proof fn lemma_modify_then_close_completes(recs: Seq<InotifyRecord>, wd: i32)
    requires
        recs.len() == 2,
        recs[0].wd == wd,
        recs[1].wd == wd,
        recs[0].mask & IN_MODIFY != 0,
        recs[1].mask & IN_CLOSE_WRITE != 0,
    ensures
        edit_after(EditPattern::Idle, recs, wd).1,
{
    let rest = recs.drop_first();
    assert(rest[0] == recs[1]);
    assert(edit_step(EditPattern::Idle, recs[0].mask).0 == EditPattern::ModifyStarted);
    assert(edit_step(EditPattern::ModifyStarted, recs[1].mask).1);
    assert(edit_after(EditPattern::ModifyStarted, rest, wd).1) by {
        assert(rest.drop_first().len() == 0);
    }
}

/// One step of the edit pattern on a record of the watched file (see `edit_step`), with its
/// trace lines appended to `trace` (see `step_notes`).
fn record_step(pattern: EditPattern, mask: u32, cookie: u32, trace: &mut Vec<String>) -> (r: (EditPattern, bool))
    ensures
        r == edit_step(pattern, mask),
        string_views(final(trace)@) == string_views(old(trace)@) + step_notes(pattern, mask, cookie),
{
    proof {
        reveal_strlit("Config file event: mask=");
        reveal_strlit(", cookie=");
        reveal_strlit("Pattern 1 started: IN_MODIFY");
        reveal_strlit("Pattern 1 completed: IN_MODIFY + IN_CLOSE_WRITE");
        reveal_strlit("Direct write detected: IN_CLOSE_WRITE");
    }
    let mut event = String::from_str("Config file event: mask=");
    push_hex(&mut event, mask as u64);
    event.append(", cookie=");
    push_decimal(&mut event, cookie as u64);
    let ghost before = trace@;
    trace.push(event);
    let ghost after_event = trace@;
    let mut p1 = pattern;
    let mut c1 = false;
    match pattern {
        EditPattern::Idle => {
            if mask & IN_MODIFY != 0 {
                p1 = EditPattern::ModifyStarted;
                trace.push(String::from_str("Pattern 1 started: IN_MODIFY"));
            }
        },
        EditPattern::ModifyStarted => {
            if mask & IN_CLOSE_WRITE != 0 {
                p1 = EditPattern::Completed;
                c1 = true;
                trace.push(String::from_str("Pattern 1 completed: IN_MODIFY + IN_CLOSE_WRITE"));
            }
        },
        _ => {},
    }
    assert(p1 == pattern_checked(pattern, mask));
    let ghost after_check = trace@;
    if mask & IN_CLOSE_WRITE != 0 && p1 == EditPattern::Idle {
        p1 = EditPattern::Completed;
        c1 = true;
        trace.push(String::from_str("Direct write detected: IN_CLOSE_WRITE"));
    }
    assert(string_views(trace@) =~= string_views(before) + step_notes(pattern, mask, cookie));
    (p1, c1)
}

impl ConfigWatcherPlugin {
    /// A watcher of `config_path` through the inotify descriptor `inotify_fd` and its watch
    /// `watch_descriptor`, with a buffer of 4096 bytes; it gives up after 5 errors in a row. The
    /// descriptor joins the poll set, watched for input, errors, hang-ups and invalidity. The
    /// records the kernel writes are read in the platform's byte order, which `little_endian`
    /// tells.
    pub fn new(poll: &mut UnixPoll, bits: PollBits, inotify_fd: i32, watch_descriptor: i32, config_path: String, little_endian: bool) -> (p: Self)
        requires
            old(poll).entries().len() < usize::MAX,
        ensures
            watches(final(poll).entries(), inotify_fd),
            p@.inotify_fd == inotify_fd,
            p@.watch_descriptor == watch_descriptor,
            p@.config_path == config_path@,
            p@.buf.bytes == Seq::new(4096, |i: int| 0u8),
            p@.buf.data_len == 0,
            p@.buf.data_offset == 0,
            p@.error_count == 0,
            p@.max_errors == 5,
            p@.edit_pattern == EditPattern::Idle,
            p@.last_cookie == 0,
            p@.little_endian == little_endian,
    {
        let flags: i16 = bits.pollin | bits.pollerr | bits.pollhup | bits.pollnval;
        let added = poll.add_fd_with_fallback(inotify_fd, flags);
        proof {
            if added {
                let s = poll.entries();
                assert(s[s.len() - 1].fd == inotify_fd);
            }
        }
        ConfigWatcherPlugin {
            inotify_fd,
            watch_descriptor,
            config_path,
            buf: Buffer::new(4096),
            error_count: 0,
            max_errors: 5,
            edit_pattern: EditPattern::Idle,
            last_cookie: 0,
            little_endian,
        }
    }

    /// The inotify descriptor.
    pub fn inotify_fd(&self) -> (fd: i32)
        ensures
            fd == self@.inotify_fd,
    {
        self.inotify_fd
    }

    /// The watch of the configuration file.
    pub fn watch_descriptor(&self) -> (wd: i32)
        ensures
            wd == self@.watch_descriptor,
    {
        self.watch_descriptor
    }

    /// How many errors were counted since the last success.
    pub fn error_count(&self) -> (n: usize)
        ensures
            n == self@.error_count,
    {
        self.error_count
    }

    /// Whether the buffer's offsets lie in order.
    pub fn buffer_is_consistent(&self) -> (b: bool)
        ensures
            b == offsets_in_order(self@.buf),
    {
        self.buf.is_consistent()
    }

    /// The buffer the descriptor is read into.
    pub fn buffer_mut(&mut self) -> (b: &mut Buffer)
        ensures
            b@ == old(self)@.buf,
            final(self)@ == (WatcherView { buf: final(b)@, ..old(self)@ }),
    {
        &mut self.buf
    }

    /// How the handling of events starts, from what `poll(2)` reported for the descriptor.
    pub fn check_events(&self, poll: &UnixPoll, bits: PollBits) -> (r: WatchStart)
        ensures
            watch_start_view(r) == watch_start(self@.inotify_fd, watches(poll.entries(), self@.inotify_fd),
                fd_revents(poll.entries(), self@.inotify_fd), bits),
    {
        let fd = self.inotify_fd;
        if !poll.has_fd(fd) {
            let m = frame_number("Inotify fd ", fd as i64, " not found in poll");
            return WatchStart::Failed(PluginError::Fatal(m));
        }
        let revents: i16 = match poll.get_revents(fd) {
            Some(r) => r,
            None => 0,
        };
        proof {
            use_type_invariant(&*poll);
            poll.lemma_wf_distinct();
            let s = poll.entries();
            let i = choose|i: int| 0 <= i < s.len() && s[i].fd == fd && s[i].revents == revents;
            let j = choose|j: int| 0 <= j < s.len() && s[j].fd == fd;
            assert(s[i].fd == s[j].fd);
        }
        if revents > 0 {
            if revents & !bits.known != 0 {
                let mut m = String::from_str("Unknown revents: ");
                push_signed_decimal(&mut m, revents as i64);
                m.append(" on inotify fd ");
                push_signed_decimal(&mut m, fd as i64);
                return WatchStart::Failed(PluginError::ReadError(m));
            }
            if revents & bits.pollerr != 0 {
                return WatchStart::Failed(PluginError::Fatal(frame_number("POLLERR on inotify fd ", fd as i64, "")));
            }
            if revents & bits.pollnval != 0 {
                return WatchStart::Failed(PluginError::Fatal(frame_number("POLLNVAL on inotify fd ", fd as i64, "")));
            }
            if revents & bits.pollhup != 0 {
                return WatchStart::Failed(PluginError::Fatal(frame_number("POLLHUP on inotify fd ", fd as i64, "")));
            }
            if revents & bits.pollin != 0 {
                return WatchStart::ReadThenReset;
            }
        }
        WatchStart::Reset
    }

    /// Takes in the outcome of a read of the descriptor. Data read, or a full buffer (which is
    /// then grown to twice its capacity), asks for the events to be processed (`Ok(true)`); an
    /// invalid descriptor or the end of the stream is fatal and a failed read a read error; a
    /// read that would block or was interrupted waits for the next event.
    pub fn after_read(&mut self, result: ReadResult) -> (r: Result<bool, PluginError>)
        ensures
            !(result is BufferIsFull) ==> final(self)@ == old(self)@,
            result is BufferIsFull ==> final(self)@ == (WatcherView { buf: final(self)@.buf, ..old(self)@ })
                && final(self)@.buf.data_len == old(self)@.buf.data_len
                && final(self)@.buf.data_offset == old(self)@.buf.data_offset
                && final(self)@.buf.bytes.len() >= 2 * old(self)@.buf.bytes.len()
                && final(self)@.buf.bytes.subrange(0, old(self)@.buf.bytes.len() as int) == old(self)@.buf.bytes,
            match result {
                ReadResult::Success(_) => r matches Ok(b) && b,
                ReadResult::BufferIsFull { .. } => r matches Ok(b) && b,
                ReadResult::WouldBlock { .. } => r matches Ok(b) && !b,
                ReadResult::Interrupted { .. } => r matches Ok(b) && !b,
                ReadResult::InvalidFd { .. } => r matches Err(e) && watcher_error_view(e) == WatcherErrorView::Fatal(
                    framed_number("Invalid inotify fd "@, old(self)@.inotify_fd as int, ""@)),
                ReadResult::Eof { .. } => r matches Err(e) && watcher_error_view(e) == WatcherErrorView::Fatal(
                    framed_number("Inotify fd EOF "@, old(self)@.inotify_fd as int, ""@)),
                ReadResult::Fatal { fd: _, msg } => r matches Err(e) && watcher_error_view(e) == WatcherErrorView::Read(
                    framed_number("Inotify fd fatal "@, old(self)@.inotify_fd as int, ": "@) + msg@),
            },
    {
        let fd = self.inotify_fd;
        match result {
            ReadResult::Success(_) => Ok(true),
            ReadResult::BufferIsFull { .. } => {
                let c = self.buf.capacity();
                self.buf.resize(c * 2);
                Ok(true)
            },
            ReadResult::WouldBlock { .. } => Ok(false),
            ReadResult::Interrupted { .. } => Ok(false),
            ReadResult::InvalidFd { .. } => Err(PluginError::Fatal(frame_number("Invalid inotify fd ", fd as i64, ""))),
            ReadResult::Eof { .. } => Err(PluginError::Fatal(frame_number("Inotify fd EOF ", fd as i64, ""))),
            ReadResult::Fatal { fd: _, msg } => {
                let mut m = frame_number("Inotify fd fatal ", fd as i64, ": ");
                m.append(msg.as_str());
                Err(PluginError::ReadError(m))
            },
        }
    }

    /// Runs the edit pattern over the whole inotify records of the pending data, those of
    /// other watches left aside; returns whether an edit of the file was completed.
    #[verifier::rlimit(30)]
    pub fn process_events(&mut self, trace: &mut Vec<String>) -> (done: bool)
        requires
            offsets_in_order(old(self)@.buf),
        ensures
            (final(self)@.edit_pattern, done) == edit_after(old(self)@.edit_pattern,
                records_from(pending(old(self)@.buf), 0, old(self)@.little_endian), old(self)@.watch_descriptor),
            final(self)@ == (WatcherView { edit_pattern: final(self)@.edit_pattern, ..old(self)@ }),
            string_views(final(trace)@) == string_views(old(trace)@) + notes_after(old(self)@.edit_pattern,
                records_from(pending(old(self)@.buf), 0, old(self)@.little_endian), old(self)@.watch_descriptor),
    {
        let ghost base = string_views(trace@);
        let ghost mut produced: Seq<Seq<char>> = Seq::empty();
        let data = self.buf.as_data_slice();
        let ghost d = data@;
        let ghost p0 = self.edit_pattern;
        let wd = self.watch_descriptor;
        let le = self.little_endian;
        let mut pattern = self.edit_pattern;
        let mut completed = false;
        let mut offset: usize = 0;
        let mut cut: bool = false;
        while !cut && data.len() - offset >= INOTIFY_RECORD_SIZE
            invariant
                d == data@,
                offset <= data.len(),
                cut ==> records_from(d, offset as int, le) == Seq::<InotifyRecord>::empty(),
                edit_after(p0, records_from(d, 0, le), wd) == ({
                    let (p2, c2) = edit_after(pattern, records_from(d, offset as int, le), wd);
                    (p2, completed || c2)
                }),
                string_views(trace@) == base + produced,
                notes_after(p0, records_from(d, 0, le), wd) == produced + notes_after(pattern, records_from(d, offset as int, le), wd),
            decreases data.len() - offset, (if cut { 0int } else { 1int }),
        {
            let w0 = read_word(data, offset, le);
            let mask = read_word(data, offset + 4, le);
            let len = read_word(data, offset + 12, le);
            #[verifier::truncate]
            let rec_wd: i32 = w0 as i32;
            let ghost r = record_at(d, offset as int, le);
            assert(r.wd == rec_wd && r.mask == mask && r.len == len);
            if len as u64 > (data.len() - offset - 16) as u64 {
                assert(records_from(d, offset as int, le) == Seq::<InotifyRecord>::empty());
                cut = true;
                continue;
            }
            let next_offset = offset + 16 + len as usize;
            let ghost recs = records_from(d, offset as int, le);
            assert(recs == seq![r] + records_from(d, next_offset as int, le));
            assert(recs.drop_first() == records_from(d, next_offset as int, le));
            if rec_wd == wd {
                let cookie = read_word(data, offset + 8, le);
                assert(r.cookie == cookie);
                let (p1, c1) = record_step(pattern, mask, cookie, trace);
                proof {
                    produced = produced + step_notes(pattern, mask, cookie);
                }
                pattern = p1;
                completed = completed || c1;
            }
            offset = next_offset;
        }
        proof {
            if !cut {
                assert(records_from(d, offset as int, le) == Seq::<InotifyRecord>::empty());
            }
        }
        self.edit_pattern = pattern;
        completed
    }

    /// Takes in a batch of events read from the descriptor, when there was one: a completed
    /// edit asks for the configuration to be reloaded and starts the pattern again; the buffer
    /// is emptied.
    pub fn finish_events(&mut self, reload: &mut ReloadConfig, should_process: bool, trace: &mut Vec<String>)
        requires
            offsets_in_order(old(self)@.buf),
        ensures
            !should_process ==> final(self)@ == old(self)@ && final(reload)@ == old(reload)@ && final(trace)@ == old(trace)@,
            should_process ==> final(self)@ == after_batch(old(self)@).0
                && final(reload)@ == (old(reload)@ || after_batch(old(self)@).1)
                && string_views(final(trace)@) == string_views(old(trace)@) + notes_after(old(self)@.edit_pattern,
                    records_from(pending(old(self)@.buf), 0, old(self)@.little_endian), old(self)@.watch_descriptor),
    {
        if should_process {
            if self.process_events(trace) {
                reload.set_reload_needed();
                self.edit_pattern = EditPattern::Idle;
            }
            self.buf.clear();
        }
    }

    /// The first step of handling a round: 1 (the number of the stopped state, which ends the
    /// plugin) when the application is stopping, 0 when `poll(2)` reported nothing; `None` to
    /// go on.
    pub fn handle_start(&self, shutdown: &AppShutdown, poll: &UnixPoll) -> (r: Option<i32>)
        ensures
            r == (if is_stopping_type(shutdown@.kind) {
                Some(1i32)
            } else if poll.spec_result() == 0 {
                Some(0i32)
            } else {
                None::<i32>
            }),
    {
        if shutdown.is_stoping() {
            return Some(ShutdownType::Stoped.to_int());
        }
        if poll.get_result() == 0 {
            return Some(0);
        }
        None
    }

    /// Takes in a round handled without error: the error count starts again.
    pub fn handle_ok(&mut self) -> (c: i32)
        ensures
            c == 0,
            final(self)@ == (WatcherView { error_count: 0, ..old(self)@ }),
    {
        self.error_count = 0;
        0
    }

    /// Takes in a round that failed with `err`: the error is counted; beyond the limit the
    /// plugin ends (1), and otherwise the error's own code follows.
    pub fn handle_err(&mut self, err: &PluginError) -> (c: i32)
        requires
            old(self)@.error_count < usize::MAX,
        ensures
            final(self)@ == (WatcherView { error_count: (old(self)@.error_count + 1) as usize, ..old(self)@ }),
            c == (if old(self)@.error_count + 1 > old(self)@.max_errors { 1i32 } else if *err is Fatal { 1i32 } else { 0i32 }),
    {
        self.error_count = self.error_count + 1;
        if self.error_count > self.max_errors {
            return 1;
        }
        err.to_return_code()
    }

    /// Releases the plugin: the descriptor leaves the poll set.
    pub fn free(&mut self, poll: &mut UnixPoll) -> (c: i32)
        ensures
            c == 0,
            fd_removed(old(poll).entries(), old(self)@.inotify_fd, final(poll).entries()),
            !watches(final(poll).entries(), old(self)@.inotify_fd),
            final(poll).spec_timeout() == old(poll).spec_timeout(),
            final(poll).spec_result() == old(poll).spec_result(),
            final(self)@ == old(self)@,
    {
        proof {
            use_type_invariant(&*poll);
            poll.lemma_wf_distinct();
        }
        let ghost before = poll.entries();
        let removed = poll.remove_fd(self.inotify_fd);
        proof {
            if removed {
                let i = choose|i: int| 0 <= i < before.len() && before[i].fd == self.inotify_fd
                    && poll.entries() == before.update(i, before.last()).drop_last();
                crate::unix_poll::lemma_removed_not_watched(before, i, self.inotify_fd);
            }
        }
        0
    }
}

} // verus!
