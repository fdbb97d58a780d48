use vstd::prelude::*;
use heapless::spsc::Queue;
use vstd::string::StringSliceAdditionalSpecFns;

verus! {

/// Longest timestamp text, `YYYY-mm-dd HH:MM:SS` and its terminating NUL.
pub const LOG_TIMESTAMP_SIZE: usize = 20;
/// Digits of the microsecond part of a timestamp.
pub const LOG_MICROS_SIZE: usize = 6;
/// Longest level name kept in a formatted line.
pub const LOG_LEVEL_SIZE: usize = 8;
/// Separator bytes between the parts of a formatted line: `.`, ` [`, `]` and ` `.
pub const LOG_DELIMITERS: usize = 5;
/// Length of the queue of log entries handed to `heapless`; the queue holds one entry less.
pub const LOG_QUEUE_MAX_LEN: usize = 1024;
/// Longest message that one log entry holds.
pub const LOG_MESSAGE_MAX_LEN: usize = 256;
/// Longest formatted log line: timestamp, microseconds, level, separators and message.
pub const LOG_MESSAGE_LEN: usize = LOG_TIMESTAMP_SIZE + LOG_MICROS_SIZE + LOG_LEVEL_SIZE
    + LOG_DELIMITERS + LOG_MESSAGE_MAX_LEN;

/// Number of entries the log queue holds at most.
pub open spec fn queue_capacity() -> nat {
    (LOG_QUEUE_MAX_LEN - 1) as nat
}

/// Errors of log entry creation and of the log queue.
#[derive(Debug)]
pub enum LogError {
    /// The current time could not be read.
    GetTimeOfDayError,
    /// The lock around the log queue could not be taken.
    MutexLockError(String),
}

/// Severity of a log entry, from the least to the most severe.
#[derive(Debug, Clone, Copy, PartialEq, Eq, Structural, PartialOrd, Ord)]
pub enum LogLevel {
    Trace,
    Debug,
    Info,
    Warning,
    Error,
    Critical,
}

/// Seconds and microseconds since the epoch, as `gettimeofday(2)` reports them.
#[derive(Debug, Clone, Copy, PartialEq, Eq, Structural)]
pub struct TimeVal {
    pub tv_sec: i64,
    pub tv_usec: i64,
}

/// What a log entry holds.
pub struct LogEntryView {
    pub timestamp: Option<TimeVal>,
    pub level: Option<LogLevel>,
    pub message: Seq<u8>,
}

/// One entry of the log queue: an optional timestamp and level, and a message of at most
/// `LOG_MESSAGE_MAX_LEN` bytes.
#[derive(Debug)]
pub struct LogEntryStack {
    timestamp: Option<TimeVal>,
    level: Option<LogLevel>,
    message: Vec<u8>,
}

impl LogEntryStack {
    /// An entry never holds more than `LOG_MESSAGE_MAX_LEN` message bytes.
    #[verifier::type_invariant]
    spec fn inv(self) -> bool {
        self.message@.len() <= LOG_MESSAGE_MAX_LEN
    }
}

impl Clone for LogEntryStack {
    /// A copy with the same timestamp, level and message.
    fn clone(&self) -> (r: Self)
        ensures
            r@ == self@,
    {
        proof {
            use_type_invariant(self);
        }
        let message = copy_bytes(self.message.as_slice(), self.message.len());
        assert(self.message@.subrange(0, self.message@.len() as int) == self.message@);
        LogEntryStack { timestamp: self.timestamp, level: self.level, message }
    }
}

/// The first `n` bytes of `src`, copied.
fn copy_bytes(src: &[u8], n: usize) -> (r: Vec<u8>)
    requires
        n <= src@.len(),
    ensures
        r@ == src@.subrange(0, n as int),
{
    let mut r: Vec<u8> = Vec::new();
    let mut i: usize = 0;
    while i < n
        invariant
            i <= n,
            n <= src@.len(),
            r@ == src@.subrange(0, i as int),
        decreases n - i,
    {
        r.push(src[i]);
        i = i + 1;
    }
    r
}

impl View for LogEntryStack {
    type V = LogEntryView;

    closed spec fn view(&self) -> LogEntryView {
        LogEntryView { timestamp: self.timestamp, level: self.level, message: self.message@ }
    }
}

/// `heapless::spsc::Queue`, the fixed-size queue of the log, carried opaque: what a queue of
/// log entries holds is named by `queue_items`, and its methods are reached through the
/// wrappers below.
#[verifier::external_type_specification]
#[verifier::external_body]
#[verifier::reject_recursive_types(T)]
pub struct ExQueue<T, const N: usize>(Queue<T, N>);

/// The entries of a log queue, from the oldest to the newest.
pub uninterp spec fn queue_items(q: Queue<LogEntryStack, LOG_QUEUE_MAX_LEN>) -> Seq<LogEntryStack>;

/// `Queue::new`: an empty queue.
#[verifier::external_body]
fn queue_new() -> (q: Queue<LogEntryStack, LOG_QUEUE_MAX_LEN>)
    ensures
        queue_items(q) == Seq::<LogEntryStack>::empty(),
{
    Queue::new()
}

/// `Queue::len`: the number of entries.
#[verifier::external_body]
fn queue_len(q: &Queue<LogEntryStack, LOG_QUEUE_MAX_LEN>) -> (n: usize)
    ensures
        n == queue_items(*q).len(),
{
    q.len()
}

/// `Queue::enqueue`: appends `e` when the queue is not full; otherwise hands `e` back and
/// leaves the queue as it was.
#[verifier::external_body]
fn queue_enqueue(q: &mut Queue<LogEntryStack, LOG_QUEUE_MAX_LEN>, e: LogEntryStack) -> (r: Result<(), LogEntryStack>)
    ensures
        queue_items(*old(q)).len() < queue_capacity() ==> r is Ok && queue_items(*final(q))
            == queue_items(*old(q)).push(e),
        queue_items(*old(q)).len() >= queue_capacity() ==> r is Err && r->Err_0 == e
            && queue_items(*final(q)) == queue_items(*old(q)),
{
    q.enqueue(e)
}

/// `Queue::peek`: the oldest entry, if any.
#[verifier::external_body]
fn queue_peek(q: &Queue<LogEntryStack, LOG_QUEUE_MAX_LEN>) -> (r: Option<&LogEntryStack>)
    ensures
        queue_items(*q).len() == 0 ==> r is None,
        queue_items(*q).len() > 0 ==> r == Some(&queue_items(*q)[0]),
{
    q.peek()
}

/// `Queue::dequeue`: removes and returns the oldest entry, if any.
#[verifier::external_body]
fn queue_dequeue(q: &mut Queue<LogEntryStack, LOG_QUEUE_MAX_LEN>) -> (r: Option<LogEntryStack>)
    ensures
        queue_items(*old(q)).len() == 0 ==> r is None && queue_items(*final(q)) == queue_items(
            *old(q),
        ),
        queue_items(*old(q)).len() > 0 ==> r == Some(queue_items(*old(q))[0]) && queue_items(
            *final(q),
        ) == queue_items(*old(q)).drop_first(),
{
    q.dequeue()
}

/// `Queue::iter().nth(i)`: the `i`-th oldest entry, if there are that many.
#[verifier::external_body]
fn queue_get(q: &Queue<LogEntryStack, LOG_QUEUE_MAX_LEN>, i: usize) -> (r: Option<&LogEntryStack>)
    ensures
        i < queue_items(*q).len() ==> r == Some(&queue_items(*q)[i as int]),
        i >= queue_items(*q).len() ==> r is None,
{
    q.iter().nth(i)
}

/// `s` after appending `e` to a queue that holds at most `queue_capacity()` entries and
/// drops its oldest entry to make room.
pub open spec fn push_bounded(s: Seq<LogEntryView>, e: LogEntryView) -> Seq<LogEntryView> {
    if s.len() < queue_capacity() {
        s.push(e)
    } else {
        s.drop_first().push(e)
    }
}

/// `s` after appending each of `es` in turn with `push_bounded`.
pub open spec fn push_all_bounded(s: Seq<LogEntryView>, es: Seq<LogEntryView>) -> Seq<LogEntryView>
    decreases es.len(),
{
    if es.len() == 0 {
        s
    } else {
        push_all_bounded(push_bounded(s, es[0]), es.drop_first())
    }
}

/// The newest `queue_capacity()` entries of `s` (all of them when there are fewer).
pub open spec fn newest(s: Seq<LogEntryView>) -> Seq<LogEntryView> {
    if s.len() <= queue_capacity() {
        s
    } else {
        s.subrange(s.len() - queue_capacity(), s.len() as int)
    }
}

/// Appending to the bounded queue keeps exactly the newest entries: after appending `es` to
/// a queue holding `s`, the queue holds the newest `queue_capacity()` entries of `s + es`.
pub proof fn lemma_push_all_keeps_newest(s: Seq<LogEntryView>, es: Seq<LogEntryView>)
    requires
        s.len() <= queue_capacity(),
    ensures
        push_all_bounded(s, es) == newest(s + es),
    decreases es.len(),
{
    if es.len() == 0 {
        assert(s + es == s);
    } else {
        let s1 = push_bounded(s, es[0]);
        assert(s1 == newest(s.push(es[0])));
        lemma_push_all_keeps_newest(s1, es.drop_first());
        lemma_newest_append(s.push(es[0]), es.drop_first());
        assert(s.push(es[0]) + es.drop_first() == s + es);
    }
}

/// Taking the newest entries first and then appending gives the newest entries of the whole.
proof fn lemma_newest_append(s: Seq<LogEntryView>, t: Seq<LogEntryView>)
    ensures
        newest(newest(s) + t) == newest(s + t),
{
    let a = newest(s) + t;
    let b = s + t;
    if b.len() <= queue_capacity() {
        assert(newest(s) == s);
    } else if s.len() <= queue_capacity() {
        assert(newest(s) == s);
    } else {
        let c = queue_capacity() as int;
        assert(a.len() == c + t.len());
        if t.len() >= c {
            assert(newest(a) =~= newest(b));
        } else {
            assert(newest(a) =~= newest(b));
        }
    }
}

/// The pushes of a sequence split at any point compose.
pub proof fn lemma_push_all_concat(s: Seq<LogEntryView>, a: Seq<LogEntryView>, b: Seq<LogEntryView>)
    ensures
        push_all_bounded(s, a + b) == push_all_bounded(push_all_bounded(s, a), b),
    decreases a.len(),
{
    if a.len() == 0 {
        assert(a + b == b);
    } else {
        assert((a + b)[0] == a[0]);
        assert((a + b).drop_first() == a.drop_first() + b);
        lemma_push_all_concat(push_bounded(s, a[0]), a.drop_first(), b);
    }
}

/// The entry that `LogEntryStack::new_with_timeval` makes: the message is cut to
/// `LOG_MESSAGE_MAX_LEN` bytes.
pub open spec fn entry_of(timestamp: Option<TimeVal>, level: Option<LogLevel>, message: Seq<u8>) -> LogEntryView {
    LogEntryView {
        timestamp,
        level,
        message: if message.len() <= LOG_MESSAGE_MAX_LEN {
            message
        } else {
            message.subrange(0, LOG_MESSAGE_MAX_LEN as int)
        },
    }
}

/// The byte `\n`.
pub open spec fn newline() -> u8 {
    10u8
}

/// The entries that logging `bytes` produces from position `offset` on: the message is cut
/// into chunks of `LOG_MESSAGE_MAX_LEN` bytes; a newline ends the last chunk, in a chunk of its
/// own when the last chunk is full. Only the chunk at position 0 carries `timestamp` and `level`
/// (and the lone newline that follows it, when it is full and last).
pub open spec fn chunk_entries(
    bytes: Seq<u8>,
    offset: int,
    timestamp: Option<TimeVal>,
    level: Option<LogLevel>,
) -> Seq<LogEntryView>
    decreases bytes.len() - offset,
{
    if offset < 0 || offset >= bytes.len() {
        Seq::empty()
    } else {
        let t = if offset == 0 { timestamp } else { None };
        let l = if offset == 0 { level } else { None };
        let remaining = bytes.len() - offset;
        let chunk_len = if remaining < LOG_MESSAGE_MAX_LEN { remaining } else { LOG_MESSAGE_MAX_LEN as int };
        let chunk = bytes.subrange(offset, offset + chunk_len);
        let here = if remaining < LOG_MESSAGE_MAX_LEN {
            seq![LogEntryView { timestamp: t, level: l, message: chunk.push(newline()) }]
        } else if remaining == LOG_MESSAGE_MAX_LEN {
            seq![
                LogEntryView { timestamp: t, level: l, message: chunk },
                LogEntryView { timestamp: t, level: l, message: seq![newline()] },
            ]
        } else {
            seq![LogEntryView { timestamp: t, level: l, message: chunk }]
        };
        here + chunk_entries(bytes, offset + chunk_len, timestamp, level)
    }
}

/// The entries that one call of `LogBufferStack::log` appends for the message `bytes`.
pub open spec fn log_entries(bytes: Seq<u8>, timestamp: TimeVal, level: LogLevel) -> Seq<LogEntryView> {
    chunk_entries(bytes, 0, Some(timestamp), Some(level))
}

/// The messages of `es`, one after the other.
pub open spec fn all_messages(es: Seq<LogEntryView>) -> Seq<u8>
    decreases es.len(),
{
    if es.len() == 0 {
        Seq::empty()
    } else {
        es[0].message + all_messages(es.drop_first())
    }
}

proof fn lemma_all_messages_concat(a: Seq<LogEntryView>, b: Seq<LogEntryView>)
    ensures
        all_messages(a + b) == all_messages(a) + all_messages(b),
    decreases a.len(),
{
    if a.len() == 0 {
        assert(a + b == b);
        assert(all_messages(a) + all_messages(b) == all_messages(b));
    } else {
        assert((a + b)[0] == a[0]);
        assert((a + b).drop_first() == a.drop_first() + b);
        lemma_all_messages_concat(a.drop_first(), b);
        assert(all_messages(a + b) == a[0].message + (all_messages(a.drop_first()) + all_messages(b)));
    }
}

proof fn lemma_chunk_messages(bytes: Seq<u8>, offset: int, timestamp: Option<TimeVal>, level: Option<LogLevel>)
    requires
        0 <= offset < bytes.len(),
    ensures
        all_messages(chunk_entries(bytes, offset, timestamp, level)) == bytes.subrange(
            offset,
            bytes.len() as int,
        ).push(newline()),
    decreases bytes.len() - offset,
{
    let remaining = bytes.len() - offset;
    let chunk_len = if remaining < LOG_MESSAGE_MAX_LEN { remaining } else { LOG_MESSAGE_MAX_LEN as int };
    let chunk = bytes.subrange(offset, offset + chunk_len);
    let t = if offset == 0 { timestamp } else { None };
    let l = if offset == 0 { level } else { None };
    let rest = chunk_entries(bytes, offset + chunk_len, timestamp, level);
    if remaining < LOG_MESSAGE_MAX_LEN {
        let here = seq![LogEntryView { timestamp: t, level: l, message: chunk.push(newline()) }];
        assert(rest == Seq::<LogEntryView>::empty());
        assert(chunk_entries(bytes, offset, timestamp, level) == here + rest);
        assert(here + rest == here);
        assert(all_messages(here.drop_first()) == Seq::<u8>::empty());
        assert(all_messages(here) == chunk.push(newline()) + Seq::<u8>::empty());
        assert(chunk == bytes.subrange(offset, bytes.len() as int));
    } else if remaining == LOG_MESSAGE_MAX_LEN {
        let here = seq![
            LogEntryView { timestamp: t, level: l, message: chunk },
            LogEntryView { timestamp: t, level: l, message: seq![newline()] },
        ];
        assert(rest == Seq::<LogEntryView>::empty());
        assert(chunk_entries(bytes, offset, timestamp, level) == here + rest);
        assert(here + rest == here);
        let h1 = here.drop_first();
        assert(h1.drop_first().len() == 0);
        assert(all_messages(h1.drop_first()) == Seq::<u8>::empty());
        assert(all_messages(h1) == seq![newline()] + Seq::<u8>::empty());
        assert(all_messages(here) == chunk + all_messages(h1));
        assert(chunk == bytes.subrange(offset, bytes.len() as int));
        assert(chunk + seq![newline()] =~= chunk.push(newline()));
    } else {
        let here = seq![LogEntryView { timestamp: t, level: l, message: chunk }];
        assert(chunk_entries(bytes, offset, timestamp, level) == here + rest);
        lemma_all_messages_concat(here, rest);
        lemma_chunk_messages(bytes, offset + chunk_len, timestamp, level);
        assert(here.drop_first() =~= Seq::<LogEntryView>::empty());
        assert(all_messages(here.drop_first()) == Seq::<u8>::empty());
        assert(all_messages(here) == chunk + Seq::<u8>::empty());
        assert(chunk + bytes.subrange(offset + chunk_len, bytes.len() as int).push(newline())
            =~= bytes.subrange(offset, bytes.len() as int).push(newline()));
    }
}

/// Logging a message loses no byte and adds one: the messages of the entries that
/// `log` appends, read one after the other, are the logged bytes followed by a newline.
pub proof fn lemma_log_entries_spell_message(bytes: Seq<u8>, timestamp: TimeVal, level: LogLevel)
    requires
        bytes.len() > 0,
    ensures
        all_messages(log_entries(bytes, timestamp, level)) == bytes.push(newline()),
{
    lemma_chunk_messages(bytes, 0, Some(timestamp), Some(level));
    assert(bytes.subrange(0, bytes.len() as int) == bytes);
}

/// Logging an empty message appends nothing.
pub proof fn lemma_log_empty_message(timestamp: TimeVal, level: LogLevel)
    ensures
        log_entries(Seq::<u8>::empty(), timestamp, level) == Seq::<LogEntryView>::empty(),
{
}

/// The name of a level, as it is written in a formatted line.
pub open spec fn level_name(level: LogLevel) -> Seq<u8> {
    match level {
        LogLevel::Trace => seq![116u8, 114, 97, 99, 101],
        LogLevel::Debug => seq![100u8, 101, 98, 117, 103],
        LogLevel::Info => seq![105u8, 110, 102, 111],
        LogLevel::Warning => seq![119u8, 97, 114, 110, 105, 110, 103],
        LogLevel::Error => seq![101u8, 114, 114, 111, 114],
        LogLevel::Critical => seq![99u8, 114, 105, 116, 105, 99, 97, 108],
    }
}

/// The ASCII bytes of a text written in ASCII.
pub open spec fn ascii_bytes(t: Seq<char>) -> Seq<u8> {
    t.map_values(|c: char| c as u8)
}

/// Each level is written under its own lowercase name: `trace`, `debug`, `info`, `warning`,
/// `error` and `critical`; so two levels written alike are the same level.
pub proof fn lemma_level_names(a: LogLevel, b: LogLevel)
    ensures
        level_name(LogLevel::Trace) == ascii_bytes("trace"@),
        level_name(LogLevel::Debug) == ascii_bytes("debug"@),
        level_name(LogLevel::Info) == ascii_bytes("info"@),
        level_name(LogLevel::Warning) == ascii_bytes("warning"@),
        level_name(LogLevel::Error) == ascii_bytes("error"@),
        level_name(LogLevel::Critical) == ascii_bytes("critical"@),
        level_name(a) == level_name(b) ==> a == b,
{
    reveal_strlit("trace");
    reveal_strlit("debug");
    reveal_strlit("info");
    reveal_strlit("warning");
    reveal_strlit("error");
    reveal_strlit("critical");
    assert(level_name(LogLevel::Trace) =~= ascii_bytes("trace"@));
    assert(level_name(LogLevel::Debug) =~= ascii_bytes("debug"@));
    assert(level_name(LogLevel::Info) =~= ascii_bytes("info"@));
    assert(level_name(LogLevel::Warning) =~= ascii_bytes("warning"@));
    assert(level_name(LogLevel::Error) =~= ascii_bytes("error"@));
    assert(level_name(LogLevel::Critical) =~= ascii_bytes("critical"@));
    if level_name(a) == level_name(b) && a != b {
        let na = level_name(a);
        let nb = level_name(b);
        assert(na.len() == nb.len());
        assert(na[0] == nb[0]);
        assert(na[1] == nb[1]);
    }
}

impl LogLevel {
    /// The level's name in lower case ASCII: `trace`, `debug`, `info`, `warning`, `error` or
    /// `critical`.
    pub fn as_bytes(&self) -> (r: Vec<u8>)
        ensures
            r@ == level_name(*self),
    {
        match self {
            LogLevel::Trace => vec![116u8, 114, 97, 99, 101],
            LogLevel::Debug => vec![100u8, 101, 98, 117, 103],
            LogLevel::Info => vec![105u8, 110, 102, 111],
            LogLevel::Warning => vec![119u8, 97, 114, 110, 105, 110, 103],
            LogLevel::Error => vec![101u8, 114, 114, 111, 114],
            LogLevel::Critical => vec![99u8, 114, 105, 116, 105, 99, 97, 108],
        }
    }
}

impl LogEntryStack {
    /// Makes an entry; a message longer than `LOG_MESSAGE_MAX_LEN` bytes is cut to that length.
    pub fn new_with_timeval(timestamp: Option<TimeVal>, level: Option<LogLevel>, message: &[u8]) -> (r: Self)
        ensures
            r@ == entry_of(timestamp, level, message@),
    {
        let len = if message.len() < LOG_MESSAGE_MAX_LEN { message.len() } else { LOG_MESSAGE_MAX_LEN };
        let res = copy_bytes(message, len);
        assert(message@.len() <= LOG_MESSAGE_MAX_LEN ==> message@.subrange(0, len as int) == message@);
        LogEntryStack { timestamp, level, message: res }
    }

    /// The entry's timestamp, if it has one.
    pub fn timestamp(&self) -> (r: Option<TimeVal>)
        ensures
            r == self@.timestamp,
    {
        self.timestamp
    }

    /// The entry's level, if it has one.
    pub fn level(&self) -> (r: Option<LogLevel>)
        ensures
            r == self@.level,
    {
        self.level
    }

    /// The entry's message.
    pub fn message(&self) -> (r: &[u8])
        ensures
            r@ == self@.message,
    {
        self.message.as_slice()
    }

    /// Length of the entry's message; never more than `LOG_MESSAGE_MAX_LEN`.
    pub fn message_len(&self) -> (n: usize)
        ensures
            n == self@.message.len(),
            n <= LOG_MESSAGE_MAX_LEN,
    {
        proof {
            use_type_invariant(self);
        }
        self.message.len()
    }
}

/// A bounded queue of log entries, oldest first. When the queue is full, appending an entry
/// drops the oldest one.
#[derive(Debug)]
pub struct LogBufferStack {
    inner: Queue<LogEntryStack, LOG_QUEUE_MAX_LEN>,
}

impl View for LogBufferStack {
    type V = Seq<LogEntryView>;

    /// The entries of the queue, oldest first.
    closed spec fn view(&self) -> Seq<LogEntryView> {
        queue_items(self.inner).map_values(|e: LogEntryStack| e@)
    }
}

impl LogBufferStack {
    /// The queue never holds more than `queue_capacity()` entries, nor an entry with more
    /// than `LOG_MESSAGE_MAX_LEN` message bytes.
    #[verifier::type_invariant]
    spec fn inv(self) -> bool {
        &&& queue_items(self.inner).len() <= queue_capacity()
        &&& forall|i: int|
            0 <= i < queue_items(self.inner).len() ==> (#[trigger] queue_items(self.inner)[i])@.message.len()
                <= LOG_MESSAGE_MAX_LEN
    }

    /// An empty queue.
    pub fn new() -> (r: Self)
        ensures
            r@ == Seq::<LogEntryView>::empty(),
    {
        let r = LogBufferStack { inner: queue_new() };
        assert(r@ =~= Seq::<LogEntryView>::empty());
        r
    }

    /// Number of entries in the queue.
    pub fn len(&self) -> (n: usize)
        ensures
            n == self@.len(),
            n <= queue_capacity(),
    {
        proof {
            use_type_invariant(self);
        }
        queue_len(&self.inner)
    }

    /// A copy of the oldest entry, if any.
    pub fn peek(&self) -> (r: Option<LogEntryStack>)
        ensures
            self@.len() == 0 ==> r is None,
            self@.len() > 0 ==> r is Some && r->Some_0@ == self@[0],
    {
        match queue_peek(&self.inner) {
            Some(e) => Some(e.clone()),
            None => None,
        }
    }

    /// Removes and returns the oldest entry, if any.
    pub fn dequeue(&mut self) -> (r: Option<LogEntryStack>)
        ensures
            old(self)@.len() == 0 ==> r is None && final(self)@ == old(self)@,
            old(self)@.len() > 0 ==> r is Some && r->Some_0@ == old(self)@[0] && final(self)@
                == old(self)@.drop_first(),
    {
        proof {
            use_type_invariant(&*self);
        }
        let ghost before = queue_items(self.inner);
        let mut q = queue_new();
        std::mem::swap(&mut q, &mut self.inner);
        let r = queue_dequeue(&mut q);
        assert forall|i: int| 0 <= i < queue_items(q).len() implies (#[trigger] queue_items(
            q,
        )[i])@.message.len() <= LOG_MESSAGE_MAX_LEN by {
            assert(queue_items(q)[i] == before[i + 1]);
        }
        self.inner = q;
        assert(self@ =~= old(self)@.subrange(if before.len() > 0 { 1 } else { 0 }, before.len() as int));
        r
    }

    /// Whether the queue is empty.
    pub fn is_empty(&self) -> (b: bool)
        ensures
            b == (self@.len() == 0),
    {
        queue_len(&self.inner) == 0
    }

    /// Appends `entry`; when the queue is full, drops its oldest entry first.
    pub fn enqueue_or_drop(&mut self, entry: LogEntryStack) -> (r: Result<(), LogError>)
        ensures
            r is Ok,
            final(self)@ == push_bounded(old(self)@, entry@),
    {
        proof {
            use_type_invariant(&entry);
            use_type_invariant(&*self);
        }
        let ghost e = entry;
        let ghost before = queue_items(self.inner);
        let mut q = queue_new();
        std::mem::swap(&mut q, &mut self.inner);
        match queue_enqueue(&mut q, entry) {
            Ok(()) => {
                assert forall|i: int| 0 <= i < queue_items(q).len() implies (
                #[trigger] queue_items(q)[i])@.message.len() <= LOG_MESSAGE_MAX_LEN by {
                    if i < before.len() {
                        assert(queue_items(q)[i] == before[i]);
                    }
                }
                self.inner = q;
                assert(self@ =~= old(self)@.push(e@));
            },
            Err(entry) => {
                let _ = queue_dequeue(&mut q);
                let ghost middle = queue_items(q);
                let _ = queue_enqueue(&mut q, entry);
                assert forall|i: int| 0 <= i < queue_items(q).len() implies (
                #[trigger] queue_items(q)[i])@.message.len() <= LOG_MESSAGE_MAX_LEN by {
                    if i < middle.len() {
                        assert(queue_items(q)[i] == before[i + 1]);
                    }
                }
                self.inner = q;
                assert(self@ =~= old(self)@.drop_first().push(e@));
            },
        }
        Ok(())
    }
}

/// `nix::time::clock_gettime(ClockId::CLOCK_REALTIME)`: the current wall-clock time as seconds
/// and nanoseconds, or `None` when the call fails. Nothing is claimed of the time itself; the
/// nanoseconds of a `timespec` lie in `0..1_000_000_000`.
#[verifier::external_body]
fn realtime_clock() -> (r: Option<(i64, i64)>)
    ensures
        r matches Some(t) ==> 0 <= t.1 < 1_000_000_000,
{
    match nix::time::clock_gettime(nix::time::ClockId::CLOCK_REALTIME) {
        Ok(ts) => Some((ts.tv_sec(), ts.tv_nsec())),
        Err(_) => None,
    }
}

/// The timestamp of a clock reading of `sec` seconds and `nsec` nanoseconds: the seconds
/// as they are, the nanoseconds cut down to whole microseconds.
pub fn timeval_from_clock(sec: i64, nsec: i64) -> (t: TimeVal)
    requires
        0 <= nsec < 1_000_000_000,
    ensures
        t.tv_sec == sec,
        t.tv_usec == nsec / 1000,
{
    TimeVal { tv_sec: sec, tv_usec: nsec / 1000 }
}

impl LogEntryStack {
    /// The current time, to the microsecond: the wall clock read through `realtime_clock`
    /// and converted by `timeval_from_clock`.
    pub fn get_timestamp() -> (r: Result<TimeVal, LogError>)
        ensures
            r matches Ok(t) ==> 0 <= t.tv_usec < 1_000_000,
            r matches Err(e) ==> e is GetTimeOfDayError,
    {
        match realtime_clock() {
            Some((sec, nsec)) => Ok(timeval_from_clock(sec, nsec)),
            None => Err(LogError::GetTimeOfDayError),
        }
    }
}

impl LogBufferStack {
    /// Appends the entries for the message `msg`, logged at `timestamp` with `level`: the
    /// message is cut into chunks of at most `LOG_MESSAGE_MAX_LEN` bytes and ended with a
    /// newline (see `chunk_entries`).
    pub fn log_at(&mut self, timestamp: TimeVal, level: LogLevel, msg: &str) -> (r: Result<(), LogError>)
        ensures
            r is Ok,
            final(self)@ == push_all_bounded(old(self)@, log_entries(msg.spec_bytes(), timestamp, level)),
    {
        let bytes = msg.as_bytes();
        let n = bytes.len();
        let ghost all = chunk_entries(bytes@, 0, Some(timestamp), Some(level));
        let mut offset: usize = 0;
        while offset < n
            invariant
                n == bytes@.len(),
                offset <= bytes@.len(),
                push_all_bounded(self@, chunk_entries(bytes@, offset as int, Some(timestamp), Some(level)))
                    == push_all_bounded(old(self)@, all),
            decreases bytes@.len() - offset,
        {
            let remaining_len = n - offset;
            let chunk_len = if remaining_len < LOG_MESSAGE_MAX_LEN { remaining_len } else { LOG_MESSAGE_MAX_LEN };
            let (t, l) = if offset == 0 { (Some(timestamp), Some(level)) } else { (None, None) };
            let ghost before = self@;
            let ghost chunk = bytes@.subrange(offset as int, offset + chunk_len);
            let ghost rest = chunk_entries(bytes@, offset + chunk_len, Some(timestamp), Some(level));
            let mut buffer: Vec<u8> = Vec::new();
            let mut i: usize = 0;
            while i < chunk_len
                invariant
                    i <= chunk_len,
                    n == bytes@.len(),
                    offset + chunk_len <= n,
                    buffer@ == bytes@.subrange(offset as int, offset + i),
                decreases chunk_len - i,
            {
                assert(offset + i < bytes@.len());
                buffer.push(bytes[offset + i]);
                i = i + 1;
            }
            if remaining_len < LOG_MESSAGE_MAX_LEN {
                buffer.push(10u8);
                assert(buffer@ == chunk.push(newline()));
                let entry = LogEntryStack::new_with_timeval(t, l, buffer.as_slice());
                let _ = self.enqueue_or_drop(entry);
                let ghost here = seq![LogEntryView { timestamp: t, level: l, message: chunk.push(newline()) }];
                assert(chunk_entries(bytes@, offset as int, Some(timestamp), Some(level)) == here + rest);
                assert(push_all_bounded(before, here) == self@) by {
                    assert(here.drop_first() =~= Seq::<LogEntryView>::empty());
                    reveal_with_fuel(push_all_bounded, 2);
                }
                proof { lemma_push_all_concat(before, here, rest); }
            } else if remaining_len == LOG_MESSAGE_MAX_LEN {
                assert(buffer@ == chunk);
                let entry = LogEntryStack::new_with_timeval(t, l, buffer.as_slice());
                let _ = self.enqueue_or_drop(entry);
                let ghost mid = self@;
                let newline_only: Vec<u8> = vec![10u8];
                assert(newline_only@ == seq![newline()]);
                let entry = LogEntryStack::new_with_timeval(t, l, newline_only.as_slice());
                let _ = self.enqueue_or_drop(entry);
                let ghost here = seq![
                    LogEntryView { timestamp: t, level: l, message: chunk },
                    LogEntryView { timestamp: t, level: l, message: seq![newline()] },
                ];
                assert(chunk_entries(bytes@, offset as int, Some(timestamp), Some(level)) == here + rest);
                assert(push_all_bounded(before, here) == self@) by {
                    assert(here.drop_first() =~= seq![LogEntryView { timestamp: t, level: l, message: seq![newline()] }]);
                    assert(here.drop_first().drop_first() =~= Seq::<LogEntryView>::empty());
                    reveal_with_fuel(push_all_bounded, 3);
                }
                proof { lemma_push_all_concat(before, here, rest); }
            } else {
                let entry = LogEntryStack::new_with_timeval(t, l, buffer.as_slice());
                let _ = self.enqueue_or_drop(entry);
                let ghost here = seq![LogEntryView { timestamp: t, level: l, message: chunk }];
                assert(chunk_entries(bytes@, offset as int, Some(timestamp), Some(level)) == here + rest);
                assert(push_all_bounded(before, here) == self@) by {
                    assert(here.drop_first() =~= Seq::<LogEntryView>::empty());
                    reveal_with_fuel(push_all_bounded, 2);
                }
                proof { lemma_push_all_concat(before, here, rest); }
            }
            offset = offset + chunk_len;
        }
        Ok(())
    }

    /// Appends the entries for the message `msg`, logged now with `level` (see `log_at`).
    /// When the current time cannot be read, nothing is appended.
    pub fn log(&mut self, level: LogLevel, msg: &str) -> (r: Result<(), LogError>)
        ensures
            r matches Err(e) ==> e is GetTimeOfDayError && final(self)@ == old(self)@,
            r is Ok ==> exists|t: TimeVal|
                0 <= t.tv_usec < 1_000_000 && final(self)@ == push_all_bounded(
                    old(self)@,
                    #[trigger] log_entries(msg.spec_bytes(), t, level),
                ),
    {
        match LogEntryStack::get_timestamp() {
            Ok(timestamp) => self.log_at(timestamp, level, msg),
            Err(e) => Err(e),
        }
    }

    /// `log` at level `Trace`.
    pub fn trace(&mut self, msg: &str) -> (r: Result<(), LogError>)
        ensures
            r matches Err(e) ==> e is GetTimeOfDayError && final(self)@ == old(self)@,
            r is Ok ==> exists|t: TimeVal|
                0 <= t.tv_usec < 1_000_000 && final(self)@ == push_all_bounded(
                    old(self)@,
                    #[trigger] log_entries(msg.spec_bytes(), t, LogLevel::Trace),
                ),
    {
        self.log(LogLevel::Trace, msg)
    }

    /// `log` at level `Debug`.
    pub fn debug(&mut self, msg: &str) -> (r: Result<(), LogError>)
        ensures
            r matches Err(e) ==> e is GetTimeOfDayError && final(self)@ == old(self)@,
            r is Ok ==> exists|t: TimeVal|
                0 <= t.tv_usec < 1_000_000 && final(self)@ == push_all_bounded(
                    old(self)@,
                    #[trigger] log_entries(msg.spec_bytes(), t, LogLevel::Debug),
                ),
    {
        self.log(LogLevel::Debug, msg)
    }

    /// `log` at level `Info`.
    pub fn info(&mut self, msg: &str) -> (r: Result<(), LogError>)
        ensures
            r matches Err(e) ==> e is GetTimeOfDayError && final(self)@ == old(self)@,
            r is Ok ==> exists|t: TimeVal|
                0 <= t.tv_usec < 1_000_000 && final(self)@ == push_all_bounded(
                    old(self)@,
                    #[trigger] log_entries(msg.spec_bytes(), t, LogLevel::Info),
                ),
    {
        self.log(LogLevel::Info, msg)
    }

    /// `log` at level `Warning`.
    pub fn warn(&mut self, msg: &str) -> (r: Result<(), LogError>)
        ensures
            r matches Err(e) ==> e is GetTimeOfDayError && final(self)@ == old(self)@,
            r is Ok ==> exists|t: TimeVal|
                0 <= t.tv_usec < 1_000_000 && final(self)@ == push_all_bounded(
                    old(self)@,
                    #[trigger] log_entries(msg.spec_bytes(), t, LogLevel::Warning),
                ),
    {
        self.log(LogLevel::Warning, msg)
    }

    /// `log` at level `Error`.
    pub fn error(&mut self, msg: &str) -> (r: Result<(), LogError>)
        ensures
            r matches Err(e) ==> e is GetTimeOfDayError && final(self)@ == old(self)@,
            r is Ok ==> exists|t: TimeVal|
                0 <= t.tv_usec < 1_000_000 && final(self)@ == push_all_bounded(
                    old(self)@,
                    #[trigger] log_entries(msg.spec_bytes(), t, LogLevel::Error),
                ),
    {
        self.log(LogLevel::Error, msg)
    }

    /// `log` at level `Critical`.
    pub fn critical(&mut self, msg: &str) -> (r: Result<(), LogError>)
        ensures
            r matches Err(e) ==> e is GetTimeOfDayError && final(self)@ == old(self)@,
            r is Ok ==> exists|t: TimeVal|
                0 <= t.tv_usec < 1_000_000 && final(self)@ == push_all_bounded(
                    old(self)@,
                    #[trigger] log_entries(msg.spec_bytes(), t, LogLevel::Critical),
                ),
    {
        self.log(LogLevel::Critical, msg)
    }

    /// Copies of all entries, oldest first.
    pub fn get_all_entries(&self) -> (r: Vec<LogEntryStack>)
        ensures
            r@.len() == self@.len(),
            forall|i: int| 0 <= i < r@.len() ==> (#[trigger] r@[i])@ == self@[i],
    {
        let n = queue_len(&self.inner);
        let mut entries: Vec<LogEntryStack> = Vec::with_capacity(n);
        let mut i: usize = 0;
        while i < n
            invariant
                n == self@.len(),
                i <= n,
                entries@.len() == i,
                forall|j: int| 0 <= j < i ==> (#[trigger] entries@[j])@ == self@[j],
            decreases n - i,
        {
            match queue_get(&self.inner, i) {
                Some(entry) => {
                    entries.push(entry.clone());
                },
                None => {
                    assert(false);
                },
            }
            i = i + 1;
        }
        entries
    }

    /// Removes every entry.
    pub fn clear(&mut self) -> (r: Result<(), LogError>)
        ensures
            r is Ok,
            final(self)@ == Seq::<LogEntryView>::empty(),
    {
        loop
            ensures
                self@ == Seq::<LogEntryView>::empty(),
            decreases self@.len(),
        {
            let e = self.dequeue();
            if e.is_none() {
                break;
            }
        }
        Ok(())
    }
}

/// The six decimal digits of the microseconds `usec`, most significant first, in ASCII.
pub open spec fn usec_digits(usec: i64) -> Seq<u8> {
    seq![
        (48 + (usec / 100_000) % 10) as u8,
        (48 + (usec / 10_000) % 10) as u8,
        (48 + (usec / 1_000) % 10) as u8,
        (48 + (usec / 100) % 10) as u8,
        (48 + (usec / 10) % 10) as u8,
        (48 + usec % 10) as u8,
    ]
}

/// The text of a formatted log line. With a timestamp text, the line reads
/// `<time>.<microseconds> [<level>] <message>`; without one, it is the message alone.
pub open spec fn formatted_line(e: LogEntryView, time_text: Seq<u8>) -> Seq<u8> {
    if time_text.len() > 0 {
        let micros = match e.timestamp {
            Some(t) => usec_digits(t.tv_usec),
            None => Seq::empty(),
        };
        let level = match e.level {
            Some(l) => level_name(l),
            None => Seq::empty(),
        };
        time_text + seq![46u8] + micros + seq![32u8, 91u8] + level + seq![93u8, 32u8] + e.message
    } else {
        e.message
    }
}

/// Formats the microseconds `usec` as six ASCII digits; the second value is the number of
/// digits.
pub fn format_usec_6digits(usec: i64) -> (r: ([u8; LOG_MICROS_SIZE], usize))
    requires
        usec >= 0,
    ensures
        r.0@ == usec_digits(usec),
        r.1 == LOG_MICROS_SIZE,
{
    let d0 = ((usec / 100_000) % 10) as u8;
    let d1 = ((usec / 10_000) % 10) as u8;
    let d2 = ((usec / 1_000) % 10) as u8;
    let d3 = ((usec / 100) % 10) as u8;
    let d4 = ((usec / 10) % 10) as u8;
    let d5 = (usec % 10) as u8;
    let digits = [48u8 + d0, 48u8 + d1, 48u8 + d2, 48u8 + d3, 48u8 + d4, 48u8 + d5];
    assert(digits@ =~= usec_digits(usec));
    (digits, LOG_MICROS_SIZE)
}

/// Appends `src` to `dst`.
fn append_bytes(dst: &mut Vec<u8>, src: &[u8])
    ensures
        final(dst)@ == old(dst)@ + src@,
{
    let mut i: usize = 0;
    let n = src.len();
    while i < n
        invariant
            n == src@.len(),
            i <= n,
            dst@ == old(dst)@ + src@.subrange(0, i as int),
        decreases n - i,
    {
        dst.push(src[i]);
        i = i + 1;
        assert(src@.subrange(0, i as int) == src@.subrange(0, i - 1).push(src@[i - 1]));
    }
    assert(src@.subrange(0, n as int) == src@);
}

impl LogEntryStack {
    /// The formatted line of this entry, given the text of its timestamp in local time
    /// (`YYYY-mm-dd HH:MM:SS`, or empty when the entry has no timestamp); the second value is
    /// the line's length.
    pub fn message_format(&self, time_text: &[u8]) -> (r: (Vec<u8>, usize))
        requires
            time_text@.len() < LOG_TIMESTAMP_SIZE,
            self@.timestamp matches Some(t) ==> t.tv_usec >= 0,
        ensures
            r.0@ == formatted_line(self@, time_text@),
            r.1 == r.0@.len(),
            r.1 <= LOG_MESSAGE_LEN,
    {
        proof {
            use_type_invariant(self);
        }
        let mut buf: Vec<u8> = Vec::new();
        if time_text.len() > 0 {
            append_bytes(&mut buf, time_text);
            buf.push(46u8);
            match self.timestamp {
                Some(t) => {
                    let (micros, _len) = format_usec_6digits(t.tv_usec);
                    append_bytes(&mut buf, micros.as_slice());
                },
                None => {},
            }
            buf.push(32u8);
            buf.push(91u8);
            match self.level {
                Some(l) => {
                    let name = l.as_bytes();
                    append_bytes(&mut buf, name.as_slice());
                },
                None => {},
            }
            buf.push(93u8);
            buf.push(32u8);
        }
        append_bytes(&mut buf, self.message.as_slice());
        let len = buf.len();
        (buf, len)
    }
}

proof fn lemma_later_chunks_unstamped(bytes: Seq<u8>, offset: int, timestamp: Option<TimeVal>, level: Option<LogLevel>)
    requires
        offset > 0,
    ensures
        forall|i: int|
            0 <= i < chunk_entries(bytes, offset, timestamp, level).len() ==> (#[trigger] chunk_entries(
                bytes,
                offset,
                timestamp,
                level,
            )[i]).timestamp is None && chunk_entries(bytes, offset, timestamp, level)[i].level is None
                && chunk_entries(bytes, offset, timestamp, level)[i].message.len() <= LOG_MESSAGE_MAX_LEN,
    decreases bytes.len() - offset,
{
    if offset < bytes.len() {
        let remaining = bytes.len() - offset;
        let chunk_len = if remaining < LOG_MESSAGE_MAX_LEN { remaining } else { LOG_MESSAGE_MAX_LEN as int };
        lemma_later_chunks_unstamped(bytes, offset + chunk_len, timestamp, level);
    }
}

/// Only the first entry of a logged message carries the timestamp and the level, and no entry
/// holds more than `LOG_MESSAGE_MAX_LEN` bytes. (A message of exactly `LOG_MESSAGE_MAX_LEN`
/// bytes is the exception to the first part: its lone newline entry carries them too.)
pub proof fn lemma_log_entries_stamped_once(bytes: Seq<u8>, timestamp: TimeVal, level: LogLevel)
    requires
        bytes.len() > 0,
        bytes.len() != LOG_MESSAGE_MAX_LEN,
    ensures
        log_entries(bytes, timestamp, level).len() > 0,
        log_entries(bytes, timestamp, level)[0].timestamp == Some(timestamp),
        log_entries(bytes, timestamp, level)[0].level == Some(level),
        forall|i: int|
            0 < i < log_entries(bytes, timestamp, level).len() ==> (#[trigger] log_entries(
                bytes,
                timestamp,
                level,
            )[i]).timestamp is None && log_entries(bytes, timestamp, level)[i].level is None,
        forall|i: int|
            0 <= i < log_entries(bytes, timestamp, level).len() ==> (#[trigger] log_entries(
                bytes,
                timestamp,
                level,
            )[i]).message.len() <= LOG_MESSAGE_MAX_LEN,
{
    let es = log_entries(bytes, timestamp, level);
    let remaining = bytes.len() as int;
    let chunk_len = if remaining < LOG_MESSAGE_MAX_LEN { remaining } else { LOG_MESSAGE_MAX_LEN as int };
    let rest = chunk_entries(bytes, chunk_len, Some(timestamp), Some(level));
    lemma_later_chunks_unstamped(bytes, chunk_len, Some(timestamp), Some(level));
    let chunk = bytes.subrange(0, chunk_len);
    if remaining < LOG_MESSAGE_MAX_LEN {
        let here = seq![LogEntryView { timestamp: Some(timestamp), level: Some(level), message: chunk.push(newline()) }];
        assert(es == here + rest);
    } else {
        let here = seq![LogEntryView { timestamp: Some(timestamp), level: Some(level), message: chunk }];
        assert(es == here + rest);
        assert forall|i: int| 0 < i < es.len() implies (#[trigger] es[i]).timestamp is None
            && es[i].level is None by {
            assert(es[i] == rest[i - 1]);
        }
        assert forall|i: int| 0 <= i < es.len() implies (#[trigger] es[i]).message.len()
            <= LOG_MESSAGE_MAX_LEN by {
            if i > 0 {
                assert(es[i] == rest[i - 1]);
            }
        }
    }
}

} // verus!
