use vstd::prelude::*;
use vstd::string::StringExecFns;
use std::collections::VecDeque;
use std::collections::TryReserveError;
use std::time::Instant;
use crate::error::UnixError;
use crate::text::{decimal, push_decimal, push_signed_decimal, signed_decimal, text_with_number};
use crate::keypress::TermFlags;
use crate::poll_handlers::PollBits;

verus! {

broadcast use vstd::std_specs::vecdeque::group_vec_dequeue_axioms;

/// A point of the monotonic clock, carried through opaque.
#[verifier::external_type_specification]
#[verifier::external_body]
pub struct ExInstant(Instant);

/// `Instant::now`: the current point of the monotonic clock. Nothing is promised of it.
#[verifier::external_body]
pub(crate) fn instant_now() -> (t: Instant) {
    Instant::now()
}

/// `VecDeque::try_reserve`: tries to make room for `additional` more tasks. The tasks stay as
/// they were, whether or not the room could be had; which of the two happens depends on the
/// allocator and is not stated.
#[verifier::external_body]
fn reserve_tasks(queue: &mut VecDeque<UnixTask>, additional: usize) -> (r: Result<(), TryReserveError>)
    ensures
        final(queue)@ == old(queue)@,
{
    queue.try_reserve(additional)
}

/// The state of the application's shutdown: running, stopping in one of three ways, or
/// stopped. Each stopping state holds the exit code, an optional message and when it began.
#[derive(Debug)]
pub enum AppShutdown {
    Running,
    SmartStop { code: i32, message: Option<String>, start: Instant },
    FastStop { code: i32, message: Option<String>, start: Instant },
    ImmediateStop { code: i32, message: Option<String>, start: Instant },
    Stoped { code: i32, message: Option<String>, start: Instant, end: Instant },
}

/// The exit code of a shutdown state, when it has one.
pub open spec fn shutdown_code(s: AppShutdown) -> Option<i32> {
    match s {
        AppShutdown::Running => None,
        AppShutdown::SmartStop { code, .. } => Some(code),
        AppShutdown::FastStop { code, .. } => Some(code),
        AppShutdown::ImmediateStop { code, .. } => Some(code),
        AppShutdown::Stoped { code, .. } => Some(code),
    }
}

/// The message of a shutdown state, when it has one.
pub open spec fn shutdown_message(s: AppShutdown) -> Option<String> {
    match s {
        AppShutdown::Running => None,
        AppShutdown::SmartStop { message, .. } => message,
        AppShutdown::FastStop { message, .. } => message,
        AppShutdown::ImmediateStop { message, .. } => message,
        AppShutdown::Stoped { message, .. } => message,
    }
}

/// When the shutdown began, when it has begun.
pub open spec fn shutdown_start(s: AppShutdown) -> Option<Instant> {
    match s {
        AppShutdown::Running => None,
        AppShutdown::SmartStop { start, .. } => Some(start),
        AppShutdown::FastStop { start, .. } => Some(start),
        AppShutdown::ImmediateStop { start, .. } => Some(start),
        AppShutdown::Stoped { start, .. } => Some(start),
    }
}

/// A copy of an optional text.
fn clone_message(m: &Option<String>) -> (r: Option<String>)
    ensures
        r == *m,
{
    match m {
        Some(s) => Some(s.clone()),
        None => None,
    }
}

impl Clone for AppShutdown {
    /// A copy with equal fields.
    fn clone(&self) -> (r: Self)
        ensures
            r == *self,
    {
        match self {
            AppShutdown::Running => AppShutdown::Running,
            AppShutdown::SmartStop { code, message, start } =>
                AppShutdown::SmartStop { code: *code, message: clone_message(message), start: *start },
            AppShutdown::FastStop { code, message, start } =>
                AppShutdown::FastStop { code: *code, message: clone_message(message), start: *start },
            AppShutdown::ImmediateStop { code, message, start } =>
                AppShutdown::ImmediateStop { code: *code, message: clone_message(message), start: *start },
            AppShutdown::Stoped { code, message, start, end } =>
                AppShutdown::Stoped { code: *code, message: clone_message(message), start: *start, end: *end },
        }
    }
}

impl AppShutdown {
    /// The running state.
    pub fn new() -> (s: Self)
        ensures
            s is Running,
    {
        AppShutdown::Running
    }

    /// Whether a smart stop is under way.
    pub fn is_stop(&self) -> (b: bool)
        ensures
            b == (*self is SmartStop),
    {
        match self {
            AppShutdown::SmartStop { .. } => true,
            _ => false,
        }
    }

    /// Whether the application has stopped.
    pub fn is_stoped(&self) -> (b: bool)
        ensures
            b == (*self is Stoped),
    {
        match self {
            AppShutdown::Stoped { .. } => true,
            _ => false,
        }
    }

    /// The exit code, once a shutdown has begun.
    pub fn code(&self) -> (c: Option<i32>)
        ensures
            c == shutdown_code(*self),
    {
        match self {
            AppShutdown::SmartStop { code, .. } => Some(*code),
            AppShutdown::FastStop { code, .. } => Some(*code),
            AppShutdown::ImmediateStop { code, .. } => Some(*code),
            AppShutdown::Stoped { code, .. } => Some(*code),
            AppShutdown::Running => None,
        }
    }

    /// The message of the shutdown, once one has begun with a message.
    pub fn message(&self) -> (m: Option<String>)
        ensures
            m == shutdown_message(*self),
    {
        match self {
            AppShutdown::SmartStop { message, .. } => clone_message(message),
            AppShutdown::FastStop { message, .. } => clone_message(message),
            AppShutdown::ImmediateStop { message, .. } => clone_message(message),
            AppShutdown::Stoped { message, .. } => clone_message(message),
            AppShutdown::Running => None,
        }
    }

    /// Begins a smart stop now, whatever the state was.
    pub fn shutdown_smart(&mut self, code: i32, message: Option<String>)
        ensures
            *final(self) is SmartStop,
            shutdown_code(*final(self)) == Some(code),
            shutdown_message(*final(self)) == message,
    {
        *self = AppShutdown::SmartStop { code, message, start: instant_now() };
    }

    /// Begins a fast stop now, whatever the state was.
    pub fn shutdown_fast(&mut self, code: i32, message: Option<String>)
        ensures
            *final(self) is FastStop,
            shutdown_code(*final(self)) == Some(code),
            shutdown_message(*final(self)) == message,
    {
        *self = AppShutdown::FastStop { code, message, start: instant_now() };
    }

    /// Begins an immediate stop now, whatever the state was.
    pub fn shutdown_immediate(&mut self, code: i32, message: Option<String>)
        ensures
            *final(self) is ImmediateStop,
            shutdown_code(*final(self)) == Some(code),
            shutdown_message(*final(self)) == message,
    {
        *self = AppShutdown::ImmediateStop { code, message, start: instant_now() };
    }

    /// When the shutdown began, once one has begun.
    pub fn start_time(&self) -> (t: Option<Instant>)
        ensures
            t == shutdown_start(*self),
    {
        match self {
            AppShutdown::SmartStop { start, .. } => Some(*start),
            AppShutdown::FastStop { start, .. } => Some(*start),
            AppShutdown::ImmediateStop { start, .. } => Some(*start),
            AppShutdown::Stoped { start, .. } => Some(*start),
            AppShutdown::Running => None,
        }
    }

    /// When the application stopped, once it has.
    pub fn end_time(&self) -> (t: Option<Instant>)
        ensures
            t == (match *self {
                AppShutdown::Stoped { end, .. } => Some(end),
                _ => None::<Instant>,
            }),
    {
        match self {
            AppShutdown::Stoped { end, .. } => Some(*end),
            _ => None,
        }
    }

    /// Marks the shutdown under way as done now, keeping its code, message and start.
    pub fn shutdown_complited(&mut self)
        requires
            !(*old(self) is Running),
        ensures
            *final(self) is Stoped,
            shutdown_code(*final(self)) == shutdown_code(*old(self)),
            shutdown_message(*final(self)) == shutdown_message(*old(self)),
            shutdown_start(*final(self)) == shutdown_start(*old(self)),
    {
        let code = match self.code() {
            Some(c) => c,
            None => 0,
        };
        let message = self.message();
        let start = match self.start_time() {
            Some(t) => t,
            None => instant_now(),
        };
        *self = AppShutdown::Stoped { code, message, start, end: instant_now() };
    }

    /// Goes back to running.
    pub fn shutdown_cancel(&mut self)
        ensures
            *final(self) is Running,
    {
        *self = AppShutdown::Running;
    }
}

/// The allocator could not give the memory asked for.
#[derive(Clone, Copy, Debug, PartialEq, Eq)]
pub struct AllocError;

/// A byte buffer: its bytes, how many of them hold data, and the length it was set up with.
#[derive(Debug, Clone)]
pub struct Buffer {
    buf: Vec<u8>,
    data_len: usize,
    setup_len: usize,
}

/// What a buffer holds.
pub struct BufferView {
    /// All the bytes of the buffer.
    pub bytes: Seq<u8>,
    /// How many bytes, from the first, hold data.
    pub data_len: usize,
    /// The length the buffer was set up with.
    pub setup_len: usize,
}

impl View for Buffer {
    type V = BufferView;

    closed spec fn view(&self) -> BufferView {
        BufferView { bytes: self.buf@, data_len: self.data_len, setup_len: self.setup_len }
    }
}

/// `n` zero bytes.
pub open spec fn zeros(n: nat) -> Seq<u8> {
    Seq::new(n, |i: int| 0u8)
}

impl Buffer {
    /// A buffer of `setup_len` zero bytes, none of them data.
    pub fn new(setup_len: usize) -> (b: Self)
        ensures
            b@.bytes == zeros(setup_len as nat),
            b@.data_len == 0,
            b@.setup_len == setup_len,
    {
        let buf: Vec<u8> = vec![0u8; setup_len];
        let b = Buffer { buf, data_len: 0, setup_len };
        assert(b@.bytes == zeros(setup_len as nat));
        b
    }

    /// A buffer of `setup_len` zero bytes, none of them data, or the allocator's refusal.
    /// A length beyond `isize::MAX` is always refused; an empty buffer never is.
    pub fn try_new(setup_len: usize) -> (r: Result<Self, AllocError>)
        ensures
            setup_len == 0 ==> r is Ok,
            setup_len > isize::MAX ==> r is Err,
            r matches Ok(b) ==> b@.bytes == zeros(setup_len as nat) && b@.data_len == 0 && b@.setup_len == setup_len,
    {
        if setup_len == 0 {
            let b = Buffer { buf: Vec::new(), data_len: 0, setup_len };
            assert(b@.bytes == zeros(0));
            return Ok(b);
        }
        if setup_len > isize::MAX as usize {
            return Err(AllocError);
        }
        let mut buf: Vec<u8> = Vec::new();
        match buf.try_reserve(setup_len) {
            Err(_) => Err(AllocError),
            Ok(()) => {
                buf.resize(setup_len, 0u8);
                let b = Buffer { buf, data_len: 0, setup_len };
                assert(b@.bytes == zeros(setup_len as nat));
                Ok(b)
            },
        }
    }

    /// Sets how many bytes hold data; nothing checks it against the length.
    pub fn set_data_len(&mut self, data_len: usize)
        ensures
            final(self)@.bytes == old(self)@.bytes,
            final(self)@.data_len == data_len,
            final(self)@.setup_len == old(self)@.setup_len,
    {
        self.data_len = data_len;
    }

    /// How many bytes hold data.
    pub fn get_data_len(&mut self) -> (n: usize)
        ensures
            n == old(self)@.data_len,
            *final(self) == *old(self),
    {
        self.data_len
    }

    /// The length the buffer was set up with.
    pub fn get_setting_len(&mut self) -> (n: usize)
        ensures
            n == old(self)@.setup_len,
            *final(self) == *old(self),
    {
        self.setup_len
    }

    /// The number of bytes of the buffer.
    pub fn get_buffer_len(&mut self) -> (n: usize)
        ensures
            n == old(self)@.bytes.len(),
            *final(self) == *old(self),
    {
        self.buf.len()
    }

    /// Gives the buffer `set_size` bytes: the first ones are kept, new ones are zero. Data
    /// that no longer fits is forgotten (none holds data then), and `set_size` becomes the
    /// set-up length.
    pub fn reallocate(&mut self, set_size: usize)
        ensures
            final(self)@.bytes.len() == set_size,
            set_size <= old(self)@.bytes.len() ==> final(self)@.bytes == old(self)@.bytes.subrange(0, set_size as int),
            set_size > old(self)@.bytes.len() ==> final(self)@.bytes == old(self)@.bytes + zeros((set_size - old(self)@.bytes.len()) as nat),
            final(self)@.data_len == (if old(self)@.data_len > set_size { 0 } else { old(self)@.data_len }),
            final(self)@.setup_len == set_size,
    {
        let ghost old_bytes = self.buf@;
        self.buf.resize(set_size, 0u8);
        proof {
            if set_size > old_bytes.len() {
                assert(self.buf@ == old_bytes + zeros((set_size - old_bytes.len()) as nat)) by {
                    assert(self.buf@.subrange(0, old_bytes.len() as int) == old_bytes);
                    assert forall|i: int| old_bytes.len() <= i < set_size implies self.buf@[i] == 0u8 by {
                        assert(cloned::<u8>(0u8, self.buf@[i]));
                    }
                }
            }
        }
        if self.data_len > set_size {
            self.data_len = 0;
        }
        self.setup_len = set_size;
    }

    /// The bytes that hold data.
    pub fn get_data_slice(&self) -> (s: &[u8])
        requires
            self@.data_len <= self@.bytes.len(),
        ensures
            s@ == self@.bytes.subrange(0, self@.data_len as int),
    {
        &self.buf.as_slice()[0..self.data_len]
    }

    /// The bytes that hold data, to be written in place.
    pub fn get_mut_data_slice(&mut self) -> (s: &mut [u8])
        requires
            old(self)@.data_len <= old(self)@.bytes.len(),
        ensures
            s@ == old(self)@.bytes.subrange(0, old(self)@.data_len as int),
            final(self)@.bytes == final(s)@ + old(self)@.bytes.subrange(old(self)@.data_len as int, old(self)@.bytes.len() as int),
            final(self)@.data_len == old(self)@.data_len,
            final(self)@.setup_len == old(self)@.setup_len,
    {
        let n = self.data_len;
        let all = self.buf.as_mut_slice();
        let (data, _rest) = all.split_at_mut(n);
        data
    }

    /// All the bytes of the buffer, to be written in place.
    pub fn get_mut_buffer_slice(&mut self) -> (s: &mut [u8])
        ensures
            s@ == old(self)@.bytes,
            final(self)@.bytes == final(s)@,
            final(self)@.data_len == old(self)@.data_len,
            final(self)@.setup_len == old(self)@.setup_len,
    {
        self.buf.as_mut_slice()
    }
}

/// A pool of spare buffers: at most `max_size` of them are kept, and new ones have
/// `buffer_size` bytes.
#[derive(Debug, Clone)]
pub struct BufferPool {
    buffers: Vec<Buffer>,
    max_size: usize,
    buffer_size: usize,
}

/// What a pool holds.
pub struct BufferPoolView {
    pub buffers: Seq<Buffer>,
    pub max_size: usize,
    pub buffer_size: usize,
}

impl View for BufferPool {
    type V = BufferPoolView;

    closed spec fn view(&self) -> BufferPoolView {
        BufferPoolView { buffers: self.buffers@, max_size: self.max_size, buffer_size: self.buffer_size }
    }
}

impl BufferPool {
    /// An empty pool; making it never fails.
    pub fn try_new(max_size: usize, buffer_size: usize) -> (r: Result<Self, AllocError>)
        ensures
            r matches Ok(p) && p@.buffers.len() == 0 && p@.max_size == max_size && p@.buffer_size == buffer_size,
    {
        Ok(BufferPool { buffers: Vec::new(), max_size, buffer_size })
    }

    /// Keeps `buffer` when the pool is not full, and drops it otherwise. Fails only when the
    /// allocator refuses the room for it, and then the pool is as it was.
    pub fn try_add_buffer(&mut self, buffer: Buffer) -> (r: Result<(), AllocError>)
        ensures
            final(self)@.max_size == old(self)@.max_size,
            final(self)@.buffer_size == old(self)@.buffer_size,
            r is Err ==> old(self)@.buffers.len() < old(self)@.max_size && final(self)@.buffers == old(self)@.buffers,
            r is Ok && old(self)@.buffers.len() < old(self)@.max_size ==> final(self)@.buffers == old(self)@.buffers.push(buffer),
            old(self)@.buffers.len() >= old(self)@.max_size ==> r is Ok && final(self)@.buffers == old(self)@.buffers,
    {
        if self.buffers.len() < self.max_size {
            match self.buffers.try_reserve(1) {
                Err(_) => {
                    return Err(AllocError);
                },
                Ok(()) => {},
            }
            self.buffers.push(buffer);
        }
        Ok(())
    }

    /// Takes the buffer kept last, if any.
    pub fn get_next_buffer(&mut self) -> (r: Option<Buffer>)
        ensures
            final(self)@.max_size == old(self)@.max_size,
            final(self)@.buffer_size == old(self)@.buffer_size,
            old(self)@.buffers.len() == 0 ==> r is None && final(self)@.buffers == old(self)@.buffers,
            old(self)@.buffers.len() > 0 ==> r == Some(old(self)@.buffers.last())
                && final(self)@.buffers == old(self)@.buffers.drop_last(),
    {
        self.buffers.pop()
    }

    /// A new buffer of the pool's size while the pool is not full (or the allocator's refusal),
    /// and `None` once it is. The pool itself does not change.
    pub fn try_allocate_buffer(&mut self) -> (r: Result<Option<Buffer>, AllocError>)
        ensures
            *final(self) == *old(self),
            old(self)@.buffers.len() >= old(self)@.max_size ==> r matches Ok(None),
            r matches Ok(Some(b)) ==> old(self)@.buffers.len() < old(self)@.max_size
                && b@.bytes == zeros(old(self)@.buffer_size as nat) && b@.data_len == 0
                && b@.setup_len == old(self)@.buffer_size,
            old(self)@.buffers.len() < old(self)@.max_size ==> (r is Err || r matches Ok(Some(_))),
            old(self)@.buffers.len() < old(self)@.max_size && old(self)@.buffer_size == 0 ==> r matches Ok(Some(_)),
    {
        if self.buffers.len() < self.max_size {
            match Buffer::try_new(self.buffer_size) {
                Ok(b) => Ok(Some(b)),
                Err(e) => Err(e),
            }
        } else {
            Ok(None)
        }
    }
}

/// A task for the application's loop: one of the three ways of stopping.
#[derive(Debug)]
pub enum UnixTask {
    SmartStop { code: i32, message: Option<String>, start: Instant },
    FastStop { code: i32, message: Option<String>, start: Instant },
    ImmediateStop { code: i32, message: Option<String>, start: Instant },
}

impl Clone for UnixTask {
    /// A copy with equal fields.
    fn clone(&self) -> (r: Self)
        ensures
            r == *self,
    {
        match self {
            UnixTask::SmartStop { code, message, start } =>
                UnixTask::SmartStop { code: *code, message: clone_message(message), start: *start },
            UnixTask::FastStop { code, message, start } =>
                UnixTask::FastStop { code: *code, message: clone_message(message), start: *start },
            UnixTask::ImmediateStop { code, message, start } =>
                UnixTask::ImmediateStop { code: *code, message: clone_message(message), start: *start },
        }
    }
}

impl UnixTask {
    /// Whether the time to run the task has come: every task is ready at once.
    pub fn task_is_ready(&self) -> (b: bool)
        ensures
            b,
    {
        match self {
            UnixTask::SmartStop { .. } => true,
            UnixTask::FastStop { .. } => true,
            UnixTask::ImmediateStop { .. } => true,
        }
    }

    /// When the task is to run: no task is scheduled for later.
    pub fn scheduled_time(&self) -> (t: Option<Instant>)
        ensures
            t is None,
    {
        match self {
            UnixTask::SmartStop { .. } => None,
            UnixTask::FastStop { .. } => None,
            UnixTask::ImmediateStop { .. } => None,
        }
    }
}

/// A queue of tasks that holds at most `setup_len` of them.
#[derive(Debug, Clone)]
pub struct UnixQueuePool {
    queue: VecDeque<UnixTask>,
    setup_len: usize,
}

/// What a queue holds.
pub struct UnixQueuePoolView {
    pub tasks: Seq<UnixTask>,
    pub setup_len: usize,
}

impl View for UnixQueuePool {
    type V = UnixQueuePoolView;

    closed spec fn view(&self) -> UnixQueuePoolView {
        UnixQueuePoolView { tasks: self.queue@, setup_len: self.setup_len }
    }
}

/// The tasks of a queue after a task was added in place of the oldest one when it was full.
pub open spec fn replace_oldest(tasks: Seq<UnixTask>, setup_len: usize, task: UnixTask) -> Seq<UnixTask> {
    if tasks.len() >= setup_len && tasks.len() > 0 {
        tasks.drop_first().push(task)
    } else {
        tasks.push(task)
    }
}

impl UnixQueuePool {
    /// An empty queue for at most `setup_len` tasks.
    pub fn new(setup_len: usize) -> (q: Self)
        ensures
            q@.tasks.len() == 0,
            q@.setup_len == setup_len,
    {
        UnixQueuePool { queue: VecDeque::with_capacity(setup_len), setup_len }
    }

    /// Adds `task` at the end. A full queue refuses it with the text `queue is full: ` and
    /// its length; when the allocator refuses the room, the text is `extend queue pool up to: `
    /// and the length it would have had. A refused task leaves the queue as it was.
    pub fn try_add_queue(&mut self, queue: UnixTask) -> (r: Result<(), UnixError>)
        ensures
            final(self)@.setup_len == old(self)@.setup_len,
            old(self)@.tasks.len() >= old(self)@.setup_len ==> final(self)@.tasks == old(self)@.tasks
                && (r matches Err(UnixError::AllocationError(m)) && m@ == "queue is full: "@ + decimal(old(self)@.tasks.len())),
            old(self)@.tasks.len() < old(self)@.setup_len ==> match r {
                Ok(()) => final(self)@.tasks == old(self)@.tasks.push(queue),
                Err(e) => final(self)@.tasks == old(self)@.tasks && (e matches UnixError::AllocationError(m)
                    && m@ == "extend queue pool up to: "@ + decimal(old(self)@.tasks.len() + 1)),
            },
    {
        let len = self.queue.len();
        if len >= self.setup_len {
            let m = text_with_number("queue is full: ", len as u64);
            return Err(UnixError::AllocationError(m));
        }
        match reserve_tasks(&mut self.queue, 1) {
            Err(_) => {
                let m = text_with_number("extend queue pool up to: ", (len + 1) as u64);
                return Err(UnixError::AllocationError(m));
            },
            Ok(()) => {},
        }
        self.queue.push_back(queue);
        Ok(())
    }

    /// Adds `task` at the end, dropping the oldest task first when the queue is full.
    pub fn add_queue_with_replace_old(&mut self, queue: UnixTask) -> (r: Result<(), UnixError>)
        ensures
            r is Ok,
            final(self)@.setup_len == old(self)@.setup_len,
            final(self)@.tasks == replace_oldest(old(self)@.tasks, old(self)@.setup_len, queue),
    {
        if self.queue.len() >= self.setup_len {
            let _ = self.queue.pop_front();
        }
        self.queue.push_back(queue);
        Ok(())
    }

    /// Takes the oldest task, if any.
    pub fn pop_task(&mut self) -> (r: Option<UnixTask>)
        ensures
            final(self)@.setup_len == old(self)@.setup_len,
            old(self)@.tasks.len() == 0 ==> r is None && final(self)@.tasks == old(self)@.tasks,
            old(self)@.tasks.len() > 0 ==> r == Some(old(self)@.tasks[0]) && final(self)@.tasks == old(self)@.tasks.drop_first(),
            forall|k: nat| #[trigger] pop_results(old(self)@.tasks, k + 1) == seq![r].add(pop_results(final(self)@.tasks, k)),
    {
        let r = self.queue.pop_front();
        assert forall|k: nat| #[trigger] pop_results(old(self)@.tasks, k + 1) == seq![r].add(pop_results(self@.tasks, k)) by {
            assert((k + 1) as nat - 1 == k);
        }
        r
    }

    /// The oldest task, if any, left in the queue.
    pub fn peek_task(&self) -> (r: Option<&UnixTask>)
        ensures
            self@.tasks.len() == 0 ==> r is None,
            self@.tasks.len() > 0 ==> r == Some(&self@.tasks[0]),
    {
        if self.queue.len() > 0 {
            Some(&self.queue[0])
        } else {
            None
        }
    }
}

/// The tasks of a queue after each task of `added` was accepted at the end, in order.
pub open spec fn accepted_all(tasks: Seq<UnixTask>, added: Seq<UnixTask>) -> Seq<UnixTask>
    decreases added.len(),
{
    if added.len() == 0 {
        tasks
    } else {
        accepted_all(tasks.push(added[0]), added.drop_first())
    }
}

/// What `k` successive calls of `pop_task` return on a queue holding `tasks`: the oldest
/// task each time while there is one, then nothing.
pub open spec fn pop_results(tasks: Seq<UnixTask>, k: nat) -> Seq<Option<UnixTask>>
    decreases k,
{
    if k == 0 {
        Seq::empty()
    } else if tasks.len() == 0 {
        seq![None].add(pop_results(tasks, (k - 1) as nat))
    } else {
        seq![Some(tasks[0])].add(pop_results(tasks.drop_first(), (k - 1) as nat))
    }
}

proof fn lemma_accepted_all_appends(tasks: Seq<UnixTask>, added: Seq<UnixTask>)
    ensures
        accepted_all(tasks, added) == tasks + added,
    decreases added.len(),
{
    if added.len() > 0 {
        lemma_accepted_all_appends(tasks.push(added[0]), added.drop_first());
        assert(tasks.push(added[0]) + added.drop_first() =~= tasks + added);
    }
}

proof fn lemma_pop_results_drain(tasks: Seq<UnixTask>)
    ensures
        pop_results(tasks, tasks.len() + 1) == tasks.map_values(|t: UnixTask| Some(t)).push(None),
    decreases tasks.len(),
{
    if tasks.len() == 0 {
        assert(pop_results(tasks, 0) == Seq::<Option<UnixTask>>::empty());
        assert(pop_results(tasks, 1) =~= seq![None]);
        assert(tasks.map_values(|t: UnixTask| Some(t)).push(None) =~= seq![None]);
    } else {
        let rest = tasks.drop_first();
        lemma_pop_results_drain(rest);
        assert(pop_results(tasks, tasks.len() + 1)
            == seq![Some(tasks[0])].add(pop_results(rest, rest.len() + 1)));
        assert(tasks.map_values(|t: UnixTask| Some(t)).push(None)
            =~= seq![Some(tasks[0])].add(rest.map_values(|t: UnixTask| Some(t)).push(None)));
    }
}

/// First in, first out: when the tasks `added` are each accepted at the end of an empty
/// queue (by `try_add_queue` returning `Ok`, or by `add_queue_with_replace_old` while the
/// queue is not full), the queue holds them in that order, and as many calls of `pop_task`
/// as there are tasks, and one more, return each of them in the order they were added,
/// then nothing.
pub proof fn lemma_queue_first_in_first_out(added: Seq<UnixTask>)
    ensures
        accepted_all(Seq::empty(), added) == added,
        pop_results(accepted_all(Seq::empty(), added), added.len() + 1)
            == added.map_values(|t: UnixTask| Some(t)).push(None),
{
    lemma_accepted_all_appends(Seq::empty(), added);
    assert(Seq::<UnixTask>::empty() + added =~= added);
    lemma_pop_results_drain(added);
}

/// A descriptor that the application polls, held by its number, with its buffer.
#[derive(Debug)]
pub enum FileType {
    /// Standard input, with the terminal mode it had before the keypress mode was set.
    Stdin { fd: i32, buf: Buffer, termios: TermFlags },
    Stdout { fd: i32, buf: Buffer },
    Stderr { fd: i32, buf: Buffer },
    SignalFd { fd: i32, buf: Buffer },
    /// The master side of a pseudo-terminal, its slave side and the child process on it.
    PtyMaster { master: i32, buf: Buffer, slave: i32, child: i32 },
}

impl FileType {
    /// The number of the descriptor polled: the master side for a pseudo-terminal.
    pub open spec fn raw_fd(self) -> i32 {
        match self {
            FileType::Stdin { fd, .. } => fd,
            FileType::Stdout { fd, .. } => fd,
            FileType::Stderr { fd, .. } => fd,
            FileType::SignalFd { fd, .. } => fd,
            FileType::PtyMaster { master, .. } => master,
        }
    }

    /// The buffer of the descriptor.
    pub open spec fn spec_buf(self) -> Buffer {
        match self {
            FileType::Stdin { buf, .. } => buf,
            FileType::Stdout { buf, .. } => buf,
            FileType::Stderr { buf, .. } => buf,
            FileType::SignalFd { buf, .. } => buf,
            FileType::PtyMaster { buf, .. } => buf,
        }
    }

    /// The descriptor with its buffer replaced by `b`.
    pub open spec fn with_buf(self, b: Buffer) -> FileType {
        match self {
            FileType::Stdin { fd, termios, .. } => FileType::Stdin { fd, buf: b, termios },
            FileType::Stdout { fd, .. } => FileType::Stdout { fd, buf: b },
            FileType::Stderr { fd, .. } => FileType::Stderr { fd, buf: b },
            FileType::SignalFd { fd, .. } => FileType::SignalFd { fd, buf: b },
            FileType::PtyMaster { master, slave, child, .. } => FileType::PtyMaster { master, buf: b, slave, child },
        }
    }

    /// The events polled for: input for standard input and the signal descriptor, output for
    /// standard output and standard error, both for a pseudo-terminal; errors, hang-ups and
    /// invalid descriptors always.
    pub open spec fn events_of(self, bits: PollBits) -> i16 {
        let always = bits.pollerr | bits.pollhup | bits.pollnval;
        match self {
            FileType::Stdin { .. } => bits.pollin | always,
            FileType::Stdout { .. } => bits.pollout | always,
            FileType::Stderr { .. } => bits.pollout | always,
            FileType::SignalFd { .. } => bits.pollin | always,
            FileType::PtyMaster { .. } => bits.pollin | bits.pollout | always,
        }
    }

    /// The name the description starts with.
    pub open spec fn label(self) -> Seq<char> {
        match self {
            FileType::Stdin { .. } => "Stdin"@,
            FileType::Stdout { .. } => "Stdout"@,
            FileType::Stderr { .. } => "Stderr"@,
            FileType::SignalFd { .. } => "SignalFd"@,
            FileType::PtyMaster { .. } => "PtyMaster"@,
        }
    }

    /// The description: the name, the descriptor and how many bytes of data the buffer holds,
    /// and for a pseudo-terminal the child's process id.
    pub open spec fn description(self) -> Seq<char> {
        self.label() + "(fd: "@ + signed_decimal(self.raw_fd() as int) + ", buf_size: "@
            + decimal(self.spec_buf()@.data_len as nat) + match self {
            FileType::PtyMaster { child, .. } => ", child_pid: "@ + signed_decimal(child as int) + ")"@,
            _ => ")"@,
        }
    }

    /// The number of the descriptor polled.
    pub fn as_raw_fd(&self) -> (r: i32)
        ensures
            r == self.raw_fd(),
    {
        match self {
            FileType::Stdin { fd, .. } => *fd,
            FileType::Stdout { fd, .. } => *fd,
            FileType::Stderr { fd, .. } => *fd,
            FileType::SignalFd { fd, .. } => *fd,
            FileType::PtyMaster { master, .. } => *master,
        }
    }

    /// The events polled for (see `events_of`), with the platform's bits.
    pub fn make_events(&self, bits: &PollBits) -> (r: i16)
        ensures
            r == self.events_of(*bits),
    {
        let always = bits.pollerr | bits.pollhup | bits.pollnval;
        match self {
            FileType::Stdin { .. } => bits.pollin | always,
            FileType::Stdout { .. } => bits.pollout | always,
            FileType::Stderr { .. } => bits.pollout | always,
            FileType::SignalFd { .. } => bits.pollin | always,
            FileType::PtyMaster { .. } => bits.pollin | bits.pollout | always,
        }
    }

    /// The buffer of the descriptor, to change in place.
    pub fn get_mut_buf(&mut self) -> (b: &mut Buffer)
        ensures
            *b == old(self).spec_buf(),
            *final(self) == old(self).with_buf(*final(b)),
    {
        match self {
            FileType::Stdin { buf, .. } => buf,
            FileType::Stdout { buf, .. } => buf,
            FileType::Stderr { buf, .. } => buf,
            FileType::SignalFd { buf, .. } => buf,
            FileType::PtyMaster { buf, .. } => buf,
        }
    }

    /// The description of the descriptor (see `description`).
    pub fn describe(&self) -> (r: String)
        ensures
            r@ == self.description(),
    {
        proof {
            reveal_strlit("Stdin");
            reveal_strlit("Stdout");
            reveal_strlit("Stderr");
            reveal_strlit("SignalFd");
            reveal_strlit("PtyMaster");
            reveal_strlit("(fd: ");
            reveal_strlit(", buf_size: ");
            reveal_strlit(", child_pid: ");
            reveal_strlit(")");
        }
        let (label, fd, buf): (&str, i32, &Buffer) = match self {
            FileType::Stdin { fd, buf, .. } => ("Stdin", *fd, buf),
            FileType::Stdout { fd, buf } => ("Stdout", *fd, buf),
            FileType::Stderr { fd, buf } => ("Stderr", *fd, buf),
            FileType::SignalFd { fd, buf } => ("SignalFd", *fd, buf),
            FileType::PtyMaster { master, buf, .. } => ("PtyMaster", *master, buf),
        };
        let mut s = String::from_str(label);
        s.append("(fd: ");
        push_signed_decimal(&mut s, fd as i64);
        s.append(", buf_size: ");
        push_decimal(&mut s, buf.data_len as u64);
        match self {
            FileType::PtyMaster { child, .. } => {
                s.append(", child_pid: ");
                push_signed_decimal(&mut s, *child as i64);
            },
            _ => {},
        }
        s.append(")");
        s
    }
}

} // verus!

verus! {

/// A queue that replaces its oldest task never grows beyond its size, once it is within it: a
/// full queue of positive size stays full, and any other grows by one.
pub proof fn lemma_replace_oldest_bounded(tasks: Seq<UnixTask>, setup_len: usize, task: UnixTask)
    requires
        tasks.len() <= setup_len,
        setup_len > 0,
    ensures
        replace_oldest(tasks, setup_len, task).len() <= setup_len,
        replace_oldest(tasks, setup_len, task).last() == task,
        tasks.len() < setup_len ==> replace_oldest(tasks, setup_len, task) == tasks.push(task),
{
}

} // verus!
