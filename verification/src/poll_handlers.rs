use vstd::prelude::*;
use crate::errno::{errno_kind, errno_kind_of, ErrnoKind};
use crate::unix_app::{Buffer, BufferView, zeros};
use crate::unix_poll::PollFd;

verus! {

/// The bits of the `poll(2)` events that the handlers look at, and all the bits the platform
/// defines (those of `nix::poll::PollFlags`), as the caller reads them from the platform.
#[derive(Debug, Clone, Copy, PartialEq, Eq, Structural)]
pub struct PollBits {
    pub pollin: i16,
    pub pollout: i16,
    pub pollerr: i16,
    pub pollhup: i16,
    pub pollnval: i16,
    /// Every bit that `nix::poll::PollFlags` knows.
    pub known: i16,
}

/// An event of a descriptor that a handler is called for.
#[derive(Debug, Clone, Copy, PartialEq, Eq, Structural)]
pub enum FdEvent {
    Error,
    Nval,
    Hup,
    In,
}

/// Whether `revents` holds no bit the platform does not know.
pub open spec fn known_revents(revents: i16, bits: PollBits) -> bool {
    revents & !bits.known == 0
}

/// The events a descriptor handler is called for, in the order it is called: error, invalid
/// descriptor, hang-up, then input.
pub open spec fn fd_events(revents: i16, bits: PollBits) -> Seq<FdEvent> {
    (if revents & bits.pollerr != 0 { seq![FdEvent::Error] } else { Seq::empty() })
    + (if revents & bits.pollnval != 0 { seq![FdEvent::Nval] } else { Seq::empty() })
    + (if revents & bits.pollhup != 0 { seq![FdEvent::Hup] } else { Seq::empty() })
    + (if revents & bits.pollin != 0 { seq![FdEvent::In] } else { Seq::empty() })
}

/// The handlers to call for the reported events `revents` of one descriptor, in order. Bits
/// that the platform does not know are refused as `PollFlags::from_bits` refuses them.
pub fn fd_event_order(revents: i16, bits: PollBits) -> (r: Option<Vec<FdEvent>>)
    ensures
        r is Some <==> known_revents(revents, bits),
        r matches Some(v) ==> v@ == fd_events(revents, bits),
{
    if revents & !bits.known != 0 {
        return None;
    }
    let mut v: Vec<FdEvent> = Vec::new();
    if revents & bits.pollerr != 0 {
        v.push(FdEvent::Error);
    }
    if revents & bits.pollnval != 0 {
        v.push(FdEvent::Nval);
    }
    if revents & bits.pollhup != 0 {
        v.push(FdEvent::Hup);
    }
    if revents & bits.pollin != 0 {
        v.push(FdEvent::In);
    }
    assert(v@ == fd_events(revents, bits));
    Some(v)
}

/// The positions of the entries with reported events, in order.
pub open spec fn ready_positions(s: Seq<PollFd>) -> Seq<usize>
    decreases s.len(),
{
    if s.len() == 0 {
        Seq::empty()
    } else if s.last().revents != 0 {
        ready_positions(s.drop_last()).push((s.len() - 1) as usize)
    } else {
        ready_positions(s.drop_last())
    }
}

/// The handler that looks at the outcome of `poll(2)`.
#[derive(Debug, Default)]
pub struct DefaultPollReventMiddleware {}

impl DefaultPollReventMiddleware {
    /// A handler with nothing registered.
    pub fn new() -> (h: Self) {
        DefaultPollReventMiddleware {}
    }

    /// The positions of the descriptors to hand to the descriptor handler: none when `poll(2)`
    /// timed out (no events), otherwise each entry with reported events, in order.
    pub fn handle(&mut self, pollfds: &[PollFd], number_events: i32) -> (r: Vec<usize>)
        ensures
            number_events == 0 ==> r@.len() == 0,
            number_events != 0 ==> r@ == ready_positions(pollfds@),
    {
        let mut r: Vec<usize> = Vec::new();
        if number_events == 0 {
            return r;
        }
        let mut i: usize = 0;
        while i < pollfds.len()
            invariant
                i <= pollfds.len(),
                r@ == ready_positions(pollfds@.take(i as int)),
            decreases pollfds.len() - i,
        {
            assert(pollfds@.take(i + 1).drop_last() == pollfds@.take(i as int));
            if pollfds[i].revents != 0 {
                r.push(i);
            }
            i = i + 1;
        }
        assert(pollfds@.take(pollfds.len() as int) == pollfds@);
        r
    }
}

/// The handler of errors of `poll(2)` itself.
#[derive(Debug, Default)]
pub struct DefaultPollErrorMiddleware {}

impl DefaultPollErrorMiddleware {
    /// A handler of errors of `poll(2)`.
    pub fn new() -> (h: Self) {
        DefaultPollErrorMiddleware {}
    }

    /// Takes in an error of `poll(2)`: an interrupted call is simply polled again, and no other
    /// error changes anything either.
    pub fn handle(&mut self, err: i32) -> (k: ErrnoKind)
        ensures
            k == errno_kind_of(err),
    {
        errno_kind(err)
    }
}

/// The handler of errors of `poll(2)` itself, as the application registers it.
#[derive(Debug)]
pub struct PollErrorMiddleware {}

impl PollErrorMiddleware {
    /// A handler of errors of `poll(2)`.
    pub fn new() -> (h: Self) {
        PollErrorMiddleware {}
    }

    /// Takes in an error of `poll(2)`: an interrupted call is simply polled again, and no other
    /// error changes anything either.
    pub fn handle(&mut self, err: i32) -> (k: ErrnoKind)
        ensures
            k == errno_kind_of(err),
    {
        errno_kind(err)
    }
}

/// The length a buffer is given after a read refused it as an invalid argument: the length it
/// was set up with when it is shorter than that, and twice its length otherwise.
pub open spec fn retry_length(b: BufferView) -> int {
    if b.bytes.len() < b.setup_len {
        b.setup_len as int
    } else {
        (b.bytes.len() * 2) as int
    }
}

/// The buffer after a reallocation to `n` bytes.
pub open spec fn reallocated(b: BufferView, n: usize) -> BufferView {
    BufferView {
        bytes: if n <= b.bytes.len() { b.bytes.subrange(0, n as int) } else { b.bytes + zeros((n - b.bytes.len()) as nat) },
        data_len: if b.data_len > n { 0 } else { b.data_len },
        setup_len: n,
    }
}

/// The handler that reads a descriptor that is ready for reading.
#[derive(Debug, Default)]
pub struct DefaultPollInReadHandler {}

impl DefaultPollInReadHandler {
    /// A reading handler.
    pub fn new() -> (h: Self) {
        DefaultPollInReadHandler {}
    }

    /// Takes in the bytes of a read, or the kind of its error. Data read becomes the buffer's
    /// data and clears the reported events; no data now leaves all as it is; an invalid
    /// argument grows the buffer for the next read; any other error drops the buffer's data.
    /// Only data read counts as a success.
    pub fn read_outcome(&mut self, buf: &mut Buffer, revents: &mut i16, outcome: Result<usize, ErrnoKind>) -> (ok: bool)
        requires
            old(buf)@.bytes.len() * 2 <= usize::MAX,
        ensures
            ok == (outcome is Ok),
            match outcome {
                Ok(n) => final(buf)@ == (BufferView { data_len: n, ..old(buf)@ }) && *final(revents) == 0,
                Err(k) => *final(revents) == *old(revents) && if k is Again {
                    final(buf)@ == old(buf)@
                } else if k is Invalid {
                    final(buf)@ == reallocated(old(buf)@, retry_length(old(buf)@) as usize)
                } else {
                    final(buf)@ == (BufferView { data_len: 0, ..old(buf)@ })
                },
            },
    {
        match outcome {
            Ok(n) => {
                buf.set_data_len(n);
                *revents = 0;
                true
            },
            Err(ErrnoKind::Again) => false,
            Err(ErrnoKind::Invalid) => {
                let setting_len = buf.get_setting_len();
                let buffer_len = buf.get_buffer_len();
                let new_buffer_len = if buffer_len < setting_len {
                    setting_len
                } else {
                    buffer_len * 2
                };
                buf.reallocate(new_buffer_len);
                false
            },
            Err(_) => {
                buf.set_data_len(0);
                false
            },
        }
    }

    /// Takes in the outcome of a read into the buffer of a descriptor that `poll(2)` reported
    /// ready: the number of bytes read, or the error number.
    pub fn read(&mut self, buf: &mut Buffer, revents: &mut i16, outcome: Result<usize, i32>) -> (ok: bool)
        requires
            old(buf)@.bytes.len() * 2 <= usize::MAX,
        ensures
            ok == (outcome is Ok),
            match outcome {
                Ok(n) => final(buf)@ == (BufferView { data_len: n, ..old(buf)@ }) && *final(revents) == 0,
                Err(code) => *final(revents) == *old(revents) && {
                    let k = errno_kind_of(code);
                    if k is Again {
                        final(buf)@ == old(buf)@
                    } else if k is Invalid {
                        final(buf)@ == reallocated(old(buf)@, retry_length(old(buf)@) as usize)
                    } else {
                        final(buf)@ == (BufferView { data_len: 0, ..old(buf)@ })
                    }
                },
            },
    {
        let o = match outcome {
            Ok(n) => Ok(n),
            Err(code) => Err(errno_kind(code)),
        };
        self.read_outcome(buf, revents, o)
    }
}

/// The handler of a descriptor that is ready for writing: it writes nothing.
#[derive(Debug, Default)]
pub struct DefaultPollOutHandler {}

impl DefaultPollOutHandler {
    /// A writing handler.
    pub fn new() -> (h: Self) {
        DefaultPollOutHandler {}
    }

    /// Writes nothing to `fd`, and says so.
    pub fn write(&mut self, fd: i32) -> (ok: bool)
        ensures
            !ok,
    {
        false
    }
}

/// The handler of an error reported on a descriptor: it only takes note.
#[derive(Debug, Default)]
pub struct DefaultPollErrHandler {}

impl DefaultPollErrHandler {
    /// An error handler.
    pub fn new() -> (h: Self) {
        DefaultPollErrHandler {}
    }
}

/// The handler of an invalid descriptor: it only takes note.
#[derive(Debug, Default)]
pub struct DefaultPollNvalHandler {}

impl DefaultPollNvalHandler {
    /// An invalid-descriptor handler.
    pub fn new() -> (h: Self) {
        DefaultPollNvalHandler {}
    }
}

/// The handler of a hang-up: it only takes note.
#[derive(Debug, Default)]
pub struct DefaultPollHupHandler {}

impl DefaultPollHupHandler {
    /// A hang-up handler.
    pub fn new() -> (h: Self) {
        DefaultPollHupHandler {}
    }
}

} // verus!
