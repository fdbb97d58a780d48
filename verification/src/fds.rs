use vstd::prelude::*;

use crate::keypress::TermFlags;
use crate::unix_poll::PollFd;

verus! {

/// A descriptor of the poll list, held by its number, with the events polled for.
#[derive(Debug, Clone, Copy, PartialEq, Eq, Structural)]
pub enum Fd {
    Signal { fd: i32, events: i16 },
    /// Standard input, with the terminal mode it had before the keypress mode was set.
    Stdin { fd: i32, events: i16, termios: TermFlags },
    Stdout { fd: i32, events: i16 },
    /// The two sides of a pseudo-terminal and the child process on it; the master side is
    /// polled.
    PtyMaster { master: i32, slave: i32, events: i16, child: i32 },
}

impl Fd {
    /// The number of the descriptor polled.
    pub open spec fn raw_fd(self) -> i32 {
        match self {
            Fd::Signal { fd, .. } => fd,
            Fd::Stdin { fd, .. } => fd,
            Fd::Stdout { fd, .. } => fd,
            Fd::PtyMaster { master, .. } => master,
        }
    }

    /// The events polled for.
    pub open spec fn events_of(self) -> i16 {
        match self {
            Fd::Signal { events, .. } => events,
            Fd::Stdin { events, .. } => events,
            Fd::Stdout { events, .. } => events,
            Fd::PtyMaster { events, .. } => events,
        }
    }

    /// Whether data may be sent to the descriptor: not to the signal descriptor nor to
    /// standard input, which are only read.
    pub open spec fn spec_accepts_writes(self) -> bool {
        !(self is Signal) && !(self is Stdin)
    }

    /// The number of the descriptor polled.
    pub fn as_raw_fd(&self) -> (r: i32)
        ensures
            r == self.raw_fd(),
    {
        match self {
            Fd::Signal { fd, .. } => *fd,
            Fd::Stdin { fd, .. } => *fd,
            Fd::Stdout { fd, .. } => *fd,
            Fd::PtyMaster { master, .. } => *master,
        }
    }

    /// The events polled for.
    pub fn events(&self) -> (r: &i16)
        ensures
            *r == self.events_of(),
    {
        match self {
            Fd::Signal { events, .. } => events,
            Fd::Stdin { events, .. } => events,
            Fd::Stdout { events, .. } => events,
            Fd::PtyMaster { events, .. } => events,
        }
    }

    /// Whether data may be sent to the descriptor (see `spec_accepts_writes`).
    pub fn accepts_writes(&self) -> (b: bool)
        ensures
            b == self.spec_accepts_writes(),
    {
        match self {
            Fd::Signal { .. } => false,
            Fd::Stdin { .. } => false,
            _ => true,
        }
    }
}

/// The entry of the kernel's poll list for a descriptor, with no event reported yet.
pub open spec fn pollfd_of(f: Fd) -> PollFd {
    PollFd { fd: f.raw_fd(), events: f.events_of(), revents: 0 }
}

/// The poll list of a sequence of descriptors, in order.
pub open spec fn pollfds_of(s: Seq<Fd>) -> Seq<PollFd> {
    s.map_values(|f: Fd| pollfd_of(f))
}

/// The list of descriptors polled, with the poll list built from it (kept until the list of
/// descriptors changes) and the positions of the signal descriptor, standard input and
/// standard output, as they were when each was added.
#[derive(Debug)]
pub struct Fds {
    inner: Vec<Fd>,
    pollfds: Vec<PollFd>,
    pollfds_built: bool,
    signalfd_index: Option<usize>,
    stdin_index: Option<usize>,
    stdout_index: Option<usize>,
}

/// What a list of descriptors holds.
pub struct FdsView {
    pub fds: Seq<Fd>,
    /// The poll list, when it has been built since the last change of `fds`.
    pub cache: Option<Seq<PollFd>>,
    pub signal: Option<usize>,
    pub stdin: Option<usize>,
    pub stdout: Option<usize>,
}

impl View for Fds {
    type V = FdsView;

    closed spec fn view(&self) -> FdsView {
        FdsView {
            fds: self.inner@,
            cache: if self.pollfds_built { Some(self.pollfds@) } else { None },
            signal: self.signalfd_index,
            stdin: self.stdin_index,
            stdout: self.stdout_index,
        }
    }
}

/// The list after `f` is added at its end: the poll list is dropped, the positions kept.
pub open spec fn pushed(v: FdsView, f: Fd) -> FdsView {
    FdsView { fds: v.fds.push(f), cache: None, ..v }
}

/// The list after the descriptor at `slot`, if any, is taken out: the slot is emptied and
/// the poll list dropped; the other positions stay as they are.
pub open spec fn removed_at(v: FdsView, slot: Option<usize>) -> Seq<Fd> {
    match slot {
        Some(i) => v.fds.remove(i as int),
        None => v.fds,
    }
}

/// The position of the last descriptor numbered `raw_fd`.
pub open spec fn is_last_with_fd(s: Seq<Fd>, raw_fd: i32, i: int) -> bool {
    &&& 0 <= i < s.len()
    &&& s[i].raw_fd() == raw_fd
    &&& forall|j: int| i < j < s.len() ==> (#[trigger] s[j]).raw_fd() != raw_fd
}

/// The position of the first entry of a poll list for the descriptor numbered `raw_fd`.
pub open spec fn is_first_entry(c: Seq<PollFd>, raw_fd: i32, p: int) -> bool {
    &&& 0 <= p < c.len()
    &&& c[p].fd == raw_fd
    &&& forall|j: int| 0 <= j < p ==> (#[trigger] c[j]).fd != raw_fd
}

/// Whether the poll list reports an event for the descriptor at position `i`: its first entry
/// in the list has a nonzero `revents`.
pub open spec fn reports(s: Seq<Fd>, c: Seq<PollFd>, i: int) -> bool {
    exists|p: int| is_first_entry(c, s[i].raw_fd(), p) && #[trigger] c[p].revents != 0
}

/// The poll list as it is, or built from the descriptors when it has not been.
pub open spec fn current_pollfds(v: FdsView) -> Seq<PollFd> {
    match v.cache {
        Some(c) => c,
        None => pollfds_of(v.fds),
    }
}

impl Fds {
    /// An empty list.
    pub fn new() -> (r: Self)
        ensures
            r@.fds == Seq::<Fd>::empty(),
            r@.cache is None,
            r@.signal is None,
            r@.stdin is None,
            r@.stdout is None,
    {
        Fds {
            inner: Vec::new(),
            pollfds: Vec::new(),
            pollfds_built: false,
            signalfd_index: None,
            stdin_index: None,
            stdout_index: None,
        }
    }

    /// Number of descriptors in the list.
    pub fn len(&self) -> (n: usize)
        ensures
            n == self@.fds.len(),
    {
        self.inner.len()
    }

    /// Whether the list holds no descriptor.
    pub fn is_empty(&self) -> (b: bool)
        ensures
            b == (self@.fds.len() == 0),
    {
        self.len() == 0
    }

    /// The descriptor at `index`, if there is one.
    pub fn get_fd_by_index(&self, index: usize) -> (r: Option<&Fd>)
        ensures
            index < self@.fds.len() ==> r == Some(&self@.fds[index as int]),
            index >= self@.fds.len() ==> r is None,
    {
        if index < self.inner.len() {
            Some(&self.inner[index])
        } else {
            None
        }
    }

    /// The last descriptor numbered `raw_fd`, if there is one.
    pub fn get_fd_by_raw_fd(&self, raw_fd: i32) -> (r: Option<&Fd>)
        ensures
            r matches Some(f) ==> exists|i: int| is_last_with_fd(self@.fds, raw_fd, i) && *f == #[trigger] self@.fds[i],
            r is None ==> forall|i: int| 0 <= i < self@.fds.len() ==> (#[trigger] self@.fds[i]).raw_fd() != raw_fd,
    {
        let mut i: usize = self.inner.len();
        while i > 0
            invariant
                i <= self@.fds.len(),
                self@.fds == self.inner@,
                forall|j: int| i <= j < self@.fds.len() ==> (#[trigger] self@.fds[j]).raw_fd() != raw_fd,
            decreases i,
        {
            i = i - 1;
            if self.inner[i].as_raw_fd() == raw_fd {
                assert(is_last_with_fd(self@.fds, raw_fd, i as int));
                return Some(&self.inner[i]);
            }
        }
        None
    }

    /// The poll list: built from the descriptors, each with no event reported, when it has
    /// not been built since the list last changed; otherwise the one kept, as the last poll
    /// left it.
    pub fn as_pollfds(&mut self) -> (r: &mut Vec<PollFd>)
        ensures
            r@ == current_pollfds(old(self)@),
            final(self)@ == (FdsView { cache: Some(final(r)@), ..old(self)@ }),
    {
        if !self.pollfds_built {
            let mut fds: Vec<PollFd> = Vec::new();
            let mut i: usize = 0;
            while i < self.inner.len()
                invariant
                    i <= self.inner@.len(),
                    fds@ == pollfds_of(self.inner@.take(i as int)),
                decreases self.inner@.len() - i,
            {
                let f = &self.inner[i];
                let entry = PollFd { fd: f.as_raw_fd(), events: *f.events(), revents: 0 };
                assert(pollfds_of(self.inner@.take(i as int + 1)) =~= pollfds_of(self.inner@.take(i as int)).push(entry));
                fds.push(entry);
                i = i + 1;
            }
            assert(self.inner@.take(self.inner@.len() as int) =~= self.inner@);
            self.pollfds = fds;
            self.pollfds_built = true;
        }
        &mut self.pollfds
    }

    /// Adds `new_fd` at the end of the list; the poll list is built again when next asked for.
    pub fn push_fd(&mut self, new_fd: Fd)
        ensures
            final(self)@ == pushed(old(self)@, new_fd),
    {
        self.inner.push(new_fd);
        self.pollfds_built = false;
    }

    /// Adds a pseudo-terminal: its master and slave sides and the child process on it.
    pub fn push_pty_fd(&mut self, master: i32, slave: i32, child: i32, events: i16)
        ensures
            final(self)@ == pushed(old(self)@, Fd::PtyMaster { master, slave, events, child }),
    {
        self.push_fd(Fd::PtyMaster { master, slave, events, child });
    }

    /// Adds the signal descriptor and remembers its position.
    pub fn push_signal_fd(&mut self, signal_fd: i32, events: i16)
        requires
            old(self)@.fds.len() < usize::MAX,
        ensures
            final(self)@ == (FdsView {
                signal: Some(old(self)@.fds.len() as usize),
                ..pushed(old(self)@, Fd::Signal { fd: signal_fd, events })
            }),
    {
        self.push_fd(Fd::Signal { fd: signal_fd, events });
        self.signalfd_index = Some(self.inner.len() - 1);
    }

    /// Adds standard output and remembers its position.
    pub fn push_stdout_fd(&mut self, stdout: i32, events: i16)
        requires
            old(self)@.fds.len() < usize::MAX,
        ensures
            final(self)@ == (FdsView {
                stdout: Some(old(self)@.fds.len() as usize),
                ..pushed(old(self)@, Fd::Stdout { fd: stdout, events })
            }),
    {
        self.push_fd(Fd::Stdout { fd: stdout, events });
        self.stdout_index = Some(self.inner.len() - 1);
    }

    /// Adds standard input, with its terminal mode, and remembers its position.
    pub fn push_stdin_fd(&mut self, stdin: i32, termios: TermFlags, events: i16)
        requires
            old(self)@.fds.len() < usize::MAX,
        ensures
            final(self)@ == (FdsView {
                stdin: Some(old(self)@.fds.len() as usize),
                ..pushed(old(self)@, Fd::Stdin { fd: stdin, events, termios })
            }),
    {
        self.push_fd(Fd::Stdin { fd: stdin, termios, events });
        self.stdin_index = Some(self.inner.len() - 1);
    }

    /// Takes out the descriptor at the position remembered for the signal descriptor, if one
    /// is, and forgets the position. The other positions are left as they are, even where
    /// they now point one place too far.
    pub fn remove_signal_fd(&mut self)
        requires
            old(self)@.signal matches Some(i) ==> i < old(self)@.fds.len(),
        ensures
            old(self)@.signal is None ==> final(self)@ == old(self)@,
            old(self)@.signal is Some ==> final(self)@ == (FdsView {
                fds: removed_at(old(self)@, old(self)@.signal),
                cache: None,
                signal: None,
                ..old(self)@
            }),
    {
        if let Some(index) = self.signalfd_index {
            self.inner.remove(index);
            self.signalfd_index = None;
            self.pollfds_built = false;
        }
    }

    /// Takes out the descriptor at the position remembered for standard input, if one is,
    /// and forgets the position.
    pub fn remove_stdin_fd(&mut self)
        requires
            old(self)@.stdin matches Some(i) ==> i < old(self)@.fds.len(),
        ensures
            old(self)@.stdin is None ==> final(self)@ == old(self)@,
            old(self)@.stdin is Some ==> final(self)@ == (FdsView {
                fds: removed_at(old(self)@, old(self)@.stdin),
                cache: None,
                stdin: None,
                ..old(self)@
            }),
    {
        if let Some(index) = self.stdin_index {
            self.inner.remove(index);
            self.stdin_index = None;
            self.pollfds_built = false;
        }
    }

    /// Takes out the descriptor at the position remembered for standard output, if one is,
    /// and forgets the position.
    pub fn remove_stdout_fd(&mut self)
        requires
            old(self)@.stdout matches Some(i) ==> i < old(self)@.fds.len(),
        ensures
            old(self)@.stdout is None ==> final(self)@ == old(self)@,
            old(self)@.stdout is Some ==> final(self)@ == (FdsView {
                fds: removed_at(old(self)@, old(self)@.stdout),
                cache: None,
                stdout: None,
                ..old(self)@
            }),
    {
        if let Some(index) = self.stdout_index {
            self.inner.remove(index);
            self.stdout_index = None;
            self.pollfds_built = false;
        }
    }

    /// Takes out a descriptor according to the kind of the last one: a pseudo-terminal is
    /// dropped from the end; for the signal descriptor, standard input or standard output, the
    /// descriptor at the position remembered for that kind is taken out (see
    /// `remove_signal_fd`). An empty list stays as it is.
    pub fn pop_fd(&mut self)
        requires
            old(self)@.fds.len() > 0 ==> match old(self)@.fds.last() {
                Fd::Signal { .. } => old(self)@.signal matches Some(i) ==> i < old(self)@.fds.len(),
                Fd::Stdin { .. } => old(self)@.stdin matches Some(i) ==> i < old(self)@.fds.len(),
                Fd::Stdout { .. } => old(self)@.stdout matches Some(i) ==> i < old(self)@.fds.len(),
                Fd::PtyMaster { .. } => true,
            },
        ensures
            old(self)@.fds.len() == 0 ==> final(self)@ == old(self)@,
            old(self)@.fds.len() > 0 ==> match old(self)@.fds.last() {
                Fd::Signal { .. } => if old(self)@.signal is Some {
                    final(self)@ == (FdsView {
                        fds: removed_at(old(self)@, old(self)@.signal),
                        cache: None,
                        signal: None,
                        ..old(self)@
                    })
                } else {
                    final(self)@ == old(self)@
                },
                Fd::Stdin { .. } => if old(self)@.stdin is Some {
                    final(self)@ == (FdsView {
                        fds: removed_at(old(self)@, old(self)@.stdin),
                        cache: None,
                        stdin: None,
                        ..old(self)@
                    })
                } else {
                    final(self)@ == old(self)@
                },
                Fd::Stdout { .. } => if old(self)@.stdout is Some {
                    final(self)@ == (FdsView {
                        fds: removed_at(old(self)@, old(self)@.stdout),
                        cache: None,
                        stdout: None,
                        ..old(self)@
                    })
                } else {
                    final(self)@ == old(self)@
                },
                Fd::PtyMaster { .. } => final(self)@ == (FdsView {
                    fds: old(self)@.fds.drop_last(),
                    cache: None,
                    ..old(self)@
                }),
            },
    {
        let n = self.inner.len();
        if n > 0 {
            match self.inner[n - 1] {
                Fd::Signal { .. } => self.remove_signal_fd(),
                Fd::Stdin { .. } => self.remove_stdin_fd(),
                Fd::Stdout { .. } => self.remove_stdout_fd(),
                Fd::PtyMaster { .. } => {
                    self.inner.pop();
                    self.pollfds_built = false;
                },
            }
        }
    }
}

/// The list after a walk over the reported events has gone past position `start` or found
/// nothing to go past: its poll list is built, unless the walk started at the end.
pub open spec fn walked(v: FdsView, start: usize, cache: Seq<PollFd>) -> FdsView {
    if start < v.fds.len() {
        FdsView { cache: Some(cache), ..v }
    } else {
        v
    }
}

/// A walk over the descriptors for which the last poll reported an event, in the order of
/// the list.
#[derive(Debug)]
pub struct PollReventIterator {
    index: usize,
}

impl PollReventIterator {
    /// The position the walk goes on from.
    pub closed spec fn position(&self) -> usize {
        self.index
    }

    /// The next descriptor, from the current position on, whose first entry in the poll list
    /// reports an event, with its position. The event is cleared, so that each one is handed
    /// out once, and the walk goes on after it. When there is none, the walk ends.
    pub fn next(&mut self, fds: &mut Fds) -> (r: Option<(Fd, usize)>)
        ensures
            final(fds)@.fds == old(fds)@.fds,
            final(fds)@.signal == old(fds)@.signal,
            final(fds)@.stdin == old(fds)@.stdin,
            final(fds)@.stdout == old(fds)@.stdout,
            ({
                let s = old(fds)@.fds;
                let c = current_pollfds(old(fds)@);
                let start = old(self).position();
                match r {
                    None => {
                        &&& forall|j: int| start <= j < s.len() ==> !reports(s, c, j)
                        &&& final(fds)@ == walked(old(fds)@, start, c)
                        &&& final(self).position() == if start < s.len() { s.len() as usize } else { start }
                    },
                    Some((f, i)) => {
                        &&& start <= i < s.len()
                        &&& f == s[i as int]
                        &&& reports(s, c, i as int)
                        &&& forall|j: int| start <= j < i ==> !reports(s, c, j)
                        &&& final(self).position() == i + 1
                        &&& exists|p: int| #[trigger] is_first_entry(c, f.raw_fd(), p)
                            && final(fds)@.cache == Some(c.update(p, PollFd { revents: 0, ..c[p] }))
                    },
                }
            }),
    {
        let ghost s = old(fds)@.fds;
        let ghost c = current_pollfds(old(fds)@);
        let ghost start = self.index;
        let len = fds.len();
        while self.index < len
            invariant
                len == s.len(),
                start == old(self).position(),
                start <= self.index,
                start < len ==> self.index <= len,
                start >= len ==> self.index == start,
                c == current_pollfds(old(fds)@),
                s == old(fds)@.fds,
                fds@ == if self.index > start { walked(old(fds)@, start, c) } else { old(fds)@ },
                forall|j: int| start <= j < self.index ==> !reports(s, c, j),
            decreases len - self.index,
        {
            let index = self.index;
            self.index = index + 1;
            let f: Fd = match fds.get_fd_by_index(index) {
                Some(x) => *x,
                None => {
                    return None;
                },
            };
            let raw = f.as_raw_fd();
            let pollfds = fds.as_pollfds();
            let mut p: usize = 0;
            while p < pollfds.len() && pollfds[p].fd != raw
                invariant
                    p <= pollfds@.len(),
                    pollfds@ == c,
                    forall|j: int| 0 <= j < p ==> (#[trigger] c[j]).fd != raw,
                decreases pollfds@.len() - p,
            {
                p = p + 1;
            }
            if p < pollfds.len() && pollfds[p].revents != 0 {
                assert(is_first_entry(c, raw, p as int));
                let cleared = PollFd { revents: 0, ..pollfds[p] };
                pollfds.set(p, cleared);
                return Some((f, index));
            }
            assert(!reports(s, c, index as int)) by {
                if reports(s, c, index as int) {
                    let q = choose|q: int| is_first_entry(c, s[index as int].raw_fd(), q) && #[trigger] c[q].revents != 0;
                    if q < p {
                    } else if q > p {
                        assert(c[p as int].fd == raw);
                    }
                }
            }
        }
        None
    }
}

/// A walk over all the descriptors of a poller, in order.
#[derive(Debug)]
pub struct FdsIterator {
    index: usize,
}

impl FdsIterator {
    /// The position the walk goes on from.
    pub closed spec fn position(&self) -> usize {
        self.index
    }

    /// The descriptor at the current position, and the walk moves past it; `None` at the end.
    pub fn next(&mut self, poller: &Poller) -> (r: Option<Fd>)
        ensures
            old(self).position() < poller.fds@.fds.len() ==> r == Some(poller.fds@.fds[old(self).position() as int])
                && final(self).position() == old(self).position() + 1,
            old(self).position() >= poller.fds@.fds.len() ==> r is None && final(self).position() == old(self).position(),
    {
        if self.index < poller.fds.len() {
            let res = match poller.fds.get_fd_by_index(self.index) {
                Some(f) => *f,
                None => {
                    return None;
                },
            };
            self.index = self.index + 1;
            Some(res)
        } else {
            None
        }
    }
}

/// The descriptors polled, with the timeout of each poll in milliseconds.
#[derive(Debug)]
pub struct Poller {
    pub fds: Fds,
    pub poll_timeout: i32,
}

impl Poller {
    /// A poller with no descriptor.
    pub fn new(poll_timeout: i32) -> (r: Self)
        ensures
            r.fds@.fds == Seq::<Fd>::empty(),
            r.fds@.cache is None,
            r.fds@.signal is None,
            r.fds@.stdin is None,
            r.fds@.stdout is None,
            r.poll_timeout == poll_timeout,
    {
        Poller { fds: Fds::new(), poll_timeout }
    }

    /// A walk over the reported events, from the first descriptor.
    pub fn revent_iter(&self) -> (r: PollReventIterator)
        ensures
            r.position() == 0,
    {
        PollReventIterator { index: 0 }
    }

    /// A walk over all the descriptors, from the first.
    pub fn iter(&self) -> (r: FdsIterator)
        ensures
            r.position() == 0,
    {
        FdsIterator { index: 0 }
    }
}

} // verus!

verus! {

/// Adding the signal descriptor and then taking it out leaves the list of descriptors as it
/// was, with no position remembered for the signal descriptor and no poll list kept.
pub proof fn lemma_signal_push_remove(v: FdsView, fd: i32, events: i16)
    requires
        v.fds.len() < usize::MAX,
    ensures
        ({
            let added = FdsView { signal: Some(v.fds.len() as usize), ..pushed(v, Fd::Signal { fd, events }) };
            FdsView { fds: removed_at(added, added.signal), cache: None, signal: None, ..added }
                == FdsView { cache: None, signal: None, ..v }
        }),
{
    let added = FdsView { signal: Some(v.fds.len() as usize), ..pushed(v, Fd::Signal { fd, events }) };
    assert(added.fds.remove(v.fds.len() as int) =~= v.fds);
}

/// Once the walk over the reported events has handed out a descriptor and cleared its entry
/// in the poll list, that list no longer reports an event for it.
pub proof fn lemma_handed_out_event_cleared(s: Seq<Fd>, c: Seq<PollFd>, i: int, p: int)
    requires
        0 <= i < s.len(),
        is_first_entry(c, s[i].raw_fd(), p),
    ensures
        !reports(s, c.update(p, PollFd { revents: 0, ..c[p] }), i),
{
    let c2 = c.update(p, PollFd { revents: 0, ..c[p] });
    if reports(s, c2, i) {
        let q = choose|q: int| is_first_entry(c2, s[i].raw_fd(), q) && #[trigger] c2[q].revents != 0;
        if q < p {
            assert(c2[q] == c[q]);
        } else if q > p {
            assert(c2[p].fd == s[i].raw_fd());
        }
    }
}

} // verus!
