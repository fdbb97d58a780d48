use vstd::prelude::*;
use std::collections::HashMap;

verus! {

broadcast use vstd::std_specs::hash::group_hash_axioms;

/// One entry of the poll set, laid out as the kernel's `pollfd`.
#[derive(Debug, Clone, Copy, PartialEq, Eq)]
pub struct PollFd {
    pub fd: i32,
    pub events: i16,
    pub revents: i16,
}

/// Whether some entry of `s` watches `fd`.
pub open spec fn watches(s: Seq<PollFd>, fd: i32) -> bool {
    exists|i: int| 0 <= i < s.len() && #[trigger] s[i].fd == fd
}

/// `t` is `s` with the reported events of the entry of `fd` cleared; `s` itself when no entry
/// watches `fd`.
pub open spec fn revents_cleared(s: Seq<PollFd>, fd: i32, t: Seq<PollFd>) -> bool {
    if watches(s, fd) {
        exists|i: int| 0 <= i < s.len() && s[i].fd == fd && t == s.update(i, (PollFd { revents: 0, ..s[i] }))
    } else {
        t == s
    }
}

/// `t` is `s` with the entry of `fd` replaced by the last entry and the last dropped; `s`
/// itself when no entry watches `fd`.
pub open spec fn fd_removed(s: Seq<PollFd>, fd: i32, t: Seq<PollFd>) -> bool {
    if watches(s, fd) {
        exists|i: int| 0 <= i < s.len() && s[i].fd == fd && t == s.update(i, s.last()).drop_last()
    } else {
        t == s
    }
}

/// No descriptor is watched twice.
pub open spec fn distinct_fds(s: Seq<PollFd>) -> bool {
    forall|i: int, j: int| 0 <= i < s.len() && 0 <= j < s.len() && i != j ==> #[trigger] s[i].fd != #[trigger] s[j].fd
}

/// The `(fd, revents)` pairs of the entries whose `revents` is not zero, in poll-set order.
pub open spec fn ready_entries(s: Seq<PollFd>) -> Seq<(i32, i16)>
    decreases s.len(),
{
    if s.len() == 0 {
        Seq::empty()
    } else {
        let rest = ready_entries(s.drop_last());
        let last = s.last();
        if last.revents != 0 {
            rest.push((last.fd, last.revents))
        } else {
            rest
        }
    }
}

/// The set of descriptors handed to `poll(2)`, with the timeout and the result of the last call.
///
/// Besides the array itself it keeps an index from descriptor to position, so that lookups by
/// descriptor do not scan the array.
#[derive(Debug)]
pub struct UnixPoll {
    fds: Vec<PollFd>,
    fds_map: HashMap<i32, usize>,
    timeout: i32,
    result: i32,
}

impl UnixPoll {
    /// The entries of the poll set, in the order they are handed to `poll(2)`.
    pub closed spec fn entries(&self) -> Seq<PollFd> {
        self.fds@
    }

    /// The timeout, in milliseconds, handed to `poll(2)`.
    pub closed spec fn spec_timeout(&self) -> i32 {
        self.timeout
    }

    /// The result stored from the last call of `poll(2)`.
    pub closed spec fn spec_result(&self) -> i32 {
        self.result
    }

    /// The index agrees with the array: each descriptor of the array maps to its position,
    /// and the index holds nothing else.
    #[verifier::type_invariant]
    pub closed spec fn wf(self) -> bool {
        &&& forall|i: int|
            0 <= i < self.fds@.len() ==> self.fds_map@.contains_key(#[trigger] self.fds@[i].fd)
                && self.fds_map@[self.fds@[i].fd] == i
        &&& forall|fd: i32|
            #[trigger] self.fds_map@.contains_key(fd) ==> self.fds_map@[fd] < self.fds@.len()
                && self.fds@[self.fds_map@[fd] as int].fd == fd
    }

    /// A well-formed poll set never watches a descriptor twice.
    pub proof fn lemma_wf_distinct(&self)
        requires
            self.wf(),
        ensures
            distinct_fds(self.entries()),
    {
        assert forall|i: int, j: int|
            0 <= i < self.fds@.len() && 0 <= j < self.fds@.len() && i != j implies
            #[trigger] self.fds@[i].fd != #[trigger] self.fds@[j].fd by {
            if self.fds@[i].fd == self.fds@[j].fd {
                assert(self.fds_map@[self.fds@[i].fd] == i);
                assert(self.fds_map@[self.fds@[j].fd] == j);
            }
        }
    }

    /// Takes the array and the index out, leaving an empty poll set with the same timeout and
    /// result; the caller puts a consistent pair back.
    fn take_parts(&mut self) -> (r: (Vec<PollFd>, HashMap<i32, usize>))
        ensures
            r.0@ == old(self).fds@,
            r.1@ == old(self).fds_map@,
            final(self).fds@.len() == 0,
            final(self).timeout == old(self).timeout,
            final(self).result == old(self).result,
    {
        let mut parts = UnixPoll { fds: Vec::new(), fds_map: HashMap::new(), timeout: self.timeout, result: self.result };
        std::mem::swap(&mut parts, self);
        let UnixPoll { fds, fds_map, timeout: _, result: _ } = parts;
        (fds, fds_map)
    }

    /// Creates an empty poll set with the given timeout.
    pub fn new(timeout: i32) -> (r: Self)
        ensures
            r.entries() == Seq::<PollFd>::empty(),
            r.spec_timeout() == timeout,
            r.spec_result() == 0,
    {
        Self { fds: Vec::new(), fds_map: HashMap::new(), timeout, result: 0 }
    }

    /// Creates an empty poll set with room reserved for `capacity` descriptors.
    pub fn with_capacity(timeout: i32, capacity: usize) -> (r: Self)
        ensures
            r.entries() == Seq::<PollFd>::empty(),
            r.spec_timeout() == timeout,
            r.spec_result() == 0,
    {
        Self {
            fds: Vec::with_capacity(capacity),
            fds_map: HashMap::with_capacity(capacity),
            timeout,
            result: 0,
        }
    }

    /// Position of `fd` in the poll set, found through the index.
    fn lookup(&self, fd: i32) -> (r: Option<usize>)
        ensures
            r is None <==> !watches(self.entries(), fd),
            r matches Some(i) ==> i < self.entries().len() && self.entries()[i as int].fd == fd,
    {
        proof {
            use_type_invariant(self);
        }
        match self.fds_map.get(&fd) {
            Some(i) => Some(*i),
            None => {
                assert forall|i: int| 0 <= i < self.fds@.len() implies #[trigger] self.fds@[i].fd != fd by {
                    assert(self.fds_map@.contains_key(self.fds@[i].fd));
                }
                None
            },
        }
    }

    /// Adds `fd`, watched for `events`, at the end of the poll set.
    ///
    /// Returns `false`, and changes nothing, when `fd` is already watched.
    pub fn add_fd(&mut self, fd: i32, events: i16) -> (added: bool)
        requires
            old(self).entries().len() < usize::MAX,
        ensures
            added == !watches(old(self).entries(), fd),
            added ==> final(self).entries() == old(self).entries().push(
                (PollFd { fd, events, revents: 0 }),
            ),
            !added ==> final(self).entries() == old(self).entries(),
            final(self).spec_timeout() == old(self).spec_timeout(),
            final(self).spec_result() == old(self).spec_result(),
    {
        proof {
            use_type_invariant(&*self);
        }
        if self.lookup(fd).is_some() {
            return false;
        }
        let ghost old_fds = self.fds@;
        let ghost old_map = self.fds_map@;
        let (mut fds, mut fds_map) = self.take_parts();
        let pollfd = PollFd { fd, events, revents: 0 };
        fds.push(pollfd);
        let index = fds.len() - 1;
        fds_map.insert(fd, index);
        assert forall|i: int| 0 <= i < fds@.len() implies fds_map@.contains_key(
            #[trigger] fds@[i].fd,
        ) && fds_map@[fds@[i].fd] == i by {
            if i < old_fds.len() {
                assert(old_fds[i] == fds@[i]);
                assert(old_map.contains_key(old_fds[i].fd));
            }
        }
        *self = UnixPoll { fds, fds_map, timeout: self.timeout, result: self.result };
        true
    }

    /// Same as `add_fd`.
    pub fn add_fd_with_fallback(&mut self, fd: i32, events: i16) -> (added: bool)
        requires
            old(self).entries().len() < usize::MAX,
        ensures
            added == !watches(old(self).entries(), fd),
            added ==> final(self).entries() == old(self).entries().push(
                (PollFd { fd, events, revents: 0 }),
            ),
            !added ==> final(self).entries() == old(self).entries(),
            final(self).spec_timeout() == old(self).spec_timeout(),
            final(self).spec_result() == old(self).spec_result(),
    {
        self.add_fd(fd, events)
    }

    /// Stops watching `fd`: its entry is replaced by the last entry of the poll set, as
    /// `Vec::swap_remove` does.
    ///
    /// Returns `false`, and changes nothing, when `fd` is not watched.
    pub fn remove_fd(&mut self, fd: i32) -> (removed: bool)
        ensures
            removed == watches(old(self).entries(), fd),
            removed ==> exists|i: int|
                0 <= i < old(self).entries().len() && old(self).entries()[i].fd == fd
                    && final(self).entries() == old(self).entries().update(
                    i,
                    old(self).entries().last(),
                ).drop_last(),
            !removed ==> final(self).entries() == old(self).entries(),
            final(self).spec_timeout() == old(self).spec_timeout(),
            final(self).spec_result() == old(self).spec_result(),
    {
        proof {
            use_type_invariant(&*self);
        }
        let found = self.lookup(fd);
        match found {
            None => false,
            Some(index) => {
                let ghost old_fds = self.fds@;
                let ghost old_map = self.fds_map@;
                proof {
                    self.lemma_wf_distinct();
                }
                let (mut fds, mut fds_map) = self.take_parts();
                fds_map.remove(&fd);
                fds.swap_remove(index);
                if index < fds.len() {
                    let moved_fd = fds[index].fd;
                    fds_map.insert(moved_fd, index);
                }
                let ghost last = old_fds.len() - 1;
                assert forall|i: int| 0 <= i < fds@.len() implies fds_map@.contains_key(
                    #[trigger] fds@[i].fd,
                ) && fds_map@[fds@[i].fd] == i by {
                    if i != index {
                        assert(fds@[i] == old_fds[i]);
                        assert(old_map.contains_key(old_fds[i].fd));
                        assert(old_fds[i].fd != fd);
                    }
                }
                assert forall|k: i32| #[trigger] fds_map@.contains_key(k) implies fds_map@[k]
                    < fds@.len() && fds@[fds_map@[k] as int].fd == k by {
                    if index < fds@.len() && k == fds@[index as int].fd {
                    } else {
                        assert(old_map.contains_key(k));
                        assert(k != fd);
                        let j = old_map[k] as int;
                        assert(old_fds[j].fd == k);
                        if j == last {
                            assert(old_fds[last] == fds@[index as int]);
                        }
                    }
                }
                *self = UnixPoll { fds, fds_map, timeout: self.timeout, result: self.result };
                true
            },
        }
    }

    /// A copy of the entries of the poll set.
    pub fn fds(&self) -> (r: Vec<PollFd>)
        ensures
            r@ == self.entries(),
    {
        self.fds.clone()
    }

    /// Number of watched descriptors.
    pub fn len(&self) -> (n: usize)
        ensures
            n == self.entries().len(),
    {
        self.fds.len()
    }

    /// Whether no descriptor is watched.
    pub fn is_empty(&self) -> (b: bool)
        ensures
            b == (self.entries().len() == 0),
    {
        self.fds.len() == 0
    }

    /// Changes the events watched for `fd`. Returns `false`, and changes nothing, when `fd`
    /// is not watched.
    pub fn upd_events(&mut self, fd: i32, events: i16) -> (updated: bool)
        ensures
            updated == watches(old(self).entries(), fd),
            updated ==> exists|i: int|
                0 <= i < old(self).entries().len() && old(self).entries()[i].fd == fd
                    && final(self).entries() == old(self).entries().update(
                    i,
                    (PollFd { events, ..old(self).entries()[i] }),
                ),
            !updated ==> final(self).entries() == old(self).entries(),
            final(self).spec_timeout() == old(self).spec_timeout(),
            final(self).spec_result() == old(self).spec_result(),
    {
        match self.lookup(fd) {
            Some(index) => {
                proof {
                    use_type_invariant(&*self);
                }
                let ghost old_fds = self.fds@;
                let old_entry = self.fds[index];
                let (mut fds, fds_map) = self.take_parts();
                fds.set(index, PollFd { fd: old_entry.fd, events, revents: old_entry.revents });
                assert(fds@[index as int] == PollFd { events, ..old_entry });
                proof {
                    lemma_same_fds_keep_index(old_fds, fds@, fds_map@);
                }
                *self = UnixPoll { fds, fds_map, timeout: self.timeout, result: self.result };
                true
            },
            None => false,
        }
    }

    /// The events watched for `fd`, if it is watched.
    pub fn get_events(&self, fd: i32) -> (r: Option<i16>)
        ensures
            r is None <==> !watches(self.entries(), fd),
            r matches Some(e) ==> exists|i: int|
                0 <= i < self.entries().len() && self.entries()[i].fd == fd
                    && self.entries()[i].events == e,
    {
        match self.lookup(fd) {
            Some(index) => Some(self.fds[index].events),
            None => None,
        }
    }

    /// The events `poll(2)` reported for `fd`, if it is watched.
    pub fn get_revents(&self, fd: i32) -> (r: Option<i16>)
        ensures
            r is None <==> !watches(self.entries(), fd),
            r matches Some(e) ==> exists|i: int|
                0 <= i < self.entries().len() && self.entries()[i].fd == fd
                    && self.entries()[i].revents == e,
    {
        match self.lookup(fd) {
            Some(index) => Some(self.fds[index].revents),
            None => None,
        }
    }

    /// Clears the reported events of `fd`. Returns `false`, and changes nothing, when `fd` is
    /// not watched.
    pub fn reset_revents(&mut self, fd: i32) -> (reset: bool)
        ensures
            reset == watches(old(self).entries(), fd),
            reset ==> exists|i: int|
                0 <= i < old(self).entries().len() && old(self).entries()[i].fd == fd
                    && final(self).entries() == old(self).entries().update(
                    i,
                    (PollFd { revents: 0, ..old(self).entries()[i] }),
                ),
            !reset ==> final(self).entries() == old(self).entries(),
            final(self).spec_timeout() == old(self).spec_timeout(),
            final(self).spec_result() == old(self).spec_result(),
    {
        match self.lookup(fd) {
            Some(index) => {
                proof {
                    use_type_invariant(&*self);
                }
                let ghost old_fds = self.fds@;
                let old_entry = self.fds[index];
                let (mut fds, fds_map) = self.take_parts();
                fds.set(index, PollFd { fd: old_entry.fd, events: old_entry.events, revents: 0 });
                assert(fds@[index as int] == PollFd { revents: 0, ..old_entry });
                proof {
                    lemma_same_fds_keep_index(old_fds, fds@, fds_map@);
                }
                *self = UnixPoll { fds, fds_map, timeout: self.timeout, result: self.result };
                true
            },
            None => false,
        }
    }

    /// Whether `poll(2)` reported any of the bits of `event_flag` for `fd`; `false` when `fd`
    /// is not watched.
    pub fn has_reevent(&self, fd: i32, event_flag: i16) -> (b: bool)
        ensures
            b <==> exists|i: int|
                0 <= i < self.entries().len() && self.entries()[i].fd == fd
                    && #[trigger] (self.entries()[i].revents & event_flag) != 0,
    {
        proof {
            use_type_invariant(self);
            self.lemma_wf_distinct();
        }
        match self.lookup(fd) {
            Some(index) => {
                let b = (self.fds[index].revents & event_flag) != 0;
                assert(b ==> (self.fds@[index as int].revents & event_flag) != 0);
                b
            },
            None => false,
        }
    }

    /// The descriptors that `poll(2)` reported events for, with those events, in poll-set order.
    pub fn iter_ready_fds(&self) -> (r: Vec<(i32, i16)>)
        ensures
            r@ == ready_entries(self.entries()),
    {
        let mut r: Vec<(i32, i16)> = Vec::new();
        let mut i: usize = 0;
        while i < self.fds.len()
            invariant
                i <= self.fds@.len(),
                r@ == ready_entries(self.fds@.subrange(0, i as int)),
            decreases self.fds@.len() - i,
        {
            let p = self.fds[i];
            assert(self.fds@.subrange(0, i + 1).drop_last() == self.fds@.subrange(0, i as int));
            if p.revents != 0 {
                r.push((p.fd, p.revents));
            }
            i = i + 1;
        }
        assert(self.fds@.subrange(0, i as int) == self.fds@);
        r
    }

    /// The watched descriptors, in poll-set order.
    pub fn get_fds_array(&self) -> (r: Vec<i32>)
        ensures
            r@.len() == self.entries().len(),
            forall|i: int| 0 <= i < r@.len() ==> #[trigger] r@[i] == self.entries()[i].fd,
    {
        let mut r: Vec<i32> = Vec::new();
        let mut i: usize = 0;
        while i < self.fds.len()
            invariant
                i <= self.fds@.len(),
                r@.len() == i,
                forall|j: int| 0 <= j < i ==> #[trigger] r@[j] == self.fds@[j].fd,
            decreases self.fds@.len() - i,
        {
            r.push(self.fds[i].fd);
            i = i + 1;
        }
        r
    }

    /// Stops watching every descriptor.
    pub fn clear_fds(&mut self)
        ensures
            final(self).entries() == Seq::<PollFd>::empty(),
            final(self).spec_timeout() == old(self).spec_timeout(),
            final(self).spec_result() == old(self).spec_result(),
    {
        *self = UnixPoll { fds: Vec::new(), fds_map: HashMap::new(), timeout: self.timeout, result: self.result };
    }

    /// The result stored from the last call of `poll(2)`.
    pub fn get_result(&self) -> (r: i32)
        ensures
            r == self.spec_result(),
    {
        self.result
    }

    /// Stores the result of a call of `poll(2)`.
    pub fn set_result(&mut self, result: i32)
        ensures
            final(self).spec_result() == result,
            final(self).entries() == old(self).entries(),
            final(self).spec_timeout() == old(self).spec_timeout(),
    {
        proof {
            use_type_invariant(&*self);
        }
        self.result = result;
    }

    /// The timeout handed to `poll(2)`.
    pub fn get_timeout(&self) -> (r: i32)
        ensures
            r == self.spec_timeout(),
    {
        self.timeout
    }

    /// Changes the timeout handed to `poll(2)`.
    pub fn set_timeout(&mut self, timeout: i32)
        ensures
            final(self).spec_timeout() == timeout,
            final(self).entries() == old(self).entries(),
            final(self).spec_result() == old(self).spec_result(),
    {
        proof {
            use_type_invariant(&*self);
        }
        self.timeout = timeout;
    }

    /// Whether `fd` is watched.
    pub fn has_fd(&self, fd: i32) -> (b: bool)
        ensures
            b == watches(self.entries(), fd),
    {
        self.lookup(fd).is_some()
    }

    /// The position of `fd` in the poll set, if it is watched.
    pub fn get_fd_index(&self, fd: i32) -> (r: Option<usize>)
        ensures
            r is None <==> !watches(self.entries(), fd),
            r matches Some(i) ==> i < self.entries().len() && self.entries()[i as int].fd == fd,
    {
        self.lookup(fd)
    }

    /// Stores what one call of `poll(2)` on a copy of the entries reported: the reported
    /// events of each entry, and the call's result.
    ///
    /// `polled` is that copy after the call; only its `revents` are taken.
    pub fn store_poll_outcome(&mut self, polled: &Vec<PollFd>, result: i32)
        requires
            polled@.len() == old(self).entries().len(),
        ensures
            final(self).entries().len() == old(self).entries().len(),
            forall|i: int|
                0 <= i < old(self).entries().len() ==> #[trigger] final(self).entries()[i] == (PollFd {
                    revents: polled@[i].revents,
                    ..old(self).entries()[i]
                }),
            final(self).spec_result() == result,
            final(self).spec_timeout() == old(self).spec_timeout(),
    {
        proof {
            use_type_invariant(&*self);
        }
        let ghost old_fds = self.fds@;
        let (mut fds, fds_map) = self.take_parts();
        let mut i: usize = 0;
        while i < fds.len()
            invariant
                fds@.len() == old_fds.len(),
                polled@.len() == old_fds.len(),
                i <= old_fds.len(),
                forall|j: int| 0 <= j < old_fds.len() ==> #[trigger] fds@[j].fd == old_fds[j].fd,
                forall|j: int|
                    0 <= j < i ==> #[trigger] fds@[j] == (PollFd { revents: polled@[j].revents, ..old_fds[j] }),
                forall|j: int| i <= j < old_fds.len() ==> #[trigger] fds@[j] == old_fds[j],
            decreases old_fds.len() - i,
        {
            let e = fds[i];
            fds.set(i, PollFd { fd: e.fd, events: e.events, revents: polled[i].revents });
            i = i + 1;
        }
        proof {
            lemma_same_fds_keep_index(old_fds, fds@, fds_map@);
        }
        *self = UnixPoll { fds, fds_map, timeout: self.timeout, result };
    }
}

impl Clone for UnixPoll {
    /// A copy with the same entries, timeout and result.
    fn clone(&self) -> (r: Self)
        ensures
            r.entries() == self.entries(),
            r.spec_timeout() == self.spec_timeout(),
            r.spec_result() == self.spec_result(),
    {
        proof {
            use_type_invariant(self);
        }
        UnixPoll { fds: self.fds.clone(), fds_map: self.fds_map.clone(), timeout: self.timeout, result: self.result }
    }
}

/// An index that agrees with an array agrees with any array of the same length that holds
/// the same descriptor at each position.
proof fn lemma_same_fds_keep_index(old_fds: Seq<PollFd>, fds: Seq<PollFd>, map: Map<i32, usize>)
    requires
        fds.len() == old_fds.len(),
        forall|j: int| 0 <= j < fds.len() ==> #[trigger] fds[j].fd == old_fds[j].fd,
        forall|i: int|
            0 <= i < old_fds.len() ==> map.contains_key(#[trigger] old_fds[i].fd) && map[old_fds[i].fd] == i,
        forall|fd: i32|
            #[trigger] map.contains_key(fd) ==> map[fd] < old_fds.len() && old_fds[map[fd] as int].fd == fd,
    ensures
        forall|i: int| 0 <= i < fds.len() ==> map.contains_key(#[trigger] fds[i].fd) && map[fds[i].fd] == i,
        forall|fd: i32| #[trigger] map.contains_key(fd) ==> map[fd] < fds.len() && fds[map[fd] as int].fd == fd,
{
    assert forall|i: int| 0 <= i < fds.len() implies map.contains_key(#[trigger] fds[i].fd) && map[fds[i].fd] == i by {
        assert(fds[i].fd == old_fds[i].fd);
    }
    assert forall|fd: i32| #[trigger] map.contains_key(fd) implies map[fd] < fds.len() && fds[map[fd] as int].fd == fd by {
        assert(fds[map[fd] as int].fd == old_fds[map[fd] as int].fd);
    }
}

/// Removing a descriptor from a poll set that never watches one twice leaves it unwatched:
/// after the entry is replaced by the last one and the last dropped, no entry watches it.
pub proof fn lemma_removed_not_watched(s: Seq<PollFd>, i: int, fd: i32)
    requires
        distinct_fds(s),
        0 <= i < s.len(),
        s[i].fd == fd,
    ensures
        !watches(s.update(i, s.last()).drop_last(), fd),
{
    let t = s.update(i, s.last()).drop_last();
    assert forall|k: int| 0 <= k < t.len() implies #[trigger] t[k].fd != fd by {
        if k == i {
            assert(t[k] == s[s.len() - 1]);
            assert(s.len() - 1 != i);
        } else {
            assert(t[k] == s[k]);
        }
    }
}

/// Adding a descriptor that was not watched and then removing it gives back the poll set as it
/// was: the new entry is the last one, so removing it moves nothing.
pub proof fn lemma_add_then_remove_restores(s: Seq<PollFd>, fd: i32, events: i16, i: int)
    requires
        !watches(s, fd),
        0 <= i < s.len() + 1,
        s.push(PollFd { fd, events, revents: 0 })[i].fd == fd,
    ensures
        ({
            let added = s.push(PollFd { fd, events, revents: 0 });
            added.update(i, added.last()).drop_last() == s
        }),
{
    let added = s.push(PollFd { fd, events, revents: 0 });
    if i < s.len() {
        assert(s[i].fd == fd);
        assert(watches(s, fd));
    }
    assert(added.update(i, added.last()).drop_last() =~= s);
}

} // verus!
