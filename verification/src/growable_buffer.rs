use vstd::prelude::*;
use crate::unix_app::AllocError;

verus! {

/// The plain fields of a growable buffer, in the layout that C code reads.
#[derive(Debug, Clone, Copy, PartialEq, Eq, Structural)]
pub struct BufferRaw {
    /// How many bytes the buffer holds.
    pub capacity: usize,
    /// The largest capacity the buffer may grow to.
    pub max_capacity: usize,
    /// The length asked for when the buffer was made.
    pub setup_len: usize,
    /// How many bytes of data there are.
    pub data_len: usize,
    /// Where the data starts.
    pub offset: usize,
}

/// A byte buffer that grows up to a maximum capacity. Its data is the `data_len` bytes from
/// `offset` on.
#[derive(Debug)]
pub struct Buffer {
    raw: BufferRaw,
    bytes: Vec<u8>,
}

/// What a growable buffer holds.
pub struct GrowableView {
    pub raw: BufferRaw,
    pub bytes: Seq<u8>,
}

impl View for Buffer {
    type V = GrowableView;

    closed spec fn view(&self) -> GrowableView {
        GrowableView { raw: self.raw, bytes: self.bytes@ }
    }
}

/// A buffer is well formed when it holds `capacity` bytes and its data lies inside them.
pub open spec fn growable_wf(b: GrowableView) -> bool {
    &&& b.bytes.len() == b.raw.capacity
    &&& b.raw.offset + b.raw.data_len <= b.raw.capacity
}

/// The data of a buffer.
pub open spec fn growable_data(b: GrowableView) -> Seq<u8> {
    b.bytes.subrange(b.raw.offset as int, b.raw.offset + b.raw.data_len)
}

/// The smaller of two sizes.
pub open spec fn min_size(a: usize, b: usize) -> usize {
    if a <= b { a } else { b }
}

/// A fresh vector of `n` zero bytes, or the allocator's refusal.
fn try_zeroed(n: usize) -> (r: Result<Vec<u8>, AllocError>)
    ensures
        n > isize::MAX ==> r is Err,
        r matches Ok(v) ==> v@ == Seq::new(n as nat, |i: int| 0u8),
{
    if n > isize::MAX as usize {
        return Err(AllocError);
    }
    let mut v: Vec<u8> = Vec::new();
    match v.try_reserve(n) {
        Err(_) => Err(AllocError),
        Ok(()) => {
            v.resize(n, 0u8);
            proof {
                assert forall|i: int| 0 <= i < n implies v@[i] == 0u8 by {
                    assert(cloned::<u8>(0u8, v@[i]));
                }
                assert(v@ == Seq::new(n as nat, |i: int| 0u8));
            }
            Ok(v)
        },
    }
}

/// Writes `src[from..from + len]` over the first `len` bytes of `dst`.
fn copy_front(dst: &mut Vec<u8>, src: &Vec<u8>, from: usize, len: usize)
    requires
        from + len <= src.len(),
        len <= old(dst).len(),
    ensures
        final(dst)@ == src@.subrange(from as int, from + len) + old(dst)@.subrange(len as int, old(dst)@.len() as int),
{
    let mut i: usize = 0;
    while i < len
        invariant
            i <= len,
            from + len <= src.len(),
            len <= dst.len(),
            dst.len() == old(dst).len(),
            forall|k: int| 0 <= k < i ==> #[trigger] dst@[k] == src@[from + k],
            forall|k: int| i <= k < dst.len() ==> #[trigger] dst@[k] == old(dst)@[k],
        decreases len - i,
    {
        dst.set(i, src[from + i]);
        i = i + 1;
    }
    assert(dst@ == src@.subrange(from as int, from + len) + old(dst)@.subrange(len as int, old(dst)@.len() as int));
}

impl Clone for Buffer {
    /// A buffer of the same capacity and maximum whose data, the same bytes, starts at the
    /// front. It panics when the allocator refuses the memory.
    fn clone(&self) -> (r: Self)
        ensures
            growable_wf(self@) ==> growable_wf(r@)
                && r@.raw == (BufferRaw { setup_len: self@.raw.capacity, offset: 0, ..self@.raw })
                && growable_data(r@) == growable_data(self@),
    {
        let cap = self.raw.capacity;
        let mut bytes: Vec<u8> = vec![0u8; cap];
        if self.raw.offset <= self.bytes.len() && self.raw.data_len <= self.bytes.len() - self.raw.offset
            && self.raw.data_len <= bytes.len() {
            copy_front(&mut bytes, &self.bytes, self.raw.offset, self.raw.data_len);
        }
        let raw = BufferRaw { setup_len: cap, offset: 0, ..self.raw };
        let r = Buffer { raw, bytes };
        proof {
            if growable_wf(self@) {
                assert(growable_data(r@) == growable_data(self@));
            }
        }
        r
    }
}

impl Buffer {
    /// An empty buffer, of capacity 0, that may grow to `max_capacity`.
    pub fn new_empty(max_capacity: usize) -> (b: Self)
        ensures
            growable_wf(b@),
            b@.raw == (BufferRaw { capacity: 0, max_capacity, setup_len: 0, data_len: 0, offset: 0 }),
    {
        Buffer {
            raw: BufferRaw { capacity: 0, max_capacity, setup_len: 0, data_len: 0, offset: 0 },
            bytes: Vec::new(),
        }
    }

    /// A buffer of `setup_len` bytes that may grow to ten times that.
    pub fn new(setup_len: usize) -> (r: Result<Self, AllocError>)
        requires
            setup_len * 10 <= usize::MAX,
        ensures
            setup_len == 0 ==> r is Ok,
            setup_len > isize::MAX ==> r is Err,
            r matches Ok(b) ==> growable_wf(b@) && b@.raw == (BufferRaw {
                capacity: setup_len,
                max_capacity: (setup_len * 10) as usize,
                setup_len,
                data_len: 0,
                offset: 0,
            }),
    {
        Self::with_max_capacity(setup_len, setup_len * 10)
    }

    /// A buffer of `setup_len` bytes that may grow to `max_capacity`, or the allocator's
    /// refusal. A length beyond `isize::MAX` is always refused; an empty buffer never is.
    pub fn with_max_capacity(setup_len: usize, max_capacity: usize) -> (r: Result<Self, AllocError>)
        ensures
            setup_len == 0 ==> r is Ok,
            setup_len > isize::MAX ==> r is Err,
            r matches Ok(b) ==> growable_wf(b@) && b@.raw == (BufferRaw {
                capacity: setup_len,
                max_capacity,
                setup_len,
                data_len: 0,
                offset: 0,
            }),
    {
        if setup_len == 0 {
            return Ok(Self::new_empty(max_capacity));
        }
        match try_zeroed(setup_len) {
            Err(e) => Err(e),
            Ok(bytes) => Ok(Buffer {
                raw: BufferRaw { capacity: setup_len, max_capacity, setup_len, data_len: 0, offset: 0 },
                bytes,
            }),
        }
    }

    /// A buffer of `setup_len` bytes that may grow to ten times that.
    pub fn try_new(setup_len: usize) -> (r: Result<Self, AllocError>)
        requires
            setup_len * 10 <= usize::MAX,
        ensures
            setup_len == 0 ==> r is Ok,
            setup_len > isize::MAX ==> r is Err,
            r matches Ok(b) ==> growable_wf(b@) && b@.raw == (BufferRaw {
                capacity: setup_len,
                max_capacity: (setup_len * 10) as usize,
                setup_len,
                data_len: 0,
                offset: 0,
            }),
    {
        Self::with_max_capacity(setup_len, setup_len * 10)
    }

    /// A copy of the plain fields.
    pub fn create_raw(&self) -> (r: BufferRaw)
        ensures
            r == self@.raw,
    {
        self.raw
    }

    /// Sets how many bytes of data there are, when they fit after the offset.
    pub fn set_data_len(&mut self, data_len: usize) -> (ok: bool)
        requires
            old(self)@.raw.offset + data_len <= usize::MAX,
        ensures
            ok == (old(self)@.raw.offset + data_len <= old(self)@.raw.capacity),
            final(self)@.bytes == old(self)@.bytes,
            final(self)@.raw == (if ok { BufferRaw { data_len, ..old(self)@.raw } } else { old(self)@.raw }),
    {
        if self.raw.offset + data_len <= self.raw.capacity {
            self.raw.data_len = data_len;
            true
        } else {
            false
        }
    }

    /// Sets where the data starts, when the data still fits after it.
    pub fn set_offset(&mut self, offset: usize) -> (ok: bool)
        requires
            offset + old(self)@.raw.data_len <= usize::MAX,
        ensures
            ok == (offset + old(self)@.raw.data_len <= old(self)@.raw.capacity),
            final(self)@.bytes == old(self)@.bytes,
            final(self)@.raw == (if ok { BufferRaw { offset, ..old(self)@.raw } } else { old(self)@.raw }),
    {
        if offset + self.raw.data_len <= self.raw.capacity {
            self.raw.offset = offset;
            true
        } else {
            false
        }
    }

    /// Consumes `bytes` bytes of data from the front, when there are that many.
    pub fn advance_offset(&mut self, bytes: usize) -> (ok: bool)
        requires
            old(self)@.raw.offset + old(self)@.raw.data_len <= usize::MAX,
        ensures
            ok == (bytes <= old(self)@.raw.data_len),
            final(self)@.bytes == old(self)@.bytes,
            final(self)@.raw == (if ok {
                BufferRaw {
                    offset: (old(self)@.raw.offset + bytes) as usize,
                    data_len: (old(self)@.raw.data_len - bytes) as usize,
                    ..old(self)@.raw
                }
            } else {
                old(self)@.raw
            }),
    {
        if bytes <= self.raw.data_len {
            self.raw.offset = self.raw.offset + bytes;
            self.raw.data_len = self.raw.data_len - bytes;
            true
        } else {
            false
        }
    }

    /// Where the data starts.
    pub fn get_offset(&self) -> (n: usize)
        ensures
            n == self@.raw.offset,
    {
        self.raw.offset
    }

    /// The length asked for when the buffer was made.
    pub fn get_setup_len(&self) -> (n: usize)
        ensures
            n == self@.raw.setup_len,
    {
        self.raw.setup_len
    }

    /// How many bytes of data there are.
    pub fn get_data_len(&self) -> (n: usize)
        ensures
            n == self@.raw.data_len,
    {
        self.raw.data_len
    }

    /// How many bytes the buffer holds.
    pub fn get_capacity(&self) -> (n: usize)
        ensures
            n == self@.raw.capacity,
    {
        self.raw.capacity
    }

    /// The largest capacity the buffer may grow to.
    pub fn get_max_capacity(&self) -> (n: usize)
        ensures
            n == self@.raw.max_capacity,
    {
        self.raw.max_capacity
    }

    /// Grows the buffer to `target_capacity` bytes, but not beyond its maximum, moving the
    /// data to the front. It succeeds at once when the buffer is large enough already; it
    /// fails, leaving the buffer as it was, when the maximum allows no growth or the allocator
    /// refuses the memory.
    pub fn try_grow(&mut self, target_capacity: usize) -> (ok: bool)
        requires
            growable_wf(old(self)@),
        ensures
            growable_wf(final(self)@),
            target_capacity <= old(self)@.raw.capacity ==> ok && final(self)@ == old(self)@,
            target_capacity > old(self)@.raw.capacity && min_size(target_capacity, old(self)@.raw.max_capacity)
                <= old(self)@.raw.capacity ==> !ok,
            !ok ==> final(self)@ == old(self)@,
            ok && target_capacity > old(self)@.raw.capacity ==> final(self)@.raw == (BufferRaw {
                capacity: min_size(target_capacity, old(self)@.raw.max_capacity),
                offset: 0,
                ..old(self)@.raw
            }) && growable_data(final(self)@) == growable_data(old(self)@),
    {
        if target_capacity <= self.raw.capacity {
            return true;
        }
        let new_capacity = if target_capacity <= self.raw.max_capacity { target_capacity } else { self.raw.max_capacity };
        if new_capacity <= self.raw.capacity {
            return false;
        }
        match try_zeroed(new_capacity) {
            Err(_) => false,
            Ok(mut fresh) => {
                copy_front(&mut fresh, &self.bytes, self.raw.offset, self.raw.data_len);
                self.bytes = fresh;
                self.raw.capacity = new_capacity;
                self.raw.offset = 0;
                assert(growable_data(self@) =~= growable_data(old(self)@));
                true
            },
        }
    }

    /// Gives the buffer `new_capacity` bytes, but not beyond its maximum, moving the data to
    /// the front and cutting it to the new capacity. A capacity of 0 empties the buffer. When
    /// the allocator refuses the memory, the buffer stays as it was.
    pub fn reallocate(&mut self, new_capacity: usize)
        requires
            growable_wf(old(self)@),
        ensures
            growable_wf(final(self)@),
            min_size(new_capacity, old(self)@.raw.max_capacity) == old(self)@.raw.capacity ==> final(self)@ == old(self)@,
            min_size(new_capacity, old(self)@.raw.max_capacity) == 0 ==> final(self)@.raw == (BufferRaw {
                capacity: 0,
                data_len: 0,
                offset: 0,
                ..old(self)@.raw
            }),
            final(self)@ == old(self)@ || ({
                let cap = min_size(new_capacity, old(self)@.raw.max_capacity);
                let kept = min_size(old(self)@.raw.data_len, cap);
                &&& final(self)@.raw == (BufferRaw { capacity: cap, data_len: kept, offset: 0, ..old(self)@.raw })
                &&& growable_data(final(self)@) == growable_data(old(self)@).subrange(0, kept as int)
            }),
    {
        let actual = if new_capacity <= self.raw.max_capacity { new_capacity } else { self.raw.max_capacity };
        if actual == self.raw.capacity {
            return;
        }
        if actual == 0 {
            self.bytes = Vec::new();
            self.raw.capacity = 0;
            self.raw.data_len = 0;
            self.raw.offset = 0;
            assert(growable_data(self@) =~= growable_data(old(self)@).subrange(0, 0));
            return;
        }
        match try_zeroed(actual) {
            Err(_) => {},
            Ok(mut fresh) => {
                let kept = if self.raw.data_len <= actual { self.raw.data_len } else { actual };
                copy_front(&mut fresh, &self.bytes, self.raw.offset, kept);
                self.bytes = fresh;
                self.raw.capacity = actual;
                self.raw.data_len = kept;
                self.raw.offset = 0;
                assert(growable_data(self@) =~= growable_data(old(self)@).subrange(0, kept as int));
            },
        }
    }

    /// Drops the data: none is left and it starts at the front.
    pub fn reset(&mut self)
        ensures
            final(self)@.bytes == old(self)@.bytes,
            final(self)@.raw == (BufferRaw { data_len: 0, offset: 0, ..old(self)@.raw }),
    {
        self.raw.data_len = 0;
        self.raw.offset = 0;
    }

    /// Moves the data to the front of the buffer; the bytes after it stay as they were.
    pub fn compact(&mut self)
        requires
            growable_wf(old(self)@),
        ensures
            growable_wf(final(self)@),
            old(self)@.raw.offset == 0 || old(self)@.raw.data_len == 0 ==> final(self)@ == old(self)@,
            final(self)@.raw.data_len == old(self)@.raw.data_len,
            growable_data(final(self)@) == growable_data(old(self)@),
            old(self)@.raw.offset != 0 && old(self)@.raw.data_len != 0 ==> final(self)@.raw.offset == 0
                && final(self)@.raw == (BufferRaw { offset: 0, ..old(self)@.raw })
                && final(self)@.bytes.subrange(old(self)@.raw.data_len as int, old(self)@.bytes.len() as int)
                    == old(self)@.bytes.subrange(old(self)@.raw.data_len as int, old(self)@.bytes.len() as int),
    {
        if self.raw.offset == 0 || self.raw.data_len == 0 {
            return;
        }
        let off = self.raw.offset;
        let len = self.raw.data_len;
        let mut i: usize = 0;
        while i < len
            invariant
                off > 0,
                self.raw == old(self)@.raw,
                off == old(self)@.raw.offset,
                len == old(self)@.raw.data_len,
                off + len <= self.bytes.len(),
                i <= len,
                self.bytes.len() == old(self)@.bytes.len(),
                forall|k: int| 0 <= k < i ==> #[trigger] self.bytes@[k] == old(self)@.bytes[off + k],
                forall|k: int| i <= k < self.bytes.len() ==> #[trigger] self.bytes@[k] == old(self)@.bytes[k],
            decreases len - i,
        {
            let b = self.bytes[off + i];
            self.bytes.set(i, b);
            i = i + 1;
        }
        self.raw.offset = 0;
        assert(growable_data(self@) =~= growable_data(old(self)@));
        assert(self@.bytes.subrange(len as int, self@.bytes.len() as int)
            =~= old(self)@.bytes.subrange(len as int, old(self)@.bytes.len() as int));
    }

    /// The data.
    pub fn get_data_slice(&self) -> (s: &[u8])
        requires
            growable_wf(self@),
        ensures
            s@ == growable_data(self@),
    {
        let start = self.raw.offset;
        &self.bytes.as_slice()[start..start + self.raw.data_len]
    }

    /// The data, to be written in place.
    pub fn get_mut_data_slice(&mut self) -> (s: &mut [u8])
        requires
            growable_wf(old(self)@),
        ensures
            s@ == growable_data(old(self)@),
            final(self)@.raw == old(self)@.raw,
            final(s)@.len() == s@.len() ==> final(self)@.bytes == old(self)@.bytes.subrange(0, old(self)@.raw.offset as int)
                + final(s)@ + old(self)@.bytes.subrange(old(self)@.raw.offset + old(self)@.raw.data_len, old(self)@.bytes.len() as int),
    {
        let start = self.raw.offset;
        let len = self.raw.data_len;
        let all = self.bytes.as_mut_slice();
        let (_head, rest) = all.split_at_mut(start);
        let (data, _tail) = rest.split_at_mut(len);
        data
    }

    /// The free room after the data, to be written in place; empty when there is none.
    pub fn get_mut_free_slice(&mut self) -> (s: &mut [u8])
        requires
            growable_wf(old(self)@),
        ensures
            s@ == old(self)@.bytes.subrange(old(self)@.raw.offset + old(self)@.raw.data_len, old(self)@.bytes.len() as int),
            final(self)@.raw == old(self)@.raw,
            final(s)@.len() == s@.len() ==> final(self)@.bytes == old(self)@.bytes.subrange(0, old(self)@.raw.offset
                + old(self)@.raw.data_len) + final(s)@,
    {
        let end = self.raw.offset + self.raw.data_len;
        let all = self.bytes.as_mut_slice();
        let (_used, free) = all.split_at_mut(end);
        free
    }

    /// The plain fields.
    pub fn as_raw(&self) -> (r: &BufferRaw)
        ensures
            *r == self@.raw,
    {
        &self.raw
    }

    /// The plain fields, to be changed in place; the bytes stay as they were.
    pub fn as_raw_mut(&mut self) -> (r: &mut BufferRaw)
        ensures
            *r == old(self)@.raw,
            final(self)@.raw == *final(r),
            final(self)@.bytes == old(self)@.bytes,
    {
        &mut self.raw
    }

    /// Whether the buffer has reached its maximum capacity.
    pub fn is_at_max_capacity(&self) -> (b: bool)
        ensures
            b == (self@.raw.capacity >= self@.raw.max_capacity),
    {
        self.raw.capacity >= self.raw.max_capacity
    }

    /// Whether there is room after the data.
    pub fn has_free_space(&self) -> (b: bool)
        requires
            self@.raw.offset + self@.raw.data_len <= usize::MAX,
        ensures
            b == (self@.raw.offset + self@.raw.data_len < self@.raw.capacity),
    {
        self.raw.offset + self.raw.data_len < self.raw.capacity
    }

    /// How many bytes of room there are after the data.
    pub fn free_space(&self) -> (n: usize)
        requires
            self@.raw.offset + self@.raw.data_len <= self@.raw.capacity,
        ensures
            n == self@.raw.capacity - (self@.raw.offset + self@.raw.data_len),
    {
        self.raw.capacity - (self.raw.offset + self.raw.data_len)
    }

    /// Whether the buffer holds no bytes at all.
    pub fn is_empty_capacity(&self) -> (b: bool)
        ensures
            b == (self@.raw.capacity == 0),
    {
        self.raw.capacity == 0
    }

    /// Whether the data starts more than a quarter of the way into the buffer, so that moving
    /// it to the front would pay.
    pub fn should_compact(&self) -> (b: bool)
        ensures
            b == (self@.raw.offset > 0 && self@.raw.offset > self@.raw.capacity / 4),
    {
        self.raw.offset > 0 && self.raw.offset > self.raw.capacity / 4
    }
}

/// The first multiple of `align` at or after `offset`.
pub open spec fn aligned_up(offset: int, align: int) -> int {
    if offset % align == 0 {
        offset
    } else {
        offset + (align - offset % align)
    }
}

/// `bytes` with the bytes from `start` on replaced by `value`.
pub open spec fn written_at(bytes: Seq<u8>, start: int, value: Seq<u8>) -> Seq<u8> {
    bytes.take(start) + value + bytes.skip(start + value.len())
}

/// Writes `value` over `bytes[start..start + value.len()]`.
fn write_at(bytes: &mut Vec<u8>, start: usize, value: &[u8])
    requires
        start + value@.len() <= old(bytes)@.len(),
    ensures
        final(bytes)@ == written_at(old(bytes)@, start as int, value@),
{
    let n = bytes.len();
    let mut i: usize = 0;
    while i < value.len()
        invariant
            bytes@.len() == n,
            start + value@.len() <= bytes@.len(),
            bytes@.len() == old(bytes)@.len(),
            i <= value@.len(),
            forall|k: int| 0 <= k < i ==> #[trigger] bytes@[start + k] == value@[k],
            forall|k: int| 0 <= k < bytes@.len() && !(start <= k < start + i) ==> #[trigger] bytes@[k] == old(bytes)@[k],
        decreases value@.len() - i,
    {
        bytes.set(start + i, value[i]);
        i = i + 1;
    }
    assert(bytes@ =~= written_at(old(bytes)@, start as int, value@)) by {
        assert forall|k: int| 0 <= k < bytes@.len() implies bytes@[k] == written_at(old(bytes)@, start as int, value@)[k] by {
            if start <= k < start + value@.len() {
                assert(bytes@[start + (k - start)] == value@[k - start]);
            }
        }
    }
}

impl Buffer {
    /// Appends a structure, given as its bytes `value`, at the first multiple of `align` at or
    /// after the end of the data, growing the buffer when it does not reach that far, and
    /// counts it, and the padding before it, as data. Returns whether there was room: not when
    /// the buffer is at its largest, and not when the allocator refuses to grow it.
    ///
    /// The position is worked out before the buffer grows; growing moves the data to the front,
    /// and the structure is still written at that position, with the data length counted from
    /// the old start of the data. A growth capped below the end of the structure would write
    /// past the buffer, so that case is left out.
    pub fn push_struct(&mut self, value: &[u8], align: usize) -> (ok: bool)
        requires
            growable_wf(old(self)@),
            align > 0,
            old(self)@.raw.offset + old(self)@.raw.data_len + align + value@.len() <= usize::MAX,
            ({
                let target = aligned_up((old(self)@.raw.offset + old(self)@.raw.data_len) as int, align as int) + value@.len();
                target <= old(self)@.raw.capacity || target <= old(self)@.raw.max_capacity
                    || old(self)@.raw.max_capacity <= old(self)@.raw.capacity
            }),
        ensures
            growable_wf(final(self)@),
            ({
                let off = old(self)@.raw.offset;
                let start = aligned_up((off + old(self)@.raw.data_len) as int, align as int);
                let target = start + value@.len();
                &&& value@.len() == 0 ==> ok && final(self)@ == old(self)@
                &&& value@.len() > 0 && target <= old(self)@.raw.capacity ==> ok
                    && final(self)@.raw == (BufferRaw { data_len: (target - off) as usize, ..old(self)@.raw })
                    && final(self)@.bytes == written_at(old(self)@.bytes, start, value@)
                &&& value@.len() > 0 && target > old(self)@.raw.capacity && old(self)@.raw.max_capacity <= old(self)@.raw.capacity
                    ==> !ok && final(self)@ == old(self)@
                &&& value@.len() > 0 && target > old(self)@.raw.capacity && old(self)@.raw.max_capacity > old(self)@.raw.capacity
                    ==> (!ok && final(self)@ == old(self)@) || ok && final(self)@.raw == (BufferRaw {
                        capacity: target as usize,
                        offset: 0,
                        data_len: (target - off) as usize,
                        ..old(self)@.raw
                    }) && final(self)@.bytes.subrange(0, old(self)@.raw.data_len as int) == growable_data(old(self)@)
                    && final(self)@.bytes.subrange(start, target) == value@
            }),
    {
        let size = value.len();
        if size == 0 {
            return true;
        }
        let off = self.raw.offset;
        let end = off + self.raw.data_len;
        let rem = end % align;
        let gap: usize = if rem == 0 { 0 } else { align - rem };
        let start = end + gap;
        let target = start + size;
        let ghost old_view = self@;
        if !self.try_grow(target) {
            return false;
        }
        proof {
            if target > old_view.raw.capacity {
                assert(growable_data(self@) == growable_data(old_view));
                assert(self@.bytes.subrange(0, old_view.raw.data_len as int) =~= growable_data(self@));
            }
        }
        let ghost grown = self@;
        write_at(&mut self.bytes, start, value);
        self.raw.data_len = target - off;
        proof {
            if target > old_view.raw.capacity {
                assert(self@.bytes.subrange(0, old_view.raw.data_len as int) =~= grown.bytes.subrange(0, old_view.raw.data_len as int));
                assert(self@.bytes.subrange(start as int, target as int) =~= value@);
            }
        }
        true
    }

    /// The `size` bytes of a structure that starts at the start of the data, when the buffer
    /// reaches that far (the data itself may be shorter); `None` otherwise.
    pub fn read_struct(&self, size: usize) -> (r: Option<&[u8]>)
        requires
            growable_wf(self@),
        ensures
            self@.raw.offset + size <= self@.raw.capacity ==> (r matches Some(v)
                && v@ == self@.bytes.subrange(self@.raw.offset as int, self@.raw.offset + size)),
            self@.raw.offset + size > self@.raw.capacity ==> r is None,
    {
        let start = self.raw.offset;
        if size > self.raw.capacity - start {
            return None;
        }
        Some(&self.bytes.as_slice()[start..start + size])
    }

    /// The same bytes as `read_struct`, to be changed in place.
    pub fn read_struct_mut(&mut self, size: usize) -> (r: Option<&mut [u8]>)
        requires
            growable_wf(old(self)@),
        ensures
            final(self)@.raw == old(self)@.raw,
            old(self)@.raw.offset + size > old(self)@.raw.capacity ==> r is None && final(self)@ == old(self)@,
            old(self)@.raw.offset + size <= old(self)@.raw.capacity ==> (r matches Some(v)
                && v@ == old(self)@.bytes.subrange(old(self)@.raw.offset as int, old(self)@.raw.offset + size)
                && (final(v)@.len() == size ==> final(self)@.bytes == old(self)@.bytes.subrange(0, old(self)@.raw.offset as int)
                    + final(v)@ + old(self)@.bytes.subrange(old(self)@.raw.offset + size, old(self)@.bytes.len() as int))),
    {
        let start = self.raw.offset;
        if size > self.raw.capacity - start {
            return None;
        }
        let all = self.bytes.as_mut_slice();
        let (_head, rest) = all.split_at_mut(start);
        let (data, _tail) = rest.split_at_mut(size);
        Some(data)
    }

    /// Takes a structure of `size` bytes and alignment `align` from the front of the data, as
    /// its bytes: the structure starts at the first multiple of `align` at or after the start of
    /// the data, and the data is consumed up to its end. `None`, and nothing changes, when the
    /// data does not reach that far. A structure of no bytes is there at once and consumes
    /// nothing.
    pub fn take_struct(&mut self, size: usize, align: usize) -> (r: Option<Vec<u8>>)
        requires
            growable_wf(old(self)@),
            align > 0,
        ensures
            final(self)@.bytes == old(self)@.bytes,
            size == 0 ==> (r matches Some(v) && v@.len() == 0) && final(self)@ == old(self)@,
            ({
                let start = aligned_up(old(self)@.raw.offset as int, align as int);
                let end = old(self)@.raw.offset + old(self)@.raw.data_len;
                &&& size > 0 && start + size > end ==> r is None && final(self)@ == old(self)@
                &&& size > 0 && start + size <= end ==> (r matches Some(v) && v@ == old(self)@.bytes.subrange(start, start + size))
                    && final(self)@.raw == (BufferRaw {
                        offset: (start + size) as usize,
                        data_len: (end - (start + size)) as usize,
                        ..old(self)@.raw
                    })
            }),
    {
        if size == 0 {
            return Some(Vec::new());
        }
        let offset = self.raw.offset;
        let rem = offset % align;
        let gap: usize = if rem == 0 { 0 } else { align - rem };
        if gap > self.raw.data_len || size > self.raw.data_len - gap {
            return None;
        }
        let start = offset + gap;
        let taken = vstd::slice::slice_to_vec(&self.bytes.as_slice()[start..start + size]);
        let ok = self.advance_offset(gap + size);
        assert(ok);
        Some(taken)
    }
}

/// Consuming data from the front and then moving it to the front keeps the rest of the data:
/// after `advance_offset(n)` and `compact`, the data is the old data without its first `n`
/// bytes.
pub proof fn lemma_advance_keeps_rest(b: GrowableView, n: usize)
    requires
        growable_wf(b),
        n <= b.raw.data_len,
    ensures
        growable_data(GrowableView {
            raw: BufferRaw { offset: (b.raw.offset + n) as usize, data_len: (b.raw.data_len - n) as usize, ..b.raw },
            ..b
        }) == growable_data(b).subrange(n as int, b.raw.data_len as int),
{
    assert(growable_data(GrowableView {
        raw: BufferRaw { offset: (b.raw.offset + n) as usize, data_len: (b.raw.data_len - n) as usize, ..b.raw },
        ..b
    }) =~= growable_data(b).subrange(n as int, b.raw.data_len as int));
}

} // verus!
