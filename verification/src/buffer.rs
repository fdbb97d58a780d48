use vstd::prelude::*;
use vstd::string::StringExecFns;
use crate::text::{decimal, push_decimal};

verus! {

/// `Vec::capacity`: how many bytes the vector can hold without reallocating. Its value
/// depends on the allocator; the documentation promises that it is at least the length, and
/// no allocation of a vector exceeds `isize::MAX` bytes.
#[verifier::external_body]
fn vec_capacity(v: &Vec<u8>) -> (c: usize)
    ensures
        v.len() <= c <= isize::MAX,
{
    v.capacity()
}

/// A byte buffer read from the front: its bytes, the end of the data, and the offset up to
/// which the data has been consumed.
#[derive(Debug)]
pub struct Buffer {
    buf: Vec<u8>,
    data_len: usize,
    data_offset: usize,
}

/// Errors of reading a structure out of a buffer.
#[derive(Debug)]
pub enum BufferError {
    /// Fewer bytes of data than the structure needs.
    DataLenIsLessReadableType { required: usize, available: usize, structure: String },
    /// The data does not start at an address aligned for the structure.
    AlignError { required: usize, structure: String },
}

/// What a buffer holds.
pub struct BufferView {
    /// All the bytes of the buffer.
    pub bytes: Seq<u8>,
    /// The end of the data.
    pub data_len: usize,
    /// How far the data has been consumed.
    pub data_offset: usize,
}

impl View for Buffer {
    type V = BufferView;

    closed spec fn view(&self) -> BufferView {
        BufferView { bytes: self.buf@, data_len: self.data_len, data_offset: self.data_offset }
    }
}

/// The bytes of data not yet consumed.
pub open spec fn pending(b: BufferView) -> Seq<u8> {
    b.bytes.subrange(b.data_offset as int, b.data_len as int)
}

/// Whether the offsets of a buffer lie in order inside it.
pub open spec fn offsets_in_order(b: BufferView) -> bool {
    b.data_offset <= b.data_len <= b.bytes.len()
}

/// The text of a refused data length.
pub open spec fn data_len_error_text(data_len: nat, size: nat) -> Seq<char> {
    "data_len ("@ + decimal(data_len) + ") exceeds physical buffer size ("@ + decimal(size) + ")"@
}

/// How many bytes of data are left, as a read of a structure counts them: none when the offset
/// lies past the end of the data.
pub open spec fn available(b: BufferView) -> nat {
    if b.data_offset <= b.data_len {
        (b.data_len - b.data_offset) as nat
    } else {
        0
    }
}

/// The state after `n` bytes were consumed: when nothing is left, the buffer is emptied.
pub open spec fn consumed(b: BufferView, n: nat) -> BufferView {
    if b.data_offset + n >= b.data_len {
        BufferView { data_len: 0, data_offset: 0, ..b }
    } else {
        BufferView { data_offset: (b.data_offset + n) as usize, ..b }
    }
}

impl Buffer {
    /// Whether the offsets lie in order inside the buffer: the data starts no later than it
    /// ends, and ends within the bytes.
    pub fn is_consistent(&self) -> (b: bool)
        ensures
            b == offsets_in_order(self@),
    {
        self.data_offset <= self.data_len && self.data_len <= self.buf.len()
    }

    /// A buffer of `capacity` zero bytes and no data.
    pub fn new(capacity: usize) -> (b: Self)
        ensures
            b@.bytes == Seq::new(capacity as nat, |i: int| 0u8),
            b@.data_len == 0,
            b@.data_offset == 0,
    {
        let mut buf: Vec<u8> = vec![0u8; capacity];
        buf.resize(capacity, 0u8);
        let b = Buffer { buf, data_len: 0, data_offset: 0 };
        assert(b@.bytes == Seq::new(capacity as nat, |i: int| 0u8));
        b
    }

    /// A buffer whose bytes are all data.
    pub fn from_vec(vec: Vec<u8>) -> (b: Self)
        ensures
            b@.bytes == vec@,
            b@.data_len == vec@.len(),
            b@.data_offset == 0,
    {
        let data_len = vec.len();
        Buffer { buf: vec, data_len, data_offset: 0 }
    }

    /// A buffer whose data is the bytes of `s`.
    pub fn from_text(s: &str) -> (b: Self)
        ensures
            b@.bytes == vstd::utf8::encode_utf8(s@),
            b@.data_len == vstd::utf8::encode_utf8(s@).len(),
            b@.data_offset == 0,
    {
        let bytes = vstd::slice::slice_to_vec(s.as_bytes());
        Buffer::from_vec(bytes)
    }

    /// A buffer whose data is the bytes of `s`.
    pub fn from_string(s: String) -> (b: Self)
        ensures
            b@.bytes == vstd::utf8::encode_utf8(s@),
            b@.data_len == vstd::utf8::encode_utf8(s@).len(),
            b@.data_offset == 0,
    {
        Buffer::from_text(s.as_str())
    }

    /// The data not yet consumed.
    pub fn as_data_slice(&self) -> (s: &[u8])
        requires
            offsets_in_order(self@),
        ensures
            s@ == pending(self@),
    {
        &self.buf.as_slice()[self.data_offset..self.data_len]
    }

    /// The data not yet consumed, to be written in place.
    pub fn as_mut_data_slice(&mut self) -> (s: &mut [u8])
        requires
            offsets_in_order(old(self)@),
        ensures
            s@ == pending(old(self)@),
            final(s)@.len() == s@.len() ==> final(self)@.bytes == old(self)@.bytes.subrange(0, old(self)@.data_offset as int)
                + final(s)@ + old(self)@.bytes.subrange(old(self)@.data_len as int, old(self)@.bytes.len() as int),
            final(self)@.data_len == old(self)@.data_len,
            final(self)@.data_offset == old(self)@.data_offset,
    {
        let start = self.data_offset;
        let end = self.data_len;
        let all = self.buf.as_mut_slice();
        let (_head, rest) = all.split_at_mut(start);
        let (data, _tail) = rest.split_at_mut(end - start);
        data
    }

    /// The free room after the data.
    pub fn as_free_slice(&mut self) -> (s: &[u8])
        requires
            old(self)@.data_len <= old(self)@.bytes.len(),
        ensures
            s@ == old(self)@.bytes.subrange(old(self)@.data_len as int, old(self)@.bytes.len() as int),
            *final(self) == *old(self),
    {
        let n = self.buf.len();
        &self.buf.as_slice()[self.data_len..n]
    }

    /// The free room after the data, to be written in place.
    pub fn as_mut_free_slice(&mut self) -> (s: &mut [u8])
        requires
            old(self)@.data_len <= old(self)@.bytes.len(),
        ensures
            s@ == old(self)@.bytes.subrange(old(self)@.data_len as int, old(self)@.bytes.len() as int),
            final(self)@.bytes == old(self)@.bytes.subrange(0, old(self)@.data_len as int) + final(s)@,
            final(self)@.data_len == old(self)@.data_len,
            final(self)@.data_offset == old(self)@.data_offset,
    {
        let n = self.data_len;
        let all = self.buf.as_mut_slice();
        let (_data, free) = all.split_at_mut(n);
        free
    }

    /// Consumes `n` bytes of data; once all of it is consumed, the buffer is emptied.
    pub fn consume(&mut self, n: usize)
        requires
            old(self)@.data_offset + n <= usize::MAX,
        ensures
            final(self)@ == consumed(old(self)@, n as nat),
    {
        self.data_offset = self.data_offset + n;
        if self.data_offset >= self.data_len {
            self.clear();
        }
    }

    /// Empties the buffer: no data and nothing consumed.
    pub fn clear(&mut self)
        ensures
            final(self)@.bytes == old(self)@.bytes,
            final(self)@.data_len == 0,
            final(self)@.data_offset == 0,
    {
        self.data_len = 0;
        self.data_offset = 0;
    }

    /// Checks that the pending data can be read as the structure `structure`, of `size` bytes
    /// and alignment `align`: there must be at least `size` bytes of data, and then the data
    /// must start at an aligned address, which the caller tells by `aligned`, having looked at
    /// where the data lies in memory.
    pub fn check_read_struct(&self, size: usize, align: usize, aligned: bool, structure: &str) -> (r: Result<(), BufferError>)
        ensures
            available(self@) < size ==> (r matches Err(BufferError::DataLenIsLessReadableType { required, available: a, structure: s })
                && required == size && a == available(self@) && s@ == structure@),
            available(self@) >= size && !aligned ==> (r matches Err(BufferError::AlignError { required, structure: s })
                && required == align && s@ == structure@),
            available(self@) >= size && aligned ==> r is Ok,
    {
        let available: usize = if self.data_offset <= self.data_len { self.data_len - self.data_offset } else { 0 };
        if available < size {
            return Err(BufferError::DataLenIsLessReadableType { required: size, available, structure: structure.to_owned() });
        }
        if !aligned {
            return Err(BufferError::AlignError { required: align, structure: structure.to_owned() });
        }
        Ok(())
    }

    /// The first `size` bytes of the pending data, to be read as the structure `structure`,
    /// once `check_read_struct` finds nothing against it (its error otherwise).
    pub fn try_read_struct(&self, size: usize, align: usize, aligned: bool, structure: &str) -> (r: Result<&[u8], BufferError>)
        requires
            offsets_in_order(self@),
        ensures
            available(self@) < size ==> (r matches Err(BufferError::DataLenIsLessReadableType { required, available: a, structure: s })
                && required == size && a == available(self@) && s@ == structure@),
            available(self@) >= size && !aligned ==> (r matches Err(BufferError::AlignError { required, structure: s })
                && required == align && s@ == structure@),
            available(self@) >= size && aligned ==> (r matches Ok(v) && v@ == pending(self@).take(size as int)),
    {
        match self.check_read_struct(size, align, aligned, structure) {
            Err(e) => Err(e),
            Ok(()) => {
                let start = self.data_offset;
                Ok(&self.buf.as_slice()[start..start + size])
            },
        }
    }

    /// How many bytes of data are left to consume.
    pub fn get_data_len(&self) -> (n: usize)
        requires
            self@.data_offset <= self@.data_len,
        ensures
            n == self@.data_len - self@.data_offset,
    {
        self.data_len - self.data_offset
    }

    /// Sets the end of the data; an end beyond the bytes of the buffer is refused.
    pub fn set_data_len(&mut self, data_len: usize) -> (r: Result<(), String>)
        ensures
            data_len <= old(self)@.bytes.len() ==> r is Ok && final(self)@ == (BufferView { data_len, ..old(self)@ }),
            data_len > old(self)@.bytes.len() ==> *final(self) == *old(self)
                && (r matches Err(m) && m@ == data_len_error_text(data_len as nat, old(self)@.bytes.len())),
    {
        if data_len > self.buf.len() {
            let mut m = String::from_str("data_len (");
            push_decimal(&mut m, data_len as u64);
            m.append(") exceeds physical buffer size (");
            push_decimal(&mut m, self.buf.len() as u64);
            m.append(")");
            return Err(m);
        }
        self.data_len = data_len;
        Ok(())
    }

    /// Moves the end of the data `n` bytes further, as after `n` bytes were written into the
    /// free room; an end beyond the bytes of the buffer is refused.
    pub fn grow_data_len(&mut self, n: usize) -> (r: Result<(), String>)
        requires
            old(self)@.data_offset <= old(self)@.data_len,
            old(self)@.data_len + n <= usize::MAX,
        ensures
            old(self)@.data_len + n <= old(self)@.bytes.len() ==> r is Ok
                && final(self)@ == (BufferView { data_len: (old(self)@.data_len + n) as usize, ..old(self)@ }),
            old(self)@.data_len + n > old(self)@.bytes.len() ==> *final(self) == *old(self)
                && (r matches Err(m) && m@ == data_len_error_text((old(self)@.data_len + n) as nat, old(self)@.bytes.len())),
    {
        let end = self.get_offset() + self.get_data_len() + n;
        self.set_data_len(end)
    }

    /// Gives the buffer `new_size` bytes: the first ones are kept, new ones are zero. The
    /// offsets are left as they were.
    pub fn resize(&mut self, new_size: usize)
        ensures
            final(self)@.bytes.len() == new_size,
            new_size <= old(self)@.bytes.len() ==> final(self)@.bytes == old(self)@.bytes.subrange(0, new_size as int),
            new_size > old(self)@.bytes.len() ==> final(self)@.bytes == old(self)@.bytes
                + Seq::new((new_size - old(self)@.bytes.len()) as nat, |i: int| 0u8),
            final(self)@.data_len == old(self)@.data_len,
            final(self)@.data_offset == old(self)@.data_offset,
    {
        let ghost old_bytes = self.buf@;
        self.buf.resize(new_size, 0u8);
        proof {
            if new_size > old_bytes.len() {
                assert(self.buf@ == old_bytes + Seq::new((new_size - old_bytes.len()) as nat, |i: int| 0u8)) by {
                    assert(self.buf@.subrange(0, old_bytes.len() as int) == old_bytes);
                    assert forall|i: int| old_bytes.len() <= i < new_size implies self.buf@[i] == 0u8 by {
                        assert(cloned::<u8>(0u8, self.buf@[i]));
                    }
                }
            }
        }
    }

    /// How many bytes the buffer can hold without reallocating: at least its length.
    pub fn capacity(&self) -> (c: usize)
        ensures
            self@.bytes.len() <= c <= isize::MAX,
    {
        vec_capacity(&self.buf)
    }

    /// How far the data has been consumed.
    pub fn get_offset(&self) -> (n: usize)
        ensures
            n == self@.data_offset,
    {
        self.data_offset
    }
}

/// A buffer holds at most `usize::MAX` bytes.
pub proof fn lemma_buffer_len_bound(b: &Buffer)
    ensures
        b@.bytes.len() <= usize::MAX,
{
    assert(b.buf@.len() == b.buf.len());
}

/// Consuming all the data, in any number of steps, empties the buffer.
pub proof fn lemma_consume_all(b: BufferView, n: nat)
    requires
        b.data_offset + n >= b.data_len,
    ensures
        consumed(b, n).data_len == 0,
        consumed(b, n).data_offset == 0,
        pending(consumed(b, n)) == Seq::<u8>::empty(),
{
}

/// Consuming `n` bytes of data, short of the end, drops exactly those bytes from the front of
/// the pending data.
pub proof fn lemma_consume_prefix(b: BufferView, n: nat)
    requires
        offsets_in_order(b),
        b.data_offset + n < b.data_len,
    ensures
        pending(consumed(b, n)) == pending(b).subrange(n as int, pending(b).len() as int),
        offsets_in_order(consumed(b, n)),
{
    assert(pending(consumed(b, n)) =~= pending(b).subrange(n as int, pending(b).len() as int));
}

} // verus!
