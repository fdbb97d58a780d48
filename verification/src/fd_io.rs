use vstd::prelude::*;
use vstd::string::StringExecFns;
use crate::buffer::{Buffer, BufferView, consumed, data_len_error_text, offsets_in_order};
use crate::errno::{errno_display, errno_kind, errno_kind_of, errno_text, ErrnoKind};

verus! {

/// What one read from a descriptor into a buffer came to.
#[derive(Debug)]
pub enum ReadResult {
    /// This many bytes were read.
    Success(usize),
    /// The end of the stream.
    Eof { fd: i32 },
    /// No data now on a non-blocking descriptor; try again later.
    WouldBlock { fd: i32 },
    /// A signal interrupted the read; try again.
    Interrupted { fd: i32 },
    /// The descriptor is not valid or its connection is closed.
    InvalidFd { fd: i32 },
    /// Any other error, with its text.
    Fatal { fd: i32, msg: String },
    /// The buffer has no free room to read into.
    BufferIsFull { fd: i32, data_len: usize },
}

/// What one write of a buffer's data to a descriptor came to.
#[derive(Debug)]
pub enum WriteResult {
    /// This many bytes were written.
    Success(usize),
    /// Nothing was written: the other end is closed.
    Eof { fd: i32 },
    /// The descriptor cannot take data now; try again later.
    WouldBlock { fd: i32 },
    /// A signal interrupted the write; try again.
    Interrupted { fd: i32 },
    /// The descriptor is not valid or its connection is closed.
    InvalidFd { fd: i32 },
    /// Any other error, with its text.
    Fatal { fd: i32, msg: String },
    /// The buffer holds no data to write.
    BufferEmpty,
}

/// Whether an error means that the descriptor is not valid or its connection is closed.
pub open spec fn closes_descriptor(k: ErrnoKind) -> bool {
    k is BadFd || k is NotConn || k is ConnReset || k is TimedOut || k is NxIo
}

/// The free room after the data of a buffer.
pub open spec fn free_room(b: BufferView) -> int {
    b.bytes.len() - b.data_len
}

/// Checks, before a read, that the buffer has free room: without it, the read is not made and
/// the outcome is `BufferIsFull` with the length of the pending data.
pub fn read_fd_check_room(fd: i32, buffer: &mut Buffer) -> (r: Option<ReadResult>)
    requires
        offsets_in_order(old(buffer)@),
    ensures
        *final(buffer) == *old(buffer),
        free_room(old(buffer)@) > 0 <==> r is None,
        r matches Some(x) ==> (x matches ReadResult::BufferIsFull { fd: f, data_len }
            && f == fd && data_len == old(buffer)@.data_len - old(buffer)@.data_offset),
{
    let room = buffer.as_free_slice().len();
    if room == 0 {
        Some(ReadResult::BufferIsFull { fd, data_len: buffer.get_data_len() })
    } else {
        None
    }
}

/// Takes in the outcome of a read into the free room of the buffer: the number of bytes read,
/// or the error number. Bytes read extend the data; zero bytes mean that the descriptor is
/// closed; errors are sorted by kind.
pub fn read_fd_finish(fd: i32, buffer: &mut Buffer, outcome: Result<usize, i32>) -> (r: ReadResult)
    requires
        offsets_in_order(old(buffer)@),
        outcome matches Ok(n) ==> n <= free_room(old(buffer)@),
    ensures
        match outcome {
            Ok(n) => if n == 0 {
                r matches ReadResult::InvalidFd { fd: f } && f == fd && *final(buffer) == *old(buffer)
            } else {
                r matches ReadResult::Success(m) && m == n
                    && final(buffer)@ == (BufferView { data_len: (old(buffer)@.data_len + n) as usize, ..old(buffer)@ })
            },
            Err(code) => *final(buffer) == *old(buffer) && {
                let k = errno_kind_of(code);
                if k is Again {
                    r matches ReadResult::WouldBlock { fd: f } && f == fd
                } else if k is Interrupted {
                    r matches ReadResult::Interrupted { fd: f } && f == fd
                } else if closes_descriptor(k) {
                    r matches ReadResult::InvalidFd { fd: f } && f == fd
                } else {
                    r matches ReadResult::Fatal { fd: f, msg } && f == fd && msg@ == "read error: "@ + errno_display(code)
                }
            },
        },
{
    match outcome {
        Ok(0) => ReadResult::InvalidFd { fd },
        Ok(n) => match {
            proof {
                crate::buffer::lemma_buffer_len_bound(buffer);
            }
            buffer.grow_data_len(n)
        } {
            Err(e) => ReadResult::Fatal { fd, msg: e },
            Ok(()) => ReadResult::Success(n),
        },
        Err(code) => {
            let k = errno_kind(code);
            match k {
                ErrnoKind::Again => ReadResult::WouldBlock { fd },
                ErrnoKind::Interrupted => ReadResult::Interrupted { fd },
                ErrnoKind::BadFd | ErrnoKind::NotConn | ErrnoKind::ConnReset | ErrnoKind::TimedOut
                | ErrnoKind::NxIo => ReadResult::InvalidFd { fd },
                _ => {
                    let mut msg = String::from_str("read error: ");
                    let t = errno_text(code);
                    msg.append(t.as_str());
                    ReadResult::Fatal { fd, msg }
                },
            }
        },
    }
}

/// Checks, before a write, that the buffer holds data: without it, the write is not made and
/// the outcome is `BufferEmpty`.
pub fn write_fd_check_data(buffer: &Buffer) -> (r: Option<WriteResult>)
    requires
        offsets_in_order(buffer@),
    ensures
        r is None <==> buffer@.data_len > buffer@.data_offset,
        r matches Some(x) ==> x is BufferEmpty,
{
    if buffer.get_data_len() == 0 {
        Some(WriteResult::BufferEmpty)
    } else {
        None
    }
}

/// Takes in the outcome of a write of the buffer's pending data: the number of bytes written,
/// or the error number. Written bytes are consumed; zero bytes mean that the other end is
/// closed; errors are sorted by kind.
pub fn write_fd_finish(fd: i32, buffer: &mut Buffer, outcome: Result<usize, i32>) -> (r: WriteResult)
    requires
        offsets_in_order(old(buffer)@),
        outcome matches Ok(n) ==> n <= old(buffer)@.data_len - old(buffer)@.data_offset,
    ensures
        match outcome {
            Ok(n) => if n == 0 {
                r matches WriteResult::Eof { fd: f } && f == fd && *final(buffer) == *old(buffer)
            } else {
                r matches WriteResult::Success(m) && m == n && final(buffer)@ == consumed(old(buffer)@, n as nat)
            },
            Err(code) => *final(buffer) == *old(buffer) && {
                let k = errno_kind_of(code);
                if k is Again {
                    r matches WriteResult::WouldBlock { fd: f } && f == fd
                } else if k is Interrupted {
                    r matches WriteResult::Interrupted { fd: f } && f == fd
                } else if closes_descriptor(k) {
                    r matches WriteResult::InvalidFd { fd: f } && f == fd
                } else {
                    r matches WriteResult::Fatal { fd: f, msg } && f == fd && msg@ == "write() failed: "@ + errno_display(code)
                }
            },
        },
{
    match outcome {
        Ok(0) => WriteResult::Eof { fd },
        Ok(n) => {
            buffer.consume(n);
            WriteResult::Success(n)
        },
        Err(code) => {
            let k = errno_kind(code);
            match k {
                ErrnoKind::Again => WriteResult::WouldBlock { fd },
                ErrnoKind::Interrupted => WriteResult::Interrupted { fd },
                ErrnoKind::BadFd | ErrnoKind::NotConn | ErrnoKind::ConnReset | ErrnoKind::TimedOut
                | ErrnoKind::NxIo => WriteResult::InvalidFd { fd },
                _ => {
                    let mut msg = String::from_str("write() failed: ");
                    let t = errno_text(code);
                    msg.append(t.as_str());
                    WriteResult::Fatal { fd, msg }
                },
            }
        },
    }
}

} // verus!
