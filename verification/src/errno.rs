use vstd::prelude::*;
use nix::errno::Errno;

verus! {

/// The system error numbers that the library tells apart.
#[derive(Debug, Clone, Copy, PartialEq, Eq, Structural)]
pub enum ErrnoKind {
    /// `EAGAIN` (also `EWOULDBLOCK`): no data now on a non-blocking descriptor.
    Again,
    /// `EBADF`: not a valid open descriptor.
    BadFd,
    /// `EINTR`: interrupted by a signal.
    Interrupted,
    /// `EINVAL`: an invalid argument.
    Invalid,
    /// `ECONNRESET`: the peer reset the connection.
    ConnReset,
    /// `ENOTCONN`: the socket is not connected.
    NotConn,
    /// `ETIMEDOUT`: the connection timed out.
    TimedOut,
    /// `EIO`: an input or output error.
    Io,
    /// `ENOBUFS`: no buffer space.
    NoBufs,
    /// `ENOMEM`: out of memory.
    NoMem,
    /// `ENXIO`: no such device or address.
    NxIo,
    /// `EFAULT`: a bad address.
    Fault,
    /// Any other error number.
    Other,
}

/// Which of the errors the library tells apart the error number `code` is, as `nix` names it
/// on the platform the library runs on.
pub uninterp spec fn errno_kind_of(code: i32) -> ErrnoKind;

/// The text of the error number `code`: its name, a colon and its description, as `nix`
/// displays it.
pub uninterp spec fn errno_display(code: i32) -> Seq<char>;

/// `nix::errno::Errno::from_raw`, its variants told apart: the kind of the error number `code`.
/// The numbers themselves differ between platforms, so the result is named, not stated.
#[verifier::external_body]
pub(crate) fn errno_kind(code: i32) -> (k: ErrnoKind)
    ensures
        k == errno_kind_of(code),
{
    match Errno::from_raw(code) {
        Errno::EAGAIN => ErrnoKind::Again,
        Errno::EBADF => ErrnoKind::BadFd,
        Errno::EINTR => ErrnoKind::Interrupted,
        Errno::EINVAL => ErrnoKind::Invalid,
        Errno::ECONNRESET => ErrnoKind::ConnReset,
        Errno::ENOTCONN => ErrnoKind::NotConn,
        Errno::ETIMEDOUT => ErrnoKind::TimedOut,
        Errno::EIO => ErrnoKind::Io,
        Errno::ENOBUFS => ErrnoKind::NoBufs,
        Errno::ENOMEM => ErrnoKind::NoMem,
        Errno::ENXIO => ErrnoKind::NxIo,
        Errno::EFAULT => ErrnoKind::Fault,
        _ => ErrnoKind::Other,
    }
}

/// The `Display` text of `nix::errno::Errno::from_raw(code)`: the error's name, a colon and
/// its description. The text is named, not stated.
#[verifier::external_body]
pub(crate) fn errno_text(code: i32) -> (s: String)
    ensures
        s@ == errno_display(code),
{
    format!("{}", Errno::from_raw(code))
}

} // verus!
