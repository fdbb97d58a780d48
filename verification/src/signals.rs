use vstd::prelude::*;
use vstd::string::StringExecFns;
use nix::sys::signal::Signal;
use crate::text::{decimal, signed_decimal, push_decimal, push_signed_decimal};

verus! {

/// The signals the library acts on; any other valid signal is `Other`.
#[derive(Debug, Clone, Copy, PartialEq, Eq, Structural)]
pub enum SignalKind {
    Hup,
    Int,
    Quit,
    Term,
    Chld,
    Usr1,
    Usr2,
    Other,
}

/// Which signal the number `signo` is, as `nix` names it on the platform the library runs on;
/// `None` for a number that is no signal.
pub uninterp spec fn signal_kind_of(signo: i32) -> Option<SignalKind>;

/// The name of the signal `signo` (such as `SIGTERM`), as `nix` displays it.
pub uninterp spec fn signal_name_of(signo: i32) -> Seq<char>;

/// `nix::sys::signal::Signal::try_from`, its variants told apart: the kind of the signal
/// `signo`, or `None` when the number is no signal. The numbers differ between platforms, so
/// the result is named, not stated.
#[verifier::external_body]
pub(crate) fn signal_kind(signo: i32) -> (k: Option<SignalKind>)
    ensures
        k == signal_kind_of(signo),
{
    match Signal::try_from(signo) {
        Ok(Signal::SIGHUP) => Some(SignalKind::Hup),
        Ok(Signal::SIGINT) => Some(SignalKind::Int),
        Ok(Signal::SIGQUIT) => Some(SignalKind::Quit),
        Ok(Signal::SIGTERM) => Some(SignalKind::Term),
        Ok(Signal::SIGCHLD) => Some(SignalKind::Chld),
        Ok(Signal::SIGUSR1) => Some(SignalKind::Usr1),
        Ok(Signal::SIGUSR2) => Some(SignalKind::Usr2),
        Ok(_) => Some(SignalKind::Other),
        Err(_) => None,
    }
}

/// The `Display` text of `nix::sys::signal::Signal::try_from(signo)`: the signal's name, or
/// `None` when the number is no signal, exactly when `signal_kind` gives `None`.
#[verifier::external_body]
pub(crate) fn signal_name(signo: i32) -> (r: Option<String>)
    ensures
        r is None <==> signal_kind_of(signo) is None,
        r matches Some(s) ==> s@ == signal_name_of(signo),
{
    match Signal::try_from(signo) {
        Ok(s) => Some(format!("{}", s)),
        Err(_) => None,
    }
}

/// The text that records who sent a signal: its name, the sender's pid and uid.
pub open spec fn signal_message(name: Seq<char>, pid: u32, uid: u32) -> Seq<char> {
    name + " from pid: "@ + decimal(pid as nat) + " (uid: "@ + decimal(uid as nat) + ")"@
}

/// Builds the text that records who sent a signal.
pub fn make_signal_message(name: &str, pid: u32, uid: u32) -> (s: String)
    ensures
        s@ == signal_message(name@, pid, uid),
{
    let mut s = String::from_str(name);
    s.append(" from pid: ");
    push_decimal(&mut s, pid as u64);
    s.append(" (uid: ");
    push_decimal(&mut s, uid as u64);
    s.append(")");
    s
}

/// `prefix`, the decimal text of `n`, then `suffix`.
pub open spec fn framed_number(prefix: Seq<char>, n: int, suffix: Seq<char>) -> Seq<char> {
    prefix + signed_decimal(n) + suffix
}

/// Builds `prefix`, the decimal text of `n`, then `suffix`.
pub fn frame_number(prefix: &str, n: i64, suffix: &str) -> (s: String)
    ensures
        s@ == framed_number(prefix@, n as int, suffix@),
{
    let mut s = String::from_str(prefix);
    push_signed_decimal(&mut s, n);
    s.append(suffix);
    s
}

} // verus!
