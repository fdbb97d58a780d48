use vstd::prelude::*;

verus! {

/// A handler of the errors of `poll(2)` itself, for the application context `C` and the error
/// type `E`.
pub trait PollErrorHandler<C, E> {
    fn handle(&mut self, app: &mut C, err: E);
}

/// A handler that reads a descriptor reported ready for reading, given its position in the
/// poll set; it returns whether data was read.
pub trait ReadHandler<C> {
    fn read(&mut self, app: &mut C, pollfd_index: usize) -> bool;
}

/// A handler that writes to a descriptor reported ready for writing, given its position in
/// the poll set; it returns whether data was written.
pub trait PollOutHandler<C> {
    fn write(&mut self, app: &mut C, pollfd_index: usize) -> bool;
}

/// A handler of an error reported on a descriptor.
pub trait PollErrHandler<C> {
    fn handle(&mut self, app: &mut C, pollfd_index: usize);
}

/// A handler of an invalid descriptor.
pub trait PollNvalHandler<C> {
    fn handle(&mut self, app: &mut C, pollfd_index: usize);
}

/// A handler of a hang-up.
pub trait PollHupHandler<C> {
    fn handle(&mut self, app: &mut C, pollfd_index: usize);
}

/// A handler of the application's events, for the context `C`, values `V` and results `R`.
pub trait Handler<C, V, R> {
    fn handle(&mut self, context: C, value: V) -> R;
}

} // verus!

verus! {

/// A handler of the result of one call of `poll(2)`: the number of descriptors with events, or
/// -1 on error.
pub trait PollHandler<C> {
    fn handle(&mut self, res: i32);
}

/// What an application built on the poll loop offers: polling with a timeout, and writing to
/// standard output and to the pseudo-terminal.
pub trait SpecifiedApp<'a, R> {
    fn poll(&'a self, timeout: i32) -> R;
    fn write_stdout(&'a self, buf: &'a [u8]);
    fn write_pty(&'a self, buf: &'a [u8]);
}

} // verus!

verus! {

/// The position of the middleware a chain of `total` middlewares starts with: the one added
/// last; `None` for an empty chain, which has none to start with.
pub fn chain_start(total: usize) -> (r: Option<usize>)
    ensures
        r == (if total == 0 { None } else { Some((total - 1) as usize) }),
{
    if total == 0 {
        None
    } else {
        Some(total - 1)
    }
}

/// The position of the middleware that the one at `current` hands on to, in a chain of
/// `total`: the one added just before it; `None` when there is none.
pub fn chain_next(current: usize, total: usize) -> (r: Option<usize>)
    ensures
        r == (if current == 0 || current > total { None } else { Some((current - 1) as usize) }),
{
    if current == 0 || current > total {
        None
    } else {
        Some(current - 1)
    }
}

} // verus!
