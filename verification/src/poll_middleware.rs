use vstd::prelude::*;
use crate::unix_app::{AppShutdown, shutdown_code, shutdown_message, shutdown_start};

verus! {

/// The exit text of a shutdown state: its message, or the empty text.
pub open spec fn exit_text(s: AppShutdown) -> Seq<char> {
    match shutdown_message(s) {
        Some(m) => m@,
        None => Seq::empty(),
    }
}

/// The middleware at the top of the poll loop: it holds the shutdown state that the loop
/// runs under and answers, once the loop has ended, with what the process exits with.
pub struct DefaultPollMiddleware {
    pub shutdown: AppShutdown,
}

impl DefaultPollMiddleware {
    /// A middleware over the given shutdown state.
    pub fn new(shutdown: AppShutdown) -> (m: Self)
        ensures
            m.shutdown == shutdown,
    {
        DefaultPollMiddleware { shutdown }
    }

    /// The exit code: that of the shutdown, or 0 while none has begun.
    pub fn exit_code(&self) -> (c: i32)
        ensures
            c == match shutdown_code(self.shutdown) {
                Some(code) => code,
                None => 0i32,
            },
    {
        match self.shutdown.code() {
            Some(code) => code,
            None => 0,
        }
    }

    /// The exit message: that of the shutdown, or the empty text.
    pub fn exit_message(&self) -> (m: String)
        ensures
            m@ == exit_text(self.shutdown),
    {
        match self.shutdown.message() {
            Some(m) => m,
            None => String::new(),
        }
    }

    /// Whether the shutdown has been carried out.
    pub fn is_stoped(&self) -> (b: bool)
        ensures
            b <==> self.shutdown is Stoped,
    {
        self.shutdown.is_stoped()
    }

    /// Ends the processing: a shutdown under way (smart, fast or immediate) is marked done,
    /// keeping its code, message and start; a running or stopped state is left as it is.
    pub fn stop_processing(&mut self)
        ensures
            (old(self).shutdown is Running || old(self).shutdown is Stoped) ==>
                final(self).shutdown == old(self).shutdown,
            !(old(self).shutdown is Running || old(self).shutdown is Stoped) ==> {
                &&& final(self).shutdown is Stoped
                &&& shutdown_code(final(self).shutdown) == shutdown_code(old(self).shutdown)
                &&& shutdown_message(final(self).shutdown) == shutdown_message(old(self).shutdown)
                &&& shutdown_start(final(self).shutdown) == shutdown_start(old(self).shutdown)
            },
    {
        match self.shutdown {
            AppShutdown::SmartStop { .. } => {
                self.shutdown.shutdown_complited();
            },
            AppShutdown::FastStop { .. } => {
                self.shutdown.shutdown_complited();
            },
            AppShutdown::ImmediateStop { .. } => {
                self.shutdown.shutdown_complited();
            },
            AppShutdown::Stoped { .. } => {},
            AppShutdown::Running => {},
        }
    }
}

} // verus!
