use vstd::prelude::*;
use std::time::Instant;
use crate::unix_app::instant_now;

verus! {

/// The shutdown flags of an application: whether a stop is under way or done, when it was
/// asked for, and its code and error.
#[derive(Debug)]
pub struct AppShutdown {
    is_stoped: bool,
    is_stop: bool,
    stop_time: Option<Instant>,
    stop_code: Option<i32>,
    stop_error: Option<String>,
}

/// What the shutdown flags hold; the time is left out.
pub struct AppShutdownFlags {
    pub is_stoped: bool,
    pub is_stop: bool,
    pub has_time: bool,
    pub stop_code: Option<i32>,
    pub stop_error: Option<Seq<char>>,
}

impl View for AppShutdown {
    type V = AppShutdownFlags;

    closed spec fn view(&self) -> AppShutdownFlags {
        AppShutdownFlags {
            is_stoped: self.is_stoped,
            is_stop: self.is_stop,
            has_time: self.stop_time is Some,
            stop_code: self.stop_code,
            stop_error: match self.stop_error {
                Some(e) => Some(e@),
                None => None,
            },
        }
    }
}

/// The flags of an application that runs.
pub open spec fn running_flags() -> AppShutdownFlags {
    AppShutdownFlags { is_stoped: false, is_stop: false, has_time: false, stop_code: None, stop_error: None }
}

/// The exit code: the one a stop was asked with, or 255.
pub open spec fn exit_code_of(f: AppShutdownFlags) -> i32 {
    match f.stop_code {
        Some(c) => c,
        None => 255,
    }
}

impl AppShutdown {
    /// The flags of an application that runs.
    pub fn new() -> (s: Self)
        ensures
            s@ == running_flags(),
    {
        AppShutdown { is_stoped: false, is_stop: false, stop_time: None, stop_code: None, stop_error: None }
    }

    /// Whether a stop is under way.
    pub fn is_stop(&self) -> (b: bool)
        ensures
            b == self@.is_stop,
    {
        self.is_stop
    }

    /// Whether the application has stopped.
    pub fn is_stoped(&self) -> (b: bool)
        ensures
            b == self@.is_stoped,
    {
        self.is_stoped
    }

    /// Begins a stop now, with `stop_code` and `error`.
    pub fn shutdown_starting(&mut self, stop_code: i32, error: Option<String>)
        ensures
            final(self)@ == (AppShutdownFlags {
                is_stoped: false,
                is_stop: true,
                has_time: true,
                stop_code: Some(stop_code),
                stop_error: match error { Some(e) => Some(e@), None => None },
            }),
    {
        self.stop_time = Some(instant_now());
        self.is_stop = true;
        self.is_stoped = false;
        self.stop_code = Some(stop_code);
        self.stop_error = error;
    }

    /// Marks the stop as done; the code, error and time stay.
    pub fn shutdown_complited(&mut self)
        ensures
            final(self)@ == (AppShutdownFlags { is_stop: false, is_stoped: true, ..old(self)@ }),
    {
        self.is_stop = false;
        self.is_stoped = true;
    }

    /// Goes back to running, forgetting the stop.
    pub fn shutdown_cancel(&mut self)
        ensures
            final(self)@ == running_flags(),
    {
        self.is_stop = false;
        self.is_stoped = false;
        self.stop_time = None;
        self.stop_code = None;
        self.stop_error = None;
    }

    /// The exit code: the one a stop was asked with, or 255.
    pub fn stop_code(&self) -> (c: i32)
        ensures
            c == exit_code_of(self@),
    {
        match self.stop_code {
            Some(c) => c,
            None => 255,
        }
    }
}

/// The context shared by the parts of an application.
#[derive(Debug)]
pub struct AppContext {
    pub shutdown: AppShutdown,
}

impl Default for AppContext {
    /// A context whose application runs.
    fn default() -> (c: Self)
        ensures
            c.shutdown@ == running_flags(),
    {
        AppContext { shutdown: AppShutdown::new() }
    }
}

/// A stop that is cancelled leaves no trace: the flags are those of a fresh application, and
/// the exit code is 255 again.
pub proof fn lemma_cancel_forgets(code: i32, error: Option<Seq<char>>)
    ensures
        exit_code_of(running_flags()) == 255,
        exit_code_of(AppShutdownFlags { is_stoped: false, is_stop: true, has_time: true, stop_code: Some(code), stop_error: error }) == code,
{
}

} // verus!
