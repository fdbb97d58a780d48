use vstd::prelude::*;

use crate::log_buffer::LogBufferStack;
use crate::reload_config::ReloadConfig;
use crate::shutdown::{AppShutdown, ShutdownType};
use crate::unix_poll::{PollFd, UnixPoll};

verus! {

/// Marker for the state that the application hands to its plugins.
pub trait AppContext {
}

/// What the application and its plugins share: the descriptors polled, the shutdown state,
/// the log queue and the reload flag.
#[derive(Debug)]
pub struct UnixContext {
    pub poll: UnixPoll,
    pub shutdown: AppShutdown,
    pub log_buffer: LogBufferStack,
    pub reload_config: ReloadConfig,
}

impl UnixContext {
    /// A context in its starting state: nothing polled yet, with the given timeout; the
    /// application running; no log entry; no reload requested.
    pub fn new(poll_timeout: i32) -> (r: Self)
        ensures
            r.poll.entries() == Seq::<PollFd>::empty(),
            r.poll.spec_timeout() == poll_timeout,
            r.poll.spec_result() == 0,
            r.shutdown@.kind == ShutdownType::Running,
            r.shutdown@.code == 0,
            r.shutdown@.message is None,
            r.shutdown@.start_time_ms == 0,
            r.shutdown@.end_time_ms == 0,
            r.log_buffer@.len() == 0,
            r.reload_config@ == false,
    {
        UnixContext {
            poll: UnixPoll::new(poll_timeout),
            shutdown: AppShutdown::default(),
            log_buffer: LogBufferStack::new(),
            reload_config: ReloadConfig::new(),
        }
    }

    /// Takes a pending reload request: tells whether one was made, and clears it. Nothing
    /// else in the context changes.
    pub fn check_and_reset_reload(&mut self) -> (was_set: bool)
        ensures
            was_set == old(self).reload_config@,
            final(self).reload_config@ == false,
            final(self).poll == old(self).poll,
            final(self).shutdown == old(self).shutdown,
            final(self).log_buffer == old(self).log_buffer,
    {
        self.reload_config.check_and_reset()
    }

    /// Requests a reload of the configuration. Nothing else in the context changes.
    pub fn set_reload_needed(&mut self)
        ensures
            final(self).reload_config@ == true,
            final(self).poll == old(self).poll,
            final(self).shutdown == old(self).shutdown,
            final(self).log_buffer == old(self).log_buffer,
    {
        self.reload_config.set_reload_needed();
    }
}

impl AppContext for UnixContext {
}

} // verus!
