use vstd::prelude::*;

pub mod text;
pub mod error;
pub mod unix_app;
pub mod shutdown;
pub mod buffer;
pub mod growable_buffer;
pub mod app_shutdown;
pub mod errno;
pub mod fd_io;
pub mod poll_handlers;
pub mod signals;
pub mod signal_plugin;
pub mod signalfd_middleware;
pub mod poll_plugin;
pub mod config_watcher;
pub mod logfile;
pub mod handler_traits;
pub mod keypress;
pub mod reload_config;
pub mod unix_poll;
pub mod log_buffer;
pub mod plugin;
pub mod plugin_loader;
pub mod context;
pub mod fds;
pub mod unix_event;
pub mod config_file;
pub mod poll_middleware;

verus! {
}
