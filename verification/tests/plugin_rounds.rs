use abstractions::buffer::Buffer;
use abstractions::config_watcher::{ConfigWatcherPlugin, EditPattern, WatchStart, IN_CLOSE_WRITE, IN_MODIFY};
use abstractions::fd_io::ReadResult;
use abstractions::logfile::{flush_step, FdHandler, FdStep, FlushStep, LogFileHandler, LogPlugin, LogRoundStart, PluginError as LogError};
use abstractions::poll_handlers::PollBits;
use abstractions::poll_plugin::{PluginError as PollError, PollPlugin, RoundStart};
use abstractions::reload_config::ReloadConfig;
use abstractions::shutdown::{AppShutdown, ShutdownType};
use abstractions::signal_plugin::{signal_log_note, ErrorStep, EventsStart, PluginError, SignalFdPlugin, SignalFollowUp};
use abstractions::signalfd_middleware::{DefaultSignalfdMiddleware, SignalfdFollowUp};
use abstractions::signals::make_signal_message;
use abstractions::unix_app::AppShutdown as StopState;
use abstractions::unix_poll::{PollFd, UnixPoll};

fn poll_with(fd: i32, revents: i16) -> UnixPoll {
    let mut p = UnixPoll::new(100);
    p.add_fd(fd, 1);
    let polled = vec![PollFd { fd, events: 1, revents }];
    p.store_poll_outcome(&polled, 1);
    p
}

fn poll_bits() -> PollBits {
    PollBits {
        pollin: libc::POLLIN,
        pollout: libc::POLLOUT,
        pollerr: libc::POLLERR,
        pollhup: libc::POLLHUP,
        pollnval: libc::POLLNVAL,
        known: libc::POLLIN | libc::POLLPRI | libc::POLLOUT | libc::POLLERR | libc::POLLHUP | libc::POLLNVAL
            | libc::POLLRDNORM | libc::POLLRDBAND | libc::POLLWRNORM | libc::POLLWRBAND,
    }
}

#[test]
fn signal_messages() {
    assert_eq!(make_signal_message("SIGTERM", 12, 1000), "SIGTERM from pid: 12 (uid: 1000)");
    let mut p = SignalFdPlugin::new(9, 128);
    let mut s = AppShutdown::default();
    let mut r = ReloadConfig::new();
    assert_eq!(p.process_signal(libc::SIGWINCH as u32, 1, 2, &mut s, &mut r).unwrap(), SignalFollowUp::Nothing);
    assert!(s.is_running());
    p.process_signal(libc::SIGINT as u32, 1, 2, &mut s, &mut r).unwrap();
    assert_eq!(s.get_message(), Some(String::from("SIGINT from pid: 1 (uid: 2)")));
}

#[test]
fn signal_plugin_sigterm_begins_smart_stop() {
    let mut p = SignalFdPlugin::new(9, 128);
    let mut s = AppShutdown::default();
    let mut r = ReloadConfig::new();
    let f = p.process_signal(libc::SIGTERM as u32, 42, 7, &mut s, &mut r).unwrap();
    assert_eq!(f, SignalFollowUp::Nothing);
    assert_eq!(s.get_type(), ShutdownType::SmartStop);
    assert_eq!(s.get_code(), 0);
    assert_eq!(s.get_message(), Some(String::from("SIGTERM from pid: 42 (uid: 7)")));
    assert!(!r.is_reload_needed());
}

#[test]
fn signal_plugin_other_signals() {
    let mut p = SignalFdPlugin::new(9, 128);
    let mut s = AppShutdown::default();
    let mut r = ReloadConfig::new();
    assert_eq!(p.process_signal(libc::SIGCHLD as u32, 5, 0, &mut s, &mut r).unwrap(), SignalFollowUp::Reap(5));
    assert_eq!(p.process_signal(libc::SIGHUP as u32, 5, 0, &mut s, &mut r).unwrap(), SignalFollowUp::Nothing);
    assert!(r.is_reload_needed());
    assert!(s.is_running());
    p.process_signal(libc::SIGINT as u32, 1, 1, &mut s, &mut r).unwrap();
    assert!(s.is_fast_stop());
    p.process_signal(libc::SIGQUIT as u32, 1, 1, &mut s, &mut r).unwrap();
    assert!(s.is_immediate_stop());
    match p.process_signal(0, 1, 1, &mut s, &mut r) {
        Err(PluginError::ProcessingError(m)) => assert_eq!(m, "Failed to convert signal number to enum: 0"),
        _ => panic!("expected a processing error"),
    }
}

#[test]
fn signal_plugin_events_and_reads() {
    let bits = poll_bits();
    let p = SignalFdPlugin::new(9, 128);
    match p.check_events(&UnixPoll::new(0), bits) {
        EventsStart::Failed(PluginError::RecoverableFdError(m)) => assert_eq!(m, "Signal fd 9 not found in poll"),
        _ => panic!("expected a missing descriptor"),
    }
    assert!(matches!(p.check_events(&poll_with(9, bits.pollin), bits), EventsStart::ReadThenReset));
    assert!(matches!(p.check_events(&poll_with(9, 0), bits), EventsStart::Reset));
    match p.check_events(&poll_with(9, bits.pollerr | bits.pollin), bits) {
        EventsStart::Failed(PluginError::RecoverableFdError(m)) => assert_eq!(m, "POLLERR on signal fd 9"),
        _ => panic!("expected POLLERR"),
    }
    let mut p = SignalFdPlugin::new(9, 128);
    assert!(p.after_read(ReadResult::Success(128)).unwrap());
    match p.after_read(ReadResult::Success(4)) {
        Err(PluginError::RecoverableFdError(m)) => {
            assert_eq!(m, "Unexpected number of bytes read: 4 for signalfd: 9. the 128 byte is expected to arrive")
        }
        _ => panic!("expected a partial read"),
    }
    assert!(!p.after_read(ReadResult::WouldBlock { fd: 9 }).unwrap());
    assert!(matches!(p.after_read(ReadResult::Eof { fd: 9 }), Err(PluginError::Fatal(_))));
    match p.after_read(ReadResult::Fatal { fd: 9, msg: String::from("x") }) {
        Err(PluginError::ReadError(m)) => assert_eq!(m, "signal fd fatal 9: x"),
        _ => panic!("expected a read error"),
    }
}

#[test]
fn signal_plugin_counts_errors_and_recoveries() {
    let mut p = SignalFdPlugin::new(9, 128);
    let recoverable = PluginError::RecoverableFdError(String::from("x"));
    for _ in 0..3 {
        assert_eq!(p.handle_err(&recoverable), ErrorStep::TryRecover);
    }
    assert_eq!(p.handle_err(&recoverable), ErrorStep::Code(0));
    assert_eq!(p.handle_err(&PluginError::ReadError(String::from("r"))), ErrorStep::Code(0));
    assert_eq!(p.handle_err(&PluginError::ReadError(String::from("r"))), ErrorStep::Code(1));
    assert_eq!(p.after_recover(true, &recoverable), 0);
    assert_eq!(p.after_recover(false, &recoverable), 1);
    assert_eq!(p.handle_ok(), 0);
    assert_eq!(p.handle_err(&PluginError::Fatal(String::from("f"))), ErrorStep::Code(1));
    let mut poll = poll_with(9, 0);
    assert!(p.begin_recover(&mut poll));
    assert!(!poll.has_fd(9));
    p.complete_recover(11, 64);
    assert_eq!(p.fd(), 11);
}

#[test]
fn signal_plugin_round_start() {
    let p = SignalFdPlugin::new(9, 128);
    let mut s = AppShutdown::default();
    let mut poll = UnixPoll::new(0);
    assert_eq!(p.handle_start(&s, &poll), Some(0));
    poll.set_result(2);
    assert_eq!(p.handle_start(&s, &poll), None);
    s.shutdown_fast_at(1);
    assert_eq!(p.handle_start(&s, &poll), Some(1));
}

#[test]
fn signalfd_middleware_acts_on_signals() {
    let mut m = DefaultSignalfdMiddleware::new();
    let mut s = StopState::new();
    assert_eq!(m.handle_signal(libc::SIGTERM as u32, 3, 4, &mut s), SignalfdFollowUp::Nothing);
    assert!(s.is_stop());
    assert_eq!(s.code(), Some(0));
    assert_eq!(s.message(), Some(String::from("SIGTERM from pid: 3 (uid: 4)")));
    assert_eq!(m.handle_signal(libc::SIGCHLD as u32, 8, 0, &mut s), SignalfdFollowUp::Reap(8));
    assert_eq!(m.try_handle_signal(0, 1, 1, &mut s), None);
}

#[test]
fn poll_plugin_counts_and_gives_up() {
    let mut p = PollPlugin::new();
    let mut s = AppShutdown::default();
    let mut poll = UnixPoll::new(0);
    assert_eq!(p.begin_round(&s, &poll), RoundStart::NoFds);
    assert_eq!(p.finish_round(&mut s, &mut poll, None), 0);
    poll.add_fd(3, 1);
    assert_eq!(p.begin_round(&s, &poll), RoundStart::Poll);
    assert_eq!(p.finish_round(&mut s, &mut poll, Some(Ok(1))), 0);
    assert_eq!(poll.get_result(), 1);
    for _ in 0..4 {
        assert_eq!(p.finish_round(&mut s, &mut poll, Some(Err(libc::EINTR))), 0);
    }
    assert!(s.is_running());
    assert_eq!(p.finish_round(&mut s, &mut poll, Some(Err(libc::EINTR))), 1);
    assert!(s.is_smart_stop());
    assert_eq!(s.get_code(), -1);
    assert_eq!(s.get_message(), Some(String::from("Poll system failed after 5 consecutive errors")));
}

#[test]
fn poll_plugin_error_kinds() {
    assert!(matches!(PollPlugin::classify_error(libc::EFAULT), PollError::Fatal(_)));
    assert!(matches!(PollPlugin::classify_error(libc::EINTR), PollError::Temporary(_)));
    match PollPlugin::classify_error(libc::EINVAL) {
        PollError::Warning(m) => assert!(m.starts_with("Poll failed with invalid argument: EINVAL")),
        _ => panic!("expected a warning"),
    }
    let mut p = PollPlugin::new();
    let mut s = AppShutdown::default();
    let mut poll = UnixPoll::new(0);
    assert_eq!(p.finish_round(&mut s, &mut poll, Some(Err(libc::EFAULT))), 1);
    assert!(s.is_running());
    s.shutdown_smart_at(5);
    assert_eq!(p.begin_round(&s, &poll), RoundStart::Return(1));
    assert_eq!(p.free(), 0);
}

fn record(wd: i32, mask: u32) -> Vec<u8> {
    let mut v = Vec::new();
    v.extend_from_slice(&(wd as u32).to_le_bytes());
    v.extend_from_slice(&mask.to_le_bytes());
    v.extend_from_slice(&0u32.to_le_bytes());
    v.extend_from_slice(&0u32.to_le_bytes());
    v
}

fn fill(w: &mut ConfigWatcherPlugin, bytes: &[u8]) {
    let b = w.buffer_mut();
    b.clear();
    b.as_mut_free_slice()[..bytes.len()].copy_from_slice(bytes);
    b.grow_data_len(bytes.len()).unwrap();
}

#[test]
fn config_watcher_detects_modify_then_close() {
    let bits = poll_bits();
    let mut poll = UnixPoll::new(0);
    let mut w = ConfigWatcherPlugin::new(&mut poll, bits, 20, 1, String::from("config.toml"), true);
    assert!(poll.has_fd(20));
    let mut reload = ReloadConfig::new();
    let mut bytes = record(1, IN_MODIFY);
    bytes.extend(record(2, IN_CLOSE_WRITE));
    fill(&mut w, &bytes);
    assert!(!w.process_events(&mut Vec::new()));
    fill(&mut w, &record(1, IN_CLOSE_WRITE));
    w.finish_events(&mut reload, true, &mut Vec::new());
    assert!(reload.is_reload_needed());
    assert_eq!(w.free(&mut poll), 0);
    assert!(!poll.has_fd(20));
}

#[test]
fn config_watcher_close_without_modify_completes() {
    let bits = poll_bits();
    let mut poll = UnixPoll::new(0);
    let mut w = ConfigWatcherPlugin::new(&mut poll, bits, 20, 1, String::from("config.toml"), true);
    fill(&mut w, &record(1, IN_CLOSE_WRITE));
    assert!(w.process_events(&mut Vec::new()));
    let mut cut = record(1, IN_CLOSE_WRITE);
    cut[12] = 200;
    let mut w2 = ConfigWatcherPlugin::new(&mut poll, bits, 21, 1, String::from("c"), true);
    fill(&mut w2, &cut);
    assert!(!w2.process_events(&mut Vec::new()));
    let _ = EditPattern::Idle;
}

#[test]
fn config_watcher_events_and_counts() {
    let bits = poll_bits();
    let mut poll = UnixPoll::new(0);
    let mut w = ConfigWatcherPlugin::new(&mut poll, bits, 20, 1, String::from("config.toml"), true);
    assert!(matches!(w.check_events(&poll, bits), WatchStart::Reset));
    assert!(matches!(w.check_events(&poll_with(20, bits.pollin), bits), WatchStart::ReadThenReset));
    assert!(w.after_read(ReadResult::Success(16)).unwrap());
    assert!(!w.after_read(ReadResult::Interrupted { fd: 20 }).unwrap());
    let mut s = AppShutdown::default();
    assert_eq!(w.handle_start(&s, &poll), Some(0));
    s.shutdown_smart_at(1);
    assert_eq!(w.handle_start(&s, &poll), Some(1));
    let e = abstractions::config_watcher::PluginError::ReadError(String::from("r"));
    for _ in 0..5 {
        assert_eq!(w.handle_err(&e), 0);
    }
    assert_eq!(w.handle_err(&e), 1);
    assert_eq!(w.handle_ok(), 0);
}

#[test]
fn logfile_fd_handler_steps() {
    let bits = poll_bits();
    let mut poll = UnixPoll::new(0);
    let mut h = FdHandler::new(30, 8);
    match h.check_events(&poll, bits) {
        FdStep::Failed(LogError::RecoverableFdError(m)) => assert_eq!(m, "fd 30 not registered"),
        _ => panic!("expected an unregistered descriptor"),
    }
    h.register_with_poll(&mut poll, bits).unwrap();
    assert!(matches!(h.check_events(&poll, bits), FdStep::Idle));
    let mut ready = poll_with(30, bits.pollin);
    assert!(matches!(h.check_events(&ready, bits), FdStep::Read));
    assert!(h.after_read(&mut ready, ReadResult::Success(8)).unwrap());
    assert_eq!(ready.get_revents(30), Some(0));
    match h.after_read(&mut ready, ReadResult::Eof { fd: 30 }) {
        Err(LogError::RecoverableFdError(m)) => assert_eq!(m, "EOF on fd 30"),
        _ => panic!("expected EOF"),
    }
    assert!(h.unregister_from_poll(&mut poll));
}

#[test]
fn logfile_handler_retry_and_writes() {
    let mut l = LogFileHandler::new("application.log");
    assert_eq!(l.path(), "application.log");
    assert!(l.can_retry());
    assert!(l.after_write(5, Ok(5)).unwrap());
    match l.after_write(5, Ok(2)) {
        Err(LogError::FileError(m)) => assert_eq!(m, "Partial write to log file"),
        _ => panic!("expected a partial write"),
    }
    assert!(!l.can_retry());
    l.note_opened();
    assert!(l.can_retry());
    match l.after_write(5, Err(String::from("disk full"))) {
        Err(LogError::FileError(m)) => assert_eq!(m, "Failed to write to log file: disk full"),
        _ => panic!("expected a failed write"),
    }
}

#[test]
fn logfile_plugin_flush_and_counts() {
    assert!(matches!(flush_step(Ok(true)), FlushStep::Dequeue));
    assert!(matches!(flush_step(Ok(false)), FlushStep::Stop));
    assert!(matches!(flush_step(Err(LogError::FileError(String::new()))), FlushStep::Stop));
    assert!(matches!(flush_step(Err(LogError::Fatal(String::new()))), FlushStep::Fail(_)));
    let bits = poll_bits();
    let mut poll = UnixPoll::new(0);
    let mut p = LogPlugin::new(&mut poll, bits, 40, 41).unwrap();
    assert!(poll.has_fd(40) && poll.has_fd(41));
    let s = AppShutdown::default();
    assert_eq!(p.handle_start(&s, &poll), LogRoundStart::Nothing);
    poll.set_result(1);
    assert_eq!(p.handle_start(&s, &poll), LogRoundStart::Go);
    assert_eq!(p.on_error(&LogError::Fatal(String::new())), 1);
    assert_eq!(p.on_error(&LogError::FileError(String::new())), 0);
    assert_eq!(p.on_flushed(), 0);
    assert_eq!(p.timer_mut().fd(), 40);
    assert_eq!(p.event_mut().fd(), 41);
    assert!(p.log_mut().can_retry());
    let _ = Buffer::new(1);
}

#[test]
fn signal_record_check_messages() {
    let mut p = SignalFdPlugin::new(9, 128);
    p.buffer_mut().set_data_len(4).unwrap();
    match p.check_record(128, 8, true, "siginfo") {
        Err(PluginError::ProcessingError(m)) => assert_eq!(
            m,
            "Failed to read siginfo from buffer: data len is less than required: required: 128, available: 4, type_name: siginfo"
        ),
        other => panic!("unexpected {:?}", other),
    }
    assert_eq!(p.buffer_mut().get_data_len(), 0);

    p.buffer_mut().set_data_len(128).unwrap();
    match p.check_record(128, 8, false, "siginfo") {
        Err(PluginError::ProcessingError(m)) => {
            assert_eq!(m, "Failed to read siginfo from buffer: align error: required: 8, type_name: siginfo")
        }
        other => panic!("unexpected {:?}", other),
    }
    assert_eq!(p.buffer_mut().get_data_len(), 0);

    p.buffer_mut().set_data_len(128).unwrap();
    assert!(p.check_record(128, 8, true, "siginfo").is_ok());
    assert_eq!(p.buffer_mut().get_data_len(), 128);
}

#[test]
fn fd_handler_reset_clears_only_its_events() {
    let bits = poll_bits();
    let mut poll = poll_with(30, bits.pollin);
    assert!(poll.add_fd(31, bits.pollin));
    let h = FdHandler::new(30, 8);
    h.reset(&mut poll);
    assert_eq!(poll.get_revents(30), Some(0));
    assert_eq!(poll.len(), 2);
    assert_eq!(poll.get_events(31), Some(bits.pollin));
}

#[test]
fn signal_log_notes() {
    assert_eq!(signal_log_note(libc::SIGHUP as u32, 1, 2).as_deref(), Some("Received SIGHUP, triggering configuration reload"));
    assert_eq!(signal_log_note(libc::SIGUSR1 as u32, 7, 8).as_deref(), Some("Received SIGUSR1 from pid: 7 (uid: 8)"));
    assert_eq!(signal_log_note(libc::SIGWINCH as u32, 3, 0).as_deref(), Some("Received signal SIGWINCH from pid: 3 (uid: 0)"));
    assert_eq!(signal_log_note(libc::SIGTERM as u32, 3, 0), None);
    assert_eq!(signal_log_note(libc::SIGCHLD as u32, 3, 0), None);
    assert_eq!(signal_log_note(0, 3, 0), None);
}

#[test]
fn config_watcher_trace_lines() {
    let bits = poll_bits();
    let mut poll = UnixPoll::new(0);
    let mut w = ConfigWatcherPlugin::new(&mut poll, bits, 21, 1, String::from("config.toml"), true);
    let mut bytes = record(1, IN_MODIFY);
    bytes.extend(record(2, IN_MODIFY));
    bytes.extend(record(1, IN_CLOSE_WRITE));
    fill(&mut w, &bytes);
    let mut trace = Vec::new();
    assert!(w.process_events(&mut trace));
    assert_eq!(
        trace,
        vec![
            "Config file event: mask=2, cookie=0".to_string(),
            "Pattern 1 started: IN_MODIFY".to_string(),
            "Config file event: mask=8, cookie=0".to_string(),
            "Pattern 1 completed: IN_MODIFY + IN_CLOSE_WRITE".to_string(),
        ]
    );
    let mut w2 = ConfigWatcherPlugin::new(&mut poll, bits, 22, 4, String::from("config.toml"), true);
    fill(&mut w2, &record(4, IN_CLOSE_WRITE | 0x20));
    let mut trace2 = Vec::new();
    assert!(w2.process_events(&mut trace2));
    assert_eq!(trace2, vec!["Config file event: mask=28, cookie=0".to_string(), "Direct write detected: IN_CLOSE_WRITE".to_string()]);
}

#[test]
fn config_watcher_reads_big_endian_records() {
    let bits = poll_bits();
    let mut poll = UnixPoll::new(0);
    let mut w = ConfigWatcherPlugin::new(&mut poll, bits, 23, 3, String::from("config.toml"), false);
    let mut bytes = Vec::new();
    for word in [3u32, IN_CLOSE_WRITE, 0, 0] {
        bytes.extend_from_slice(&word.to_be_bytes());
    }
    fill(&mut w, &bytes);
    let mut trace = Vec::new();
    assert!(w.process_events(&mut trace));
    assert_eq!(trace, vec!["Config file event: mask=8, cookie=0".to_string(), "Direct write detected: IN_CLOSE_WRITE".to_string()]);
}
