use abstractions::context::UnixContext;
use abstractions::app_shutdown::{AppContext, AppShutdown as Flags};
use abstractions::shutdown::{current_time_millis, AppShutdown, CAppShutdown, ShutdownType};
use abstractions::unix_app::{AppShutdown as StopState, UnixQueuePool, UnixTask};
use abstractions::error::UnixError;
use abstractions::poll_middleware::DefaultPollMiddleware;

#[test]
fn shutdown_type_numbers_round_trip() {
    for t in [ShutdownType::Running, ShutdownType::Stoped, ShutdownType::SmartStop, ShutdownType::FastStop, ShutdownType::ImmediateStop] {
        assert_eq!(ShutdownType::from_int(t.to_int()), t);
    }
    assert_eq!(ShutdownType::SmartStop.to_int(), 2);
    assert_eq!(ShutdownType::from_int(42), ShutdownType::Running);
    assert_eq!(ShutdownType::from_int(-1), ShutdownType::Running);
    assert!(ShutdownType::FastStop.is_stopping());
    assert!(!ShutdownType::Stoped.is_stopping());
    assert!(!ShutdownType::Running.is_stopping());
}

#[test]
fn shutdown_default_is_running() {
    let s = AppShutdown::default();
    assert!(s.is_running());
    assert_eq!(s.get_code(), 0);
    assert_eq!(s.get_message(), None);
    assert_eq!(s.get_start_time(), 0);
    assert_eq!(s.get_end_time(), None);
    assert_eq!(s.get_duration(), None);
}

#[test]
fn shutdown_smart_at_sets_start_once() {
    let mut s = AppShutdown::default();
    s.shutdown_smart_at(100);
    assert!(s.is_smart_stop());
    assert!(s.is_stoping());
    assert_eq!(s.get_start_time(), 100);
    s.shutdown_smart_at(200);
    assert_eq!(s.get_start_time(), 100);
    s.shutdown_fast_at(300);
    assert!(s.is_fast_stop());
    assert_eq!(s.get_start_time(), 300);
    s.shutdown_immediate_at(400);
    assert!(s.is_immediate_stop());
    assert_eq!(s.get_start_time(), 400);
}

#[test]
fn shutdown_stop_at_records_end_and_duration() {
    let mut s = AppShutdown::default();
    s.shutdown_smart_at(1000);
    s.stop_at(3, Some(String::from("bye")), 1500);
    assert!(s.is_stoped());
    assert!(!s.is_stoping());
    assert_eq!(s.get_code(), 3);
    assert_eq!(s.get_message(), Some(String::from("bye")));
    assert_eq!(s.get_end_time(), Some(1500));
    assert_eq!(s.get_duration(), Some(500));
    s.to_stoped_at(9999);
    assert_eq!(s.get_end_time(), Some(1500));
    s.stop_at(4, None, 2000);
    assert_eq!(s.get_code(), 4);
    assert_eq!(s.get_message(), Some(String::from("bye")));
    assert_eq!(s.get_end_time(), Some(1500));
}

#[test]
fn shutdown_with_wall_clock() {
    let before = current_time_millis();
    let mut s = AppShutdown::default();
    s.shutdown_smart();
    assert!(s.is_smart_stop());
    assert!(s.get_start_time() >= before);
    s.set_type(ShutdownType::Running);
    s.set_code(7);
    s.set_message(String::from("m"));
    s.stop(9, None);
    assert!(s.is_stoped());
    assert_eq!(s.get_code(), 9);
    assert_eq!(s.get_message(), Some(String::from("m")));
    assert_eq!(s.get_type(), ShutdownType::Stoped);
}

#[test]
fn flags_start_complete_cancel() {
    let mut f = Flags::new();
    assert!(!f.is_stop());
    assert_eq!(f.stop_code(), 255);
    f.shutdown_starting(3, Some(String::from("err")));
    assert!(f.is_stop());
    assert!(!f.is_stoped());
    assert_eq!(f.stop_code(), 3);
    f.shutdown_complited();
    assert!(!f.is_stop());
    assert!(f.is_stoped());
    assert_eq!(f.stop_code(), 3);
    f.shutdown_cancel();
    assert!(!f.is_stoped());
    assert_eq!(f.stop_code(), 255);
    let ctx = AppContext::default();
    assert!(!ctx.shutdown.is_stop());
}

#[test]
fn stop_state_transitions() {
    let mut s = StopState::new();
    assert_eq!(s.code(), None);
    assert!(!s.is_stop());
    s.shutdown_smart(2, Some(String::from("x")));
    assert!(s.is_stop());
    assert_eq!(s.code(), Some(2));
    assert_eq!(s.message(), Some(String::from("x")));
    assert!(s.start_time().is_some());
    assert!(s.end_time().is_none());
    s.shutdown_complited();
    assert!(s.is_stoped());
    assert_eq!(s.code(), Some(2));
    assert_eq!(s.message(), Some(String::from("x")));
    assert!(s.end_time().is_some());
    s.shutdown_fast(5, None);
    assert_eq!(s.code(), Some(5));
    s.shutdown_immediate(6, None);
    assert_eq!(s.code(), Some(6));
    s.shutdown_cancel();
    assert_eq!(s.code(), None);
    let c = s.clone();
    assert!(c.start_time().is_none());
}

fn task(code: i32) -> UnixTask {
    let mut s = StopState::new();
    s.shutdown_smart(code, None);
    UnixTask::SmartStop { code, message: None, start: s.start_time().unwrap() }
}

fn code_of(t: &UnixTask) -> i32 {
    match t {
        UnixTask::SmartStop { code, .. } | UnixTask::FastStop { code, .. } | UnixTask::ImmediateStop { code, .. } => *code,
    }
}

#[test]
fn queue_refuses_when_full() {
    let mut q = UnixQueuePool::new(2);
    assert!(q.try_add_queue(task(1)).is_ok());
    assert!(q.try_add_queue(task(2)).is_ok());
    match q.try_add_queue(task(3)) {
        Err(UnixError::AllocationError(m)) => assert_eq!(m, "queue is full: 2"),
        _ => panic!("expected a full queue"),
    }
    assert_eq!(code_of(q.peek_task().unwrap()), 1);
    assert_eq!(code_of(&q.pop_task().unwrap()), 1);
    assert_eq!(code_of(&q.pop_task().unwrap()), 2);
    assert!(q.pop_task().is_none());
    assert!(q.peek_task().is_none());
}

#[test]
fn queue_replaces_oldest() {
    let mut q = UnixQueuePool::new(2);
    q.add_queue_with_replace_old(task(1)).unwrap();
    q.add_queue_with_replace_old(task(2)).unwrap();
    q.add_queue_with_replace_old(task(3)).unwrap();
    assert_eq!(code_of(&q.pop_task().unwrap()), 2);
    assert_eq!(code_of(&q.pop_task().unwrap()), 3);
    assert!(q.pop_task().is_none());
}

#[test]
fn tasks_are_ready_at_once() {
    let t = task(0);
    assert!(t.task_is_ready());
    assert!(t.scheduled_time().is_none());
}

#[test]
fn unix_error_codes_and_texts() {
    let errors = [
        (UnixError::AllocationError(String::from("a")), 1, "Allocation Error: a"),
        (UnixError::PTYOpenError(String::from("b")), 2, "PTY Open Error: b"),
        (UnixError::PTYCommandError(String::from("c")), 3, "PTY Command Error: c"),
        (UnixError::SignalFdError(String::from("d")), 4, "SignalFd Error: d"),
        (UnixError::StdInRegisterError(String::from("e")), 5, "StdIn Register Error: e"),
        (UnixError::TimerFdError(String::from("f")), 6, "TimerFd Error: f"),
    ];
    for (e, code, text) in errors {
        assert_eq!(e.code(), code);
        assert_eq!(e.message(), text);
        let (c, m) = e.code_and_message();
        assert_eq!((c, m.as_str()), (code, text));
        let n: i32 = e.into();
        assert_eq!(n, code);
    }
}

#[test]
fn unix_context_starts_idle_and_takes_reload_once() {
    let mut ctx = UnixContext::new(250);
    assert_eq!(ctx.poll.len(), 0);
    assert_eq!(ctx.poll.get_timeout(), 250);
    assert_eq!(ctx.shutdown.get_type(), ShutdownType::Running);
    assert_eq!(ctx.log_buffer.len(), 0);
    assert!(!ctx.check_and_reset_reload());
    ctx.set_reload_needed();
    assert!(ctx.reload_config.is_reload_needed());
    assert!(ctx.check_and_reset_reload());
    assert!(!ctx.check_and_reset_reload());
}

#[test]
fn c_layout_round_trip() {
    let mut s = AppShutdown::default();
    s.shutdown_fast_at(1_000);
    s.set_code(3);
    s.set_message("bye".to_string());
    let c = s.as_c_struct();
    assert_eq!(c.shutdown_type, 3);
    assert_eq!(c.code, 3);
    assert_eq!(c.message.as_deref(), Some("bye"));
    assert_eq!(c.start_time_ms, 1_000);
    assert_eq!(c.end_time_ms, 0);
    let back = AppShutdown::from_c_struct(&c);
    assert_eq!(back.get_type(), ShutdownType::FastStop);
    assert_eq!(back.get_code(), 3);
    assert_eq!(back.get_message().as_deref(), Some("bye"));
    assert_eq!(back.get_start_time(), 1_000);

    let unknown = CAppShutdown { shutdown_type: 42, code: 1, message: None, start_time_ms: 5, end_time_ms: 6 };
    let read = AppShutdown::from_c_struct(&unknown);
    assert_eq!(read.get_type(), ShutdownType::Running);
    assert_eq!(read.get_message(), None);
    assert_eq!(read.as_c_struct().shutdown_type, 0);
}

#[test]
fn poll_middleware_exit_values_while_running() {
    let m = DefaultPollMiddleware::new(StopState::new());
    assert_eq!(m.exit_code(), 0);
    assert_eq!(m.exit_message(), "");
    assert!(!m.is_stoped());
}

#[test]
fn poll_middleware_stop_processing_completes_a_fast_stop() {
    let mut state = StopState::new();
    state.shutdown_fast(3, Some("SIGINT from pid: 7 (uid: 0)".to_string()));
    let mut m = DefaultPollMiddleware::new(state);
    assert!(!m.is_stoped());
    m.stop_processing();
    assert!(m.is_stoped());
    assert_eq!(m.exit_code(), 3);
    assert_eq!(m.exit_message(), "SIGINT from pid: 7 (uid: 0)");
}

#[test]
fn poll_middleware_stop_processing_leaves_running_and_stopped_alone() {
    let mut m = DefaultPollMiddleware::new(StopState::new());
    m.stop_processing();
    assert!(!m.is_stoped());
    assert!(matches!(m.shutdown, StopState::Running));

    let mut state = StopState::new();
    state.shutdown_smart(5, None);
    state.shutdown_complited();
    let mut m = DefaultPollMiddleware::new(state);
    m.stop_processing();
    assert!(m.is_stoped());
    assert_eq!(m.exit_code(), 5);
    assert_eq!(m.exit_message(), "");
}

#[test]
fn poll_middleware_stop_processing_completes_smart_and_immediate_stops() {
    let mut state = StopState::new();
    state.shutdown_smart(0, Some("SIGTERM".to_string()));
    let mut m = DefaultPollMiddleware::new(state);
    m.stop_processing();
    assert!(m.is_stoped());
    assert_eq!(m.exit_message(), "SIGTERM");

    let mut state = StopState::new();
    state.shutdown_immediate(9, None);
    let mut m = DefaultPollMiddleware::new(state);
    m.stop_processing();
    assert!(m.is_stoped());
    assert_eq!(m.exit_code(), 9);
}

#[test]
fn queue_first_in_first_out() {
    let mut q = UnixQueuePool::new(5);
    for code in [4, 1, 3, 5, 2] {
        assert!(q.try_add_queue(task(code)).is_ok());
    }
    for code in [4, 1, 3, 5, 2] {
        assert_eq!(code_of(&q.pop_task().unwrap()), code);
    }
    assert!(q.pop_task().is_none());
}
