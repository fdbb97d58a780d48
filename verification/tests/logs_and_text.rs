use abstractions::keypress::{set_keypress_mode, KeypressBits, TermFlags};
use abstractions::log_buffer::{
    format_usec_6digits, timeval_from_clock, LogBufferStack, LogEntryStack, LogLevel, TimeVal, LOG_MESSAGE_MAX_LEN,
    LOG_QUEUE_MAX_LEN,
};
use abstractions::reload_config::ReloadConfig;
use abstractions::text::{_strip_nl, push_decimal, push_signed_decimal, text_with_number};
use abstractions::unix_poll::{PollFd, UnixPoll};

#[test]
fn decimal_texts() {
    let mut s = String::new();
    push_decimal(&mut s, 0);
    assert_eq!(s, "0");
    push_decimal(&mut s, 1234567890);
    assert_eq!(s, "01234567890");
    let mut t = String::from("x");
    push_signed_decimal(&mut t, -42);
    assert_eq!(t, "x-42");
    let mut u = String::new();
    push_signed_decimal(&mut u, i64::MIN);
    assert_eq!(u, i64::MIN.to_string());
    assert_eq!(text_with_number("n=", u64::MAX), format!("n={}", u64::MAX));
}

#[test]
fn strip_nl_removes_line_endings() {
    let mut a = String::from("abc\r\n");
    assert_eq!(_strip_nl(&mut a), "abc");
    assert_eq!(a, "abc");
    let mut b = String::from("abc\n");
    assert_eq!(_strip_nl(&mut b), "abc");
    let mut c = String::from("abc\r");
    assert_eq!(_strip_nl(&mut c), "abc\r");
    let mut d = String::from("\n\n");
    assert_eq!(_strip_nl(&mut d), "\n");
    let mut e = String::new();
    assert_eq!(_strip_nl(&mut e), "");
}

fn keypress_bits() -> KeypressBits {
    KeypressBits {
        ignbrk: libc::IGNBRK,
        brkint: libc::BRKINT,
        parmrk: libc::PARMRK,
        istrip: libc::ISTRIP,
        inlcr: libc::INLCR,
        igncr: libc::IGNCR,
        icrnl: libc::ICRNL,
        ixon: libc::IXON,
        opost: libc::OPOST,
        echo: libc::ECHO,
        echonl: libc::ECHONL,
        icanon: libc::ICANON,
        isig: libc::ISIG,
        iexten: libc::IEXTEN,
        csize: libc::CSIZE,
        parenb: libc::PARENB,
        cs8: libc::CS8,
    }
}

#[test]
fn keypress_mode_clears_and_sets_bits() {
    let b = keypress_bits();
    let mut t = TermFlags {
        input_flags: u32::MAX,
        output_flags: u32::MAX,
        local_flags: u32::MAX,
        control_flags: 0,
        control_char0: 3,
        control_char1: 28,
    };
    set_keypress_mode(&mut t, b);
    assert_eq!(t.input_flags & b.icrnl, 0);
    assert_eq!(t.input_flags & b.ixon, 0);
    assert_eq!(t.output_flags & b.opost, 0);
    assert_eq!(t.local_flags & (b.echo | b.icanon | b.isig), 0);
    assert_eq!(t.control_flags & b.cs8, b.cs8);
    assert_eq!((t.control_char0, t.control_char1), (0, 0));
    let once = t;
    set_keypress_mode(&mut t, b);
    assert_eq!(t, once);
}

#[test]
fn reload_flag_check_and_reset() {
    let mut r = ReloadConfig::new();
    assert!(!r.is_reload_needed());
    r.set_reload_needed();
    assert!(r.check_and_reset());
    assert!(!r.check_and_reset());
    r.set_reload_flag(true);
    assert!(r.is_reload_needed());
    r.reset_reload_flag();
    assert!(!r.is_reload_needed());
    let d = ReloadConfig::default();
    assert!(!d.is_reload_needed());
}

#[test]
fn level_names() {
    assert_eq!(LogLevel::Trace.as_bytes(), b"trace".to_vec());
    assert_eq!(LogLevel::Warning.as_bytes(), b"warning".to_vec());
    assert_eq!(LogLevel::Critical.as_bytes(), b"critical".to_vec());
    assert!(LogLevel::Info < LogLevel::Error);
}

#[test]
fn usec_digits_are_padded() {
    assert_eq!(format_usec_6digits(4), (*b"000004", 6));
    assert_eq!(format_usec_6digits(123456), (*b"123456", 6));
}

#[test]
fn entry_format_with_and_without_time() {
    let e = LogEntryStack::new_with_timeval(Some(TimeVal { tv_sec: 1, tv_usec: 42 }), Some(LogLevel::Info), b"hi\n");
    let (line, n) = e.message_format(b"2024-01-01 00:00:00");
    assert_eq!(&line[..n], b"2024-01-01 00:00:00.000042 [info] hi\n");
    let (plain, m) = e.message_format(b"");
    assert_eq!(&plain[..m], b"hi\n");
    assert_eq!(e.message(), b"hi\n");
    assert_eq!(e.message_len(), 3);
    assert_eq!(e.level(), Some(LogLevel::Info));
}

#[test]
fn log_splits_long_messages() {
    let mut q = LogBufferStack::new();
    assert!(q.is_empty());
    let t = TimeVal { tv_sec: 5, tv_usec: 6 };
    q.log_at(t, LogLevel::Error, "short").unwrap();
    assert_eq!(q.len(), 1);
    let first = q.dequeue().unwrap();
    assert_eq!(first.message(), b"short\n");
    assert_eq!(first.timestamp(), Some(t));
    let long = "a".repeat(LOG_MESSAGE_MAX_LEN + 10);
    q.log_at(t, LogLevel::Debug, &long).unwrap();
    let entries = q.get_all_entries();
    assert_eq!(entries.len(), 2);
    assert_eq!(entries[0].message().len(), LOG_MESSAGE_MAX_LEN);
    assert_eq!(entries[0].level(), Some(LogLevel::Debug));
    assert_eq!(entries[1].message().len(), 11);
    assert_eq!(entries[1].timestamp(), None);
    assert_eq!(entries[1].level(), None);
    let exact = "b".repeat(LOG_MESSAGE_MAX_LEN);
    q.clear().unwrap();
    q.log_at(t, LogLevel::Info, &exact).unwrap();
    assert_eq!(q.len(), 2);
    assert_eq!(q.get_all_entries()[1].message(), b"\n");
    assert!(q.peek().is_some());
    q.info("via clock").unwrap();
    assert_eq!(q.len(), 3);
}

#[test]
fn log_queue_drops_oldest_when_full() {
    let mut q = LogBufferStack::new();
    let t = TimeVal { tv_sec: 0, tv_usec: 0 };
    for i in 0..LOG_QUEUE_MAX_LEN + 5 {
        q.log_at(t, LogLevel::Trace, &i.to_string()).unwrap();
    }
    assert_eq!(q.len(), LOG_QUEUE_MAX_LEN - 1);
    let newest = q.get_all_entries().pop().unwrap();
    assert_eq!(newest.message(), format!("{}\n", LOG_QUEUE_MAX_LEN + 4).as_bytes());
}

#[test]
fn poll_set_add_remove_and_ready() {
    let mut p = UnixPoll::new(10);
    assert!(p.is_empty());
    assert!(p.add_fd(3, 1));
    assert!(!p.add_fd(3, 1));
    assert!(p.add_fd(4, 4));
    assert!(p.add_fd_with_fallback(5, 1));
    assert_eq!(p.len(), 3);
    assert_eq!(p.get_events(4), Some(4));
    assert!(p.upd_events(4, 5));
    assert_eq!(p.get_events(4), Some(5));
    let polled = vec![
        PollFd { fd: 3, events: 1, revents: 0 },
        PollFd { fd: 4, events: 5, revents: 4 },
        PollFd { fd: 5, events: 1, revents: 1 },
    ];
    p.store_poll_outcome(&polled, 2);
    assert_eq!(p.get_result(), 2);
    assert_eq!(p.iter_ready_fds(), vec![(4, 4), (5, 1)]);
    assert!(p.has_reevent(4, 4));
    assert!(!p.has_reevent(3, 1));
    assert!(p.reset_revents(4));
    assert_eq!(p.get_revents(4), Some(0));
    assert!(p.remove_fd(3));
    assert!(!p.remove_fd(3));
    assert_eq!(p.get_fds_array(), vec![5, 4]);
    assert_eq!(p.get_fd_index(4), Some(1));
    assert!(p.has_fd(5));
    p.set_timeout(20);
    assert_eq!(p.get_timeout(), 20);
    p.clear_fds();
    assert!(p.is_empty());
    assert_eq!(p.fds(), vec![]);
    let q = UnixPoll::with_capacity(5, 8);
    assert_eq!(q.get_timeout(), 5);
}

#[test]
fn timeval_from_clock_cuts_nanoseconds_to_microseconds() {
    let t = timeval_from_clock(1_700_000_000, 123_456_789);
    assert_eq!(t.tv_sec, 1_700_000_000);
    assert_eq!(t.tv_usec, 123_456);
    let t = timeval_from_clock(-5, 999_999_999);
    assert_eq!(t.tv_sec, -5);
    assert_eq!(t.tv_usec, 999_999);
    let t = timeval_from_clock(0, 999);
    assert_eq!(t.tv_usec, 0);
}
