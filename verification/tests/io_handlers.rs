use abstractions::buffer::Buffer;
use abstractions::errno::ErrnoKind;
use abstractions::fd_io::{read_fd_check_room, read_fd_finish, write_fd_check_data, write_fd_finish, ReadResult, WriteResult};
use abstractions::poll_handlers::{
    fd_event_order, PollBits, DefaultPollErrorMiddleware, DefaultPollInReadHandler, DefaultPollOutHandler,
    DefaultPollReventMiddleware, FdEvent, PollErrorMiddleware, DefaultPollErrHandler, DefaultPollHupHandler,
    DefaultPollNvalHandler,
};
use abstractions::unix_app::Buffer as SizedBuffer;
use abstractions::unix_poll::PollFd;

fn poll_bits() -> PollBits {
    PollBits {
        pollin: libc::POLLIN,
        pollout: libc::POLLOUT,
        pollerr: libc::POLLERR,
        pollhup: libc::POLLHUP,
        pollnval: libc::POLLNVAL,
        known: libc::POLLIN | libc::POLLPRI | libc::POLLOUT | libc::POLLERR | libc::POLLHUP | libc::POLLNVAL
            | libc::POLLRDNORM | libc::POLLRDBAND | libc::POLLWRNORM | libc::POLLWRBAND,
    }
}

#[test]
fn errno_kinds_of_common_numbers() {
    let mut m = DefaultPollErrorMiddleware::new();
    assert_eq!(m.handle(libc::EAGAIN), ErrnoKind::Again);
    assert_eq!(m.handle(libc::EWOULDBLOCK), ErrnoKind::Again);
    assert_eq!(m.handle(libc::EINTR), ErrnoKind::Interrupted);
    assert_eq!(m.handle(libc::EINVAL), ErrnoKind::Invalid);
    assert_eq!(m.handle(libc::EBADF), ErrnoKind::BadFd);
    assert_eq!(m.handle(libc::EPERM), ErrnoKind::Other);
}

#[test]
fn read_room_checked_before_reading() {
    let mut b = Buffer::new(2);
    assert!(read_fd_check_room(5, &mut b).is_none());
    b.set_data_len(2).unwrap();
    b.consume(1);
    match read_fd_check_room(5, &mut b) {
        Some(ReadResult::BufferIsFull { fd, data_len }) => {
            assert_eq!(fd, 5);
            assert_eq!(data_len, 1);
        }
        _ => panic!("expected a full buffer"),
    }
}

#[test]
fn read_outcomes_are_sorted() {
    let mut b = Buffer::new(8);
    assert!(matches!(read_fd_finish(3, &mut b, Ok(4)), ReadResult::Success(4)));
    assert_eq!(b.get_data_len(), 4);
    assert!(matches!(read_fd_finish(3, &mut b, Ok(0)), ReadResult::InvalidFd { fd: 3 }));
    assert!(matches!(read_fd_finish(3, &mut b, Err(libc::EAGAIN)), ReadResult::WouldBlock { fd: 3 }));
    assert!(matches!(read_fd_finish(3, &mut b, Err(libc::EINTR)), ReadResult::Interrupted { fd: 3 }));
    assert!(matches!(read_fd_finish(3, &mut b, Err(libc::ECONNRESET)), ReadResult::InvalidFd { fd: 3 }));
    match read_fd_finish(3, &mut b, Err(libc::EIO)) {
        ReadResult::Fatal { fd, msg } => {
            assert_eq!(fd, 3);
            assert!(msg.starts_with("read error: EIO"));
        }
        _ => panic!("expected a fatal error"),
    }
    assert_eq!(b.get_data_len(), 4);
}

#[test]
fn write_outcomes_are_sorted() {
    let mut b = Buffer::new(4);
    assert!(matches!(write_fd_check_data(&b), Some(WriteResult::BufferEmpty)));
    b.set_data_len(4).unwrap();
    assert!(write_fd_check_data(&b).is_none());
    assert!(matches!(write_fd_finish(1, &mut b, Ok(3)), WriteResult::Success(3)));
    assert_eq!(b.get_data_len(), 1);
    assert!(matches!(write_fd_finish(1, &mut b, Ok(0)), WriteResult::Eof { fd: 1 }));
    assert!(matches!(write_fd_finish(1, &mut b, Err(libc::EAGAIN)), WriteResult::WouldBlock { fd: 1 }));
    assert!(matches!(write_fd_finish(1, &mut b, Err(libc::EBADF)), WriteResult::InvalidFd { fd: 1 }));
    match write_fd_finish(1, &mut b, Err(libc::ENOSPC)) {
        WriteResult::Fatal { msg, .. } => assert!(msg.starts_with("write() failed: ENOSPC")),
        _ => panic!("expected a fatal error"),
    }
    assert!(matches!(write_fd_finish(1, &mut b, Ok(1)), WriteResult::Success(1)));
    assert_eq!(b.get_data_len(), 0);
    assert_eq!(b.get_offset(), 0);
}

#[test]
fn fd_events_in_handler_order() {
    let bits = poll_bits();
    let all = bits.pollin | bits.pollerr | bits.pollhup | bits.pollnval;
    assert_eq!(fd_event_order(all, bits).unwrap(), vec![FdEvent::Error, FdEvent::Nval, FdEvent::Hup, FdEvent::In]);
    assert_eq!(fd_event_order(bits.pollin, bits).unwrap(), vec![FdEvent::In]);
    assert_eq!(fd_event_order(0, bits).unwrap(), vec![]);
    assert!(fd_event_order(i16::MIN, bits).is_none());
}

#[test]
fn revent_middleware_picks_ready_entries() {
    let fds = [
        PollFd { fd: 0, events: 1, revents: 0 },
        PollFd { fd: 1, events: 1, revents: 1 },
        PollFd { fd: 2, events: 1, revents: 4 },
    ];
    let mut m = DefaultPollReventMiddleware::new();
    assert_eq!(m.handle(&fds, 2), vec![1, 2]);
    assert_eq!(m.handle(&fds, 0), Vec::<usize>::new());
}

#[test]
fn read_handler_takes_data_and_errors() {
    let mut h = DefaultPollInReadHandler::new();
    let mut buf = SizedBuffer::new(4);
    let mut revents: i16 = 1;
    assert!(h.read(&mut buf, &mut revents, Ok(3)));
    assert_eq!(buf.get_data_len(), 3);
    assert_eq!(revents, 0);
    revents = 1;
    assert!(!h.read(&mut buf, &mut revents, Err(libc::EAGAIN)));
    assert_eq!(buf.get_data_len(), 3);
    assert_eq!(revents, 1);
    assert!(!h.read(&mut buf, &mut revents, Err(libc::EIO)));
    assert_eq!(buf.get_data_len(), 0);
    assert!(!h.read(&mut buf, &mut revents, Err(libc::EINVAL)));
    assert_eq!(buf.get_buffer_len(), 8);
    assert_eq!(buf.get_setting_len(), 8);
}

#[test]
fn read_handler_grows_short_buffer_to_setting() {
    let mut h = DefaultPollInReadHandler::new();
    let mut buf = SizedBuffer::new(4);
    buf.reallocate(2);
    buf.reallocate(2);
    let mut revents: i16 = 0;
    assert!(!h.read_outcome(&mut buf, &mut revents, Err(ErrnoKind::Invalid)));
    assert_eq!(buf.get_buffer_len(), 4);
}

#[test]
fn simple_handlers() {
    let mut out = DefaultPollOutHandler::new();
    assert!(!out.write(1));
    let mut e = DefaultPollErrorMiddleware::new();
    assert_eq!(e.handle(libc::EINTR), ErrnoKind::Interrupted);
    let mut p = PollErrorMiddleware::new();
    assert_eq!(p.handle(libc::ENOMEM), ErrnoKind::NoMem);
    let _ = (DefaultPollErrHandler::new(), DefaultPollNvalHandler::new(), DefaultPollHupHandler::new());
}
