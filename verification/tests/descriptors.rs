use abstractions::unix_poll::UnixPoll;
use abstractions::fds::{Fd, Fds, Poller};
use abstractions::keypress::TermFlags;
use abstractions::poll_handlers::PollBits;
use abstractions::unix_app::{Buffer as SizedBuffer, FileType};

fn poll_bits() -> PollBits {
    PollBits {
        pollin: libc::POLLIN,
        pollout: libc::POLLOUT,
        pollerr: libc::POLLERR,
        pollhup: libc::POLLHUP,
        pollnval: libc::POLLNVAL,
        known: libc::POLLIN | libc::POLLPRI | libc::POLLOUT | libc::POLLERR | libc::POLLHUP | libc::POLLNVAL,
    }
}

fn term() -> TermFlags {
    TermFlags { input_flags: 1, output_flags: 2, local_flags: 3, control_flags: 4, control_char0: 5, control_char1: 6 }
}

#[test]
fn file_type_events_and_descriptions() {
    let bits = poll_bits();
    let always = libc::POLLERR | libc::POLLHUP | libc::POLLNVAL;
    let mut buf = SizedBuffer::new(8);
    buf.set_data_len(5);
    let stdin = FileType::Stdin { fd: 0, buf, termios: term() };
    assert_eq!(stdin.as_raw_fd(), 0);
    assert_eq!(stdin.make_events(&bits), libc::POLLIN | always);
    assert_eq!(stdin.describe(), "Stdin(fd: 0, buf_size: 5)");

    let stdout = FileType::Stdout { fd: 1, buf: SizedBuffer::new(4) };
    assert_eq!(stdout.make_events(&bits), libc::POLLOUT | always);
    assert_eq!(stdout.describe(), "Stdout(fd: 1, buf_size: 0)");

    let stderr = FileType::Stderr { fd: 2, buf: SizedBuffer::new(4) };
    assert_eq!(stderr.make_events(&bits), libc::POLLOUT | always);
    let signal = FileType::SignalFd { fd: 7, buf: SizedBuffer::new(4) };
    assert_eq!(signal.make_events(&bits), libc::POLLIN | always);
    assert_eq!(signal.describe(), "SignalFd(fd: 7, buf_size: 0)");

    let mut pty = FileType::PtyMaster { master: 9, buf: SizedBuffer::new(16), slave: 10, child: 4242 };
    assert_eq!(pty.as_raw_fd(), 9);
    assert_eq!(pty.make_events(&bits), libc::POLLIN | libc::POLLOUT | always);
    pty.get_mut_buf().set_data_len(12);
    assert_eq!(pty.describe(), "PtyMaster(fd: 9, buf_size: 12, child_pid: 4242)");
}

#[test]
fn fds_positions_and_lookup() {
    let mut fds = Fds::new();
    assert!(fds.is_empty());
    fds.push_signal_fd(5, libc::POLLIN);
    fds.push_stdin_fd(0, term(), libc::POLLIN);
    fds.push_stdout_fd(1, libc::POLLOUT);
    fds.push_pty_fd(8, 9, 100, libc::POLLIN | libc::POLLOUT);
    assert_eq!(fds.len(), 4);
    assert_eq!(fds.get_fd_by_index(3), Some(&Fd::PtyMaster { master: 8, slave: 9, events: libc::POLLIN | libc::POLLOUT, child: 100 }));
    assert_eq!(fds.get_fd_by_index(4), None);
    assert_eq!(fds.get_fd_by_raw_fd(1), Some(&Fd::Stdout { fd: 1, events: libc::POLLOUT }));
    assert_eq!(fds.get_fd_by_raw_fd(77), None);
    assert!(!fds.get_fd_by_index(0).unwrap().accepts_writes());
    assert!(!fds.get_fd_by_index(1).unwrap().accepts_writes());
    assert!(fds.get_fd_by_index(2).unwrap().accepts_writes());

    // The last one is a pseudo-terminal: it is dropped from the end.
    fds.pop_fd();
    assert_eq!(fds.len(), 3);
    // The last one is standard output: its remembered position is taken out.
    fds.pop_fd();
    assert_eq!(fds.len(), 2);
    assert_eq!(fds.get_fd_by_raw_fd(1), None);
    fds.remove_signal_fd();
    assert_eq!(fds.len(), 1);
    assert_eq!(fds.get_fd_by_index(0).unwrap().as_raw_fd(), 0);
}

#[test]
fn fds_last_with_number_wins() {
    let mut fds = Fds::new();
    fds.push_fd(Fd::Stdout { fd: 3, events: 1 });
    fds.push_fd(Fd::Signal { fd: 3, events: 2 });
    assert_eq!(fds.get_fd_by_raw_fd(3), Some(&Fd::Signal { fd: 3, events: 2 }));
}

#[test]
fn revent_walk_hands_out_each_event_once() {
    let mut poller = Poller::new(100);
    poller.fds.push_signal_fd(5, libc::POLLIN);
    poller.fds.push_stdout_fd(1, libc::POLLOUT);
    poller.fds.push_fd(Fd::Stdout { fd: 6, events: libc::POLLOUT });
    {
        let list = poller.fds.as_pollfds();
        assert_eq!(list.len(), 3);
        assert_eq!(list[0].fd, 5);
        assert_eq!(list[0].events, libc::POLLIN);
        assert_eq!(list[1].revents, 0);
        list[0].revents = libc::POLLIN;
        list[2].revents = libc::POLLOUT;
    }
    let mut walk = poller.revent_iter();
    assert_eq!(walk.next(&mut poller.fds), Some((Fd::Signal { fd: 5, events: libc::POLLIN }, 0)));
    assert_eq!(walk.next(&mut poller.fds), Some((Fd::Stdout { fd: 6, events: libc::POLLOUT }, 2)));
    assert_eq!(walk.next(&mut poller.fds), None);
    let mut again = poller.revent_iter();
    assert_eq!(again.next(&mut poller.fds), None);
    assert!(poller.fds.as_pollfds().iter().all(|e| e.revents == 0));

    let mut all = poller.iter();
    assert_eq!(all.next(&poller).map(|f| f.as_raw_fd()), Some(5));
    assert_eq!(all.next(&poller).map(|f| f.as_raw_fd()), Some(1));
    assert_eq!(all.next(&poller).map(|f| f.as_raw_fd()), Some(6));
    assert_eq!(all.next(&poller), None);
}

#[test]
fn signal_push_then_remove_restores_list() {
    let mut fds = Fds::new();
    fds.push_stdout_fd(1, libc::POLLOUT);
    fds.push_signal_fd(5, libc::POLLIN);
    assert_eq!(fds.len(), 2);
    fds.remove_signal_fd();
    assert_eq!(fds.len(), 1);
    assert_eq!(fds.get_fd_by_index(0), Some(&Fd::Stdout { fd: 1, events: libc::POLLOUT }));
    // Nothing is remembered for the signal descriptor any more: a second removal does nothing.
    fds.remove_signal_fd();
    assert_eq!(fds.len(), 1);
}

#[test]
fn poll_add_then_remove_restores_entries() {
    let mut poll = UnixPoll::new(10);
    assert!(poll.add_fd(3, libc::POLLIN));
    assert!(poll.add_fd(4, libc::POLLOUT));
    let before = poll.fds();
    assert!(poll.add_fd(9, libc::POLLIN));
    assert!(!poll.add_fd(9, libc::POLLOUT));
    assert!(poll.remove_fd(9));
    assert_eq!(poll.fds(), before);
    assert!(!poll.remove_fd(9));
}
