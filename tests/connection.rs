use tcp_typed::{Action, ConnectReply, Connection, Effect, Event, Fault, SockAddr, Step, BUF};

fn addr(port: u16) -> SockAddr {
    SockAddr::V4 { ip: 0x7f00_0001, port }
}

fn read(bytes: &[u8], eof: bool) -> Event {
    Event::Read { bytes: bytes.to_vec(), eof }
}

fn idle() -> Step {
    Step { effects: vec![], next: Action::Idle }
}

fn ask(next: Action) -> Step {
    Step { effects: vec![], next }
}

/// An outbound connection on descriptor `fd`, driven to Connected with both rings empty.
fn connected_outbound(fd: i32) -> Connection {
    let (mut c, step) = Connection::connect(addr(0), addr(4000));
    assert_eq!(step, ask(Action::Socket { local: addr(0) }));
    assert!(c.connecting());
    let step = c.poll(Event::Socket(fd));
    assert_eq!(step, Step { effects: vec![Effect::Watch(fd)], next: Action::Connect { fd, remote: addr(4000) } });
    assert_eq!(c.poll(Event::Connect(ConnectReply::InProgress)), ask(Action::SocketError(fd)));
    assert_eq!(c.poll(Event::SocketError(0)), ask(Action::SocketError(fd)));
    assert_eq!(c.poll(Event::SocketError(0)), ask(Action::IsConnected(fd)));
    assert_eq!(c.poll(Event::IsConnected(true)), ask(Action::Read { fd, room: BUF }));
    assert_eq!(c.poll(read(&[], false)), idle());
    assert!(c.sendable() && c.recvable());
    c
}

/// An accepted connection on descriptor `fd`, driven to Connected with both rings empty.
fn connected_inbound(fd: i32) -> Connection {
    let (mut c, step) = Connection::accept(fd, addr(5000));
    assert_eq!(step, Step { effects: vec![Effect::Watch(fd), Effect::Queue], next: Action::SocketError(fd) });
    assert_eq!(c.poll(Event::SocketError(0)), ask(Action::IsConnected(fd)));
    assert_eq!(c.poll(Event::IsConnected(true)), ask(Action::Read { fd, room: BUF }));
    assert_eq!(c.poll(read(&[], false)), idle());
    assert!(c.sendable() && c.recvable());
    c
}

#[test]
fn loopback_echo_one_byte() {
    let mut b = connected_outbound(5);
    let mut a = connected_inbound(7);

    let step = b.send(0x41).unwrap();
    assert_eq!(step, Step { effects: vec![Effect::Queue], next: Action::Idle });
    assert_eq!(b.poll(Event::Ready), ask(Action::Write { fd: 5, bytes: vec![0x41] }));
    assert_eq!(b.poll(Event::Wrote(1)), ask(Action::Read { fd: 5, room: BUF }));
    assert_eq!(b.poll(read(&[], false)), idle());

    assert_eq!(a.poll(Event::Ready), ask(Action::Read { fd: 7, room: BUF }));
    assert_eq!(a.poll(read(&[0x41], false)), idle());
    assert_eq!(a.recv_avail(), Some(1));
    let (byte, step) = a.recv().unwrap();
    assert_eq!(byte, 0x41);
    assert_eq!(step.effects, vec![Effect::Queue]);

    let step = a.close().unwrap();
    assert_eq!(step, ask(Action::Read { fd: 7, room: BUF }));
    assert_eq!(a.poll(read(&[], false)), ask(Action::Shutdown(7)));
    assert_eq!(a.poll(Event::Shutdown), idle());
    assert!(a.recvable() && !a.sendable());

    assert_eq!(b.poll(Event::Ready), ask(Action::Read { fd: 5, room: BUF }));
    assert_eq!(b.poll(read(&[], true)), ask(Action::Unreceived(5)));
    assert_eq!(b.poll(Event::Unreceived(0)), idle());
    assert!(b.sendable() && !b.recvable());
    let step = b.close().unwrap();
    assert_eq!(step, ask(Action::Unreceived(5)));
    assert_eq!(b.poll(Event::Unreceived(0)), ask(Action::Shutdown(5)));
    assert_eq!(b.poll(Event::Shutdown), ask(Action::Unsent(5)));
    assert_eq!(b.poll(Event::Unsent(0)), Step { effects: vec![Effect::Release(5)], next: Action::Idle });

    assert_eq!(a.poll(Event::Ready), ask(Action::Read { fd: 7, room: BUF }));
    assert_eq!(a.poll(read(&[], true)), ask(Action::Unreceived(7)));
    assert_eq!(a.poll(Event::Unreceived(0)), ask(Action::Unsent(7)));
    assert_eq!(a.poll(Event::Unsent(0)), Step { effects: vec![Effect::Release(7)], next: Action::Idle });

    assert!(a.valid() && a.closed() && !a.killable());
    assert!(b.valid() && b.closed() && !b.killable());
}

#[test]
fn peer_reset_kills() {
    let mut b = connected_outbound(5);
    assert_eq!(b.poll(Event::Ready), ask(Action::Read { fd: 5, room: BUF }));
    assert_eq!(b.poll(Event::ReadFailed), Step { effects: vec![Effect::Release(5)], next: Action::Idle });
    assert!(!b.valid());
    assert!(!b.closed());
    assert!(b.kill().is_none());
}

#[test]
fn close_while_data_pending() {
    let mut b = connected_outbound(5);
    for x in [0x41u8, 0x42, 0x43] {
        assert!(b.send(x).is_some());
    }
    assert_eq!(b.send_avail(), Some(BUF - 3));
    let step = b.close().unwrap();
    assert_eq!(step, ask(Action::Write { fd: 5, bytes: vec![0x41, 0x42, 0x43] }));
    assert_eq!(b.poll(Event::Wrote(2)), ask(Action::Read { fd: 5, room: BUF }));
    assert_eq!(b.poll(read(&[], false)), idle());
    assert_eq!(b.poll(Event::Ready), ask(Action::Write { fd: 5, bytes: vec![0x43] }));
    assert_eq!(b.poll(Event::Wrote(1)), ask(Action::Read { fd: 5, room: BUF }));
    assert_eq!(b.poll(read(&[], false)), ask(Action::Shutdown(5)));
    assert_eq!(b.poll(Event::Shutdown), idle());
    assert_eq!(b.poll(Event::Ready), ask(Action::Read { fd: 5, room: BUF }));
    assert_eq!(b.poll(read(&[], true)), ask(Action::Unreceived(5)));
    assert_eq!(b.poll(Event::Unreceived(0)), ask(Action::Unsent(5)));
    assert_eq!(b.poll(Event::Unsent(3)), Step { effects: vec![Effect::RetryLater], next: Action::Idle });
    assert!(!b.closed());
    assert_eq!(b.poll(Event::Ready), ask(Action::Unreceived(5)));
    assert_eq!(b.poll(Event::Unreceived(0)), ask(Action::Unsent(5)));
    assert_eq!(b.poll(Event::Unsent(0)), Step { effects: vec![Effect::Release(5)], next: Action::Idle });
    assert!(b.closed() && b.valid());
}

#[test]
fn connect_refused_retries() {
    let (mut c, _) = Connection::connect(addr(0), addr(4001));
    assert_eq!(c.poll(Event::Socket(5)).next, Action::Connect { fd: 5, remote: addr(4001) });
    let step = c.poll(Event::Connect(ConnectReply::ConnRefused));
    assert_eq!(step, Step { effects: vec![Effect::Release(5), Effect::RetryLater], next: Action::Idle });
    assert!(c.connecting());
    assert_eq!(c.poll(Event::Ready), ask(Action::Socket { local: addr(0) }));
    assert_eq!(c.poll(Event::Socket(6)).next, Action::Connect { fd: 6, remote: addr(4001) });
    let step = c.poll(Event::Connect(ConnectReply::AddrNotAvail));
    assert_eq!(step.effects, vec![Effect::Release(6), Effect::RetryLater]);
    assert_eq!(c.poll(Event::Ready), ask(Action::Socket { local: addr(0) }));
    assert_eq!(c.poll(Event::Socket(8)).next, Action::Connect { fd: 8, remote: addr(4001) });
    assert_eq!(c.poll(Event::Connect(ConnectReply::Done)), ask(Action::SocketError(8)));
    assert_eq!(c.poll(Event::SocketError(0)), ask(Action::SocketError(8)));
    assert_eq!(c.poll(Event::SocketError(0)), ask(Action::IsConnected(8)));
    assert_eq!(c.poll(Event::IsConnected(true)), ask(Action::Read { fd: 8, room: BUF }));
    assert!(c.sendable());
}

#[test]
fn connect_error_after_start_retries_at_once() {
    let (mut c, _) = Connection::connect(addr(0), addr(4001));
    c.poll(Event::Socket(5));
    c.poll(Event::Connect(ConnectReply::InProgress));
    c.poll(Event::SocketError(0));
    let step = c.poll(Event::SocketError(111));
    assert_eq!(step, Step { effects: vec![Effect::Release(5)], next: Action::Socket { local: addr(0) } });
    assert!(c.connecting());
}

#[test]
fn close_before_connect() {
    let (mut c, _) = Connection::connect(addr(0), addr(4002));
    let step = c.close().unwrap();
    assert_eq!(step, idle());
    assert!(c.closed() && c.valid());

    let (mut c, _) = Connection::connect(addr(0), addr(4002));
    c.poll(Event::Socket(5));
    c.poll(Event::Connect(ConnectReply::InProgress));
    c.poll(Event::SocketError(0));
    assert_eq!(c.poll(Event::SocketError(0)), ask(Action::IsConnected(5)));
    assert_eq!(c.poll(Event::IsConnected(false)), idle());
    let step = c.close().unwrap();
    assert_eq!(step, ask(Action::SocketError(5)));
    assert!(c.connecting() && !c.closable());
    assert_eq!(c.poll(Event::SocketError(0)), ask(Action::IsConnected(5)));
    assert_eq!(c.poll(Event::IsConnected(true)), ask(Action::Read { fd: 5, room: BUF }));
    assert!(c.recvable() && !c.sendable());
    assert_eq!(c.poll(read(&[], false)), ask(Action::Shutdown(5)));
    assert_eq!(c.poll(Event::Shutdown), idle());
    assert_eq!(c.poll(Event::Ready), ask(Action::Read { fd: 5, room: BUF }));
    assert_eq!(c.poll(read(&[], true)), ask(Action::Unreceived(5)));
    assert_eq!(c.poll(Event::Unreceived(0)), ask(Action::Unsent(5)));
    assert_eq!(c.poll(Event::Unsent(0)).effects, vec![Effect::Release(5)]);
    assert!(c.closed());
}

#[test]
fn close_before_connect_with_failed_socket() {
    let (mut c, _) = Connection::connect(addr(0), addr(4002));
    c.poll(Event::Socket(5));
    c.poll(Event::Connect(ConnectReply::InProgress));
    c.poll(Event::SocketError(0));
    c.poll(Event::SocketError(0));
    c.poll(Event::IsConnected(false));
    c.close().unwrap();
    let step = c.poll(Event::SocketError(104));
    assert_eq!(step, Step { effects: vec![Effect::Release(5)], next: Action::Idle });
    assert!(c.closed());
}

#[test]
fn kill_releases_every_socket() {
    let (mut c, _) = Connection::connect(addr(0), addr(4003));
    c.poll(Event::Socket(5));
    c.poll(Event::Connect(ConnectReply::InProgress));
    c.poll(Event::SocketError(0));
    c.poll(Event::SocketError(0));
    c.poll(Event::IsConnected(false));
    let step = c.kill().unwrap();
    assert_eq!(step, Step { effects: vec![Effect::Release(5)], next: Action::Idle });
    assert!(!c.valid());

    let (mut c, _) = Connection::connect(addr(0), addr(4003));
    c.poll(Event::Socket(9));
    let step = c.kill().unwrap();
    assert_eq!(step.effects, vec![Effect::Release(9)]);
}

#[test]
fn second_kill_is_refused() {
    let mut c = connected_outbound(5);
    assert_eq!(c.kill().unwrap().effects, vec![Effect::Release(5)]);
    assert!(!c.killable());
    assert!(c.kill().is_none());
    assert!(!c.valid());
}

#[test]
fn close_then_kill_releases_once() {
    let mut c = connected_outbound(5);
    assert!(c.send(1).is_some());
    let step = c.close().unwrap();
    assert_eq!(step.effects, vec![]);
    assert!(c.close().is_none());
    let step = c.kill().unwrap();
    assert_eq!(step.effects, vec![Effect::Release(5)]);
    assert!(!c.valid());
    assert!(c.kill().is_none());
}

#[test]
fn terminal_states_ignore_polls() {
    let mut c = connected_outbound(5);
    c.kill();
    assert_eq!(c.poll(Event::Ready), idle());
    assert_eq!(c.poll(Event::Unsent(0)), idle());
    assert!(!c.valid());

    let (mut c, _) = Connection::connect(addr(0), addr(4004));
    c.close();
    assert!(c.closed());
    assert_eq!(c.poll(Event::Ready), idle());
    assert!(c.closed());
}

#[test]
fn full_send_ring_refuses() {
    let mut c = connected_outbound(5);
    for i in 0..BUF {
        assert!(c.send((i % 251) as u8).is_some());
    }
    assert_eq!(c.send_avail(), Some(0));
    assert!(c.send(7).is_none());
    assert_eq!(c.send_avail(), Some(0));
}

#[test]
fn full_recv_ring_is_not_read_into() {
    let mut c = connected_outbound(5);
    assert_eq!(c.poll(Event::Ready), ask(Action::Read { fd: 5, room: BUF }));
    let bytes = vec![9u8; BUF];
    assert_eq!(c.poll(Event::Read { bytes, eof: false }), idle());
    assert_eq!(c.recv_avail(), Some(BUF));
    assert_eq!(c.poll(Event::Ready), idle());
}

#[test]
fn drained_after_fin_promotes() {
    let mut c = connected_outbound(5);
    assert_eq!(c.poll(Event::Ready), ask(Action::Read { fd: 5, room: BUF }));
    assert_eq!(c.poll(read(&[1, 2], true)), idle());
    assert!(c.recvable());
    assert_eq!(c.recv().unwrap().0, 1);
    assert_eq!(c.poll(Event::Ready), idle());
    assert!(c.recvable());
    assert_eq!(c.recv().unwrap().0, 2);
    assert!(c.recv().is_none());
    assert_eq!(c.poll(Event::Ready), ask(Action::Unreceived(5)));
    assert!(c.sendable() && !c.recvable());
    assert_eq!(c.recv_avail(), None);
}

#[test]
fn drained_after_fin_promotes_after_write() {
    let mut c = connected_outbound(5);
    c.poll(Event::Ready);
    assert_eq!(c.poll(read(&[9], true)), idle());
    assert!(c.send(3).is_some());
    assert_eq!(c.recv().unwrap().0, 9);
    assert_eq!(c.poll(Event::Ready), ask(Action::Write { fd: 5, bytes: vec![3] }));
    assert_eq!(c.poll(Event::Wrote(0)), ask(Action::Unreceived(5)));
    assert_eq!(c.poll(Event::Unreceived(0)), ask(Action::Write { fd: 5, bytes: vec![3] }));
    assert_eq!(c.poll(Event::Wrote(1)), idle());
    assert_eq!(c.send_avail(), Some(BUF));
}

#[test]
fn received_bytes_survive_close() {
    let mut c = connected_outbound(5);
    c.poll(Event::Ready);
    c.poll(read(&[10, 20, 30], false));
    c.close().unwrap();
    assert_eq!(c.recv_avail(), Some(3));
    c.poll(read(&[40], true));
    assert_eq!(c.recv_avail(), Some(4));
    assert_eq!(c.poll(Event::Ready), ask(Action::Shutdown(5)));
    assert_eq!(c.poll(Event::Shutdown), idle());
    assert!(c.recvable());
    let mut got = vec![];
    while let Some((b, _)) = c.recv() {
        got.push(b);
    }
    assert_eq!(got, vec![10, 20, 30, 40]);
    assert_eq!(c.poll(Event::Ready), ask(Action::SocketError(5)));
    assert_eq!(c.poll(Event::SocketError(0)), ask(Action::Unreceived(5)));
    assert!(!c.recvable());
}

#[test]
fn capabilities_follow_state() {
    let (mut c, _) = Connection::connect(addr(0), addr(4005));
    assert!(!c.recvable() && c.recv_avail().is_none() && c.recv().is_none());
    assert!(!c.sendable() && c.send_avail().is_none() && c.send(1).is_none());
    assert!(c.closable() && c.killable() && c.connecting());
    let mut c = connected_outbound(5);
    assert_eq!(c.recv_avail(), Some(0));
    assert!(c.recv().is_none());
    assert_eq!(c.send_avail(), Some(BUF));
    assert!(!c.connecting());
}

#[test]
fn flags_stay_set() {
    let mut c = connected_outbound(5);
    c.poll(Event::Ready);
    c.poll(read(&[1], true));
    assert_eq!(c.poll(Event::Ready), idle());
    c.close().unwrap();
    assert_eq!(c.poll(Event::Ready), ask(Action::Shutdown(5)));
    assert_eq!(c.poll(Event::Shutdown), idle());
    assert_eq!(c.poll(Event::Ready), ask(Action::SocketError(5)));
    assert_eq!(c.poll(Event::SocketError(0)), idle());
    assert_eq!(c.poll(Event::Shutdown).next, Action::Abort(Fault::Unexpected));
}

#[test]
fn retry_cap_aborts() {
    let (mut c, _) = Connection::connect(addr(0), addr(4006));
    let mut fd = 10;
    let mut aborted = false;
    let mut step = c.poll(Event::Socket(fd));
    for _ in 0..1000 {
        assert_eq!(step.next, Action::Connect { fd, remote: addr(4006) });
        assert_eq!(c.poll(Event::Connect(ConnectReply::InProgress)), ask(Action::SocketError(fd)));
        let s = c.poll(Event::SocketError(0));
        if s.next == Action::Abort(Fault::RetryLimit) {
            aborted = true;
            break;
        }
        assert_eq!(s, ask(Action::SocketError(fd)));
        let s = c.poll(Event::SocketError(111));
        if s.next == Action::Abort(Fault::RetryLimit) {
            aborted = true;
            break;
        }
        assert_eq!(s.effects, vec![Effect::Release(fd)]);
        fd += 1;
        step = c.poll(Event::Socket(fd));
    }
    assert!(aborted);
}

#[test]
fn faults_for_impossible_answers() {
    let mut c = connected_outbound(5);
    assert_eq!(c.poll(Event::Wrote(1)).next, Action::Abort(Fault::Unexpected));
    assert_eq!(c.poll(Event::Unsent(0)).next, Action::Abort(Fault::Unexpected));
    c.poll(Event::Ready);
    c.poll(read(&[], true));
    assert_eq!(c.poll(Event::Ready), ask(Action::Unreceived(5)));
    assert_eq!(c.poll(Event::Unreceived(4)).next, Action::Abort(Fault::DataAfterFin));

    let (mut c, _) = Connection::connect(addr(0), addr(4007));
    c.poll(Event::Socket(5));
    assert_eq!(c.poll(Event::Connect(ConnectReply::Other(13))).next, Action::Abort(Fault::ConnectFailed));
}

#[test]
fn write_failure_kills() {
    let mut c = connected_outbound(5);
    c.send(1);
    assert_eq!(c.poll(Event::Ready), ask(Action::Write { fd: 5, bytes: vec![1] }));
    assert_eq!(c.poll(Event::WriteFailed), Step { effects: vec![Effect::Release(5)], next: Action::Idle });
    assert!(!c.valid());
}

#[test]
fn accepted_socket_with_error_is_killed() {
    let (mut c, _) = Connection::accept(7, addr(5001));
    assert_eq!(c.poll(Event::SocketError(104)), Step { effects: vec![Effect::Release(7)], next: Action::Idle });
    assert!(!c.valid());
}

#[test]
fn accepted_socket_closed_early() {
    let (mut c, _) = Connection::accept(7, addr(5001));
    let step = c.close().unwrap();
    assert_eq!(step, ask(Action::SocketError(7)));
    assert_eq!(c.poll(Event::SocketError(0)), ask(Action::IsConnected(7)));
    assert_eq!(c.poll(Event::IsConnected(true)), ask(Action::Read { fd: 7, room: BUF }));
    assert!(c.recvable());
}

#[test]
fn polling_is_deterministic() {
    let events = || {
        vec![
            Event::Socket(5),
            Event::Connect(ConnectReply::InProgress),
            Event::SocketError(0),
            Event::SocketError(0),
            Event::IsConnected(true),
            read(&[1, 2, 3], true),
        ]
    };
    let (mut a, first_a) = Connection::connect(addr(0), addr(4010));
    let (mut b, first_b) = Connection::connect(addr(0), addr(4010));
    assert_eq!(first_a, first_b);
    for (ea, eb) in events().into_iter().zip(events()) {
        assert_eq!(a.poll(ea), b.poll(eb));
    }
    assert_eq!(a.recv_avail(), b.recv_avail());
    assert_eq!(a.recv_avail(), Some(3));
}

#[test]
fn tunable_constants() {
    assert_eq!(BUF, 64 * 1024);
    assert_eq!(tcp_typed::RETRY_CAP, 1000);
    assert_eq!(tcp_typed::LISTEN_BACKLOG, 128);
}
