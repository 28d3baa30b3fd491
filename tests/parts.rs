use tcp_typed::{
    AcceptReply, Effect, Fault, ListenAction, ListenEvent, ListenStep, Listener, Ring, SockAddr,
    SocketForwardee, SocketForwarder, TcpState,
};

fn addr(port: u16) -> SockAddr {
    SockAddr::V4 { ip: 0x7f00_0001, port }
}

fn ask(next: ListenAction) -> ListenStep {
    ListenStep { effects: vec![], next }
}

#[test]
fn ring_is_fifo_with_capacity() {
    let mut r = Ring::new(3);
    assert_eq!(r.read_available(), 0);
    assert_eq!(r.write_available(), 3);
    assert!(r.write(1) && r.write(2) && r.write(3));
    assert!(!r.write(4));
    assert_eq!(r.contents(), vec![1, 2, 3]);
    assert_eq!(r.read(), Some(1));
    assert_eq!(r.write_available(), 1);
    r.consume(1);
    assert_eq!(r.contents(), vec![3]);
    r.extend(&vec![7, 8]);
    assert_eq!(r.contents(), vec![3, 7, 8]);
    assert_eq!(r.read(), Some(3));
    assert_eq!(r.read(), Some(7));
    assert_eq!(r.read(), Some(8));
    assert_eq!(r.read(), None);
}

#[test]
fn tcp_state_from_raw() {
    assert_eq!(TcpState::from_raw(0), TcpState::Closed);
    assert_eq!(TcpState::from_raw(4), TcpState::Established);
    assert_eq!(TcpState::from_raw(5), TcpState::CloseWait);
    assert_eq!(TcpState::from_raw(11), TcpState::Reserved);
}

#[test]
fn listener_accepts_and_yields() {
    let (mut l, step) = Listener::with_fd(3);
    assert_eq!(step, ListenStep { effects: vec![Effect::Watch(3)], next: ListenAction::Idle });
    assert_eq!(l.poll(ListenEvent::Ready), ask(ListenAction::Accept(3)));
    assert_eq!(l.poll(ListenEvent::Accepted(AcceptReply::Fd(8))), ask(ListenAction::Hook(8)));
    assert_eq!(l.poll(ListenEvent::Hooked(false)), ask(ListenAction::Peer(8)));
    let step = l.poll(ListenEvent::Peer { addr: Some(addr(6000)), error: 0 });
    assert_eq!(step, ask(ListenAction::Yield { fd: 8, remote: addr(6000) }));
    assert_eq!(l.poll(ListenEvent::Ready), ask(ListenAction::Accept(3)));
    assert_eq!(l.poll(ListenEvent::Accepted(AcceptReply::WouldBlock)), ask(ListenAction::Idle));
    assert_eq!(l.close(), ListenStep { effects: vec![Effect::Release(3)], next: ListenAction::Idle });
}

#[test]
fn listener_drops_bad_peer_and_diverted_socket() {
    let (mut l, _) = Listener::with_fd(3);
    l.poll(ListenEvent::Ready);
    l.poll(ListenEvent::Accepted(AcceptReply::Fd(8)));
    l.poll(ListenEvent::Hooked(false));
    let step = l.poll(ListenEvent::Peer { addr: Some(addr(6000)), error: 104 });
    assert_eq!(step, ListenStep { effects: vec![Effect::Close(8)], next: ListenAction::Accept(3) });
    l.poll(ListenEvent::Accepted(AcceptReply::Fd(9)));
    l.poll(ListenEvent::Hooked(false));
    let step = l.poll(ListenEvent::Peer { addr: None, error: 0 });
    assert_eq!(step, ListenStep { effects: vec![Effect::Close(9)], next: ListenAction::Accept(3) });
    l.poll(ListenEvent::Accepted(AcceptReply::Fd(10)));
    assert_eq!(l.poll(ListenEvent::Hooked(true)), ask(ListenAction::Accept(3)));
    assert_eq!(l.poll(ListenEvent::Accepted(AcceptReply::Other(24))), ask(ListenAction::Abort(Fault::ListenFailed)));
    assert_eq!(l.into_fd(), 3);
}

#[test]
fn forwarded_listener_takeover() {
    let (mut l, step) = Listener::with_socket_forwardee(4);
    assert_eq!(step.effects, vec![Effect::Watch(4)]);
    assert!(l.is_socket_forwarder());
    assert_eq!(l.poll(ListenEvent::Ready), ask(ListenAction::Receive(4)));
    assert_eq!(l.poll(ListenEvent::Received(AcceptReply::Fd(9))), ask(ListenAction::Probe(9)));
    let step = l.poll(ListenEvent::Accepted(AcceptReply::WouldBlock));
    assert_eq!(step, ListenStep { effects: vec![Effect::Release(4)], next: ListenAction::IsNonblocking(9) });
    let step = l.poll(ListenEvent::Nonblocking(true));
    assert_eq!(step, ListenStep { effects: vec![Effect::Watch(9)], next: ListenAction::Idle });
    assert!(!l.is_socket_forwarder());
    assert_eq!(l.poll(ListenEvent::Ready), ask(ListenAction::Accept(9)));
    assert_eq!(l.poll(ListenEvent::Accepted(AcceptReply::Fd(12))), ask(ListenAction::Hook(12)));
    assert_eq!(l.poll(ListenEvent::Hooked(false)), ask(ListenAction::Peer(12)));
    let step = l.poll(ListenEvent::Peer { addr: Some(addr(7000)), error: 0 });
    assert_eq!(step.next, ListenAction::Yield { fd: 12, remote: addr(7000) });
    assert_eq!(l.into_fd(), 9);
}

#[test]
fn forwarded_connection_is_yielded() {
    let (mut l, _) = Listener::with_socket_forwardee(4);
    l.poll(ListenEvent::Ready);
    l.poll(ListenEvent::Received(AcceptReply::Fd(9)));
    assert_eq!(l.poll(ListenEvent::Accepted(AcceptReply::Invalid)), ask(ListenAction::Hook(9)));
    l.poll(ListenEvent::Hooked(false));
    let step = l.poll(ListenEvent::Peer { addr: Some(addr(7001)), error: 0 });
    assert_eq!(step.next, ListenAction::Yield { fd: 9, remote: addr(7001) });
    assert!(l.is_socket_forwarder());
    assert_eq!(l.poll(ListenEvent::Ready), ask(ListenAction::Receive(4)));
    assert_eq!(l.poll(ListenEvent::Received(AcceptReply::WouldBlock)), ask(ListenAction::Idle));
}

#[test]
fn forwarded_blocking_listener_is_refused() {
    let (mut l, _) = Listener::with_socket_forwardee(4);
    l.poll(ListenEvent::Ready);
    l.poll(ListenEvent::Received(AcceptReply::Fd(9)));
    l.poll(ListenEvent::Accepted(AcceptReply::WouldBlock));
    assert_eq!(l.poll(ListenEvent::Nonblocking(false)).next, ListenAction::Abort(Fault::Blocking));
}

#[test]
fn listener_refuses_unasked_answers() {
    let (mut l, _) = Listener::with_fd(3);
    assert_eq!(l.poll(ListenEvent::Hooked(false)).next, ListenAction::Abort(Fault::Unexpected));
    assert_eq!(l.poll(ListenEvent::Received(AcceptReply::Fd(5))).next, ListenAction::Abort(Fault::Unexpected));
}

#[test]
fn forwarder_message_shape() {
    let fwd = SocketForwardee::new(4);
    assert_eq!(fwd.fd(), 4);
    assert_eq!(fwd.unpack(0, 1, &vec![9]), Some(9));
    assert_eq!(fwd.unpack(1, 1, &vec![9]), None);
    assert_eq!(fwd.unpack(0, 2, &vec![9]), None);
    assert_eq!(fwd.unpack(0, 1, &vec![9, 10]), None);
    let tx = SocketForwarder::new(5);
    assert_eq!(tx.fd(), 5);
    assert_eq!(tx.sent(9, 0, false), Some(vec![Effect::Close(9)]));
    assert_eq!(tx.sent(9, 0, true), Some(vec![]));
    assert_eq!(tx.sent(9, 3, false), None);
}
