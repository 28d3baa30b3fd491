//! The listener: it yields accepted sockets, either from its own listening socket or
//! from a channel over which another process forwards them, and it can adopt a
//! listening socket that arrives on that channel.
use crate::protocol::{Effect, Fault, Fd, SockAddr};
use vstd::prelude::*;

verus! {

/// What `accept` (or the receipt of a forwarded socket) reported.
#[derive(Clone, Copy, Debug, PartialEq, Eq, Structural)]
pub enum AcceptReply {
    /// A descriptor.
    Fd(Fd),
    /// EAGAIN: nothing more for now.
    WouldBlock,
    /// EINVAL: the descriptor accepted on is not a listening socket.
    Invalid,
    /// Any other errno.
    Other(i32),
}

/// The host's answer to the listener's last question, or the request for the next socket.
#[derive(Clone, Copy, Debug, PartialEq, Eq, Structural)]
pub enum ListenEvent {
    /// Look for the next socket.
    Ready,
    /// The outcome of `accept`.
    Accepted(AcceptReply),
    /// The outcome of receiving from the forwarding channel.
    Received(AcceptReply),
    /// Whether the accept hook sent the socket on to another process.
    Hooked(bool),
    /// The peer's address, if it could be read, and SO_ERROR.
    Peer { addr: Option<SockAddr>, error: i32 },
    /// Whether the descriptor is in non-blocking mode.
    Nonblocking(bool),
}

/// What the listener asks of the host next.
#[derive(Clone, Copy, Debug, PartialEq, Eq, Structural)]
pub enum ListenAction {
    /// Accept on the descriptor.
    Accept(Fd),
    /// Receive one forwarded descriptor from the channel.
    Receive(Fd),
    /// Accept on a forwarded descriptor, to learn whether it is a listener.
    Probe(Fd),
    /// Offer the accepted socket to the accept hook.
    Hook(Fd),
    /// Read the peer's address and SO_ERROR.
    Peer(Fd),
    /// Read whether the descriptor is in non-blocking mode.
    IsNonblocking(Fd),
    /// Set the socket's options and hand it to the user as a connection from `remote`.
    Yield { fd: Fd, remote: SockAddr },
    /// Nothing more to accept for now.
    Idle,
    /// The host must abort.
    Abort(Fault),
}

/// What one listener step hands the host.
#[derive(Debug, PartialEq, Eq)]
pub struct ListenStep {
    pub effects: Vec<Effect>,
    pub next: ListenAction,
}

/// The listener as plain values: its descriptor, whether it reads a forwarding channel,
/// and where it stands in the current poll.
pub struct ListenerModel {
    pub fd: Fd,
    pub forwarder: bool,
    /// An accepted socket on its way to the user.
    pub current: Option<Fd>,
    /// A forwarded descriptor being probed.
    pub received: Option<Fd>,
    /// A forwarded listener to adopt, and what accepting on it gave.
    pub swap: Option<(Fd, AcceptReply)>,
}

pub struct ListenOutcome {
    pub state: ListenerModel,
    pub effects: Seq<Effect>,
    pub next: ListenAction,
}

pub open spec fn between_polls(l: ListenerModel) -> bool {
    l.current.is_none() && l.received.is_none() && l.swap.is_none()
}

pub open spec fn l_ask(l: ListenerModel, next: ListenAction) -> ListenOutcome {
    ListenOutcome { state: l, effects: Seq::empty(), next }
}

pub open spec fn l_preceded(e: Effect, o: ListenOutcome) -> ListenOutcome {
    ListenOutcome { state: o.state, effects: seq![e] + o.effects, next: o.next }
}

pub open spec fn idle_model(fd: Fd, forwarder: bool) -> ListenerModel {
    ListenerModel { fd, forwarder, current: None, received: None, swap: None }
}

/// Looks for the next socket: accept on a listening socket, receive on a channel.
pub open spec fn listen_fetch(fd: Fd, forwarder: bool) -> ListenOutcome {
    if forwarder {
        l_ask(idle_model(fd, forwarder), ListenAction::Receive(fd))
    } else {
        l_ask(idle_model(fd, forwarder), ListenAction::Accept(fd))
    }
}

/// What an accept on the listening socket gave: a socket goes to the hook; EAGAIN ends
/// the poll; anything else is fatal.
pub open spec fn listen_accepted(fd: Fd, forwarder: bool, reply: AcceptReply) -> ListenOutcome {
    match reply {
        AcceptReply::Fd(c) => l_ask(ListenerModel { current: Some(c), ..idle_model(fd, forwarder) }, ListenAction::Hook(c)),
        AcceptReply::WouldBlock => l_ask(idle_model(fd, forwarder), ListenAction::Idle),
        _ => l_ask(idle_model(fd, forwarder), ListenAction::Abort(Fault::ListenFailed)),
    }
}

/// One step of a listener's poll.
pub open spec fn listen_on(l: ListenerModel, ev: ListenEvent) -> ListenOutcome {
    let unexpected = l_ask(l, ListenAction::Abort(Fault::Unexpected));
    match ev {
        ListenEvent::Ready => if between_polls(l) {
            listen_fetch(l.fd, l.forwarder)
        } else {
            unexpected
        },
        ListenEvent::Accepted(reply) => match l.received {
            Some(r) => if l.current.is_none() && l.swap.is_none() {
                match reply {
                    AcceptReply::Invalid => l_ask(
                        ListenerModel { current: Some(r), ..idle_model(l.fd, l.forwarder) },
                        ListenAction::Hook(r),
                    ),
                    _ => l_preceded(Effect::Release(l.fd), l_ask(
                        ListenerModel { swap: Some((r, reply)), ..idle_model(l.fd, l.forwarder) },
                        ListenAction::IsNonblocking(r),
                    )),
                }
            } else {
                unexpected
            },
            None => if between_polls(l) && !l.forwarder {
                listen_accepted(l.fd, l.forwarder, reply)
            } else {
                unexpected
            },
        },
        ListenEvent::Received(reply) => if between_polls(l) && l.forwarder {
            match reply {
                AcceptReply::Fd(r) => l_ask(ListenerModel { received: Some(r), ..idle_model(l.fd, l.forwarder) }, ListenAction::Probe(r)),
                AcceptReply::WouldBlock => l_ask(l, ListenAction::Idle),
                _ => l_ask(l, ListenAction::Abort(Fault::ListenFailed)),
            }
        } else {
            unexpected
        },
        ListenEvent::Hooked(diverted) => match l.current {
            Some(c) => if l.received.is_none() && l.swap.is_none() {
                if diverted {
                    listen_fetch(l.fd, l.forwarder)
                } else {
                    l_ask(l, ListenAction::Peer(c))
                }
            } else {
                unexpected
            },
            None => unexpected,
        },
        ListenEvent::Peer { addr, error } => match l.current {
            Some(c) => if l.received.is_none() && l.swap.is_none() {
                match addr {
                    Some(a) => if error == 0 {
                        l_ask(idle_model(l.fd, l.forwarder), ListenAction::Yield { fd: c, remote: a })
                    } else {
                        l_preceded(Effect::Close(c), listen_fetch(l.fd, l.forwarder))
                    },
                    None => l_preceded(Effect::Close(c), listen_fetch(l.fd, l.forwarder)),
                }
            } else {
                unexpected
            },
            None => unexpected,
        },
        ListenEvent::Nonblocking(yes) => match l.swap {
            Some((n, reply)) => if l.current.is_none() && l.received.is_none() {
                if yes {
                    l_preceded(Effect::Watch(n), listen_accepted(n, false, reply))
                } else {
                    l_ask(l, ListenAction::Abort(Fault::Blocking))
                }
            } else {
                unexpected
            },
            None => unexpected,
        },
    }
}

/// Accepts connections, or receives them from another process.
pub struct Listener {
    pub(crate) fd: Fd,
    pub(crate) is_socket_forwarder: bool,
    pub(crate) current: Option<Fd>,
    pub(crate) received: Option<Fd>,
    pub(crate) swap: Option<(Fd, AcceptReply)>,
}

impl View for Listener {
    type V = ListenerModel;

    closed spec fn view(&self) -> ListenerModel {
        ListenerModel {
            fd: self.fd,
            forwarder: self.is_socket_forwarder,
            current: self.current,
            received: self.received,
            swap: self.swap,
        }
    }
}

impl ListenStep {
    fn ask(next: ListenAction) -> (r: ListenStep)
        ensures
            r.effects@ == Seq::<Effect>::empty(),
            r.next == next,
    {
        ListenStep { effects: Vec::new(), next }
    }

    fn after(e: Effect, step: ListenStep) -> (r: ListenStep)
        ensures
            r.effects@ == seq![e] + step.effects@,
            r.next == step.next,
    {
        let mut effects: Vec<Effect> = Vec::new();
        effects.push(e);
        let mut rest = step.effects;
        effects.append(&mut rest);
        ListenStep { effects, next: step.next }
    }
}

impl Listener {
    /// Listens on `fd`, a socket already bound; it is watched from now on.
    pub fn with_fd(fd: Fd) -> (r: (Listener, ListenStep))
        ensures
            r.0@ == idle_model(fd, false),
            r.1.effects@ == seq![Effect::Watch(fd)],
            r.1.next == ListenAction::Idle,
    {
        let l = Listener { fd, is_socket_forwarder: false, current: None, received: None, swap: None };
        let step = ListenStep::after(Effect::Watch(fd), ListenStep::ask(ListenAction::Idle));
        assert(step.effects@ =~= seq![Effect::Watch(fd)]);
        (l, step)
    }

    /// Takes its sockets from the receiving end `fd` of a forwarding channel.
    pub fn with_socket_forwardee(fd: Fd) -> (r: (Listener, ListenStep))
        ensures
            r.0@ == idle_model(fd, true),
            r.1.effects@ == seq![Effect::Watch(fd)],
            r.1.next == ListenAction::Idle,
    {
        let l = Listener { fd, is_socket_forwarder: true, current: None, received: None, swap: None };
        let step = ListenStep::after(Effect::Watch(fd), ListenStep::ask(ListenAction::Idle));
        assert(step.effects@ =~= seq![Effect::Watch(fd)]);
        (l, step)
    }

    /// The descriptor it reads, given up without being closed.
    pub fn into_fd(self) -> (r: Fd)
        ensures
            r == self@.fd,
    {
        self.fd
    }

    /// Whether it reads a forwarding channel.
    pub fn is_socket_forwarder(&self) -> (r: bool)
        ensures
            r == self@.forwarder,
    {
        self.is_socket_forwarder
    }

    /// Stops listening: its descriptor is released.
    pub fn close(self) -> (r: ListenStep)
        ensures
            r.effects@ == seq![Effect::Release(self@.fd)],
            r.next == ListenAction::Idle,
    {
        let step = ListenStep::after(Effect::Release(self.fd), ListenStep::ask(ListenAction::Idle));
        assert(step.effects@ =~= seq![Effect::Release(self@.fd)]);
        step
    }

    fn fetch(&mut self) -> (r: ListenStep)
        ensures
            final(self)@ == listen_fetch(old(self)@.fd, old(self)@.forwarder).state,
            r.effects@ == listen_fetch(old(self)@.fd, old(self)@.forwarder).effects,
            r.next == listen_fetch(old(self)@.fd, old(self)@.forwarder).next,
    {
        self.current = None;
        self.received = None;
        self.swap = None;
        if self.is_socket_forwarder {
            ListenStep::ask(ListenAction::Receive(self.fd))
        } else {
            ListenStep::ask(ListenAction::Accept(self.fd))
        }
    }

    fn accepted(&mut self, reply: AcceptReply) -> (r: ListenStep)
        ensures
            final(self)@ == listen_accepted(old(self)@.fd, old(self)@.forwarder, reply).state,
            r.effects@ == listen_accepted(old(self)@.fd, old(self)@.forwarder, reply).effects,
            r.next == listen_accepted(old(self)@.fd, old(self)@.forwarder, reply).next,
    {
        self.current = None;
        self.received = None;
        self.swap = None;
        match reply {
            AcceptReply::Fd(c) => {
                self.current = Some(c);
                ListenStep::ask(ListenAction::Hook(c))
            },
            AcceptReply::WouldBlock => ListenStep::ask(ListenAction::Idle),
            _ => ListenStep::ask(ListenAction::Abort(Fault::ListenFailed)),
        }
    }

    /// Carries the poll on with the host's answer `ev`; each `Yield` hands out one
    /// socket, and `ListenEvent::Ready` then asks for the next.
    pub fn poll(&mut self, ev: ListenEvent) -> (r: ListenStep)
        ensures
            final(self)@ == listen_on(old(self)@, ev).state,
            r.effects@ == listen_on(old(self)@, ev).effects,
            r.next == listen_on(old(self)@, ev).next,
    {
        let pending = self.current.is_some() || self.received.is_some() || self.swap.is_some();
        match ev {
            ListenEvent::Ready => {
                if !pending {
                    self.fetch()
                } else {
                    ListenStep::ask(ListenAction::Abort(Fault::Unexpected))
                }
            },
            ListenEvent::Accepted(reply) => match self.received {
                Some(r) => {
                    if self.current.is_none() && self.swap.is_none() {
                        self.received = None;
                        match reply {
                            AcceptReply::Invalid => {
                                self.current = Some(r);
                                ListenStep::ask(ListenAction::Hook(r))
                            },
                            _ => {
                                self.swap = Some((r, reply));
                                let old_fd = self.fd;
                                ListenStep::after(Effect::Release(old_fd), ListenStep::ask(ListenAction::IsNonblocking(r)))
                            },
                        }
                    } else {
                        ListenStep::ask(ListenAction::Abort(Fault::Unexpected))
                    }
                },
                None => {
                    if !pending && !self.is_socket_forwarder {
                        self.accepted(reply)
                    } else {
                        ListenStep::ask(ListenAction::Abort(Fault::Unexpected))
                    }
                },
            },
            ListenEvent::Received(reply) => {
                if !pending && self.is_socket_forwarder {
                    match reply {
                        AcceptReply::Fd(r) => {
                            self.received = Some(r);
                            ListenStep::ask(ListenAction::Probe(r))
                        },
                        AcceptReply::WouldBlock => ListenStep::ask(ListenAction::Idle),
                        _ => ListenStep::ask(ListenAction::Abort(Fault::ListenFailed)),
                    }
                } else {
                    ListenStep::ask(ListenAction::Abort(Fault::Unexpected))
                }
            },
            ListenEvent::Hooked(diverted) => match self.current {
                Some(c) => {
                    if self.received.is_none() && self.swap.is_none() {
                        if diverted {
                            self.fetch()
                        } else {
                            ListenStep::ask(ListenAction::Peer(c))
                        }
                    } else {
                        ListenStep::ask(ListenAction::Abort(Fault::Unexpected))
                    }
                },
                None => ListenStep::ask(ListenAction::Abort(Fault::Unexpected)),
            },
            ListenEvent::Peer { addr, error } => match self.current {
                Some(c) => {
                    if self.received.is_none() && self.swap.is_none() {
                        match addr {
                            Some(a) => {
                                if error == 0 {
                                    self.current = None;
                                    ListenStep::ask(ListenAction::Yield { fd: c, remote: a })
                                } else {
                                    let step = self.fetch();
                                    ListenStep::after(Effect::Close(c), step)
                                }
                            },
                            None => {
                                let step = self.fetch();
                                ListenStep::after(Effect::Close(c), step)
                            },
                        }
                    } else {
                        ListenStep::ask(ListenAction::Abort(Fault::Unexpected))
                    }
                },
                None => ListenStep::ask(ListenAction::Abort(Fault::Unexpected)),
            },
            ListenEvent::Nonblocking(yes) => match self.swap {
                Some((n, reply)) => {
                    if self.current.is_none() && self.received.is_none() {
                        if yes {
                            self.fd = n;
                            self.is_socket_forwarder = false;
                            let step = self.accepted(reply);
                            ListenStep::after(Effect::Watch(n), step)
                        } else {
                            ListenStep::ask(ListenAction::Abort(Fault::Blocking))
                        }
                    } else {
                        ListenStep::ask(ListenAction::Abort(Fault::Unexpected))
                    }
                },
                None => ListenStep::ask(ListenAction::Abort(Fault::Unexpected)),
            },
        }
    }
}

} // verus!
