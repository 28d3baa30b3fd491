//! The connection automaton as mathematics: what each state holds, and what a poll, a
//! close or a kill does to it.
use crate::protocol::{ConnectReply, Effect, Event, Fault, Fd, Next, SockAddr};
use vstd::prelude::*;

verus! {

/// Capacity of every send and receive ring.
pub const BUF: usize = 65536;

/// A poll of a `Connecter` gives up on the attempt that would reach this many rounds.
pub const RETRY_CAP: u32 = 1000;

/// The ten states of a connection, with what each holds; rings are given by their bytes.
pub enum State {
    /// `fd` is the socket whose connect is under way, `fresh` one just created in this
    /// poll and not yet confirmed, `tries` the rounds of this poll so far.
    Connecter { fd: Option<Fd>, fresh: Option<Fd>, tries: u32, local: SockAddr, remote: SockAddr },
    Connectee { fd: Fd, remote: SockAddr },
    ConnecterLocalClosed { fd: Option<Fd>, local: SockAddr, remote: SockAddr },
    ConnecteeLocalClosed { fd: Fd, remote: SockAddr },
    Connected { fd: Fd, send: Seq<u8>, recv: Seq<u8>, remote_closed: bool, remote: SockAddr },
    RemoteClosed { fd: Fd, send: Seq<u8>, remote: SockAddr },
    LocalClosed {
        fd: Fd,
        send: Seq<u8>,
        recv: Seq<u8>,
        remote_closed: bool,
        local_closed_given: bool,
        remote: SockAddr,
    },
    Closing { fd: Fd, send: Seq<u8>, local_closed_given: bool, remote: SockAddr },
    Closed,
    Killed,
}

/// The state after a step, the effects it asks for and its next question.
pub struct Outcome {
    pub state: State,
    pub effects: Seq<Effect>,
    pub next: Next,
}

pub open spec fn done(s: State) -> Outcome {
    Outcome { state: s, effects: Seq::empty(), next: Next::Idle }
}

pub open spec fn ask(s: State, next: Next) -> Outcome {
    Outcome { state: s, effects: Seq::empty(), next }
}

pub open spec fn fail(s: State, f: Fault) -> Outcome {
    Outcome { state: s, effects: Seq::empty(), next: Next::Abort(f) }
}

pub open spec fn preceded(e: Effect, o: Outcome) -> Outcome {
    Outcome { state: o.state, effects: seq![e] + o.effects, next: o.next }
}

/// The end of a connection through an error: its socket goes.
pub open spec fn killed(fd: Fd) -> Outcome {
    Outcome { state: State::Killed, effects: seq![Effect::Release(fd)], next: Next::Idle }
}

/// Free space in a receive ring that holds `recv`.
pub open spec fn room(recv: Seq<u8>) -> nat {
    (BUF - recv.len()) as nat
}

// ---------------------------------------------------------------- Connected

pub open spec fn connected(fd: Fd, send: Seq<u8>, recv: Seq<u8>, rc: bool, remote: SockAddr) -> State {
    State::Connected { fd, send, recv, remote_closed: rc, remote }
}

/// A poll of Connected begins by flushing the send ring.
pub open spec fn connected_start(fd: Fd, send: Seq<u8>, recv: Seq<u8>, rc: bool, remote: SockAddr) -> Outcome {
    if send.len() > 0 {
        ask(connected(fd, send, recv, rc, remote), Next::Write { fd, bytes: send })
    } else {
        connected_fill(fd, send, recv, rc, remote)
    }
}

/// Then, unless the peer has closed, it fills the receive ring.
pub open spec fn connected_fill(fd: Fd, send: Seq<u8>, recv: Seq<u8>, rc: bool, remote: SockAddr) -> Outcome {
    if !rc && recv.len() < BUF {
        ask(connected(fd, send, recv, rc, remote), Next::Read { fd, room: room(recv) })
    } else {
        connected_settle(fd, send, recv, rc, remote)
    }
}

/// Once the peer has closed and the user has read every byte, it becomes RemoteClosed.
pub open spec fn connected_settle(fd: Fd, send: Seq<u8>, recv: Seq<u8>, rc: bool, remote: SockAddr) -> Outcome {
    if !rc || recv.len() > 0 {
        done(connected(fd, send, recv, rc, remote))
    } else {
        remote_closed_start(fd, send, remote)
    }
}

pub open spec fn connected_on(fd: Fd, send: Seq<u8>, recv: Seq<u8>, rc: bool, remote: SockAddr, ev: Event) -> Outcome {
    let s = connected(fd, send, recv, rc, remote);
    match ev {
        Event::Ready => connected_start(fd, send, recv, rc, remote),
        Event::Wrote(n) => if n <= send.len() {
            connected_fill(fd, send.subrange(n as int, send.len() as int), recv, rc, remote)
        } else {
            fail(s, Fault::Unexpected)
        },
        Event::WriteFailed => killed(fd),
        Event::Read { bytes, eof } => if !rc && recv.len() + bytes@.len() <= BUF {
            connected_settle(fd, send, recv + bytes@, eof, remote)
        } else {
            fail(s, Fault::Unexpected)
        },
        Event::ReadFailed => killed(fd),
        _ => fail(s, Fault::Unexpected),
    }
}

// ---------------------------------------------------------------- RemoteClosed

pub open spec fn remote_closed(fd: Fd, send: Seq<u8>, remote: SockAddr) -> State {
    State::RemoteClosed { fd, send, remote }
}

/// A poll of RemoteClosed first makes sure that nothing came after the FIN.
pub open spec fn remote_closed_start(fd: Fd, send: Seq<u8>, remote: SockAddr) -> Outcome {
    ask(remote_closed(fd, send, remote), Next::Unreceived(fd))
}

pub open spec fn remote_closed_on(fd: Fd, send: Seq<u8>, remote: SockAddr, ev: Event) -> Outcome {
    let s = remote_closed(fd, send, remote);
    match ev {
        Event::Ready => remote_closed_start(fd, send, remote),
        Event::Unreceived(n) => if n != 0 {
            fail(s, Fault::DataAfterFin)
        } else if send.len() > 0 {
            ask(s, Next::Write { fd, bytes: send })
        } else {
            done(s)
        },
        Event::Wrote(n) => if n <= send.len() {
            done(remote_closed(fd, send.subrange(n as int, send.len() as int), remote))
        } else {
            fail(s, Fault::Unexpected)
        },
        Event::WriteFailed => killed(fd),
        _ => fail(s, Fault::Unexpected),
    }
}

// ---------------------------------------------------------------- LocalClosed

pub open spec fn local_closed(fd: Fd, send: Seq<u8>, recv: Seq<u8>, rc: bool, lcg: bool, remote: SockAddr) -> State {
    State::LocalClosed { fd, send, recv, remote_closed: rc, local_closed_given: lcg, remote }
}

/// With both halves shut, a poll of LocalClosed first looks for a pending error.
pub open spec fn local_closed_start(fd: Fd, send: Seq<u8>, recv: Seq<u8>, rc: bool, lcg: bool, remote: SockAddr) -> Outcome {
    if lcg && rc {
        ask(local_closed(fd, send, recv, rc, lcg, remote), Next::SocketError(fd))
    } else {
        local_closed_flush(fd, send, recv, rc, lcg, remote)
    }
}

pub open spec fn local_closed_flush(fd: Fd, send: Seq<u8>, recv: Seq<u8>, rc: bool, lcg: bool, remote: SockAddr) -> Outcome {
    if !lcg && send.len() > 0 {
        ask(local_closed(fd, send, recv, rc, lcg, remote), Next::Write { fd, bytes: send })
    } else {
        local_closed_fill(fd, send, recv, rc, lcg, remote)
    }
}

pub open spec fn local_closed_fill(fd: Fd, send: Seq<u8>, recv: Seq<u8>, rc: bool, lcg: bool, remote: SockAddr) -> Outcome {
    if !rc && recv.len() < BUF {
        ask(local_closed(fd, send, recv, rc, lcg, remote), Next::Read { fd, room: room(recv) })
    } else {
        local_closed_shut(fd, send, recv, rc, lcg, remote)
    }
}

/// The writing half is shut once every queued byte has gone to the kernel.
pub open spec fn local_closed_shut(fd: Fd, send: Seq<u8>, recv: Seq<u8>, rc: bool, lcg: bool, remote: SockAddr) -> Outcome {
    if !lcg && send.len() == 0 {
        ask(local_closed(fd, send, recv, rc, lcg, remote), Next::Shutdown(fd))
    } else {
        local_closed_settle(fd, send, recv, rc, lcg, remote)
    }
}

/// Once the peer has closed and every received byte was read, it becomes Closing.
pub open spec fn local_closed_settle(fd: Fd, send: Seq<u8>, recv: Seq<u8>, rc: bool, lcg: bool, remote: SockAddr) -> Outcome {
    if !rc || recv.len() > 0 {
        done(local_closed(fd, send, recv, rc, lcg, remote))
    } else {
        closing_start(fd, send, lcg, remote)
    }
}

pub open spec fn local_closed_on(fd: Fd, send: Seq<u8>, recv: Seq<u8>, rc: bool, lcg: bool, remote: SockAddr, ev: Event) -> Outcome {
    let s = local_closed(fd, send, recv, rc, lcg, remote);
    match ev {
        Event::Ready => local_closed_start(fd, send, recv, rc, lcg, remote),
        Event::SocketError(code) => if !(lcg && rc) {
            fail(s, Fault::Unexpected)
        } else if code != 0 {
            killed(fd)
        } else {
            local_closed_flush(fd, send, recv, rc, lcg, remote)
        },
        Event::Wrote(n) => if !lcg && n <= send.len() {
            local_closed_fill(fd, send.subrange(n as int, send.len() as int), recv, rc, lcg, remote)
        } else {
            fail(s, Fault::Unexpected)
        },
        Event::WriteFailed => killed(fd),
        Event::Read { bytes, eof } => if !rc && recv.len() + bytes@.len() <= BUF {
            local_closed_shut(fd, send, recv + bytes@, eof, lcg, remote)
        } else {
            fail(s, Fault::Unexpected)
        },
        Event::ReadFailed => killed(fd),
        Event::Shutdown => if !lcg && send.len() == 0 {
            local_closed_settle(fd, send, recv, rc, true, remote)
        } else {
            fail(s, Fault::Unexpected)
        },
        Event::ShutdownFailed => killed(fd),
        _ => fail(s, Fault::Unexpected),
    }
}

// ---------------------------------------------------------------- Closing

pub open spec fn closing(fd: Fd, send: Seq<u8>, lcg: bool, remote: SockAddr) -> State {
    State::Closing { fd, send, local_closed_given: lcg, remote }
}

/// A poll of Closing first makes sure that nothing came after the FIN.
pub open spec fn closing_start(fd: Fd, send: Seq<u8>, lcg: bool, remote: SockAddr) -> Outcome {
    ask(closing(fd, send, lcg, remote), Next::Unreceived(fd))
}

pub open spec fn closing_flush(fd: Fd, send: Seq<u8>, lcg: bool, remote: SockAddr) -> Outcome {
    if send.len() > 0 {
        ask(closing(fd, send, lcg, remote), Next::Write { fd, bytes: send })
    } else {
        closing_shut(fd, send, lcg, remote)
    }
}

pub open spec fn closing_shut(fd: Fd, send: Seq<u8>, lcg: bool, remote: SockAddr) -> Outcome {
    if !lcg && send.len() == 0 {
        ask(closing(fd, send, lcg, remote), Next::Shutdown(fd))
    } else {
        closing_drain(fd, send, lcg, remote)
    }
}

/// With the writing half shut, it waits for the peer to acknowledge every byte.
pub open spec fn closing_drain(fd: Fd, send: Seq<u8>, lcg: bool, remote: SockAddr) -> Outcome {
    if lcg {
        ask(closing(fd, send, lcg, remote), Next::Unsent(fd))
    } else {
        done(closing(fd, send, lcg, remote))
    }
}

pub open spec fn closing_on(fd: Fd, send: Seq<u8>, lcg: bool, remote: SockAddr, ev: Event) -> Outcome {
    let s = closing(fd, send, lcg, remote);
    match ev {
        Event::Ready => closing_start(fd, send, lcg, remote),
        Event::Unreceived(n) => if n != 0 {
            fail(s, Fault::DataAfterFin)
        } else {
            closing_flush(fd, send, lcg, remote)
        },
        Event::Wrote(n) => if n <= send.len() {
            closing_shut(fd, send.subrange(n as int, send.len() as int), lcg, remote)
        } else {
            fail(s, Fault::Unexpected)
        },
        Event::WriteFailed => killed(fd),
        Event::Shutdown => if !lcg && send.len() == 0 {
            closing_drain(fd, send, true, remote)
        } else {
            fail(s, Fault::Unexpected)
        },
        Event::ShutdownFailed => killed(fd),
        Event::Unsent(n) => if !lcg {
            fail(s, Fault::Unexpected)
        } else if n == 0 {
            Outcome { state: State::Closed, effects: seq![Effect::Release(fd)], next: Next::Idle }
        } else {
            Outcome { state: s, effects: seq![Effect::RetryLater], next: Next::Idle }
        },
        _ => fail(s, Fault::Unexpected),
    }
}

// ---------------------------------------------------------------- Connectee

/// A poll of Connectee confirms the accepted socket: no pending error, and a peer.
pub open spec fn connectee_on(fd: Fd, remote: SockAddr, ev: Event) -> Outcome {
    let s = State::Connectee { fd, remote };
    match ev {
        Event::Ready => ask(s, Next::SocketError(fd)),
        Event::SocketError(code) => if code != 0 {
            killed(fd)
        } else {
            ask(s, Next::IsConnected(fd))
        },
        Event::IsConnected(yes) => if yes {
            connected_start(fd, Seq::empty(), Seq::empty(), false, remote)
        } else {
            done(s)
        },
        _ => fail(s, Fault::Unexpected),
    }
}

/// As Connectee, but a confirmed socket goes straight to LocalClosed.
pub open spec fn connectee_local_closed_on(fd: Fd, remote: SockAddr, ev: Event) -> Outcome {
    let s = State::ConnecteeLocalClosed { fd, remote };
    match ev {
        Event::Ready => ask(s, Next::SocketError(fd)),
        Event::SocketError(code) => if code != 0 {
            killed(fd)
        } else {
            ask(s, Next::IsConnected(fd))
        },
        Event::IsConnected(yes) => if yes {
            local_closed_start(fd, Seq::empty(), Seq::empty(), false, false, remote)
        } else {
            done(s)
        },
        _ => fail(s, Fault::Unexpected),
    }
}

// ---------------------------------------------------------------- Connecter

pub open spec fn connecter(fd: Option<Fd>, fresh: Option<Fd>, tries: u32, local: SockAddr, remote: SockAddr) -> State {
    State::Connecter { fd, fresh, tries, local, remote }
}

/// One round of a Connecter's poll: open a socket if it has none, else check the one it has.
pub open spec fn connecter_round(fd: Option<Fd>, tries: u32, local: SockAddr, remote: SockAddr) -> Outcome {
    if tries + 1 >= RETRY_CAP {
        fail(connecter(fd, None, tries, local, remote), Fault::RetryLimit)
    } else {
        let s = connecter(fd, None, (tries + 1) as u32, local, remote);
        match fd {
            None => ask(s, Next::Socket { local }),
            Some(f) => ask(s, Next::SocketError(f)),
        }
    }
}

/// A failed attempt: drop the socket and try again in a millisecond.
pub open spec fn connecter_backoff(f: Fd, tries: u32, local: SockAddr, remote: SockAddr) -> Outcome {
    Outcome {
        state: connecter(None, None, tries, local, remote),
        effects: seq![Effect::Release(f), Effect::RetryLater],
        next: Next::Idle,
    }
}

pub open spec fn connecter_start(fd: Option<Fd>, fresh: Option<Fd>, local: SockAddr, remote: SockAddr) -> Outcome {
    match fresh {
        Some(f) => preceded(Effect::Release(f), connecter_round(fd, 0, local, remote)),
        None => connecter_round(fd, 0, local, remote),
    }
}

pub open spec fn connecter_on(fd: Option<Fd>, fresh: Option<Fd>, tries: u32, local: SockAddr, remote: SockAddr, ev: Event) -> Outcome {
    let s = connecter(fd, fresh, tries, local, remote);
    match ev {
        Event::Ready => connecter_start(fd, fresh, local, remote),
        Event::Socket(f) => if fd.is_none() && fresh.is_none() {
            preceded(
                Effect::Watch(f),
                ask(connecter(fd, Some(f), tries, local, remote), Next::Connect { fd: f, remote }),
            )
        } else {
            fail(s, Fault::Unexpected)
        },
        Event::Connect(reply) => match fresh {
            Some(f) => match reply {
                ConnectReply::Done | ConnectReply::InProgress => ask(s, Next::SocketError(f)),
                ConnectReply::Other(_) => fail(s, Fault::ConnectFailed),
                _ => connecter_backoff(f, tries, local, remote),
            },
            None => fail(s, Fault::Unexpected),
        },
        Event::SocketError(code) => match fresh {
            Some(f) => if code == 0 {
                connecter_round(Some(f), tries, local, remote)
            } else {
                connecter_backoff(f, tries, local, remote)
            },
            None => match fd {
                Some(f) => if code == 0 {
                    ask(s, Next::IsConnected(f))
                } else {
                    preceded(Effect::Release(f), connecter_round(None, tries, local, remote))
                },
                None => fail(s, Fault::Unexpected),
            },
        },
        Event::IsConnected(yes) => match (fd, fresh) {
            (Some(f), None) => if yes {
                connected_start(f, Seq::empty(), Seq::empty(), false, remote)
            } else {
                done(s)
            },
            _ => fail(s, Fault::Unexpected),
        },
        _ => fail(s, Fault::Unexpected),
    }
}

// ---------------------------------------------------------------- ConnecterLocalClosed

/// A poll of ConnecterLocalClosed: with no socket left it is Closed; a socket that
/// connected after all goes to LocalClosed, one with an error is dropped.
pub open spec fn connecter_local_closed_start(fd: Option<Fd>, local: SockAddr, remote: SockAddr) -> Outcome {
    match fd {
        None => done(State::Closed),
        Some(f) => ask(State::ConnecterLocalClosed { fd, local, remote }, Next::SocketError(f)),
    }
}

pub open spec fn connecter_local_closed_on(fd: Option<Fd>, local: SockAddr, remote: SockAddr, ev: Event) -> Outcome {
    let s = State::ConnecterLocalClosed { fd, local, remote };
    match ev {
        Event::Ready => connecter_local_closed_start(fd, local, remote),
        Event::SocketError(code) => match fd {
            Some(f) => if code == 0 {
                ask(s, Next::IsConnected(f))
            } else {
                preceded(Effect::Release(f), connecter_local_closed_start(None, local, remote))
            },
            None => fail(s, Fault::Unexpected),
        },
        Event::IsConnected(yes) => match fd {
            Some(f) => if yes {
                local_closed_start(f, Seq::empty(), Seq::empty(), false, false, remote)
            } else {
                done(s)
            },
            None => fail(s, Fault::Unexpected),
        },
        _ => fail(s, Fault::Unexpected),
    }
}

// ---------------------------------------------------------------- the whole automaton

/// What `poll` does with an event in each state; the terminal states ignore it.
pub open spec fn poll_outcome(s: State, ev: Event) -> Outcome {
    match s {
        State::Connecter { fd, fresh, tries, local, remote } => connecter_on(fd, fresh, tries, local, remote, ev),
        State::Connectee { fd, remote } => connectee_on(fd, remote, ev),
        State::ConnecterLocalClosed { fd, local, remote } => connecter_local_closed_on(fd, local, remote, ev),
        State::ConnecteeLocalClosed { fd, remote } => connectee_local_closed_on(fd, remote, ev),
        State::Connected { fd, send, recv, remote_closed, remote } => connected_on(fd, send, recv, remote_closed, remote, ev),
        State::RemoteClosed { fd, send, remote } => remote_closed_on(fd, send, remote, ev),
        State::LocalClosed { fd, send, recv, remote_closed, local_closed_given, remote } =>
            local_closed_on(fd, send, recv, remote_closed, local_closed_given, remote, ev),
        State::Closing { fd, send, local_closed_given, remote } => closing_on(fd, send, local_closed_given, remote, ev),
        State::Closed => done(State::Closed),
        State::Killed => done(State::Killed),
    }
}

/// The four open states, from which the user may close.
pub open spec fn closable(s: State) -> bool {
    s is Connecter || s is Connectee || s is Connected || s is RemoteClosed
}

/// Every state but the two terminal ones may be killed.
pub open spec fn killable(s: State) -> bool {
    !(s is Closed) && !(s is Killed)
}

/// What a user's close does in an open state: the matching closing state, polled once.
pub open spec fn close_outcome(s: State) -> Outcome {
    match s {
        State::Connecter { fd, fresh, local, remote, .. } => match fresh {
            Some(f) => preceded(Effect::Release(f), connecter_local_closed_start(fd, local, remote)),
            None => connecter_local_closed_start(fd, local, remote),
        },
        State::Connectee { fd, remote } => ask(State::ConnecteeLocalClosed { fd, remote }, Next::SocketError(fd)),
        State::Connected { fd, send, recv, remote_closed, remote } =>
            local_closed_start(fd, send, recv, remote_closed, false, remote),
        State::RemoteClosed { fd, send, remote } => closing_start(fd, send, false, remote),
        _ => done(s),
    }
}

/// The descriptors a state owns, each once.
pub open spec fn owned(s: State) -> Seq<Fd> {
    match s {
        State::Connecter { fd, fresh, .. } => (match fresh {
            Some(f) => seq![f],
            None => Seq::empty(),
        }) + (match fd {
            Some(f) => seq![f],
            None => Seq::empty(),
        }),
        State::Connectee { fd, .. } => seq![fd],
        State::ConnecterLocalClosed { fd, .. } => match fd {
            Some(f) => seq![f],
            None => Seq::empty(),
        },
        State::ConnecteeLocalClosed { fd, .. } => seq![fd],
        State::Connected { fd, .. } => seq![fd],
        State::RemoteClosed { fd, .. } => seq![fd],
        State::LocalClosed { fd, .. } => seq![fd],
        State::Closing { fd, .. } => seq![fd],
        State::Closed => Seq::empty(),
        State::Killed => Seq::empty(),
    }
}

pub open spec fn release_opt(fd: Option<Fd>) -> Seq<Effect> {
    match fd {
        Some(f) => seq![Effect::Release(f)],
        None => Seq::empty(),
    }
}

/// What a kill asks for: the release of every descriptor the state owns.
pub open spec fn kill_effects(s: State) -> Seq<Effect> {
    match s {
        State::Connecter { fd, fresh, .. } => release_opt(fresh) + release_opt(fd),
        State::Connectee { fd, .. } => seq![Effect::Release(fd)],
        State::ConnecterLocalClosed { fd, .. } => release_opt(fd),
        State::ConnecteeLocalClosed { fd, .. } => seq![Effect::Release(fd)],
        State::Connected { fd, .. } => seq![Effect::Release(fd)],
        State::RemoteClosed { fd, .. } => seq![Effect::Release(fd)],
        State::LocalClosed { fd, .. } => seq![Effect::Release(fd)],
        State::Closing { fd, .. } => seq![Effect::Release(fd)],
        State::Closed => Seq::empty(),
        State::Killed => Seq::empty(),
    }
}

/// The bytes waiting in the receive ring, for the states that have one.
pub open spec fn recv_bytes(s: State) -> Option<Seq<u8>> {
    match s {
        State::Connected { recv, .. } => Some(recv),
        State::LocalClosed { recv, .. } => Some(recv),
        _ => None,
    }
}

/// The bytes waiting in the send ring, for the states where the user may send.
pub open spec fn send_bytes(s: State) -> Option<Seq<u8>> {
    match s {
        State::Connected { send, .. } => Some(send),
        State::RemoteClosed { send, .. } => Some(send),
        _ => None,
    }
}

} // verus!

verus! {

/// The outcome that a state and the step handed to the host amount to.
pub open spec fn outcome_of(s: State, step: crate::protocol::Step) -> Outcome {
    Outcome { state: s, effects: step.effects@, next: step.next@ }
}

} // verus!

verus! {

/// What queuing `byte` does: the same state with the byte at the end of its send ring,
/// or nothing when the state cannot send or its ring is full.
pub open spec fn send_outcome(s: State, byte: u8) -> Option<State> {
    match s {
        State::Connected { fd, send, recv, remote_closed, remote } => if send.len() < BUF {
            Some(State::Connected { fd, send: send.push(byte), recv, remote_closed, remote })
        } else {
            None
        },
        State::RemoteClosed { fd, send, remote } => if send.len() < BUF {
            Some(State::RemoteClosed { fd, send: send.push(byte), remote })
        } else {
            None
        },
        _ => None,
    }
}

/// What taking a byte does: the oldest byte of the receive ring and the state without it,
/// or nothing when the state cannot receive or its ring is empty.
pub open spec fn recv_outcome(s: State) -> Option<(u8, State)> {
    match s {
        State::Connected { fd, send, recv, remote_closed, remote } => if recv.len() > 0 {
            Some((recv[0], State::Connected { fd, send, recv: recv.drop_first(), remote_closed, remote }))
        } else {
            None
        },
        State::LocalClosed { fd, send, recv, remote_closed, local_closed_given, remote } => if recv.len() > 0 {
            Some((recv[0], State::LocalClosed { fd, send, recv: recv.drop_first(), remote_closed, local_closed_given, remote }))
        } else {
            None
        },
        _ => None,
    }
}

} // verus!

verus! {

/// A socket that the listener accepted: it is watched, a poll is queued, and the first
/// poll of Connectee begins.
pub open spec fn accept_outcome(fd: Fd, remote: SockAddr) -> Outcome {
    preceded(Effect::Watch(fd), preceded(Effect::Queue, ask(State::Connectee { fd, remote }, Next::SocketError(fd))))
}

/// A new outbound connection, polled once.
pub open spec fn connect_outcome(local: SockAddr, remote: SockAddr) -> Outcome {
    connecter_start(None, None, local, remote)
}

} // verus!
