//! `Connection`: one value for a connection in any of its ten states, whose operations
//! are offered or refused by the state it is in.
use crate::closing::{Closing, ClosingPoll, RemoteClosed, RemoteClosedPoll};
use crate::connecting::{
    Connectee, ConnecteeLocalClosed, ConnecteeLocalClosedPoll, ConnecteePoll, Connecter,
    ConnecterLocalClosed, ConnecterLocalClosedPoll, ConnecterPoll,
};
use crate::established::{Connected, ConnectedPoll, LocalClosed, LocalClosedPoll};
use crate::model::{
    accept_outcome, close_outcome, closable, connect_outcome, kill_effects, killable,
    outcome_of, poll_outcome, recv_bytes, recv_outcome, send_bytes, send_outcome, State, BUF,
};
use crate::protocol::{Event, Fd, Next, SockAddr, Step};
use vstd::prelude::*;

verus! {

/// A connection in whichever state it has reached.
pub enum Connection {
    Connecter(Connecter),
    Connectee(Connectee),
    ConnecterLocalClosed(ConnecterLocalClosed),
    ConnecteeLocalClosed(ConnecteeLocalClosed),
    Connected(Connected),
    RemoteClosed(RemoteClosed),
    LocalClosed(LocalClosed),
    Closing(Closing),
    Closed,
    Killed,
}

impl View for Connection {
    type V = State;

    open spec fn view(&self) -> State {
        match self {
            Connection::Connecter(c) => c.state(),
            Connection::Connectee(c) => c.state(),
            Connection::ConnecterLocalClosed(c) => c.state(),
            Connection::ConnecteeLocalClosed(c) => c.state(),
            Connection::Connected(c) => c.state(),
            Connection::RemoteClosed(c) => c.state(),
            Connection::LocalClosed(c) => c.state(),
            Connection::Closing(c) => c.state(),
            Connection::Closed => State::Closed,
            Connection::Killed => State::Killed,
        }
    }
}

impl Connection {
    /// The rings of the state hold at most their capacity.
    pub open spec fn wf(&self) -> bool {
        match self {
            Connection::Connecter(c) => c.wf(),
            Connection::Connected(c) => c.wf(),
            Connection::RemoteClosed(c) => c.wf(),
            Connection::LocalClosed(c) => c.wf(),
            Connection::Closing(c) => c.wf(),
            _ => true,
        }
    }

    /// Starts an outbound connection from `local` to `remote`.
    pub fn connect(local: SockAddr, remote: SockAddr) -> (r: (Connection, Step))
        ensures
            r.0.wf(),
            outcome_of(r.0@, r.1) == connect_outcome(local, remote),
    {
        let (p, step) = Connecter::new(local, remote);
        (Connection::from(p), step)
    }

    /// Takes charge of a socket that a listener accepted from `remote`.
    pub fn accept(fd: Fd, remote: SockAddr) -> (r: (Connection, Step))
        ensures
            r.0.wf(),
            outcome_of(r.0@, r.1) == accept_outcome(fd, remote),
    {
        let (p, step) = Connectee::new(fd, remote);
        (Connection::from(p), step)
    }

    /// Carries a poll on with the kernel's answer `ev` (`Event::Ready` begins one).
    pub fn poll(&mut self, ev: Event) -> (r: Step)
        requires
            old(self).wf(),
        ensures
            final(self).wf(),
            outcome_of(final(self)@, r) == poll_outcome(old(self)@, ev),
    {
        let mut cur = Connection::Killed;
        std::mem::swap(self, &mut cur);
        let (next, step) = match cur {
            Connection::Connecter(c) => {
                let (p, s) = c.poll(ev);
                (Connection::from(p), s)
            },
            Connection::Connectee(c) => {
                let (p, s) = c.poll(ev);
                (Connection::from(p), s)
            },
            Connection::ConnecterLocalClosed(c) => {
                let (p, s) = c.poll(ev);
                (Connection::from(p), s)
            },
            Connection::ConnecteeLocalClosed(c) => {
                let (p, s) = c.poll(ev);
                (Connection::from(p), s)
            },
            Connection::Connected(c) => {
                let (p, s) = c.poll(ev);
                (Connection::from(p), s)
            },
            Connection::RemoteClosed(c) => {
                let (p, s) = c.poll(ev);
                (Connection::from(p), s)
            },
            Connection::LocalClosed(c) => {
                let (p, s) = c.poll(ev);
                (Connection::from(p), s)
            },
            Connection::Closing(c) => {
                let (p, s) = c.poll(ev);
                (Connection::from(p), s)
            },
            Connection::Closed => (Connection::Closed, Step::idle()),
            Connection::Killed => (Connection::Killed, Step::idle()),
        };
        *self = next;
        step
    }

    /// Whether the connection is not yet confirmed.
    pub fn connecting(&self) -> (r: bool)
        ensures
            r == (self@ is Connecter || self@ is Connectee || self@ is ConnecterLocalClosed
                || self@ is ConnecteeLocalClosed),
    {
        match self {
            Connection::Connecter(_) | Connection::Connectee(_) | Connection::ConnecterLocalClosed(_)
            | Connection::ConnecteeLocalClosed(_) => true,
            _ => false,
        }
    }

    /// Whether the state has a receive ring.
    pub fn recvable(&self) -> (r: bool)
        ensures
            r == recv_bytes(self@).is_some(),
    {
        match self {
            Connection::Connected(_) | Connection::LocalClosed(_) => true,
            _ => false,
        }
    }

    /// Bytes waiting to be read, where the state can receive.
    pub fn recv_avail(&self) -> (r: Option<usize>)
        requires
            self.wf(),
        ensures
            match recv_bytes(self@) {
                Some(b) => r == Some(b.len() as usize),
                None => r.is_none(),
            },
    {
        match self {
            Connection::Connected(c) => Some(c.recv_avail()),
            Connection::LocalClosed(c) => Some(c.recv_avail()),
            _ => None,
        }
    }

    /// Takes the oldest received byte; taking one asks for a poll.
    pub fn recv(&mut self) -> (r: Option<(u8, Step)>)
        requires
            old(self).wf(),
        ensures
            final(self).wf(),
            match recv_outcome(old(self)@) {
                Some((b, t)) => final(self)@ == t && r.is_some() && r->Some_0.0 == b
                    && r->Some_0.1.effects@ == seq![crate::protocol::Effect::Queue] && r->Some_0.1.next@ == Next::Idle,
                None => final(self)@ == old(self)@ && r.is_none(),
            },
    {
        match self {
            Connection::Connected(c) => c.recv(),
            Connection::LocalClosed(c) => c.recv(),
            _ => None,
        }
    }

    /// Whether the state has a send ring the user may fill.
    pub fn sendable(&self) -> (r: bool)
        ensures
            r == send_bytes(self@).is_some(),
    {
        match self {
            Connection::Connected(_) | Connection::RemoteClosed(_) => true,
            _ => false,
        }
    }

    /// Free space in the send ring, where the state can send.
    pub fn send_avail(&self) -> (r: Option<usize>)
        requires
            self.wf(),
        ensures
            match send_bytes(self@) {
                Some(b) => r == Some((BUF - b.len()) as usize),
                None => r.is_none(),
            },
    {
        match self {
            Connection::Connected(c) => Some(c.send_avail()),
            Connection::RemoteClosed(c) => Some(c.send_avail()),
            _ => None,
        }
    }

    /// Queues a byte where the state can send and its ring has room; a queued byte asks
    /// for a poll.
    pub fn send(&mut self, byte: u8) -> (r: Option<Step>)
        requires
            old(self).wf(),
        ensures
            final(self).wf(),
            match send_outcome(old(self)@, byte) {
                Some(t) => final(self)@ == t && r.is_some() && r->Some_0.effects@ == seq![crate::protocol::Effect::Queue]
                    && r->Some_0.next@ == Next::Idle,
                None => final(self)@ == old(self)@ && r.is_none(),
            },
    {
        match self {
            Connection::Connected(c) => c.send(byte),
            Connection::RemoteClosed(c) => c.send(byte),
            _ => None,
        }
    }

    /// Whether the connection ended gracefully.
    pub fn closed(&self) -> (r: bool)
        ensures
            r == (self@ is Closed),
    {
        match self {
            Connection::Closed => true,
            _ => false,
        }
    }

    /// Whether the connection has not been killed.
    pub fn valid(&self) -> (r: bool)
        ensures
            r == !(self@ is Killed),
    {
        match self {
            Connection::Killed => false,
            _ => true,
        }
    }

    /// Whether the user may close.
    pub fn closable(&self) -> (r: bool)
        ensures
            r == closable(self@),
    {
        match self {
            Connection::Connecter(_) | Connection::Connectee(_) | Connection::Connected(_)
            | Connection::RemoteClosed(_) => true,
            _ => false,
        }
    }

    /// The user's close, where the state allows it: the closing counterpart of the state,
    /// polled once.
    pub fn close(&mut self) -> (r: Option<Step>)
        requires
            old(self).wf(),
        ensures
            final(self).wf(),
            closable(old(self)@) ==> r.is_some() && outcome_of(final(self)@, r->Some_0) == close_outcome(old(self)@),
            !closable(old(self)@) ==> r.is_none() && final(self)@ == old(self)@,
    {
        if !self.closable() {
            return None;
        }
        let mut cur = Connection::Killed;
        std::mem::swap(self, &mut cur);
        let (next, step) = match cur {
            Connection::Connecter(c) => {
                let (p, s) = c.close();
                (Connection::from(p), s)
            },
            Connection::Connectee(c) => {
                let (p, s) = c.close();
                (Connection::from(p), s)
            },
            Connection::Connected(c) => {
                let (p, s) = c.close();
                (Connection::from(p), s)
            },
            Connection::RemoteClosed(c) => {
                let (p, s) = c.close();
                (Connection::from(p), s)
            },
            other => (other, Step::idle()),
        };
        *self = next;
        Some(step)
    }

    /// Whether the connection may be killed.
    pub fn killable(&self) -> (r: bool)
        ensures
            r == killable(self@),
    {
        match self {
            Connection::Closed | Connection::Killed => false,
            _ => true,
        }
    }

    /// Kills the connection, where it is not over yet: every socket it holds is released.
    pub fn kill(&mut self) -> (r: Option<Step>)
        ensures
            final(self).wf(),
            killable(old(self)@) ==> r.is_some() && final(self)@ == State::Killed
                && r->Some_0.effects@ == kill_effects(old(self)@) && r->Some_0.next@ == Next::Idle,
            !killable(old(self)@) ==> r.is_none() && final(self)@ == old(self)@,
    {
        if !self.killable() {
            return None;
        }
        let mut cur = Connection::Killed;
        std::mem::swap(self, &mut cur);
        let step = match cur {
            Connection::Connecter(c) => c.kill(),
            Connection::Connectee(c) => c.kill(),
            Connection::ConnecterLocalClosed(c) => c.kill(),
            Connection::ConnecteeLocalClosed(c) => c.kill(),
            Connection::Connected(c) => c.kill(),
            Connection::RemoteClosed(c) => c.kill(),
            Connection::LocalClosed(c) => c.kill(),
            Connection::Closing(c) => c.kill(),
            _ => Step::idle(),
        };
        Some(step)
    }
}

impl From<ConnecterPoll> for Connection {
    fn from(p: ConnecterPoll) -> Connection {
        match p {
            ConnecterPoll::Connecter(c) => Connection::Connecter(c),
            ConnecterPoll::Connected(c) => Connection::Connected(c),
            ConnecterPoll::RemoteClosed(c) => Connection::RemoteClosed(c),
            ConnecterPoll::Killed => Connection::Killed,
        }
    }
}

impl vstd::std_specs::convert::FromSpecImpl<ConnecterPoll> for Connection {
    open spec fn obeys_from_spec() -> bool {
        true
    }

    open spec fn from_spec(p: ConnecterPoll) -> Connection {
        match p {
            ConnecterPoll::Connecter(c) => Connection::Connecter(c),
            ConnecterPoll::Connected(c) => Connection::Connected(c),
            ConnecterPoll::RemoteClosed(c) => Connection::RemoteClosed(c),
            ConnecterPoll::Killed => Connection::Killed,
        }
    }
}

impl From<ConnecteePoll> for Connection {
    fn from(p: ConnecteePoll) -> Connection {
        match p {
            ConnecteePoll::Connectee(c) => Connection::Connectee(c),
            ConnecteePoll::Connected(c) => Connection::Connected(c),
            ConnecteePoll::RemoteClosed(c) => Connection::RemoteClosed(c),
            ConnecteePoll::Killed => Connection::Killed,
        }
    }
}

impl vstd::std_specs::convert::FromSpecImpl<ConnecteePoll> for Connection {
    open spec fn obeys_from_spec() -> bool {
        true
    }

    open spec fn from_spec(p: ConnecteePoll) -> Connection {
        match p {
            ConnecteePoll::Connectee(c) => Connection::Connectee(c),
            ConnecteePoll::Connected(c) => Connection::Connected(c),
            ConnecteePoll::RemoteClosed(c) => Connection::RemoteClosed(c),
            ConnecteePoll::Killed => Connection::Killed,
        }
    }
}

impl From<ConnecterLocalClosedPoll> for Connection {
    fn from(p: ConnecterLocalClosedPoll) -> Connection {
        match p {
            ConnecterLocalClosedPoll::ConnecterLocalClosed(c) => Connection::ConnecterLocalClosed(c),
            ConnecterLocalClosedPoll::LocalClosed(c) => Connection::LocalClosed(c),
            ConnecterLocalClosedPoll::Closing(c) => Connection::Closing(c),
            ConnecterLocalClosedPoll::Closed => Connection::Closed,
            ConnecterLocalClosedPoll::Killed => Connection::Killed,
        }
    }
}

impl vstd::std_specs::convert::FromSpecImpl<ConnecterLocalClosedPoll> for Connection {
    open spec fn obeys_from_spec() -> bool {
        true
    }

    open spec fn from_spec(p: ConnecterLocalClosedPoll) -> Connection {
        match p {
            ConnecterLocalClosedPoll::ConnecterLocalClosed(c) => Connection::ConnecterLocalClosed(c),
            ConnecterLocalClosedPoll::LocalClosed(c) => Connection::LocalClosed(c),
            ConnecterLocalClosedPoll::Closing(c) => Connection::Closing(c),
            ConnecterLocalClosedPoll::Closed => Connection::Closed,
            ConnecterLocalClosedPoll::Killed => Connection::Killed,
        }
    }
}

impl From<ConnecteeLocalClosedPoll> for Connection {
    fn from(p: ConnecteeLocalClosedPoll) -> Connection {
        match p {
            ConnecteeLocalClosedPoll::ConnecteeLocalClosed(c) => Connection::ConnecteeLocalClosed(c),
            ConnecteeLocalClosedPoll::LocalClosed(c) => Connection::LocalClosed(c),
            ConnecteeLocalClosedPoll::Closing(c) => Connection::Closing(c),
            ConnecteeLocalClosedPoll::Closed => Connection::Closed,
            ConnecteeLocalClosedPoll::Killed => Connection::Killed,
        }
    }
}

impl vstd::std_specs::convert::FromSpecImpl<ConnecteeLocalClosedPoll> for Connection {
    open spec fn obeys_from_spec() -> bool {
        true
    }

    open spec fn from_spec(p: ConnecteeLocalClosedPoll) -> Connection {
        match p {
            ConnecteeLocalClosedPoll::ConnecteeLocalClosed(c) => Connection::ConnecteeLocalClosed(c),
            ConnecteeLocalClosedPoll::LocalClosed(c) => Connection::LocalClosed(c),
            ConnecteeLocalClosedPoll::Closing(c) => Connection::Closing(c),
            ConnecteeLocalClosedPoll::Closed => Connection::Closed,
            ConnecteeLocalClosedPoll::Killed => Connection::Killed,
        }
    }
}

impl From<ConnectedPoll> for Connection {
    fn from(p: ConnectedPoll) -> Connection {
        match p {
            ConnectedPoll::Connected(c) => Connection::Connected(c),
            ConnectedPoll::RemoteClosed(c) => Connection::RemoteClosed(c),
            ConnectedPoll::Killed => Connection::Killed,
        }
    }
}

impl vstd::std_specs::convert::FromSpecImpl<ConnectedPoll> for Connection {
    open spec fn obeys_from_spec() -> bool {
        true
    }

    open spec fn from_spec(p: ConnectedPoll) -> Connection {
        match p {
            ConnectedPoll::Connected(c) => Connection::Connected(c),
            ConnectedPoll::RemoteClosed(c) => Connection::RemoteClosed(c),
            ConnectedPoll::Killed => Connection::Killed,
        }
    }
}

impl From<RemoteClosedPoll> for Connection {
    fn from(p: RemoteClosedPoll) -> Connection {
        match p {
            RemoteClosedPoll::RemoteClosed(c) => Connection::RemoteClosed(c),
            RemoteClosedPoll::Killed => Connection::Killed,
        }
    }
}

impl vstd::std_specs::convert::FromSpecImpl<RemoteClosedPoll> for Connection {
    open spec fn obeys_from_spec() -> bool {
        true
    }

    open spec fn from_spec(p: RemoteClosedPoll) -> Connection {
        match p {
            RemoteClosedPoll::RemoteClosed(c) => Connection::RemoteClosed(c),
            RemoteClosedPoll::Killed => Connection::Killed,
        }
    }
}

impl From<LocalClosedPoll> for Connection {
    fn from(p: LocalClosedPoll) -> Connection {
        match p {
            LocalClosedPoll::LocalClosed(c) => Connection::LocalClosed(c),
            LocalClosedPoll::Closing(c) => Connection::Closing(c),
            LocalClosedPoll::Closed => Connection::Closed,
            LocalClosedPoll::Killed => Connection::Killed,
        }
    }
}

impl vstd::std_specs::convert::FromSpecImpl<LocalClosedPoll> for Connection {
    open spec fn obeys_from_spec() -> bool {
        true
    }

    open spec fn from_spec(p: LocalClosedPoll) -> Connection {
        match p {
            LocalClosedPoll::LocalClosed(c) => Connection::LocalClosed(c),
            LocalClosedPoll::Closing(c) => Connection::Closing(c),
            LocalClosedPoll::Closed => Connection::Closed,
            LocalClosedPoll::Killed => Connection::Killed,
        }
    }
}

impl From<ClosingPoll> for Connection {
    fn from(p: ClosingPoll) -> Connection {
        match p {
            ClosingPoll::Closing(c) => Connection::Closing(c),
            ClosingPoll::Closed => Connection::Closed,
            ClosingPoll::Killed => Connection::Killed,
        }
    }
}

impl vstd::std_specs::convert::FromSpecImpl<ClosingPoll> for Connection {
    open spec fn obeys_from_spec() -> bool {
        true
    }

    open spec fn from_spec(p: ClosingPoll) -> Connection {
        match p {
            ClosingPoll::Closing(c) => Connection::Closing(c),
            ClosingPoll::Closed => Connection::Closed,
            ClosingPoll::Killed => Connection::Killed,
        }
    }
}

impl From<Connecter> for Connection {
    fn from(c: Connecter) -> Connection {
        Connection::Connecter(c)
    }
}

impl vstd::std_specs::convert::FromSpecImpl<Connecter> for Connection {
    open spec fn obeys_from_spec() -> bool {
        true
    }

    open spec fn from_spec(c: Connecter) -> Connection {
        Connection::Connecter(c)
    }
}

impl From<Connectee> for Connection {
    fn from(c: Connectee) -> Connection {
        Connection::Connectee(c)
    }
}

impl vstd::std_specs::convert::FromSpecImpl<Connectee> for Connection {
    open spec fn obeys_from_spec() -> bool {
        true
    }

    open spec fn from_spec(c: Connectee) -> Connection {
        Connection::Connectee(c)
    }
}

impl From<ConnecterLocalClosed> for Connection {
    fn from(c: ConnecterLocalClosed) -> Connection {
        Connection::ConnecterLocalClosed(c)
    }
}

impl vstd::std_specs::convert::FromSpecImpl<ConnecterLocalClosed> for Connection {
    open spec fn obeys_from_spec() -> bool {
        true
    }

    open spec fn from_spec(c: ConnecterLocalClosed) -> Connection {
        Connection::ConnecterLocalClosed(c)
    }
}

impl From<ConnecteeLocalClosed> for Connection {
    fn from(c: ConnecteeLocalClosed) -> Connection {
        Connection::ConnecteeLocalClosed(c)
    }
}

impl vstd::std_specs::convert::FromSpecImpl<ConnecteeLocalClosed> for Connection {
    open spec fn obeys_from_spec() -> bool {
        true
    }

    open spec fn from_spec(c: ConnecteeLocalClosed) -> Connection {
        Connection::ConnecteeLocalClosed(c)
    }
}

impl From<Connected> for Connection {
    fn from(c: Connected) -> Connection {
        Connection::Connected(c)
    }
}

impl vstd::std_specs::convert::FromSpecImpl<Connected> for Connection {
    open spec fn obeys_from_spec() -> bool {
        true
    }

    open spec fn from_spec(c: Connected) -> Connection {
        Connection::Connected(c)
    }
}

impl From<RemoteClosed> for Connection {
    fn from(c: RemoteClosed) -> Connection {
        Connection::RemoteClosed(c)
    }
}

impl vstd::std_specs::convert::FromSpecImpl<RemoteClosed> for Connection {
    open spec fn obeys_from_spec() -> bool {
        true
    }

    open spec fn from_spec(c: RemoteClosed) -> Connection {
        Connection::RemoteClosed(c)
    }
}

impl From<LocalClosed> for Connection {
    fn from(c: LocalClosed) -> Connection {
        Connection::LocalClosed(c)
    }
}

impl vstd::std_specs::convert::FromSpecImpl<LocalClosed> for Connection {
    open spec fn obeys_from_spec() -> bool {
        true
    }

    open spec fn from_spec(c: LocalClosed) -> Connection {
        Connection::LocalClosed(c)
    }
}

impl From<Closing> for Connection {
    fn from(c: Closing) -> Connection {
        Connection::Closing(c)
    }
}

impl vstd::std_specs::convert::FromSpecImpl<Closing> for Connection {
    open spec fn obeys_from_spec() -> bool {
        true
    }

    open spec fn from_spec(c: Closing) -> Connection {
        Connection::Closing(c)
    }
}

} // verus!
