//! The two states that hold both rings: Connected, full duplex, and LocalClosed, where
//! the user has closed and the connection drains both ways.
use crate::closing::{Closing, ClosingPoll, RemoteClosed, RemoteClosedPoll};
use crate::model::{
    close_outcome, connected, connected_fill, connected_settle, connected_start, kill_effects,
    local_closed, local_closed_fill, local_closed_flush, local_closed_settle, local_closed_shut,
    local_closed_start, outcome_of, poll_outcome, recv_bytes, recv_outcome, send_bytes,
    send_outcome, State, BUF,
};
use crate::protocol::{Action, Effect, Event, Fault, Fd, Next, SockAddr, Step};
use crate::ring::Ring;
use vstd::prelude::*;

verus! {

/// Full duplex: bytes flow both ways.
pub struct Connected {
    pub(crate) fd: Fd,
    pub(crate) send: Ring,
    pub(crate) recv: Ring,
    pub(crate) remote_closed: bool,
    pub(crate) remote: SockAddr,
}

/// What a poll of Connected leads to.
pub enum ConnectedPoll {
    Connected(Connected),
    RemoteClosed(RemoteClosed),
    Killed,
}

impl ConnectedPoll {
    pub open(crate) spec fn state(&self) -> State {
        match self {
            ConnectedPoll::Connected(c) => c.state(),
            ConnectedPoll::RemoteClosed(c) => c.state(),
            ConnectedPoll::Killed => State::Killed,
        }
    }

    pub open(crate) spec fn wf(&self) -> bool {
        match self {
            ConnectedPoll::Connected(c) => c.wf(),
            ConnectedPoll::RemoteClosed(c) => c.wf(),
            ConnectedPoll::Killed => true,
        }
    }
}

impl Connected {
    pub open(crate) spec fn state(&self) -> State {
        connected(self.fd, self.send@, self.recv@, self.remote_closed, self.remote)
    }

    pub open(crate) spec fn wf(&self) -> bool {
        &&& self.send.wf()
        &&& self.send.capacity() == BUF
        &&& self.recv.wf()
        &&& self.recv.capacity() == BUF
    }

    /// A fresh connection on `fd`, with empty rings, polled once.
    pub(crate) fn new(fd: Fd, remote: SockAddr) -> (r: (ConnectedPoll, Step))
        ensures
            r.0.wf(),
            outcome_of(r.0.state(), r.1) == connected_start(fd, Seq::empty(), Seq::empty(), false, remote),
    {
        let c = Connected { fd, send: Ring::new(BUF), recv: Ring::new(BUF), remote_closed: false, remote };
        c.start()
    }

    fn start(self) -> (r: (ConnectedPoll, Step))
        requires
            self.wf(),
        ensures
            r.0.wf(),
            outcome_of(r.0.state(), r.1) == connected_start(self.fd, self.send@, self.recv@, self.remote_closed, self.remote),
    {
        if self.send.read_available() > 0 {
            let bytes = self.send.contents();
            let fd = self.fd;
            (ConnectedPoll::Connected(self), Step::ask(Action::Write { fd, bytes }))
        } else {
            self.fill()
        }
    }

    fn fill(self) -> (r: (ConnectedPoll, Step))
        requires
            self.wf(),
        ensures
            r.0.wf(),
            outcome_of(r.0.state(), r.1) == connected_fill(self.fd, self.send@, self.recv@, self.remote_closed, self.remote),
    {
        let room = self.recv.write_available();
        if !self.remote_closed && room > 0 {
            let fd = self.fd;
            (ConnectedPoll::Connected(self), Step::ask(Action::Read { fd, room }))
        } else {
            self.settle()
        }
    }

    fn settle(self) -> (r: (ConnectedPoll, Step))
        requires
            self.wf(),
        ensures
            r.0.wf(),
            outcome_of(r.0.state(), r.1) == connected_settle(self.fd, self.send@, self.recv@, self.remote_closed, self.remote),
    {
        if !self.remote_closed || self.recv.read_available() > 0 {
            (ConnectedPoll::Connected(self), Step::idle())
        } else {
            let (p, step) = RemoteClosed::new(self.fd, self.send, self.remote);
            match p {
                RemoteClosedPoll::RemoteClosed(c) => (ConnectedPoll::RemoteClosed(c), step),
                RemoteClosedPoll::Killed => (ConnectedPoll::Killed, step),
            }
        }
    }

    /// Carries the poll on with the kernel's answer `ev`.
    pub fn poll(self, ev: Event) -> (r: (ConnectedPoll, Step))
        requires
            self.wf(),
        ensures
            r.0.wf(),
            outcome_of(r.0.state(), r.1) == poll_outcome(self.state(), ev),
    {
        let mut this = self;
        match ev {
            Event::Ready => this.start(),
            Event::Wrote(n) => {
                if n <= this.send.read_available() {
                    this.send.consume(n);
                    this.fill()
                } else {
                    (ConnectedPoll::Connected(this), Step::ask(Action::Abort(Fault::Unexpected)))
                }
            },
            Event::WriteFailed => (ConnectedPoll::Killed, this.kill()),
            Event::Read { bytes, eof } => {
                if !this.remote_closed && bytes.len() <= this.recv.write_available() {
                    this.recv.extend(&bytes);
                    this.remote_closed = eof;
                    this.settle()
                } else {
                    (ConnectedPoll::Connected(this), Step::ask(Action::Abort(Fault::Unexpected)))
                }
            },
            Event::ReadFailed => (ConnectedPoll::Killed, this.kill()),
            _ => (ConnectedPoll::Connected(this), Step::ask(Action::Abort(Fault::Unexpected))),
        }
    }

    /// Bytes waiting to be read.
    pub fn recv_avail(&self) -> (r: usize)
        requires
            self.wf(),
        ensures
            r == recv_bytes(self.state())->Some_0.len(),
    {
        self.recv.read_available()
    }

    /// Takes the oldest received byte; taking one asks for a poll.
    pub fn recv(&mut self) -> (r: Option<(u8, Step)>)
        requires
            old(self).wf(),
        ensures
            final(self).wf(),
            match recv_outcome(old(self).state()) {
                Some((b, t)) => final(self).state() == t && r.is_some() && r->Some_0.0 == b
                    && r->Some_0.1.effects@ == seq![Effect::Queue] && r->Some_0.1.next@ == Next::Idle,
                None => final(self).state() == old(self).state() && r.is_none(),
            },
    {
        match self.recv.read() {
            Some(b) => Some((b, Step::one(Effect::Queue))),
            None => None,
        }
    }

    /// Free space in the send ring.
    pub fn send_avail(&self) -> (r: usize)
        requires
            self.wf(),
        ensures
            r == BUF - send_bytes(self.state())->Some_0.len(),
    {
        self.send.write_available()
    }

    /// Queues a byte unless the send ring is full; a queued byte asks for a poll.
    pub fn send(&mut self, byte: u8) -> (r: Option<Step>)
        requires
            old(self).wf(),
        ensures
            final(self).wf(),
            match send_outcome(old(self).state(), byte) {
                Some(t) => final(self).state() == t && r.is_some() && r->Some_0.effects@ == seq![Effect::Queue]
                    && r->Some_0.next@ == Next::Idle,
                None => final(self).state() == old(self).state() && r.is_none(),
            },
    {
        if self.send.write(byte) {
            Some(Step::one(Effect::Queue))
        } else {
            None
        }
    }

    /// The user's close: both rings move on to LocalClosed.
    pub fn close(self) -> (r: (LocalClosedPoll, Step))
        requires
            self.wf(),
        ensures
            r.0.wf(),
            outcome_of(r.0.state(), r.1) == close_outcome(self.state()),
    {
        LocalClosed::new(self.fd, self.send, self.recv, self.remote_closed, self.remote)
    }

    /// Gives up the connection and releases its socket.
    pub fn kill(self) -> (r: Step)
        ensures
            r.effects@ == kill_effects(self.state()),
            r.next@ == Next::Idle,
    {
        Step::one(Effect::Release(self.fd))
    }
}

/// The user has closed; queued bytes still go out and received ones can still be read.
pub struct LocalClosed {
    pub(crate) fd: Fd,
    pub(crate) send: Ring,
    pub(crate) recv: Ring,
    pub(crate) remote_closed: bool,
    pub(crate) local_closed_given: bool,
    pub(crate) remote: SockAddr,
}

/// What a poll of LocalClosed leads to.
pub enum LocalClosedPoll {
    LocalClosed(LocalClosed),
    Closing(Closing),
    Closed,
    Killed,
}

impl LocalClosedPoll {
    pub open(crate) spec fn state(&self) -> State {
        match self {
            LocalClosedPoll::LocalClosed(c) => c.state(),
            LocalClosedPoll::Closing(c) => c.state(),
            LocalClosedPoll::Closed => State::Closed,
            LocalClosedPoll::Killed => State::Killed,
        }
    }

    pub open(crate) spec fn wf(&self) -> bool {
        match self {
            LocalClosedPoll::LocalClosed(c) => c.wf(),
            LocalClosedPoll::Closing(c) => c.wf(),
            _ => true,
        }
    }
}

impl LocalClosed {
    pub open(crate) spec fn state(&self) -> State {
        local_closed(self.fd, self.send@, self.recv@, self.remote_closed, self.local_closed_given, self.remote)
    }

    pub open(crate) spec fn wf(&self) -> bool {
        &&& self.send.wf()
        &&& self.send.capacity() == BUF
        &&& self.recv.wf()
        &&& self.recv.capacity() == BUF
    }

    pub(crate) fn new(fd: Fd, send: Ring, recv: Ring, remote_closed: bool, remote: SockAddr) -> (r: (LocalClosedPoll, Step))
        requires
            send.wf(),
            send.capacity() == BUF,
            recv.wf(),
            recv.capacity() == BUF,
        ensures
            r.0.wf(),
            outcome_of(r.0.state(), r.1) == local_closed_start(fd, send@, recv@, remote_closed, false, remote),
    {
        LocalClosed { fd, send, recv, remote_closed, local_closed_given: false, remote }.start()
    }

    fn start(self) -> (r: (LocalClosedPoll, Step))
        requires
            self.wf(),
        ensures
            r.0.wf(),
            outcome_of(r.0.state(), r.1) == local_closed_start(
                self.fd, self.send@, self.recv@, self.remote_closed, self.local_closed_given, self.remote),
    {
        if self.local_closed_given && self.remote_closed {
            let fd = self.fd;
            (LocalClosedPoll::LocalClosed(self), Step::ask(Action::SocketError(fd)))
        } else {
            self.flush()
        }
    }

    fn flush(self) -> (r: (LocalClosedPoll, Step))
        requires
            self.wf(),
        ensures
            r.0.wf(),
            outcome_of(r.0.state(), r.1) == local_closed_flush(
                self.fd, self.send@, self.recv@, self.remote_closed, self.local_closed_given, self.remote),
    {
        if !self.local_closed_given && self.send.read_available() > 0 {
            let bytes = self.send.contents();
            let fd = self.fd;
            (LocalClosedPoll::LocalClosed(self), Step::ask(Action::Write { fd, bytes }))
        } else {
            self.fill()
        }
    }

    fn fill(self) -> (r: (LocalClosedPoll, Step))
        requires
            self.wf(),
        ensures
            r.0.wf(),
            outcome_of(r.0.state(), r.1) == local_closed_fill(
                self.fd, self.send@, self.recv@, self.remote_closed, self.local_closed_given, self.remote),
    {
        let room = self.recv.write_available();
        if !self.remote_closed && room > 0 {
            let fd = self.fd;
            (LocalClosedPoll::LocalClosed(self), Step::ask(Action::Read { fd, room }))
        } else {
            self.shut()
        }
    }

    fn shut(self) -> (r: (LocalClosedPoll, Step))
        requires
            self.wf(),
        ensures
            r.0.wf(),
            outcome_of(r.0.state(), r.1) == local_closed_shut(
                self.fd, self.send@, self.recv@, self.remote_closed, self.local_closed_given, self.remote),
    {
        if !self.local_closed_given && self.send.read_available() == 0 {
            let fd = self.fd;
            (LocalClosedPoll::LocalClosed(self), Step::ask(Action::Shutdown(fd)))
        } else {
            self.settle()
        }
    }

    fn settle(self) -> (r: (LocalClosedPoll, Step))
        requires
            self.wf(),
        ensures
            r.0.wf(),
            outcome_of(r.0.state(), r.1) == local_closed_settle(
                self.fd, self.send@, self.recv@, self.remote_closed, self.local_closed_given, self.remote),
    {
        if !self.remote_closed || self.recv.read_available() > 0 {
            (LocalClosedPoll::LocalClosed(self), Step::idle())
        } else {
            let (p, step) = Closing::new(self.fd, self.send, self.local_closed_given, self.remote);
            match p {
                ClosingPoll::Closing(c) => (LocalClosedPoll::Closing(c), step),
                ClosingPoll::Closed => (LocalClosedPoll::Closed, step),
                ClosingPoll::Killed => (LocalClosedPoll::Killed, step),
            }
        }
    }

    /// Carries the poll on with the kernel's answer `ev`.
    pub fn poll(self, ev: Event) -> (r: (LocalClosedPoll, Step))
        requires
            self.wf(),
        ensures
            r.0.wf(),
            outcome_of(r.0.state(), r.1) == poll_outcome(self.state(), ev),
    {
        let mut this = self;
        match ev {
            Event::Ready => this.start(),
            Event::SocketError(code) => {
                if !(this.local_closed_given && this.remote_closed) {
                    (LocalClosedPoll::LocalClosed(this), Step::ask(Action::Abort(Fault::Unexpected)))
                } else if code != 0 {
                    (LocalClosedPoll::Killed, this.kill())
                } else {
                    this.flush()
                }
            },
            Event::Wrote(n) => {
                if !this.local_closed_given && n <= this.send.read_available() {
                    this.send.consume(n);
                    this.fill()
                } else {
                    (LocalClosedPoll::LocalClosed(this), Step::ask(Action::Abort(Fault::Unexpected)))
                }
            },
            Event::WriteFailed => (LocalClosedPoll::Killed, this.kill()),
            Event::Read { bytes, eof } => {
                if !this.remote_closed && bytes.len() <= this.recv.write_available() {
                    this.recv.extend(&bytes);
                    this.remote_closed = eof;
                    this.shut()
                } else {
                    (LocalClosedPoll::LocalClosed(this), Step::ask(Action::Abort(Fault::Unexpected)))
                }
            },
            Event::ReadFailed => (LocalClosedPoll::Killed, this.kill()),
            Event::Shutdown => {
                if !this.local_closed_given && this.send.read_available() == 0 {
                    this.local_closed_given = true;
                    this.settle()
                } else {
                    (LocalClosedPoll::LocalClosed(this), Step::ask(Action::Abort(Fault::Unexpected)))
                }
            },
            Event::ShutdownFailed => (LocalClosedPoll::Killed, this.kill()),
            _ => (LocalClosedPoll::LocalClosed(this), Step::ask(Action::Abort(Fault::Unexpected))),
        }
    }

    /// Bytes waiting to be read.
    pub fn recv_avail(&self) -> (r: usize)
        requires
            self.wf(),
        ensures
            r == recv_bytes(self.state())->Some_0.len(),
    {
        self.recv.read_available()
    }

    /// Takes the oldest received byte; taking one asks for a poll.
    pub fn recv(&mut self) -> (r: Option<(u8, Step)>)
        requires
            old(self).wf(),
        ensures
            final(self).wf(),
            match recv_outcome(old(self).state()) {
                Some((b, t)) => final(self).state() == t && r.is_some() && r->Some_0.0 == b
                    && r->Some_0.1.effects@ == seq![Effect::Queue] && r->Some_0.1.next@ == Next::Idle,
                None => final(self).state() == old(self).state() && r.is_none(),
            },
    {
        match self.recv.read() {
            Some(b) => Some((b, Step::one(Effect::Queue))),
            None => None,
        }
    }

    /// Gives up the connection and releases its socket.
    pub fn kill(self) -> (r: Step)
        ensures
            r.effects@ == kill_effects(self.state()),
            r.next@ == Next::Idle,
    {
        Step::one(Effect::Release(self.fd))
    }
}

} // verus!
