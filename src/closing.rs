//! The two states in which the peer has closed: RemoteClosed, where the user may still
//! send, and Closing, where the last bytes drain before the socket is closed.
use crate::model::{
    close_outcome, closing, closing_drain, closing_flush, closing_shut, closing_start,
    kill_effects, outcome_of, poll_outcome, remote_closed, remote_closed_start, send_bytes,
    send_outcome, State, BUF,
};
use crate::protocol::{Action, Effect, Event, Fault, Fd, Next, SockAddr, Step};
use crate::ring::Ring;
use vstd::prelude::*;

verus! {

/// The peer has sent its FIN; the local side may still send.
pub struct RemoteClosed {
    pub(crate) fd: Fd,
    pub(crate) send: Ring,
    pub(crate) remote: SockAddr,
}

/// What a poll of RemoteClosed leads to.
pub enum RemoteClosedPoll {
    RemoteClosed(RemoteClosed),
    Killed,
}

impl RemoteClosedPoll {
    pub open(crate) spec fn state(&self) -> State {
        match self {
            RemoteClosedPoll::RemoteClosed(c) => c.state(),
            RemoteClosedPoll::Killed => State::Killed,
        }
    }

    pub open(crate) spec fn wf(&self) -> bool {
        match self {
            RemoteClosedPoll::RemoteClosed(c) => c.wf(),
            RemoteClosedPoll::Killed => true,
        }
    }
}

impl RemoteClosed {
    pub open(crate) spec fn state(&self) -> State {
        remote_closed(self.fd, self.send@, self.remote)
    }

    pub open(crate) spec fn wf(&self) -> bool {
        self.send.wf() && self.send.capacity() == BUF
    }

    pub(crate) fn new(fd: Fd, send: Ring, remote: SockAddr) -> (r: (RemoteClosedPoll, Step))
        requires
            send.wf(),
            send.capacity() == BUF,
        ensures
            r.0.wf(),
            outcome_of(r.0.state(), r.1) == remote_closed_start(fd, send@, remote),
    {
        (RemoteClosedPoll::RemoteClosed(RemoteClosed { fd, send, remote }), Step::ask(Action::Unreceived(fd)))
    }

    /// Carries the poll on with the kernel's answer `ev`.
    pub fn poll(self, ev: Event) -> (r: (RemoteClosedPoll, Step))
        requires
            self.wf(),
        ensures
            r.0.wf(),
            outcome_of(r.0.state(), r.1) == poll_outcome(self.state(), ev),
    {
        let mut this = self;
        match ev {
            Event::Ready => {
                let fd = this.fd;
                (RemoteClosedPoll::RemoteClosed(this), Step::ask(Action::Unreceived(fd)))
            },
            Event::Unreceived(n) => {
                if n != 0 {
                    (RemoteClosedPoll::RemoteClosed(this), Step::ask(Action::Abort(Fault::DataAfterFin)))
                } else if this.send.read_available() > 0 {
                    let bytes = this.send.contents();
                    let fd = this.fd;
                    (RemoteClosedPoll::RemoteClosed(this), Step::ask(Action::Write { fd, bytes }))
                } else {
                    (RemoteClosedPoll::RemoteClosed(this), Step::idle())
                }
            },
            Event::Wrote(n) => {
                if n <= this.send.read_available() {
                    this.send.consume(n);
                    (RemoteClosedPoll::RemoteClosed(this), Step::idle())
                } else {
                    (RemoteClosedPoll::RemoteClosed(this), Step::ask(Action::Abort(Fault::Unexpected)))
                }
            },
            Event::WriteFailed => (RemoteClosedPoll::Killed, this.kill()),
            _ => (RemoteClosedPoll::RemoteClosed(this), Step::ask(Action::Abort(Fault::Unexpected))),
        }
    }

    /// Free space in the send ring.
    pub fn send_avail(&self) -> (r: usize)
        requires
            self.wf(),
        ensures
            r == BUF - send_bytes(self.state())->Some_0.len(),
    {
        self.send.write_available()
    }

    /// Queues a byte unless the send ring is full; a queued byte asks for a poll.
    pub fn send(&mut self, byte: u8) -> (r: Option<Step>)
        requires
            old(self).wf(),
        ensures
            final(self).wf(),
            match send_outcome(old(self).state(), byte) {
                Some(t) => final(self).state() == t && r.is_some() && r->Some_0.effects@ == seq![Effect::Queue]
                    && r->Some_0.next@ == Next::Idle,
                None => final(self).state() == old(self).state() && r.is_none(),
            },
    {
        if self.send.write(byte) {
            Some(Step::one(Effect::Queue))
        } else {
            None
        }
    }

    /// The user's close: the writing half is still to be shut.
    pub fn close(self) -> (r: (ClosingPoll, Step))
        requires
            self.wf(),
        ensures
            r.0.wf(),
            outcome_of(r.0.state(), r.1) == close_outcome(self.state()),
    {
        Closing::new(self.fd, self.send, false, self.remote)
    }

    /// Gives up the connection and releases its socket.
    pub fn kill(self) -> (r: Step)
        ensures
            r.effects@ == kill_effects(self.state()),
            r.next@ == Next::Idle,
    {
        Step::one(Effect::Release(self.fd))
    }
}

/// Both sides have closed for reading; the send ring drains, then the socket closes.
pub struct Closing {
    pub(crate) fd: Fd,
    pub(crate) send: Ring,
    pub(crate) local_closed_given: bool,
    pub(crate) remote: SockAddr,
}

/// What a poll of Closing leads to.
pub enum ClosingPoll {
    Closing(Closing),
    Closed,
    Killed,
}

impl ClosingPoll {
    pub open(crate) spec fn state(&self) -> State {
        match self {
            ClosingPoll::Closing(c) => c.state(),
            ClosingPoll::Closed => State::Closed,
            ClosingPoll::Killed => State::Killed,
        }
    }

    pub open(crate) spec fn wf(&self) -> bool {
        match self {
            ClosingPoll::Closing(c) => c.wf(),
            _ => true,
        }
    }
}

impl Closing {
    pub open(crate) spec fn state(&self) -> State {
        closing(self.fd, self.send@, self.local_closed_given, self.remote)
    }

    pub open(crate) spec fn wf(&self) -> bool {
        self.send.wf() && self.send.capacity() == BUF
    }

    pub(crate) fn new(fd: Fd, send: Ring, local_closed_given: bool, remote: SockAddr) -> (r: (ClosingPoll, Step))
        requires
            send.wf(),
            send.capacity() == BUF,
        ensures
            r.0.wf(),
            outcome_of(r.0.state(), r.1) == closing_start(fd, send@, local_closed_given, remote),
    {
        (ClosingPoll::Closing(Closing { fd, send, local_closed_given, remote }), Step::ask(Action::Unreceived(fd)))
    }

    fn flush(self) -> (r: (ClosingPoll, Step))
        requires
            self.wf(),
        ensures
            r.0.wf(),
            outcome_of(r.0.state(), r.1) == closing_flush(self.fd, self.send@, self.local_closed_given, self.remote),
    {
        if self.send.read_available() > 0 {
            let bytes = self.send.contents();
            let fd = self.fd;
            (ClosingPoll::Closing(self), Step::ask(Action::Write { fd, bytes }))
        } else {
            self.shut()
        }
    }

    fn shut(self) -> (r: (ClosingPoll, Step))
        requires
            self.wf(),
        ensures
            r.0.wf(),
            outcome_of(r.0.state(), r.1) == closing_shut(self.fd, self.send@, self.local_closed_given, self.remote),
    {
        if !self.local_closed_given && self.send.read_available() == 0 {
            let fd = self.fd;
            (ClosingPoll::Closing(self), Step::ask(Action::Shutdown(fd)))
        } else {
            self.drain()
        }
    }

    fn drain(self) -> (r: (ClosingPoll, Step))
        requires
            self.wf(),
        ensures
            r.0.wf(),
            outcome_of(r.0.state(), r.1) == closing_drain(self.fd, self.send@, self.local_closed_given, self.remote),
    {
        if self.local_closed_given {
            let fd = self.fd;
            (ClosingPoll::Closing(self), Step::ask(Action::Unsent(fd)))
        } else {
            (ClosingPoll::Closing(self), Step::idle())
        }
    }

    /// Carries the poll on with the kernel's answer `ev`.
    pub fn poll(self, ev: Event) -> (r: (ClosingPoll, Step))
        requires
            self.wf(),
        ensures
            r.0.wf(),
            outcome_of(r.0.state(), r.1) == poll_outcome(self.state(), ev),
    {
        let mut this = self;
        match ev {
            Event::Ready => {
                let fd = this.fd;
                (ClosingPoll::Closing(this), Step::ask(Action::Unreceived(fd)))
            },
            Event::Unreceived(n) => {
                if n != 0 {
                    (ClosingPoll::Closing(this), Step::ask(Action::Abort(Fault::DataAfterFin)))
                } else {
                    this.flush()
                }
            },
            Event::Wrote(n) => {
                if n <= this.send.read_available() {
                    this.send.consume(n);
                    this.shut()
                } else {
                    (ClosingPoll::Closing(this), Step::ask(Action::Abort(Fault::Unexpected)))
                }
            },
            Event::WriteFailed => (ClosingPoll::Killed, this.kill()),
            Event::Shutdown => {
                if !this.local_closed_given && this.send.read_available() == 0 {
                    this.local_closed_given = true;
                    this.drain()
                } else {
                    (ClosingPoll::Closing(this), Step::ask(Action::Abort(Fault::Unexpected)))
                }
            },
            Event::ShutdownFailed => (ClosingPoll::Killed, this.kill()),
            Event::Unsent(n) => {
                if !this.local_closed_given {
                    (ClosingPoll::Closing(this), Step::ask(Action::Abort(Fault::Unexpected)))
                } else if n == 0 {
                    (ClosingPoll::Closed, Step::one(Effect::Release(this.fd)))
                } else {
                    (ClosingPoll::Closing(this), Step::one(Effect::RetryLater))
                }
            },
            _ => (ClosingPoll::Closing(this), Step::ask(Action::Abort(Fault::Unexpected))),
        }
    }

    /// Gives up the connection and releases its socket.
    pub fn kill(self) -> (r: Step)
        ensures
            r.effects@ == kill_effects(self.state()),
            r.next@ == Next::Idle,
    {
        Step::one(Effect::Release(self.fd))
    }
}

} // verus!
