//! The states before a connection is confirmed: Connecter (outbound), Connectee
//! (accepted), and each of them after the user closed early.
use crate::established::{Connected, ConnectedPoll, LocalClosed, LocalClosedPoll};
use crate::model::{
    accept_outcome, close_outcome, connect_outcome, connecter, connecter_backoff,
    connecter_local_closed_start, connecter_round, kill_effects, outcome_of, poll_outcome,
    State, RETRY_CAP,
};
use crate::protocol::{Action, ConnectReply, Effect, Event, Fault, Fd, Next, SockAddr, Step};
use crate::ring::Ring;
use vstd::prelude::*;

verus! {

/// An outbound connection under way, or waiting to retry.
pub struct Connecter {
    pub(crate) state: Option<Fd>,
    pub(crate) fresh: Option<Fd>,
    pub(crate) tries: u32,
    pub(crate) local: SockAddr,
    pub(crate) remote: SockAddr,
}

/// What a poll of Connecter leads to.
pub enum ConnecterPoll {
    Connecter(Connecter),
    Connected(Connected),
    RemoteClosed(crate::closing::RemoteClosed),
    Killed,
}

impl ConnecterPoll {
    pub open(crate) spec fn state(&self) -> State {
        match self {
            ConnecterPoll::Connecter(c) => c.state(),
            ConnecterPoll::Connected(c) => c.state(),
            ConnecterPoll::RemoteClosed(c) => c.state(),
            ConnecterPoll::Killed => State::Killed,
        }
    }

    pub open(crate) spec fn wf(&self) -> bool {
        match self {
            ConnecterPoll::Connecter(c) => c.wf(),
            ConnecterPoll::Connected(c) => c.wf(),
            ConnecterPoll::RemoteClosed(c) => c.wf(),
            ConnecterPoll::Killed => true,
        }
    }
}

fn from_connected(p: ConnectedPoll, step: Step) -> (r: (ConnecterPoll, Step))
    requires
        p.wf(),
    ensures
        r.0.wf(),
        outcome_of(r.0.state(), r.1) == outcome_of(p.state(), step),
{
    match p {
        ConnectedPoll::Connected(c) => (ConnecterPoll::Connected(c), step),
        ConnectedPoll::RemoteClosed(c) => (ConnecterPoll::RemoteClosed(c), step),
        ConnectedPoll::Killed => (ConnecterPoll::Killed, step),
    }
}

impl Connecter {
    pub open(crate) spec fn state(&self) -> State {
        connecter(self.state, self.fresh, self.tries, self.local, self.remote)
    }

    pub open(crate) spec fn wf(&self) -> bool {
        self.tries < RETRY_CAP
    }

    /// Starts connecting from `local` to `remote`; the first poll begins at once.
    pub fn new(local: SockAddr, remote: SockAddr) -> (r: (ConnecterPoll, Step))
        ensures
            r.0.wf(),
            outcome_of(r.0.state(), r.1) == connect_outcome(local, remote),
    {
        Connecter { state: None, fresh: None, tries: 0, local, remote }.round()
    }

    fn round(self) -> (r: (ConnecterPoll, Step))
        requires
            self.fresh.is_none(),
            self.wf(),
        ensures
            r.0.wf(),
            outcome_of(r.0.state(), r.1) == connecter_round(self.state, self.tries, self.local, self.remote),
    {
        let mut this = self;
        if this.tries + 1 >= RETRY_CAP {
            (ConnecterPoll::Connecter(this), Step::ask(Action::Abort(Fault::RetryLimit)))
        } else {
            this.tries = this.tries + 1;
            match this.state {
                None => {
                    let local = this.local;
                    (ConnecterPoll::Connecter(this), Step::ask(Action::Socket { local }))
                },
                Some(f) => (ConnecterPoll::Connecter(this), Step::ask(Action::SocketError(f))),
            }
        }
    }

    fn backoff(self, f: Fd) -> (r: (ConnecterPoll, Step))
        requires
            self.wf(),
        ensures
            r.0.wf(),
            outcome_of(r.0.state(), r.1) == connecter_backoff(f, self.tries, self.local, self.remote),
    {
        let this = Connecter { state: None, fresh: None, tries: self.tries, local: self.local, remote: self.remote };
        let step = Step::after(Effect::Release(f), Step::one(Effect::RetryLater));
        assert(step.effects@ =~= seq![Effect::Release(f), Effect::RetryLater]);
        (ConnecterPoll::Connecter(this), step)
    }

    /// Carries the poll on with the kernel's answer `ev`.
    pub fn poll(self, ev: Event) -> (r: (ConnecterPoll, Step))
        requires
            self.wf(),
        ensures
            r.0.wf(),
            outcome_of(r.0.state(), r.1) == poll_outcome(self.state(), ev),
    {
        let mut this = self;
        match ev {
            Event::Ready => {
                let fresh = this.fresh;
                this.tries = 0;
                this.fresh = None;
                match fresh {
                    Some(f) => {
                        let (p, step) = this.round();
                        (p, Step::after(Effect::Release(f), step))
                    },
                    None => this.round(),
                }
            },
            Event::Socket(f) => {
                if this.state.is_none() && this.fresh.is_none() {
                    this.fresh = Some(f);
                    let remote = this.remote;
                    (ConnecterPoll::Connecter(this), Step::after(Effect::Watch(f), Step::ask(Action::Connect { fd: f, remote })))
                } else {
                    (ConnecterPoll::Connecter(this), Step::ask(Action::Abort(Fault::Unexpected)))
                }
            },
            Event::Connect(reply) => match this.fresh {
                Some(f) => match reply {
                    ConnectReply::Done | ConnectReply::InProgress => (ConnecterPoll::Connecter(this), Step::ask(Action::SocketError(f))),
                    ConnectReply::Other(_) => (ConnecterPoll::Connecter(this), Step::ask(Action::Abort(Fault::ConnectFailed))),
                    _ => this.backoff(f),
                },
                None => (ConnecterPoll::Connecter(this), Step::ask(Action::Abort(Fault::Unexpected))),
            },
            Event::SocketError(code) => match this.fresh {
                Some(f) => {
                    if code == 0 {
                        this.state = Some(f);
                        this.fresh = None;
                        this.round()
                    } else {
                        this.backoff(f)
                    }
                },
                None => match this.state {
                    Some(f) => {
                        if code == 0 {
                            (ConnecterPoll::Connecter(this), Step::ask(Action::IsConnected(f)))
                        } else {
                            this.state = None;
                            let (p, step) = this.round();
                            (p, Step::after(Effect::Release(f), step))
                        }
                    },
                    None => (ConnecterPoll::Connecter(this), Step::ask(Action::Abort(Fault::Unexpected))),
                },
            },
            Event::IsConnected(yes) => match (this.state, this.fresh) {
                (Some(f), None) => {
                    if yes {
                        let (p, step) = Connected::new(f, this.remote);
                        from_connected(p, step)
                    } else {
                        (ConnecterPoll::Connecter(this), Step::idle())
                    }
                },
                _ => (ConnecterPoll::Connecter(this), Step::ask(Action::Abort(Fault::Unexpected))),
            },
            _ => (ConnecterPoll::Connecter(this), Step::ask(Action::Abort(Fault::Unexpected))),
        }
    }

    /// The user's close before the connection is confirmed.
    pub fn close(self) -> (r: (ConnecterLocalClosedPoll, Step))
        requires
            self.wf(),
        ensures
            r.0.wf(),
            outcome_of(r.0.state(), r.1) == close_outcome(self.state()),
    {
        let (p, step) = ConnecterLocalClosed::new(self.state, self.local, self.remote);
        match self.fresh {
            Some(f) => (p, Step::after(Effect::Release(f), step)),
            None => (p, step),
        }
    }

    /// Gives up and releases whatever socket it holds.
    pub fn kill(self) -> (r: Step)
        ensures
            r.effects@ == kill_effects(self.state()),
            r.next@ == Next::Idle,
    {
        let rest = match self.state {
            Some(f) => Step::one(Effect::Release(f)),
            None => Step::idle(),
        };
        let r = match self.fresh {
            Some(f) => Step::after(Effect::Release(f), rest),
            None => rest,
        };
        assert(r.effects@ =~= kill_effects(self.state()));
        r
    }
}

/// An accepted socket whose connection is still to be confirmed.
pub struct Connectee {
    pub(crate) fd: Fd,
    pub(crate) remote: SockAddr,
}

/// What a poll of Connectee leads to.
pub enum ConnecteePoll {
    Connectee(Connectee),
    Connected(Connected),
    RemoteClosed(crate::closing::RemoteClosed),
    Killed,
}

impl ConnecteePoll {
    pub open(crate) spec fn state(&self) -> State {
        match self {
            ConnecteePoll::Connectee(c) => c.state(),
            ConnecteePoll::Connected(c) => c.state(),
            ConnecteePoll::RemoteClosed(c) => c.state(),
            ConnecteePoll::Killed => State::Killed,
        }
    }

    pub open(crate) spec fn wf(&self) -> bool {
        match self {
            ConnecteePoll::Connected(c) => c.wf(),
            ConnecteePoll::RemoteClosed(c) => c.wf(),
            _ => true,
        }
    }
}

impl Connectee {
    pub open(crate) spec fn state(&self) -> State {
        State::Connectee { fd: self.fd, remote: self.remote }
    }

    /// Takes charge of a socket that the listener accepted from `remote`.
    pub fn new(fd: Fd, remote: SockAddr) -> (r: (ConnecteePoll, Step))
        ensures
            r.0.wf(),
            outcome_of(r.0.state(), r.1) == accept_outcome(fd, remote),
    {
        (
            ConnecteePoll::Connectee(Connectee { fd, remote }),
            Step::after(Effect::Watch(fd), Step::after(Effect::Queue, Step::ask(Action::SocketError(fd)))),
        )
    }

    /// Carries the poll on with the kernel's answer `ev`.
    pub fn poll(self, ev: Event) -> (r: (ConnecteePoll, Step))
        ensures
            r.0.wf(),
            outcome_of(r.0.state(), r.1) == poll_outcome(self.state(), ev),
    {
        let fd = self.fd;
        match ev {
            Event::Ready => (ConnecteePoll::Connectee(self), Step::ask(Action::SocketError(fd))),
            Event::SocketError(code) => {
                if code != 0 {
                    (ConnecteePoll::Killed, self.kill())
                } else {
                    (ConnecteePoll::Connectee(self), Step::ask(Action::IsConnected(fd)))
                }
            },
            Event::IsConnected(yes) => {
                if yes {
                    let (p, step) = Connected::new(fd, self.remote);
                    match p {
                        ConnectedPoll::Connected(c) => (ConnecteePoll::Connected(c), step),
                        ConnectedPoll::RemoteClosed(c) => (ConnecteePoll::RemoteClosed(c), step),
                        ConnectedPoll::Killed => (ConnecteePoll::Killed, step),
                    }
                } else {
                    (ConnecteePoll::Connectee(self), Step::idle())
                }
            },
            _ => (ConnecteePoll::Connectee(self), Step::ask(Action::Abort(Fault::Unexpected))),
        }
    }

    /// The user's close before the connection is confirmed.
    pub fn close(self) -> (r: (ConnecteeLocalClosedPoll, Step))
        ensures
            r.0.wf(),
            outcome_of(r.0.state(), r.1) == close_outcome(self.state()),
    {
        let fd = self.fd;
        (
            ConnecteeLocalClosedPoll::ConnecteeLocalClosed(ConnecteeLocalClosed { fd, remote: self.remote }),
            Step::ask(Action::SocketError(fd)),
        )
    }

    /// Gives up and releases the socket.
    pub fn kill(self) -> (r: Step)
        ensures
            r.effects@ == kill_effects(self.state()),
            r.next@ == Next::Idle,
    {
        Step::one(Effect::Release(self.fd))
    }
}

/// The user closed before an outbound connection was confirmed.
pub struct ConnecterLocalClosed {
    pub(crate) state: Option<Fd>,
    pub(crate) local: SockAddr,
    pub(crate) remote: SockAddr,
}

/// What a poll of ConnecterLocalClosed leads to.
pub enum ConnecterLocalClosedPoll {
    ConnecterLocalClosed(ConnecterLocalClosed),
    LocalClosed(LocalClosed),
    Closing(crate::closing::Closing),
    Closed,
    Killed,
}

impl ConnecterLocalClosedPoll {
    pub open(crate) spec fn state(&self) -> State {
        match self {
            ConnecterLocalClosedPoll::ConnecterLocalClosed(c) => c.state(),
            ConnecterLocalClosedPoll::LocalClosed(c) => c.state(),
            ConnecterLocalClosedPoll::Closing(c) => c.state(),
            ConnecterLocalClosedPoll::Closed => State::Closed,
            ConnecterLocalClosedPoll::Killed => State::Killed,
        }
    }

    pub open(crate) spec fn wf(&self) -> bool {
        match self {
            ConnecterLocalClosedPoll::LocalClosed(c) => c.wf(),
            ConnecterLocalClosedPoll::Closing(c) => c.wf(),
            _ => true,
        }
    }
}

fn from_local_closed(p: LocalClosedPoll, step: Step) -> (r: (ConnecterLocalClosedPoll, Step))
    requires
        p.wf(),
    ensures
        r.0.wf(),
        outcome_of(r.0.state(), r.1) == outcome_of(p.state(), step),
{
    match p {
        LocalClosedPoll::LocalClosed(c) => (ConnecterLocalClosedPoll::LocalClosed(c), step),
        LocalClosedPoll::Closing(c) => (ConnecterLocalClosedPoll::Closing(c), step),
        LocalClosedPoll::Closed => (ConnecterLocalClosedPoll::Closed, step),
        LocalClosedPoll::Killed => (ConnecterLocalClosedPoll::Killed, step),
    }
}

impl ConnecterLocalClosed {
    pub open(crate) spec fn state(&self) -> State {
        State::ConnecterLocalClosed { fd: self.state, local: self.local, remote: self.remote }
    }

    pub(crate) fn new(state: Option<Fd>, local: SockAddr, remote: SockAddr) -> (r: (ConnecterLocalClosedPoll, Step))
        ensures
            r.0.wf(),
            outcome_of(r.0.state(), r.1) == connecter_local_closed_start(state, local, remote),
    {
        match state {
            None => (ConnecterLocalClosedPoll::Closed, Step::idle()),
            Some(f) => (
                ConnecterLocalClosedPoll::ConnecterLocalClosed(ConnecterLocalClosed { state, local, remote }),
                Step::ask(Action::SocketError(f)),
            ),
        }
    }

    /// Carries the poll on with the kernel's answer `ev`.
    pub fn poll(self, ev: Event) -> (r: (ConnecterLocalClosedPoll, Step))
        ensures
            r.0.wf(),
            outcome_of(r.0.state(), r.1) == poll_outcome(self.state(), ev),
    {
        match ev {
            Event::Ready => ConnecterLocalClosed::new(self.state, self.local, self.remote),
            Event::SocketError(code) => match self.state {
                Some(f) => {
                    if code == 0 {
                        (ConnecterLocalClosedPoll::ConnecterLocalClosed(self), Step::ask(Action::IsConnected(f)))
                    } else {
                        let (p, step) = ConnecterLocalClosed::new(None, self.local, self.remote);
                        (p, Step::after(Effect::Release(f), step))
                    }
                },
                None => (ConnecterLocalClosedPoll::ConnecterLocalClosed(self), Step::ask(Action::Abort(Fault::Unexpected))),
            },
            Event::IsConnected(yes) => match self.state {
                Some(f) => {
                    if yes {
                        let (p, step) = LocalClosed::new(f, Ring::new(crate::model::BUF), Ring::new(crate::model::BUF), false, self.remote);
                        from_local_closed(p, step)
                    } else {
                        (ConnecterLocalClosedPoll::ConnecterLocalClosed(self), Step::idle())
                    }
                },
                None => (ConnecterLocalClosedPoll::ConnecterLocalClosed(self), Step::ask(Action::Abort(Fault::Unexpected))),
            },
            _ => (ConnecterLocalClosedPoll::ConnecterLocalClosed(self), Step::ask(Action::Abort(Fault::Unexpected))),
        }
    }

    /// Gives up and releases whatever socket it holds.
    pub fn kill(self) -> (r: Step)
        ensures
            r.effects@ == kill_effects(self.state()),
            r.next@ == Next::Idle,
    {
        match self.state {
            Some(f) => Step::one(Effect::Release(f)),
            None => Step::idle(),
        }
    }
}

/// The user closed before an accepted connection was confirmed.
pub struct ConnecteeLocalClosed {
    pub(crate) fd: Fd,
    pub(crate) remote: SockAddr,
}

/// What a poll of ConnecteeLocalClosed leads to.
pub enum ConnecteeLocalClosedPoll {
    ConnecteeLocalClosed(ConnecteeLocalClosed),
    LocalClosed(LocalClosed),
    Closing(crate::closing::Closing),
    Closed,
    Killed,
}

impl ConnecteeLocalClosedPoll {
    pub open(crate) spec fn state(&self) -> State {
        match self {
            ConnecteeLocalClosedPoll::ConnecteeLocalClosed(c) => c.state(),
            ConnecteeLocalClosedPoll::LocalClosed(c) => c.state(),
            ConnecteeLocalClosedPoll::Closing(c) => c.state(),
            ConnecteeLocalClosedPoll::Closed => State::Closed,
            ConnecteeLocalClosedPoll::Killed => State::Killed,
        }
    }

    pub open(crate) spec fn wf(&self) -> bool {
        match self {
            ConnecteeLocalClosedPoll::LocalClosed(c) => c.wf(),
            ConnecteeLocalClosedPoll::Closing(c) => c.wf(),
            _ => true,
        }
    }
}

impl ConnecteeLocalClosed {
    pub open(crate) spec fn state(&self) -> State {
        State::ConnecteeLocalClosed { fd: self.fd, remote: self.remote }
    }

    /// Carries the poll on with the kernel's answer `ev`.
    pub fn poll(self, ev: Event) -> (r: (ConnecteeLocalClosedPoll, Step))
        ensures
            r.0.wf(),
            outcome_of(r.0.state(), r.1) == poll_outcome(self.state(), ev),
    {
        let fd = self.fd;
        match ev {
            Event::Ready => (ConnecteeLocalClosedPoll::ConnecteeLocalClosed(self), Step::ask(Action::SocketError(fd))),
            Event::SocketError(code) => {
                if code != 0 {
                    (ConnecteeLocalClosedPoll::Killed, self.kill())
                } else {
                    (ConnecteeLocalClosedPoll::ConnecteeLocalClosed(self), Step::ask(Action::IsConnected(fd)))
                }
            },
            Event::IsConnected(yes) => {
                if yes {
                    let (p, step) = LocalClosed::new(fd, Ring::new(crate::model::BUF), Ring::new(crate::model::BUF), false, self.remote);
                    match p {
                        LocalClosedPoll::LocalClosed(c) => (ConnecteeLocalClosedPoll::LocalClosed(c), step),
                        LocalClosedPoll::Closing(c) => (ConnecteeLocalClosedPoll::Closing(c), step),
                        LocalClosedPoll::Closed => (ConnecteeLocalClosedPoll::Closed, step),
                        LocalClosedPoll::Killed => (ConnecteeLocalClosedPoll::Killed, step),
                    }
                } else {
                    (ConnecteeLocalClosedPoll::ConnecteeLocalClosed(self), Step::idle())
                }
            },
            _ => (ConnecteeLocalClosedPoll::ConnecteeLocalClosed(self), Step::ask(Action::Abort(Fault::Unexpected))),
        }
    }

    /// Gives up and releases the socket.
    pub fn kill(self) -> (r: Step)
        ensures
            r.effects@ == kill_effects(self.state()),
            r.next@ == Next::Idle,
    {
        Step::one(Effect::Release(self.fd))
    }
}

} // verus!
