//! What passes between a connection and the host that runs it: the kernel's answers
//! (`Event`), the question a poll waits on (`Action`) and the side effects that a step
//! asks for (`Effect`).
use vstd::prelude::*;

verus! {

/// A file descriptor, as the kernel numbers it.
pub type Fd = i32;

/// An IPv4 or IPv6 socket address, held as plain numbers.
#[derive(Clone, Copy, Debug, PartialEq, Eq, Structural)]
pub enum SockAddr {
    V4 { ip: u32, port: u16 },
    V6 { ip: u128, port: u16, flowinfo: u32, scope_id: u32 },
}

/// What `connect` on a fresh non-blocking socket reported.
#[derive(Clone, Copy, Debug, PartialEq, Eq, Structural)]
pub enum ConnectReply {
    /// It returned success.
    Done,
    /// EINPROGRESS.
    InProgress,
    /// EADDRNOTAVAIL.
    AddrNotAvail,
    /// ECONNABORTED.
    ConnAborted,
    /// ECONNRESET.
    ConnReset,
    /// ECONNREFUSED.
    ConnRefused,
    /// Any other errno.
    Other(i32),
}

/// A side effect that the host carries out, in order, before answering the next question.
#[derive(Clone, Copy, Debug, PartialEq, Eq, Structural)]
pub enum Effect {
    /// Begin edge-triggered notification for the descriptor.
    Watch(Fd),
    /// Stop notification for the descriptor, then close it.
    Release(Fd),
    /// Close a descriptor that was never watched.
    Close(Fd),
    /// Poll again in about a millisecond.
    RetryLater,
    /// Poll again as soon as possible.
    Queue,
}

/// Why a step cannot go on: each is a fault in the kernel's or the host's behaviour,
/// and the host is to abort with it.
#[derive(Clone, Copy, Debug, PartialEq, Eq, Structural)]
pub enum Fault {
    /// A connect attempt was retried too many times within one poll.
    RetryLimit,
    /// `connect` failed in a way that a retry cannot mend.
    ConnectFailed,
    /// Bytes arrived after the peer's FIN.
    DataAfterFin,
    /// The host answered a question that was not asked, or answered it out of range.
    Unexpected,
    /// A descriptor handed over as a listener is not in non-blocking mode.
    Blocking,
    /// Accepting, or receiving a forwarded socket, failed.
    ListenFailed,
}

/// The kernel's answer to the last question, or the start of a poll.
#[derive(Debug, PartialEq, Eq)]
pub enum Event {
    /// An edge, a timer or a queued poll: begin a poll.
    Ready,
    /// A new non-blocking stream socket, options set and bound to the local address.
    Socket(Fd),
    /// The outcome of `connect`.
    Connect(ConnectReply),
    /// The value of SO_ERROR.
    SocketError(i32),
    /// Whether the socket has a peer.
    IsConnected(bool),
    /// How many of the offered bytes the kernel took.
    Wrote(usize),
    /// The write failed.
    WriteFailed,
    /// The bytes read, and whether the peer's FIN followed them.
    Read { bytes: Vec<u8>, eof: bool },
    /// The read failed.
    ReadFailed,
    /// `shutdown(WRITE)` succeeded.
    Shutdown,
    /// `shutdown(WRITE)` failed.
    ShutdownFailed,
    /// Bytes received by the kernel and not yet read.
    Unreceived(usize),
    /// Bytes sent and not yet acknowledged by the peer.
    Unsent(usize),
}

/// The question a poll waits on, or how it ended.
#[derive(Debug, PartialEq, Eq)]
pub enum Action {
    /// Create a non-blocking stream socket with the usual options, bound to `local`.
    Socket { local: SockAddr },
    /// Start connecting the socket to `remote`.
    Connect { fd: Fd, remote: SockAddr },
    /// Read SO_ERROR.
    SocketError(Fd),
    /// Ask whether the socket has a peer.
    IsConnected(Fd),
    /// Write as many of these bytes as the kernel takes without blocking.
    Write { fd: Fd, bytes: Vec<u8> },
    /// Read at most `room` bytes without blocking.
    Read { fd: Fd, room: usize },
    /// Shut down the writing half.
    Shutdown(Fd),
    /// Count the bytes received and not yet read.
    Unreceived(Fd),
    /// Count the bytes sent and not yet acknowledged.
    Unsent(Fd),
    /// The poll is over.
    Idle,
    /// The host must abort.
    Abort(Fault),
}

/// `Action` with the bytes of a write as a sequence.
pub enum Next {
    Socket { local: SockAddr },
    Connect { fd: Fd, remote: SockAddr },
    SocketError(Fd),
    IsConnected(Fd),
    Write { fd: Fd, bytes: Seq<u8> },
    Read { fd: Fd, room: nat },
    Shutdown(Fd),
    Unreceived(Fd),
    Unsent(Fd),
    Idle,
    Abort(Fault),
}

impl View for Action {
    type V = Next;

    open spec fn view(&self) -> Next {
        match *self {
            Action::Socket { local } => Next::Socket { local },
            Action::Connect { fd, remote } => Next::Connect { fd, remote },
            Action::SocketError(fd) => Next::SocketError(fd),
            Action::IsConnected(fd) => Next::IsConnected(fd),
            Action::Write { fd, bytes } => Next::Write { fd, bytes: bytes@ },
            Action::Read { fd, room } => Next::Read { fd, room: room as nat },
            Action::Shutdown(fd) => Next::Shutdown(fd),
            Action::Unreceived(fd) => Next::Unreceived(fd),
            Action::Unsent(fd) => Next::Unsent(fd),
            Action::Idle => Next::Idle,
            Action::Abort(f) => Next::Abort(f),
        }
    }
}

/// What one call hands the host: effects to carry out, then the next question.
#[derive(Debug, PartialEq, Eq)]
pub struct Step {
    pub effects: Vec<Effect>,
    pub next: Action,
}

impl Step {
    /// A step that only ends the poll.
    pub fn idle() -> (r: Step)
        ensures
            r.effects@ == Seq::<Effect>::empty(),
            r.next@ == Next::Idle,
    {
        Step { effects: Vec::new(), next: Action::Idle }
    }

    /// A step that only asks `next`.
    pub fn ask(next: Action) -> (r: Step)
        ensures
            r.effects@ == Seq::<Effect>::empty(),
            r.next@ == next@,
    {
        Step { effects: Vec::new(), next }
    }

    /// A step that asks for `e` and ends the poll.
    pub fn one(e: Effect) -> (r: Step)
        ensures
            r.effects@ == seq![e],
            r.next@ == Next::Idle,
    {
        let mut effects: Vec<Effect> = Vec::new();
        effects.push(e);
        Step { effects, next: Action::Idle }
    }

    /// Puts `e` before the effects already there.
    pub fn after(e: Effect, step: Step) -> (r: Step)
        ensures
            r.effects@ == seq![e] + step.effects@,
            r.next@ == step.next@,
    {
        let mut effects: Vec<Effect> = Vec::new();
        effects.push(e);
        let mut rest = step.effects;
        effects.append(&mut rest);
        Step { effects, next: step.next }
    }
}

} // verus!
