//! A TCP connection as a typed state machine. Each state owns what its phase needs (a
//! socket, send and receive rings, half-close flags) and offers only the operations
//! legal in it. The machine performs no system call itself: a poll hands the host one
//! question at a time about the socket (`Action`), with the side effects to carry out
//! first (`Effect`), and carries on with the kernel's answer (`Event`).
use vstd::prelude::*;

pub mod closing;
pub mod connecting;
pub mod connection;
pub mod established;
pub mod forwarder;
pub mod laws;
pub mod listener;
pub mod model;
pub mod protocol;
pub mod ring;
pub mod tcp_state;

pub use closing::{Closing, ClosingPoll, RemoteClosed, RemoteClosedPoll};
pub use connecting::{
    Connectee, ConnecteeLocalClosed, ConnecteeLocalClosedPoll, ConnecteePoll, Connecter,
    ConnecterLocalClosed, ConnecterLocalClosedPoll, ConnecterPoll,
};
pub use connection::Connection;
pub use established::{Connected, ConnectedPoll, LocalClosed, LocalClosedPoll};
pub use forwarder::{SocketForwardee, SocketForwarder};
pub use listener::{AcceptReply, ListenAction, ListenEvent, ListenStep, Listener};
pub use model::{BUF, RETRY_CAP};
pub use protocol::{Action, ConnectReply, Effect, Event, Fault, Fd, SockAddr, Step};
pub use ring::Ring;
pub use tcp_state::TcpState;

verus! {

/// Backlog for `listen` on a listening socket.
pub const LISTEN_BACKLOG: usize = 128;

} // verus!
