//! The two ends of a channel that carries descriptors between processes: each message
//! is empty and carries exactly one descriptor as SCM_RIGHTS.
use crate::protocol::{Effect, Fd};
use vstd::prelude::*;

verus! {

/// The sending end of a forwarding channel.
#[derive(Clone, Copy, Debug)]
pub struct SocketForwarder(pub(crate) Fd);

/// The receiving end of a forwarding channel.
#[derive(Debug)]
pub struct SocketForwardee(pub(crate) Fd);

impl View for SocketForwarder {
    type V = Fd;

    closed spec fn view(&self) -> Fd {
        self.0
    }
}

impl SocketForwarder {
    /// The sending end on the datagram socket `fd`.
    pub fn new(fd: Fd) -> (r: SocketForwarder)
        ensures
            r@ == fd,
    {
        SocketForwarder(fd)
    }

    /// The channel's descriptor.
    pub fn fd(&self) -> (r: Fd)
        ensures
            r == self@,
    {
        self.0
    }

    /// What follows a send of `fd` that put `payload` bytes on the wire: the message must
    /// be empty, and unless the descriptor is to be sent again (`copy`) it is closed here.
    pub fn sent(&self, fd: Fd, payload: usize, copy: bool) -> (r: Option<Vec<Effect>>)
        ensures
            r.is_some() == (payload == 0),
            r.is_some() && copy ==> r->Some_0@ == Seq::<Effect>::empty(),
            r.is_some() && !copy ==> r->Some_0@ == seq![Effect::Close(fd)],
    {
        if payload != 0 {
            return None;
        }
        let mut effects: Vec<Effect> = Vec::new();
        if !copy {
            effects.push(Effect::Close(fd));
        }
        Some(effects)
    }
}

impl View for SocketForwardee {
    type V = Fd;

    closed spec fn view(&self) -> Fd {
        self.0
    }
}

impl SocketForwardee {
    /// The receiving end on the non-blocking datagram socket `fd`.
    pub fn new(fd: Fd) -> (r: SocketForwardee)
        ensures
            r@ == fd,
    {
        SocketForwardee(fd)
    }

    /// The channel's descriptor.
    pub fn fd(&self) -> (r: Fd)
        ensures
            r == self@,
    {
        self.0
    }

    /// The descriptor a received message carries, if it has the one valid shape: no
    /// payload, and one control message holding exactly one descriptor.
    pub fn unpack(&self, payload: usize, messages: usize, fds: &Vec<Fd>) -> (r: Option<Fd>)
        ensures
            r == (if payload == 0 && messages == 1 && fds@.len() == 1 { Some(fds@[0]) } else { None::<Fd> }),
    {
        if payload == 0 && messages == 1 && fds.len() == 1 {
            Some(fds[0])
        } else {
            None
        }
    }
}

} // verus!
