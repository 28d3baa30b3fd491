//! Properties of the automaton that hold across calls, each proved over the model that
//! the operations' contracts are stated in.
use crate::model::{
    accept_outcome, close_outcome, connect_outcome, closable, connecter_round, kill_effects, killable, owned, poll_outcome,
    recv_bytes, recv_outcome, send_bytes, send_outcome, Outcome, State, BUF, RETRY_CAP,
};
use crate::protocol::{Effect, Event, Fault, Fd, Next, SockAddr};
use vstd::prelude::*;

verus! {

/// The release of each descriptor in `fds`, in order.
pub open spec fn releases(fds: Seq<Fd>) -> Seq<Effect> {
    fds.map_values(|f: Fd| Effect::Release(f))
}

/// A kill releases exactly the descriptors the state owns, each once.
pub proof fn kill_releases_owned(s: State)
    ensures
        kill_effects(s) == releases(owned(s)),
{
    assert(kill_effects(s) =~= releases(owned(s)));
}

/// A poll that ends a connection gracefully releases exactly the descriptors it owned.
pub proof fn graceful_end_releases_owned(s: State, ev: Event)
    requires
        !(s is Closed),
        poll_outcome(s, ev).state is Closed,
    ensures
        poll_outcome(s, ev).effects == releases(owned(s)),
{
    assert(poll_outcome(s, ev).effects =~= releases(owned(s)));
}

/// A close that ends a connection at once releases exactly the descriptors it owned.
pub proof fn graceful_close_releases_owned(s: State)
    requires
        closable(s),
        close_outcome(s).state is Closed,
    ensures
        close_outcome(s).effects == releases(owned(s)),
{
    assert(close_outcome(s).effects =~= releases(owned(s)));
}

/// The state reached from `s` through the events `evs`, each handed to `poll` in turn.
pub open spec fn run(s: State, evs: Seq<Event>) -> State
    decreases evs.len(),
{
    if evs.len() == 0 {
        s
    } else {
        run(poll_outcome(s, evs[0]).state, evs.drop_first())
    }
}

/// Polling is deterministic: the same state and the same kernel answers give the same
/// step, and the same state after any sequence of them.
pub proof fn poll_is_deterministic(s1: State, s2: State, evs1: Seq<Event>, evs2: Seq<Event>)
    requires
        s1 == s2,
        evs1 == evs2,
    ensures
        run(s1, evs1) == run(s2, evs2),
        evs1.len() > 0 ==> poll_outcome(s1, evs1[0]) == poll_outcome(s2, evs2[0]),
{
}

/// Once the writing half is shut, the send ring is empty: the states that hold a
/// `local_closed_given` flag never hold queued bytes behind it.
pub open spec fn shut_means_flushed(s: State) -> bool {
    match s {
        State::LocalClosed { send, local_closed_given, .. } => local_closed_given ==> send.len() == 0,
        State::Closing { send, local_closed_given, .. } => local_closed_given ==> send.len() == 0,
        _ => true,
    }
}

/// Polling, closing, sending and receiving all keep the writing half from being shut
/// while bytes wait to be written.
pub proof fn shut_means_flushed_is_kept(s: State, ev: Event, b: u8)
    requires
        shut_means_flushed(s),
    ensures
        shut_means_flushed(poll_outcome(s, ev).state),
        closable(s) ==> shut_means_flushed(close_outcome(s).state),
        send_outcome(s, b).is_some() ==> shut_means_flushed(send_outcome(s, b)->Some_0),
        recv_outcome(s).is_some() ==> shut_means_flushed(recv_outcome(s)->Some_0.1),
{
}

/// A new connection, outbound or accepted, starts with the writing half open.
pub proof fn new_connections_are_flushed(local: SockAddr, remote: SockAddr, fd: Fd)
    ensures
        shut_means_flushed(connect_outcome(local, remote).state),
        shut_means_flushed(accept_outcome(fd, remote).state),
{
}

/// The bytes a state still has to write, if it has a send ring.
pub open spec fn unsent_bytes(s: State) -> Option<Seq<u8>> {
    match s {
        State::Connected { send, .. } => Some(send),
        State::RemoteClosed { send, .. } => Some(send),
        State::LocalClosed { send, .. } => Some(send),
        State::Closing { send, .. } => Some(send),
        _ => None,
    }
}

/// No data is lost on a graceful close: a connection with a send ring reaches Closed
/// only with that ring empty and once the kernel reports no unacknowledged byte.
pub proof fn closed_only_when_all_sent(s: State, ev: Event)
    requires
        shut_means_flushed(s),
        unsent_bytes(s).is_some(),
        poll_outcome(s, ev).state is Closed,
    ensures
        unsent_bytes(s)->Some_0.len() == 0,
        ev == Event::Unsent(0),
{
}

/// Bytes that wait in the send ring leave it only in the order they were queued, and
/// only as many as the kernel reports written.
pub proof fn sent_bytes_leave_in_order(s: State, n: usize)
    requires
        send_bytes(s).is_some(),
        n <= send_bytes(s)->Some_0.len(),
        !(poll_outcome(s, Event::Wrote(n)).state is Killed),
        unsent_bytes(poll_outcome(s, Event::Wrote(n)).state).is_some(),
    ensures
        unsent_bytes(poll_outcome(s, Event::Wrote(n)).state)->Some_0
            == send_bytes(s)->Some_0.subrange(n as int, send_bytes(s)->Some_0.len() as int),
{
}

/// A state with a receive ring gives it up only once the peer has closed and every
/// received byte was read, whether by a poll or by the user's close.
pub proof fn recv_ring_dropped_only_when_drained(s: State, ev: Event)
    requires
        recv_bytes(s).is_some(),
    ensures
        recv_bytes(poll_outcome(s, ev).state).is_none() && !(poll_outcome(s, ev).state is Killed) ==> recv_bytes(s)->Some_0.len() == 0
            && match ev {
                Event::Read { bytes, eof } => eof && bytes@.len() == 0,
                _ => remote_closed_flag(s) == Some(true),
            },
        closable(s) && recv_bytes(close_outcome(s).state).is_none() ==> recv_bytes(s)->Some_0.len() == 0
            && remote_closed_flag(s) == Some(true),
{
}

/// Closing a connected socket keeps every received byte readable.
pub proof fn close_keeps_received(s: State)
    requires
        s is Connected,
        recv_bytes(s)->Some_0.len() > 0,
    ensures
        close_outcome(s).state is LocalClosed,
        recv_bytes(close_outcome(s).state) == recv_bytes(s),
{
}

/// While received bytes wait, LocalClosed does not advance: a poll keeps them, in
/// front of any that arrive, unless the connection dies.
pub proof fn local_closed_waits_for_reader(s: State, ev: Event)
    requires
        s is LocalClosed,
        recv_bytes(s)->Some_0.len() > 0,
    ensures
        poll_outcome(s, ev).state is Killed || (poll_outcome(s, ev).state is LocalClosed
            && recv_bytes(poll_outcome(s, ev).state)->Some_0.subrange(0, recv_bytes(s)->Some_0.len() as int)
                == recv_bytes(s)->Some_0),
{
    let t = poll_outcome(s, ev).state;
    if t is LocalClosed {
        let old_recv = recv_bytes(s)->Some_0;
        assert(recv_bytes(t)->Some_0.subrange(0, old_recv.len() as int) =~= old_recv);
    }
}

/// Only a state with bytes to read lets one be taken, and only one with room lets one
/// be queued.
pub proof fn capabilities_agree(s: State, b: u8)
    ensures
        recv_outcome(s).is_some() <==> (recv_bytes(s).is_some() && recv_bytes(s)->Some_0.len() > 0),
        send_outcome(s, b).is_some() <==> (send_bytes(s).is_some() && send_bytes(s)->Some_0.len() < BUF),
{
}

/// The peer-closed flag, where the state has one.
pub open spec fn remote_closed_flag(s: State) -> Option<bool> {
    match s {
        State::Connected { remote_closed, .. } => Some(remote_closed),
        State::LocalClosed { remote_closed, .. } => Some(remote_closed),
        _ => None,
    }
}

/// The writing-half-shut flag, where the state has one.
pub open spec fn local_closed_flag(s: State) -> Option<bool> {
    match s {
        State::LocalClosed { local_closed_given, .. } => Some(local_closed_given),
        State::Closing { local_closed_given, .. } => Some(local_closed_given),
        _ => None,
    }
}

/// Both flags are set once: no poll, close, send or receive clears them.
pub proof fn flags_are_set_once(s: State, ev: Event, b: u8)
    ensures
        remote_closed_flag(s) == Some(true) && remote_closed_flag(poll_outcome(s, ev).state).is_some()
            ==> remote_closed_flag(poll_outcome(s, ev).state) == Some(true),
        local_closed_flag(s) == Some(true) && local_closed_flag(poll_outcome(s, ev).state).is_some()
            ==> local_closed_flag(poll_outcome(s, ev).state) == Some(true),
        remote_closed_flag(s) == Some(true) && closable(s) && remote_closed_flag(close_outcome(s).state).is_some()
            ==> remote_closed_flag(close_outcome(s).state) == Some(true),
        send_outcome(s, b).is_some() ==> remote_closed_flag(send_outcome(s, b)->Some_0) == remote_closed_flag(s),
        recv_outcome(s).is_some() ==> remote_closed_flag(recv_outcome(s)->Some_0.1) == remote_closed_flag(s)
            && local_closed_flag(recv_outcome(s)->Some_0.1) == local_closed_flag(s),
{
}

/// Closed and Killed are final: a poll leaves them as they are and asks for nothing.
pub proof fn terminal_states_absorb(ev: Event)
    ensures
        poll_outcome(State::Closed, ev) == (Outcome { state: State::Closed, effects: Seq::empty(), next: Next::Idle }),
        poll_outcome(State::Killed, ev) == (Outcome { state: State::Killed, effects: Seq::empty(), next: Next::Idle }),
{
}

/// A killed connection cannot be killed again, so nothing is released twice.
pub proof fn no_second_kill(s: State)
    requires
        killable(s),
    ensures
        !killable(State::Killed),
        kill_effects(State::Killed) == Seq::<Effect>::empty(),
{
}

/// A close followed at once by a kill releases each descriptor the connection held
/// exactly once, as a kill alone would.
pub proof fn close_then_kill_releases_once(s: State)
    requires
        closable(s),
    ensures
        close_outcome(s).effects + (if killable(close_outcome(s).state) {
            kill_effects(close_outcome(s).state)
        } else {
            Seq::empty()
        }) == kill_effects(s),
{
    let t = close_outcome(s).state;
    let rest = if killable(t) { kill_effects(t) } else { Seq::empty() };
    assert(close_outcome(s).effects + rest =~= kill_effects(s));
}

/// A full send ring offers no room and refuses another byte.
pub proof fn full_send_ring_refuses(s: State, b: u8)
    requires
        send_bytes(s).is_some(),
        send_bytes(s)->Some_0.len() == BUF,
    ensures
        BUF - send_bytes(s)->Some_0.len() == 0,
        send_outcome(s, b).is_none(),
{
}

/// Once the peer has closed and the receive ring is drained, Connected becomes
/// RemoteClosed in the next poll: at once when nothing waits to be sent, else as soon
/// as the kernel has taken the write.
pub proof fn drained_after_fin_promotes(s: State, n: usize)
    requires
        s is Connected,
        s->Connected_remote_closed,
        s->Connected_recv.len() == 0,
        n <= s->Connected_send.len(),
    ensures
        s->Connected_send.len() == 0 ==> poll_outcome(s, Event::Ready).state is RemoteClosed,
        poll_outcome(s, Event::Wrote(n)).state is RemoteClosed,
{
}

/// A Connecter poll that would start its thousandth round gives up with a fault.
pub proof fn retry_cap_aborts(fd: Option<Fd>, tries: u32, local: SockAddr, remote: SockAddr)
    requires
        tries + 1 >= RETRY_CAP,
    ensures
        connecter_round(fd, tries, local, remote).next == Next::Abort(Fault::RetryLimit),
{
}

} // verus!
