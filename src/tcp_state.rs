use vstd::prelude::*;

verus! {

/// The state of a TCP connection as the kernel reports it.
#[derive(Clone, Copy, Debug, PartialEq, Eq, Structural)]
pub enum TcpState {
    Closed,
    Listen,
    SynSent,
    SynReceived,
    Established,
    CloseWait,
    FinWait1,
    Closing,
    LastAck,
    FinWait2,
    TimeWait,
    Reserved,
}

impl TcpState {
    /// The position of each state in the kernel's numbering.
    pub open spec fn raw(self) -> u8 {
        match self {
            TcpState::Closed => 0,
            TcpState::Listen => 1,
            TcpState::SynSent => 2,
            TcpState::SynReceived => 3,
            TcpState::Established => 4,
            TcpState::CloseWait => 5,
            TcpState::FinWait1 => 6,
            TcpState::Closing => 7,
            TcpState::LastAck => 8,
            TcpState::FinWait2 => 9,
            TcpState::TimeWait => 10,
            TcpState::Reserved => 11,
        }
    }

    /// Decodes the kernel's number for a state; numbers past the last state are not states.
    pub fn from_raw(state: u8) -> (r: TcpState)
        requires
            state <= 11,
        ensures
            r.raw() == state,
    {
        match state {
            0 => TcpState::Closed,
            1 => TcpState::Listen,
            2 => TcpState::SynSent,
            3 => TcpState::SynReceived,
            4 => TcpState::Established,
            5 => TcpState::CloseWait,
            6 => TcpState::FinWait1,
            7 => TcpState::Closing,
            8 => TcpState::LastAck,
            9 => TcpState::FinWait2,
            10 => TcpState::TimeWait,
            _ => TcpState::Reserved,
        }
    }
}

} // verus!
