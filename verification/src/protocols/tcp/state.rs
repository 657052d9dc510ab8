use vstd::prelude::*;

verus! {

/// Where a connection stands.
#[derive(Clone, Copy, Debug, PartialEq, Eq, Structural)]
pub enum TcpState {
    Closed,
    Listen,
    SynSent,
    SynReceived,
    Established,
    FinWait1,
    FinWait2,
    CloseWait,
    Closing,
    LastAck,
    TimeWait,
}

/// What can happen to a connection.
#[derive(Clone, Copy, Debug, PartialEq, Eq, Structural)]
pub enum TcpEvent {
    /// The application opens the connection towards a remote station.
    ActiveOpen,
    /// The application waits for a remote station to open it.
    PassiveOpen,
    /// The remote station's opening segment arrives.
    SynArrived,
    /// The remote station's answer to this station's opening segment
    /// arrives.
    SynAckArrived,
    /// The remote station acknowledges this station's opening or closing
    /// segment.
    AckArrived,
    /// The remote station's closing segment arrives.
    FinArrived,
    /// The application closes the connection.
    Close,
    /// The connection has lingered long enough.
    TimeWaitExpired,
    /// The connection is given up: retransmissions are exhausted, or the
    /// remote station reset it.
    Abort,
}

/// The state that an event leads to, where the event has a place in the
/// state it meets.
pub open spec fn next_state(state: TcpState, event: TcpEvent) -> Option<TcpState> {
    match (state, event) {
        (_, TcpEvent::Abort) => Some(TcpState::Closed),
        (TcpState::Closed, TcpEvent::ActiveOpen) => Some(TcpState::SynSent),
        (TcpState::Closed, TcpEvent::PassiveOpen) => Some(TcpState::Listen),
        (TcpState::Listen, TcpEvent::SynArrived) => Some(TcpState::SynReceived),
        (TcpState::Listen, TcpEvent::Close) => Some(TcpState::Closed),
        (TcpState::SynSent, TcpEvent::SynAckArrived) => Some(TcpState::Established),
        (TcpState::SynSent, TcpEvent::SynArrived) => Some(TcpState::SynReceived),
        (TcpState::SynSent, TcpEvent::Close) => Some(TcpState::Closed),
        (TcpState::SynReceived, TcpEvent::AckArrived) => Some(TcpState::Established),
        (TcpState::SynReceived, TcpEvent::Close) => Some(TcpState::FinWait1),
        (TcpState::Established, TcpEvent::Close) => Some(TcpState::FinWait1),
        (TcpState::Established, TcpEvent::FinArrived) => Some(TcpState::CloseWait),
        (TcpState::FinWait1, TcpEvent::AckArrived) => Some(TcpState::FinWait2),
        (TcpState::FinWait1, TcpEvent::FinArrived) => Some(TcpState::Closing),
        (TcpState::FinWait2, TcpEvent::FinArrived) => Some(TcpState::TimeWait),
        (TcpState::CloseWait, TcpEvent::Close) => Some(TcpState::LastAck),
        (TcpState::Closing, TcpEvent::AckArrived) => Some(TcpState::TimeWait),
        (TcpState::LastAck, TcpEvent::AckArrived) => Some(TcpState::Closed),
        (TcpState::TimeWait, TcpEvent::TimeWaitExpired) => Some(TcpState::Closed),
        _ => None,
    }
}

/// The state that an event leads to, where the event has a place in the
/// state it meets.
pub fn transition(state: TcpState, event: TcpEvent) -> (next: Option<TcpState>)
    ensures
        next == next_state(state, event),
{
    match (state, event) {
        (_, TcpEvent::Abort) => Some(TcpState::Closed),
        (TcpState::Closed, TcpEvent::ActiveOpen) => Some(TcpState::SynSent),
        (TcpState::Closed, TcpEvent::PassiveOpen) => Some(TcpState::Listen),
        (TcpState::Listen, TcpEvent::SynArrived) => Some(TcpState::SynReceived),
        (TcpState::Listen, TcpEvent::Close) => Some(TcpState::Closed),
        (TcpState::SynSent, TcpEvent::SynAckArrived) => Some(TcpState::Established),
        (TcpState::SynSent, TcpEvent::SynArrived) => Some(TcpState::SynReceived),
        (TcpState::SynSent, TcpEvent::Close) => Some(TcpState::Closed),
        (TcpState::SynReceived, TcpEvent::AckArrived) => Some(TcpState::Established),
        (TcpState::SynReceived, TcpEvent::Close) => Some(TcpState::FinWait1),
        (TcpState::Established, TcpEvent::Close) => Some(TcpState::FinWait1),
        (TcpState::Established, TcpEvent::FinArrived) => Some(TcpState::CloseWait),
        (TcpState::FinWait1, TcpEvent::AckArrived) => Some(TcpState::FinWait2),
        (TcpState::FinWait1, TcpEvent::FinArrived) => Some(TcpState::Closing),
        (TcpState::FinWait2, TcpEvent::FinArrived) => Some(TcpState::TimeWait),
        (TcpState::CloseWait, TcpEvent::Close) => Some(TcpState::LastAck),
        (TcpState::Closing, TcpEvent::AckArrived) => Some(TcpState::TimeWait),
        (TcpState::LastAck, TcpEvent::AckArrived) => Some(TcpState::Closed),
        (TcpState::TimeWait, TcpEvent::TimeWaitExpired) => Some(TcpState::Closed),
        _ => None,
    }
}

impl TcpState {
    /// The state after `event`: the one it leads to, or this one where the
    /// event has no place in it.
    pub open spec fn spec_after(self, event: TcpEvent) -> TcpState {
        match next_state(self, event) {
            Some(next) => next,
            None => self,
        }
    }

    /// The state after `event`: the one it leads to, or this one where the
    /// event has no place in it.
    #[verifier::when_used_as_spec(spec_after)]
    pub fn after(self, event: TcpEvent) -> (next: TcpState)
        ensures
            next == self.spec_after(event),
    {
        match transition(self, event) {
            Some(next) => next,
            None => self,
        }
    }

    /// Whether inbound data is taken in this state.
    pub open spec fn spec_reads_data(self) -> bool {
        self == TcpState::Established || self == TcpState::FinWait1 || self == TcpState::FinWait2
    }

    #[verifier::when_used_as_spec(spec_reads_data)]
    pub fn reads_data(self) -> (r: bool)
        ensures
            r == self.spec_reads_data(),
    {
        match self {
            TcpState::Established | TcpState::FinWait1 | TcpState::FinWait2 => true,
            _ => false,
        }
    }

    /// Whether outbound data is sent in this state.
    pub open spec fn spec_writes_data(self) -> bool {
        self == TcpState::Established || self == TcpState::CloseWait
    }

    #[verifier::when_used_as_spec(spec_writes_data)]
    pub fn writes_data(self) -> (r: bool)
        ensures
            r == self.spec_writes_data(),
    {
        match self {
            TcpState::Established | TcpState::CloseWait => true,
            _ => false,
        }
    }
}

/// The ways of a connection, from either opening to `Closed`, as the
/// transitions give them: an active opener that closes first, a passive
/// opener that is closed upon, and two sides that close at once.
pub proof fn common_paths_end_closed()
    ensures
        ({
            let s = TcpState::Closed.after(TcpEvent::ActiveOpen).after(TcpEvent::SynAckArrived);
            &&& s == TcpState::Established
            &&& s.after(TcpEvent::Close).after(TcpEvent::AckArrived).after(TcpEvent::FinArrived).after(
                TcpEvent::TimeWaitExpired,
            ) == TcpState::Closed
            &&& s.after(TcpEvent::Close).after(TcpEvent::FinArrived).after(TcpEvent::AckArrived).after(
                TcpEvent::TimeWaitExpired,
            ) == TcpState::Closed
        }),
        ({
            let s = TcpState::Closed.after(TcpEvent::PassiveOpen).after(TcpEvent::SynArrived).after(
                TcpEvent::AckArrived,
            );
            &&& s == TcpState::Established
            &&& s.after(TcpEvent::FinArrived).after(TcpEvent::Close).after(TcpEvent::AckArrived)
                == TcpState::Closed
        }),
        forall|s: TcpState| s.after(TcpEvent::Abort) == TcpState::Closed,
{
}

} // verus!
