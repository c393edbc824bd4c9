//! The decisions of the probe loop.
//!
//! The loop owns one socket and one timer. It waits, and on each wake-up it
//! is told what the wait gave; this module says what to do next. The caller
//! does the waiting, the receiving and the sending, and hands back what came.
//! No decision depends on an earlier one: every datagram is handled alone.

use crate::address::{Endpoint, IpAddress};
use crate::message::{decode_spec, decoded_as, Decoded, OrchardMessage, ParseError};
use vstd::prelude::*;

verus! {

/// The identifier under which the socket is watched.
pub const SOCKET_TOKEN: usize = 0;

/// The seconds that one wait lasts at most, and so the time between probes.
pub const DEFAULT_TIMEOUT_SECS: u64 = 10;

/// The port that the loop binds, and that of the peer it probes.
pub const DEFAULT_PORT: u16 = 5005;

/// The size of the buffer that one datagram is received into.
pub const MAX_DATAGRAM: usize = 1500;

/// A source that the loop watches.
#[derive(Clone, Copy, Debug, PartialEq, Eq)]
pub enum EventKey {
    /// The socket.
    Socket,
    /// An identifier that the loop never registered.
    Unknown(usize),
}

impl EventKey {
    /// The source that is watched under `token`.
    pub open spec fn of_token(token: usize) -> EventKey {
        if token == SOCKET_TOKEN {
            EventKey::Socket
        } else {
            EventKey::Unknown(token)
        }
    }

    /// The source that is watched under `token`.
    pub fn from_token(token: usize) -> (key: EventKey)
        ensures
            key == EventKey::of_token(token),
    {
        if token == SOCKET_TOKEN {
            EventKey::Socket
        } else {
            EventKey::Unknown(token)
        }
    }
}

/// What one wait gave.
#[derive(Clone, Copy, Debug, PartialEq, Eq)]
pub enum WaitOutcome {
    /// The time ran out and no source was ready.
    TimedOut,
    /// A source was ready.
    Ready(EventKey),
    /// The wait itself failed.
    Failed,
}

impl WaitOutcome {
    /// The outcomes of one wake-up that reported the sources `tokens`: the
    /// time ran out where none is reported, else each reported source is
    /// ready, in the order of the report.
    pub open spec fn of_wake_spec(tokens: Seq<usize>) -> Seq<WaitOutcome> {
        if tokens.len() == 0 {
            seq![WaitOutcome::TimedOut]
        } else {
            Seq::new(tokens.len(), |i: int| WaitOutcome::Ready(EventKey::of_token(tokens[i])))
        }
    }

    /// The outcomes of one wake-up that did not fail, from the identifiers
    /// of the sources that it reported. A wake-up is a timeout or a report of
    /// ready sources, never both; the sources keep the order of the report.
    pub fn of_wake(tokens: &[usize]) -> (outcomes: Vec<WaitOutcome>)
        ensures
            outcomes@ == WaitOutcome::of_wake_spec(tokens@),
    {
        let mut outcomes: Vec<WaitOutcome> = Vec::new();
        if tokens.len() == 0 {
            outcomes.push(WaitOutcome::TimedOut);
            assert(outcomes@ =~= WaitOutcome::of_wake_spec(tokens@));
            return outcomes;
        }
        let mut i: usize = 0;
        while i < tokens.len()
            invariant
                i <= tokens@.len(),
                outcomes@.len() == i,
                forall|j: int|
                    0 <= j < i ==> outcomes@[j] == WaitOutcome::Ready(
                        EventKey::of_token(tokens@[j]),
                    ),
            decreases tokens@.len() - i,
        {
            outcomes.push(WaitOutcome::Ready(EventKey::from_token(tokens[i])));
            i += 1;
        }
        assert(outcomes@ =~= WaitOutcome::of_wake_spec(tokens@));
        outcomes
    }
}

/// Why the loop cannot go on.
#[derive(Clone, Copy, Debug, PartialEq, Eq)]
pub enum Fatal {
    /// The wait failed: the source of events is broken.
    WaitFailed,
    /// A source was reported that the loop never registered.
    UnexpectedKey(usize),
}

/// What the loop does next.
#[derive(Clone, Copy, Debug, PartialEq, Eq)]
pub enum LoopAction {
    /// Nothing: wait again.
    Wait,
    /// Send `probe` to `to`, once, then wait again.
    SendProbe { to: Endpoint, probe: OrchardMessage },
    /// Receive one datagram of at most `max_len` bytes and hand it to
    /// `ProbeLoop::react`, then wait again.
    Receive { max_len: usize },
    /// End the process with a diagnostic.
    Abort(Fatal),
}

/// Where the loop stands. It starts idle, and from its first wait on it is
/// waiting, but for the time that one action takes.
#[derive(Clone, Copy, Debug, PartialEq, Eq)]
pub enum LoopState {
    /// Before the first wait.
    Idle,
    /// In a wait, or about to wait again.
    Waiting,
    /// Receiving a datagram and reading it.
    Reacting,
    /// Sending a probe.
    Probing,
}

impl LoopAction {
    /// The state that the loop is in while it carries the action out. There
    /// is none for `Abort`, which ends the loop.
    pub open spec fn state_spec(self) -> Option<LoopState> {
        match self {
            LoopAction::Wait => Some(LoopState::Waiting),
            LoopAction::SendProbe { .. } => Some(LoopState::Probing),
            LoopAction::Receive { .. } => Some(LoopState::Reacting),
            LoopAction::Abort(_) => None,
        }
    }

    /// The state that the loop is in while it carries the action out. There
    /// is none for `Abort`, which ends the loop.
    pub fn state(&self) -> (state: Option<LoopState>)
        ensures
            state == self.state_spec(),
    {
        match self {
            LoopAction::Wait => Some(LoopState::Waiting),
            LoopAction::SendProbe { .. } => Some(LoopState::Probing),
            LoopAction::Receive { .. } => Some(LoopState::Reacting),
            LoopAction::Abort(_) => None,
        }
    }
}

/// What the loop makes of one datagram. After either, it waits again.
#[derive(Clone, Copy, Debug, PartialEq, Eq)]
pub enum Reaction {
    /// The datagram is a message.
    Accepted(Decoded),
    /// The datagram is no message, and is dropped.
    Rejected(ParseError),
}

/// The settings of one loop.
#[derive(Clone, Copy, Debug, PartialEq, Eq)]
pub struct ProbeLoop {
    /// The endpoint that the socket is bound to.
    pub local: Endpoint,
    /// The peer that probes go to.
    pub peer: Endpoint,
    /// Whether the loop probes the peer, or only listens.
    pub active: bool,
    /// The seconds that one wait lasts at most.
    pub timeout_secs: u64,
}

impl ProbeLoop {
    /// The peer that is probed where no other is named.
    pub open spec fn default_peer_spec() -> Endpoint {
        Endpoint { addr: IpAddress::V4([130u8, 209u8, 247u8, 84u8]), port: DEFAULT_PORT }
    }

    /// The peer that is probed where no other is named.
    pub fn default_peer() -> (peer: Endpoint)
        ensures
            peer == ProbeLoop::default_peer_spec(),
    {
        Endpoint { addr: IpAddress::V4([130, 209, 247, 84]), port: DEFAULT_PORT }
    }

    /// A loop on the socket bound to `local`, with the default peer and the
    /// default time between probes.
    pub fn new(local: Endpoint, active: bool) -> (lp: ProbeLoop)
        ensures
            lp == (ProbeLoop {
                local,
                peer: ProbeLoop::default_peer_spec(),
                active,
                timeout_secs: DEFAULT_TIMEOUT_SECS,
            }),
    {
        let peer = ProbeLoop::default_peer();
        ProbeLoop { local, peer, active, timeout_secs: DEFAULT_TIMEOUT_SECS }
    }

    /// The probe that this loop sends: it names the local endpoint.
    pub open spec fn probe(self) -> OrchardMessage {
        OrchardMessage::NatProbe { sender: self.local }
    }

    /// What the loop does after a wait that gave `outcome`.
    pub open spec fn next_action(self, outcome: WaitOutcome) -> LoopAction {
        match outcome {
            WaitOutcome::TimedOut => if self.active {
                LoopAction::SendProbe { to: self.peer, probe: self.probe() }
            } else {
                LoopAction::Wait
            },
            WaitOutcome::Ready(EventKey::Socket) => LoopAction::Receive { max_len: MAX_DATAGRAM },
            WaitOutcome::Ready(EventKey::Unknown(token)) => LoopAction::Abort(
                Fatal::UnexpectedKey(token),
            ),
            WaitOutcome::Failed => LoopAction::Abort(Fatal::WaitFailed),
        }
    }

    /// Decides what to do after a wait. When the time ran out, an active loop
    /// sends one probe to its peer and a passive loop does nothing. When the
    /// socket is ready, one datagram is received. A failed wait and an
    /// unknown source end the loop.
    pub fn step(&self, outcome: WaitOutcome) -> (action: LoopAction)
        ensures
            action == self.next_action(outcome),
            action is SendProbe <==> self.active && outcome is TimedOut,
    {
        match outcome {
            WaitOutcome::TimedOut => {
                if self.active {
                    LoopAction::SendProbe {
                        to: self.peer,
                        probe: OrchardMessage::NatProbe { sender: self.local },
                    }
                } else {
                    LoopAction::Wait
                }
            },
            WaitOutcome::Ready(EventKey::Socket) => LoopAction::Receive { max_len: MAX_DATAGRAM },
            WaitOutcome::Ready(EventKey::Unknown(token)) => LoopAction::Abort(
                Fatal::UnexpectedKey(token),
            ),
            WaitOutcome::Failed => LoopAction::Abort(Fatal::WaitFailed),
        }
    }

    /// Reads one datagram. A datagram that is no message is rejected with
    /// the decoder's reason; the loop goes on either way.
    pub fn react(&self, data: &[u8]) -> (reaction: Reaction)
        ensures
            match decode_spec(data@) {
                Ok(message) => reaction == Reaction::Accepted(decoded_as(data@, message)),
                Err(e) => reaction == Reaction::Rejected(e),
            },
    {
        match OrchardMessage::decode_frame(data) {
            Ok(decoded) => Reaction::Accepted(decoded),
            Err(e) => Reaction::Rejected(e),
        }
    }
}

} // verus!
