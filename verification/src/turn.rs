//! Whose turn it is.
//!
//! In every iteration one peer produces and the other consumes. Which one is
//! decided by the parity of the iteration's index alone: the initiator
//! produces on even indices, the responder on odd ones. Neither peer stores
//! its role; both derive it, and so they cannot disagree.

use vstd::prelude::*;

verus! {

/// The two personas of a session.
#[derive(Debug, Clone, Copy, PartialEq, Eq, Structural)]
pub enum PeerRole {
    /// Accepts the connection and sends the configuration.
    Initiator,
    /// Connects and receives the configuration.
    Responder,
}

/// What a peer does in one iteration.
#[derive(Debug, Clone, Copy, PartialEq, Eq, Structural)]
pub enum TurnRole {
    /// Originates the iteration's batch.
    Producer,
    /// Receives the iteration's batch and confirms it.
    Consumer,
}

/// The role of `peer` in the iteration with this index.
pub open spec fn turn_of(peer: PeerRole, index: u64) -> TurnRole {
    if (index % 2 == 0) == (peer == PeerRole::Initiator) {
        TurnRole::Producer
    } else {
        TurnRole::Consumer
    }
}

/// The role of `peer` in the iteration with this index.
pub fn role_at(peer: PeerRole, index: u64) -> (role: TurnRole)
    ensures
        role == turn_of(peer, index),
{
    let even: bool = index % 2 == 0;
    match peer {
        PeerRole::Initiator => if even {
            TurnRole::Producer
        } else {
            TurnRole::Consumer
        },
        PeerRole::Responder => if even {
            TurnRole::Consumer
        } else {
            TurnRole::Producer
        },
    }
}

/// One iteration of a session. The role is not part of it: it follows from
/// the index and the peer.
#[derive(Debug, Clone, Copy, PartialEq, Eq, Structural)]
pub struct IterationState {
    /// The iteration's index, counted from zero.
    pub index: u64,
}

impl IterationState {
    /// The role of `peer` in this iteration.
    pub fn role(&self, peer: PeerRole) -> (role: TurnRole)
        ensures
            role == turn_of(peer, self.index),
    {
        role_at(peer, self.index)
    }
}

/// In every iteration exactly one peer produces and the other consumes, and
/// which one depends on nothing but the parity of the index.
pub proof fn lemma_turn_exclusive(index: u64)
    ensures
        turn_of(PeerRole::Initiator, index) != turn_of(PeerRole::Responder, index),
        (turn_of(PeerRole::Initiator, index) == TurnRole::Producer) != (turn_of(
            PeerRole::Responder,
            index,
        ) == TurnRole::Producer),
        (turn_of(PeerRole::Initiator, index) == TurnRole::Consumer) != (turn_of(
            PeerRole::Responder,
            index,
        ) == TurnRole::Consumer),
        turn_of(PeerRole::Initiator, index) == turn_of(PeerRole::Initiator, (index % 2) as u64),
        turn_of(PeerRole::Responder, index) == turn_of(PeerRole::Responder, (index % 2) as u64),
        turn_of(PeerRole::Initiator, index) == TurnRole::Producer <==> index % 2 == 0,
{
}

/// The roles swap from one iteration to the next.
pub proof fn lemma_turns_alternate(peer: PeerRole, index: u64)
    requires
        index < u64::MAX,
    ensures
        turn_of(peer, (index + 1) as u64) != turn_of(peer, index),
{
}

} // verus!
