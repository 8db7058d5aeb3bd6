//! The wire-level shapes delivered by the two streams, held as plain values:
//! admin-stream proposal events and state-stream change records.

use vstd::prelude::*;

verus! {

/// One vote carried inside a proposal event.
#[derive(Clone, Debug, PartialEq)]
pub struct VoteRecord {
    pub public_key: Vec<u8>,
    pub vote: String,
    pub voter_node_id: String,
}

/// One service entry of a circuit's roster.
#[derive(Clone, Debug, PartialEq)]
pub struct SplinterService {
    pub service_id: String,
    pub service_type: String,
    pub allowed_nodes: Vec<String>,
    pub arguments: Vec<(String, String)>,
}

/// One network participant listed in a proposal.
#[derive(Clone, Debug, PartialEq)]
pub struct SplinterNode {
    pub node_id: String,
    pub endpoint: String,
}

/// The circuit-creation payload embedded in a proposal.
#[derive(Clone, Debug, PartialEq)]
pub struct CreateCircuit {
    pub circuit_id: String,
    pub roster: Vec<SplinterService>,
    pub members: Vec<SplinterNode>,
    pub authorization_type: String,
    pub persistence: String,
    pub durability: String,
    pub routes: String,
    pub circuit_management_type: String,
    pub application_metadata: Vec<u8>,
}

/// A circuit proposal as carried by every admin-stream event.
#[derive(Clone, Debug, PartialEq)]
pub struct CircuitProposal {
    pub proposal_type: String,
    pub circuit_id: String,
    pub circuit_hash: String,
    pub circuit: CreateCircuit,
    pub votes: Vec<VoteRecord>,
    pub requester: Vec<u8>,
    pub requester_node_id: String,
}

/// The tagged union of admin-stream events; the event set is fixed by the
/// upstream protocol, so dispatch matches it exhaustively.
#[derive(Clone, Debug, PartialEq)]
pub enum AdminServiceEvent {
    ProposalSubmitted(CircuitProposal),
    ProposalVote(CircuitProposal, Vec<u8>),
    ProposalAccepted(CircuitProposal, Vec<u8>),
    ProposalRejected(CircuitProposal, Vec<u8>),
    CircuitReady(CircuitProposal),
}

/// One record of the circuit state-change feed.
#[derive(Clone, Debug, PartialEq)]
pub enum StateChangeEvent {
    SetValue { key: String, value: Vec<u8> },
    Delete { key: String },
}

} // verus!
