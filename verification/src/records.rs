//! The internal record shapes handed to the persistence layer, with
//! timestamps as seconds since the epoch.

use vstd::prelude::*;

verus! {

/// A new circuit proposal, created when a ProposalSubmitted event is observed.
#[derive(Clone, Debug, PartialEq)]
pub struct NewConsortiumProposal {
    pub proposal_type: String,
    pub circuit_id: String,
    pub circuit_hash: String,
    pub requester: String,
    pub requester_node_id: String,
    pub status: String,
    pub created_time: u64,
    pub updated_time: u64,
}

/// The persisted representation of a circuit, one per circuit id.
#[derive(Clone, Debug, PartialEq)]
pub struct Consortium {
    pub circuit_id: String,
    pub authorization_type: String,
    pub persistence: String,
    pub durability: String,
    pub routes: String,
    pub circuit_management_type: String,
    pub alias: String,
    pub status: String,
    pub created_time: u64,
    pub updated_time: u64,
}

/// One consortium member, keyed by circuit id and node id.
#[derive(Clone, Debug, PartialEq)]
pub struct NewConsortiumMember {
    pub circuit_id: String,
    pub node_id: String,
    pub endpoint: String,
    pub status: String,
    pub created_time: u64,
    pub updated_time: u64,
}

/// One key/value argument of a roster service entry.
#[derive(Clone, Debug, PartialEq)]
pub struct ServiceArgument {
    pub key: String,
    pub value: String,
}

/// One service of a circuit's roster, with its ordered allowed-node list.
#[derive(Clone, Debug, PartialEq)]
pub struct NewConsortiumService {
    pub circuit_id: String,
    pub service_id: String,
    pub service_type: String,
    pub allowed_nodes: Vec<String>,
    pub arguments: Vec<ServiceArgument>,
    pub status: String,
    pub created_time: u64,
    pub updated_time: u64,
}

/// One recorded vote on a proposal. The proposal id is a placeholder until
/// the persistence layer assigns real identifiers.
#[derive(Clone, Debug, PartialEq)]
pub struct NewProposalVoteRecord {
    pub proposal_id: i64,
    pub voter_public_key: String,
    pub voter_node_id: String,
    pub vote: String,
    pub created_time: u64,
}

} // verus!
