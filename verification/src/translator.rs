//! The proposal translator: pure mappings from wire-level proposal, circuit,
//! member and service shapes into the internal record shapes, plus the two
//! searches the dispatcher needs (the signer's vote, the local service).

use vstd::prelude::*;

use crate::application_metadata::{
    spec_metadata_alias, spec_metadata_error_text, spec_metadata_ok, ApplicationMetadata,
    ApplicationMetadataError,
};
use crate::messages::{CircuitProposal, CreateCircuit, SplinterNode, SplinterService, VoteRecord};
use crate::records::{
    Consortium, NewConsortiumMember, NewConsortiumProposal, NewConsortiumService, ServiceArgument,
};

verus! {

/// The proposal record a ProposalSubmitted event translates to.
pub open spec fn spec_proposal_record(
    p: CircuitProposal,
    timestamp: u64,
    requester_hex: Seq<char>,
    r: NewConsortiumProposal,
) -> bool {
    &&& r.proposal_type@ == p.proposal_type@
    &&& r.circuit_id@ == p.circuit_id@
    &&& r.circuit_hash@ == p.circuit_hash@
    &&& r.requester@ == requester_hex
    &&& r.requester_node_id@ == p.requester_node_id@
    &&& r.status@ == "Pending"@
    &&& r.created_time == timestamp
    &&& r.updated_time == timestamp
}

/// The consortium record a circuit payload translates to; the alias comes
/// from the embedded application metadata.
pub open spec fn spec_consortium_record(
    c: CreateCircuit,
    timestamp: u64,
    alias: Seq<char>,
    r: Consortium,
) -> bool {
    &&& r.alias@ == alias
    &&& r.circuit_id@ == c.circuit_id@
    &&& r.authorization_type@ == c.authorization_type@
    &&& r.persistence@ == c.persistence@
    &&& r.durability@ == c.durability@
    &&& r.routes@ == c.routes@
    &&& r.circuit_management_type@ == c.circuit_management_type@
    &&& r.status@ == "Pending"@
    &&& r.created_time == timestamp
    &&& r.updated_time == timestamp
}

/// The member record one splinter node translates to.
pub open spec fn spec_member_record(
    circuit_id: Seq<char>,
    n: SplinterNode,
    timestamp: u64,
    r: NewConsortiumMember,
) -> bool {
    &&& r.circuit_id@ == circuit_id
    &&& r.node_id@ == n.node_id@
    &&& r.endpoint@ == n.endpoint@
    &&& r.status@ == "Pending"@
    &&& r.created_time == timestamp
    &&& r.updated_time == timestamp
}

/// The member records of a node list, in order.
pub open spec fn spec_member_records(
    circuit_id: Seq<char>,
    nodes: Seq<SplinterNode>,
    timestamp: u64,
    rs: Seq<NewConsortiumMember>,
) -> bool {
    &&& rs.len() == nodes.len()
    &&& forall|i: int|
        0 <= i < nodes.len() ==> spec_member_record(circuit_id, nodes[i], timestamp, #[trigger] rs[i])
}

/// The service record one roster entry translates to, with the allowed-node
/// list order and the argument order kept.
pub open spec fn spec_service_record(
    circuit_id: Seq<char>,
    s: SplinterService,
    timestamp: u64,
    r: NewConsortiumService,
) -> bool {
    &&& r.circuit_id@ == circuit_id
    &&& r.service_id@ == s.service_id@
    &&& r.service_type@ == s.service_type@
    &&& r.allowed_nodes.deep_view() == s.allowed_nodes.deep_view()
    &&& r.arguments@.len() == s.arguments@.len()
    &&& forall|j: int|
        0 <= j < s.arguments@.len() ==> (#[trigger] r.arguments@[j]).key@ == s.arguments@[j].0@
            && r.arguments@[j].value@ == s.arguments@[j].1@
    &&& r.status@ == "Pending"@
    &&& r.created_time == timestamp
    &&& r.updated_time == timestamp
}

/// The service records of a roster, in order.
pub open spec fn spec_service_records(
    circuit_id: Seq<char>,
    services: Seq<SplinterService>,
    timestamp: u64,
    rs: Seq<NewConsortiumService>,
) -> bool {
    &&& rs.len() == services.len()
    &&& forall|i: int|
        0 <= i < services.len() ==> spec_service_record(
            circuit_id,
            services[i],
            timestamp,
            #[trigger] rs[i],
        )
}

/// The first vote of the list signed with the given key, if any.
pub open spec fn spec_find_vote(votes: Seq<VoteRecord>, signer: Seq<u8>) -> Option<VoteRecord>
    decreases votes.len(),
{
    if votes.len() == 0 {
        None
    } else if votes[0].public_key@ == signer {
        Some(votes[0])
    } else {
        spec_find_vote(votes.drop_first(), signer)
    }
}

/// Whether some entry of the list is the given node id.
pub open spec fn spec_contains_node(nodes: Seq<String>, node: Seq<char>) -> bool {
    exists|i: int| 0 <= i < nodes.len() && (#[trigger] nodes[i])@ == node
}

/// The first roster service that allows the given node, if any.
pub open spec fn spec_find_local_service(roster: Seq<SplinterService>, node: Seq<char>) -> Option<
    SplinterService,
>
    decreases roster.len(),
{
    if roster.len() == 0 {
        None
    } else if spec_contains_node(roster[0].allowed_nodes@, node) {
        Some(roster[0])
    } else {
        spec_find_local_service(roster.drop_first(), node)
    }
}

/// Copies a list of strings, keeping contents and order.
pub fn clone_strings(v: &Vec<String>) -> (r: Vec<String>)
    ensures
        r.deep_view() == v.deep_view(),
{
    let mut r: Vec<String> = Vec::new();
    let mut i: usize = 0;
    while i < v.len()
        invariant
            i <= v@.len(),
            r@.len() == i,
            forall|j: int| 0 <= j < i ==> (#[trigger] r@[j])@ == v@[j]@,
        decreases v@.len() - i,
    {
        r.push(v[i].clone());
        i = i + 1;
    }
    proof {
        assert(r.deep_view() =~= v.deep_view());
    }
    r
}

/// Translates a proposal event into a new proposal record, stamped Pending.
pub fn parse_proposal(
    proposal: &CircuitProposal,
    timestamp: u64,
    requester_public_key: String,
) -> (r: NewConsortiumProposal)
    ensures
        spec_proposal_record(*proposal, timestamp, requester_public_key@, r),
{
    NewConsortiumProposal {
        proposal_type: proposal.proposal_type.clone(),
        circuit_id: proposal.circuit_id.clone(),
        circuit_hash: proposal.circuit_hash.clone(),
        requester: requester_public_key,
        requester_node_id: proposal.requester_node_id.clone(),
        status: String::from_str("Pending"),
        created_time: timestamp,
        updated_time: timestamp,
    }
}

/// Translates a circuit payload into a consortium record with the given
/// alias.
pub fn parse_consortium_fields(circuit: &CreateCircuit, timestamp: u64, alias: &str) -> (r:
    Consortium)
    ensures
        spec_consortium_record(*circuit, timestamp, alias@, r),
{
    Consortium {
        circuit_id: circuit.circuit_id.clone(),
        authorization_type: circuit.authorization_type.clone(),
        persistence: circuit.persistence.clone(),
        durability: circuit.durability.clone(),
        routes: circuit.routes.clone(),
        circuit_management_type: circuit.circuit_management_type.clone(),
        alias: String::from_str(alias),
        status: String::from_str("Pending"),
        created_time: timestamp,
        updated_time: timestamp,
    }
}

/// Translates a circuit payload into a consortium record, taking the alias
/// from the embedded application metadata: success exactly when the
/// metadata is usable, the record's alias then being the metadata's, and
/// the first unreadable field named otherwise.
pub fn parse_consortium(circuit: &CreateCircuit, timestamp: u64) -> (r: Result<
    Consortium,
    ApplicationMetadataError,
>)
    ensures
        r is Ok <==> spec_metadata_ok(circuit.application_metadata@),
        r matches Ok(c) ==> spec_consortium_record(
            *circuit,
            timestamp,
            spec_metadata_alias(circuit.application_metadata@),
            c,
        ),
        r matches Err(e) ==> (e matches ApplicationMetadataError::UnableToParse(t) && t@
            == spec_metadata_error_text(circuit.application_metadata@)),
{
    let metadata = match ApplicationMetadata::from_bytes(circuit.application_metadata.as_slice()) {
        Ok(m) => m,
        Err(e) => {
            return Err(e);
        },
    };
    Ok(parse_consortium_fields(circuit, timestamp, metadata.alias().as_str()))
}

/// Translates a roster into service records, one per entry, in order.
pub fn parse_splinter_services(
    circuit_id: &str,
    splinter_services: &Vec<SplinterService>,
    timestamp: u64,
) -> (rs: Vec<NewConsortiumService>)
    ensures
        spec_service_records(circuit_id@, splinter_services@, timestamp, rs@),
{
    let mut rs: Vec<NewConsortiumService> = Vec::new();
    let mut i: usize = 0;
    while i < splinter_services.len()
        invariant
            i <= splinter_services@.len(),
            rs@.len() == i,
            forall|k: int|
                0 <= k < i ==> spec_service_record(
                    circuit_id@,
                    splinter_services@[k],
                    timestamp,
                    #[trigger] rs@[k],
                ),
        decreases splinter_services@.len() - i,
    {
        let service = &splinter_services[i];
        let mut arguments: Vec<ServiceArgument> = Vec::new();
        let mut j: usize = 0;
        while j < service.arguments.len()
            invariant
                j <= service.arguments@.len(),
                arguments@.len() == j,
                forall|k: int|
                    0 <= k < j ==> (#[trigger] arguments@[k]).key@ == service.arguments@[k].0@
                        && arguments@[k].value@ == service.arguments@[k].1@,
            decreases service.arguments@.len() - j,
        {
            arguments.push(
                ServiceArgument {
                    key: service.arguments[j].0.clone(),
                    value: service.arguments[j].1.clone(),
                },
            );
            j = j + 1;
        }
        rs.push(
            NewConsortiumService {
                circuit_id: String::from_str(circuit_id),
                service_id: service.service_id.clone(),
                service_type: service.service_type.clone(),
                allowed_nodes: clone_strings(&service.allowed_nodes),
                arguments,
                status: String::from_str("Pending"),
                created_time: timestamp,
                updated_time: timestamp,
            },
        );
        i = i + 1;
    }
    rs
}

/// Translates a member list into member records, one per node, in order.
pub fn parse_splinter_nodes(
    circuit_id: &str,
    splinter_nodes: &Vec<SplinterNode>,
    timestamp: u64,
) -> (rs: Vec<NewConsortiumMember>)
    ensures
        spec_member_records(circuit_id@, splinter_nodes@, timestamp, rs@),
{
    let mut rs: Vec<NewConsortiumMember> = Vec::new();
    let mut i: usize = 0;
    while i < splinter_nodes.len()
        invariant
            i <= splinter_nodes@.len(),
            rs@.len() == i,
            forall|k: int|
                0 <= k < i ==> spec_member_record(
                    circuit_id@,
                    splinter_nodes@[k],
                    timestamp,
                    #[trigger] rs@[k],
                ),
        decreases splinter_nodes@.len() - i,
    {
        let node = &splinter_nodes[i];
        rs.push(
            NewConsortiumMember {
                circuit_id: String::from_str(circuit_id),
                node_id: node.node_id.clone(),
                endpoint: node.endpoint.clone(),
                status: String::from_str("Pending"),
                created_time: timestamp,
                updated_time: timestamp,
            },
        );
        i = i + 1;
    }
    rs
}

/// Finds the first vote signed with the given key, as the dispatcher's
/// precondition check for vote events.
pub fn find_vote<'a>(votes: &'a Vec<VoteRecord>, signer: &Vec<u8>) -> (r: Option<&'a VoteRecord>)
    ensures
        match spec_find_vote(votes@, signer@) {
            None => r is None,
            Some(v) => r matches Some(x) && *x == v,
        },
{
    let mut i: usize = 0;
    proof {
        assert(votes@.skip(0) =~= votes@);
    }
    while i < votes.len()
        invariant
            i <= votes@.len(),
            spec_find_vote(votes@, signer@) == spec_find_vote(votes@.skip(i as int), signer@),
        decreases votes@.len() - i,
    {
        proof {
            assert(votes@.skip(i as int)[0] == votes@[i as int]);
            assert(votes@.skip(i as int).drop_first() =~= votes@.skip(i as int + 1));
        }
        if votes[i].public_key == *signer {
            proof {
                assert(votes@[i as int].public_key@ =~= signer@);
            }
            return Some(&votes[i]);
        }
        proof {
            assert(votes@[i as int].public_key@ != signer@) by {
                if votes@[i as int].public_key@ == signer@ {
                    assert(votes@[i as int].public_key@ =~= signer@);
                }
            }
        }
        i = i + 1;
    }
    proof {
        assert(votes@.skip(votes@.len() as int).len() == 0);
    }
    None
}

/// Whether the list holds the given node id.
pub fn contains_node(nodes: &Vec<String>, node: &String) -> (r: bool)
    ensures
        r == spec_contains_node(nodes@, node@),
{
    let mut i: usize = 0;
    while i < nodes.len()
        invariant
            i <= nodes@.len(),
            forall|j: int| 0 <= j < i ==> (#[trigger] nodes@[j])@ != node@,
        decreases nodes@.len() - i,
    {
        if nodes[i] == *node {
            return true;
        }
        i = i + 1;
    }
    false
}

/// Finds the first roster service that allows the given node, as the
/// dispatcher's membership check for circuit readiness.
pub fn find_local_service<'a>(roster: &'a Vec<SplinterService>, node: &String) -> (r: Option<
    &'a SplinterService,
>)
    ensures
        match spec_find_local_service(roster@, node@) {
            None => r is None,
            Some(s) => r matches Some(x) && *x == s,
        },
{
    let mut i: usize = 0;
    proof {
        assert(roster@.skip(0) =~= roster@);
    }
    while i < roster.len()
        invariant
            i <= roster@.len(),
            spec_find_local_service(roster@, node@) == spec_find_local_service(
                roster@.skip(i as int),
                node@,
            ),
        decreases roster@.len() - i,
    {
        proof {
            assert(roster@.skip(i as int)[0] == roster@[i as int]);
            assert(roster@.skip(i as int).drop_first() =~= roster@.skip(i as int + 1));
        }
        if contains_node(&roster[i].allowed_nodes, node) {
            return Some(&roster[i]);
        }
        i = i + 1;
    }
    proof {
        assert(roster@.skip(roster@.len() as int).len() == 0);
    }
    None
}

} // verus!
