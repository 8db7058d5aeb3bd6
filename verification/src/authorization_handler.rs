//! The application authorization handler: the persist-only twin of the
//! lifecycle dispatcher. It translates admin-stream events into records and
//! decides circuit readiness, but publishes nothing; the caller owns the
//! transports and the persistence store.

pub mod state_delta;

use vstd::prelude::*;

use crate::config::EventListenerConfig;
use crate::hex::{hex_of, hex_string};
use crate::messages::{AdminServiceEvent, CircuitProposal};
use crate::records::{
    Consortium, NewConsortiumMember, NewConsortiumProposal, NewConsortiumService,
    NewProposalVoteRecord,
};
use crate::application_metadata::{
    spec_metadata_alias, spec_metadata_error_text, spec_metadata_keys, spec_metadata_ok,
};
use crate::translator::{
    find_local_service, find_vote, parse_consortium, parse_proposal, parse_splinter_nodes,
    parse_splinter_services, spec_consortium_record, spec_find_local_service, spec_find_vote,
    spec_member_records, spec_proposal_record, spec_service_records,
};
use crate::event_handler::spec_subscribe_url;

verus! {

/// What went wrong while handling one admin-stream event.
#[derive(Clone, Debug, PartialEq)]
pub enum AppAuthHandlerError {
    /// The event cannot be used: a vote without the signer's entry, or
    /// metadata that does not parse.
    InvalidMessageError(String),
}

impl AppAuthHandlerError {
    /// The failure text, for logging by the caller.
    pub fn message(&self) -> (r: String)
        ensures
            self matches AppAuthHandlerError::InvalidMessageError(m) ==> r@
                == "The client received an invalid message: "@ + m@,
    {
        match self {
            AppAuthHandlerError::InvalidMessageError(m) => String::from_str(
                "The client received an invalid message: ",
            ).concat(m.as_str()),
        }
    }
}

/// The handler's decision for one admin-stream event: the records to
/// persist, or the subscription to open.
#[derive(Clone, Debug, PartialEq)]
pub enum AuthorizationOutcome {
    /// A proposal was submitted: persist the records.
    Submitted {
        proposal: NewConsortiumProposal,
        consortium: Consortium,
        services: Vec<NewConsortiumService>,
        members: Vec<NewConsortiumMember>,
    },
    /// A vote arrived with the signer's entry present: persist the record.
    Voted { vote: NewProposalVoteRecord },
    /// A circuit is ready and this node serves it: persist the proposal and
    /// open the circuit's state stream.
    Ready {
        proposal: NewConsortiumProposal,
        circuit_id: String,
        service_id: String,
        scabbard_admin_keys: Vec<String>,
        subscribe_url: String,
    },
    /// A circuit is ready but no roster service names this node: nothing to
    /// do, and not an error.
    NoLocalService,
}

/// What a correct Voted outcome holds when the signer's entry is present.
pub open spec fn spec_auth_vote_outcome(
    p: CircuitProposal,
    signer: Seq<u8>,
    vote_word: Seq<char>,
    now: u64,
    o: AuthorizationOutcome,
) -> bool {
    match spec_find_vote(p.votes@, signer) {
        None => false,
        Some(entry) => {
            &&& o matches AuthorizationOutcome::Voted { vote }
            &&& vote.proposal_id == 1234
            &&& vote.voter_public_key@ == hex_of(signer)
            &&& vote.voter_node_id@ == entry.voter_node_id@
            &&& vote.vote@ == vote_word
            &&& vote.created_time == now
        },
    }
}

/// The handler's whole contract, one case per event kind, each pinned
/// both ways; the two cases that read the embedded metadata succeed
/// exactly when the metadata is usable.
pub open spec fn spec_auth_dispatch_post(
    event: AdminServiceEvent,
    node: Seq<char>,
    config: EventListenerConfig,
    now: u64,
    r: Result<AuthorizationOutcome, AppAuthHandlerError>,
) -> bool {
    match event {
        AdminServiceEvent::ProposalSubmitted(p) => {
            &&& (spec_metadata_ok(p.circuit.application_metadata@) ==> (r matches Ok(o) && {
                &&& o matches AuthorizationOutcome::Submitted {
                    proposal,
                    consortium,
                    services,
                    members,
                }
                &&& spec_proposal_record(p, now, hex_of(p.requester@), proposal)
                &&& spec_consortium_record(
                    p.circuit,
                    now,
                    spec_metadata_alias(p.circuit.application_metadata@),
                    consortium,
                )
                &&& spec_service_records(p.circuit_id@, p.circuit.roster@, now, services@)
                &&& spec_member_records(p.circuit_id@, p.circuit.members@, now, members@)
            }))
            &&& (!spec_metadata_ok(p.circuit.application_metadata@) ==> (r matches Err(e)
                && e matches AppAuthHandlerError::InvalidMessageError(m) && m@
                == spec_metadata_error_text(p.circuit.application_metadata@)))
        },
        AdminServiceEvent::ProposalVote(p, signer) => match spec_find_vote(p.votes@, signer@) {
            Some(_) => (r matches Ok(o) && spec_auth_vote_outcome(p, signer@, "Accept"@, now, o)),
            None => (r matches Err(e) && e matches AppAuthHandlerError::InvalidMessageError(m)
                && m@ == "Missing vote from signer"@),
        },
        AdminServiceEvent::ProposalAccepted(p, signer) => match spec_find_vote(
            p.votes@,
            signer@,
        ) {
            Some(_) => (r matches Ok(o) && spec_auth_vote_outcome(p, signer@, "Accept"@, now, o)),
            None => (r matches Err(e) && e matches AppAuthHandlerError::InvalidMessageError(m)
                && m@ == "Missing vote from signer"@),
        },
        AdminServiceEvent::ProposalRejected(p, signer) => match spec_find_vote(
            p.votes@,
            signer@,
        ) {
            Some(_) => (r matches Ok(o) && spec_auth_vote_outcome(p, signer@, "Reject"@, now, o)),
            None => (r matches Err(e) && e matches AppAuthHandlerError::InvalidMessageError(m)
                && m@ == "Missing vote from signer"@),
        },
        AdminServiceEvent::CircuitReady(p) => match spec_find_local_service(
            p.circuit.roster@,
            node,
        ) {
            None => (r matches Ok(o) && o is NoLocalService),
            Some(service) => {
                &&& (spec_metadata_ok(p.circuit.application_metadata@) ==> (r matches Ok(o) && {
                    &&& o matches AuthorizationOutcome::Ready {
                        proposal,
                        circuit_id,
                        service_id,
                        scabbard_admin_keys,
                        subscribe_url,
                    }
                    &&& spec_proposal_record(p, now, hex_of(p.requester@), proposal)
                    &&& circuit_id@ == p.circuit_id@
                    &&& service_id@ == service.service_id@
                    &&& scabbard_admin_keys.deep_view() == spec_metadata_keys(
                        p.circuit.application_metadata@,
                    )
                    &&& subscribe_url@ == spec_subscribe_url(
                        config.splinterd_url@,
                        p.circuit_id@,
                        service.service_id@,
                    )
                }))
                &&& (!spec_metadata_ok(p.circuit.application_metadata@) ==> (r matches Err(e)
                    && e matches AppAuthHandlerError::InvalidMessageError(m) && m@
                    == "unable to parse application metadata: "@ + spec_metadata_error_text(
                    p.circuit.application_metadata@,
                )))
            },
        },
    }
}

/// Renders a byte string as lower-case hexadecimal, two digits per byte;
/// used for requester and voter public keys.
pub fn to_hex(bytes: &[u8]) -> (r: String)
    ensures
        r@ == hex_of(bytes@),
{
    hex_string(bytes)
}

/// Handles one decoded admin-stream event, in arrival order, and decides
/// what to persist. `now` is the wall-clock second the caller read when
/// the event arrived; it stamps the records.
pub fn process_admin_event(
    admin_event: AdminServiceEvent,
    node_id: &str,
    config: &EventListenerConfig,
    now: u64,
) -> (r: Result<AuthorizationOutcome, AppAuthHandlerError>)
    ensures
        spec_auth_dispatch_post(admin_event, node_id@, *config, now, r),
{
    match admin_event {
        AdminServiceEvent::ProposalSubmitted(p) => {
            let requester = to_hex(p.requester.as_slice());
            let proposal = parse_proposal(&p, now, requester);
            let consortium = match parse_consortium(&p.circuit, now) {
                Ok(c) => c,
                Err(e) => {
                    return Err(AppAuthHandlerError::InvalidMessageError(e.message()));
                },
            };
            let services = parse_splinter_services(p.circuit_id.as_str(), &p.circuit.roster, now);
            let members = parse_splinter_nodes(p.circuit_id.as_str(), &p.circuit.members, now);
            Ok(AuthorizationOutcome::Submitted { proposal, consortium, services, members })
        },
        AdminServiceEvent::ProposalVote(p, signer) => auth_vote_outcome(&p, &signer, "Accept", now),
        AdminServiceEvent::ProposalAccepted(p, signer) => auth_vote_outcome(
            &p,
            &signer,
            "Accept",
            now,
        ),
        AdminServiceEvent::ProposalRejected(p, signer) => auth_vote_outcome(
            &p,
            &signer,
            "Reject",
            now,
        ),
        AdminServiceEvent::CircuitReady(p) => {
            let node_string = String::from_str(node_id);
            let service_id = match find_local_service(&p.circuit.roster, &node_string) {
                Some(service) => service.service_id.clone(),
                None => {
                    return Ok(AuthorizationOutcome::NoLocalService);
                },
            };
            let metadata = match crate::application_metadata::ApplicationMetadata::from_bytes(
                p.circuit.application_metadata.as_slice(),
            ) {
                Ok(m) => m,
                Err(e) => {
                    return Err(
                        AppAuthHandlerError::InvalidMessageError(
                            String::from_str("unable to parse application metadata: ").concat(
                                e.message().as_str(),
                            ),
                        ),
                    );
                },
            };
            let requester = to_hex(p.requester.as_slice());
            let proposal = parse_proposal(&p, now, requester);
            let subscribe_url = crate::event_handler::subscribe_url(
                config.splinterd_url(),
                p.circuit_id.as_str(),
                service_id.as_str(),
            );
            Ok(
                AuthorizationOutcome::Ready {
                    proposal,
                    circuit_id: p.circuit_id.clone(),
                    service_id,
                    scabbard_admin_keys: metadata.scabbard_admin_keys,
                    subscribe_url,
                },
            )
        },
    }
}

/// Builds the vote record for a vote-family event; the signer's missing
/// entry is fatal for this event only.
fn auth_vote_outcome(p: &CircuitProposal, signer: &Vec<u8>, vote_word: &str, now: u64) -> (r:
    Result<AuthorizationOutcome, AppAuthHandlerError>)
    ensures
        match spec_find_vote(p.votes@, signer@) {
            Some(_) => (r matches Ok(o) && spec_auth_vote_outcome(*p, signer@, vote_word@, now, o)),
            None => (r matches Err(e) && e matches AppAuthHandlerError::InvalidMessageError(m)
                && m@ == "Missing vote from signer"@),
        },
{
    let entry = match find_vote(&p.votes, signer) {
        Some(v) => v,
        None => {
            return Err(
                AppAuthHandlerError::InvalidMessageError(
                    String::from_str("Missing vote from signer"),
                ),
            );
        },
    };
    let vote = NewProposalVoteRecord {
        proposal_id: 1234,
        voter_public_key: to_hex(signer.as_slice()),
        voter_node_id: entry.voter_node_id.clone(),
        vote: String::from_str(vote_word),
        created_time: now,
    };
    Ok(AuthorizationOutcome::Voted { vote })
}

} // verus!
