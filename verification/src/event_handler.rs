//! The lifecycle dispatcher: one admin-stream event in, one decision out.
//! Each event is translated, its precondition checked, and the outbound
//! envelope plus any follow-up work (record persistence, contract
//! bootstrap, state-stream subscription) handed back to the caller, which
//! owns the transports.

pub mod error;
pub mod state_delta;

use vstd::prelude::*;

pub use error::EventHandlerError;

use crate::config::{DeploymentConfig, EventListenerConfig};
use crate::hex::{hex_of, hex_string};
use crate::messages::{AdminServiceEvent, CircuitProposal};
use crate::pubsub::{
    encode_payload, lemma_payload_roundtrip, spec_decode_payload, spec_event_payload, Envelope,
    EventPayload, MessageType,
};
use vstd::utf8::encode_utf8;
use crate::records::{
    Consortium, NewConsortiumMember, NewConsortiumProposal, NewConsortiumService,
    NewProposalVoteRecord,
};
use crate::application_metadata::{
    spec_metadata_alias, spec_metadata_error_text, spec_metadata_keys, spec_metadata_ok,
};
use crate::translator::{
    find_local_service, find_vote, parse_consortium, parse_proposal, parse_splinter_nodes,
    parse_splinter_services, spec_consortium_record, spec_find_local_service, spec_find_vote,
    spec_member_records, spec_proposal_record, spec_service_records,
};

verus! {

/// Everything the contract bootstrapper needs to deploy the contract and
/// open the circuit's state stream: captured by value, so no state is
/// shared across the two streams.
#[derive(Clone, Debug, PartialEq)]
pub struct BootstrapRequest {
    pub circuit_id: String,
    pub service_id: String,
    pub requester: String,
    pub requester_node_id: String,
    pub scabbard_admin_keys: Vec<String>,
    pub private_key: String,
    pub splinterd_url: String,
    pub subscribe_url: String,
    pub deployment_config: DeploymentConfig,
}

/// The dispatcher's decision for one admin-stream event.
#[derive(Clone, Debug, PartialEq)]
pub enum DispatchOutcome {
    /// A proposal was submitted: publish the envelope, persist the records.
    Submitted {
        envelope: Envelope,
        proposal: NewConsortiumProposal,
        consortium: Consortium,
        services: Vec<NewConsortiumService>,
        members: Vec<NewConsortiumMember>,
    },
    /// A vote arrived with the signer's entry present: publish the envelope,
    /// persist the vote record.
    Voted { envelope: Envelope, vote: NewProposalVoteRecord },
    /// A circuit is ready and this node serves it: publish the envelope,
    /// then bootstrap the contract and open the state stream.
    Ready { envelope: Envelope, bootstrap: BootstrapRequest },
    /// A circuit is ready but no roster service names this node: nothing to
    /// do, and not an error.
    NoLocalService,
}

/// The payload framed for proposal-level envelopes: the requester key in
/// hexadecimal, the requester's node id, and the circuit id.
pub open spec fn spec_proposal_payload(p: CircuitProposal) -> Seq<u8> {
    spec_event_payload(hex_of(p.requester@), p.requester_node_id@, p.circuit_id@, Seq::empty())
}

/// The subscription endpoint of a circuit's state-change feed.
pub open spec fn spec_subscribe_url(
    base: Seq<char>,
    circuit_id: Seq<char>,
    service_id: Seq<char>,
) -> Seq<char> {
    base + "/scabbard/"@ + circuit_id + "/"@ + service_id + "/ws/subscribe"@
}

/// What a correct Submitted outcome holds for a submitted proposal.
pub open spec fn spec_submit_outcome(p: CircuitProposal, now: u64, o: DispatchOutcome) -> bool {
    &&& o matches DispatchOutcome::Submitted { envelope, proposal, consortium, services, members }
    &&& envelope.message_type == MessageType::ProposalSubmit
    &&& envelope.payload@ == spec_proposal_payload(p)
    &&& spec_proposal_record(p, now, hex_of(p.requester@), proposal)
    &&& spec_consortium_record(
        p.circuit,
        now,
        spec_metadata_alias(p.circuit.application_metadata@),
        consortium,
    )
    &&& spec_service_records(p.circuit_id@, p.circuit.roster@, now, services@)
    &&& spec_member_records(p.circuit_id@, p.circuit.members@, now, members@)
}

/// What a correct Voted outcome holds for a vote event whose signer has an
/// entry in the vote list.
pub open spec fn spec_vote_outcome(
    p: CircuitProposal,
    signer: Seq<u8>,
    message_type: MessageType,
    vote_word: Seq<char>,
    now: u64,
    o: DispatchOutcome,
) -> bool {
    match spec_find_vote(p.votes@, signer) {
        None => false,
        Some(entry) => {
            &&& o matches DispatchOutcome::Voted { envelope, vote }
            &&& envelope.message_type == message_type
            &&& envelope.payload@ == spec_event_payload(
                hex_of(signer),
                entry.voter_node_id@,
                p.circuit_id@,
                Seq::empty(),
            )
            &&& vote.proposal_id == 1234
            &&& vote.voter_public_key@ == hex_of(signer)
            &&& vote.voter_node_id@ == entry.voter_node_id@
            &&& vote.vote@ == vote_word
            &&& vote.created_time == now
        },
    }
}

/// What a correct Ready outcome holds for a circuit-ready event whose
/// roster names this node; the admin keys are the parsed metadata's.
pub open spec fn spec_ready_outcome(
    p: CircuitProposal,
    node: Seq<char>,
    private_key: Seq<char>,
    config: EventListenerConfig,
    o: DispatchOutcome,
) -> bool {
    match spec_find_local_service(p.circuit.roster@, node) {
        None => false,
        Some(service) => {
            &&& o matches DispatchOutcome::Ready { envelope, bootstrap }
            &&& envelope.message_type == MessageType::ProposalReady
            &&& envelope.payload@ == spec_proposal_payload(p)
            &&& bootstrap.circuit_id@ == p.circuit_id@
            &&& bootstrap.service_id@ == service.service_id@
            &&& bootstrap.requester@ == hex_of(p.requester@)
            &&& bootstrap.requester_node_id@ == p.requester_node_id@
            &&& bootstrap.scabbard_admin_keys.deep_view() == spec_metadata_keys(
                p.circuit.application_metadata@,
            )
            &&& bootstrap.private_key@ == private_key
            &&& bootstrap.splinterd_url@ == config.splinterd_url@
            &&& bootstrap.subscribe_url@ == spec_subscribe_url(
                config.splinterd_url@,
                p.circuit_id@,
                service.service_id@,
            )
            &&& bootstrap.deployment_config.tp_name@ == config.deployment_config.tp_name@
            &&& bootstrap.deployment_config.tp_version@ == config.deployment_config.tp_version@
            &&& bootstrap.deployment_config.tp_prefix@ == config.deployment_config.tp_prefix@
            &&& bootstrap.deployment_config.tp_path@ == config.deployment_config.tp_path@
            &&& bootstrap.deployment_config.kafka_url@ == config.deployment_config.kafka_url@
            &&& bootstrap.deployment_config.kafka_topic@ == config.deployment_config.kafka_topic@
        },
    }
}

/// The dispatcher's whole contract, one case per event kind, each pinned
/// both ways. Vote events are decided by the vote list alone; the two
/// cases that read the embedded metadata succeed exactly when the
/// metadata is usable, and name the unreadable field otherwise.
pub open spec fn spec_dispatch_post(
    event: AdminServiceEvent,
    node: Seq<char>,
    private_key: Seq<char>,
    config: EventListenerConfig,
    now: u64,
    r: Result<DispatchOutcome, EventHandlerError>,
) -> bool {
    match event {
        AdminServiceEvent::ProposalSubmitted(p) => {
            &&& (spec_metadata_ok(p.circuit.application_metadata@) ==> (r matches Ok(o)
                && spec_submit_outcome(p, now, o)))
            &&& (!spec_metadata_ok(p.circuit.application_metadata@) ==> (r matches Err(e)
                && e matches EventHandlerError::InvalidMessageError(m) && m@
                == spec_metadata_error_text(p.circuit.application_metadata@)))
        },
        AdminServiceEvent::ProposalVote(p, signer) => match spec_find_vote(p.votes@, signer@) {
            Some(_) => (r matches Ok(o) && spec_vote_outcome(
                p,
                signer@,
                MessageType::ProposalVote,
                "Accept"@,
                now,
                o,
            )),
            None => (r matches Err(e) && e matches EventHandlerError::InvalidMessageError(m)
                && m@ == "Missing vote from signer"@),
        },
        AdminServiceEvent::ProposalAccepted(p, signer) => match spec_find_vote(
            p.votes@,
            signer@,
        ) {
            Some(_) => (r matches Ok(o) && spec_vote_outcome(
                p,
                signer@,
                MessageType::ProposalAccept,
                "Accept"@,
                now,
                o,
            )),
            None => (r matches Err(e) && e matches EventHandlerError::InvalidMessageError(m)
                && m@ == "Missing vote from signer"@),
        },
        AdminServiceEvent::ProposalRejected(p, signer) => match spec_find_vote(
            p.votes@,
            signer@,
        ) {
            Some(_) => (r matches Ok(o) && spec_vote_outcome(
                p,
                signer@,
                MessageType::ProposalReject,
                "Reject"@,
                now,
                o,
            )),
            None => (r matches Err(e) && e matches EventHandlerError::InvalidMessageError(m)
                && m@ == "Missing vote from signer"@),
        },
        AdminServiceEvent::CircuitReady(p) => match spec_find_local_service(
            p.circuit.roster@,
            node,
        ) {
            None => (r matches Ok(o) && o is NoLocalService),
            Some(_) => {
                &&& (spec_metadata_ok(p.circuit.application_metadata@) ==> (r matches Ok(o)
                    && spec_ready_outcome(p, node, private_key, config, o)))
                &&& (!spec_metadata_ok(p.circuit.application_metadata@) ==> (r matches Err(e)
                    && e matches EventHandlerError::InvalidMessageError(m) && m@
                    == "unable to parse application metadata: "@ + spec_metadata_error_text(
                    p.circuit.application_metadata@,
                )))
            },
        },
    }
}

/// Renders a byte string as lower-case hexadecimal, two digits per byte;
/// used for requester and voter public keys.
pub fn to_hex(bytes: &[u8]) -> (r: String)
    ensures
        r@ == hex_of(bytes@),
{
    hex_string(bytes)
}

/// The admin-stream registration endpoint under a daemon's base URL.
pub fn admin_register_url(base: &str) -> (r: String)
    ensures
        r@ == base@ + "/ws/admin/register/consortium"@,
{
    String::from_str(base).concat("/ws/admin/register/consortium")
}

/// The subscription endpoint of a circuit's state-change feed.
pub fn subscribe_url(base: &str, circuit_id: &str, service_id: &str) -> (r: String)
    ensures
        r@ == spec_subscribe_url(base@, circuit_id@, service_id@),
{
    let mut url = String::from_str(base);
    url.append("/scabbard/");
    url.append(circuit_id);
    url.append("/");
    url.append(service_id);
    url.append("/ws/subscribe");
    url
}

/// Frames one proposal-level envelope.
fn build_envelope(
    message_type: MessageType,
    requester: String,
    requester_node_id: String,
    circuit_id: String,
    data: Vec<u8>,
) -> (e: Envelope)
    ensures
        e.message_type == message_type,
        e.payload@ == spec_event_payload(requester@, requester_node_id@, circuit_id@, data@),
{
    let payload = encode_payload(
        &EventPayload { requester, requester_node_id, circuit_id, data },
    );
    Envelope { message_type, payload }
}

/// Handles one decoded admin-stream event, in arrival order, and decides
/// the side effects. `now` is the wall-clock second the caller read when
/// the event arrived; it stamps the records.
pub fn process_admin_event(
    admin_event: AdminServiceEvent,
    node_id: &str,
    private_key: &str,
    config: &EventListenerConfig,
    now: u64,
) -> (r: Result<DispatchOutcome, EventHandlerError>)
    ensures
        spec_dispatch_post(admin_event, node_id@, private_key@, *config, now, r),
{
    match admin_event {
        AdminServiceEvent::ProposalSubmitted(p) => {
            let requester = to_hex(p.requester.as_slice());
            let proposal = parse_proposal(&p, now, requester.clone());
            let consortium = match parse_consortium(&p.circuit, now) {
                Ok(c) => c,
                Err(e) => {
                    return Err(EventHandlerError::InvalidMessageError(e.message()));
                },
            };
            let services = parse_splinter_services(p.circuit_id.as_str(), &p.circuit.roster, now);
            let members = parse_splinter_nodes(p.circuit_id.as_str(), &p.circuit.members, now);
            let envelope = build_envelope(
                MessageType::ProposalSubmit,
                requester,
                proposal.requester_node_id.clone(),
                proposal.circuit_id.clone(),
                Vec::new(),
            );
            Ok(DispatchOutcome::Submitted { envelope, proposal, consortium, services, members })
        },
        AdminServiceEvent::ProposalVote(p, signer) => vote_outcome(
            &p,
            &signer,
            MessageType::ProposalVote,
            "Accept",
            now,
        ),
        AdminServiceEvent::ProposalAccepted(p, signer) => vote_outcome(
            &p,
            &signer,
            MessageType::ProposalAccept,
            "Accept",
            now,
        ),
        AdminServiceEvent::ProposalRejected(p, signer) => vote_outcome(
            &p,
            &signer,
            MessageType::ProposalReject,
            "Reject",
            now,
        ),
        AdminServiceEvent::CircuitReady(p) => {
            let node_string = String::from_str(node_id);
            let service_id = match find_local_service(&p.circuit.roster, &node_string) {
                Some(service) => service.service_id.clone(),
                None => {
                    return Ok(DispatchOutcome::NoLocalService);
                },
            };
            let metadata = match crate::application_metadata::ApplicationMetadata::from_bytes(
                p.circuit.application_metadata.as_slice(),
            ) {
                Ok(m) => m,
                Err(e) => {
                    return Err(
                        EventHandlerError::InvalidMessageError(
                            String::from_str("unable to parse application metadata: ").concat(
                                e.message().as_str(),
                            ),
                        ),
                    );
                },
            };
            Ok(build_ready_outcome(&p, service_id, metadata, private_key, config, now))
        },
    }
}

/// What `build_ready_outcome` returns for each value of the parsed
/// metadata: the Ready outcome, its envelope, and a bootstrap request that
/// carries exactly the metadata's admin keys.
pub open spec fn spec_built_ready(
    p: CircuitProposal,
    service_id: String,
    metadata: crate::application_metadata::ApplicationMetadata,
    private_key: Seq<char>,
    config: EventListenerConfig,
    o: DispatchOutcome,
) -> bool {
    &&& o matches DispatchOutcome::Ready { envelope, bootstrap }
    &&& envelope.message_type == MessageType::ProposalReady
    &&& envelope.payload@ == spec_proposal_payload(p)
    &&& bootstrap.circuit_id@ == p.circuit_id@
    &&& bootstrap.service_id == service_id
    &&& bootstrap.requester@ == hex_of(p.requester@)
    &&& bootstrap.requester_node_id@ == p.requester_node_id@
    &&& bootstrap.scabbard_admin_keys == metadata.scabbard_admin_keys
    &&& bootstrap.private_key@ == private_key
    &&& bootstrap.splinterd_url@ == config.splinterd_url@
    &&& bootstrap.subscribe_url@ == spec_subscribe_url(
        config.splinterd_url@,
        p.circuit_id@,
        service_id@,
    )
    &&& bootstrap.deployment_config.tp_name@ == config.deployment_config.tp_name@
    &&& bootstrap.deployment_config.tp_version@ == config.deployment_config.tp_version@
    &&& bootstrap.deployment_config.tp_prefix@ == config.deployment_config.tp_prefix@
    &&& bootstrap.deployment_config.tp_path@ == config.deployment_config.tp_path@
    &&& bootstrap.deployment_config.kafka_url@ == config.deployment_config.kafka_url@
    &&& bootstrap.deployment_config.kafka_topic@ == config.deployment_config.kafka_topic@
}

/// Builds the Ready outcome once readiness is established: the local
/// service is resolved and the metadata parsed. Total in the metadata, so
/// what the dispatcher does with every parse result is pinned here.
pub fn build_ready_outcome(
    p: &CircuitProposal,
    service_id: String,
    metadata: crate::application_metadata::ApplicationMetadata,
    private_key: &str,
    config: &EventListenerConfig,
    now: u64,
) -> (o: DispatchOutcome)
    ensures
        spec_built_ready(*p, service_id, metadata, private_key@, *config, o),
{
    let requester = to_hex(p.requester.as_slice());
    let proposal = parse_proposal(p, now, requester.clone());
    let envelope = build_envelope(
        MessageType::ProposalReady,
        requester.clone(),
        proposal.requester_node_id.clone(),
        proposal.circuit_id.clone(),
        Vec::new(),
    );
    let deployment = config.deployment_config();
    let bootstrap = BootstrapRequest {
        circuit_id: p.circuit_id.clone(),
        service_id: service_id.clone(),
        requester,
        requester_node_id: proposal.requester_node_id.clone(),
        scabbard_admin_keys: metadata.scabbard_admin_keys,
        private_key: String::from_str(private_key),
        splinterd_url: String::from_str(config.splinterd_url()),
        subscribe_url: subscribe_url(
            config.splinterd_url(),
            p.circuit_id.as_str(),
            service_id.as_str(),
        ),
        deployment_config: DeploymentConfig::new(
            String::from_str(deployment.tp_name()),
            String::from_str(deployment.tp_version()),
            String::from_str(deployment.tp_prefix()),
            String::from_str(deployment.tp_path()),
            String::from_str(deployment.kafka_url()),
            String::from_str(deployment.kafka_topic()),
        ),
    };
    DispatchOutcome::Ready { envelope, bootstrap }
}

/// Decides what follows the deployment submission: only a successful
/// submission opens the circuit's state stream — no deployment, no state
/// to observe. A failure is reported by the caller and the deployment is
/// not retried.
pub fn deployment_followup(bootstrap: &BootstrapRequest, submit_ok: bool) -> (r: Option<String>)
    ensures
        submit_ok ==> (r matches Some(u) && u@ == bootstrap.subscribe_url@),
        !submit_ok ==> r is None,
{
    if submit_ok {
        Some(bootstrap.subscribe_url.clone())
    } else {
        None
    }
}

/// Whether a dispatch result opens a circuit state stream.
pub open spec fn spec_is_ready_result(r: Result<DispatchOutcome, EventHandlerError>) -> bool {
    r matches Ok(o) && o is Ready
}

/// Whether an event is a successful CircuitReady: one for a circuit this
/// node serves, whose embedded metadata is usable. A property of the
/// event alone.
pub open spec fn spec_is_successful_ready(event: AdminServiceEvent, node: Seq<char>) -> bool {
    &&& event matches AdminServiceEvent::CircuitReady(p)
    &&& spec_find_local_service(p.circuit.roster@, node) is Some
    &&& spec_metadata_ok(p.circuit.application_metadata@)
}

/// How many results of a run open a circuit state stream.
pub open spec fn spec_count_ready_results(rs: Seq<Result<DispatchOutcome, EventHandlerError>>) -> nat
    decreases rs.len(),
{
    if rs.len() == 0 {
        0
    } else {
        (if spec_is_ready_result(rs[0]) {
            1nat
        } else {
            0nat
        }) + spec_count_ready_results(rs.drop_first())
    }
}

/// How many events of a run are successful CircuitReady events.
pub open spec fn spec_count_successful_ready(
    events: Seq<AdminServiceEvent>,
    node: Seq<char>,
) -> nat
    decreases events.len(),
{
    if events.len() == 0 {
        0
    } else {
        (if spec_is_successful_ready(events[0], node) {
            1nat
        } else {
            0nat
        }) + spec_count_successful_ready(events.drop_first(), node)
    }
}

/// One event opens a stream exactly when it is a successful CircuitReady:
/// no other event kind can produce a Ready outcome, and a CircuitReady
/// that this node serves and whose metadata is usable produces nothing
/// else.
pub proof fn lemma_ready_iff_successful(
    event: AdminServiceEvent,
    node: Seq<char>,
    private_key: Seq<char>,
    config: EventListenerConfig,
    now: u64,
    r: Result<DispatchOutcome, EventHandlerError>,
)
    requires
        spec_dispatch_post(event, node, private_key, config, now, r),
    ensures
        spec_is_ready_result(r) == spec_is_successful_ready(event, node),
{
}

/// Stream gating over a whole run: for any sequence of admin-stream events
/// and their dispatch results, the number of state streams opened equals
/// the number of successful CircuitReady events, and a stream is only ever
/// opened by the event at the same position — a successful CircuitReady
/// always precedes it, and nothing else opens one.
pub proof fn lemma_stream_gating(
    events: Seq<AdminServiceEvent>,
    node: Seq<char>,
    private_key: Seq<char>,
    config: EventListenerConfig,
    nows: Seq<u64>,
    rs: Seq<Result<DispatchOutcome, EventHandlerError>>,
)
    requires
        rs.len() == events.len(),
        nows.len() == events.len(),
        forall|i: int|
            0 <= i < events.len() ==> spec_dispatch_post(
                events[i],
                node,
                private_key,
                config,
                nows[i],
                #[trigger] rs[i],
            ),
    ensures
        spec_count_ready_results(rs) == spec_count_successful_ready(events, node),
        forall|i: int|
            0 <= i < events.len() ==> spec_is_ready_result(#[trigger] rs[i])
                == spec_is_successful_ready(events[i], node),
    decreases events.len(),
{
    assert forall|i: int| 0 <= i < events.len() implies spec_is_ready_result(#[trigger] rs[i])
        == spec_is_successful_ready(events[i], node) by {
        lemma_ready_iff_successful(events[i], node, private_key, config, nows[i], rs[i]);
    }
    if events.len() > 0 {
        lemma_stream_gating(
            events.drop_first(),
            node,
            private_key,
            config,
            nows.drop_first(),
            rs.drop_first(),
        );
    }
}

/// Each submitted proposal's envelope carries, decodably, the requester key
/// in hexadecimal, the requester's node id and the circuit id: exactly one
/// submit envelope per ProposalSubmitted event, with the requester equal to
/// the hex encoding of the event's raw requester bytes.
pub proof fn lemma_submit_envelope_contents(p: CircuitProposal, now: u64, o: DispatchOutcome)
    requires
        spec_submit_outcome(p, now, o),
        encode_utf8(hex_of(p.requester@)).len() <= u64::MAX,
        encode_utf8(p.requester_node_id@).len() <= u64::MAX,
        encode_utf8(p.circuit_id@).len() <= u64::MAX,
    ensures
        o matches DispatchOutcome::Submitted { envelope, .. } && envelope.message_type
            == MessageType::ProposalSubmit && (spec_decode_payload(envelope.payload@) matches Some(
            d,
        ) && d.requester == encode_utf8(hex_of(p.requester@)) && d.requester_node_id == encode_utf8(
            p.requester_node_id@,
        ) && d.circuit_id == encode_utf8(p.circuit_id@) && d.data == Seq::<u8>::empty()),
{
    lemma_payload_roundtrip(
        hex_of(p.requester@),
        p.requester_node_id@,
        p.circuit_id@,
        Seq::empty(),
    );
}

/// Each ProposalSubmitted event with usable metadata yields exactly one
/// submit envelope, whose decoded requester equals the hex encoding of
/// the event's raw requester bytes, alongside the node id and circuit id;
/// the length bounds are machine limits on the encoded fields.
pub proof fn lemma_submit_emission_owed(
    p: CircuitProposal,
    node: Seq<char>,
    private_key: Seq<char>,
    config: EventListenerConfig,
    now: u64,
    r: Result<DispatchOutcome, EventHandlerError>,
)
    requires
        spec_dispatch_post(
            AdminServiceEvent::ProposalSubmitted(p),
            node,
            private_key,
            config,
            now,
            r,
        ),
        spec_metadata_ok(p.circuit.application_metadata@),
        encode_utf8(hex_of(p.requester@)).len() <= u64::MAX,
        encode_utf8(p.requester_node_id@).len() <= u64::MAX,
        encode_utf8(p.circuit_id@).len() <= u64::MAX,
    ensures
        (r matches Ok(o) && spec_submit_outcome(p, now, o) && (o matches DispatchOutcome::Submitted {
            envelope,
            ..
        } && (spec_decode_payload(envelope.payload@) matches Some(d) && d.requester == encode_utf8(
            hex_of(p.requester@),
        ) && d.requester_node_id == encode_utf8(p.requester_node_id@) && d.circuit_id
            == encode_utf8(p.circuit_id@) && d.data == Seq::<u8>::empty()))),
{
    lemma_submit_envelope_contents(p, now, r->Ok_0);
}

/// Builds the vote record and envelope for a vote-family event; the
/// signer's missing entry is fatal for this event only.
fn vote_outcome(
    p: &CircuitProposal,
    signer: &Vec<u8>,
    message_type: MessageType,
    vote_word: &str,
    now: u64,
) -> (r: Result<DispatchOutcome, EventHandlerError>)
    ensures
        match spec_find_vote(p.votes@, signer@) {
            Some(_) => (r matches Ok(o) && spec_vote_outcome(
                *p,
                signer@,
                message_type,
                vote_word@,
                now,
                o,
            )),
            None => (r matches Err(e) && e matches EventHandlerError::InvalidMessageError(m)
                && m@ == "Missing vote from signer"@),
        },
{
    let entry = match find_vote(&p.votes, signer) {
        Some(v) => v,
        None => {
            return Err(
                EventHandlerError::InvalidMessageError(
                    String::from_str("Missing vote from signer"),
                ),
            );
        },
    };
    let voter_public_key = to_hex(signer.as_slice());
    let voter_node_id = entry.voter_node_id.clone();
    let vote = NewProposalVoteRecord {
        proposal_id: 1234,
        voter_public_key: voter_public_key.clone(),
        voter_node_id: voter_node_id.clone(),
        vote: String::from_str(vote_word),
        created_time: now,
    };
    let envelope = build_envelope(
        message_type,
        voter_public_key,
        voter_node_id,
        p.circuit_id.clone(),
        Vec::new(),
    );
    Ok(DispatchOutcome::Voted { envelope, vote })
}

} // verus!
