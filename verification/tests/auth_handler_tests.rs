use event_listener::authorization_handler::state_delta::SabreProcessor;
use event_listener::authorization_handler::{
    process_admin_event, AppAuthHandlerError, AuthorizationOutcome,
};
use event_listener::config::{DeploymentConfig, EventListenerConfig};
use event_listener::messages::{
    AdminServiceEvent, CircuitProposal, CreateCircuit, SplinterNode, SplinterService, VoteRecord,
};
use event_listener::state_change::Classification;
use event_listener::messages::StateChangeEvent;

fn test_config() -> EventListenerConfig {
    EventListenerConfig::new(
        "http://splinterd:8085".to_string(),
        DeploymentConfig::new(
            "sawtooth_message".to_string(),
            "1.0".to_string(),
            "8c40ac".to_string(),
            "/var/contracts/message.wasm".to_string(),
            "kafka:9092".to_string(),
            "consortium-events".to_string(),
        ),
    )
}

fn proposal(circuit_id: &str) -> CircuitProposal {
    CircuitProposal {
        proposal_type: "Create".to_string(),
        circuit_id: circuit_id.to_string(),
        circuit_hash: "deadbeef".to_string(),
        circuit: CreateCircuit {
            circuit_id: circuit_id.to_string(),
            roster: vec![SplinterService {
                service_id: "svc-a".to_string(),
                service_type: "scabbard".to_string(),
                allowed_nodes: vec!["n1".to_string()],
                arguments: vec![],
            }],
            members: vec![SplinterNode {
                node_id: "n1".to_string(),
                endpoint: "tcp://n1:8044".to_string(),
            }],
            authorization_type: "Trust".to_string(),
            persistence: "Any".to_string(),
            durability: "NoDurability".to_string(),
            routes: "Any".to_string(),
            circuit_management_type: "consortium".to_string(),
            application_metadata: br#"{"alias":"a","scabbard_admin_keys":["k1"]}"#.to_vec(),
        },
        votes: vec![VoteRecord {
            public_key: vec![0x11],
            vote: "Accept".to_string(),
            voter_node_id: "n2".to_string(),
        }],
        requester: vec![0xAB, 0xCD],
        requester_node_id: "n1".to_string(),
    }
}

#[test]
fn submitted_proposal_translates_records() {
    let event = AdminServiceEvent::ProposalSubmitted(proposal("c1"));
    match process_admin_event(event, "n1", &test_config(), 3).unwrap() {
        AuthorizationOutcome::Submitted { proposal, consortium, services, members } => {
            assert_eq!(proposal.requester, "abcd");
            assert_eq!(proposal.requester_node_id, "n1");
            assert_eq!(consortium.alias, "a");
            assert_eq!(services.len(), 1);
            assert_eq!(members.len(), 1);
        }
        other => panic!("expected Submitted, got {:?}", other),
    }
}

#[test]
fn missing_signer_vote_is_invalid_message() {
    let event = AdminServiceEvent::ProposalVote(proposal("c1"), vec![0xEE]);
    match process_admin_event(event, "n1", &test_config(), 0).unwrap_err() {
        AppAuthHandlerError::InvalidMessageError(m) => {
            assert_eq!(m, "Missing vote from signer");
        }
    }
}

#[test]
fn rejected_vote_is_recorded_as_reject() {
    let event = AdminServiceEvent::ProposalRejected(proposal("c1"), vec![0x11]);
    match process_admin_event(event, "n1", &test_config(), 4).unwrap() {
        AuthorizationOutcome::Voted { vote } => {
            assert_eq!(vote.vote, "Reject");
            assert_eq!(vote.voter_public_key, "11");
            assert_eq!(vote.voter_node_id, "n2");
        }
        other => panic!("expected Voted, got {:?}", other),
    }
}

#[test]
fn circuit_ready_resolves_the_local_service() {
    let event = AdminServiceEvent::CircuitReady(proposal("c7"));
    match process_admin_event(event, "n1", &test_config(), 0).unwrap() {
        AuthorizationOutcome::Ready {
            proposal,
            circuit_id,
            service_id,
            scabbard_admin_keys,
            subscribe_url,
        } => {
            assert_eq!(proposal.circuit_id, "c7");
            assert_eq!(circuit_id, "c7");
            assert_eq!(service_id, "svc-a");
            assert_eq!(scabbard_admin_keys, vec!["k1".to_string()]);
            assert_eq!(
                subscribe_url,
                "http://splinterd:8085/scabbard/c7/svc-a/ws/subscribe"
            );
        }
        other => panic!("expected Ready, got {:?}", other),
    }
}

#[test]
fn circuit_ready_elsewhere_is_a_no_op() {
    let event = AdminServiceEvent::CircuitReady(proposal("c7"));
    let outcome = process_admin_event(event, "n9", &test_config(), 0).unwrap();
    assert!(matches!(outcome, AuthorizationOutcome::NoLocalService));
}

#[test]
fn watcher_classifies_against_the_fixed_prefix() {
    let w = SabreProcessor::new("c1", "n1", "abcd");
    assert_eq!(w.contract_address, "5b7349");
    let root = StateChangeEvent::SetValue { key: "5b7349".to_string(), value: vec![] };
    let payload = StateChangeEvent::SetValue { key: "5b734900aa".to_string(), value: vec![1] };
    let delete = StateChangeEvent::Delete { key: "5b7349".to_string() };
    let other = StateChangeEvent::SetValue { key: "ffffff".to_string(), value: vec![] };
    assert_eq!(w.classify(&root), Classification::ContractCreated);
    assert_eq!(w.classify(&payload), Classification::ApplicationPayload);
    assert_eq!(w.classify(&delete), Classification::Ignored);
    assert_eq!(w.classify(&other), Classification::Unrecognized);
    assert!(w.handle_state_changes(vec![root, payload, delete, other]).is_ok());
}
