use event_listener::config::{DeploymentConfig, EventListenerConfig};
use event_listener::event_handler::state_delta::SabreProcessor;
use event_listener::messages::StateChangeEvent;
use event_listener::pubsub::{decode_payload, MessageType};

fn test_config() -> EventListenerConfig {
    EventListenerConfig::new(
        "http://splinterd:8085".to_string(),
        DeploymentConfig::new(
            "sawtooth_message".to_string(),
            "1.0".to_string(),
            "8c40ac".to_string(),
            "/var/contracts/message.wasm".to_string(),
            "kafka:9092".to_string(),
            "consortium-events".to_string(),
        ),
    )
}

fn processor() -> SabreProcessor {
    SabreProcessor::new("c1", "n1", "abcd", test_config())
}

fn set(key: &str, value: &[u8]) -> StateChangeEvent {
    StateChangeEvent::SetValue { key: key.to_string(), value: value.to_vec() }
}

#[test]
fn set_at_root_address_is_contract_created() {
    let out = processor().handle_state_changes(vec![set("8c40ac", &[])]).unwrap();
    assert_eq!(out.len(), 1);
    assert_eq!(out[0].message_type, MessageType::ContractCreated);
    let raw = decode_payload(&out[0].payload).unwrap();
    assert_eq!(raw.requester, b"abcd".to_vec());
    assert_eq!(raw.requester_node_id, b"n1".to_vec());
    assert_eq!(raw.circuit_id, b"c1".to_vec());
    assert_eq!(raw.data, Vec::<u8>::new());
}

#[test]
fn redelivered_root_set_is_classified_again() {
    // Classification is per record, not deduplicated: redelivery repeats
    // the contract-created envelope.
    let out = processor()
        .handle_state_changes(vec![set("8c40ac", &[]), set("8c40ac", &[])])
        .unwrap();
    assert_eq!(out.len(), 2);
    assert_eq!(out[0].message_type, MessageType::ContractCreated);
    assert_eq!(out[1].message_type, MessageType::ContractCreated);
}

#[test]
fn prefixed_set_carries_value_verbatim() {
    let value = vec![0xDE, 0xAD, 0xBE, 0xEF, 0x00];
    let out = processor()
        .handle_state_changes(vec![set("8c40ac0000000000aaaa", &value)])
        .unwrap();
    assert_eq!(out.len(), 1);
    assert_eq!(out[0].message_type, MessageType::StatePayload);
    let raw = decode_payload(&out[0].payload).unwrap();
    assert_eq!(raw.data, value);
}

#[test]
fn deletes_and_unrecognized_sets_produce_nothing() {
    let out = processor()
        .handle_state_changes(vec![
            StateChangeEvent::Delete { key: "8c40ac00".to_string() },
            set("ffffff00", b"x"),
            set("8c4", b"short key"),
            set("", b"empty key"),
        ])
        .unwrap();
    assert_eq!(out.len(), 0);
}

#[test]
fn batch_keeps_arrival_order() {
    let out = processor()
        .handle_state_changes(vec![
            set("8c40ac", &[]),
            StateChangeEvent::Delete { key: "8c40ac11".to_string() },
            set("8c40ac1234", b"one"),
            set("zzzzzz", b"ignored"),
            set("8c40acffff", b"two"),
        ])
        .unwrap();
    assert_eq!(out.len(), 3);
    assert_eq!(out[0].message_type, MessageType::ContractCreated);
    assert_eq!(out[1].message_type, MessageType::StatePayload);
    assert_eq!(decode_payload(&out[1].payload).unwrap().data, b"one".to_vec());
    assert_eq!(out[2].message_type, MessageType::StatePayload);
    assert_eq!(decode_payload(&out[2].payload).unwrap().data, b"two".to_vec());
}

#[test]
fn processor_captures_identity() {
    let p = processor();
    assert_eq!(p.circuit_id, "c1");
    assert_eq!(p.node_id, "n1");
    assert_eq!(p.requester, "abcd");
    assert_eq!(p.contract_address, "8c40ac");
}
