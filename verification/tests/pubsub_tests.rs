use event_listener::pubsub::{
    decode_envelope, decode_payload, encode_envelope, encode_payload, Envelope, EventPayload,
    MessageType,
};

fn sample_payload() -> EventPayload {
    EventPayload {
        requester: "abcd".to_string(),
        requester_node_id: "n1".to_string(),
        circuit_id: "c1".to_string(),
        data: vec![1, 2, 3],
    }
}

#[test]
fn payload_roundtrip() {
    let encoded = encode_payload(&sample_payload());
    let raw = decode_payload(&encoded).expect("payload must decode");
    assert_eq!(raw.requester, b"abcd".to_vec());
    assert_eq!(raw.requester_node_id, b"n1".to_vec());
    assert_eq!(raw.circuit_id, b"c1".to_vec());
    assert_eq!(raw.data, vec![1, 2, 3]);
}

#[test]
fn payload_roundtrip_empty_fields() {
    let empty = EventPayload {
        requester: String::new(),
        requester_node_id: String::new(),
        circuit_id: String::new(),
        data: Vec::new(),
    };
    let raw = decode_payload(&encode_payload(&empty)).expect("payload must decode");
    assert_eq!(raw.requester, Vec::<u8>::new());
    assert_eq!(raw.data, Vec::<u8>::new());
}

#[test]
fn truncated_payload_does_not_decode() {
    let mut encoded = encode_payload(&sample_payload());
    encoded.pop();
    assert!(decode_payload(&encoded).is_none());
    assert!(decode_payload(&[]).is_none());
    assert!(decode_payload(&[0, 0, 0]).is_none());
}

#[test]
fn trailing_bytes_do_not_decode() {
    let mut encoded = encode_payload(&sample_payload());
    encoded.push(0);
    assert!(decode_payload(&encoded).is_none());
}

#[test]
fn envelope_roundtrip() {
    let envelope = Envelope {
        message_type: MessageType::StatePayload,
        payload: vec![9, 9, 9],
    };
    let encoded = encode_envelope(&envelope);
    let decoded = decode_envelope(&encoded).expect("envelope must decode");
    assert_eq!(decoded.message_type, MessageType::StatePayload);
    assert_eq!(decoded.payload, vec![9, 9, 9]);
}

#[test]
fn unknown_tag_does_not_decode() {
    let envelope = Envelope {
        message_type: MessageType::ProposalSubmit,
        payload: Vec::new(),
    };
    let mut encoded = encode_envelope(&envelope);
    encoded[0] = 0;
    assert!(decode_envelope(&encoded).is_none());
    assert!(decode_envelope(&[]).is_none());
}

#[test]
fn envelope_wire_shape_is_tag_then_length_then_payload() {
    let envelope = Envelope {
        message_type: MessageType::ContractCreated,
        payload: vec![0xAA, 0xBB],
    };
    let encoded = encode_envelope(&envelope);
    // Tag byte, then the payload length as eight little-endian bytes, then
    // the payload itself.
    assert_eq!(encoded, vec![6, 2, 0, 0, 0, 0, 0, 0, 0, 0xAA, 0xBB]);
}

#[test]
fn payload_wire_shape_frames_each_field() {
    let payload = EventPayload {
        requester: "ab".to_string(),
        requester_node_id: String::new(),
        circuit_id: "c".to_string(),
        data: vec![7],
    };
    let encoded = encode_payload(&payload);
    assert_eq!(
        encoded,
        vec![
            2, 0, 0, 0, 0, 0, 0, 0, b'a', b'b', // requester
            0, 0, 0, 0, 0, 0, 0, 0, // empty node id
            1, 0, 0, 0, 0, 0, 0, 0, b'c', // circuit id
            1, 0, 0, 0, 0, 0, 0, 0, 7, // data
        ]
    );
}

#[test]
fn tags_are_distinct_and_roundtrip() {
    let kinds = [
        MessageType::ProposalSubmit,
        MessageType::ProposalVote,
        MessageType::ProposalAccept,
        MessageType::ProposalReject,
        MessageType::ProposalReady,
        MessageType::ContractCreated,
        MessageType::StatePayload,
    ];
    for (i, a) in kinds.iter().enumerate() {
        assert_eq!(MessageType::from_tag(a.tag()), Some(*a));
        for b in kinds.iter().skip(i + 1) {
            assert_ne!(a.tag(), b.tag());
        }
    }
}
