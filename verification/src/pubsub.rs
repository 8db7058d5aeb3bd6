//! The outbound message envelope: a type tag followed by a length-framed,
//! schema-encoded record. Every domain event leaves the daemon as exactly one
//! such envelope, and decoding is proved to give back what was framed.

use vstd::bytes::{
    lemma_auto_spec_u64_to_from_le_bytes, spec_u64_from_le_bytes, spec_u64_to_le_bytes,
    u64_from_le_bytes, u64_to_le_bytes,
};
use vstd::prelude::*;
use vstd::slice::{slice_subrange, slice_to_vec};
use vstd::utf8::encode_utf8;

verus! {

/// The tag of an outbound envelope, one per kind of domain event.
#[derive(Clone, Copy, Debug, PartialEq, Eq, Structural)]
pub enum MessageType {
    ProposalSubmit,
    ProposalVote,
    ProposalAccept,
    ProposalReject,
    ProposalReady,
    ContractCreated,
    StatePayload,
}

/// The wire byte of each message type.
pub open spec fn spec_tag(t: MessageType) -> u8 {
    match t {
        MessageType::ProposalSubmit => 1,
        MessageType::ProposalVote => 2,
        MessageType::ProposalAccept => 3,
        MessageType::ProposalReject => 4,
        MessageType::ProposalReady => 5,
        MessageType::ContractCreated => 6,
        MessageType::StatePayload => 7,
    }
}

/// The message type a wire byte stands for, if any.
pub open spec fn spec_from_tag(b: u8) -> Option<MessageType> {
    if b == 1 {
        Some(MessageType::ProposalSubmit)
    } else if b == 2 {
        Some(MessageType::ProposalVote)
    } else if b == 3 {
        Some(MessageType::ProposalAccept)
    } else if b == 4 {
        Some(MessageType::ProposalReject)
    } else if b == 5 {
        Some(MessageType::ProposalReady)
    } else if b == 6 {
        Some(MessageType::ContractCreated)
    } else if b == 7 {
        Some(MessageType::StatePayload)
    } else {
        None
    }
}

/// Every message type survives the trip through its wire byte.
pub proof fn lemma_tag_roundtrip(t: MessageType)
    ensures
        spec_from_tag(spec_tag(t)) == Some(t),
{
}

impl MessageType {
    /// The wire byte of this message type.
    pub fn tag(&self) -> (b: u8)
        ensures
            b == spec_tag(*self),
    {
        match self {
            MessageType::ProposalSubmit => 1,
            MessageType::ProposalVote => 2,
            MessageType::ProposalAccept => 3,
            MessageType::ProposalReject => 4,
            MessageType::ProposalReady => 5,
            MessageType::ContractCreated => 6,
            MessageType::StatePayload => 7,
        }
    }

    /// The message type of a wire byte, if the byte is a known tag.
    pub fn from_tag(b: u8) -> (t: Option<MessageType>)
        ensures
            t == spec_from_tag(b),
    {
        if b == 1 {
            Some(MessageType::ProposalSubmit)
        } else if b == 2 {
            Some(MessageType::ProposalVote)
        } else if b == 3 {
            Some(MessageType::ProposalAccept)
        } else if b == 4 {
            Some(MessageType::ProposalReject)
        } else if b == 5 {
            Some(MessageType::ProposalReady)
        } else if b == 6 {
            Some(MessageType::ContractCreated)
        } else if b == 7 {
            Some(MessageType::StatePayload)
        } else {
            None
        }
    }
}

/// The record framed into every envelope payload: requester identity, node
/// id, circuit id, and the event data (empty except for state payloads).
#[derive(Clone, Debug, PartialEq)]
pub struct EventPayload {
    pub requester: String,
    pub requester_node_id: String,
    pub circuit_id: String,
    pub data: Vec<u8>,
}

/// An outbound envelope, immutable once constructed.
#[derive(Clone, Debug, PartialEq)]
pub struct Envelope {
    pub message_type: MessageType,
    pub payload: Vec<u8>,
}

/// A byte string preceded by its length as eight little-endian bytes.
pub open spec fn spec_len_prefixed(b: Seq<u8>) -> Seq<u8>
    recommends
        b.len() <= u64::MAX,
{
    spec_u64_to_le_bytes(b.len() as u64) + b
}

/// The payload encoding: the four record fields in order, each length-framed,
/// strings as their UTF-8 bytes.
pub open spec fn spec_event_payload(
    requester: Seq<char>,
    requester_node_id: Seq<char>,
    circuit_id: Seq<char>,
    data: Seq<u8>,
) -> Seq<u8> {
    spec_len_prefixed(encode_utf8(requester)) + spec_len_prefixed(encode_utf8(requester_node_id))
        + spec_len_prefixed(encode_utf8(circuit_id)) + spec_len_prefixed(data)
}

/// The encoding of a payload record.
pub open spec fn spec_payload_encoding(p: EventPayload) -> Seq<u8> {
    spec_event_payload(p.requester@, p.requester_node_id@, p.circuit_id@, p.data@)
}

/// The envelope encoding: the tag byte, then the length-framed payload.
pub open spec fn spec_envelope_encoding(e: Envelope) -> Seq<u8> {
    seq![spec_tag(e.message_type)] + spec_len_prefixed(e.payload@)
}

/// Appends a length-framed byte string.
fn append_len_prefixed(out: &mut Vec<u8>, b: &[u8])
    ensures
        final(out)@ == old(out)@ + spec_len_prefixed(b@),
{
    let len_bytes = u64_to_le_bytes(b.len() as u64);
    out.extend_from_slice(len_bytes.as_slice());
    out.extend_from_slice(b);
    proof {
        assert(final(out)@ =~= old(out)@ + spec_len_prefixed(b@));
    }
}

/// Encodes a payload record.
pub fn encode_payload(p: &EventPayload) -> (r: Vec<u8>)
    ensures
        r@ == spec_payload_encoding(*p),
{
    let mut out: Vec<u8> = Vec::new();
    append_len_prefixed(&mut out, p.requester.as_str().as_bytes());
    append_len_prefixed(&mut out, p.requester_node_id.as_str().as_bytes());
    append_len_prefixed(&mut out, p.circuit_id.as_str().as_bytes());
    append_len_prefixed(&mut out, p.data.as_slice());
    proof {
        assert(out@ =~= spec_payload_encoding(*p));
    }
    out
}

/// Encodes an envelope for the durable queue.
pub fn encode_envelope(e: &Envelope) -> (r: Vec<u8>)
    ensures
        r@ == spec_envelope_encoding(*e),
{
    let mut out: Vec<u8> = Vec::new();
    out.push(e.message_type.tag());
    append_len_prefixed(&mut out, e.payload.as_slice());
    proof {
        assert(out@ =~= spec_envelope_encoding(*e));
    }
    out
}

/// A decoded payload record, fields as raw bytes.
#[derive(Clone, Debug, PartialEq)]
pub struct RawPayload {
    pub requester: Vec<u8>,
    pub requester_node_id: Vec<u8>,
    pub circuit_id: Vec<u8>,
    pub data: Vec<u8>,
}

/// The field values of a decoded payload, at the specification level.
#[verifier::ext_equal]
pub struct PayloadModel {
    pub requester: Seq<u8>,
    pub requester_node_id: Seq<u8>,
    pub circuit_id: Seq<u8>,
    pub data: Seq<u8>,
}

/// Splits one length-framed field off the front of a byte string.
pub open spec fn spec_take_field(b: Seq<u8>) -> Option<(Seq<u8>, Seq<u8>)> {
    if b.len() < 8 {
        None
    } else {
        let n = spec_u64_from_le_bytes(b.take(8)) as int;
        if b.len() - 8 < n {
            None
        } else {
            Some((b.subrange(8, 8 + n), b.skip(8 + n)))
        }
    }
}

/// Decodes a payload encoding: four length-framed fields and nothing after.
pub open spec fn spec_decode_payload(b: Seq<u8>) -> Option<PayloadModel> {
    match spec_take_field(b) {
        None => None,
        Some((requester, b1)) => match spec_take_field(b1) {
            None => None,
            Some((node, b2)) => match spec_take_field(b2) {
                None => None,
                Some((circuit, b3)) => match spec_take_field(b3) {
                    None => None,
                    Some((data, b4)) => if b4.len() == 0 {
                        Some(
                            PayloadModel {
                                requester,
                                requester_node_id: node,
                                circuit_id: circuit,
                                data,
                            },
                        )
                    } else {
                        None
                    },
                },
            },
        },
    }
}

/// Decodes an envelope encoding: a known tag byte, then one length-framed
/// payload and nothing after.
pub open spec fn spec_decode_envelope(b: Seq<u8>) -> Option<(MessageType, Seq<u8>)> {
    if b.len() < 1 {
        None
    } else {
        match spec_from_tag(b[0]) {
            None => None,
            Some(t) => match spec_take_field(b.skip(1)) {
                None => None,
                Some((payload, rest)) => if rest.len() == 0 {
                    Some((t, payload))
                } else {
                    None
                },
            },
        }
    }
}

/// Splits one length-framed field off the front of a byte slice.
fn take_field<'a>(b: &'a [u8]) -> (r: Option<(Vec<u8>, &'a [u8])>)
    ensures
        match spec_take_field(b@) {
            None => r is None,
            Some(fr) => r matches Some(p) && p.0@ == fr.0 && p.1@ == fr.1,
        },
{
    if b.len() < 8 {
        return None;
    }
    let n = u64_from_le_bytes(slice_subrange(b, 0, 8));
    if ((b.len() - 8) as u64) < n {
        return None;
    }
    let n_us = n as usize;
    let field = slice_to_vec(slice_subrange(b, 8, 8 + n_us));
    let rest = slice_subrange(b, 8 + n_us, b.len());
    Some((field, rest))
}

/// Decodes a payload produced by `encode_payload`.
pub fn decode_payload(bytes: &[u8]) -> (r: Option<RawPayload>)
    ensures
        match spec_decode_payload(bytes@) {
            None => r is None,
            Some(m) => r matches Some(p) && p.requester@ == m.requester && p.requester_node_id@
                == m.requester_node_id && p.circuit_id@ == m.circuit_id && p.data@ == m.data,
        },
{
    let (requester, b1) = match take_field(bytes) {
        Some(p) => p,
        None => {
            return None;
        },
    };
    let (requester_node_id, b2) = match take_field(b1) {
        Some(p) => p,
        None => {
            return None;
        },
    };
    let (circuit_id, b3) = match take_field(b2) {
        Some(p) => p,
        None => {
            return None;
        },
    };
    let (data, b4) = match take_field(b3) {
        Some(p) => p,
        None => {
            return None;
        },
    };
    if b4.len() != 0 {
        return None;
    }
    Some(RawPayload { requester, requester_node_id, circuit_id, data })
}

/// Decodes an envelope produced by `encode_envelope`.
pub fn decode_envelope(bytes: &[u8]) -> (r: Option<Envelope>)
    ensures
        match spec_decode_envelope(bytes@) {
            None => r is None,
            Some(m) => r matches Some(e) && e.message_type == m.0 && e.payload@ == m.1,
        },
{
    if bytes.len() < 1 {
        return None;
    }
    let t = match MessageType::from_tag(bytes[0]) {
        Some(t) => t,
        None => {
            return None;
        },
    };
    let rest = slice_subrange(bytes, 1, bytes.len());
    proof {
        assert(rest@ =~= bytes@.skip(1));
    }
    let (payload, after) = match take_field(rest) {
        Some(p) => p,
        None => {
            return None;
        },
    };
    if after.len() != 0 {
        return None;
    }
    Some(Envelope { message_type: t, payload })
}

/// Taking a field off a framed byte string gives back exactly the framed
/// bytes and the remainder.
pub proof fn lemma_take_field_of_prefixed(x: Seq<u8>, rest: Seq<u8>)
    requires
        x.len() <= u64::MAX,
    ensures
        spec_take_field(spec_len_prefixed(x) + rest) == Some((x, rest)),
{
    lemma_auto_spec_u64_to_from_le_bytes();
    let b = spec_len_prefixed(x) + rest;
    assert(spec_u64_to_le_bytes(x.len() as u64).len() == 8);
    assert(b.take(8) =~= spec_u64_to_le_bytes(x.len() as u64));
    assert(spec_u64_from_le_bytes(b.take(8)) == x.len() as u64);
    assert(b.subrange(8, 8 + x.len() as int) =~= x);
    assert(b.skip(8 + x.len() as int) =~= rest);
}

/// The payload round trip: decoding an encoded record yields the record's
/// fields, strings as their UTF-8 bytes and the data bytes verbatim.
pub proof fn lemma_payload_roundtrip(
    requester: Seq<char>,
    requester_node_id: Seq<char>,
    circuit_id: Seq<char>,
    data: Seq<u8>,
)
    requires
        encode_utf8(requester).len() <= u64::MAX,
        encode_utf8(requester_node_id).len() <= u64::MAX,
        encode_utf8(circuit_id).len() <= u64::MAX,
        data.len() <= u64::MAX,
    ensures
        spec_decode_payload(spec_event_payload(requester, requester_node_id, circuit_id, data))
            == Some(
            PayloadModel {
                requester: encode_utf8(requester),
                requester_node_id: encode_utf8(requester_node_id),
                circuit_id: encode_utf8(circuit_id),
                data,
            },
        ),
{
    let f0 = encode_utf8(requester);
    let f1 = encode_utf8(requester_node_id);
    let f2 = encode_utf8(circuit_id);
    let whole = spec_event_payload(requester, requester_node_id, circuit_id, data);
    let r1 = spec_len_prefixed(f1) + spec_len_prefixed(f2) + spec_len_prefixed(data);
    let r2 = spec_len_prefixed(f2) + spec_len_prefixed(data);
    let r3 = spec_len_prefixed(data);
    assert(whole =~= spec_len_prefixed(f0) + r1);
    lemma_take_field_of_prefixed(f0, r1);
    assert(r1 =~= spec_len_prefixed(f1) + r2);
    lemma_take_field_of_prefixed(f1, r2);
    assert(r2 =~= spec_len_prefixed(f2) + r3);
    lemma_take_field_of_prefixed(f2, r3);
    assert(r3 =~= spec_len_prefixed(data) + Seq::<u8>::empty());
    lemma_take_field_of_prefixed(data, Seq::<u8>::empty());
}

/// The envelope round trip: decoding an encoded envelope yields its message
/// type and its payload bytes verbatim.
pub proof fn lemma_envelope_roundtrip(e: Envelope)
    requires
        e.payload@.len() <= u64::MAX,
    ensures
        spec_decode_envelope(spec_envelope_encoding(e)) == Some((e.message_type, e.payload@)),
{
    let b = spec_envelope_encoding(e);
    assert(b[0] == spec_tag(e.message_type));
    lemma_tag_roundtrip(e.message_type);
    assert(b.skip(1) =~= spec_len_prefixed(e.payload@) + Seq::<u8>::empty());
    lemma_take_field_of_prefixed(e.payload@, Seq::<u8>::empty());
}

} // verus!
