//! The state-delta processor of an opened circuit: classifies each record
//! of the circuit's state feed and frames the outbound envelopes, in the
//! order received.

use vstd::prelude::*;

use crate::config::EventListenerConfig;
use crate::messages::StateChangeEvent;
use crate::pubsub::{
    encode_payload, lemma_payload_roundtrip, spec_decode_payload, spec_event_payload, Envelope,
    EventPayload, MessageType,
};
use crate::state_change::{spec_classify, spec_prefix_matches};
use vstd::utf8::encode_utf8;

verus! {

/// The processor of one circuit's state feed, capturing by value the
/// identity the envelopes carry.
#[derive(Clone, Debug)]
pub struct SabreProcessor {
    pub circuit_id: String,
    pub node_id: String,
    pub requester: String,
    pub contract_address: String,
    pub config: EventListenerConfig,
}

/// A framed envelope at the specification level: its tag and its payload
/// bytes.
#[verifier::ext_equal]
pub struct EnvelopeModel {
    pub tag: MessageType,
    pub payload: Seq<u8>,
}

/// The model of a framed envelope.
pub open spec fn model_of(e: Envelope) -> EnvelopeModel {
    EnvelopeModel { tag: e.message_type, payload: e.payload@ }
}

/// The models of a list of envelopes, in order.
pub open spec fn models_of(envelopes: Seq<Envelope>) -> Seq<EnvelopeModel> {
    envelopes.map_values(|e: Envelope| model_of(e))
}

/// The envelope one state-change record produces, if any: a set at the
/// contract address is the creation marker; a set under the configured
/// prefix carries its value verbatim; deletes and unrecognized sets
/// produce nothing.
pub open spec fn spec_change_envelope(s: SabreProcessor, change: StateChangeEvent) -> Option<
    EnvelopeModel,
> {
    match change {
        StateChangeEvent::SetValue { key, value } => {
            if key@ == s.contract_address@ {
                Some(
                    EnvelopeModel {
                        tag: MessageType::ContractCreated,
                        payload: spec_event_payload(
                            s.requester@,
                            s.node_id@,
                            s.circuit_id@,
                            Seq::empty(),
                        ),
                    },
                )
            } else if spec_prefix_matches(key@, s.config.deployment_config.tp_prefix@) {
                Some(
                    EnvelopeModel {
                        tag: MessageType::StatePayload,
                        payload: spec_event_payload(
                            s.requester@,
                            s.node_id@,
                            s.circuit_id@,
                            value@,
                        ),
                    },
                )
            } else {
                None
            }
        },
        StateChangeEvent::Delete { .. } => None,
    }
}

/// The envelopes a batch of records produces, in the order received, with
/// no reordering and no deduplication.
pub open spec fn spec_change_envelopes(
    s: SabreProcessor,
    changes: Seq<StateChangeEvent>,
) -> Seq<EnvelopeModel>
    decreases changes.len(),
{
    if changes.len() == 0 {
        Seq::empty()
    } else {
        spec_change_envelopes(s, changes.drop_last()) + (match spec_change_envelope(
            s,
            changes.last(),
        ) {
            Some(m) => seq![m],
            None => Seq::empty(),
        })
    }
}

/// The payload round trip of an application state set: when a set's key
/// carries the configured prefix (and is not the root address), its
/// envelope is a state payload whose decoded data equals the original
/// value bytes verbatim.
pub proof fn lemma_state_payload_roundtrip(s: SabreProcessor, key: String, value: Vec<u8>)
    requires
        key@ != s.contract_address@,
        spec_prefix_matches(key@, s.config.deployment_config.tp_prefix@),
        encode_utf8(s.requester@).len() <= u64::MAX,
        encode_utf8(s.node_id@).len() <= u64::MAX,
        encode_utf8(s.circuit_id@).len() <= u64::MAX,
        value@.len() <= u64::MAX,
    ensures
        spec_change_envelope(s, StateChangeEvent::SetValue { key, value }) matches Some(m)
            && m.tag == MessageType::StatePayload && (spec_decode_payload(m.payload) matches Some(
            d,
        ) && d.data == value@),
{
    lemma_payload_roundtrip(s.requester@, s.node_id@, s.circuit_id@, value@);
}

/// Each record's envelope follows its classification, record by record: a
/// contract-created record yields the creation marker, an application
/// payload yields a state payload, and nothing else yields anything.
/// Redelivered records classify the same way again.
pub proof fn lemma_envelope_follows_classification(s: SabreProcessor, change: StateChangeEvent)
    ensures
        (spec_classify(change, s.contract_address@, s.config.deployment_config.tp_prefix@)
            is ContractCreated) == (spec_change_envelope(s, change) matches Some(m) && m.tag
            == MessageType::ContractCreated),
        (spec_classify(change, s.contract_address@, s.config.deployment_config.tp_prefix@)
            is ApplicationPayload) == (spec_change_envelope(s, change) matches Some(m) && m.tag
            == MessageType::StatePayload),
{
}

/// Deletes and unrecognized sets never produce an outbound envelope.
pub proof fn lemma_no_envelope_without_match(s: SabreProcessor, change: StateChangeEvent)
    requires
        spec_classify(change, s.contract_address@, s.config.deployment_config.tp_prefix@)
            is Ignored || spec_classify(
            change,
            s.contract_address@,
            s.config.deployment_config.tp_prefix@,
        ) is Unrecognized,
    ensures
        spec_change_envelope(s, change) is None,
{
}

/// Why a state-change record could not be turned into a message.
#[derive(Clone, Debug, PartialEq)]
pub enum StateDeltaError {
    SDError(String),
}

impl StateDeltaError {
    /// The failure text, for logging by the caller.
    pub fn message(&self) -> (r: String)
        ensures
            self matches StateDeltaError::SDError(m) ==> r@ == "Failed to parse tp payload: "@
                + m@,
    {
        match self {
            StateDeltaError::SDError(m) => String::from_str("Failed to parse tp payload: ").concat(
                m.as_str(),
            ),
        }
    }
}

impl SabreProcessor {
    /// Builds a processor for one circuit; the contract's root address is
    /// the configured address prefix.
    pub fn new(circuit_id: &str, node_id: &str, requester: &str, config: EventListenerConfig) -> (s:
        Self)
        ensures
            s.circuit_id@ == circuit_id@,
            s.node_id@ == node_id@,
            s.requester@ == requester@,
            s.contract_address@ == config.deployment_config.tp_prefix@,
            s.config == config,
    {
        let contract_address = String::from_str(config.deployment_config().tp_prefix());
        SabreProcessor {
            circuit_id: String::from_str(circuit_id),
            node_id: String::from_str(node_id),
            requester: String::from_str(requester),
            contract_address,
            config,
        }
    }

    /// Classifies one record and frames its envelope, if it has one.
    fn handle_state_change(&self, change: &StateChangeEvent) -> (r: Result<
        Option<Envelope>,
        StateDeltaError,
    >)
        ensures
            r matches Ok(produced) && (match spec_change_envelope(*self, *change) {
                None => produced is None,
                Some(m) => produced matches Some(e) && model_of(e) == m,
            }),
    {
        match change {
            StateChangeEvent::SetValue { key, value } => {
                if *key == self.contract_address {
                    let payload = encode_payload(
                        &EventPayload {
                            requester: self.requester.clone(),
                            requester_node_id: self.node_id.clone(),
                            circuit_id: self.circuit_id.clone(),
                            data: Vec::new(),
                        },
                    );
                    Ok(
                        Some(
                            Envelope { message_type: MessageType::ContractCreated, payload },
                        ),
                    )
                } else if crate::state_change::key_has_prefix(
                    key,
                    &self.config.deployment_config.tp_prefix,
                ) {
                    let payload = encode_payload(
                        &EventPayload {
                            requester: self.requester.clone(),
                            requester_node_id: self.node_id.clone(),
                            circuit_id: self.circuit_id.clone(),
                            data: value.clone(),
                        },
                    );
                    Ok(
                        Some(Envelope { message_type: MessageType::StatePayload, payload }),
                    )
                } else {
                    Ok(None)
                }
            },
            StateChangeEvent::Delete { .. } => Ok(None),
        }
    }

    /// Handles one batch of state-change records, producing the envelopes
    /// to publish in the order received.
    pub fn handle_state_changes(&self, changes: Vec<StateChangeEvent>) -> (r: Result<
        Vec<Envelope>,
        StateDeltaError,
    >)
        ensures
            r matches Ok(envelopes) && models_of(envelopes@) == spec_change_envelopes(
                *self,
                changes@,
            ),
    {
        let mut envelopes: Vec<Envelope> = Vec::new();
        let mut i: usize = 0;
        proof {
            assert(changes@.take(0).len() == 0);
            assert(models_of(envelopes@) =~= spec_change_envelopes(*self, changes@.take(0)));
        }
        while i < changes.len()
            invariant
                i <= changes@.len(),
                models_of(envelopes@) == spec_change_envelopes(*self, changes@.take(i as int)),
            decreases changes@.len() - i,
        {
            let ghost old_envelopes = envelopes@;
            match self.handle_state_change(&changes[i]) {
                Ok(Some(e)) => {
                    proof {
                        let ghost m = model_of(e);
                        assert(models_of(old_envelopes.push(e)) =~= models_of(old_envelopes)
                            + seq![m]);
                    }
                    envelopes.push(e);
                },
                Ok(None) => {},
                Err(e) => {
                    return Err(e);
                },
            }
            proof {
                let taken = changes@.take(i as int + 1);
                assert(taken.drop_last() =~= changes@.take(i as int));
                assert(taken.last() == changes@[i as int]);
                assert(models_of(envelopes@) =~= spec_change_envelopes(*self, taken));
            }
            i = i + 1;
        }
        proof {
            assert(changes@.take(changes@.len() as int) =~= changes@);
        }
        Ok(envelopes)
    }
}

} // verus!
