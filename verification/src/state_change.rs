//! The state-change classifier core: given one decoded record of a circuit's
//! state feed, decide by address what it is. Records are classified one at a
//! time, in arrival order, with no deduplication.

use vstd::prelude::*;

use crate::messages::StateChangeEvent;

verus! {

/// What one state-change record is, by its address.
#[derive(Clone, Copy, Debug, PartialEq, Eq, Structural)]
pub enum Classification {
    /// A set at exactly the contract's well-known root address: the one-time
    /// contract-creation marker.
    ContractCreated,
    /// A set under the configured six-character address prefix: application
    /// state, carrying the value verbatim.
    ApplicationPayload,
    /// A delete: dropped without a downstream message.
    Ignored,
    /// Anything else: logged, no downstream message.
    Unrecognized,
}

/// Whether the key's first six characters are the configured prefix.
pub open spec fn spec_prefix_matches(key: Seq<char>, prefix: Seq<char>) -> bool {
    &&& prefix.len() == 6
    &&& key.len() >= 6
    &&& key.take(6) == prefix
}

/// The classification of one record against a root address and a prefix;
/// the root-address test wins over the prefix test.
pub open spec fn spec_classify(
    change: StateChangeEvent,
    contract_address: Seq<char>,
    prefix: Seq<char>,
) -> Classification {
    match change {
        StateChangeEvent::SetValue { key, value } => if key@ == contract_address {
            Classification::ContractCreated
        } else if spec_prefix_matches(key@, prefix) {
            Classification::ApplicationPayload
        } else {
            Classification::Unrecognized
        },
        StateChangeEvent::Delete { .. } => Classification::Ignored,
    }
}

/// Whether the key starts with the six-character prefix. A key shorter than
/// six characters matches nothing rather than being an error.
pub fn key_has_prefix(key: &String, prefix: &String) -> (r: bool)
    ensures
        r == spec_prefix_matches(key@, prefix@),
{
    let key_str = key.as_str();
    let prefix_str = prefix.as_str();
    let key_len = key_str.unicode_len();
    let prefix_len = prefix_str.unicode_len();
    if prefix_len != 6 || key_len < 6 {
        return false;
    }
    let mut i: usize = 0;
    while i < 6
        invariant
            i <= 6,
            key_str@ == key@,
            prefix_str@ == prefix@,
            key@.len() >= 6,
            prefix@.len() == 6,
            forall|j: int| 0 <= j < i ==> key@[j] == prefix@[j],
        decreases 6 - i,
    {
        if key_str.get_char(i) != prefix_str.get_char(i) {
            proof {
                assert(key@.take(6)[i as int] == key@[i as int]);
            }
            return false;
        }
        i = i + 1;
    }
    proof {
        assert(key@.take(6) =~= prefix@);
    }
    true
}

/// Classifies one state-change record.
pub fn classify_state_change(
    change: &StateChangeEvent,
    contract_address: &String,
    prefix: &String,
) -> (c: Classification)
    ensures
        c == spec_classify(*change, contract_address@, prefix@),
{
    match change {
        StateChangeEvent::SetValue { key, value: _ } => {
            if *key == *contract_address {
                Classification::ContractCreated
            } else if key_has_prefix(key, prefix) {
                Classification::ApplicationPayload
            } else {
                Classification::Unrecognized
            }
        },
        StateChangeEvent::Delete { .. } => Classification::Ignored,
    }
}

} // verus!
