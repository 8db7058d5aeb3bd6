//! The state-delta watcher of the persist-only pipeline: it classifies each
//! record of an opened circuit's state feed against the fixed contract
//! prefix, and reports nothing downstream.

use vstd::prelude::*;

use crate::messages::StateChangeEvent;
use crate::state_change::{classify_state_change, spec_classify, Classification};

verus! {

/// Returns the fixed six-character address prefix of the contract family
/// this watcher follows.
pub fn xo_prefix() -> (r: &'static str)
    ensures
        r@ == "5b7349"@,
{
    "5b7349"
}

/// The watcher of one circuit's state feed, capturing by value the
/// identity of the circuit it follows.
#[derive(Clone, Debug)]
pub struct SabreProcessor {
    pub circuit_id: String,
    pub node_id: String,
    pub requester: String,
    pub contract_address: String,
}

/// Why a state-change record could not be handled.
#[derive(Clone, Debug, PartialEq)]
pub enum StateDeltaError {
    SDError(String),
}

impl StateDeltaError {
    /// The failure text, for logging by the caller.
    pub fn message(&self) -> (r: String)
        ensures
            self matches StateDeltaError::SDError(m) ==> r@ == "Failed to parse xo payload: "@
                + m@,
    {
        match self {
            StateDeltaError::SDError(m) => String::from_str("Failed to parse xo payload: ").concat(
                m.as_str(),
            ),
        }
    }
}

impl SabreProcessor {
    /// Builds a watcher for one circuit; the contract's root address is the
    /// fixed contract prefix.
    pub fn new(circuit_id: &str, node_id: &str, requester: &str) -> (s: Self)
        ensures
            s.circuit_id@ == circuit_id@,
            s.node_id@ == node_id@,
            s.requester@ == requester@,
            s.contract_address@ == "5b7349"@,
    {
        SabreProcessor {
            circuit_id: String::from_str(circuit_id),
            node_id: String::from_str(node_id),
            requester: String::from_str(requester),
            contract_address: String::from_str(xo_prefix()),
        }
    }

    /// Classifies one record against the contract's root address and
    /// prefix.
    pub fn classify(&self, change: &StateChangeEvent) -> (c: Classification)
        ensures
            c == spec_classify(*change, self.contract_address@, "5b7349"@),
    {
        let prefix = String::from_str(xo_prefix());
        classify_state_change(change, &self.contract_address, &prefix)
    }

    /// Handles one batch of state-change records in the order received.
    /// Every record classifies cleanly, so the batch always succeeds; this
    /// pipeline persists its findings and sends nothing downstream.
    pub fn handle_state_changes(&self, changes: Vec<StateChangeEvent>) -> (r: Result<
        (),
        StateDeltaError,
    >)
        ensures
            r is Ok,
    {
        let mut i: usize = 0;
        while i < changes.len()
            invariant
                i <= changes@.len(),
            decreases changes@.len() - i,
        {
            self.handle_state_change(&changes[i]);
            i = i + 1;
        }
        Ok(())
    }

    /// Handles one record: classification only.
    fn handle_state_change(&self, change: &StateChangeEvent) -> (c: Classification)
        ensures
            c == spec_classify(*change, self.contract_address@, "5b7349"@),
    {
        self.classify(change)
    }
}

} // verus!
