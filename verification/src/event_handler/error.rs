//! The per-event error values of the lifecycle dispatcher. Each one is
//! caught at the dispatch boundary and logged; none aborts the stream.

use vstd::prelude::*;

verus! {

/// What went wrong while handling one admin-stream event.
#[derive(Clone, Debug, PartialEq)]
pub enum EventHandlerError {
    /// The event cannot be used: a vote without the signer's entry, or
    /// metadata that does not parse.
    InvalidMessageError(String),
    /// A contract payload could not be built.
    SabreError(String),
    /// A transaction or batch could not be built.
    SawtoothError(String),
    /// A signature could not be produced.
    SigningError(String),
    /// A batch was rejected by the contract-execution endpoint.
    BatchSubmitError(String),
}

impl EventHandlerError {
    /// The failure text, for logging by the caller.
    pub fn message(&self) -> (r: String)
        ensures
            self matches EventHandlerError::InvalidMessageError(m) ==> r@
                == "The client received an invalid message: "@ + m@,
            self matches EventHandlerError::SabreError(m) ==> r@
                == "An error occurred while building a Sabre payload: "@ + m@,
            self matches EventHandlerError::SawtoothError(m) ==> r@
                == "An error occurred while building a transaction or batch: "@ + m@,
            self matches EventHandlerError::SigningError(m) ==> r@
                == "A signing error occurred: "@ + m@,
            self matches EventHandlerError::BatchSubmitError(m) ==> r@
                == "An error occurred while submitting a batch to the scabbard service: "@ + m@,
    {
        match self {
            EventHandlerError::InvalidMessageError(m) => String::from_str(
                "The client received an invalid message: ",
            ).concat(m.as_str()),
            EventHandlerError::SabreError(m) => String::from_str(
                "An error occurred while building a Sabre payload: ",
            ).concat(m.as_str()),
            EventHandlerError::SawtoothError(m) => String::from_str(
                "An error occurred while building a transaction or batch: ",
            ).concat(m.as_str()),
            EventHandlerError::SigningError(m) => String::from_str(
                "A signing error occurred: ",
            ).concat(m.as_str()),
            EventHandlerError::BatchSubmitError(m) => String::from_str(
                "An error occurred while submitting a batch to the scabbard service: ",
            ).concat(m.as_str()),
        }
    }
}

} // verus!
