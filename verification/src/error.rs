//! Startup-time error values: configuration problems and node-lookup
//! failures. Both are fatal to the whole process.

use vstd::prelude::*;

verus! {

/// A recognized configuration option that has no usable value.
#[derive(Clone, Debug, PartialEq)]
pub enum ConfigurationError {
    MissingValue(String),
}

impl ConfigurationError {
    /// The failure text, for logging by the caller.
    pub fn message(&self) -> (r: String)
        ensures
            self matches ConfigurationError::MissingValue(f) ==> r@ == "Missing configuration for "@
                + f@,
    {
        match self {
            ConfigurationError::MissingValue(field) => String::from_str(
                "Missing configuration for ",
            ).concat(field.as_str()),
        }
    }
}

/// A failure while looking up this process's node identity.
#[derive(Clone, Debug, PartialEq)]
pub struct GetNodeError(pub String);

impl GetNodeError {
    /// The failure text, for logging by the caller.
    pub fn message(&self) -> (r: String)
        ensures
            r@ == self.0@,
    {
        self.0.clone()
    }
}

} // verus!
