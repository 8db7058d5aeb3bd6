//! The application metadata embedded in a circuit proposal: a JSON object
//! that must carry an `alias` and the `scabbard_admin_keys` authorized to
//! administer the deployed contract. The JSON decoding itself is
//! serde_json's work, named at the trusted boundary; which fields are
//! required, and what an absence means, is decided here in verified code.

use vstd::prelude::*;

use crate::json::{
    json_str_array_member, json_str_member, spec_json_str_array_member, spec_json_str_member,
};

verus! {

/// The metadata fields the daemon reads from a proposal's embedded bytes.
#[derive(Clone, Debug, PartialEq)]
pub struct ApplicationMetadata {
    pub alias: String,
    pub scabbard_admin_keys: Vec<String>,
}

/// Whether metadata bytes are usable: they hold a string `alias` and an
/// all-string `scabbard_admin_keys` array.
pub open spec fn spec_metadata_ok(bytes: Seq<u8>) -> bool {
    &&& spec_json_str_member(bytes, "alias"@) is Some
    &&& spec_json_str_array_member(bytes, "scabbard_admin_keys"@) is Some
}

/// The alias carried by usable metadata bytes.
pub open spec fn spec_metadata_alias(bytes: Seq<u8>) -> Seq<char>
    recommends
        spec_metadata_ok(bytes),
{
    spec_json_str_member(bytes, "alias"@)->Some_0
}

/// The admin keys carried by usable metadata bytes, in order.
pub open spec fn spec_metadata_keys(bytes: Seq<u8>) -> Seq<Seq<char>>
    recommends
        spec_metadata_ok(bytes),
{
    spec_json_str_array_member(bytes, "scabbard_admin_keys"@)->Some_0
}

/// The failure text for unusable metadata bytes: the first required field
/// that cannot be read.
pub open spec fn spec_metadata_error_text(bytes: Seq<u8>) -> Seq<char>
    recommends
        !spec_metadata_ok(bytes),
{
    if spec_json_str_member(bytes, "alias"@) is None {
        "missing field alias"@
    } else {
        "missing field scabbard_admin_keys"@
    }
}

/// Why a proposal's embedded metadata could not be used.
#[derive(Clone, Debug, PartialEq)]
pub enum ApplicationMetadataError {
    /// The bytes are not a JSON object with the required fields.
    UnableToParse(String),
}

impl ApplicationMetadataError {
    /// The failure text, for logging by the caller.
    pub fn message(&self) -> (r: String)
        ensures
            self matches ApplicationMetadataError::UnableToParse(t) ==> r@ == t@,
    {
        match self {
            ApplicationMetadataError::UnableToParse(t) => t.clone(),
        }
    }
}

impl ApplicationMetadata {
    /// Builds metadata from its two fields.
    pub fn new(alias: String, scabbard_admin_keys: Vec<String>) -> (m: ApplicationMetadata)
        ensures
            m.alias == alias,
            m.scabbard_admin_keys == scabbard_admin_keys,
    {
        ApplicationMetadata { alias, scabbard_admin_keys }
    }

    /// The circuit's display alias; its absence is a fatal parse error for
    /// the proposal, so every successfully parsed metadata value has one.
    pub fn alias(&self) -> (r: &String)
        ensures
            r == &self.alias,
    {
        &self.alias
    }

    /// The administrator public keys for the contract deployment.
    pub fn scabbard_admin_keys(&self) -> (r: &Vec<String>)
        ensures
            r == &self.scabbard_admin_keys,
    {
        &self.scabbard_admin_keys
    }

    /// Decodes metadata bytes: succeeds exactly when the bytes hold a
    /// string `alias` and an all-string `scabbard_admin_keys` array, and
    /// then carries exactly those values; otherwise names the first field
    /// that cannot be read.
    pub fn from_bytes(bytes: &[u8]) -> (r: Result<ApplicationMetadata, ApplicationMetadataError>)
        ensures
            r is Ok <==> spec_metadata_ok(bytes@),
            r matches Ok(m) ==> m.alias@ == spec_metadata_alias(bytes@)
                && m.scabbard_admin_keys.deep_view() == spec_metadata_keys(bytes@),
            r matches Err(e) ==> (e matches ApplicationMetadataError::UnableToParse(t) && t@
                == spec_metadata_error_text(bytes@)),
    {
        proof {
            reveal_strlit("missing field ");
            reveal_strlit("alias");
            reveal_strlit("scabbard_admin_keys");
            reveal_strlit("missing field alias");
            reveal_strlit("missing field scabbard_admin_keys");
            assert("missing field "@ + "alias"@ =~= "missing field alias"@);
            assert("missing field "@ + "scabbard_admin_keys"@
                =~= "missing field scabbard_admin_keys"@);
        }
        let alias = match json_str_member(bytes, "alias") {
            Some(s) => s,
            None => {
                return Err(missing_field_error("alias"));
            },
        };
        let scabbard_admin_keys = match json_str_array_member(bytes, "scabbard_admin_keys") {
            Some(v) => v,
            None => {
                return Err(missing_field_error("scabbard_admin_keys"));
            },
        };
        Ok(ApplicationMetadata { alias, scabbard_admin_keys })
    }
}

/// The parse-failure text for a field that is absent or of the wrong shape.
fn missing_field_error(field: &str) -> (r: ApplicationMetadataError)
    ensures
        r matches ApplicationMetadataError::UnableToParse(t) && t@ == "missing field "@
            + field@,
{
    ApplicationMetadataError::UnableToParse(String::from_str("missing field ").concat(field))
}

} // verus!
