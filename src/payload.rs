use crate::version::{is_version_text, version_of, Version};
use vstd::prelude::*;

verus! {

/// `doc` is a well-formed JSON document.
pub uninterp spec fn json_valid(doc: Seq<u8>) -> bool;

/// The member `key` of the JSON document `doc`: `None` where `doc` is not an
/// object or has no such member, `Some(None)` where the member is not a
/// string, `Some(Some(s))` where it is the string `s`.
pub uninterp spec fn json_member_text(doc: Seq<u8>, key: Seq<char>) -> Option<Option<Seq<char>>>;

/// Relies on serde_json::from_slice, to read `doc` as a serde_json::Value, and
/// on Value::get and Value::as_str, to find the string under `key`.
#[verifier::external_body]
fn json_member(doc: &[u8], key: &str) -> (r: Option<Option<Option<String>>>)
    ensures
        r is Some <==> json_valid(doc@),
        r matches Some(m) ==> m.deep_view() == json_member_text(doc@, key@),
{
    match serde_json::from_slice::<serde_json::Value>(doc) {
        Ok(v) => match v.get(key) {
            None => Some(None),
            Some(m) => match m.as_str() {
                Some(s) => Some(Some(Some(s.to_string()))),
                None => Some(Some(None)),
            },
        },
        Err(_) => None,
    }
}

/// Why a payload names no version.
#[derive(Debug, PartialEq, Eq, Structural)]
pub enum PayloadError {
    /// The payload is not JSON.
    NotJson,
    /// Neither `version` nor `name` is a member of it.
    MissingVersion,
    /// The member that holds the version is not a string.
    VersionNotText,
    /// The string is not a semantic version.
    InvalidVersion,
}

/// The text under `version`, or under `name` where `version` is absent.
pub open spec fn payload_field(doc: Seq<u8>) -> Option<Option<Seq<char>>> {
    match json_member_text(doc, "version"@) {
        Some(m) => Some(m),
        None => json_member_text(doc, "name"@),
    }
}

/// What reading a version payload gives, by the contents of the payload.
pub open spec fn payload_outcome(doc: Seq<u8>) -> Result<crate::version::SemVer, PayloadError> {
    if !json_valid(doc) {
        Err(PayloadError::NotJson)
    } else {
        match payload_field(doc) {
            None => Err(PayloadError::MissingVersion),
            Some(None) => Err(PayloadError::VersionNotText),
            Some(Some(t)) => if is_version_text(t) {
                Ok(version_of(t))
            } else {
                Err(PayloadError::InvalidVersion)
            },
        }
    }
}

/// Reads the version that a JSON payload names under `version` (or, failing
/// that, under `name`).
pub fn parse_version_payload(doc: &[u8]) -> (r: Result<Version, PayloadError>)
    ensures
        match (r, payload_outcome(doc@)) {
            (Ok(v), Ok(w)) => v@ == w && v.valid(),
            (Err(e), Err(f)) => e == f,
            _ => false,
        },
{
    let found = match json_member(doc, "version") {
        None => return Err(PayloadError::NotJson),
        Some(Some(m)) => Some(m),
        Some(None) => match json_member(doc, "name") {
            Some(m) => m,
            None => return Err(PayloadError::NotJson),
        },
    };
    match found {
        None => Err(PayloadError::MissingVersion),
        Some(None) => Err(PayloadError::VersionNotText),
        Some(Some(t)) => match Version::parse(t.as_str()) {
            Ok(v) => Ok(v),
            Err(_) => Err(PayloadError::InvalidVersion),
        },
    }
}

} // verus!
