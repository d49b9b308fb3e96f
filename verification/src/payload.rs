use vstd::prelude::*;

verus! {

/// Relies on serde_json::Value as the structured-value representation that
/// crosses the boundary. The bridge never builds or inspects one: values are
/// carried through unchanged, so structure and numeric precision are
/// preserved by identity.
#[verifier::external_type_specification]
#[verifier::external_body]
pub struct ExJsonValue(serde_json::Value);

/// The body of a request, response or message as it crosses the boundary:
/// absent, a structured value, or raw bytes, depending on the handler's
/// calling convention.
pub enum JSONPayload {
    Absent,
    Structured(serde_json::Value),
    Raw(Vec<u8>),
}

} // verus!
