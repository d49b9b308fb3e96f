use crate::names::EndpointName;
use vstd::prelude::*;

verus! {

/// Core construction failed. The cause is remembered as a message; for the
/// process-wide runtime the same failure is re-surfaced to every later
/// caller rather than retried.
#[derive(Debug)]
pub struct InitError {
    pub message: String,
}

/// A named topic or a declared (topic, subscription) pair was looked up and
/// is not part of the service's topology. Lookups never create state
/// implicitly.
#[derive(Debug)]
pub enum LookupError {
    TopicNotFound,
    SubscriptionNotFound,
}

/// The core rejected a handler registration: the endpoint key is already
/// taken. The first registration remains active.
#[derive(Debug)]
pub enum RegistrationError {
    DuplicateEndpoint(EndpointName),
}

/// An outbound call failed. The host-side cause, when there is one, is
/// wrapped as a plain message; no structured classification is exposed past
/// this layer.
#[derive(Debug)]
pub enum CallError {
    NoActiveServer,
    EndpointNotFound,
    HandlerFailure(String),
}

} // verus!
