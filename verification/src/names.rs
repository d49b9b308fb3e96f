use vstd::prelude::*;

verus! {

/// A service-scoped endpoint identifier: the unique key under which an API
/// handler is registered. Name equality is exact string equality; names are
/// never normalized.
#[derive(Debug)]
pub struct EndpointName {
    pub service: String,
    pub endpoint: String,
}

impl EndpointName {
    pub fn new(service: String, endpoint: String) -> (n: EndpointName)
        ensures
            n.service@ == service@,
            n.endpoint@ == endpoint@,
    {
        EndpointName { service, endpoint }
    }
}

/// A (topic, subscription) pair: the unique key under which a declared
/// pub/sub subscription is looked up.
pub struct SubName {
    pub topic: String,
    pub subscription: String,
}

impl SubName {
    pub fn new(topic: String, subscription: String) -> (n: SubName)
        ensures
            n.topic@ == topic@,
            n.subscription@ == subscription@,
    {
        SubName { topic, subscription }
    }
}

} // verus!
