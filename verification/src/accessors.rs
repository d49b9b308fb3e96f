use crate::core_state::HandlerId;
use crate::names::SubName;
use vstd::prelude::*;

verus! {

/// A handle to a named database in the core's registry. Handed out for any
/// name; an unknown name surfaces a failure later, on use, from the core.
pub struct SQLDatabase {
    pub name: String,
}

/// A handle to a declared pub/sub topic.
pub struct PubSubTopic {
    pub name: String,
}

/// Configuration supplied when a gateway is wrapped: the host callback that
/// authenticates requests, when the application has one.
pub struct GatewayConfig {
    pub auth_handler: Option<HandlerId>,
}

/// A named gateway wrapped with its configuration. A name with no backing
/// gateway in the core is valid: the object simply has no effective routes.
pub struct Gateway {
    pub name: String,
    pub has_backing: bool,
    pub config: GatewayConfig,
}

/// Configuration supplied when a subscription is wrapped: the key it is
/// looked up under, and the host callback that becomes its message handler.
pub struct PubSubSubscriptionConfig {
    pub topic_name: String,
    pub subscription_name: String,
    pub handler: HandlerId,
}

/// A declared subscription together with its wrapped message handler. Inert
/// from the caller's perspective: the core invokes the handler as messages
/// arrive; nothing here triggers delivery.
pub struct PubSubSubscription {
    pub name: SubName,
    pub handler: HandlerId,
}

/// An opaque handle to a secret value looked up by name.
pub struct Secret {
    pub name: String,
}

/// A stateless accessor to process-wide structured logging.
pub struct Logger {}

/// A host-supplied route: the endpoint key, the host callback reference and
/// its calling convention. Consumed once at registration; not retained.
pub struct APIRoute {
    pub service: String,
    pub name: String,
    pub handler: HandlerId,
    pub raw: bool,
}

} // verus!
