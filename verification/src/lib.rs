//! Bridge between a single-threaded, callback-driven host and a compiled
//! backend-service runtime core.
//!
//! The bridge owns orchestration and hand-off only: exactly-once creation of
//! the shared runtime (with a distinct path for test execution), wrapping of
//! host callbacks into handler records the core can invoke, lookup of the
//! core's declared topics, subscriptions, gateways and secrets, and the
//! marshalling of calls across the boundary between the core's concurrent
//! execution contexts and the host's single-threaded scheduler.

pub mod accessors;
pub mod core_state;
pub mod errors;
pub mod laws;
pub mod lifecycle;
pub mod names;
pub mod payload;
pub mod runtime;
