use encore_bridge::accessors::APIRoute;
use encore_bridge::core_state::{ApiServer, AppMeta, CoreState};
use encore_bridge::errors::{CallError, RegistrationError};
use encore_bridge::lifecycle::obtain_test;
use encore_bridge::payload::JSONPayload;
use encore_bridge::runtime::Runtime;

fn registration_core(with_server: bool) -> CoreState {
    CoreState {
        test_mode: true,
        api_server: if with_server { Some(ApiServer { routes: Vec::new() }) } else { None },
        topics: Vec::new(),
        subscriptions: Vec::new(),
        gateways: Vec::new(),
        secrets: Vec::new(),
        meta: AppMeta {
            app_id: "demo".to_string(),
            api_base_url: "http://localhost:4000".to_string(),
        },
        version: "1.0.0".to_string(),
        build_commit: "0000000".to_string(),
    }
}

fn registration_runtime(with_server: bool) -> Runtime {
    obtain_test(Ok(registration_core(with_server))).expect("construction succeeds")
}

fn route(service: &str, name: &str, handler: u64) -> APIRoute {
    APIRoute { service: service.to_string(), name: name.to_string(), handler, raw: false }
}

#[test]
fn duplicate_registration_rejected_first_stays_active() {
    let mut rt = registration_runtime(true);
    rt.register_handler(route("orders", "create", 1)).expect("fresh key");
    let second = rt.register_handler(route("orders", "create", 2));
    let err = second.expect_err("duplicate key");
    let RegistrationError::DuplicateEndpoint(key) = err;
    assert_eq!(key.service, "orders");
    assert_eq!(key.endpoint, "create");
    // The first registration remains active: the endpoint still delivers
    // to handler 1.
    rt.api_call("orders".to_string(), "create".to_string(), JSONPayload::Absent, None)
        .expect("registered endpoint");
    let inv = rt.take_invocation().expect("one invocation queued");
    assert_eq!(inv.handler, 1);
}

#[test]
fn same_key_in_different_services_is_fresh() {
    let mut rt = registration_runtime(true);
    assert!(rt.register_handler(route("orders", "create", 1)).is_ok());
    assert!(rt.register_handler(route("billing", "create", 2)).is_ok());
    assert!(rt.register_handler(route("orders", "delete", 3)).is_ok());
}

#[test]
fn no_server_registration_is_accepted_and_inert() {
    let mut rt = registration_runtime(false);
    let r = rt.register_handler(route("orders", "create", 1));
    assert!(r.is_ok());
    // The accepted handler is never invoked: nothing can be delivered.
    let call = rt.api_call("orders".to_string(), "create".to_string(), JSONPayload::Absent, None);
    assert!(matches!(call, Err(CallError::NoActiveServer)));
    assert!(rt.take_invocation().is_none());
}

#[test]
fn register_test_handler_is_identical_to_register_handler() {
    let mut rt = registration_runtime(true);
    rt.register_test_handler(route("orders", "create", 1)).expect("fresh key");
    let dup = rt.register_handler(route("orders", "create", 2));
    assert!(dup.is_err());
    let dup2 = rt.register_test_handler(route("orders", "create", 3));
    assert!(dup2.is_err());
}

#[test]
fn register_handlers_registers_all_in_order() {
    let mut rt = registration_runtime(true);
    let batch = vec![
        route("orders", "create", 1),
        route("orders", "list", 2),
        route("billing", "charge", 3),
    ];
    rt.register_handlers(batch).expect("all keys fresh");
    rt.api_call("billing".to_string(), "charge".to_string(), JSONPayload::Absent, None)
        .expect("registered endpoint");
    let inv = rt.take_invocation().expect("queued");
    assert_eq!(inv.handler, 3);
}

#[test]
fn register_handlers_stops_at_first_failure_keeping_prior() {
    let mut rt = registration_runtime(true);
    let batch = vec![
        route("orders", "create", 1),
        route("orders", "list", 2),
        route("orders", "create", 9),
        route("billing", "charge", 4),
    ];
    let r = rt.register_handlers(batch);
    assert!(r.is_err());
    // Prior successful registrations stay in place.
    assert!(rt
        .api_call("orders".to_string(), "list".to_string(), JSONPayload::Absent, None)
        .is_ok());
    // The route after the failure was never registered.
    let call = rt.api_call("billing".to_string(), "charge".to_string(), JSONPayload::Absent, None);
    assert!(matches!(call, Err(CallError::EndpointNotFound)));
}
