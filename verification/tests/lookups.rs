use encore_bridge::accessors::{GatewayConfig, PubSubSubscriptionConfig};
use encore_bridge::core_state::{ApiServer, AppMeta, CoreState};
use encore_bridge::errors::LookupError;
use encore_bridge::lifecycle::obtain_test;
use encore_bridge::names::SubName;
use encore_bridge::runtime::Runtime;

fn lookups_core() -> CoreState {
    CoreState {
        test_mode: true,
        api_server: Some(ApiServer { routes: Vec::new() }),
        topics: vec!["orders-events".to_string(), "billing-events".to_string()],
        subscriptions: vec![SubName {
            topic: "orders-events".to_string(),
            subscription: "audit".to_string(),
        }],
        gateways: vec!["api".to_string()],
        secrets: vec!["smtp_credentials".to_string()],
        meta: AppMeta {
            app_id: "demo".to_string(),
            api_base_url: "http://localhost:4000".to_string(),
        },
        version: "1.2.3".to_string(),
        build_commit: "abc0123".to_string(),
    }
}

fn lookups_runtime() -> Runtime {
    obtain_test(Ok(lookups_core())).expect("construction succeeds")
}

#[test]
fn declared_topic_is_found() {
    let rt = lookups_runtime();
    let t = rt.pubsub_topic("orders-events".to_string()).expect("declared topic");
    assert_eq!(t.name, "orders-events");
}

#[test]
fn unknown_topic_is_not_found_and_never_created() {
    let rt = lookups_runtime();
    let r = rt.pubsub_topic("unknown".to_string());
    assert!(matches!(r, Err(LookupError::TopicNotFound)));
    // The failed lookup created nothing: the same lookup still fails.
    let again = rt.pubsub_topic("unknown".to_string());
    assert!(matches!(again, Err(LookupError::TopicNotFound)));
}

#[test]
fn declared_subscription_is_wrapped_with_its_handler() {
    let rt = lookups_runtime();
    let cfg = PubSubSubscriptionConfig {
        topic_name: "orders-events".to_string(),
        subscription_name: "audit".to_string(),
        handler: 11,
    };
    let sub = rt.pubsub_subscription(cfg).expect("declared pair");
    assert_eq!(sub.name.topic, "orders-events");
    assert_eq!(sub.name.subscription, "audit");
    assert_eq!(sub.handler, 11);
}

#[test]
fn undeclared_subscription_pair_is_not_found() {
    let rt = lookups_runtime();
    let cfg = PubSubSubscriptionConfig {
        topic_name: "orders-events".to_string(),
        subscription_name: "missing".to_string(),
        handler: 11,
    };
    let r = rt.pubsub_subscription(cfg);
    assert!(matches!(r, Err(LookupError::SubscriptionNotFound)));
    // A declared topic with an undeclared subscription name is still a
    // "not found" failure, not an implicit creation.
    let cfg2 = PubSubSubscriptionConfig {
        topic_name: "billing-events".to_string(),
        subscription_name: "audit".to_string(),
        handler: 12,
    };
    assert!(matches!(rt.pubsub_subscription(cfg2), Err(LookupError::SubscriptionNotFound)));
}

#[test]
fn unconfigured_secret_is_absent_not_an_error() {
    let rt = lookups_runtime();
    assert!(rt.secret("unconfigured".to_string()).is_none());
    let s = rt.secret("smtp_credentials".to_string()).expect("configured secret");
    assert_eq!(s.name, "smtp_credentials");
}

#[test]
fn missing_gateway_is_a_valid_object_without_backing() {
    let rt = lookups_runtime();
    let g = rt.gateway("missing".to_string(), GatewayConfig { auth_handler: Some(5) });
    assert_eq!(g.name, "missing");
    assert!(!g.has_backing);
    assert_eq!(g.config.auth_handler, Some(5));
    let backed = rt.gateway("api".to_string(), GatewayConfig { auth_handler: None });
    assert!(backed.has_backing);
}

#[test]
fn database_handle_for_any_name() {
    let rt = lookups_runtime();
    let db = rt.sql_database("not-declared-anywhere".to_string());
    assert_eq!(db.name, "not-declared-anywhere");
}

#[test]
fn logger_is_stateless_accessor() {
    let rt = lookups_runtime();
    let _ = rt.logger();
}

#[test]
fn version_and_build_commit_come_from_the_core() {
    let rt = lookups_runtime();
    assert_eq!(rt.version(), "1.2.3");
    assert_eq!(rt.build_commit(), "abc0123");
}

#[test]
fn app_meta_is_a_copy_of_the_discovered_metadata() {
    let rt = lookups_runtime();
    let m = rt.app_meta();
    assert_eq!(m.app_id, "demo");
    assert_eq!(m.api_base_url, "http://localhost:4000");
}
