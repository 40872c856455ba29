use promriak::cache::NANOS_PER_MILLI;
use promriak::config::{bind_address_default, tracing_level_default, Config, InstanceConfig};
use promriak::registry::{make_endpoints, Instance};
use promriak::server::{health, lookup, stats, AppState, Lookup, STATUS_NOT_FOUND, STATUS_OK};

fn descriptor(id: &str, stale_threshold: u64) -> InstanceConfig {
    InstanceConfig {
        id: id.to_string(),
        endpoint: format!("http://{}/stats", id),
        scrape_interval: Some(2500),
        stale_threshold: Some(stale_threshold),
        prefix: Some("riak_".to_string()),
        metrics: None,
        special_metrics: Some(true),
    }
}

fn state_of(instances: Vec<InstanceConfig>) -> AppState {
    let config = Config {
        tracing_level: tracing_level_default(),
        bind_address: bind_address_default(),
        listener_port: 9198,
        scrape_interval: 2500,
        stale_threshold: 20_000,
        prefix: "riak_".to_string(),
        instances,
        metrics: None,
        special_metrics: true,
    };
    let instances = make_endpoints(&config);
    AppState { config, instances }
}

#[test]
fn health_succeeds() {
    assert_eq!(health(), 200);
    assert_eq!(health(), STATUS_OK);
}

#[test]
fn health_succeeds_before_any_update_and_after() {
    let mut state = state_of(vec![descriptor("a", 20_000)]);
    assert_eq!(health(), 200);
    state.instances.store("a", 0, b"x".to_vec());
    assert_eq!(health(), 200);
    let _ = stats(&state, "a", u64::MAX);
    assert_eq!(health(), 200);
}

#[test]
fn an_unknown_id_is_not_found() {
    let mut state = state_of(vec![descriptor("a", 20_000), descriptor("b", 20_000)]);
    let reply = stats(&state, "c", 0);
    assert_eq!(reply.status, 404);
    assert!(reply.body.is_empty());
    state.instances.store("a", 0, b"a".to_vec());
    state.instances.store("b", 0, b"b".to_vec());
    let reply = stats(&state, "c", 1);
    assert_eq!(reply.status, STATUS_NOT_FOUND);
    assert!(reply.body.is_empty());
    let reply = stats(&state, "", 1);
    assert_eq!(reply.status, 404);
    let reply = stats(&state, "A", 1);
    assert_eq!(reply.status, 404);
}

#[test]
fn an_instance_that_was_never_rendered_is_not_found() {
    let state = state_of(vec![descriptor("a", 20_000)]);
    let reply = stats(&state, "a", 0);
    assert_eq!(reply.status, 404);
    assert!(reply.body.is_empty());
}

#[test]
fn a_fresh_snapshot_is_served() {
    let mut state = state_of(vec![descriptor("a", 20_000), descriptor("b", 20_000)]);
    state.instances.store("a", 1_000, b"# TYPE riak_x gauge\nriak_x 1\n\n".to_vec());
    let reply = stats(&state, "a", 1_000 + 19_999 * NANOS_PER_MILLI);
    assert_eq!(reply.status, 200);
    assert_eq!(reply.body, b"# TYPE riak_x gauge\nriak_x 1\n\n".to_vec());
    let other = stats(&state, "b", 1_000);
    assert_eq!(other.status, 404);
}

#[test]
fn a_stale_snapshot_is_not_found() {
    let mut state = state_of(vec![descriptor("a", 20_000)]);
    state.instances.store("a", 1_000, b"bytes".to_vec());
    let reply = stats(&state, "a", 1_000 + 20_000 * NANOS_PER_MILLI);
    assert_eq!(reply.status, 404);
    assert!(reply.body.is_empty());
    let reply = stats(&state, "a", 1_000 + 60_000 * NANOS_PER_MILLI);
    assert_eq!(reply.status, 404);
    assert!(reply.body.is_empty());
}

#[test]
fn a_new_write_makes_a_stale_instance_fresh_again() {
    let mut state = state_of(vec![descriptor("a", 10)]);
    state.instances.store("a", 0, b"old".to_vec());
    assert_eq!(stats(&state, "a", 10 * NANOS_PER_MILLI).status, 404);
    state.instances.store("a", 10 * NANOS_PER_MILLI, b"new".to_vec());
    let reply = stats(&state, "a", 10 * NANOS_PER_MILLI);
    assert_eq!(reply.status, 200);
    assert_eq!(reply.body, b"new".to_vec());
}

#[test]
fn lookup_tells_the_misses_apart() {
    assert!(matches!(lookup(None, 0), Lookup::UnknownInstance));
    let mut instance = Instance::new(descriptor("a", 5));
    assert!(matches!(lookup(Some(&instance), 0), Lookup::NeverWritten));
    instance.store(0, b"x".to_vec());
    assert!(matches!(lookup(Some(&instance), 4_999_999), Lookup::Served(_)));
    assert!(matches!(
        lookup(Some(&instance), 5_000_000),
        Lookup::Stale { age: 5_000_000, stale_threshold: 5 }
    ));
}

#[test]
fn every_miss_is_answered_alike() {
    for miss in [
        Lookup::UnknownInstance,
        Lookup::NeverWritten,
        Lookup::Stale { age: 7, stale_threshold: 1 },
    ] {
        let reply = miss.into_reply();
        assert_eq!(reply.status, 404);
        assert!(reply.body.is_empty());
    }
    let reply = Lookup::Served(b"body".to_vec()).into_reply();
    assert_eq!(reply.status, 200);
    assert_eq!(reply.body, b"body".to_vec());
}
