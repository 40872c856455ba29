use promriak::cache::CacheRead;
use promriak::config::{
    bind_address_default, process_instances, tracing_level_default, Config, InstanceConfig,
};
use promriak::registry::{make_endpoints, Instance, Instances};

fn descriptor(id: &str, endpoint: &str) -> InstanceConfig {
    InstanceConfig {
        id: id.to_string(),
        endpoint: endpoint.to_string(),
        scrape_interval: Some(2500),
        stale_threshold: Some(20_000),
        prefix: Some("riak_".to_string()),
        metrics: None,
        special_metrics: Some(true),
    }
}

fn config_of(instances: Vec<InstanceConfig>) -> Config {
    Config {
        tracing_level: tracing_level_default(),
        bind_address: bind_address_default(),
        listener_port: 9198,
        scrape_interval: 2500,
        stale_threshold: 20_000,
        prefix: "riak_".to_string(),
        instances,
        metrics: None,
        special_metrics: true,
    }
}

#[test]
fn a_new_instance_was_never_written() {
    let instance = Instance::new(descriptor("a", "http://a/stats"));
    assert_eq!(instance.config().id, "a");
    assert_eq!(instance.stale_threshold(), 20_000);
    assert_eq!(instance.scrape_interval(), 2500);
    assert!(instance.cache().last_update().is_none());
    assert!(matches!(instance.read(0), CacheRead::Empty));
}

#[test]
fn an_instance_reads_under_its_own_threshold() {
    let mut config = descriptor("a", "http://a/stats");
    config.stale_threshold = Some(1);
    let mut instance = Instance::new(config);
    instance.store(0, b"x".to_vec());
    assert!(matches!(instance.read(999_999), CacheRead::Fresh(_)));
    assert!(matches!(instance.read(1_000_000), CacheRead::Stale { age: 1_000_000 }));
    assert_eq!(instance.config().id, "a");
    let (config, cell) = instance.into_parts();
    assert_eq!(config.endpoint, "http://a/stats");
    assert_eq!(cell.last_update(), Some(0));
}

#[test]
fn each_descriptor_gets_an_instance() {
    let config = config_of(vec![descriptor("a", "http://a/stats"), descriptor("b", "http://b/stats")]);
    let instances = make_endpoints(&config);
    assert_eq!(instances.len(), 2);
    assert_eq!(instances.get("a").unwrap().config().endpoint, "http://a/stats");
    assert_eq!(instances.get("b").unwrap().config().endpoint, "http://b/stats");
    assert!(instances.get("c").is_none());
    assert!(instances.get("").is_none());
    assert!(instances.get("a").unwrap().cache().last_update().is_none());
}

#[test]
fn a_later_descriptor_replaces_an_earlier_one_with_the_same_id() {
    let config = config_of(vec![
        descriptor("a", "http://first/stats"),
        descriptor("b", "http://b/stats"),
        descriptor("a", "http://second/stats"),
    ]);
    let instances = make_endpoints(&config);
    assert_eq!(instances.len(), 2);
    assert_eq!(instances.get("a").unwrap().config().endpoint, "http://second/stats");
    assert_eq!(instances.get("b").unwrap().config().endpoint, "http://b/stats");
}

#[test]
fn no_descriptor_no_instance() {
    let instances = make_endpoints(&config_of(vec![]));
    assert_eq!(instances.len(), 0);
    assert!(instances.get("local").is_none());
}

#[test]
fn the_default_configuration_has_the_local_instance() {
    let mut config = config_of(promriak::config::instances_default());
    process_instances(&mut config);
    let instances = make_endpoints(&config);
    assert_eq!(instances.len(), 1);
    assert_eq!(instances.position("local"), Some(0));
    assert_eq!(instances.entry(0).config().endpoint, "http://127.0.0.1:8098/stats");
}

#[test]
fn insert_replaces_the_instance_of_a_known_id() {
    let mut instances = Instances::new();
    let mut first = Instance::new(descriptor("a", "http://a/stats"));
    first.store(1, b"first".to_vec());
    instances.insert(first);
    instances.insert(Instance::new(descriptor("b", "http://b/stats")));
    instances.insert(Instance::new(descriptor("a", "http://other/stats")));
    assert_eq!(instances.len(), 2);
    assert_eq!(instances.position("a"), Some(0));
    assert_eq!(instances.position("b"), Some(1));
    assert_eq!(instances.get("a").unwrap().config().endpoint, "http://other/stats");
    assert!(instances.get("a").unwrap().cache().last_update().is_none());
}

#[test]
fn store_writes_the_cell_of_the_named_instance_only() {
    let mut instances = Instances::new();
    instances.insert(Instance::new(descriptor("a", "http://a/stats")));
    instances.insert(Instance::new(descriptor("b", "http://b/stats")));
    assert!(instances.store("b", 7, b"bytes".to_vec()));
    assert!(!instances.store("c", 8, b"lost".to_vec()));
    assert_eq!(instances.len(), 2);
    assert!(instances.get("a").unwrap().cache().last_update().is_none());
    assert_eq!(instances.get("b").unwrap().cache().last_update(), Some(7));
    assert_eq!(instances.get("b").unwrap().config().endpoint, "http://b/stats");
    let entries = instances.into_entries();
    assert_eq!(entries.len(), 2);
    assert_eq!(entries[0].config().id, "a");
    assert_eq!(entries[1].config().id, "b");
}
