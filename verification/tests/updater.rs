use promriak::cache::CacheRead;
use promriak::config::InstanceConfig;
use promriak::registry::Instance;
use promriak::stats::{StatValue, Stats};
use promriak::updater::{
    do_update, next_action, prepare_update, process_stats, Action, Event, Outcome, Update,
    FETCH_TIMEOUT,
};

fn descriptor() -> InstanceConfig {
    InstanceConfig {
        id: "local".to_string(),
        endpoint: "http://127.0.0.1:8098/stats".to_string(),
        scrape_interval: Some(2500),
        stale_threshold: Some(20_000),
        prefix: Some("riak_".to_string()),
        metrics: None,
        special_metrics: Some(true),
    }
}

fn served(instance: &Instance, now: u64) -> Option<Vec<u8>> {
    match instance.read(now) {
        CacheRead::Fresh(bytes) => Some(bytes),
        _ => None,
    }
}

#[test]
fn the_updater_polls_at_the_start_and_after_each_sleep() {
    assert_eq!(next_action(&descriptor(), Event::Started), Action::Poll);
    assert_eq!(next_action(&descriptor(), Event::Slept), Action::Poll);
}

#[test]
fn the_updater_sleeps_the_scrape_interval_however_the_cycle_ended() {
    for outcome in [Outcome::Updated, Outcome::FetchFailed, Outcome::DecodeFailed] {
        assert_eq!(
            next_action(&descriptor(), Event::Polled(outcome)),
            Action::Sleep { millis: 2500 }
        );
    }
    let mut quick = descriptor();
    quick.scrape_interval = Some(1);
    assert_eq!(
        next_action(&quick, Event::Polled(Outcome::FetchFailed)),
        Action::Sleep { millis: 1 }
    );
}

#[test]
fn a_response_is_rendered() {
    let update = prepare_update(&descriptor(), Some(&br#"{"vnode_gets":10}"#[..]));
    assert_eq!(update.outcome(), Outcome::Updated);
    match update {
        Update::Rendered(bytes) => {
            assert_eq!(bytes, b"# TYPE riak_vnode_gets gauge\nriak_vnode_gets 10\n\n".to_vec())
        }
        other => panic!("not rendered: {:?}", other),
    }
}

#[test]
fn a_failed_fetch_and_a_body_that_is_no_json_object_give_nothing() {
    let update = prepare_update(&descriptor(), None);
    assert!(matches!(update, Update::FetchFailed));
    assert_eq!(update.outcome(), Outcome::FetchFailed);
    let update = prepare_update(&descriptor(), Some(&b"<html>busy</html>"[..]));
    assert_eq!(update.outcome(), Outcome::DecodeFailed);
    match update {
        Update::DecodeFailed(error) => assert!(!error.message.is_empty()),
        other => panic!("decoded: {:?}", other),
    }
    let update = prepare_update(&descriptor(), Some(&b"[1,2]"[..]));
    assert_eq!(update.outcome(), Outcome::DecodeFailed);
}

#[test]
fn process_stats_stores_the_rendering_with_its_time() {
    let mut instance = Instance::new(descriptor());
    let mut stats = Stats::new();
    stats.insert("a".to_string(), StatValue::Number("1".to_string()));
    process_stats(&stats, &mut instance, 42);
    assert_eq!(instance.cache().last_update(), Some(42));
    assert_eq!(served(&instance, 42), Some(b"# TYPE riak_a gauge\nriak_a 1\n\n".to_vec()));
    assert_eq!(instance.config().id, "local");
}

#[test]
fn process_stats_stores_an_empty_rendering_too() {
    let mut instance = Instance::new(descriptor());
    process_stats(&Stats::new(), &mut instance, 3);
    assert_eq!(instance.cache().last_update(), Some(3));
    assert_eq!(served(&instance, 3), Some(Vec::new()));
}

#[test]
fn an_update_replaces_the_cached_rendering() {
    let mut instance = Instance::new(descriptor());
    assert_eq!(do_update(&mut instance, Some(&br#"{"a":1}"#[..]), 10), Outcome::Updated);
    assert_eq!(served(&instance, 10), Some(b"# TYPE riak_a gauge\nriak_a 1\n\n".to_vec()));
    assert_eq!(do_update(&mut instance, Some(&br#"{"a":2.5}"#[..]), 20), Outcome::Updated);
    assert_eq!(instance.cache().last_update(), Some(20));
    assert_eq!(served(&instance, 20), Some(b"# TYPE riak_a gauge\nriak_a 2.5\n\n".to_vec()));
}

#[test]
fn a_failed_cycle_keeps_what_was_cached() {
    let mut instance = Instance::new(descriptor());
    assert_eq!(do_update(&mut instance, None, 5), Outcome::FetchFailed);
    assert!(instance.cache().last_update().is_none());
    assert_eq!(do_update(&mut instance, Some(&br#"{"a":1}"#[..]), 10), Outcome::Updated);
    assert_eq!(do_update(&mut instance, None, 20), Outcome::FetchFailed);
    assert_eq!(do_update(&mut instance, Some(&b"not json"[..]), 30), Outcome::DecodeFailed);
    assert_eq!(instance.cache().last_update(), Some(10));
    assert_eq!(served(&instance, 30), Some(b"# TYPE riak_a gauge\nriak_a 1\n\n".to_vec()));
}

#[test]
fn a_cached_rendering_that_is_not_renewed_grows_stale() {
    let mut instance = Instance::new(descriptor());
    assert_eq!(do_update(&mut instance, Some(&br#"{"a":1}"#[..]), 0), Outcome::Updated);
    assert_eq!(do_update(&mut instance, None, 19_999_000_000), Outcome::FetchFailed);
    assert!(served(&instance, 19_999_000_000).is_some());
    assert_eq!(do_update(&mut instance, None, 20_000_000_000), Outcome::FetchFailed);
    assert!(matches!(instance.read(20_000_000_000), CacheRead::Stale { age: 20_000_000_000 }));
}

#[test]
fn a_fetch_is_given_up_after_five_seconds() {
    assert_eq!(FETCH_TIMEOUT, 5000);
}
