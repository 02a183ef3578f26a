use kafka_dashboard::config::lookup;
use kafka_dashboard::config::resolve_config;
use kafka_dashboard::config::KafkaConfig;
use kafka_dashboard::errors::DashboardError;

fn entry(name: &str, broker: &str) -> KafkaConfig {
    KafkaConfig { name: name.to_string(), broker: broker.to_string() }
}

#[test]
fn getters_expose_the_fields() {
    let c = entry("local", "localhost:9092");
    assert_eq!(c.name().as_str(), "local");
    assert_eq!(c.broker().as_str(), "localhost:9092");
}

#[test]
fn lookup_finds_the_named_entry() {
    let configs = vec![entry("a", "h1:9092"), entry("b", "h2:9092")];
    let c = lookup(&configs, &"b".to_string()).unwrap();
    assert_eq!(c.name, "b");
    assert_eq!(c.broker, "h2:9092");
}

#[test]
fn lookup_misses_when_no_entry_matches() {
    let configs = vec![entry("a", "h1:9092")];
    assert!(lookup(&configs, &"z".to_string()).is_none());
}

#[test]
fn lookup_takes_the_first_of_equal_names() {
    let configs = vec![entry("a", "first"), entry("a", "second")];
    let c = lookup(&configs, &"a".to_string()).unwrap();
    assert_eq!(c.broker, "first");
}

#[test]
fn unreadable_store_is_fatal() {
    let r = resolve_config(None, &"a".to_string());
    assert_eq!(r.unwrap_err(), DashboardError::ConfigUnreadable);
}

#[test]
fn missing_entry_is_fatal() {
    let r = resolve_config(Some(vec![entry("a", "h1:9092")]), &"b".to_string());
    assert_eq!(r.unwrap_err(), DashboardError::ConfigNotFound);
}

#[test]
fn present_entry_resolves() {
    let r = resolve_config(Some(vec![entry("a", "h1:9092")]), &"a".to_string());
    let c = r.unwrap();
    assert_eq!(c.broker, "h1:9092");
}
