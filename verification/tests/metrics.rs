use carbon_core::error::Error;
use carbon_core::metrics::{MetricKind, MetricsCollection};

#[test]
fn a_new_collection_is_empty() {
    let metrics = MetricsCollection::new();
    assert_eq!(metrics.len(), 0);
    assert_eq!(metrics.read("anything"), None);
    assert_eq!(metrics.kind_of("anything"), None);
    assert!(metrics.snapshot().is_empty());
}

#[test]
fn a_metric_is_registered_once() {
    let mut metrics = MetricsCollection::new();
    assert_eq!(metrics.register("hits", MetricKind::Counter), Ok(()));
    assert_eq!(
        metrics.register("hits", MetricKind::Counter),
        Err(Error::MetricAlreadyRegistered("hits".to_string()))
    );
    assert_eq!(
        metrics.register("hits", MetricKind::Gauge),
        Err(Error::MetricAlreadyRegistered("hits".to_string()))
    );
    assert_eq!(metrics.len(), 1);
    assert_eq!(metrics.kind_of("hits"), Some(MetricKind::Counter));
    assert_eq!(metrics.read("hits"), Some(0));
}

#[test]
fn a_counter_adds_up() {
    let mut metrics = MetricsCollection::new();
    metrics.register("hits", MetricKind::Counter).unwrap();
    assert_eq!(metrics.increment_counter("hits", 2), Ok(()));
    assert_eq!(metrics.increment_counter("hits", 5), Ok(()));
    assert_eq!(metrics.increment_counter("hits", 0), Ok(()));
    assert_eq!(metrics.read("hits"), Some(7));
}

#[test]
fn a_counter_wraps_around() {
    let mut metrics = MetricsCollection::new();
    metrics.register("hits", MetricKind::Counter).unwrap();
    metrics.increment_counter("hits", u64::MAX).unwrap();
    metrics.increment_counter("hits", 3).unwrap();
    assert_eq!(metrics.read("hits"), Some(2));
}

#[test]
fn a_gauge_holds_the_last_value() {
    let mut metrics = MetricsCollection::new();
    metrics.register("queue", MetricKind::Gauge).unwrap();
    assert_eq!(metrics.update_gauge("queue", 9), Ok(()));
    assert_eq!(metrics.update_gauge("queue", 4), Ok(()));
    assert_eq!(metrics.read("queue"), Some(4));
}

#[test]
fn an_update_of_an_unknown_metric_fails() {
    let mut metrics = MetricsCollection::new();
    metrics.register("hits", MetricKind::Counter).unwrap();
    metrics.register("queue", MetricKind::Gauge).unwrap();
    assert_eq!(
        metrics.increment_counter("misses", 1),
        Err(Error::MetricNotRegistered("misses".to_string()))
    );
    assert_eq!(
        metrics.update_gauge("depth", 1),
        Err(Error::MetricNotRegistered("depth".to_string()))
    );
    assert_eq!(
        metrics.increment_counter("queue", 1),
        Err(Error::MetricNotRegistered("queue".to_string()))
    );
    assert_eq!(
        metrics.update_gauge("hits", 1),
        Err(Error::MetricNotRegistered("hits".to_string()))
    );
    assert_eq!(metrics.read("hits"), Some(0));
    assert_eq!(metrics.read("queue"), Some(0));
}

#[test]
fn metrics_do_not_disturb_each_other() {
    let mut metrics = MetricsCollection::new();
    metrics.register("a", MetricKind::Counter).unwrap();
    metrics.register("b", MetricKind::Counter).unwrap();
    metrics.register("c", MetricKind::Gauge).unwrap();
    metrics.increment_counter("a", 1).unwrap();
    metrics.increment_counter("b", 10).unwrap();
    metrics.update_gauge("c", 100).unwrap();
    metrics.increment_counter("a", 1).unwrap();
    assert_eq!(metrics.read("a"), Some(2));
    assert_eq!(metrics.read("b"), Some(10));
    assert_eq!(metrics.read("c"), Some(100));
}

#[test]
fn a_snapshot_lists_the_metrics_in_the_order_of_registration() {
    let mut metrics = MetricsCollection::new();
    metrics.register("zeta", MetricKind::Counter).unwrap();
    metrics.register("alpha", MetricKind::Gauge).unwrap();
    metrics.increment_counter("zeta", 3).unwrap();
    metrics.update_gauge("alpha", 8).unwrap();
    assert_eq!(
        metrics.snapshot(),
        vec![("zeta".to_string(), 3), ("alpha".to_string(), 8)]
    );
}

#[test]
fn a_shared_collection_takes_updates_from_every_handle() {
    let mut metrics = MetricsCollection::new();
    metrics.register("hits", MetricKind::Counter).unwrap();
    let shared = std::sync::Arc::new(metrics);
    let one = shared.clone();
    let other = shared.clone();
    one.increment_counter("hits", 1).unwrap();
    other.increment_counter("hits", 2).unwrap();
    assert_eq!(shared.read("hits"), Some(3));
}
