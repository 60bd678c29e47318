use ldk_metrics::export::render_metrics_text;
use ldk_metrics::metrics::Metrics;
use ldk_metrics::metrics::ServiceStatus;
use ldk_metrics::registry::GaugeHandle;
use ldk_metrics::registry::MetricKind;
use ldk_metrics::registry::MetricsError;
use ldk_metrics::registry::Registry;

#[test]
fn test_compute_health_score() {
    // Node is not running
    assert_eq!(Metrics::compute_health_score(false, true, true), 0);
    assert_eq!(Metrics::compute_health_score(false, false, false), 0);

    // Node is running, connected to a peer and wallet is synced
    assert_eq!(Metrics::compute_health_score(true, true, true), 100);

    // Node is running, not connected to a peer but wallet is synced
    assert_eq!(Metrics::compute_health_score(true, false, true), 65);

    // Node is running, connected to a peer but wallet is not synced
    assert_eq!(Metrics::compute_health_score(true, true, false), 75);

    // Node is running, not connected to a peer and wallet is not synced
    assert_eq!(Metrics::compute_health_score(true, false, false), 40);
}

#[test]
fn test_gather_metrics_format() {
    let mut registry = Registry::new();
    let metrics = Metrics::new(&mut registry).unwrap();
    let result = metrics.gather_metrics(&registry);
    assert!(result.is_ok());
    let output = result.unwrap();
    assert!(output.contains("ldk_health_score"));
}

#[test]
fn test_health_score_value_set() {
    let allowed = [0, 40, 65, 75, 100];
    for &is_running in &[false, true] {
        for &has_peers in &[false, true] {
            for &is_synced in &[false, true] {
                let score = Metrics::compute_health_score(is_running, has_peers, is_synced);
                assert!(allowed.contains(&score));
                if !is_running {
                    assert_eq!(score, 0);
                }
            }
        }
    }
}

#[test]
fn test_health_score_idempotent() {
    for &is_running in &[false, true] {
        for &has_peers in &[false, true] {
            for &is_synced in &[false, true] {
                let first = Metrics::compute_health_score(is_running, has_peers, is_synced);
                let second = Metrics::compute_health_score(is_running, has_peers, is_synced);
                assert_eq!(first, second);
            }
        }
    }
}

#[test]
fn test_export_round_trip() {
    let mut registry = Registry::new();
    let handle = registry.register_gauge("foo", "a test gauge").unwrap();
    registry.set_gauge(&handle, 42);
    let output = render_metrics_text(&registry);
    assert_eq!(output, "# HELP foo a test gauge\n# TYPE foo gauge\nfoo 42\n");
    assert!(output.contains("# HELP foo "));
    assert!(output.contains("# TYPE foo gauge\n"));
    assert!(output.contains("foo 42\n"));
}

#[test]
fn test_export_two_gauges_in_order() {
    let mut registry = Registry::new();
    let first = registry.register_gauge("alpha", "first gauge").unwrap();
    let second = registry.register_gauge("beta", "second gauge").unwrap();
    registry.set_gauge(&first, 1);
    registry.set_gauge(&second, 2);
    let output = render_metrics_text(&registry);
    assert_eq!(
        output,
        "# HELP alpha first gauge\n# TYPE alpha gauge\nalpha 1\n\
         # HELP beta second gauge\n# TYPE beta gauge\nbeta 2\n"
    );
}

#[test]
fn test_export_negative_and_extreme_values() {
    let mut registry = Registry::new();
    let handle = registry.register_gauge("bar", "negative values").unwrap();
    registry.set_gauge(&handle, -7);
    assert!(render_metrics_text(&registry).contains("bar -7\n"));
    registry.set_gauge(&handle, i64::MIN);
    assert!(render_metrics_text(&registry).contains("bar -9223372036854775808\n"));
    registry.set_gauge(&handle, i64::MAX);
    assert!(render_metrics_text(&registry).contains("bar 9223372036854775807\n"));
    registry.set_gauge(&handle, 0);
    assert!(render_metrics_text(&registry).contains("bar 0\n"));
}

#[test]
fn test_duplicate_registration() {
    let mut registry = Registry::new();
    let first = registry.register_gauge("dup", "a gauge").unwrap();
    let again = registry.register_gauge("dup", "another help text");
    assert_eq!(again, Err(MetricsError::DuplicateRegistration));
    let once_more = registry.register_gauge("dup", "a gauge");
    assert_eq!(once_more, Err(MetricsError::DuplicateRegistration));
    // The registry is untouched: still one gauge, at its initial value.
    assert_eq!(registry.metric_count(), 1);
    assert_eq!(registry.gauge_value(&first), 0);
}

#[test]
fn test_duplicate_metrics_registration() {
    let mut registry = Registry::new();
    let metrics = Metrics::new(&mut registry);
    assert!(metrics.is_ok());
    let twice = Metrics::new(&mut registry);
    assert_eq!(twice.unwrap_err(), MetricsError::DuplicateRegistration);
    let thrice = Metrics::new(&mut registry);
    assert_eq!(thrice.unwrap_err(), MetricsError::DuplicateRegistration);
    assert_eq!(registry.metric_count(), 1);
}

#[test]
fn test_update_service_health_score() {
    let mut registry = Registry::new();
    let metrics = Metrics::new(&mut registry).unwrap();
    // Before the first update cycle the gauge reads zero.
    assert_eq!(registry.gauge_value(&metrics.service_health_score), 0);

    let status = ServiceStatus {
        is_running: true,
        connected_peer_count: 0,
        latest_lightning_wallet_sync_timestamp: Some(1_700_000_000),
    };
    metrics.update_service_health_score(&mut registry, &status);
    assert_eq!(registry.gauge_value(&metrics.service_health_score), 65);

    let output = metrics.gather_metrics(&registry).unwrap();
    assert_eq!(
        output,
        "# HELP ldk_health_score Current health score (0-100)\n\
         # TYPE ldk_health_score gauge\n\
         ldk_health_score 65\n"
    );
}

#[test]
fn test_update_back_to_back() {
    let mut registry = Registry::new();
    let metrics = Metrics::new(&mut registry).unwrap();
    let readings = [
        ServiceStatus {
            is_running: false,
            connected_peer_count: 5,
            latest_lightning_wallet_sync_timestamp: Some(7),
        },
        ServiceStatus {
            is_running: true,
            connected_peer_count: 5,
            latest_lightning_wallet_sync_timestamp: Some(7),
        },
        ServiceStatus {
            is_running: true,
            connected_peer_count: 0,
            latest_lightning_wallet_sync_timestamp: None,
        },
    ];
    for status in &readings {
        metrics.update_service_health_score(&mut registry, status);
        metrics.update_service_health_score(&mut registry, status);
    }
    // The gauge holds exactly the last written score.
    assert_eq!(registry.gauge_value(&metrics.service_health_score), 40);
    let output = metrics.gather_metrics(&registry).unwrap();
    assert!(output.contains("ldk_health_score 40\n"));
}

#[test]
fn test_snapshot() {
    let mut registry = Registry::new();
    let first = registry.register_gauge("alpha", "first gauge").unwrap();
    let second = registry.register_gauge("beta", "second gauge").unwrap();
    registry.set_gauge(&first, -3);
    registry.set_gauge(&second, 11);
    let samples = registry.snapshot();
    assert_eq!(samples.len(), 2);
    assert_eq!(samples[0].name, "alpha");
    assert_eq!(samples[0].help, "first gauge");
    assert_eq!(samples[0].kind, MetricKind::Gauge);
    assert_eq!(samples[0].value, -3);
    assert_eq!(samples[1].name, "beta");
    assert_eq!(samples[1].help, "second gauge");
    assert_eq!(samples[1].kind, MetricKind::Gauge);
    assert_eq!(samples[1].value, 11);
}

#[test]
fn test_registry_queries() {
    let mut registry = Registry::new();
    assert_eq!(registry.metric_count(), 0);
    assert!(!registry.has_metric("alpha"));
    let handle = registry.register_gauge("alpha", "first gauge").unwrap();
    assert_eq!(registry.metric_count(), 1);
    assert!(registry.has_metric("alpha"));
    assert!(!registry.has_metric("beta"));
    let gauge = registry.gauge_at(handle.index);
    assert_eq!(gauge.name(), "alpha");
    assert_eq!(gauge.help(), "first gauge");
    assert_eq!(gauge.value(), 0);
}

#[test]
fn test_is_valid_for() {
    let mut registry = Registry::new();
    let metrics = Metrics::new(&mut registry).unwrap();
    assert!(metrics.is_valid_for(&registry));

    // A handle into an empty registry is not usable.
    let empty = Registry::new();
    assert!(!metrics.is_valid_for(&empty));

    // A handle pointing at a gauge with a different name is not usable
    // either.
    let mut other = Registry::new();
    other.register_gauge("something_else", "not the health gauge").unwrap();
    let forged = Metrics { service_health_score: GaugeHandle { index: 0 } };
    assert!(!forged.is_valid_for(&other));
}
