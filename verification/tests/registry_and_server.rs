use prom_eagle::power::PowerValue;
use prom_eagle::registry::{MetricRegistry, SharedRegistry};
use prom_eagle::render::{dec_string, render_exposition, render_power};
use prom_eagle::server::{handle_request, HttpMethod};

#[test]
fn snapshot_is_empty_before_any_set() {
    let registry = MetricRegistry::new();
    assert_eq!(registry.snapshot(), None);
}

#[test]
fn snapshot_returns_the_set_value() {
    let mut registry = MetricRegistry::new();
    registry.set(PowerValue::from_millis(42_000));
    let got = registry.snapshot().unwrap();
    assert_eq!(got.millis(), 42_000);
    assert_eq!(got.millis() as f64 / 1000.0, 42.0);
}

#[test]
fn set_overwrites_the_previous_value() {
    let mut registry = MetricRegistry::new();
    registry.set(PowerValue::from_millis(1_000));
    registry.set(PowerValue::from_millis(2_500));
    assert_eq!(registry.snapshot().unwrap().millis(), 2_500);
}

#[test]
fn shared_handle_behaves_like_the_registry() {
    let shared = SharedRegistry::new();
    assert_eq!(shared.snapshot(), None);
    shared.set(PowerValue::from_millis(42_000));
    assert_eq!(shared.snapshot(), Some(PowerValue::from_millis(42_000)));
    shared.set(PowerValue::from_millis(900));
    assert_eq!(shared.snapshot(), Some(PowerValue::from_millis(900)));
}

#[test]
fn power_renders_with_trailing_zeros_dropped() {
    assert_eq!(render_power(PowerValue::from_millis(900)), "0.9");
    assert_eq!(render_power(PowerValue::from_millis(20_000)), "20");
    assert_eq!(render_power(PowerValue::from_millis(123_400)), "123.4");
    assert_eq!(render_power(PowerValue::from_millis(1_234)), "1.234");
    assert_eq!(render_power(PowerValue::from_millis(1_230)), "1.23");
    assert_eq!(render_power(PowerValue::from_millis(1_200)), "1.2");
    assert_eq!(render_power(PowerValue::from_millis(0)), "0");
    assert_eq!(render_power(PowerValue::from_millis(5)), "0.005");
    assert_eq!(render_power(PowerValue::from_millis(50)), "0.05");
}

#[test]
fn decimal_rendering_matches_the_standard_one() {
    assert_eq!(dec_string(0), "0");
    assert_eq!(dec_string(7), "7");
    assert_eq!(dec_string(1_000_000), "1000000");
    assert_eq!(dec_string(u128::MAX), u128::MAX.to_string());
}

#[test]
fn metrics_request_serves_the_gauge() {
    let mut registry = MetricRegistry::new();
    registry.set(PowerValue::from_millis(900));
    let response = handle_request(HttpMethod::Get, "/metrics", registry.snapshot());
    assert_eq!(response.status, 200);
    assert_eq!(
        response.content_type.as_deref(),
        Some("text/plain; version=0.0.4")
    );
    assert!(response
        .body
        .contains("instantaneous_power{handler=\"all\"} 0.9\n"));
    assert!(response
        .body
        .contains("# HELP instantaneous_power Instantaneous electricity usage.\n"));
    assert!(response.body.contains("# TYPE instantaneous_power gauge\n"));
}

#[test]
fn other_methods_and_paths_are_not_found() {
    let registry = MetricRegistry::new();
    for (method, path) in [
        (HttpMethod::Post, "/metrics"),
        (HttpMethod::Get, "/"),
        (HttpMethod::Get, "/nonexistent"),
        (HttpMethod::Other, "/metrics"),
    ] {
        let response = handle_request(method, path, registry.snapshot());
        assert_eq!(response.status, 404);
        assert_eq!(response.content_type, None);
        assert_eq!(response.body, "");
    }
}

#[test]
fn empty_registry_renders_without_a_sample_line() {
    let body = render_exposition(None);
    assert!(body.contains("# HELP instantaneous_power Instantaneous electricity usage.\n"));
    assert!(body.contains("# TYPE instantaneous_power gauge\n"));
    assert!(!body.contains("instantaneous_power{"));
}

#[test]
fn full_exposition_document() {
    let body = render_exposition(Some(PowerValue::from_millis(20_000)));
    assert_eq!(
        body,
        "# HELP instantaneous_power Instantaneous electricity usage.\n\
         # TYPE instantaneous_power gauge\n\
         instantaneous_power{handler=\"all\"} 20\n"
    );
}
