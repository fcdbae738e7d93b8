use forgy::fmt::{format_bytes, u64_to_string};
use forgy::metrics::{
    apply_phase_transition, init_prometheus, phase_label, record_request_metrics, set_target_vus,
    vu_started, vu_stopped,
};
use forgy::outcome::RequestOutcome;
use forgy::ramp::RampPhase;
use forgy::remote::PublisherState;

#[test]
fn decimal_rendering() {
    assert_eq!(u64_to_string(0), "0");
    assert_eq!(u64_to_string(7), "7");
    assert_eq!(u64_to_string(10), "10");
    assert_eq!(u64_to_string(12345), "12345");
    assert_eq!(u64_to_string(u64::MAX), "18446744073709551615");
}

#[test]
fn byte_formatting() {
    assert_eq!(format_bytes(0), "0 B");
    assert_eq!(format_bytes(1), "1.00 B");
    assert_eq!(format_bytes(9), "9.00 B");
    assert_eq!(format_bytes(10), "10.0 B");
    assert_eq!(format_bytes(100), "100 B");
    assert_eq!(format_bytes(1023), "1023 B");
    assert_eq!(format_bytes(1024), "1.00 KB");
    assert_eq!(format_bytes(1536), "1.50 KB");
    assert_eq!(format_bytes(10240), "10.0 KB");
    assert_eq!(format_bytes(102400), "100 KB");
    assert_eq!(format_bytes(1048576), "1.00 MB");
    assert_eq!(format_bytes(1073741824), "1.00 GB");
    assert_eq!(format_bytes(1099511627776), "1.00 TB");
    assert_eq!(format_bytes(6047313952768), "5.50 TB");
}

#[test]
fn byte_formatting_rounds_half_up() {
    // 1.005 KB rounds up to 1.01 KB at two decimals.
    assert_eq!(format_bytes(1029), "1.00 KB"); // 1.0049 KB
    assert_eq!(format_bytes(1030), "1.01 KB"); // 1.0059 KB
}

#[test]
fn phase_labels() {
    assert_eq!(phase_label(RampPhase::Idle), "idle");
    assert_eq!(phase_label(RampPhase::RampUp), "rampup");
    assert_eq!(phase_label(RampPhase::Hold), "hold");
    assert_eq!(phase_label(RampPhase::RampDown), "rampdown");
}

fn gathered_value(
    registry: &prometheus::Registry,
    family: &str,
    labels: &[(&str, &str)],
) -> Option<f64> {
    for mf in registry.gather() {
        if mf.name() == family {
            let kind = mf.get_field_type();
            'metric: for m in mf.get_metric() {
                for (k, v) in labels {
                    let found = m
                        .get_label()
                        .iter()
                        .any(|lp| lp.name() == *k && lp.value() == *v);
                    if !found {
                        continue 'metric;
                    }
                }
                if kind == prometheus::proto::MetricType::COUNTER {
                    return Some(m.get_counter().value());
                }
                if kind == prometheus::proto::MetricType::GAUGE {
                    return Some(m.get_gauge().value());
                }
            }
        }
    }
    None
}

#[test]
fn metrics_context_records_requests() {
    let ctx = init_prometheus().unwrap();
    let outcome = RequestOutcome {
        success: true,
        status_code: 200,
        duration_micros: 1500,
        timestamp_ms: 0,
        bytes_sent: 177,
        bytes_received: 300,
    };
    record_request_metrics(&ctx, &outcome, "GET");
    record_request_metrics(&ctx, &outcome, "GET");

    let registry = &ctx.registry.inner;
    assert_eq!(
        gathered_value(registry, "forgy_requests_total", &[("status", "200"), ("method", "GET")]),
        Some(2.0)
    );
    assert_eq!(gathered_value(registry, "forgy_data_sent", &[("method", "GET")]), Some(354.0));
    assert_eq!(
        gathered_value(
            registry,
            "forgy_data_received",
            &[("method", "GET"), ("status_class", "2xx")]
        ),
        Some(600.0)
    );
}

#[test]
fn metrics_context_tracks_vus_and_phase() {
    let ctx = init_prometheus().unwrap();
    let registry = &ctx.registry.inner;

    assert_eq!(gathered_value(registry, "forgy_phase", &[("phase", "idle")]), Some(1.0));
    assert_eq!(gathered_value(registry, "forgy_phase", &[("phase", "rampup")]), Some(0.0));

    apply_phase_transition(&ctx, RampPhase::Idle, RampPhase::RampUp);
    assert_eq!(gathered_value(registry, "forgy_phase", &[("phase", "idle")]), Some(0.0));
    assert_eq!(gathered_value(registry, "forgy_phase", &[("phase", "rampup")]), Some(1.0));

    set_target_vus(&ctx, 25);
    assert_eq!(gathered_value(registry, "forgy_target_vus", &[]), Some(25.0));

    vu_started(&ctx);
    vu_started(&ctx);
    vu_stopped(&ctx);
    assert_eq!(gathered_value(registry, "forgy_active_vus", &[]), Some(1.0));
}

#[test]
fn duration_histogram_uses_explicit_buckets() {
    let ctx = init_prometheus().unwrap();
    if let Ok(h) = ctx.request_duration.inner.get_metric_with_label_values(&["GET", "2xx"]) {
        h.observe(0.003);
    }
    for mf in ctx.registry.inner.gather() {
        if mf.name() == "forgy_request_duration_seconds" {
            let m = &mf.get_metric()[0];
            let buckets = m.get_histogram().get_bucket();
            assert_eq!(buckets.len(), 12);
            assert_eq!(buckets[0].get_upper_bound(), 0.001);
            assert_eq!(buckets[1].get_upper_bound(), 0.005);
            assert_eq!(buckets[11].get_upper_bound(), 10.0);
            // 0.003 falls at or below the 0.005 bound.
            assert_eq!(buckets[0].get_cumulative_count(), 0);
            assert_eq!(buckets[1].get_cumulative_count(), 1);
            return;
        }
    }
    panic!("duration histogram family not gathered");
}

#[test]
fn publisher_tick_counts_deltas() {
    let mut state = PublisherState::new();
    assert_eq!(state.tick(10), 10);
    assert_eq!(state.tick(10), 0);
    assert_eq!(state.tick(35), 25);
    assert_eq!(state.last_request_count, 35);
}
