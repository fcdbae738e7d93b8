use forgy::config::{build_configuration, parse_header, trim_str, ConfigError};
use forgy::outcome::{
    classify_status, compute_bytes_sent, is_success_status, outcome_from_response,
    outcome_from_transport_failure, status_class_label, RequestOutcome, StatusClass,
};
use forgy::ramp::{due_spawn_count, due_stop_count, RampConfig, RampController, RampPhase};
use forgy::sequencer::TimestampSequencer;
use forgy::stats::StatsAggregate;
use forgy::worker::{initial_offset_ms, loop_delay_ms};

fn outcome(status: u16, duration_micros: u64) -> RequestOutcome {
    RequestOutcome {
        success: 200 <= status && status <= 299,
        status_code: status,
        duration_micros,
        timestamp_ms: 0,
        bytes_sent: 10,
        bytes_received: 20,
    }
}

#[test]
fn spawn_schedule_four_vus_over_four_seconds() {
    // Workers are due at elapsed times 0s, 1s, 2s, 3s.
    let cfg = RampConfig { vus: 4, ramp_up_ms: 4000, hold_ms: 0, ramp_down_ms: 0 };
    assert_eq!(due_spawn_count(&cfg, 0), 1);
    assert_eq!(due_spawn_count(&cfg, 999), 1);
    assert_eq!(due_spawn_count(&cfg, 1000), 2);
    assert_eq!(due_spawn_count(&cfg, 1999), 2);
    assert_eq!(due_spawn_count(&cfg, 2000), 3);
    assert_eq!(due_spawn_count(&cfg, 2999), 3);
    assert_eq!(due_spawn_count(&cfg, 3000), 4);
    assert_eq!(due_spawn_count(&cfg, 4000), 4);
    assert_eq!(due_spawn_count(&cfg, 4001), 4);
}

#[test]
fn spawn_schedule_edge_cases() {
    let zero_vus = RampConfig { vus: 0, ramp_up_ms: 4000, hold_ms: 0, ramp_down_ms: 0 };
    assert_eq!(due_spawn_count(&zero_vus, 2000), 0);
    let zero_ramp = RampConfig { vus: 4, ramp_up_ms: 0, hold_ms: 0, ramp_down_ms: 0 };
    assert_eq!(due_spawn_count(&zero_ramp, 0), 0);
    assert_eq!(due_spawn_count(&zero_ramp, 1000), 0);
}

#[test]
fn stop_schedule_is_fifo_over_time() {
    let cfg = RampConfig { vus: 4, ramp_up_ms: 0, hold_ms: 1000, ramp_down_ms: 4000 };
    assert_eq!(due_stop_count(&cfg, 999), 0);
    assert_eq!(due_stop_count(&cfg, 1000), 1);
    assert_eq!(due_stop_count(&cfg, 1999), 1);
    assert_eq!(due_stop_count(&cfg, 2000), 2);
    assert_eq!(due_stop_count(&cfg, 4000), 4);
    let mut last = 0;
    for e in 0..6000u64 {
        let s = due_stop_count(&cfg, e);
        assert!(s >= last, "stop count never decreases");
        last = s;
    }
}

#[test]
fn controller_walks_all_phases() {
    let cfg = RampConfig { vus: 2, ramp_up_ms: 2000, hold_ms: 1000, ramp_down_ms: 2000 };
    let mut ctl = RampController::new(cfg);
    assert_eq!(ctl.phase, RampPhase::Idle);

    let a = ctl.step(0);
    assert_eq!(ctl.phase, RampPhase::RampUp);
    assert_eq!(a.transition, Some((RampPhase::Idle, RampPhase::RampUp)));
    assert_eq!((a.spawn_from, a.spawn_to), (0, 1));
    assert_eq!((a.stop_from, a.stop_to), (0, 0));
    assert!(!a.done);

    let a = ctl.step(1000);
    assert_eq!((a.spawn_from, a.spawn_to), (1, 2));
    assert_eq!(a.transition, None);

    let a = ctl.step(2500);
    assert_eq!(ctl.phase, RampPhase::Hold);
    assert_eq!(a.transition, Some((RampPhase::RampUp, RampPhase::Hold)));
    assert_eq!((a.spawn_from, a.spawn_to), (2, 2));
    assert_eq!((a.stop_from, a.stop_to), (0, 0));

    let a = ctl.step(3000);
    assert_eq!(ctl.phase, RampPhase::RampDown);
    assert_eq!(a.transition, Some((RampPhase::Hold, RampPhase::RampDown)));
    // Worker 0 stops right at ramp-down start.
    assert_eq!((a.stop_from, a.stop_to), (0, 1));
    assert!(!a.force_stop_all);

    let a = ctl.step(4000);
    assert_eq!((a.stop_from, a.stop_to), (1, 2));

    let a = ctl.step(5000);
    assert_eq!(ctl.phase, RampPhase::Idle);
    assert_eq!(a.transition, Some((RampPhase::RampDown, RampPhase::Idle)));
    assert!(a.force_stop_all);
    assert!(a.done);
    assert_eq!(ctl.stopped, ctl.spawned);
}

#[test]
fn controller_catches_up_missed_spawns() {
    // A driver that polls late still spawns every due worker.
    let cfg = RampConfig { vus: 8, ramp_up_ms: 800, hold_ms: 10000, ramp_down_ms: 0 };
    let mut ctl = RampController::new(cfg);
    let a = ctl.step(900);
    assert_eq!((a.spawn_from, a.spawn_to), (0, 8));
    assert_eq!(ctl.phase, RampPhase::Hold);
}

#[test]
fn controller_zero_vus_still_walks_phases() {
    let cfg = RampConfig { vus: 0, ramp_up_ms: 1000, hold_ms: 1000, ramp_down_ms: 1000 };
    let mut ctl = RampController::new(cfg);
    let a = ctl.step(500);
    assert_eq!(ctl.phase, RampPhase::RampUp);
    assert_eq!((a.spawn_from, a.spawn_to), (0, 0));
    ctl.step(1500);
    assert_eq!(ctl.phase, RampPhase::Hold);
    ctl.step(2500);
    assert_eq!(ctl.phase, RampPhase::RampDown);
    let a = ctl.step(3000);
    assert_eq!(ctl.phase, RampPhase::Idle);
    assert!(a.done);
}

#[test]
fn sequencer_same_millisecond_bumps_by_one() {
    // Two publishes within the same millisecond: the second timestamp is the
    // first plus one.
    let mut seq = TimestampSequencer::new();
    let t1 = seq.next(1_700_000_000_000);
    let t2 = seq.next(1_700_000_000_000);
    assert_eq!(t1, 1_700_000_000_000);
    assert_eq!(t2, t1 + 1);
}

#[test]
fn sequencer_strictly_increases_under_clock_regression() {
    let mut seq = TimestampSequencer::new();
    let clocks = [5i64, 3, 3, 10, 9, 9, 9, 11];
    let mut last = 0i64;
    for c in clocks {
        let t = seq.next(c);
        assert!(t > last, "timestamps strictly increase");
        last = t;
    }
    assert_eq!(last, 14);
}

#[test]
fn sequencer_exact_sequence() {
    let mut seq = TimestampSequencer::new();
    let issued: Vec<i64> = [5i64, 3, 3, 10, 9, 9].iter().map(|c| seq.next(*c)).collect();
    assert_eq!(issued, vec![5, 6, 7, 10, 11, 12]);
}

#[test]
fn bytes_sent_formula() {
    // body "abc" (3) + method "POST" (4) + a 20-byte URL + 150 overhead.
    assert_eq!(compute_bytes_sent(3, 4, 20), 177);
    assert_eq!(compute_bytes_sent(0, 3, 10), 163);
}

#[test]
fn outcome_classification() {
    assert!(is_success_status(200));
    assert!(is_success_status(299));
    assert!(!is_success_status(300));
    assert!(!is_success_status(199));
    assert!(!is_success_status(0));
    assert_eq!(classify_status(204), StatusClass::Class2xx);
    assert_eq!(classify_status(301), StatusClass::Class3xx);
    assert_eq!(classify_status(404), StatusClass::Class4xx);
    assert_eq!(classify_status(503), StatusClass::Class5xx);
    assert_eq!(classify_status(0), StatusClass::Other);
    assert_eq!(classify_status(700), StatusClass::Other);
    assert_eq!(status_class_label(StatusClass::Class2xx), "2xx");
    assert_eq!(status_class_label(StatusClass::Other), "other");
}

#[test]
fn outcome_constructors() {
    let ok = outcome_from_response(200, 100, 2500, 77, 177);
    assert!(ok.success);
    assert_eq!(ok.status_code, 200);
    assert_eq!(ok.bytes_received, 300);
    assert_eq!(ok.duration_micros, 2500);
    assert_eq!(ok.timestamp_ms, 77);
    assert_eq!(ok.bytes_sent, 177);

    let fail = outcome_from_transport_failure(900, 78, 163);
    assert!(!fail.success);
    assert_eq!(fail.status_code, 0);
    assert_eq!(fail.bytes_received, 0);
    assert_eq!(fail.bytes_sent, 163);
}

#[test]
fn aggregate_partitions_success_and_failure() {
    let mut agg = StatsAggregate::new();
    for status in [200u16, 200, 404, 500, 204] {
        agg.record(outcome(status, 1000));
    }
    assert_eq!(agg.total_requests, 5);
    assert_eq!(agg.successful_requests, 3);
    assert_eq!(agg.failed_requests(), 2);
    assert_eq!(agg.successful_requests + agg.failed_requests(), agg.total_requests);
}

#[test]
fn aggregate_all_500s() {
    // All requests return 500: the distribution maps 500 to the total and
    // nothing succeeds.
    let mut agg = StatsAggregate::new();
    for _ in 0..7 {
        let o = outcome(500, 1000);
        agg.record(o);
        agg.push_sample(o);
    }
    let results = agg.calculate_results(3);
    assert_eq!(results.total_requests, 7);
    assert_eq!(results.successful_requests, 0);
    assert_eq!(results.failed_requests, 7);
    assert_eq!(results.buffered_samples, 7);
    assert_eq!(results.status_code_distribution.len(), 1);
    assert_eq!(results.status_code_distribution.get(&500), Some(&7u64));
}

#[test]
fn results_totals_count_every_request_beyond_the_cap() {
    // The buffer caps at 50,000 samples, but the final totals come from the
    // counters and cover every request of the run.
    let mut agg = StatsAggregate::new();
    let o = outcome(500, 1000);
    for _ in 0..50_100 {
        agg.record(o);
        agg.push_sample(o);
    }
    let r = agg.calculate_results(1);
    assert_eq!(r.total_requests, 50_100);
    assert_eq!(r.successful_requests, 0);
    assert_eq!(r.failed_requests, 50_100);
    assert_eq!(r.buffered_samples, 50_000);
    assert_eq!(r.status_code_distribution.get(&500), Some(&50_100u64));
}

#[test]
fn sample_buffer_never_exceeds_cap() {
    let mut agg = StatsAggregate::new();
    let o = outcome(200, 1000);
    for _ in 0..50_005 {
        agg.push_sample(o);
    }
    assert_eq!(agg.samples.len(), 50_000);
}

#[test]
fn percentiles_ordered_and_exact() {
    let mut agg = StatsAggregate::new();
    for d in 1..=100u64 {
        agg.record(outcome(200, d));
    }
    let (p50, p90, p95, p99) = agg.percentiles();
    assert!(p50 <= p90 && p90 <= p95 && p95 <= p99);
    assert_eq!((p50, p90, p95, p99), (50, 90, 95, 99));
}

#[test]
fn percentiles_empty_are_zero() {
    let agg = StatsAggregate::new();
    assert_eq!(agg.percentiles(), (0, 0, 0, 0));
}

#[test]
fn results_duration_extremes() {
    let mut agg = StatsAggregate::new();
    for d in [4000u64, 1500, 9000, 2500] {
        let o = outcome(200, d);
        agg.record(o);
        agg.push_sample(o);
    }
    let r = agg.calculate_results(2);
    assert_eq!(r.vus, 2);
    assert_eq!(r.total_requests, 4);
    assert_eq!(r.buffered_samples, 4);
    assert_eq!(r.min_duration_micros, 1500);
    assert_eq!(r.max_duration_micros, 9000);
    assert_eq!(r.sum_duration_micros, 17000);
    assert_eq!(r.total_bytes_sent, 40);
    assert_eq!(r.total_bytes_received, 80);
}

#[test]
fn worker_offsets_spread_across_first_second() {
    assert_eq!(initial_offset_ms(0), 0);
    assert_eq!(initial_offset_ms(5), 50);
    assert_eq!(initial_offset_ms(99), 990);
    assert_eq!(initial_offset_ms(150), (150 * 1000 / 151) % 1000);
    for i in 0..500usize {
        assert!(initial_offset_ms(i) < 1000);
    }
}

#[test]
fn worker_delay_band() {
    assert_eq!(loop_delay_ms(0), 800);
    assert_eq!(loop_delay_ms(5), 985);
    assert_eq!(loop_delay_ms(11), 807);
    for i in 0..500usize {
        let d = loop_delay_ms(i);
        assert!(800 <= d && d < 1200);
    }
}

#[test]
fn header_parsing() {
    assert_eq!(
        parse_header("Content-Type: application/json"),
        Some(("Content-Type".to_string(), "application/json".to_string()))
    );
    assert_eq!(parse_header("  X-Key :  abc  "), Some(("X-Key".to_string(), "abc".to_string())));
    assert_eq!(parse_header("a:b:c"), Some(("a".to_string(), "b:c".to_string())));
    assert_eq!(parse_header("no colon here"), None);
    assert_eq!(parse_header(":v"), Some(("".to_string(), "v".to_string())));
}

#[test]
fn trimming() {
    assert_eq!(trim_str("  abc  "), "abc");
    assert_eq!(trim_str("abc"), "abc");
    assert_eq!(trim_str("\t x \r\n"), "x");
    assert_eq!(trim_str("   "), "");
    assert_eq!(trim_str(""), "");
}

#[test]
fn configuration_parses_durations() {
    let cfg = build_configuration(
        "http://localhost/".to_string(),
        10,
        "30s",
        "1m",
        "500ms",
        "GET".to_string(),
        None,
        &vec!["A:1".to_string(), "bad".to_string(), "B : 2".to_string()],
        30,
        None,
        "forgy".to_string(),
        10,
    )
    .unwrap();
    assert_eq!(cfg.ramp_up_ms, 30_000);
    assert_eq!(cfg.hold_ms, 60_000);
    assert_eq!(cfg.ramp_down_ms, 500);
    assert_eq!(
        cfg.headers,
        vec![("A".to_string(), "1".to_string()), ("B".to_string(), "2".to_string())]
    );
    assert!(!cfg.prometheus_enabled());
}

#[test]
fn configuration_rejects_bad_durations() {
    let err = build_configuration(
        "u".to_string(),
        1,
        "nonsense",
        "1m",
        "1m",
        "GET".to_string(),
        None,
        &vec![],
        30,
        None,
        "a".to_string(),
        10,
    )
    .unwrap_err();
    assert_eq!(err, ConfigError::InvalidRampUp);

    let err = build_configuration(
        "u".to_string(),
        1,
        "1m",
        "?",
        "1m",
        "GET".to_string(),
        None,
        &vec![],
        30,
        None,
        "a".to_string(),
        10,
    )
    .unwrap_err();
    assert_eq!(err, ConfigError::InvalidHold);

    let err = build_configuration(
        "u".to_string(),
        1,
        "1m",
        "1m",
        "",
        "GET".to_string(),
        None,
        &vec![],
        30,
        None,
        "a".to_string(),
        10,
    )
    .unwrap_err();
    assert_eq!(err, ConfigError::InvalidRampDown);
}
