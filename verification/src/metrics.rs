//! The external metrics registry the load engine reports into: a context
//! object holding every collector of the run, created and registered at
//! startup. The registry is a write-only sink from the library's point of
//! view; the prometheus crate does the bookkeeping behind small trusted
//! handles, and the verified code decides which collector is touched with
//! which labels.
//!
//! Gauges carrying fractional values (success rate, requests per second,
//! percentile milliseconds, observed durations) are exposed as handles for
//! the driver to set; everything integer is updated through here.

use crate::fmt::u64_to_string;
use crate::outcome::{classify_status, status_class_label, RequestOutcome};
use crate::ramp::RampPhase;
use vstd::prelude::*;

verus! {

#[verifier::external_type_specification]
#[verifier::external_body]
pub struct ExPrometheusError(prometheus::Error);

/// An `IntCounterVec`, opaque to the verifier.
#[verifier::external_body]
pub struct IntCounterVecHandle {
    pub inner: prometheus::IntCounterVec,
}

/// A `HistogramVec`, opaque to the verifier. Observations carry doubles, so
/// the driver records them on `inner` itself.
#[verifier::external_body]
pub struct HistogramVecHandle {
    pub inner: prometheus::HistogramVec,
}

/// An `IntGauge`, opaque to the verifier.
#[verifier::external_body]
pub struct IntGaugeHandle {
    pub inner: prometheus::IntGauge,
}

/// A float `Gauge`, opaque to the verifier; set by the driver, which owns
/// the fractional arithmetic.
#[verifier::external_body]
pub struct GaugeHandle {
    pub inner: prometheus::Gauge,
}

/// An `IntGaugeVec`, opaque to the verifier.
#[verifier::external_body]
pub struct IntGaugeVecHandle {
    pub inner: prometheus::IntGaugeVec,
}

/// A metrics `Registry`, opaque to the verifier. The driver gathers
/// snapshots from `inner`.
#[verifier::external_body]
pub struct RegistryHandle {
    pub inner: prometheus::Registry,
}

/// Relies on `prometheus::Registry::new`: creates an empty registry.
#[verifier::external_body]
fn registry_new() -> RegistryHandle {
    RegistryHandle { inner: prometheus::Registry::new() }
}

/// Relies on `prometheus::IntCounterVec::new` (with `Opts::new`): fails on
/// an invalid name or label set.
#[verifier::external_body]
fn int_counter_vec_new(name: &str, help: &str, labels: &[&str]) -> Result<
    IntCounterVecHandle,
    prometheus::Error,
> {
    Ok(
        IntCounterVecHandle {
            inner: prometheus::IntCounterVec::new(prometheus::Opts::new(name, help), labels)?,
        },
    )
}

/// Relies on `prometheus::HistogramVec::new` (with `HistogramOpts::new` and
/// `HistogramOpts::buckets`): the run's duration histogram, with upper
/// bounds from one millisecond to ten seconds; fails on an invalid name or
/// label set.
#[verifier::external_body]
fn duration_histogram_vec_new(name: &str, help: &str, labels: &[&str]) -> Result<
    HistogramVecHandle,
    prometheus::Error,
> {
    let bounds = [
        "0.001", "0.005", "0.01", "0.025", "0.05", "0.1", "0.25", "0.5", "1", "2.5", "5", "10",
    ];
    let opts = prometheus::HistogramOpts::new(name, help).buckets(
        bounds.iter().filter_map(|b| b.parse().ok()).collect(),
    );
    Ok(HistogramVecHandle { inner: prometheus::HistogramVec::new(opts, labels)? })
}

/// Relies on `prometheus::IntGauge::new`: fails on an invalid name.
#[verifier::external_body]
fn int_gauge_new(name: &str, help: &str) -> Result<IntGaugeHandle, prometheus::Error> {
    Ok(IntGaugeHandle { inner: prometheus::IntGauge::new(name, help)? })
}

/// Relies on `prometheus::Gauge::new`: fails on an invalid name.
#[verifier::external_body]
fn gauge_new(name: &str, help: &str) -> Result<GaugeHandle, prometheus::Error> {
    Ok(GaugeHandle { inner: prometheus::Gauge::new(name, help)? })
}

/// Relies on `prometheus::IntGaugeVec::new` (with `Opts::new`): fails on an
/// invalid name or label set.
#[verifier::external_body]
fn int_gauge_vec_new(name: &str, help: &str, labels: &[&str]) -> Result<
    IntGaugeVecHandle,
    prometheus::Error,
> {
    Ok(
        IntGaugeVecHandle {
            inner: prometheus::IntGaugeVec::new(prometheus::Opts::new(name, help), labels)?,
        },
    )
}

/// Relies on `prometheus::Registry::register`: fails on a duplicate or
/// conflicting descriptor.
#[verifier::external_body]
fn register_int_counter_vec(r: &RegistryHandle, c: &IntCounterVecHandle) -> Result<
    (),
    prometheus::Error,
> {
    r.inner.register(Box::new(c.inner.clone()))
}

/// Relies on `prometheus::Registry::register`: fails on a duplicate or
/// conflicting descriptor.
#[verifier::external_body]
fn register_histogram_vec(r: &RegistryHandle, c: &HistogramVecHandle) -> Result<
    (),
    prometheus::Error,
> {
    r.inner.register(Box::new(c.inner.clone()))
}

/// Relies on `prometheus::Registry::register`: fails on a duplicate or
/// conflicting descriptor.
#[verifier::external_body]
fn register_int_gauge(r: &RegistryHandle, c: &IntGaugeHandle) -> Result<(), prometheus::Error> {
    r.inner.register(Box::new(c.inner.clone()))
}

/// Relies on `prometheus::Registry::register`: fails on a duplicate or
/// conflicting descriptor.
#[verifier::external_body]
fn register_gauge(r: &RegistryHandle, c: &GaugeHandle) -> Result<(), prometheus::Error> {
    r.inner.register(Box::new(c.inner.clone()))
}

/// Relies on `prometheus::Registry::register`: fails on a duplicate or
/// conflicting descriptor.
#[verifier::external_body]
fn register_int_gauge_vec(r: &RegistryHandle, c: &IntGaugeVecHandle) -> Result<
    (),
    prometheus::Error,
> {
    r.inner.register(Box::new(c.inner.clone()))
}

/// Relies on `MetricVec::get_metric_with_label_values` and
/// `GenericCounter::inc`: increments the child with those label values;
/// does nothing on a label-cardinality mismatch.
#[verifier::external_body]
fn counter_vec_inc2(c: &IntCounterVecHandle, l1: &str, l2: &str) {
    if let Ok(m) = c.inner.get_metric_with_label_values(&[l1, l2]) {
        m.inc();
    }
}

/// Relies on `MetricVec::get_metric_with_label_values` and
/// `GenericCounter::inc_by`: adds to the child with that label value; does
/// nothing on a label-cardinality mismatch.
#[verifier::external_body]
fn counter_vec_inc_by1(c: &IntCounterVecHandle, l1: &str, v: u64) {
    if let Ok(m) = c.inner.get_metric_with_label_values(&[l1]) {
        m.inc_by(v);
    }
}

/// Relies on `MetricVec::get_metric_with_label_values` and
/// `GenericCounter::inc_by`: adds to the child with those label values;
/// does nothing on a label-cardinality mismatch.
#[verifier::external_body]
fn counter_vec_inc_by2(c: &IntCounterVecHandle, l1: &str, l2: &str, v: u64) {
    if let Ok(m) = c.inner.get_metric_with_label_values(&[l1, l2]) {
        m.inc_by(v);
    }
}

/// Relies on `MetricVec::get_metric_with_label_values` and
/// `GenericGauge::set`: sets the child with that label value; does nothing
/// on a label-cardinality mismatch.
#[verifier::external_body]
fn int_gauge_vec_set1(g: &IntGaugeVecHandle, l1: &str, v: i64) {
    if let Ok(m) = g.inner.get_metric_with_label_values(&[l1]) {
        m.set(v);
    }
}

/// Relies on `GenericGauge::set`.
#[verifier::external_body]
fn int_gauge_set(g: &IntGaugeHandle, v: i64) {
    g.inner.set(v);
}

/// Relies on `GenericGauge::inc`.
#[verifier::external_body]
fn int_gauge_inc(g: &IntGaugeHandle) {
    g.inner.inc();
}

/// Relies on `GenericGauge::dec`.
#[verifier::external_body]
fn int_gauge_dec(g: &IntGaugeHandle) {
    g.inner.dec();
}

/// Why the metrics context could not be set up: a collector could not be
/// created or registered.
#[derive(Clone, Copy, Debug, PartialEq, Eq, Structural)]
pub enum MetricsError {
    Collector,
    Registration,
}

/// Every collector of one run, plus the registry they are registered in.
pub struct MetricsContext {
    pub registry: RegistryHandle,
    pub request_counter: IntCounterVecHandle,
    pub request_duration: HistogramVecHandle,
    pub active_vus: IntGaugeHandle,
    pub target_vus: IntGaugeHandle,
    pub success_rate: GaugeHandle,
    pub requests_per_second: GaugeHandle,
    pub response_time_p50: GaugeHandle,
    pub response_time_p90: GaugeHandle,
    pub response_time_p95: GaugeHandle,
    pub response_time_p99: GaugeHandle,
    pub test_phase: IntGaugeVecHandle,
    pub data_sent: IntCounterVecHandle,
    pub data_received: IntCounterVecHandle,
}

/// The indicator label of a phase.
pub fn phase_label(p: RampPhase) -> (r: &'static str)
    ensures
        p == RampPhase::Idle ==> r@ == "idle"@,
        p == RampPhase::RampUp ==> r@ == "rampup"@,
        p == RampPhase::Hold ==> r@ == "hold"@,
        p == RampPhase::RampDown ==> r@ == "rampdown"@,
{
    match p {
        RampPhase::Idle => "idle",
        RampPhase::RampUp => "rampup",
        RampPhase::Hold => "hold",
        RampPhase::RampDown => "rampdown",
    }
}

/// Creates every collector, registers each in a fresh registry, and marks
/// the run idle. Fails when a collector cannot be created or registered.
pub fn init_prometheus() -> (r: Result<MetricsContext, MetricsError>) {
    let registry = registry_new();

    let request_counter = match int_counter_vec_new(
        "forgy_requests_total",
        "Total number of requests made",
        &["status", "method"],
    ) {
        Ok(c) => c,
        Err(_) => {
            return Err(MetricsError::Collector);
        },
    };
    let request_duration = match duration_histogram_vec_new(
        "forgy_request_duration_seconds",
        "Request duration in seconds",
        &["method", "status_class"],
    ) {
        Ok(c) => c,
        Err(_) => {
            return Err(MetricsError::Collector);
        },
    };
    let active_vus = match int_gauge_new("forgy_active_vus", "Number of active virtual users") {
        Ok(c) => c,
        Err(_) => {
            return Err(MetricsError::Collector);
        },
    };
    let target_vus = match int_gauge_new("forgy_target_vus", "Target number of virtual users") {
        Ok(c) => c,
        Err(_) => {
            return Err(MetricsError::Collector);
        },
    };
    let success_rate = match gauge_new("forgy_success_rate", "Current success rate (percentage)") {
        Ok(c) => c,
        Err(_) => {
            return Err(MetricsError::Collector);
        },
    };
    let requests_per_second = match gauge_new(
        "forgy_requests_per_second",
        "Current requests per second",
    ) {
        Ok(c) => c,
        Err(_) => {
            return Err(MetricsError::Collector);
        },
    };
    let response_time_p50 = match gauge_new(
        "forgy_response_time_p50_ms",
        "50th percentile response time in milliseconds",
    ) {
        Ok(c) => c,
        Err(_) => {
            return Err(MetricsError::Collector);
        },
    };
    let response_time_p90 = match gauge_new(
        "forgy_response_time_p90_ms",
        "90th percentile response time in milliseconds",
    ) {
        Ok(c) => c,
        Err(_) => {
            return Err(MetricsError::Collector);
        },
    };
    let response_time_p95 = match gauge_new(
        "forgy_response_time_p95_ms",
        "95th percentile response time in milliseconds",
    ) {
        Ok(c) => c,
        Err(_) => {
            return Err(MetricsError::Collector);
        },
    };
    let response_time_p99 = match gauge_new(
        "forgy_response_time_p99_ms",
        "99th percentile response time in milliseconds",
    ) {
        Ok(c) => c,
        Err(_) => {
            return Err(MetricsError::Collector);
        },
    };
    let test_phase = match int_gauge_vec_new(
        "forgy_phase",
        "Current test phase (0=idle, 1=rampup, 2=hold, 3=rampdown)",
        &["phase"],
    ) {
        Ok(c) => c,
        Err(_) => {
            return Err(MetricsError::Collector);
        },
    };
    let data_sent = match int_counter_vec_new(
        "forgy_data_sent",
        "Total number of bytes sent in HTTP requests",
        &["method"],
    ) {
        Ok(c) => c,
        Err(_) => {
            return Err(MetricsError::Collector);
        },
    };
    let data_received = match int_counter_vec_new(
        "forgy_data_received",
        "Total number of bytes received in HTTP responses",
        &["method", "status_class"],
    ) {
        Ok(c) => c,
        Err(_) => {
            return Err(MetricsError::Collector);
        },
    };

    if register_int_counter_vec(&registry, &request_counter).is_err() {
        return Err(MetricsError::Registration);
    }
    if register_histogram_vec(&registry, &request_duration).is_err() {
        return Err(MetricsError::Registration);
    }
    if register_int_gauge(&registry, &active_vus).is_err() {
        return Err(MetricsError::Registration);
    }
    if register_int_gauge(&registry, &target_vus).is_err() {
        return Err(MetricsError::Registration);
    }
    if register_gauge(&registry, &success_rate).is_err() {
        return Err(MetricsError::Registration);
    }
    if register_gauge(&registry, &requests_per_second).is_err() {
        return Err(MetricsError::Registration);
    }
    if register_gauge(&registry, &response_time_p50).is_err() {
        return Err(MetricsError::Registration);
    }
    if register_gauge(&registry, &response_time_p90).is_err() {
        return Err(MetricsError::Registration);
    }
    if register_gauge(&registry, &response_time_p95).is_err() {
        return Err(MetricsError::Registration);
    }
    if register_gauge(&registry, &response_time_p99).is_err() {
        return Err(MetricsError::Registration);
    }
    if register_int_gauge_vec(&registry, &test_phase).is_err() {
        return Err(MetricsError::Registration);
    }
    if register_int_counter_vec(&registry, &data_sent).is_err() {
        return Err(MetricsError::Registration);
    }
    if register_int_counter_vec(&registry, &data_received).is_err() {
        return Err(MetricsError::Registration);
    }

    let ctx = MetricsContext {
        registry,
        request_counter,
        request_duration,
        active_vus,
        target_vus,
        success_rate,
        requests_per_second,
        response_time_p50,
        response_time_p90,
        response_time_p95,
        response_time_p99,
        test_phase,
        data_sent,
        data_received,
    };
    init_phase_indicator(&ctx);
    Ok(ctx)
}

/// Marks the run idle: the idle indicator 1, every other phase indicator 0.
pub fn init_phase_indicator(ctx: &MetricsContext) {
    int_gauge_vec_set1(&ctx.test_phase, phase_label(RampPhase::Idle), 1);
    int_gauge_vec_set1(&ctx.test_phase, phase_label(RampPhase::RampUp), 0);
    int_gauge_vec_set1(&ctx.test_phase, phase_label(RampPhase::Hold), 0);
    int_gauge_vec_set1(&ctx.test_phase, phase_label(RampPhase::RampDown), 0);
}

/// Applies a phase transition to the indicator: the phase left drops to 0,
/// the phase entered rises to 1.
pub fn apply_phase_transition(ctx: &MetricsContext, from: RampPhase, to: RampPhase) {
    int_gauge_vec_set1(&ctx.test_phase, phase_label(from), 0);
    int_gauge_vec_set1(&ctx.test_phase, phase_label(to), 1);
}

/// Reports the configured virtual-user target.
pub fn set_target_vus(ctx: &MetricsContext, vus: u64)
    requires
        vus <= i64::MAX,
{
    int_gauge_set(&ctx.target_vus, vus as i64);
}

/// One virtual user has started.
pub fn vu_started(ctx: &MetricsContext) {
    int_gauge_inc(&ctx.active_vus);
}

/// One virtual user has exited.
pub fn vu_stopped(ctx: &MetricsContext) {
    int_gauge_dec(&ctx.active_vus);
}

/// The integer metric updates for one finished request: the request counter
/// keyed by status code and method, and the byte counters keyed by method
/// (and status class for the response side). The duration histogram
/// observation carries a fractional value and is the driver's.
pub fn record_request_metrics(ctx: &MetricsContext, outcome: &RequestOutcome, method: &str) {
    let status_str = u64_to_string(outcome.status_code as u64);
    let class = status_class_label(classify_status(outcome.status_code));
    counter_vec_inc2(&ctx.request_counter, status_str.as_str(), method);
    counter_vec_inc_by1(&ctx.data_sent, method, outcome.bytes_sent);
    counter_vec_inc_by2(&ctx.data_received, method, class, outcome.bytes_received);
}

} // verus!
