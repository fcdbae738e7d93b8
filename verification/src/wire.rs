//! The remote-write wire entities: the message types that one metrics
//! snapshot is turned into before it is serialised and shipped.
//!
//! IEEE 754 double values are carried as their raw 64-bit patterns
//! (`*_bits` fields): the wire format stores exactly those bits, so the
//! library never needs to do floating-point arithmetic on them.

use vstd::prelude::*;

verus! {

/// One name/value pair identifying a time series.
#[derive(Debug)]
pub struct Label {
    pub name: String,
    pub value: String,
}

/// One measured value at one instant. `value_bits` is the bit pattern of an
/// IEEE 754 double; `timestamp` is in milliseconds since the epoch.
#[derive(Clone, Copy, Debug)]
pub struct Sample {
    pub value_bits: u64,
    pub timestamp: i64,
}

/// An exemplar attached to a series (carried for wire-format completeness;
/// nothing here produces them).
#[derive(Debug)]
pub struct Exemplar {
    pub labels: Vec<Label>,
    pub value_bits: u64,
    pub timestamp: i64,
}

/// One cumulative histogram bucket: how many samples fell at or below the
/// upper bound (whose double bits are carried verbatim).
#[derive(Clone, Copy, Debug)]
pub struct Bucket {
    pub cumulative_count: u64,
    pub upper_bound_bits: u64,
}

/// A native histogram sample (carried for wire-format completeness; the
/// snapshot encoder emits classic bucket series instead).
#[derive(Debug)]
pub struct Histogram {
    pub count: u64,
    pub sum_bits: u64,
    pub buckets: Vec<Bucket>,
}

/// One time series: its identifying labels and its samples.
#[derive(Debug)]
pub struct TimeSeries {
    pub labels: Vec<Label>,
    pub samples: Vec<Sample>,
    pub exemplars: Vec<Exemplar>,
    pub histograms: Vec<Histogram>,
}

/// The kind of a metric family, as the metadata wire field counts them.
#[derive(Clone, Copy, Debug, PartialEq, Eq, Structural)]
pub enum MetricType {
    Unknown,
    Counter,
    Gauge,
    Histogram,
    Gaugehistogram,
    Summary,
    Info,
    Stateset,
}

/// The wire value of a metric type: its position in the protocol's
/// enumeration.
pub open spec fn spec_metric_type_value(t: MetricType) -> nat {
    match t {
        MetricType::Unknown => 0,
        MetricType::Counter => 1,
        MetricType::Gauge => 2,
        MetricType::Histogram => 3,
        MetricType::Gaugehistogram => 4,
        MetricType::Summary => 5,
        MetricType::Info => 6,
        MetricType::Stateset => 7,
    }
}

/// The wire value of a metric type.
pub fn metric_type_value(t: MetricType) -> (r: u64)
    ensures
        r == spec_metric_type_value(t),
{
    match t {
        MetricType::Unknown => 0,
        MetricType::Counter => 1,
        MetricType::Gauge => 2,
        MetricType::Histogram => 3,
        MetricType::Gaugehistogram => 4,
        MetricType::Summary => 5,
        MetricType::Info => 6,
        MetricType::Stateset => 7,
    }
}

/// Descriptive metadata for one metric family.
#[derive(Debug)]
pub struct MetricMetadata {
    pub metric_name: String,
    pub metric_type: MetricType,
    pub help: String,
    pub unit: String,
}

/// One remote-write request: every series of one snapshot, published
/// together.
#[derive(Debug)]
pub struct WriteRequest {
    pub timeseries: Vec<TimeSeries>,
    pub metadata: Vec<MetricMetadata>,
}

/// Copies a label (`String` contents are preserved exactly).
pub fn clone_label(l: &Label) -> (r: Label)
    ensures
        r.name@ == l.name@,
        r.value@ == l.value@,
{
    Label { name: l.name.clone(), value: l.value.clone() }
}

/// Copies a label vector element for element.
pub fn clone_labels(ls: &Vec<Label>) -> (r: Vec<Label>)
    ensures
        r@.len() == ls@.len(),
        forall|i: int|
            0 <= i < ls@.len() ==> (#[trigger] r@[i]).name@ == ls@[i].name@ && r@[i].value@
                == ls@[i].value@,
{
    let mut out: Vec<Label> = Vec::new();
    let mut i: usize = 0;
    while i < ls.len()
        invariant
            0 <= i <= ls@.len(),
            out@.len() == i,
            forall|j: int|
                0 <= j < i ==> (#[trigger] out@[j]).name@ == ls@[j].name@ && out@[j].value@
                    == ls@[j].value@,
        decreases ls@.len() - i,
    {
        out.push(clone_label(&ls[i]));
        i = i + 1;
    }
    out
}

} // verus!
