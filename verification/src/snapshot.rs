//! Turning one gathered metrics snapshot into remote-write time series.
//!
//! A snapshot holds, for every metric family, each metric instance's label
//! pairs and its value: a counter or gauge reading, or a histogram's
//! buckets, count and sum. Counters and gauges become one series each;
//! a histogram becomes one series per bucket plus a `_count` and a `_sum`
//! series. Every series of one snapshot carries exactly one sample, stamped
//! with the snapshot's single timestamp.
//!
//! Double values travel as raw bit patterns (`*_bits`); the bucket bounds'
//! `le` label text is prepared by the caller that read the doubles.

use crate::wire::{clone_label, clone_labels, Label, Sample, TimeSeries};
use vstd::prelude::*;
use vstd::string::StringExecFns;

verus! {

/// One cumulative bucket of a gathered histogram: its count, the count's
/// double bits (for the wire sample), and the upper bound's text (for the
/// `le` label).
#[derive(Debug)]
pub struct BucketData {
    pub cumulative_count: u64,
    pub cumulative_count_bits: u64,
    pub upper_bound_label: String,
}

/// The value of one gathered metric instance.
#[derive(Debug)]
pub enum MetricValue {
    Counter { value_bits: u64 },
    Gauge { value_bits: u64 },
    Histogram { sample_count: u64, sample_count_bits: u64, sum_bits: u64, buckets: Vec<BucketData> },
}

/// One gathered metric instance: its own label pairs and its value.
#[derive(Debug)]
pub struct MetricData {
    pub labels: Vec<Label>,
    pub value: MetricValue,
}

/// One gathered metric family: its name and its instances.
#[derive(Debug)]
pub struct MetricFamilyData {
    pub name: String,
    pub metrics: Vec<MetricData>,
}

/// One unit of work for the remote-write consumer: a full gathering of
/// metric families plus the app label to attach to every series.
#[derive(Debug)]
pub struct MetricsMessage {
    pub metric_families: Vec<MetricFamilyData>,
    pub app: String,
}

/// How many time series one metric instance produces: one for a counter or
/// gauge, one per bucket plus `_count` and `_sum` for a histogram.
pub open spec fn spec_metric_series_count(m: MetricData) -> int {
    match m.value {
        MetricValue::Counter { .. } => 1,
        MetricValue::Gauge { .. } => 1,
        MetricValue::Histogram { buckets, .. } => buckets@.len() + 2int,
    }
}

/// How many time series a sequence of metric instances produces.
pub open spec fn spec_metrics_series_count(ms: Seq<MetricData>) -> int
    decreases ms.len(),
{
    if ms.len() == 0 {
        0
    } else {
        spec_metrics_series_count(ms.drop_last()) + spec_metric_series_count(ms.last())
    }
}

/// How many time series a sequence of families produces.
pub open spec fn spec_families_series_count(fs: Seq<MetricFamilyData>) -> int
    decreases fs.len(),
{
    if fs.len() == 0 {
        0
    } else {
        spec_families_series_count(fs.drop_last()) + spec_metrics_series_count(
            fs.last().metrics@,
        )
    }
}

/// Every produced series carries exactly one sample with the given
/// timestamp.
pub open spec fn all_single_sample_at(series: Seq<TimeSeries>, timestamp: i64) -> bool {
    forall|i: int|
        0 <= i < series.len() ==> (#[trigger] series[i]).samples@.len() == 1 && series[i].samples@[0].timestamp
            == timestamp
}

/// Every produced series starts with a `__name__` label and carries the
/// snapshot's `app` label second.
pub open spec fn all_series_labelled(series: Seq<TimeSeries>, app: Seq<char>) -> bool {
    forall|i: int|
        0 <= i < series.len() ==> {
            let ls = (#[trigger] series[i]).labels@;
            &&& ls.len() >= 2
            &&& ls[0].name@ == "__name__"@
            &&& ls[1].name@ == "app"@
            &&& ls[1].value@ == app
        }
}

/// Every produced series is a plain sample series: no exemplars, no native
/// histograms.
pub open spec fn all_plain_series(series: Seq<TimeSeries>) -> bool {
    forall|i: int|
        0 <= i < series.len() ==> (#[trigger] series[i]).exemplars@.len() == 0
            && series[i].histograms@.len() == 0
}

/// Where the series of metric `mi` of family `fi` begin in the output.
pub open spec fn spec_series_base(fs: Seq<MetricFamilyData>, fi: int, mi: int) -> int
    recommends
        0 <= fi < fs.len(),
{
    spec_families_series_count(fs.take(fi)) + spec_metrics_series_count(fs[fi].metrics@.take(mi))
}

/// A series' labels from position 1 on: the `app` label, then the metric's
/// own pairs, in order.
pub open spec fn tail_labels_match(ls: Seq<Label>, app: Seq<char>, own: Seq<Label>) -> bool {
    &&& ls.len() >= 2 + own.len()
    &&& ls[1].name@ == "app"@
    &&& ls[1].value@ == app
    &&& forall|k: int|
        0 <= k < own.len() ==> (#[trigger] ls[2 + k]).name@ == own[k].name@ && ls[2 + k].value@
            == own[k].value@
}

/// The base labels of one metric, in full: `__name__` carrying the family
/// name, then the tail.
pub open spec fn base_labels_match(
    ls: Seq<Label>,
    name: Seq<char>,
    app: Seq<char>,
    own: Seq<Label>,
) -> bool {
    &&& tail_labels_match(ls, app, own)
    &&& ls[0].name@ == "__name__"@
    &&& ls[0].value@ == name
}

/// The exact series that metric `mi` of family `fi` contributes, standing at
/// its place in the output: one sample-carrying series for a counter or
/// gauge; per-bucket series followed by `_count` and `_sum` series for a
/// histogram, each value travelling as the double bits handed in.
pub open spec fn metric_series_ok(
    fs: Seq<MetricFamilyData>,
    app: Seq<char>,
    out: Seq<TimeSeries>,
    fi: int,
    mi: int,
) -> bool
    recommends
        0 <= fi < fs.len(),
        0 <= mi < fs[fi].metrics@.len(),
{
    let fam = fs[fi];
    let m = fam.metrics@[mi];
    let base = spec_series_base(fs, fi, mi);
    &&& 0 <= base
    &&& base + spec_metric_series_count(m) <= out.len()
    &&& match m.value {
        MetricValue::Counter { value_bits } => {
            &&& out[base].labels@.len() == 2 + m.labels@.len()
            &&& base_labels_match(out[base].labels@, fam.name@, app, m.labels@)
            &&& out[base].samples@[0].value_bits == value_bits
        },
        MetricValue::Gauge { value_bits } => {
            &&& out[base].labels@.len() == 2 + m.labels@.len()
            &&& base_labels_match(out[base].labels@, fam.name@, app, m.labels@)
            &&& out[base].samples@[0].value_bits == value_bits
        },
        MetricValue::Histogram { sample_count: _, sample_count_bits, sum_bits, buckets } => {
            let nb = buckets@.len() as int;
            let bl = 2 + m.labels@.len() as int;
            &&& forall|b: int|
                0 <= b < nb ==> {
                    let s = #[trigger] out[base + b];
                    &&& s.labels@.len() == bl + 1
                    &&& base_labels_match(s.labels@, fam.name@, app, m.labels@)
                    &&& s.labels@[bl].name@ == "le"@
                    &&& s.labels@[bl].value@ == buckets@[b].upper_bound_label@
                    &&& s.samples@[0].value_bits == buckets@[b].cumulative_count_bits
                }
            &&& out[base + nb].labels@.len() == bl
            &&& tail_labels_match(out[base + nb].labels@, app, m.labels@)
            &&& out[base + nb].labels@[0].name@ == "__name__"@
            &&& out[base + nb].labels@[0].value@ == fam.name@ + "_count"@
            &&& out[base + nb].samples@[0].value_bits == sample_count_bits
            &&& out[base + nb + 1].labels@.len() == bl
            &&& tail_labels_match(out[base + nb + 1].labels@, app, m.labels@)
            &&& out[base + nb + 1].labels@[0].name@ == "__name__"@
            &&& out[base + nb + 1].labels@[0].value@ == fam.name@ + "_sum"@
            &&& out[base + nb + 1].samples@[0].value_bits == sum_bits
        },
    }
}

/// Every metric strictly before position (`fi`, `mi`) has its series in
/// place.
pub open spec fn processed_upto(
    fs: Seq<MetricFamilyData>,
    app: Seq<char>,
    out: Seq<TimeSeries>,
    fi: int,
    mi: int,
) -> bool {
    forall|a: int, b: int|
        #![trigger metric_series_ok(fs, app, out, a, b)]
        0 <= a < fs.len() && 0 <= b < fs[a].metrics@.len() && (a < fi || (a == fi && b < mi))
            ==> metric_series_ok(fs, app, out, a, b)
}

/// A metric's series claim survives appending further series at the end.
proof fn lemma_ok_extends(
    fs: Seq<MetricFamilyData>,
    app: Seq<char>,
    prev: Seq<TimeSeries>,
    added: Seq<TimeSeries>,
    a: int,
    b: int,
)
    requires
        0 <= a < fs.len(),
        0 <= b < fs[a].metrics@.len(),
        metric_series_ok(fs, app, prev, a, b),
    ensures
        metric_series_ok(fs, app, prev + added, a, b),
{
    let out2 = prev + added;
    assert forall|i: int| 0 <= i < prev.len() implies out2[i] == prev[i] by {}
    let m = fs[a].metrics@[b];
    let base = spec_series_base(fs, a, b);
    match m.value {
        MetricValue::Counter { .. } => {
            assert(out2[base] == prev[base]);
        },
        MetricValue::Gauge { .. } => {
            assert(out2[base] == prev[base]);
        },
        MetricValue::Histogram { buckets, .. } => {
            let nb = buckets@.len() as int;
            assert forall|k: int| 0 <= k < nb implies #[trigger] out2[base + k] == prev[base + k] by {}
            assert(out2[base + nb] == prev[base + nb]);
            assert(out2[base + nb + 1] == prev[base + nb + 1]);
        },
    }
}

/// The base labels of one metric: `__name__` (the family name), `app` (the
/// app label), then the metric's own pairs, in order.
pub fn create_base_labels(metric_name: &str, app: &str, metric: &MetricData) -> (r: Vec<Label>)
    ensures
        r@.len() == 2 + metric.labels@.len(),
        r@[0].name@ == "__name__"@,
        r@[0].value@ == metric_name@,
        r@[1].name@ == "app"@,
        r@[1].value@ == app@,
        forall|i: int|
            0 <= i < metric.labels@.len() ==> (#[trigger] r@[2 + i]).name@
                == metric.labels@[i].name@ && r@[2 + i].value@ == metric.labels@[i].value@,
{
    let mut labels: Vec<Label> = Vec::new();
    labels.push(Label { name: "__name__".to_owned(), value: metric_name.to_owned() });
    labels.push(Label { name: "app".to_owned(), value: app.to_owned() });
    let mut rest = clone_labels(&metric.labels);
    labels.append(&mut rest);
    labels
}

/// One series for a counter reading: the given labels, one sample.
pub fn create_counter_timeseries(labels: Vec<Label>, value_bits: u64, timestamp: i64) -> (r:
    TimeSeries)
    ensures
        r.labels == labels,
        r.samples@ =~= seq![Sample { value_bits, timestamp }],
        r.exemplars@.len() == 0,
        r.histograms@.len() == 0,
{
    let mut samples: Vec<Sample> = Vec::new();
    samples.push(Sample { value_bits, timestamp });
    TimeSeries { labels, samples, exemplars: Vec::new(), histograms: Vec::new() }
}

/// One series for a gauge reading: the given labels, one sample.
pub fn create_gauge_timeseries(labels: Vec<Label>, value_bits: u64, timestamp: i64) -> (r:
    TimeSeries)
    ensures
        r.labels == labels,
        r.samples@ =~= seq![Sample { value_bits, timestamp }],
        r.exemplars@.len() == 0,
        r.histograms@.len() == 0,
{
    let mut samples: Vec<Sample> = Vec::new();
    samples.push(Sample { value_bits, timestamp });
    TimeSeries { labels, samples, exemplars: Vec::new(), histograms: Vec::new() }
}

/// The given labels with the first one's value replaced (used to rewrite
/// `__name__` to `<family>_count` and `<family>_sum`).
fn with_first_value(base: &Vec<Label>, new_value: String) -> (r: Vec<Label>)
    requires
        base@.len() >= 1,
    ensures
        r@.len() == base@.len(),
        r@[0].name@ == base@[0].name@,
        r@[0].value@ == new_value@,
        forall|i: int|
            1 <= i < base@.len() ==> (#[trigger] r@[i]).name@ == base@[i].name@ && r@[i].value@
                == base@[i].value@,
{
    let mut out: Vec<Label> = Vec::new();
    out.push(Label { name: base[0].name.clone(), value: new_value });
    let mut i: usize = 1;
    while i < base.len()
        invariant
            1 <= i <= base@.len(),
            out@.len() == i,
            out@[0].name@ == base@[0].name@,
            out@[0].value@ == new_value@,
            forall|j: int|
                1 <= j < i ==> (#[trigger] out@[j]).name@ == base@[j].name@ && out@[j].value@
                    == base@[j].value@,
        decreases base@.len() - i,
    {
        out.push(clone_label(&base[i]));
        i = i + 1;
    }
    out
}

/// The classic histogram encoding: one series per cumulative bucket (base
/// labels plus an `le` label with the bucket's upper bound), then a series
/// named `<family>_count` with the total sample count, then a series named
/// `<family>_sum` with the sum — exactly `buckets + 2` series, each with
/// one sample at the given timestamp.
pub fn create_histogram_timeseries_simple(
    base_labels: Vec<Label>,
    metric_name: &str,
    sample_count_bits: u64,
    sum_bits: u64,
    buckets: &Vec<BucketData>,
    timestamp: i64,
) -> (r: Vec<TimeSeries>)
    requires
        base_labels@.len() >= 1,
    ensures
        r@.len() == buckets@.len() + 2,
        all_single_sample_at(r@, timestamp),
        all_plain_series(r@),
        forall|i: int|
            0 <= i < buckets@.len() ==> {
                let s = #[trigger] r@[i];
                &&& s.labels@.len() == base_labels@.len() + 1
                &&& s.labels@[base_labels@.len() as int].name@ == "le"@
                &&& s.labels@[base_labels@.len() as int].value@
                    == buckets@[i].upper_bound_label@
                &&& s.samples@[0].value_bits == buckets@[i].cumulative_count_bits
            },
        forall|i: int, k: int|
            0 <= i < buckets@.len() && 0 <= k < base_labels@.len() ==> (#[trigger] r@[i].labels@[k]).name@
                == base_labels@[k].name@ && r@[i].labels@[k].value@ == base_labels@[k].value@,
        r@[buckets@.len() as int].labels@.len() == base_labels@.len(),
        r@[buckets@.len() as int].labels@[0].name@ == base_labels@[0].name@,
        r@[buckets@.len() as int].labels@[0].value@ == metric_name@ + "_count"@,
        r@[buckets@.len() as int].samples@[0].value_bits == sample_count_bits,
        r@[buckets@.len() as int + 1].labels@.len() == base_labels@.len(),
        r@[buckets@.len() as int + 1].labels@[0].name@ == base_labels@[0].name@,
        r@[buckets@.len() as int + 1].labels@[0].value@ == metric_name@ + "_sum"@,
        r@[buckets@.len() as int + 1].samples@[0].value_bits == sum_bits,
        forall|k: int|
            1 <= k < base_labels@.len() ==> (#[trigger] r@[buckets@.len() as int].labels@[k]).name@
                == base_labels@[k].name@ && r@[buckets@.len() as int].labels@[k].value@
                == base_labels@[k].value@,
        forall|k: int|
            1 <= k < base_labels@.len() ==> (#[trigger] r@[buckets@.len() as int + 1].labels@[k]).name@
                == base_labels@[k].name@ && r@[buckets@.len() as int + 1].labels@[k].value@
                == base_labels@[k].value@,
{
    let mut out: Vec<TimeSeries> = Vec::new();
    let mut i: usize = 0;
    while i < buckets.len()
        invariant
            0 <= i <= buckets@.len(),
            base_labels@.len() >= 1,
            out@.len() == i,
            all_single_sample_at(out@, timestamp),
            all_plain_series(out@),
            forall|j: int|
                0 <= j < i ==> {
                    let s = #[trigger] out@[j];
                    &&& s.labels@.len() == base_labels@.len() + 1
                    &&& s.labels@[base_labels@.len() as int].name@ == "le"@
                    &&& s.labels@[base_labels@.len() as int].value@
                        == buckets@[j].upper_bound_label@
                    &&& s.samples@[0].value_bits == buckets@[j].cumulative_count_bits
                },
            forall|j: int, k: int|
                0 <= j < i && 0 <= k < base_labels@.len() ==> (#[trigger] out@[j].labels@[k]).name@
                    == base_labels@[k].name@ && out@[j].labels@[k].value@
                    == base_labels@[k].value@,
        decreases buckets@.len() - i,
    {
        let mut bucket_labels = clone_labels(&base_labels);
        bucket_labels.push(
            Label { name: "le".to_owned(), value: buckets[i].upper_bound_label.clone() },
        );
        let mut samples: Vec<Sample> = Vec::new();
        samples.push(Sample { value_bits: buckets[i].cumulative_count_bits, timestamp });
        out.push(
            TimeSeries {
                labels: bucket_labels,
                samples,
                exemplars: Vec::new(),
                histograms: Vec::new(),
            },
        );
        i = i + 1;
    }

    let count_name = metric_name.to_owned().concat("_count");
    let count_labels = with_first_value(&base_labels, count_name);
    let mut count_samples: Vec<Sample> = Vec::new();
    count_samples.push(Sample { value_bits: sample_count_bits, timestamp });
    out.push(
        TimeSeries {
            labels: count_labels,
            samples: count_samples,
            exemplars: Vec::new(),
            histograms: Vec::new(),
        },
    );

    let sum_name = metric_name.to_owned().concat("_sum");
    let sum_labels = with_first_value(&base_labels, sum_name);
    let mut sum_samples: Vec<Sample> = Vec::new();
    sum_samples.push(Sample { value_bits: sum_bits, timestamp });
    out.push(
        TimeSeries {
            labels: sum_labels,
            samples: sum_samples,
            exemplars: Vec::new(),
            histograms: Vec::new(),
        },
    );

    out
}

/// Every metric instance of every family, turned into its time series, in
/// gathering order, all stamped with the one timestamp of this snapshot.
pub fn process_metric_families(
    metric_families: &Vec<MetricFamilyData>,
    app: &str,
    timestamp: i64,
) -> (r: Vec<TimeSeries>)
    ensures
        r@.len() == spec_families_series_count(metric_families@),
        all_single_sample_at(r@, timestamp),
        all_series_labelled(r@, app@),
        all_plain_series(r@),
        forall|a: int, b: int|
            0 <= a < metric_families@.len() && 0 <= b < metric_families@[a].metrics@.len()
                ==> #[trigger] metric_series_ok(metric_families@, app@, r@, a, b),
{
    let mut out: Vec<TimeSeries> = Vec::new();
    let mut fi: usize = 0;
    proof {
        assert(metric_families@.take(0) =~= Seq::<MetricFamilyData>::empty());
    }
    while fi < metric_families.len()
        invariant
            0 <= fi <= metric_families@.len(),
            out@.len() == spec_families_series_count(metric_families@.take(fi as int)),
            all_single_sample_at(out@, timestamp),
            all_series_labelled(out@, app@),
            all_plain_series(out@),
            processed_upto(metric_families@, app@, out@, fi as int, 0),
        decreases metric_families@.len() - fi,
    {
        let family = &metric_families[fi];
        let mut mi: usize = 0;
        proof {
            assert(family.metrics@.take(0) =~= Seq::<MetricData>::empty());
        }
        while mi < family.metrics.len()
            invariant
                0 <= mi <= family.metrics@.len(),
                0 <= fi < metric_families@.len(),
                family == metric_families@[fi as int],
                out@.len() == spec_families_series_count(metric_families@.take(fi as int))
                    + spec_metrics_series_count(family.metrics@.take(mi as int)),
                all_single_sample_at(out@, timestamp),
                all_series_labelled(out@, app@),
                all_plain_series(out@),
                processed_upto(metric_families@, app@, out@, fi as int, mi as int),
            decreases family.metrics@.len() - mi,
        {
            let metric = &family.metrics[mi];
            let base_labels = create_base_labels(family.name.as_str(), app, metric);
            let ghost bl = base_labels@;
            let ghost prev = out@;
            let ghost fs = metric_families@;
            proof {
                assert(family.metrics@.take(mi as int + 1).drop_last() =~= family.metrics@.take(
                    mi as int,
                ));
                assert(family.metrics@.take(mi as int + 1).last() == family.metrics@[mi as int]);
                assert(spec_series_base(fs, fi as int, mi as int) == prev.len());
            }
            match &metric.value {
                MetricValue::Counter { value_bits } => {
                    let ts = create_counter_timeseries(base_labels, *value_bits, timestamp);
                    let ghost added = seq![ts];
                    out.push(ts);
                    proof {
                        assert(out@ =~= prev + added);
                        assert(metric_series_ok(fs, app@, out@, fi as int, mi as int)) by {
                            assert(out@[prev.len() as int] == ts);
                        }
                    }
                },
                MetricValue::Gauge { value_bits } => {
                    let ts = create_gauge_timeseries(base_labels, *value_bits, timestamp);
                    let ghost added = seq![ts];
                    out.push(ts);
                    proof {
                        assert(out@ =~= prev + added);
                        assert(metric_series_ok(fs, app@, out@, fi as int, mi as int)) by {
                            assert(out@[prev.len() as int] == ts);
                        }
                    }
                },
                MetricValue::Histogram { sample_count: _, sample_count_bits, sum_bits, buckets } => {
                    let mut series = create_histogram_timeseries_simple(
                        base_labels,
                        family.name.as_str(),
                        *sample_count_bits,
                        *sum_bits,
                        buckets,
                        timestamp,
                    );
                    let ghost added = series@;
                    out.append(&mut series);
                    proof {
                        assert(metric_series_ok(fs, app@, out@, fi as int, mi as int)) by {
                            let base = prev.len() as int;
                            let ghost bkts = match family.metrics@[mi as int].value {
                                MetricValue::Histogram { buckets: bs, .. } => bs@,
                                _ => Seq::empty(),
                            };
                            let nb = bkts.len() as int;
                            assert forall|k: int| 0 <= k < added.len() implies #[trigger] out@[base
                                + k] == added[k] by {}
                            assert forall|k: int| 0 <= k < nb implies #[trigger] out@[base + k]
                                == added[k] by {}
                            assert(out@[base + nb] == added[nb]);
                            assert(out@[base + nb + 1] == added[nb + 1]);
                        }
                    }
                    proof {
                        assert forall|i: int| 0 <= i < out@.len() implies (#[trigger] out@[i]).samples@.len()
                            == 1 && out@[i].samples@[0].timestamp == timestamp by {
                            if i < prev.len() {
                                assert(out@[i] == prev[i]);
                            } else {
                                assert(out@[i] == added[i - prev.len()]);
                            }
                        }
                        assert forall|i: int| 0 <= i < out@.len() implies {
                            let ls = (#[trigger] out@[i]).labels@;
                            &&& ls.len() >= 2
                            &&& ls[0].name@ == "__name__"@
                            &&& ls[1].name@ == "app"@
                            &&& ls[1].value@ == app@
                        } by {
                            if i < prev.len() {
                                assert(out@[i] == prev[i]);
                            } else {
                                assert(out@[i] == added[i - prev.len()]);
                            }
                        }
                        assert forall|i: int| 0 <= i < out@.len() implies (#[trigger] out@[i]).exemplars@.len()
                            == 0 && out@[i].histograms@.len() == 0 by {
                            if i < prev.len() {
                                assert(out@[i] == prev[i]);
                            } else {
                                assert(out@[i] == added[i - prev.len()]);
                            }
                        }
                    }
                },
            }
            proof {
                assert forall|a: int, b: int|
                    #![trigger metric_series_ok(fs, app@, out@, a, b)]
                    0 <= a < fs.len() && 0 <= b < fs[a].metrics@.len() && (a < fi as int || (a
                        == fi as int && b < mi as int + 1)) implies metric_series_ok(
                    fs,
                    app@,
                    out@,
                    a,
                    b,
                ) by {
                    if a < fi as int || (a == fi as int && b < mi as int) {
                        assert(metric_series_ok(fs, app@, prev, a, b));
                        lemma_ok_extends(fs, app@, prev, out@.skip(prev.len() as int), a, b);
                        assert(prev + out@.skip(prev.len() as int) =~= out@);
                    }
                }
            }
            mi = mi + 1;
        }
        proof {
            assert(family.metrics@.take(family.metrics@.len() as int) =~= family.metrics@);
            assert forall|a: int, b: int|
                #![trigger metric_series_ok(metric_families@, app@, out@, a, b)]
                0 <= a < metric_families@.len() && 0 <= b < metric_families@[a].metrics@.len() && (
                a < fi as int + 1 || (a == fi as int + 1 && b < 0)) implies metric_series_ok(
                metric_families@,
                app@,
                out@,
                a,
                b,
            ) by {
                assert(metric_series_ok(metric_families@, app@, out@, a, b));
            }
            assert(metric_families@.take(fi as int + 1).drop_last() =~= metric_families@.take(
                fi as int,
            ));
            assert(metric_families@.take(fi as int + 1).last() == metric_families@[fi as int]);
        }
        fi = fi + 1;
    }
    proof {
        assert(metric_families@.take(metric_families@.len() as int) =~= metric_families@);
        assert forall|a: int, b: int|
            0 <= a < metric_families@.len() && 0 <= b < metric_families@[a].metrics@.len() implies #[trigger] metric_series_ok(
            metric_families@,
            app@,
            out@,
            a,
            b,
        ) by {}
    }
    out
}

} // verus!
