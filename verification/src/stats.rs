//! The shared statistics aggregate: latency histogram, status-code
//! distribution, running counters, byte totals, and a bounded buffer of raw
//! request outcomes. Workers mutate it one discrete operation at a time (a
//! driver serialises access); the publisher and the final result computation
//! read it.

use crate::hist::{
    hist_entries, hist_entries_vec, hist_new, hist_record, hist_recorded, lemma_percentile_monotone,
    spec_percentile, LatencyHistogram,
};
use crate::outcome::RequestOutcome;
use std::collections::HashMap;
use vstd::prelude::*;

verus! {

broadcast use vstd::std_specs::hash::group_hash_axioms;

/// Cap on the raw-sample buffer: samples beyond this many are dropped, which
/// bounds memory for arbitrarily long runs.
pub const SAMPLE_CAP: usize = 50000;

/// All statistics of one run. Never shrinks while the run lasts.
pub struct StatsAggregate {
    /// Request durations in whole microseconds.
    pub hist: LatencyHistogram,
    /// How often each HTTP status code (or 0, for transport failures) was
    /// seen.
    pub status_codes: HashMap<u16, u64>,
    /// Every recorded request.
    pub total_requests: u64,
    /// Every recorded request whose status was 2xx.
    pub successful_requests: u64,
    /// Estimated bytes sent over all requests.
    pub total_bytes_sent: u64,
    /// Estimated bytes received over all requests.
    pub total_bytes_received: u64,
    /// The first `SAMPLE_CAP` outcomes, in arrival order.
    pub samples: Vec<RequestOutcome>,
}

impl StatsAggregate {
    /// The aggregate's invariant: the success count never exceeds the total,
    /// no status code was seen more often than there were requests, and the
    /// raw-sample buffer never exceeds its cap.
    pub open spec fn wf(self) -> bool {
        &&& self.successful_requests <= self.total_requests
        &&& self.samples@.len() <= SAMPLE_CAP
        &&& forall|k: u16|
            self.status_codes@.contains_key(k) ==> #[trigger] self.status_codes@[k]
                <= self.total_requests
    }

    /// Requests that were recorded but did not succeed.
    pub open spec fn spec_failed(self) -> int {
        self.total_requests - self.successful_requests
    }

    /// A fresh, empty aggregate.
    pub fn new() -> (r: StatsAggregate)
        ensures
            r.wf(),
            r.total_requests == 0,
            r.successful_requests == 0,
            r.total_bytes_sent == 0,
            r.total_bytes_received == 0,
            r.samples@ == Seq::<RequestOutcome>::empty(),
            r.status_codes@ == Map::<u16, u64>::empty(),
            hist_recorded(r.hist).len() == 0,
    {
        StatsAggregate {
            hist: hist_new(3),
            status_codes: HashMap::new(),
            total_requests: 0,
            successful_requests: 0,
            total_bytes_sent: 0,
            total_bytes_received: 0,
            samples: Vec::new(),
        }
    }

    /// Records one outcome: its duration goes into the histogram, its status
    /// code's count, the total (and, for a success, the success count) and
    /// the byte totals all advance by exactly this outcome's contribution.
    pub fn record(&mut self, outcome: RequestOutcome)
        requires
            old(self).wf(),
            old(self).total_requests < u64::MAX,
            old(self).total_bytes_sent + outcome.bytes_sent <= u64::MAX,
            old(self).total_bytes_received + outcome.bytes_received <= u64::MAX,
        ensures
            final(self).wf(),
            final(self).total_requests == old(self).total_requests + 1,
            final(self).successful_requests == old(self).successful_requests + (
            if outcome.success {
                1int
            } else {
                0int
            }),
            final(self).status_codes@ == old(self).status_codes@.insert(
                outcome.status_code,
                (old_status_count(old(self).status_codes@, outcome.status_code) + 1) as u64,
            ),
            final(self).total_bytes_sent == old(self).total_bytes_sent + outcome.bytes_sent,
            final(self).total_bytes_received == old(self).total_bytes_received
                + outcome.bytes_received,
            final(self).samples == old(self).samples,
            hist_recorded(final(self).hist) == hist_recorded(old(self).hist).insert(
                outcome.duration_micros,
            ),
    {
        hist_record(&mut self.hist, outcome.duration_micros);
        let prev: u64 = match self.status_codes.get(&outcome.status_code) {
            Some(c) => *c,
            None => 0,
        };
        self.status_codes.insert(outcome.status_code, prev + 1);
        self.total_requests = self.total_requests + 1;
        if outcome.success {
            self.successful_requests = self.successful_requests + 1;
        }
        self.total_bytes_sent = self.total_bytes_sent + outcome.bytes_sent;
        self.total_bytes_received = self.total_bytes_received + outcome.bytes_received;
        proof {
            assert forall|k: u16| self.status_codes@.contains_key(k) implies #[trigger] self
                .status_codes@[k] <= self.total_requests by {
                if k != outcome.status_code {
                    assert(old(self).status_codes@.contains_key(k));
                }
            }
        }
    }

    /// Appends one outcome to the raw-sample buffer, unless the buffer has
    /// reached its cap, in which case the sample is dropped. The buffer
    /// never exceeds `SAMPLE_CAP` entries.
    pub fn push_sample(&mut self, outcome: RequestOutcome)
        requires
            old(self).wf(),
        ensures
            final(self).wf(),
            final(self).samples@ == if old(self).samples@.len() < SAMPLE_CAP {
                old(self).samples@.push(outcome)
            } else {
                old(self).samples@
            },
            final(self).samples@.len() <= SAMPLE_CAP,
            final(self).hist == old(self).hist,
            final(self).status_codes == old(self).status_codes,
            final(self).total_requests == old(self).total_requests,
            final(self).successful_requests == old(self).successful_requests,
            final(self).total_bytes_sent == old(self).total_bytes_sent,
            final(self).total_bytes_received == old(self).total_bytes_received,
    {
        if self.samples.len() < SAMPLE_CAP {
            self.samples.push(outcome);
        }
    }

    /// The number of failed requests.
    pub fn failed_requests(&self) -> (r: u64)
        requires
            self.wf(),
        ensures
            r == self.spec_failed(),
    {
        self.total_requests - self.successful_requests
    }

    /// The p50/p90/p95/p99 of the recorded durations, in microseconds, in
    /// that order; all zero while nothing has been recorded. The four values
    /// never decrease from left to right.
    pub fn percentiles(&self) -> (r: (u64, u64, u64, u64))
        ensures
            r.0 == spec_percentile(hist_entries(self.hist), 50),
            r.1 == spec_percentile(hist_entries(self.hist), 90),
            r.2 == spec_percentile(hist_entries(self.hist), 95),
            r.3 == spec_percentile(hist_entries(self.hist), 99),
            r.0 <= r.1 <= r.2 <= r.3,
            hist_recorded(self.hist).len() == 0 ==> r == (0u64, 0u64, 0u64, 0u64),
    {
        let entries = hist_entries_vec(&self.hist);
        let p50 = percentile_from_entries(&entries, 50);
        let p90 = percentile_from_entries(&entries, 90);
        let p95 = percentile_from_entries(&entries, 95);
        let p99 = percentile_from_entries(&entries, 99);
        proof {
            lemma_percentile_monotone(entries@, 50, 90);
            lemma_percentile_monotone(entries@, 90, 95);
            lemma_percentile_monotone(entries@, 95, 99);
        }
        (p50, p90, p95, p99)
    }
}

/// The count a status code had before an update: its map entry, or 0 when it
/// had not been seen yet.
pub open spec fn old_status_count(m: Map<u16, u64>, code: u16) -> int {
    if m.contains_key(code) {
        m[code] as int
    } else {
        0
    }
}

use crate::hist::percentile_from_entries;

/// The summed duration of a sequence of outcomes, in microseconds.
pub open spec fn spec_sum_duration(s: Seq<RequestOutcome>) -> int
    decreases s.len(),
{
    if s.len() == 0 {
        0
    } else {
        spec_sum_duration(s.drop_last()) + s.last().duration_micros
    }
}

/// The smallest duration in a sequence of outcomes (0 when it is empty).
pub open spec fn spec_min_duration(s: Seq<RequestOutcome>) -> u64
    decreases s.len(),
{
    if s.len() == 0 {
        0
    } else if s.len() == 1 {
        s[0].duration_micros
    } else {
        let m = spec_min_duration(s.drop_last());
        if s.last().duration_micros <= m {
            s.last().duration_micros
        } else {
            m
        }
    }
}

/// The largest duration in a sequence of outcomes (0 when it is empty).
pub open spec fn spec_max_duration(s: Seq<RequestOutcome>) -> u64
    decreases s.len(),
{
    if s.len() == 0 {
        0
    } else {
        let m = spec_max_duration(s.drop_last());
        if s.last().duration_micros >= m {
            s.last().duration_micros
        } else {
            m
        }
    }
}

/// The final figures of one run, all in integer units. Durations are in
/// microseconds; derived rates and averages are for the caller to compute
/// from the sums kept here. The request counts come from the aggregate's
/// counters and cover every request of the run; the duration sum and
/// extremes come from the capped raw-sample buffer.
pub struct TestResults {
    /// Every recorded request of the run.
    pub total_requests: u64,
    /// Every recorded request whose status was 2xx.
    pub successful_requests: u64,
    /// Every recorded request that did not succeed.
    pub failed_requests: u64,
    /// The configured virtual-user target.
    pub vus: usize,
    /// How many raw samples the capped buffer holds (the denominator for
    /// averaging the duration sum).
    pub buffered_samples: usize,
    /// Sum of all buffered durations, for averaging.
    pub sum_duration_micros: u128,
    /// Smallest buffered duration (0 when there are no samples).
    pub min_duration_micros: u64,
    /// Largest buffered duration (0 when there are no samples).
    pub max_duration_micros: u64,
    /// Latency percentiles over the full histogram.
    pub p50_micros: u64,
    pub p90_micros: u64,
    pub p95_micros: u64,
    pub p99_micros: u64,
    /// How often each status code was seen, over all requests.
    pub status_code_distribution: HashMap<u16, u64>,
    /// Estimated bytes sent over all requests.
    pub total_bytes_sent: u64,
    /// Estimated bytes received over all requests.
    pub total_bytes_received: u64,
}

impl StatsAggregate {
    /// Computes the final figures of the run: request counts from the
    /// aggregate's counters (every request of the run), the duration sum and
    /// extremes over the buffered samples, percentiles over the full
    /// histogram, and the status-code distribution and byte totals over all
    /// requests.
    pub fn calculate_results(&self, vus: usize) -> (r: TestResults)
        requires
            self.wf(),
        ensures
            r.total_requests == self.total_requests,
            r.successful_requests == self.successful_requests,
            r.failed_requests == self.spec_failed(),
            r.successful_requests + r.failed_requests == r.total_requests,
            r.vus == vus,
            r.buffered_samples == self.samples@.len(),
            r.sum_duration_micros == spec_sum_duration(self.samples@),
            r.min_duration_micros == spec_min_duration(self.samples@),
            r.max_duration_micros == spec_max_duration(self.samples@),
            r.p50_micros == spec_percentile(hist_entries(self.hist), 50),
            r.p90_micros == spec_percentile(hist_entries(self.hist), 90),
            r.p95_micros == spec_percentile(hist_entries(self.hist), 95),
            r.p99_micros == spec_percentile(hist_entries(self.hist), 99),
            r.p50_micros <= r.p90_micros <= r.p95_micros <= r.p99_micros,
            r.status_code_distribution@ == self.status_codes@,
            r.total_bytes_sent == self.total_bytes_sent,
            r.total_bytes_received == self.total_bytes_received,
    {
        let n = self.samples.len();
        let mut sum: u128 = 0;
        let mut min: u64 = 0;
        let mut max: u64 = 0;
        let mut i: usize = 0;
        proof {
            assert(self.samples@.take(0) =~= Seq::<RequestOutcome>::empty());
        }
        while i < n
            invariant
                0 <= i <= n == self.samples@.len(),
                sum == spec_sum_duration(self.samples@.take(i as int)),
                sum <= (i as int) * (u64::MAX as int),
                min == spec_min_duration(self.samples@.take(i as int)),
                max == spec_max_duration(self.samples@.take(i as int)),
            decreases n - i,
        {
            let s = &self.samples[i];
            proof {
                let t = self.samples@.take(i as int + 1);
                assert(t.drop_last() =~= self.samples@.take(i as int));
                assert(t.last() == self.samples@[i as int]);
            }
            sum = sum + s.duration_micros as u128;
            if i == 0 {
                min = s.duration_micros;
                max = s.duration_micros;
            } else {
                if s.duration_micros < min {
                    min = s.duration_micros;
                }
                if s.duration_micros > max {
                    max = s.duration_micros;
                }
            }
            i = i + 1;
        }
        proof {
            assert(self.samples@.take(n as int) =~= self.samples@);
        }
        let (p50, p90, p95, p99) = self.percentiles();
        TestResults {
            total_requests: self.total_requests,
            successful_requests: self.successful_requests,
            failed_requests: self.total_requests - self.successful_requests,
            vus,
            buffered_samples: n,
            sum_duration_micros: sum,
            min_duration_micros: min,
            max_duration_micros: max,
            p50_micros: p50,
            p90_micros: p90,
            p95_micros: p95,
            p99_micros: p99,
            status_code_distribution: self.status_codes.clone(),
            total_bytes_sent: self.total_bytes_sent,
            total_bytes_received: self.total_bytes_received,
        }
    }
}

/// At every aggregate state the success and failure counts partition the
/// total: `successful_requests + failed_requests == total_requests`.
pub proof fn lemma_success_failure_partition(s: StatsAggregate)
    requires
        s.wf(),
    ensures
        s.successful_requests + s.spec_failed() == s.total_requests,
{
}

/// The raw-sample buffer never holds more than 50,000 entries, however long
/// the run and however fast requests complete.
pub proof fn lemma_sample_buffer_bounded(s: StatsAggregate)
    requires
        s.wf(),
    ensures
        s.samples@.len() <= 50000,
{
}

} // verus!
