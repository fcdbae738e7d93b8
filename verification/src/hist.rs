//! The latency histogram: recording is delegated to `hdrhistogram`, which
//! buckets values to a fixed number of significant digits in bounded memory;
//! percentile selection over the recorded buckets is done here and verified.
//!
//! The histogram is modelled by two names: `hist_recorded`, the multiset of
//! values recorded into it, and `hist_entries`, the ascending sequence of
//! `(bucket value, count)` pairs its recorded-value iterator yields.

use vstd::arithmetic::mul::lemma_mul_inequality;
use vstd::multiset::Multiset;
use vstd::prelude::*;

verus! {

/// A latency histogram with `hdrhistogram` underneath; opaque to the
/// verifier, described only through `hist_recorded` and `hist_entries`.
#[verifier::external_body]
pub struct LatencyHistogram {
    inner: hdrhistogram::Histogram<u64>,
}

/// The multiset of values recorded into a histogram.
pub uninterp spec fn hist_recorded(h: LatencyHistogram) -> Multiset<u64>;

/// The `(bucket value, count)` pairs of a histogram's non-empty buckets, in
/// ascending value order.
pub uninterp spec fn hist_entries(h: LatencyHistogram) -> Seq<(u64, u64)>;

/// Relies on `hdrhistogram::Histogram::new`: with at most five significant
/// digits requested, construction succeeds and yields an empty,
/// auto-resizing histogram.
#[verifier::external_body]
pub fn hist_new(sigfig: u8) -> (r: LatencyHistogram)
    requires
        sigfig <= 5,
    ensures
        hist_recorded(r) == Multiset::<u64>::empty(),
        hist_entries(r) == Seq::<(u64, u64)>::empty(),
{
    LatencyHistogram { inner: hdrhistogram::Histogram::new(sigfig).unwrap() }
}

/// Relies on `hdrhistogram::Histogram::record`: an auto-resizing histogram
/// accepts every value, so exactly this value is recorded. The only failing
/// path is a resize whose bin count overflows `usize`, and the bin count of
/// this histogram is bounded far below that.
#[verifier::external_body]
pub fn hist_record(h: &mut LatencyHistogram, value: u64)
    ensures
        hist_recorded(*final(h)) == hist_recorded(*old(h)).insert(value),
{
    let _ = h.inner.record(value);
}

/// Relies on `hdrhistogram::Histogram::iter_recorded`: it yields one entry
/// per non-empty bucket, in ascending order of bucket value, each carrying
/// the bucket's highest equivalent value and its positive count; there are
/// entries exactly when something has been recorded.
#[verifier::external_body]
pub fn hist_entries_vec(h: &LatencyHistogram) -> (r: Vec<(u64, u64)>)
    ensures
        r@ == hist_entries(*h),
        entries_sorted(r@),
        (r@.len() == 0) == (hist_recorded(*h).len() == 0),
{
    h.inner.iter_recorded().map(|v| (v.value_iterated_to(), v.count_at_value())).collect()
}

/// Bucket entries as the histogram iterator yields them: values strictly
/// ascending, every count positive.
pub open spec fn entries_sorted(entries: Seq<(u64, u64)>) -> bool {
    &&& forall|i: int, j: int|
        0 <= i < j < entries.len() ==> (#[trigger] entries[i]).0 < (#[trigger] entries[j]).0
    &&& forall|i: int| 0 <= i < entries.len() ==> (#[trigger] entries[i]).1 >= 1
}

/// The total number of samples held by a sequence of bucket entries.
pub open spec fn entries_total(entries: Seq<(u64, u64)>) -> int
    decreases entries.len(),
{
    if entries.len() == 0 {
        0
    } else {
        entries[0].1 + entries_total(entries.drop_first())
    }
}

/// The bucket value reached after walking `target` samples into the
/// cumulative distribution: the first bucket whose cumulative count reaches
/// `target` (0 when the walk falls off the end).
pub open spec fn value_at_rank(entries: Seq<(u64, u64)>, target: int) -> u64
    decreases entries.len(),
{
    if entries.len() == 0 {
        0
    } else if entries[0].1 >= target {
        entries[0].0
    } else {
        value_at_rank(entries.drop_first(), target - entries[0].1)
    }
}

/// The sample rank a percentile asks for: `ceil(pct * total / 100)`, at
/// least 1 and at most `total`.
pub open spec fn percentile_rank(total: int, pct: int) -> int {
    let c = (pct * total + 99) / 100;
    if c < 1 {
        1
    } else if c > total {
        total
    } else {
        c
    }
}

/// The value at a percentile of a bucket-entry distribution; 0 when it is
/// empty.
pub open spec fn spec_percentile(entries: Seq<(u64, u64)>, pct: int) -> u64 {
    if entries.len() == 0 {
        0
    } else {
        value_at_rank(entries, percentile_rank(entries_total(entries), pct))
    }
}

proof fn lemma_total_nonneg(entries: Seq<(u64, u64)>)
    ensures
        entries_total(entries) >= 0,
    decreases entries.len(),
{
    if entries.len() > 0 {
        lemma_total_nonneg(entries.drop_first());
    }
}

proof fn lemma_sorted_drop_first(entries: Seq<(u64, u64)>)
    requires
        entries_sorted(entries),
        entries.len() > 0,
    ensures
        entries_sorted(entries.drop_first()),
{
    let rest = entries.drop_first();
    assert forall|i: int, j: int| 0 <= i < j < rest.len() implies (#[trigger] rest[i]).0 < (
    #[trigger] rest[j]).0 by {
        assert(rest[i] == entries[i + 1]);
        assert(rest[j] == entries[j + 1]);
    }
    assert forall|i: int| 0 <= i < rest.len() implies (#[trigger] rest[i]).1 >= 1 by {
        assert(rest[i] == entries[i + 1]);
    }
}

/// Walking to a rank within the distribution always lands on some bucket, so
/// the result is at least the first bucket's value.
proof fn lemma_value_at_rank_ge_first(entries: Seq<(u64, u64)>, target: int)
    requires
        entries_sorted(entries),
        entries.len() > 0,
        1 <= target <= entries_total(entries),
    ensures
        value_at_rank(entries, target) >= entries[0].0,
    decreases entries.len(),
{
    if entries[0].1 >= target {
    } else {
        let rest = entries.drop_first();
        lemma_sorted_drop_first(entries);
        lemma_total_nonneg(rest);
        assert(rest.len() > 0);
        lemma_value_at_rank_ge_first(rest, target - entries[0].1);
        assert(rest[0] == entries[1]);
        assert(entries[1].0 > entries[0].0);
    }
}

/// The cumulative walk is monotone: a deeper rank never lands on a smaller
/// bucket value.
proof fn lemma_value_at_rank_monotone(entries: Seq<(u64, u64)>, t1: int, t2: int)
    requires
        entries_sorted(entries),
        1 <= t1 <= t2 <= entries_total(entries),
    ensures
        value_at_rank(entries, t1) <= value_at_rank(entries, t2),
    decreases entries.len(),
{
    if entries.len() > 0 {
        let rest = entries.drop_first();
        lemma_sorted_drop_first(entries);
        if entries[0].1 >= t2 {
        } else if entries[0].1 >= t1 {
            lemma_total_nonneg(rest);
            assert(entries_total(entries) == entries[0].1 + entries_total(rest));
            assert(entries_total(rest) >= t2 - entries[0].1 >= 1);
            assert(rest.len() > 0);
            lemma_value_at_rank_ge_first(rest, t2 - entries[0].1);
            assert(rest[0] == entries[1]);
            assert(entries[1].0 > entries[0].0);
        } else {
            lemma_value_at_rank_monotone(rest, t1 - entries[0].1, t2 - entries[0].1);
        }
    }
}

/// Percentile queries are monotone in the percentile: for any bucket-entry
/// distribution as the histogram yields it, a higher percentile never maps
/// to a smaller value. In particular `p50 <= p90 <= p95 <= p99`.
pub proof fn lemma_percentile_monotone(entries: Seq<(u64, u64)>, p1: int, p2: int)
    requires
        entries_sorted(entries),
        0 <= p1 <= p2,
    ensures
        spec_percentile(entries, p1) <= spec_percentile(entries, p2),
{
    if entries.len() > 0 {
        let total = entries_total(entries);
        lemma_total_nonneg(entries.drop_first());
        assert(total >= 1);
        lemma_mul_inequality(p1, p2, total);
        vstd::arithmetic::div_mod::lemma_div_is_ordered(p1 * total + 99, p2 * total + 99, 100);
        let t1 = percentile_rank(total, p1);
        let t2 = percentile_rank(total, p2);
        assert(1 <= t1 <= t2 <= total);
        lemma_value_at_rank_monotone(entries, t1, t2);
    }
}

/// Sums the counts of a bucket-entry vector.
fn entries_total_exec(entries: &Vec<(u64, u64)>) -> (r: u128)
    ensures
        r == entries_total(entries@),
        r <= entries@.len() * (u64::MAX as int),
{
    let mut acc: u128 = 0;
    let mut i: usize = 0;
    proof {
        assert(entries@.skip(0) == entries@);
    }
    while i < entries.len()
        invariant
            0 <= i <= entries@.len(),
            acc <= (i as int) * (u64::MAX as int),
            acc + entries_total(entries@.skip(i as int)) == entries_total(entries@),
        decreases entries@.len() - i,
    {
        proof {
            let s = entries@.skip(i as int);
            assert(s.len() > 0);
            assert(s[0] == entries@[i as int]);
            assert(s.drop_first() =~= entries@.skip(i as int + 1));
            lemma_total_nonneg(s.drop_first());
        }
        acc = acc + entries[i].1 as u128;
        i = i + 1;
    }
    proof {
        assert(entries@.skip(entries@.len() as int) =~= Seq::<(u64, u64)>::empty());
    }
    acc
}

/// Walks the cumulative distribution to the given rank.
fn value_at_rank_exec(entries: &Vec<(u64, u64)>, target: u128) -> (r: u64)
    ensures
        r == value_at_rank(entries@, target as int),
{
    let mut i: usize = 0;
    let mut t: u128 = target;
    proof {
        assert(entries@.skip(0) == entries@);
    }
    while i < entries.len()
        invariant
            0 <= i <= entries@.len(),
            t <= target,
            value_at_rank(entries@.skip(i as int), t as int) == value_at_rank(
                entries@,
                target as int,
            ),
        decreases entries@.len() - i,
    {
        proof {
            let s = entries@.skip(i as int);
            assert(s.len() > 0);
            assert(s[0] == entries@[i as int]);
            assert(s.drop_first() =~= entries@.skip(i as int + 1));
        }
        let c = entries[i].1;
        if c as u128 >= t {
            return entries[i].0;
        }
        t = t - c as u128;
        i = i + 1;
    }
    proof {
        assert(entries@.skip(entries@.len() as int) =~= Seq::<(u64, u64)>::empty());
    }
    0
}

/// The value at a percentile of the recorded distribution, 0 when nothing
/// has been recorded. The rank asked for is `ceil(pct * total / 100)`,
/// clamped to `1..=total`, and the walk returns the first bucket whose
/// cumulative count reaches it.
pub fn percentile_from_entries(entries: &Vec<(u64, u64)>, pct: u64) -> (r: u64)
    requires
        pct <= 100,
        entries_sorted(entries@),
    ensures
        r == spec_percentile(entries@, pct as int),
{
    if entries.len() == 0 {
        return 0;
    }
    let total = entries_total_exec(entries);
    proof {
        lemma_total_nonneg(entries@.drop_first());
        assert(entries@[0].1 >= 1);
        assert(total >= 1);
    }
    let q: u128 = total / 100;
    let rem: u128 = total % 100;
    proof {
        assert(rem < 100);
        assert((pct as int) * (rem as int) <= 9900) by (nonlinear_arith)
            requires
                0 <= pct as int <= 100,
                0 <= rem as int <= 99;
    }
    let tail: u128 = (pct as u128 * rem + 99) / 100;
    proof {
        vstd::arithmetic::div_mod::lemma_fundamental_div_mod(total as int, 100);
        assert((pct as int) * (q as int) <= 100 * (q as int)) by (nonlinear_arith)
            requires
                0 <= pct as int <= 100,
                q as int >= 0;
        assert(100 * (q as int) <= total as int);
        assert(tail <= 99);
    }
    let c: u128 = pct as u128 * q + tail;
    proof {
        let p = pct as int;
        let t = total as int;
        let qq = q as int;
        let rr = rem as int;
        assert(p * t == 100 * (p * qq) + p * rr) by (nonlinear_arith)
            requires
                t == 100 * qq + rr;
        vstd::arithmetic::div_mod::lemma_hoist_over_denominator(p * rr + 99, p * qq, 100);
        assert(c == (p * t + 99) / 100);
    }
    let rank: u128 = if c < 1 {
        1
    } else if c > total {
        total
    } else {
        c
    };
    value_at_rank_exec(entries, rank)
}

} // verus!
