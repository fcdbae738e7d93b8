//! Strictly monotonic timestamps for remote-write samples.
//!
//! Publishes are processed one at a time, and each one stamps its samples
//! with a timestamp obtained here: the current wall-clock reading if it is
//! strictly ahead of the last issued timestamp, and the last issued
//! timestamp plus one millisecond otherwise. The clock may be coarse or even
//! step backwards; issued timestamps still strictly increase.

use vstd::prelude::*;

verus! {

/// The timestamp issued for a clock reading `now` when the last issued
/// timestamp was `last`.
pub open spec fn next_timestamp(last: int, now: int) -> int {
    if now > last {
        now
    } else {
        last + 1
    }
}

/// The timestamps issued for a sequence of clock readings, in order, starting
/// from last issued timestamp `last`.
pub open spec fn issued_from(last: int, clocks: Seq<int>) -> Seq<int>
    decreases clocks.len(),
{
    if clocks.len() == 0 {
        Seq::empty()
    } else {
        let t = next_timestamp(last, clocks[0]);
        seq![t] + issued_from(t, clocks.drop_first())
    }
}

/// One timestamp is issued per clock reading.
pub proof fn lemma_issued_len(last: int, clocks: Seq<int>)
    ensures
        issued_from(last, clocks).len() == clocks.len(),
    decreases clocks.len(),
{
    if clocks.len() > 0 {
        lemma_issued_len(next_timestamp(last, clocks[0]), clocks.drop_first());
    }
}

/// Every issued timestamp lies strictly above the state the run started from.
pub proof fn lemma_issued_above_start(last: int, clocks: Seq<int>, k: int)
    requires
        0 <= k < clocks.len(),
    ensures
        issued_from(last, clocks).len() == clocks.len(),
        issued_from(last, clocks)[k] > last,
    decreases clocks.len(),
{
    lemma_issued_len(last, clocks);
    let t = next_timestamp(last, clocks[0]);
    if k > 0 {
        lemma_issued_above_start(t, clocks.drop_first(), k - 1);
    }
}

/// For any sequence of clock readings — including repeated or decreasing
/// ones — the issued timestamps are strictly increasing.
pub proof fn lemma_issued_strictly_increasing(last: int, clocks: Seq<int>, i: int, j: int)
    requires
        0 <= i < j < clocks.len(),
    ensures
        issued_from(last, clocks).len() == clocks.len(),
        issued_from(last, clocks)[i] < issued_from(last, clocks)[j],
    decreases clocks.len(),
{
    lemma_issued_len(last, clocks);
    let t = next_timestamp(last, clocks[0]);
    if i == 0 {
        lemma_issued_above_start(t, clocks.drop_first(), j - 1);
    } else {
        lemma_issued_strictly_increasing(t, clocks.drop_first(), i - 1, j - 1);
    }
}

/// Two publishes within the same millisecond: when the clock reading `c` is
/// ahead of the last issued timestamp, the first publish is stamped `c` and
/// the second — issued before the clock advances — is stamped exactly
/// `c + 1`.
pub proof fn lemma_same_millisecond_publishes(last: int, c: int)
    requires
        c > last,
    ensures
        next_timestamp(last, c) == c,
        next_timestamp(next_timestamp(last, c), c) == c + 1,
{
}

/// Issues strictly increasing millisecond timestamps. The caller supplies the
/// wall-clock reading; the sequencer only guarantees that what it hands out
/// always moves forward.
pub struct TimestampSequencer {
    pub last: i64,
}

impl TimestampSequencer {
    /// A fresh sequencer; the first issued timestamp will be positive for any
    /// non-negative clock reading.
    pub fn new() -> (r: TimestampSequencer)
        ensures
            r.last == 0,
    {
        TimestampSequencer { last: 0 }
    }

    /// Issues the next timestamp for the given wall-clock reading (in
    /// milliseconds since the epoch). The result is strictly greater than
    /// every previously issued timestamp; when the clock has not advanced
    /// past the last issued timestamp, the last timestamp plus one is issued
    /// instead.
    pub fn next(&mut self, now_ms: i64) -> (t: i64)
        requires
            old(self).last < i64::MAX,
        ensures
            t == next_timestamp(old(self).last as int, now_ms as int),
            t > old(self).last,
            final(self).last == t,
    {
        if now_ms > self.last {
            self.last = now_ms;
        } else {
            self.last = self.last + 1;
        }
        self.last
    }
}

} // verus!
