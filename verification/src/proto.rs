//! The binary wire encoding of a `WriteRequest`: protocol-buffer wire
//! format, written out field by field.
//!
//! Every message is a concatenation of fields; a field is a one-byte key
//! (tag and wire type) followed by its payload. Scalar fields equal to
//! their default value are omitted; repeated message fields emit one
//! length-prefixed element each. The spec functions define the exact byte
//! sequence; the encoders are proved to produce it.

use crate::wire::{
    spec_metric_type_value, Bucket, Exemplar, Histogram, Label, MetricMetadata, Sample, TimeSeries,
    WriteRequest,
};
use vstd::prelude::*;
use vstd::string::StrSliceExecFns;
use vstd::utf8::encode_utf8;

verus! {

/// Base-128 varint encoding of an unsigned value, least significant group
/// first; all bytes but the last have the high bit set.
pub open spec fn spec_varint(n: nat) -> Seq<u8>
    decreases n,
{
    if n < 128 {
        seq![n as u8]
    } else {
        seq![((n % 128) + 128) as u8] + spec_varint(n / 128)
    }
}

/// The unsigned 64-bit value that an `int64` field carries: the two's
/// complement reading of the signed value.
pub open spec fn spec_u64_of_i64(t: i64) -> nat {
    (t as u64) as nat
}

/// A field key: tag and wire type packed into one varint.
pub open spec fn spec_key(tag: nat, wire: nat) -> Seq<u8> {
    spec_varint(tag * 8 + wire)
}

/// The eight bytes of a 64-bit value, least significant first.
pub open spec fn spec_le64(x: u64) -> Seq<u8> {
    seq![
        (x & 0xff) as u8,
        ((x >> 8) & 0xff) as u8,
        ((x >> 16) & 0xff) as u8,
        ((x >> 24) & 0xff) as u8,
        ((x >> 32) & 0xff) as u8,
        ((x >> 40) & 0xff) as u8,
        ((x >> 48) & 0xff) as u8,
        ((x >> 56) & 0xff) as u8,
    ]
}

/// Whether a double's bit pattern is a zero (positive or negative): such
/// sample values are defaults and their field is omitted.
pub open spec fn spec_is_zero_bits(bits: u64) -> bool {
    bits == 0 || bits == 0x8000_0000_0000_0000
}

/// A length-delimited field: key, payload length, payload.
pub open spec fn spec_len_delimited(tag: nat, payload: Seq<u8>) -> Seq<u8> {
    spec_key(tag, 2) + spec_varint(payload.len()) + payload
}

/// A string field: its UTF-8 bytes, length-delimited; omitted when empty.
pub open spec fn spec_string_field(tag: nat, s: Seq<char>) -> Seq<u8> {
    if encode_utf8(s).len() == 0 {
        Seq::empty()
    } else {
        spec_len_delimited(tag, encode_utf8(s))
    }
}

/// An unsigned varint field; omitted when zero.
pub open spec fn spec_u64_field(tag: nat, n: u64) -> Seq<u8> {
    if n == 0 {
        Seq::empty()
    } else {
        spec_key(tag, 0) + spec_varint(n as nat)
    }
}

/// A signed 64-bit varint field (two's complement); omitted when zero.
pub open spec fn spec_i64_field(tag: nat, t: i64) -> Seq<u8> {
    if t == 0 {
        Seq::empty()
    } else {
        spec_key(tag, 0) + spec_varint(spec_u64_of_i64(t))
    }
}

/// A double field, carried as its raw bits in little-endian order; omitted
/// when the value is a (positive or negative) zero.
pub open spec fn spec_double_field(tag: nat, bits: u64) -> Seq<u8> {
    if spec_is_zero_bits(bits) {
        Seq::empty()
    } else {
        spec_key(tag, 1) + spec_le64(bits)
    }
}

/// A repeated message field: one length-delimited element per payload, in
/// order.
pub open spec fn spec_repeated(tag: nat, payloads: Seq<Seq<u8>>) -> Seq<u8>
    decreases payloads.len(),
{
    if payloads.len() == 0 {
        Seq::empty()
    } else {
        spec_len_delimited(tag, payloads[0]) + spec_repeated(tag, payloads.drop_first())
    }
}

/// Appending one more element extends the repeated field at its end.
pub proof fn lemma_repeated_push(tag: nat, payloads: Seq<Seq<u8>>, x: Seq<u8>)
    ensures
        spec_repeated(tag, payloads.push(x)) == spec_repeated(tag, payloads) + spec_len_delimited(
            tag,
            x,
        ),
    decreases payloads.len(),
{
    let p = payloads.push(x);
    if payloads.len() == 0 {
        assert(p.len() == 1);
        assert(p[0] == x);
        let rest = p.drop_first();
        assert(rest =~= Seq::<Seq<u8>>::empty());
        assert(spec_repeated(tag, rest) == Seq::<u8>::empty());
        assert(spec_repeated(tag, p) == spec_len_delimited(tag, x) + spec_repeated(tag, rest));
        assert(spec_len_delimited(tag, x) + Seq::<u8>::empty() =~= spec_len_delimited(tag, x));
        assert(payloads =~= Seq::<Seq<u8>>::empty());
        assert(spec_repeated(tag, payloads) == Seq::<u8>::empty());
        assert(Seq::<u8>::empty() + spec_len_delimited(tag, x) =~= spec_len_delimited(tag, x));
    } else {
        assert(p[0] == payloads[0]);
        assert(p.drop_first() =~= payloads.drop_first().push(x));
        lemma_repeated_push(tag, payloads.drop_first(), x);
        assert(spec_repeated(tag, p) =~= spec_repeated(tag, payloads) + spec_len_delimited(
            tag,
            x,
        ));
    }
}

/// The field bytes of one label.
pub open spec fn spec_label(l: Label) -> Seq<u8> {
    spec_string_field(1, l.name@) + spec_string_field(2, l.value@)
}

/// The field bytes of one sample.
pub open spec fn spec_sample(s: Sample) -> Seq<u8> {
    spec_double_field(1, s.value_bits) + spec_i64_field(2, s.timestamp)
}

/// The field bytes of one bucket.
pub open spec fn spec_bucket(b: Bucket) -> Seq<u8> {
    spec_u64_field(1, b.cumulative_count) + spec_double_field(2, b.upper_bound_bits)
}

/// The field bytes of one exemplar.
pub open spec fn spec_exemplar(e: Exemplar) -> Seq<u8> {
    spec_repeated(1, e.labels@.map_values(|l: Label| spec_label(l))) + spec_double_field(
        2,
        e.value_bits,
    ) + spec_i64_field(3, e.timestamp)
}

/// The field bytes of one native histogram.
pub open spec fn spec_histogram(h: Histogram) -> Seq<u8> {
    spec_u64_field(1, h.count) + spec_double_field(2, h.sum_bits) + spec_repeated(
        3,
        h.buckets@.map_values(|b: Bucket| spec_bucket(b)),
    )
}

/// The field bytes of one time series.
pub open spec fn spec_timeseries(t: TimeSeries) -> Seq<u8> {
    spec_repeated(1, t.labels@.map_values(|l: Label| spec_label(l))) + spec_repeated(
        2,
        t.samples@.map_values(|s: Sample| spec_sample(s)),
    ) + spec_repeated(3, t.exemplars@.map_values(|e: Exemplar| spec_exemplar(e))) + spec_repeated(
        4,
        t.histograms@.map_values(|h: Histogram| spec_histogram(h)),
    )
}

/// The field bytes of one metadata entry.
pub open spec fn spec_metadata(m: MetricMetadata) -> Seq<u8> {
    spec_string_field(1, m.metric_name@) + spec_u64_field_nat(2, spec_metric_type_value(
        m.metric_type,
    )) + spec_string_field(3, m.help@) + spec_string_field(4, m.unit@)
}

/// An unsigned varint field over a spec-level value; omitted when zero.
pub open spec fn spec_u64_field_nat(tag: nat, n: nat) -> Seq<u8> {
    if n == 0 {
        Seq::empty()
    } else {
        spec_key(tag, 0) + spec_varint(n)
    }
}

/// The bytes of a whole write request.
pub open spec fn spec_write_request(w: WriteRequest) -> Seq<u8> {
    spec_repeated(1, w.timeseries@.map_values(|t: TimeSeries| spec_timeseries(t)))
        + spec_repeated(2, w.metadata@.map_values(|m: MetricMetadata| spec_metadata(m)))
}

/// Appends the varint encoding of `n`.
pub fn encode_varint(buf: &mut Vec<u8>, n: u64)
    ensures
        final(buf)@ == old(buf)@ + spec_varint(n as nat),
    decreases n,
{
    if n < 128 {
        buf.push(n as u8);
        assert(buf@ =~= old(buf)@ + spec_varint(n as nat));
    } else {
        buf.push(((n % 128) + 128) as u8);
        encode_varint(buf, n / 128);
        assert(buf@ =~= old(buf)@ + spec_varint(n as nat));
    }
}

/// Appends a one-byte field key.
pub fn encode_key(buf: &mut Vec<u8>, tag: u64, wire: u64)
    requires
        1 <= tag <= 15,
        wire <= 5,
    ensures
        final(buf)@ == old(buf)@ + spec_key(tag as nat, wire as nat),
{
    let k: u64 = tag * 8 + wire;
    buf.push(k as u8);
    assert(buf@ =~= old(buf)@ + spec_key(tag as nat, wire as nat));
}

/// Appends a string field (omitted when the string is empty).
pub fn encode_string_field(buf: &mut Vec<u8>, tag: u64, s: &str)
    requires
        1 <= tag <= 15,
    ensures
        final(buf)@ == old(buf)@ + spec_string_field(tag as nat, s@),
{
    let mut bytes = s.as_bytes_vec();
    if bytes.len() == 0 {
        assert(buf@ =~= old(buf)@ + spec_string_field(tag as nat, s@));
        return ;
    }
    encode_key(buf, tag, 2);
    encode_varint(buf, bytes.len() as u64);
    buf.append(&mut bytes);
    assert(buf@ =~= old(buf)@ + spec_string_field(tag as nat, s@));
}

/// Appends an unsigned varint field (omitted when zero).
pub fn encode_u64_field(buf: &mut Vec<u8>, tag: u64, n: u64)
    requires
        1 <= tag <= 15,
    ensures
        final(buf)@ == old(buf)@ + spec_u64_field(tag as nat, n),
{
    if n == 0 {
        assert(buf@ =~= old(buf)@ + spec_u64_field(tag as nat, n));
        return ;
    }
    encode_key(buf, tag, 0);
    encode_varint(buf, n);
    assert(buf@ =~= old(buf)@ + spec_u64_field(tag as nat, n));
}

/// Appends a signed 64-bit varint field (omitted when zero).
pub fn encode_i64_field(buf: &mut Vec<u8>, tag: u64, t: i64)
    requires
        1 <= tag <= 15,
    ensures
        final(buf)@ == old(buf)@ + spec_i64_field(tag as nat, t),
{
    if t == 0 {
        assert(buf@ =~= old(buf)@ + spec_i64_field(tag as nat, t));
        return ;
    }
    encode_key(buf, tag, 0);
    let raw: u64 = #[verifier::truncate] (t as u64);
    encode_varint(buf, raw);
    assert(buf@ =~= old(buf)@ + spec_i64_field(tag as nat, t));
}

/// Appends a double field from its raw bits (omitted when they spell a
/// positive or negative zero).
pub fn encode_double_field(buf: &mut Vec<u8>, tag: u64, bits: u64)
    requires
        1 <= tag <= 15,
    ensures
        final(buf)@ == old(buf)@ + spec_double_field(tag as nat, bits),
{
    if bits == 0 || bits == 0x8000_0000_0000_0000 {
        assert(buf@ =~= old(buf)@ + spec_double_field(tag as nat, bits));
        return ;
    }
    encode_key(buf, tag, 1);
    buf.push((bits & 0xff) as u8);
    buf.push(((bits >> 8) & 0xff) as u8);
    buf.push(((bits >> 16) & 0xff) as u8);
    buf.push(((bits >> 24) & 0xff) as u8);
    buf.push(((bits >> 32) & 0xff) as u8);
    buf.push(((bits >> 40) & 0xff) as u8);
    buf.push(((bits >> 48) & 0xff) as u8);
    buf.push(((bits >> 56) & 0xff) as u8);
    assert(buf@ =~= old(buf)@ + spec_double_field(tag as nat, bits));
}

/// The encoded fields of one label.
pub fn label_payload(l: &Label) -> (r: Vec<u8>)
    ensures
        r@ == spec_label(*l),
{
    let mut buf: Vec<u8> = Vec::new();
    encode_string_field(&mut buf, 1, l.name.as_str());
    encode_string_field(&mut buf, 2, l.value.as_str());
    assert(buf@ =~= spec_label(*l));
    buf
}

/// The encoded fields of one sample.
pub fn sample_payload(s: &Sample) -> (r: Vec<u8>)
    ensures
        r@ == spec_sample(*s),
{
    let mut buf: Vec<u8> = Vec::new();
    encode_double_field(&mut buf, 1, s.value_bits);
    encode_i64_field(&mut buf, 2, s.timestamp);
    assert(buf@ =~= spec_sample(*s));
    buf
}

/// The encoded fields of one bucket.
pub fn bucket_payload(b: &Bucket) -> (r: Vec<u8>)
    ensures
        r@ == spec_bucket(*b),
{
    let mut buf: Vec<u8> = Vec::new();
    encode_u64_field(&mut buf, 1, b.cumulative_count);
    encode_double_field(&mut buf, 2, b.upper_bound_bits);
    assert(buf@ =~= spec_bucket(*b));
    buf
}

/// Appends one length-delimited element of a repeated message field.
fn append_element(buf: &mut Vec<u8>, tag: u64, mut payload: Vec<u8>)
    requires
        1 <= tag <= 15,
    ensures
        final(buf)@ == old(buf)@ + spec_len_delimited(tag as nat, payload@),
{
    encode_key(buf, tag, 2);
    encode_varint(buf, payload.len() as u64);
    let ghost p = payload@;
    buf.append(&mut payload);
    assert(buf@ =~= old(buf)@ + spec_len_delimited(tag as nat, p));
}

/// Appends a repeated label field.
pub fn encode_labels(buf: &mut Vec<u8>, tag: u64, labels: &Vec<Label>)
    requires
        1 <= tag <= 15,
    ensures
        final(buf)@ == old(buf)@ + spec_repeated(
            tag as nat,
            labels@.map_values(|l: Label| spec_label(l)),
        ),
{
    let ghost payloads = labels@.map_values(|l: Label| spec_label(l));
    let mut i: usize = 0;
    proof {
        assert(payloads.take(0) =~= Seq::<Seq<u8>>::empty());
    }
    while i < labels.len()
        invariant
            1 <= tag <= 15,
            0 <= i <= labels@.len(),
            payloads == labels@.map_values(|l: Label| spec_label(l)),
            buf@ == old(buf)@ + spec_repeated(tag as nat, payloads.take(i as int)),
        decreases labels@.len() - i,
    {
        let p = label_payload(&labels[i]);
        proof {
            lemma_repeated_push(tag as nat, payloads.take(i as int), p@);
            assert(payloads.take(i as int).push(payloads[i as int]) =~= payloads.take(i as int + 1));
        }
        append_element(buf, tag, p);
        i = i + 1;
    }
    proof {
        assert(payloads.take(labels@.len() as int) =~= payloads);
    }
}

/// Appends a repeated sample field.
pub fn encode_samples(buf: &mut Vec<u8>, tag: u64, samples: &Vec<Sample>)
    requires
        1 <= tag <= 15,
    ensures
        final(buf)@ == old(buf)@ + spec_repeated(
            tag as nat,
            samples@.map_values(|s: Sample| spec_sample(s)),
        ),
{
    let ghost payloads = samples@.map_values(|s: Sample| spec_sample(s));
    let mut i: usize = 0;
    proof {
        assert(payloads.take(0) =~= Seq::<Seq<u8>>::empty());
    }
    while i < samples.len()
        invariant
            1 <= tag <= 15,
            0 <= i <= samples@.len(),
            payloads == samples@.map_values(|s: Sample| spec_sample(s)),
            buf@ == old(buf)@ + spec_repeated(tag as nat, payloads.take(i as int)),
        decreases samples@.len() - i,
    {
        let p = sample_payload(&samples[i]);
        proof {
            lemma_repeated_push(tag as nat, payloads.take(i as int), p@);
            assert(payloads.take(i as int).push(payloads[i as int]) =~= payloads.take(i as int + 1));
        }
        append_element(buf, tag, p);
        i = i + 1;
    }
    proof {
        assert(payloads.take(samples@.len() as int) =~= payloads);
    }
}

/// The encoded fields of one exemplar.
pub fn exemplar_payload(e: &Exemplar) -> (r: Vec<u8>)
    ensures
        r@ == spec_exemplar(*e),
{
    let mut buf: Vec<u8> = Vec::new();
    encode_labels(&mut buf, 1, &e.labels);
    encode_double_field(&mut buf, 2, e.value_bits);
    encode_i64_field(&mut buf, 3, e.timestamp);
    assert(buf@ =~= spec_exemplar(*e));
    buf
}

/// The encoded fields of one native histogram.
pub fn histogram_payload(h: &Histogram) -> (r: Vec<u8>)
    ensures
        r@ == spec_histogram(*h),
{
    let mut buf: Vec<u8> = Vec::new();
    encode_u64_field(&mut buf, 1, h.count);
    encode_double_field(&mut buf, 2, h.sum_bits);
    let ghost payloads = h.buckets@.map_values(|b: Bucket| spec_bucket(b));
    let ghost mid = buf@;
    let mut i: usize = 0;
    proof {
        assert(payloads.take(0) =~= Seq::<Seq<u8>>::empty());
    }
    while i < h.buckets.len()
        invariant
            0 <= i <= h.buckets@.len(),
            payloads == h.buckets@.map_values(|b: Bucket| spec_bucket(b)),
            buf@ == mid + spec_repeated(3, payloads.take(i as int)),
        decreases h.buckets@.len() - i,
    {
        let p = bucket_payload(&h.buckets[i]);
        proof {
            lemma_repeated_push(3, payloads.take(i as int), p@);
            assert(payloads.take(i as int).push(payloads[i as int]) =~= payloads.take(i as int + 1));
        }
        append_element(&mut buf, 3, p);
        i = i + 1;
    }
    proof {
        assert(payloads.take(h.buckets@.len() as int) =~= payloads);
    }
    assert(buf@ =~= spec_histogram(*h));
    buf
}

/// The encoded fields of one time series.
pub fn timeseries_payload(t: &TimeSeries) -> (r: Vec<u8>)
    ensures
        r@ == spec_timeseries(*t),
{
    let mut buf: Vec<u8> = Vec::new();
    encode_labels(&mut buf, 1, &t.labels);
    encode_samples(&mut buf, 2, &t.samples);

    let ghost ex_payloads = t.exemplars@.map_values(|e: Exemplar| spec_exemplar(e));
    let ghost mid1 = buf@;
    let mut i: usize = 0;
    proof {
        assert(ex_payloads.take(0) =~= Seq::<Seq<u8>>::empty());
    }
    while i < t.exemplars.len()
        invariant
            0 <= i <= t.exemplars@.len(),
            ex_payloads == t.exemplars@.map_values(|e: Exemplar| spec_exemplar(e)),
            buf@ == mid1 + spec_repeated(3, ex_payloads.take(i as int)),
        decreases t.exemplars@.len() - i,
    {
        let p = exemplar_payload(&t.exemplars[i]);
        proof {
            lemma_repeated_push(3, ex_payloads.take(i as int), p@);
            assert(ex_payloads.take(i as int).push(ex_payloads[i as int]) =~= ex_payloads.take(
                i as int + 1,
            ));
        }
        append_element(&mut buf, 3, p);
        i = i + 1;
    }
    proof {
        assert(ex_payloads.take(t.exemplars@.len() as int) =~= ex_payloads);
    }

    let ghost h_payloads = t.histograms@.map_values(|h: Histogram| spec_histogram(h));
    let ghost mid2 = buf@;
    let mut j: usize = 0;
    proof {
        assert(h_payloads.take(0) =~= Seq::<Seq<u8>>::empty());
    }
    while j < t.histograms.len()
        invariant
            0 <= j <= t.histograms@.len(),
            h_payloads == t.histograms@.map_values(|h: Histogram| spec_histogram(h)),
            buf@ == mid2 + spec_repeated(4, h_payloads.take(j as int)),
        decreases t.histograms@.len() - j,
    {
        let p = histogram_payload(&t.histograms[j]);
        proof {
            lemma_repeated_push(4, h_payloads.take(j as int), p@);
            assert(h_payloads.take(j as int).push(h_payloads[j as int]) =~= h_payloads.take(
                j as int + 1,
            ));
        }
        append_element(&mut buf, 4, p);
        j = j + 1;
    }
    proof {
        assert(h_payloads.take(t.histograms@.len() as int) =~= h_payloads);
    }
    assert(buf@ =~= spec_timeseries(*t));
    buf
}

/// The encoded fields of one metadata entry.
pub fn metadata_payload(m: &MetricMetadata) -> (r: Vec<u8>)
    ensures
        r@ == spec_metadata(*m),
{
    let mut buf: Vec<u8> = Vec::new();
    encode_string_field(&mut buf, 1, m.metric_name.as_str());
    let tv = crate::wire::metric_type_value(m.metric_type);
    if tv != 0 {
        encode_key(&mut buf, 2, 0);
        encode_varint(&mut buf, tv);
    }
    encode_string_field(&mut buf, 3, m.help.as_str());
    encode_string_field(&mut buf, 4, m.unit.as_str());
    assert(buf@ =~= spec_metadata(*m));
    buf
}

/// Encodes a whole write request to its wire bytes.
#[verifier::rlimit(50)]
pub fn encode_write_request(w: &WriteRequest) -> (r: Vec<u8>)
    ensures
        r@ == spec_write_request(*w),
{
    let mut buf: Vec<u8> = Vec::new();

    let ghost ts_payloads = w.timeseries@.map_values(|t: TimeSeries| spec_timeseries(t));
    let mut i: usize = 0;
    proof {
        assert(ts_payloads.take(0) =~= Seq::<Seq<u8>>::empty());
    }
    while i < w.timeseries.len()
        invariant
            0 <= i <= w.timeseries@.len(),
            ts_payloads == w.timeseries@.map_values(|t: TimeSeries| spec_timeseries(t)),
            buf@ == spec_repeated(1, ts_payloads.take(i as int)),
        decreases w.timeseries@.len() - i,
    {
        let p = timeseries_payload(&w.timeseries[i]);
        proof {
            lemma_repeated_push(1, ts_payloads.take(i as int), p@);
            assert(ts_payloads.take(i as int).push(ts_payloads[i as int]) =~= ts_payloads.take(
                i as int + 1,
            ));
        }
        append_element(&mut buf, 1, p);
        i = i + 1;
    }
    proof {
        assert(ts_payloads.take(w.timeseries@.len() as int) =~= ts_payloads);
    }

    let ghost md_payloads = w.metadata@.map_values(|m: MetricMetadata| spec_metadata(m));
    let ghost mid = buf@;
    let mut j: usize = 0;
    proof {
        assert(md_payloads.take(0) =~= Seq::<Seq<u8>>::empty());
    }
    while j < w.metadata.len()
        invariant
            0 <= j <= w.metadata@.len(),
            md_payloads == w.metadata@.map_values(|m: MetricMetadata| spec_metadata(m)),
            buf@ == mid + spec_repeated(2, md_payloads.take(j as int)),
        decreases w.metadata@.len() - j,
    {
        let p = metadata_payload(&w.metadata[j]);
        proof {
            lemma_repeated_push(2, md_payloads.take(j as int), p@);
            assert(md_payloads.take(j as int).push(md_payloads[j as int]) =~= md_payloads.take(
                j as int + 1,
            ));
        }
        append_element(&mut buf, 2, p);
        j = j + 1;
    }
    proof {
        assert(md_payloads.take(w.metadata@.len() as int) =~= md_payloads);
    }
    assert(buf@ =~= spec_write_request(*w));
    buf
}

} // verus!
