//! The immutable configuration of one run, built once at startup: target,
//! method, headers, timings. Duration strings are parsed by `humantime`; a
//! run refuses to start on an invalid one. Malformed header specifications
//! (no `:`) are silently skipped.

use crate::ramp::RampConfig;
use vstd::prelude::*;
use vstd::string::StrSliceExecFns;

verus! {

/// The characters stripped from both ends of a header name or value.
pub open spec fn spec_is_space(c: char) -> bool {
    c == ' ' || c == '\t' || c == '\r' || c == '\n'
}

/// How many leading space characters a string has.
pub open spec fn spec_leading_spaces(s: Seq<char>) -> nat
    decreases s.len(),
{
    if s.len() > 0 && spec_is_space(s[0]) {
        1 + spec_leading_spaces(s.drop_first())
    } else {
        0
    }
}

/// How many trailing space characters a string has.
pub open spec fn spec_trailing_spaces(s: Seq<char>) -> nat
    decreases s.len(),
{
    if s.len() > 0 && spec_is_space(s.last()) {
        1 + spec_trailing_spaces(s.drop_last())
    } else {
        0
    }
}

/// A string with the spaces stripped from both ends.
pub open spec fn spec_trim(s: Seq<char>) -> Seq<char> {
    let t = s.skip(spec_leading_spaces(s) as int);
    t.take(t.len() - spec_trailing_spaces(t))
}

/// The index of the first `:`, or -1 when there is none.
pub open spec fn spec_find_colon(s: Seq<char>) -> int
    decreases s.len(),
{
    if s.len() == 0 {
        -1
    } else if s[0] == ':' {
        0
    } else {
        let r = spec_find_colon(s.drop_first());
        if r < 0 {
            -1
        } else {
            r + 1
        }
    }
}

/// A header specification split at its first `:` into a trimmed name and a
/// trimmed value; `None` when it has no `:`.
pub open spec fn spec_parse_header(s: Seq<char>) -> Option<(Seq<char>, Seq<char>)> {
    let i = spec_find_colon(s);
    if i < 0 {
        None
    } else {
        Some((spec_trim(s.take(i)), spec_trim(s.skip(i + 1))))
    }
}

proof fn lemma_leading_step(s: Seq<char>, i: int)
    requires
        0 <= i < s.len(),
        spec_is_space(s[i]),
    ensures
        spec_leading_spaces(s.skip(i)) == 1 + spec_leading_spaces(s.skip(i + 1)),
{
    let t = s.skip(i);
    assert(t.len() > 0);
    assert(t[0] == s[i]);
    assert(t.drop_first() =~= s.skip(i + 1));
}

proof fn lemma_trailing_step(t: Seq<char>, e: int)
    requires
        0 < e <= t.len(),
        spec_is_space(t[e - 1]),
    ensures
        spec_trailing_spaces(t.take(e)) == 1 + spec_trailing_spaces(t.take(e - 1)),
{
    let u = t.take(e);
    assert(u.len() == e);
    assert(u.last() == t[e - 1]);
    assert(u.drop_last() =~= t.take(e - 1));
}

proof fn lemma_find_step(s: Seq<char>, i: int)
    requires
        0 <= i < s.len(),
        s[i] != ':',
    ensures
        spec_find_colon(s.skip(i)) == if spec_find_colon(s.skip(i + 1)) < 0 {
            -1int
        } else {
            spec_find_colon(s.skip(i + 1)) + 1
        },
{
    let t = s.skip(i);
    assert(t.len() > 0);
    assert(t[0] == s[i]);
    assert(t.drop_first() =~= s.skip(i + 1));
}

/// A copy of the string with the spaces stripped from both ends.
pub fn trim_str(s: &str) -> (r: String)
    ensures
        r@ == spec_trim(s@),
{
    let n = s.unicode_len();
    let mut start: usize = 0;
    proof {
        assert(s@.skip(0) =~= s@);
    }
    while start < n && is_space_char(s.get_char(start))
        invariant
            0 <= start <= n == s@.len(),
            spec_leading_spaces(s@) == start + spec_leading_spaces(s@.skip(start as int)),
        decreases n - start,
    {
        proof {
            lemma_leading_step(s@, start as int);
        }
        start = start + 1;
    }
    proof {
        if start < n {
            assert(s@.skip(start as int)[0] == s@[start as int]);
        }
        assert(spec_leading_spaces(s@.skip(start as int)) == 0);
        assert(spec_leading_spaces(s@) == start);
    }
    let t = s.substring_char(start, n);
    proof {
        assert(t@ =~= s@.skip(start as int));
    }
    let m = n - start;
    let mut end: usize = m;
    proof {
        assert(t@.take(m as int) =~= t@);
    }
    while end > 0 && is_space_char(t.get_char(end - 1))
        invariant
            0 <= end <= m == t@.len(),
            spec_trailing_spaces(t@) == (m - end) + spec_trailing_spaces(t@.take(end as int)),
        decreases end,
    {
        proof {
            lemma_trailing_step(t@, end as int);
        }
        end = end - 1;
    }
    proof {
        if end > 0 {
            assert(t@.take(end as int).last() == t@[end as int - 1]);
        }
        assert(spec_trailing_spaces(t@.take(end as int)) == 0);
        assert(spec_trailing_spaces(t@) == m - end);
    }
    let out = t.substring_char(0, end);
    proof {
        assert(out@ =~= spec_trim(s@));
    }
    out.to_owned()
}

/// Whether a character is stripped by trimming.
fn is_space_char(c: char) -> (r: bool)
    ensures
        r == spec_is_space(c),
{
    c == ' ' || c == '\t' || c == '\r' || c == '\n'
}

/// Splits a header specification at its first `:` into a trimmed name and
/// value; `None` (the specification is skipped) when it has no `:`.
pub fn parse_header(s: &str) -> (r: Option<(String, String)>)
    ensures
        match r {
            Some(p) => {
                &&& spec_parse_header(s@) is Some
                &&& p.0@ == (spec_parse_header(s@)->0).0
                &&& p.1@ == (spec_parse_header(s@)->0).1
            },
            None => spec_parse_header(s@) is None,
        },
{
    let n = s.unicode_len();
    let mut i: usize = 0;
    proof {
        assert(s@.skip(0) =~= s@);
    }
    while i < n && s.get_char(i) != ':'
        invariant
            0 <= i <= n == s@.len(),
            spec_find_colon(s@) == if spec_find_colon(s@.skip(i as int)) < 0 {
                -1int
            } else {
                spec_find_colon(s@.skip(i as int)) + i
            },
        decreases n - i,
    {
        proof {
            lemma_find_step(s@, i as int);
        }
        i = i + 1;
    }
    if i == n {
        proof {
            assert(s@.skip(n as int) =~= Seq::<char>::empty());
            assert(spec_find_colon(s@) < 0);
        }
        return None;
    }
    proof {
        assert(s@.skip(i as int)[0] == s@[i as int]);
        assert(spec_find_colon(s@.skip(i as int)) == 0);
        assert(spec_find_colon(s@) == i);
    }
    let name_part = s.substring_char(0, i);
    let value_part = s.substring_char(i + 1, n);
    proof {
        assert(name_part@ =~= s@.take(i as int));
        assert(value_part@ =~= s@.skip(i as int + 1));
    }
    Some((trim_str(name_part), trim_str(value_part)))
}

/// The header pairs that a list of header specifications yields, malformed
/// ones skipped.
pub open spec fn spec_parsed_headers(specs: Seq<Seq<char>>) -> Seq<(Seq<char>, Seq<char>)>
    decreases specs.len(),
{
    if specs.len() == 0 {
        Seq::empty()
    } else {
        let rest = spec_parsed_headers(specs.drop_last());
        match spec_parse_header(specs.last()) {
            Some(p) => rest.push(p),
            None => rest,
        }
    }
}

/// What `humantime` parses the given duration string to, in milliseconds;
/// `None` when the string is not a valid duration.
pub uninterp spec fn duration_millis_of(s: Seq<char>) -> Option<u128>;

/// Relies on `humantime::parse_duration`: whether and how a duration string
/// parses depends on its characters alone.
#[verifier::external_body]
fn parse_duration_millis(s: &str) -> (r: Option<u128>)
    ensures
        r == duration_millis_of(s@),
{
    humantime::parse_duration(s).ok().map(|d| d.as_millis())
}

/// Milliseconds clamped into a 64-bit phase duration.
pub open spec fn spec_clamp_ms(m: u128) -> u64 {
    if m > u64::MAX {
        u64::MAX as u64
    } else {
        m as u64
    }
}

/// Why a configuration was refused: the named duration string did not
/// parse. A malformed test refuses to start.
#[derive(Clone, Copy, Debug, PartialEq, Eq, Structural)]
pub enum ConfigError {
    InvalidRampUp,
    InvalidHold,
    InvalidRampDown,
}

/// The immutable plan of one run.
#[derive(Debug)]
pub struct TestConfiguration {
    pub url: String,
    pub method: String,
    pub body: Option<String>,
    pub headers: Vec<(String, String)>,
    pub timeout_secs: u64,
    pub vus: usize,
    pub ramp_up_ms: u64,
    pub hold_ms: u64,
    pub ramp_down_ms: u64,
    pub prometheus_url: Option<String>,
    pub app: String,
    pub metrics_frequency_secs: u64,
}

impl TestConfiguration {
    /// Whether external metrics reporting is enabled: exactly when a
    /// remote-write endpoint was configured.
    pub open spec fn spec_prometheus_enabled(self) -> bool {
        self.prometheus_url is Some
    }

    /// Whether external metrics reporting is enabled.
    pub fn prometheus_enabled(&self) -> (r: bool)
        ensures
            r == self.spec_prometheus_enabled(),
    {
        self.prometheus_url.is_some()
    }

    /// The timing plan of the run.
    pub fn ramp_config(&self) -> (r: RampConfig)
        ensures
            r.vus == self.vus,
            r.ramp_up_ms == self.ramp_up_ms,
            r.hold_ms == self.hold_ms,
            r.ramp_down_ms == self.ramp_down_ms,
    {
        RampConfig {
            vus: self.vus,
            ramp_up_ms: self.ramp_up_ms,
            hold_ms: self.hold_ms,
            ramp_down_ms: self.ramp_down_ms,
        }
    }
}

/// Builds the run configuration. Fails — and the run refuses to start —
/// exactly when one of the three duration strings is invalid, naming the
/// first invalid one; malformed header specifications are skipped, valid
/// ones kept in order with name and value trimmed.
pub fn build_configuration(
    url: String,
    vus: usize,
    ramp_up: &str,
    hold: &str,
    ramp_down: &str,
    method: String,
    body: Option<String>,
    header_specs: &Vec<String>,
    timeout_secs: u64,
    prometheus_url: Option<String>,
    app: String,
    metrics_frequency_secs: u64,
) -> (r: Result<TestConfiguration, ConfigError>)
    ensures
        match r {
            Ok(c) => {
                &&& duration_millis_of(ramp_up@) is Some
                &&& duration_millis_of(hold@) is Some
                &&& duration_millis_of(ramp_down@) is Some
                &&& c.ramp_up_ms == spec_clamp_ms(duration_millis_of(ramp_up@)->0)
                &&& c.hold_ms == spec_clamp_ms(duration_millis_of(hold@)->0)
                &&& c.ramp_down_ms == spec_clamp_ms(duration_millis_of(ramp_down@)->0)
                &&& c.url == url
                &&& c.method == method
                &&& c.body == body
                &&& c.timeout_secs == timeout_secs
                &&& c.vus == vus
                &&& c.prometheus_url == prometheus_url
                &&& c.app == app
                &&& c.metrics_frequency_secs == metrics_frequency_secs
                &&& {
                    let parsed = spec_parsed_headers(
                        header_specs@.map_values(|h: String| h@),
                    );
                    &&& c.headers@.len() == parsed.len()
                    &&& forall|i: int|
                        0 <= i < parsed.len() ==> (#[trigger] c.headers@[i]).0@ == parsed[i].0
                            && c.headers@[i].1@ == parsed[i].1
                }
            },
            Err(e) => {
                &&& e == ConfigError::InvalidRampUp <==> duration_millis_of(ramp_up@) is None
                &&& e == ConfigError::InvalidHold <==> duration_millis_of(ramp_up@) is Some
                    && duration_millis_of(hold@) is None
                &&& e == ConfigError::InvalidRampDown <==> duration_millis_of(ramp_up@) is Some
                    && duration_millis_of(hold@) is Some && duration_millis_of(ramp_down@) is None
            },
        },
{
    let ramp_up_ms = match parse_duration_millis(ramp_up) {
        Some(m) => clamp_ms(m),
        None => {
            return Err(ConfigError::InvalidRampUp);
        },
    };
    let hold_ms = match parse_duration_millis(hold) {
        Some(m) => clamp_ms(m),
        None => {
            return Err(ConfigError::InvalidHold);
        },
    };
    let ramp_down_ms = match parse_duration_millis(ramp_down) {
        Some(m) => clamp_ms(m),
        None => {
            return Err(ConfigError::InvalidRampDown);
        },
    };

    let ghost spec_views = header_specs@.map_values(|h: String| h@);
    let mut headers: Vec<(String, String)> = Vec::new();
    let mut i: usize = 0;
    proof {
        assert(spec_views.take(0) =~= Seq::<Seq<char>>::empty());
    }
    while i < header_specs.len()
        invariant
            0 <= i <= header_specs@.len(),
            spec_views == header_specs@.map_values(|h: String| h@),
            headers@.len() == spec_parsed_headers(spec_views.take(i as int)).len(),
            forall|j: int|
                0 <= j < headers@.len() ==> (#[trigger] headers@[j]).0@ == spec_parsed_headers(
                    spec_views.take(i as int),
                )[j].0 && headers@[j].1@ == spec_parsed_headers(spec_views.take(i as int))[j].1,
        decreases header_specs@.len() - i,
    {
        proof {
            assert(spec_views.take(i as int + 1).drop_last() =~= spec_views.take(i as int));
            assert(spec_views.take(i as int + 1).last() == spec_views[i as int]);
        }
        match parse_header(header_specs[i].as_str()) {
            Some(p) => {
                headers.push(p);
            },
            None => {},
        }
        i = i + 1;
    }
    proof {
        assert(spec_views.take(header_specs@.len() as int) =~= spec_views);
    }

    Ok(
        TestConfiguration {
            url,
            method,
            body,
            headers,
            timeout_secs,
            vus,
            ramp_up_ms,
            hold_ms,
            ramp_down_ms,
            prometheus_url,
            app,
            metrics_frequency_secs,
        },
    )
}

/// Milliseconds clamped into a 64-bit phase duration.
fn clamp_ms(m: u128) -> (r: u64)
    ensures
        r == spec_clamp_ms(m),
{
    if m > u64::MAX as u128 {
        u64::MAX
    } else {
        m as u64
    }
}

} // verus!
