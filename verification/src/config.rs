//! Gateway configuration, supplied at construction and immutable thereafter,
//! and the parsing of the plain decimal notation it is written in.

use vstd::prelude::*;
use vstd::string::StringSliceAdditionalSpecFns;

verus! {

/// All tuning options of the gateway.
///
/// The breaker threshold is the exact rational `cb_fail_rate_num /
/// cb_fail_rate_den` (for example 1/4 for a quarter of the window failing);
/// the loader that builds a `Cfg` converts whatever notation it reads into
/// that pair.
#[derive(Debug, Clone)]
pub struct Cfg {
    /// Port the HTTP surface listens on.
    pub port: u16,
    /// Base URL of upstream A.
    pub upstream_a: String,
    /// Base URL of upstream B.
    pub upstream_b: String,
    /// Path of the payment endpoint on both upstreams.
    pub pay_path: String,
    /// Name of the authentication header, when one is required.
    pub auth_header_name: Option<String>,
    /// Expected value of the authentication header, when one is required.
    pub auth_header_value: Option<String>,
    /// Total timeout of one upstream call, in milliseconds.
    pub request_timeout_ms: u64,
    /// How long the primary call flies alone before the hedge starts the
    /// secondary call, in milliseconds.
    pub hedge_delay_ms: u64,
    /// Upper bound on concurrent connections.
    pub concurrency_limit: usize,
    /// Numerator of the breaker's failure-rate threshold.
    pub cb_fail_rate_num: u64,
    /// Denominator of the breaker's failure-rate threshold; positive.
    pub cb_fail_rate_den: u64,
    /// Minimum window size before the breaker evaluates the failure rate.
    pub cb_min_samples: u64,
    /// How long an opened breaker stays open, in seconds.
    pub cb_open_secs: u64,
}

impl Cfg {
    /// The configuration's invariant: the threshold denominator is positive.
    pub open spec fn wf(self) -> bool {
        self.cb_fail_rate_den > 0
    }

    /// Returns a copy safe to log: equal in every field except that a
    /// configured authentication header value is masked.
    pub fn redacted(&self) -> (r: Cfg)
        ensures
            r.port == self.port,
            r.upstream_a == self.upstream_a,
            r.upstream_b == self.upstream_b,
            r.pay_path == self.pay_path,
            self.auth_header_name matches Some(n) ==> r.auth_header_name matches Some(rn) && rn
                == n,
            self.auth_header_name is None ==> r.auth_header_name is None,
            self.auth_header_value matches Some(_) ==> r.auth_header_value matches Some(v) && v@
                == "***"@,
            self.auth_header_value is None ==> r.auth_header_value is None,
            r.request_timeout_ms == self.request_timeout_ms,
            r.hedge_delay_ms == self.hedge_delay_ms,
            r.concurrency_limit == self.concurrency_limit,
            r.cb_fail_rate_num == self.cb_fail_rate_num,
            r.cb_fail_rate_den == self.cb_fail_rate_den,
            r.cb_min_samples == self.cb_min_samples,
            r.cb_open_secs == self.cb_open_secs,
            self.wf() ==> r.wf(),
    {
        Cfg {
            port: self.port,
            upstream_a: self.upstream_a.clone(),
            upstream_b: self.upstream_b.clone(),
            pay_path: self.pay_path.clone(),
            auth_header_name: match &self.auth_header_name {
                Some(n) => Some(n.clone()),
                None => None,
            },
            auth_header_value: match &self.auth_header_value {
                Some(_) => Some("***".to_owned()),
                None => None,
            },
            request_timeout_ms: self.request_timeout_ms,
            hedge_delay_ms: self.hedge_delay_ms,
            concurrency_limit: self.concurrency_limit,
            cb_fail_rate_num: self.cb_fail_rate_num,
            cb_fail_rate_den: self.cb_fail_rate_den,
            cb_min_samples: self.cb_min_samples,
            cb_open_secs: self.cb_open_secs,
        }
    }
}

/// A decimal digit byte.
pub open spec fn spec_is_digit(b: u8) -> bool {
    48 <= b <= 57
}

/// Every byte is a decimal digit.
pub open spec fn spec_all_digits(s: Seq<u8>) -> bool {
    forall|i: int| 0 <= i < s.len() ==> spec_is_digit(#[trigger] s[i])
}

/// The number a digit string denotes in base ten.
pub open spec fn spec_digits_value(s: Seq<u8>) -> int
    decreases s.len(),
{
    if s.len() == 0 {
        0
    } else {
        spec_digits_value(s.drop_last()) * 10 + (s.last() - 48)
    }
}

proof fn lemma_digits_value_nonneg(s: Seq<u8>)
    requires
        spec_all_digits(s),
    ensures
        spec_digits_value(s) >= 0,
    decreases s.len(),
{
    if s.len() > 0 {
        assert(spec_all_digits(s.drop_last()));
        lemma_digits_value_nonneg(s.drop_last());
    }
}

proof fn lemma_digits_value_prefix(s: Seq<u8>, j: int)
    requires
        spec_all_digits(s),
        0 <= j <= s.len(),
    ensures
        spec_digits_value(s.take(j)) <= spec_digits_value(s),
    decreases s.len() - j,
{
    if j < s.len() {
        assert(s.take(j + 1).drop_last() =~= s.take(j));
        assert(spec_all_digits(s.take(j)));
        lemma_digits_value_nonneg(s.take(j));
        assert(spec_digits_value(s.take(j + 1)) == spec_digits_value(s.take(j)) * 10 + (s[j] - 48));
        lemma_digits_value_prefix(s, j + 1);
    } else {
        assert(s.take(j) =~= s);
    }
}

/// Parses an unsigned base-ten number: the result is exactly the denoted
/// value, and parsing fails exactly on an empty string, a non-digit byte, or
/// a value beyond `u64`.
pub fn parse_u64(s: &str) -> (r: Option<u64>)
    ensures
        r matches Some(v) ==> s.spec_bytes().len() > 0 && spec_all_digits(s.spec_bytes()) && v
            == spec_digits_value(s.spec_bytes()),
        r is None ==> s.spec_bytes().len() == 0 || !spec_all_digits(s.spec_bytes())
            || spec_digits_value(s.spec_bytes()) > u64::MAX,
{
    let bytes = s.as_bytes();
    let n = bytes.len();
    if n == 0 {
        return None;
    }
    let mut value: u64 = 0;
    let mut i: usize = 0;
    while i < n
        invariant
            0 <= i <= n,
            n == bytes@.len(),
            bytes@ == s.spec_bytes(),
            spec_all_digits(bytes@.take(i as int)),
            value == spec_digits_value(bytes@.take(i as int)),
        decreases n - i,
    {
        let b = bytes[i];
        if b < 48 || b > 57 {
            return None;
        }
        let d: u64 = (b - 48) as u64;
        proof {
            assert(bytes@.take(i as int + 1).drop_last() =~= bytes@.take(i as int));
        }
        let next: Option<u64> = match value.checked_mul(10) {
            Some(m) => m.checked_add(d),
            None => None,
        };
        match next {
            Some(v2) => {
                value = v2;
                i = i + 1;
            },
            None => {
                proof {
                    assert(spec_digits_value(bytes@.take(i as int + 1)) > u64::MAX);
                    if spec_all_digits(s.spec_bytes()) {
                        lemma_digits_value_prefix(s.spec_bytes(), i as int + 1);
                    }
                }
                return None;
            },
        }
    }
    proof {
        assert(bytes@.take(n as int) =~= bytes@);
    }
    Some(value)
}

/// Ten to the `n`-th power.
pub open spec fn spec_pow10(n: int) -> int
    decreases n,
{
    if n <= 0 {
        1
    } else {
        10 * spec_pow10(n - 1)
    }
}

/// How many dot bytes the string holds.
pub open spec fn spec_dot_count(s: Seq<u8>) -> int
    decreases s.len(),
{
    if s.len() == 0 {
        0
    } else {
        spec_dot_count(s.drop_last()) + if s.last() == 46 {
            1int
        } else {
            0int
        }
    }
}

/// The number the digits denote with the dot ignored: for `"0.25"` this is
/// twenty-five.
pub open spec fn spec_rate_units(s: Seq<u8>) -> int
    decreases s.len(),
{
    if s.len() == 0 {
        0
    } else if s.last() == 46 {
        spec_rate_units(s.drop_last())
    } else {
        spec_rate_units(s.drop_last()) * 10 + (s.last() - 48)
    }
}

/// How many digits follow the dot: for `"0.25"` this is two.
pub open spec fn spec_frac_len(s: Seq<u8>) -> int
    decreases s.len(),
{
    if s.len() == 0 {
        0
    } else if s.last() == 46 {
        0
    } else if spec_dot_count(s.drop_last()) > 0 {
        spec_frac_len(s.drop_last()) + 1
    } else {
        0
    }
}

/// The string is a plain decimal: every byte a digit or a dot, at most one
/// dot, and at least one digit.
pub open spec fn spec_decimal_ok(s: Seq<u8>) -> bool {
    &&& forall|i: int| 0 <= i < s.len() ==> (spec_is_digit(#[trigger] s[i]) || s[i] == 46)
    &&& spec_dot_count(s) <= 1
    &&& spec_dot_count(s) < s.len()
}

proof fn lemma_dot_count_nonneg(s: Seq<u8>)
    ensures
        spec_dot_count(s) >= 0,
    decreases s.len(),
{
    if s.len() > 0 {
        lemma_dot_count_nonneg(s.drop_last());
    }
}

proof fn lemma_dot_count_prefix(s: Seq<u8>, j: int)
    requires
        0 <= j <= s.len(),
    ensures
        spec_dot_count(s.take(j)) <= spec_dot_count(s),
    decreases s.len() - j,
{
    if j < s.len() {
        assert(s.take(j + 1).drop_last() =~= s.take(j));
        lemma_dot_count_prefix(s, j + 1);
    } else {
        assert(s.take(j) =~= s);
    }
}

proof fn lemma_no_dot_no_frac(s: Seq<u8>)
    requires
        spec_dot_count(s) == 0,
    ensures
        spec_frac_len(s) == 0,
    decreases s.len(),
{
    if s.len() > 0 {
        lemma_dot_count_nonneg(s.drop_last());
        lemma_no_dot_no_frac(s.drop_last());
    }
}

proof fn lemma_rate_units_nonneg(s: Seq<u8>)
    requires
        forall|i: int| 0 <= i < s.len() ==> (spec_is_digit(#[trigger] s[i]) || s[i] == 46),
    ensures
        spec_rate_units(s) >= 0,
    decreases s.len(),
{
    if s.len() > 0 {
        lemma_rate_units_nonneg(s.drop_last());
    }
}

proof fn lemma_rate_units_prefix(s: Seq<u8>, j: int)
    requires
        forall|i: int| 0 <= i < s.len() ==> (spec_is_digit(#[trigger] s[i]) || s[i] == 46),
        0 <= j <= s.len(),
    ensures
        spec_rate_units(s.take(j)) <= spec_rate_units(s),
    decreases s.len() - j,
{
    if j < s.len() {
        assert(s.take(j + 1).drop_last() =~= s.take(j));
        assert(forall|i: int|
            0 <= i < j ==> (spec_is_digit(#[trigger] s.take(j)[i]) || s.take(j)[i] == 46));
        lemma_rate_units_nonneg(s.take(j));
        lemma_rate_units_prefix(s, j + 1);
    } else {
        assert(s.take(j) =~= s);
    }
}

proof fn lemma_frac_len_nonneg(s: Seq<u8>)
    ensures
        spec_frac_len(s) >= 0,
    decreases s.len(),
{
    if s.len() > 0 {
        lemma_frac_len_nonneg(s.drop_last());
    }
}

proof fn lemma_frac_len_prefix(s: Seq<u8>, j: int)
    requires
        spec_dot_count(s) <= 1,
        0 <= j <= s.len(),
    ensures
        spec_frac_len(s.take(j)) <= spec_frac_len(s),
    decreases s.len() - j,
{
    if j < s.len() {
        let t = s.take(j + 1);
        assert(t.drop_last() =~= s.take(j));
        assert(t.last() == s[j]);
        lemma_dot_count_prefix(s, j + 1);
        lemma_dot_count_nonneg(s.take(j));
        lemma_frac_len_nonneg(s);
        if s[j] == 46 {
            // a second dot would exceed the bound, so the front holds none
            assert(spec_dot_count(s.take(j)) == 0);
            lemma_no_dot_no_frac(s.take(j));
        } else {
            if spec_dot_count(s.take(j)) == 0 {
                lemma_no_dot_no_frac(s.take(j));
                lemma_frac_len_nonneg(t);
            }
            lemma_frac_len_prefix(s, j + 1);
        }
    } else {
        assert(s.take(j) =~= s);
    }
}

proof fn lemma_pow10_bounds(m: int, n: int)
    requires
        m <= n,
    ensures
        1 <= spec_pow10(m) <= spec_pow10(n),
    decreases n - m, n,
{
    if m < n {
        lemma_pow10_bounds(m, n - 1);
    } else if n > 0 {
        lemma_pow10_bounds(m - 1, n - 1);
    }
}

/// Parses a plain decimal — digits with at most one dot, such as `"0.25"` —
/// into the exact rational it denotes, returned as units over a power of
/// ten: `"0.25"` becomes 25 over 100. Parsing fails exactly on a malformed
/// string or on a numerator or denominator beyond `u64`.
pub fn parse_rate(s: &str) -> (r: Option<(u64, u64)>)
    ensures
        r matches Some(p) ==> spec_decimal_ok(s.spec_bytes()) && p.0 == spec_rate_units(
            s.spec_bytes(),
        ) && p.1 == spec_pow10(spec_frac_len(s.spec_bytes())) && p.1 >= 1,
        r is None ==> !spec_decimal_ok(s.spec_bytes()) || spec_rate_units(s.spec_bytes())
            > u64::MAX || spec_pow10(spec_frac_len(s.spec_bytes())) > u64::MAX,
{
    let bytes = s.as_bytes();
    let n = bytes.len();
    let mut value: u64 = 0;
    let mut den: u64 = 1;
    let mut seen_dot: bool = false;
    let mut saw_digit: bool = false;
    let mut i: usize = 0;
    while i < n
        invariant
            0 <= i <= n,
            n == bytes@.len(),
            bytes@ == s.spec_bytes(),
            forall|k: int|
                0 <= k < i ==> (spec_is_digit(#[trigger] bytes@[k]) || bytes@[k] == 46),
            spec_dot_count(bytes@.take(i as int)) <= 1,
            spec_dot_count(bytes@.take(i as int)) <= i,
            seen_dot == (spec_dot_count(bytes@.take(i as int)) == 1),
            saw_digit == (spec_dot_count(bytes@.take(i as int)) < i),
            value == spec_rate_units(bytes@.take(i as int)),
            den == spec_pow10(spec_frac_len(bytes@.take(i as int))),
        decreases n - i,
    {
        let b = bytes[i];
        proof {
            assert(bytes@.take(i as int + 1).drop_last() =~= bytes@.take(i as int));
            assert(bytes@.take(i as int + 1).last() == bytes@[i as int]);
            lemma_dot_count_nonneg(bytes@.take(i as int));
            lemma_frac_len_nonneg(bytes@.take(i as int));
            if spec_dot_count(bytes@.take(i as int)) == 0 {
                lemma_no_dot_no_frac(bytes@.take(i as int));
            }
        }
        if b == 46 {
            if seen_dot {
                proof {
                    lemma_dot_count_prefix(bytes@, i as int + 1);
                }
                return None;
            }
            seen_dot = true;
        } else if b < 48 || b > 57 {
            return None;
        } else {
            let d: u64 = (b - 48) as u64;
            let next: Option<u64> = match value.checked_mul(10) {
                Some(m) => m.checked_add(d),
                None => None,
            };
            match next {
                Some(v2) => {
                    value = v2;
                },
                None => {
                    proof {
                        assert(spec_rate_units(bytes@.take(i as int + 1)) > u64::MAX);
                        if spec_decimal_ok(s.spec_bytes()) {
                            lemma_rate_units_prefix(s.spec_bytes(), i as int + 1);
                        }
                    }
                    return None;
                },
            }
            if seen_dot {
                match den.checked_mul(10) {
                    Some(d2) => {
                        den = d2;
                    },
                    None => {
                        proof {
                            assert(spec_pow10(spec_frac_len(bytes@.take(i as int + 1)))
                                > u64::MAX);
                            if spec_decimal_ok(s.spec_bytes()) {
                                lemma_frac_len_prefix(s.spec_bytes(), i as int + 1);
                                lemma_pow10_bounds(
                                    spec_frac_len(bytes@.take(i as int + 1)),
                                    spec_frac_len(s.spec_bytes()),
                                );
                            }
                        }
                        return None;
                    },
                }
            }
            saw_digit = true;
        }
        i = i + 1;
    }
    proof {
        assert(bytes@.take(n as int) =~= bytes@);
        lemma_frac_len_nonneg(bytes@);
        lemma_pow10_bounds(0, spec_frac_len(bytes@));
    }
    if !saw_digit {
        return None;
    }
    Some((value, den))
}

} // verus!
