use vstd::prelude::*;

use crate::response::{FixedDateTime, RetryAfter};

verus! {

/// Whether `c` is an ASCII decimal digit.
pub open spec fn is_digit(c: char) -> bool {
    '0' <= c && c <= '9'
}

/// Whether `s` is one or more ASCII decimal digits.
pub open spec fn all_digits(s: Seq<char>) -> bool {
    s.len() > 0 && forall|i: int| 0 <= i < s.len() ==> is_digit(#[trigger] s[i])
}

/// The number that a run of decimal digits denotes.
pub open spec fn digits_value(s: Seq<char>) -> int
    decreases s.len(),
{
    if s.len() == 0 {
        0
    } else {
        10 * digits_value(s.drop_last()) + (s.last() as int - '0' as int)
    }
}

/// The integer that a decimal numeral denotes: an optional `+` or `-` sign
/// followed by one or more ASCII digits, with nothing before or after.
pub open spec fn decimal_value(s: Seq<char>) -> Option<int> {
    if s.len() > 0 && (s[0] == '+' || s[0] == '-') {
        let digits = s.subrange(1, s.len() as int);
        if all_digits(digits) {
            Some(if s[0] == '-' { -digits_value(digits) } else { digits_value(digits) })
        } else {
            None
        }
    } else if all_digits(s) {
        Some(digits_value(s))
    } else {
        None
    }
}

/// A count of seconds written as a decimal numeral that fits in an `i64`.
pub open spec fn seconds_of(s: Seq<char>) -> Option<i64> {
    match decimal_value(s) {
        Some(v) => if i64::MIN <= v && v <= i64::MAX {
            Some(v as i64)
        } else {
            None
        },
        None => None,
    }
}

/// What a retry-after value means: a delay in seconds when it is a decimal
/// numeral that fits in an `i64`, else the moment `date` when the text was
/// read as a date, else nothing.
pub open spec fn retry_after_of(s: Seq<char>, date: Option<FixedDateTime>) -> Option<RetryAfter> {
    match seconds_of(s) {
        Some(n) => Some(RetryAfter::Delay(n)),
        None => match date {
            Some(d) => Some(RetryAfter::DateTime(d)),
            None => None,
        },
    }
}

/// The moment that an RFC 2822 date-time text denotes, or `None` when the
/// text is not one.
pub uninterp spec fn rfc2822_date(s: Seq<char>) -> Option<FixedDateTime>;

/// Relies on chrono::DateTime::parse_from_rfc2822 (with DateTime::timestamp,
/// DateTime::timestamp_subsec_nanos and FixedOffset::local_minus_utc): the
/// parse depends on the text alone.
#[verifier::external_body]
fn parse_rfc2822(s: &str) -> (r: Option<FixedDateTime>)
    ensures
        r == rfc2822_date(s@),
{
    chrono::DateTime::parse_from_rfc2822(s).ok().map(|d| FixedDateTime {
        timestamp: d.timestamp(),
        nanosecond: d.timestamp_subsec_nanos(),
        offset_seconds: d.offset().local_minus_utc(),
    })
}

proof fn lemma_digits_nonneg(s: Seq<char>)
    requires
        forall|i: int| 0 <= i < s.len() ==> is_digit(#[trigger] s[i]),
    ensures
        digits_value(s) >= 0,
    decreases s.len(),
{
    if s.len() > 0 {
        lemma_digits_nonneg(s.drop_last());
    }
}

/// A run of digits denotes at least as much as any of its prefixes.
proof fn lemma_digits_prefix(s: Seq<char>, k: int)
    requires
        0 <= k <= s.len(),
        forall|i: int| 0 <= i < s.len() ==> is_digit(#[trigger] s[i]),
    ensures
        digits_value(s) >= digits_value(s.subrange(0, k)),
    decreases s.len(),
{
    if k < s.len() {
        let t = s.drop_last();
        lemma_digits_nonneg(t);
        lemma_digits_prefix(t, k);
        assert(t.subrange(0, k) == s.subrange(0, k));
    } else {
        assert(s.subrange(0, k) == s);
    }
}

const MAGNITUDE_LIMIT: u64 = 9223372036854775808;

/// Reads a whole string as a decimal count of seconds: an optional sign and
/// ASCII digits, with a value that fits in an `i64`.
pub fn parse_seconds(s: &str) -> (r: Option<i64>)
    ensures
        r == seconds_of(s@),
{
    let n = s.unicode_len();
    if n == 0 {
        return None;
    }
    let first = s.get_char(0);
    let negative = first == '-';
    let start: usize = if first == '+' || first == '-' { 1 } else { 0 };
    let ghost digits = s@.subrange(start as int, n as int);
    assert(start == 0 ==> digits == s@);
    if start >= n {
        assert(digits.len() == 0);
        return None;
    }
    let mut acc: u64 = 0;
    let mut i: usize = start;
    while i < n
        invariant
            n == s@.len(),
            n > 0,
            start <= i <= n,
            start == (if s@[0] == '+' || s@[0] == '-' { 1usize } else { 0usize }),
            start == 0 ==> digits == s@,
            digits == s@.subrange(start as int, n as int),
            acc as int == digits_value(s@.subrange(start as int, i as int)),
            acc <= MAGNITUDE_LIMIT,
            forall|j: int| start <= j < i ==> is_digit(#[trigger] s@[j]),
        decreases n - i,
    {
        let c = s.get_char(i);
        let ghost prefix = s@.subrange(start as int, i as int + 1);
        assert(prefix.drop_last() == s@.subrange(start as int, i as int));
        if !('0' <= c && c <= '9') {
            assert(digits[i - start] == c);
            assert(!is_digit(digits[i - start]));
            return None;
        }
        let d = (c as u32 - '0' as u32) as u64;
        if acc > (MAGNITUDE_LIMIT - d) / 10 {
            proof {
                assert(10 * acc + d > MAGNITUDE_LIMIT) by (nonlinear_arith)
                    requires
                        acc > (MAGNITUDE_LIMIT - d) / 10,
                        d <= 9,
                ;
                if forall|j: int| 0 <= j < digits.len() ==> is_digit(#[trigger] digits[j]) {
                    lemma_digits_prefix(digits, i - start + 1);
                    assert(digits.subrange(0, i - start + 1) == prefix);
                    assert(digits_value(prefix) == 10 * acc + d);
                }
            }
            return None;
        }
        acc = acc * 10 + d;
        i = i + 1;
    }
    assert(s@.subrange(start as int, i as int) == digits);
    assert forall|k: int| 0 <= k < digits.len() implies is_digit(#[trigger] digits[k]) by {
        assert(digits[k] == s@[start + k]);
    }
    if negative {
        if acc == MAGNITUDE_LIMIT {
            Some(i64::MIN)
        } else {
            Some(-(acc as i64))
        }
    } else if acc == MAGNITUDE_LIMIT {
        None
    } else {
        Some(acc as i64)
    }
}

impl RetryAfter {
    /// Interprets a retry-after value given the outcome of reading it as an
    /// RFC 2822 date: a decimal numeral wins over the date.
    pub fn from_header(header_value: &str, date: Option<FixedDateTime>) -> (r: Option<RetryAfter>)
        ensures
            r == retry_after_of(header_value@, date),
    {
        match parse_seconds(header_value) {
            Some(seconds) => Some(RetryAfter::Delay(seconds)),
            None => match date {
                Some(d) => Some(RetryAfter::DateTime(d)),
                None => None,
            },
        }
    }

    /// Reads a retry-after value: a delay in seconds, or else an RFC 2822
    /// date. Text that is neither gives `None`, never an error.
    pub fn from_str(header_value: &str) -> (r: Option<RetryAfter>)
        ensures
            r == retry_after_of(header_value@, rfc2822_date(header_value@)),
    {
        match parse_seconds(header_value) {
            Some(seconds) => Some(RetryAfter::Delay(seconds)),
            None => RetryAfter::from_header(header_value, parse_rfc2822(header_value)),
        }
    }
}

} // verus!
