//! Upload intervals and the parser for their textual form (`2h`, `30m`,
//! `1d`, or a bare number of hours).

use crate::text::{lower_of, lowercase, parse_i64, trim, trimmed, i64_value};
use vstd::prelude::*;

verus! {

/// The largest magnitude of an interval, in seconds: `i64::MAX` milliseconds,
/// the bound of chrono's `TimeDelta`.
pub const MAX_INTERVAL_SECS: i64 = 9223372036854775;

/// A signed span of time, in whole seconds.
#[derive(Clone, Copy, Debug, PartialEq, Eq, Structural)]
pub struct Interval {
    pub seconds: i64,
}

impl Interval {
    pub open spec fn wf(self) -> bool {
        -MAX_INTERVAL_SECS <= self.seconds <= MAX_INTERVAL_SECS
    }
}

/// Why an interval text was refused.
#[derive(Clone, Copy, Debug, PartialEq, Eq, Structural)]
pub enum ParseErrorKind {
    /// The number in front of the unit is not a decimal integer of `i64`.
    InvalidNumber,
    /// The number is valid but the span is too long to be represented.
    OutOfRange,
}

/// A refused interval text, with the text as it was given.
#[derive(Debug)]
pub struct ParseError {
    pub kind: ParseErrorKind,
    pub input: String,
}

impl ParseError {
    /// A short description of the failure.
    pub fn reason(&self) -> (r: String)
        ensures
            r@ == reason_text(self.kind),
    {
        match self.kind {
            ParseErrorKind::InvalidNumber => String::from_str("invalid numeric value"),
            ParseErrorKind::OutOfRange => String::from_str("interval out of range"),
        }
    }
}

pub open spec fn reason_text(kind: ParseErrorKind) -> Seq<char> {
    match kind {
        ParseErrorKind::InvalidNumber => "invalid numeric value"@,
        ParseErrorKind::OutOfRange => "interval out of range"@,
    }
}

/// Seconds in one unit named by a suffix letter: hours, minutes or days.
pub open spec fn unit_seconds(c: char) -> Option<int> {
    if c == 'h' {
        Some(3600)
    } else if c == 'm' {
        Some(60)
    } else if c == 'd' {
        Some(86400)
    } else {
        None
    }
}

/// The length in seconds of the interval written as `t` (already trimmed
/// and lower-cased): a number followed by one unit letter, or a bare number
/// of hours.
pub open spec fn interval_seconds(t: Seq<char>) -> Result<int, ParseErrorKind> {
    let has_unit = t.len() > 0 && unit_seconds(t.last()) is Some;
    let number = if has_unit {
        t.drop_last()
    } else {
        t
    };
    let unit = if has_unit {
        unit_seconds(t.last())->0
    } else {
        3600
    };
    match i64_value(number) {
        None => Err(ParseErrorKind::InvalidNumber),
        Some(n) => if -MAX_INTERVAL_SECS <= n * unit <= MAX_INTERVAL_SECS {
            Ok(n * unit)
        } else {
            Err(ParseErrorKind::OutOfRange)
        },
    }
}

/// The interval written as `s`, ignoring case and surrounding white space.
pub open spec fn duration_of(s: Seq<char>) -> Result<int, ParseErrorKind> {
    interval_seconds(trimmed(lower_of(s)))
}

/// A number followed by `h`, `m` or `d` counts hours, minutes or days; a
/// bare number counts hours.
pub proof fn lemma_unit_suffixes(number: Seq<char>, n: i64)
    requires
        i64_value(number) == Some(n),
        -MAX_INTERVAL_SECS <= n * 86400 <= MAX_INTERVAL_SECS,
    ensures
        interval_seconds(number.push('h')) == Ok::<int, ParseErrorKind>(n * 3600),
        interval_seconds(number.push('m')) == Ok::<int, ParseErrorKind>(n * 60),
        interval_seconds(number.push('d')) == Ok::<int, ParseErrorKind>(n * 86400),
        interval_seconds(number) == Ok::<int, ParseErrorKind>(n * 3600),
{
    assert(number.push('h').drop_last() =~= number);
    assert(number.push('m').drop_last() =~= number);
    assert(number.push('d').drop_last() =~= number);
    let signed = number.len() > 0 && (number[0] == '-' || number[0] == '+');
    let body = if signed {
        number.drop_first()
    } else {
        number
    };
    assert(crate::text::is_digit(body[body.len() - 1]));
    assert(-MAX_INTERVAL_SECS <= n * 3600 <= MAX_INTERVAL_SECS) by (nonlinear_arith)
        requires
            -MAX_INTERVAL_SECS <= n * 86400 <= MAX_INTERVAL_SECS,
    ;
    assert(-MAX_INTERVAL_SECS <= n * 60 <= MAX_INTERVAL_SECS) by (nonlinear_arith)
        requires
            -MAX_INTERVAL_SECS <= n * 86400 <= MAX_INTERVAL_SECS,
    ;
}

/// Parsing ignores case: texts that lower-case alike parse alike.
pub proof fn lemma_case_insensitive(a: Seq<char>, b: Seq<char>)
    requires
        lower_of(a) == lower_of(b),
    ensures
        duration_of(a) == duration_of(b),
{
}

/// Parses an interval text that is already lower-cased; surrounding white
/// space is ignored.
pub fn parse_lowered_duration(lowered: &str) -> (r: Result<Interval, ParseError>)
    ensures
        match r {
            Ok(iv) => iv.wf() && interval_seconds(trimmed(lowered@)) == Ok::<int, ParseErrorKind>(
                iv.seconds as int,
            ),
            Err(e) => interval_seconds(trimmed(lowered@)) == Err::<int, ParseErrorKind>(e.kind)
                && e.input@ == lowered@,
        },
{
    let t = trim(lowered);
    let n = t.unicode_len();
    let mut number = t;
    let mut unit: i64 = 3600;
    if n > 0 {
        let c = t.get_char(n - 1);
        if c == 'h' || c == 'm' || c == 'd' {
            unit = if c == 'h' {
                3600
            } else if c == 'm' {
                60
            } else {
                86400
            };
            number = t.substring_char(0, n - 1);
            assert(number@ == t@.drop_last());
        }
    }
    match parse_i64(number) {
        None => Err(ParseError { kind: ParseErrorKind::InvalidNumber, input: String::from_str(lowered) }),
        Some(v) => {
            assert(-0x1_0000_0000_0000_0000_0000_0000 < v * unit < 0x1_0000_0000_0000_0000_0000_0000)
                by (nonlinear_arith)
                requires
                    i64::MIN <= v <= i64::MAX,
                    0 < unit <= 86400,
            ;
            let secs: i128 = v as i128 * unit as i128;
            if secs < -(MAX_INTERVAL_SECS as i128) || secs > MAX_INTERVAL_SECS as i128 {
                Err(ParseError { kind: ParseErrorKind::OutOfRange, input: String::from_str(lowered) })
            } else {
                Ok(Interval { seconds: secs as i64 })
            }
        },
    }
}

/// Parses an interval such as `2h`, `30m`, `1d` or `3` (hours), ignoring
/// case and surrounding white space.
pub fn parse_duration(duration_str: &str) -> (r: Result<Interval, ParseError>)
    ensures
        match r {
            Ok(iv) => iv.wf() && duration_of(duration_str@) == Ok::<int, ParseErrorKind>(
                iv.seconds as int,
            ),
            Err(e) => duration_of(duration_str@) == Err::<int, ParseErrorKind>(e.kind)
                && e.input@ == duration_str@,
        },
{
    let lowered = lowercase(duration_str);
    match parse_lowered_duration(lowered.as_str()) {
        Ok(iv) => Ok(iv),
        Err(e) => Err(ParseError { kind: e.kind, input: String::from_str(duration_str) }),
    }
}

} // verus!
