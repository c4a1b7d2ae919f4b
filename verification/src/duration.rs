//! Reading the length of the rate-limit window from its written form, such
//! as `10m` or `1day`.

use vstd::prelude::*;

verus! {

/// Why a text is no duration.
#[derive(Debug)]
pub enum DurationError {
    /// A character that may not stand in a duration, at this byte offset.
    InvalidCharacter(usize),
    /// Something else where a number had to stand, at this byte offset.
    NumberExpected(usize),
    /// No unit of time that is known: where it stands in the text, the unit
    /// as written, and the number before it.
    UnknownUnit { start: usize, end: usize, unit: String, value: u64 },
    /// The number is too large, or finer than a nanosecond.
    NumberOverflow,
    /// The text is empty.
    Empty,
    /// The text holds more digits than are read.
    TooManyDigits,
}

/// An error as contracts see it.
pub enum DurationErrorModel {
    InvalidCharacter(usize),
    NumberExpected(usize),
    UnknownUnit { start: usize, end: usize, unit: Seq<char>, value: u64 },
    NumberOverflow,
    Empty,
    TooManyDigits,
}

impl View for DurationError {
    type V = DurationErrorModel;

    open spec fn view(&self) -> DurationErrorModel {
        match self {
            DurationError::InvalidCharacter(at) => DurationErrorModel::InvalidCharacter(*at),
            DurationError::NumberExpected(at) => DurationErrorModel::NumberExpected(*at),
            DurationError::UnknownUnit { start, end, unit, value } => {
                DurationErrorModel::UnknownUnit {
                    start: *start,
                    end: *end,
                    unit: unit@,
                    value: *value,
                }
            },
            DurationError::NumberOverflow => DurationErrorModel::NumberOverflow,
            DurationError::Empty => DurationErrorModel::Empty,
            DurationError::TooManyDigits => DurationErrorModel::TooManyDigits,
        }
    }
}

/// The largest number of digits that a text may hold to be read.
pub const MAX_DIGITS: usize = 11;

/// `c` is one of the ten digits.
pub open spec fn is_digit(c: char) -> bool {
    '0' <= c && c <= '9'
}

/// The number of digits in `text`.
pub open spec fn digit_count(text: Seq<char>) -> nat
    decreases text.len(),
{
    if text.len() == 0 {
        0
    } else if is_digit(text.last()) {
        digit_count(text.drop_last()) + 1
    } else {
        digit_count(text.drop_last())
    }
}

/// What `humantime::parse_duration` makes of `text`: whole seconds and the
/// nanoseconds beyond them, or the error.
pub uninterp spec fn parsed_duration(text: Seq<char>) -> Result<(u64, u32), DurationErrorModel>;

/// Calls `humantime::parse_duration` on `text`. Trusted: the outcome depends
/// on the text alone. A duration comes back as its whole seconds and the
/// nanoseconds beyond them, an error variant by variant with its fields.
///
/// The call is kept to texts of at most eleven digits. It builds its result
/// with `Duration::new`, which panics where a full second of nanoseconds has
/// to be carried into seconds that are already the largest `u64`. The
/// numbers written with eleven digits add up to less than 10^11, a unit
/// holds at most 31,557,600 seconds, and each of the at most twenty-two
/// additions carries at most two seconds more than that: the seconds stay
/// below 3.2 * 10^18, far from the largest `u64`.
#[verifier::external_body]
fn parse_duration(text: &str) -> (res: Result<(u64, u32), DurationError>)
    requires
        digit_count(text@) <= MAX_DIGITS,
    ensures
        match res {
            Ok(span) => parsed_duration(text@) == Ok::<(u64, u32), DurationErrorModel>(span),
            Err(error) => parsed_duration(text@) == Err::<(u64, u32), DurationErrorModel>(error@)
                && !(error is TooManyDigits),
        },
{
    match humantime::parse_duration(text) {
        Ok(span) => Ok((span.as_secs(), span.subsec_nanos())),
        Err(humantime::DurationError::InvalidCharacter(at)) => Err(DurationError::InvalidCharacter(at)),
        Err(humantime::DurationError::NumberExpected(at)) => Err(DurationError::NumberExpected(at)),
        Err(humantime::DurationError::UnknownUnit { start, end, unit, value }) => {
            Err(DurationError::UnknownUnit { start, end, unit, value })
        },
        Err(humantime::DurationError::NumberOverflow) => Err(DurationError::NumberOverflow),
        Err(humantime::DurationError::Empty) => Err(DurationError::Empty),
    }
}

/// Counts the digits in `text`.
pub fn count_digits(text: &str) -> (count: usize)
    ensures
        count == digit_count(text@),
{
    let n = text.unicode_len();
    let mut count: usize = 0;
    let mut i: usize = 0;
    assert(text@.take(0) =~= Seq::<char>::empty());
    while i < n
        invariant
            i <= n,
            n == text@.len(),
            count <= i,
            count == digit_count(text@.take(i as int)),
        decreases n - i,
    {
        let c = text.get_char(i);
        proof {
            assert(text@.take(i + 1).drop_last() =~= text@.take(i as int));
            assert(text@.take(i + 1).last() == c);
        }
        if '0' <= c && c <= '9' {
            count += 1;
        }
        i += 1;
    }
    assert(text@.take(n as int) =~= text@);
    count
}

/// The number of nanoseconds in a second.
pub const NANOS_PER_SECOND: u128 = 1_000_000_000;

/// The nanoseconds in `secs` seconds and `nanos` nanoseconds.
pub open spec fn nanoseconds(secs: u64, nanos: u32) -> nat {
    (secs * 1_000_000_000 + nanos) as nat
}

/// Turns a duration of `secs` whole seconds and `nanos` nanoseconds beyond
/// them into nanoseconds.
pub fn span_nanos(secs: u64, nanos: u32) -> (span: u128)
    ensures
        span == nanoseconds(secs, nanos),
{
    assert(secs * 1_000_000_000 + nanos <= u64::MAX * 1_000_000_000 + u32::MAX) by (nonlinear_arith)
        requires
            secs <= u64::MAX,
            nanos <= u32::MAX,
    ;
    (secs as u128) * NANOS_PER_SECOND + (nanos as u128)
}

/// The length of a window in nanoseconds that is read from `text`, `parsed`
/// being what the parser makes of it: a text of more than [`MAX_DIGITS`]
/// digits is refused without being parsed.
pub open spec fn window_of(text: Seq<char>, parsed: Result<(u64, u32), DurationErrorModel>) -> Result<
    nat,
    DurationErrorModel,
> {
    if digit_count(text) > MAX_DIGITS {
        Err(DurationErrorModel::TooManyDigits)
    } else {
        match parsed {
            Ok(span) => Ok(nanoseconds(span.0, span.1)),
            Err(error) => Err(error),
        }
    }
}

/// Reads the length of a window, in nanoseconds, from a text such as `10m`
/// or `1day`. A text that holds more than [`MAX_DIGITS`] digits is refused
/// as it stands; any other is parsed.
pub fn parse_rate_limit(text: &str) -> (res: Result<u128, DurationError>)
    ensures
        match res {
            Ok(window) => window_of(text@, parsed_duration(text@)) == Ok::<
                nat,
                DurationErrorModel,
            >(window as nat),
            Err(error) => window_of(text@, parsed_duration(text@)) == Err::<
                nat,
                DurationErrorModel,
            >(error@),
        },
{
    if count_digits(text) > MAX_DIGITS {
        return Err(DurationError::TooManyDigits);
    }
    match parse_duration(text) {
        Ok(span) => Ok(span_nanos(span.0, span.1)),
        Err(error) => Err(error),
    }
}

} // verus!
