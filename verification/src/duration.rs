use vstd::prelude::*;
use vstd::string::StrSliceExecFns;

use crate::message::EncodingError;
use crate::parse::is_digit;

verus! {

/// A span of time: whole seconds plus a sub-second remainder in
/// nanoseconds, always below one billion.
#[derive(Clone, Copy, Debug, PartialEq, Eq, Structural)]
pub struct Duration {
    pub secs: u64,
    pub nanos: u32,
}

impl Duration {
    /// Well-formed: the nanosecond part never reaches a full second.
    pub open spec fn wf(self) -> bool {
        self.nanos < 1_000_000_000
    }

    pub fn new(secs: u64, nanos: u32) -> (r: Self)
        requires
            nanos < 1_000_000_000,
        ensures
            r == (Duration { secs, nanos }),
            r.wf(),
    {
        Duration { secs, nanos }
    }
}

/// A duration of exactly the given number of seconds.
pub fn duration_from_secs(secs: u64) -> (r: Duration)
    ensures
        r == (Duration { secs, nanos: 0u32 }),
        r.wf(),
{
    Duration { secs, nanos: 0 }
}

/// A duration of exactly the given number of milliseconds.
pub fn duration_from_millis(millis: u64) -> (r: Duration)
    ensures
        r.secs == millis / 1000,
        r.nanos == (millis % 1000) * 1_000_000,
        r.wf(),
{
    Duration { secs: millis / 1000, nanos: ((millis % 1000) as u32) * 1_000_000 }
}

/// A duration of exactly the given number of nanoseconds.
pub fn duration_from_nanos(nanos: u64) -> (r: Duration)
    ensures
        r.secs == nanos / 1_000_000_000,
        r.nanos == nanos % 1_000_000_000,
        r.wf(),
{
    Duration { secs: nanos / 1_000_000_000, nanos: (nanos % 1_000_000_000) as u32 }
}

/// How many ASCII decimal digits the text holds, in all.
pub open spec fn ascii_digit_count(s: Seq<char>) -> int
    decreases s.len(),
{
    if s.len() == 0 {
        0
    } else {
        ascii_digit_count(s.drop_last()) + (if is_digit(s.last()) {
            1int
        } else {
            0int
        })
    }
}

/// Texts the duration parser is given: at most 11 ASCII digits in all.
/// Every unit multiplies its number by less than 2^25 seconds (a year is
/// about 2^24.9), so any parse of such a text totals far below 2^64
/// seconds, clear of the corner where the parser's final carry from the
/// nanosecond column would overflow the seconds counter and panic. A text
/// with more digits is rejected up front instead of being parsed.
pub open spec fn human_duration_guarded(s: Seq<char>) -> bool {
    ascii_digit_count(s) <= 11
}

fn count_ascii_digits(s: &str) -> (r: usize)
    ensures
        r == ascii_digit_count(s@),
{
    let n: usize = s.unicode_len();
    let mut r: usize = 0;
    let mut i: usize = 0;
    while i < n
        invariant
            n == s@.len(),
            i <= n,
            r <= i,
            r == ascii_digit_count(s@.subrange(0, i as int)),
        decreases n - i,
    {
        let c: char = s.get_char(i);
        let cv: u32 = c as u32;
        proof {
            assert(s@.subrange(0, (i + 1) as int).drop_last() =~= s@.subrange(0, i as int));
            assert(s@.subrange(0, (i + 1) as int).last() == s@[i as int]);
        }
        if 48 <= cv && cv <= 57 {
            r = r + 1;
        }
        i = i + 1;
    }
    proof {
        assert(s@.subrange(0, n as int) =~= s@);
    }
    r
}

/// The duration, as (seconds, nanoseconds), that `humantime` reads out of a
/// guarded text like "1hour 12min 5s", if the text is a valid duration.
pub uninterp spec fn human_duration_of(s: Seq<char>) -> Option<(u64, u32)>;

/// Relies on `humantime::parse_duration`: parses a concatenation of integer
/// time spans with unit suffixes; the result depends on the text alone, and
/// a `std::time::Duration`'s nanosecond part is always below one billion.
/// Only guarded texts are admitted: on those the parser's running total
/// stays far below 2^64 seconds, so its one panicking corner (a nanosecond
/// carry landing exactly on a 2^64-second total) is unreachable.
#[verifier::external_body]
fn parse_human_duration(s: &str) -> (r: Result<(u64, u32), String>)
    requires
        human_duration_guarded(s@),
    ensures
        r is Ok <==> human_duration_of(s@) is Some,
        r matches Ok(p) ==> human_duration_of(s@) == Some(p) && p.1 < 1_000_000_000,
{
    match humantime::parse_duration(s) {
        Ok(d) => Ok((d.as_secs(), d.subsec_nanos())),
        Err(e) => Err(e.to_string()),
    }
}

/// Parse a human-readable duration such as "1hour 12min 5s". A text with
/// more than 11 digits in all is rejected up front (it could drive the
/// parser into its overflow corner); a guarded text succeeds exactly when
/// `humantime` accepts it, and then yields exactly the duration read.
pub fn duration_humantime(s: &str) -> (r: Result<Duration, EncodingError>)
    ensures
        !human_duration_guarded(s@) ==> r is Err,
        human_duration_guarded(s@) ==> (r is Ok <==> human_duration_of(s@) is Some),
        r matches Ok(d) ==> human_duration_of(s@) == Some((d.secs, d.nanos)) && d.wf(),
{
    if count_ascii_digits(s) > 11 {
        return Err(EncodingError { message: "too many digits for a duration".to_owned() });
    }
    match parse_human_duration(s) {
        Ok(p) => Ok(Duration { secs: p.0, nanos: p.1 }),
        Err(message) => Err(EncodingError { message }),
    }
}

/// The time since the Unix epoch, as (seconds, nanoseconds), that
/// `humantime` reads out of an RFC3339-like timestamp such as
/// "2023-10-06T17:35:55.440295Z", if the text is a valid timestamp.
pub uninterp spec fn rfc3339_weak_epoch_of(s: Seq<char>) -> Option<(u64, u32)>;

/// Relies on `humantime::parse_rfc3339_weak`: parses an RFC3339-like UTC
/// timestamp (never before 1970, so the offset from the Unix epoch is
/// non-negative); the result depends on the text alone, and the nanosecond
/// part of a `std::time::Duration` is always below one billion.
#[verifier::external_body]
fn parse_rfc3339_weak_epoch(s: &str) -> (r: Result<(u64, u32), String>)
    ensures
        r is Ok <==> rfc3339_weak_epoch_of(s@) is Some,
        r matches Ok(p) ==> rfc3339_weak_epoch_of(s@) == Some(p) && p.1 < 1_000_000_000,
{
    match humantime::parse_rfc3339_weak(s) {
        Ok(t) => match t.duration_since(std::time::UNIX_EPOCH) {
            Ok(d) => Ok((d.as_secs(), d.subsec_nanos())),
            Err(e) => Err(e.to_string()),
        },
        Err(e) => Err(e.to_string()),
    }
}

/// Parse an RFC3339-like timestamp into the duration since the Unix epoch.
/// Succeeds exactly when `humantime` accepts the text, and then returns
/// exactly the offset it read.
pub fn duration_iso_8601(s: &str) -> (r: Result<Duration, EncodingError>)
    ensures
        r is Ok <==> rfc3339_weak_epoch_of(s@) is Some,
        r matches Ok(d) ==> rfc3339_weak_epoch_of(s@) == Some((d.secs, d.nanos)) && d.wf(),
{
    match parse_rfc3339_weak_epoch(s) {
        Ok(p) => Ok(Duration { secs: p.0, nanos: p.1 }),
        Err(message) => Err(EncodingError { message }),
    }
}

} // verus!
