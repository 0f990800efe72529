//! Instants as whole nanoseconds since the Unix epoch, in UTC.
//!
//! An `i64` of nanoseconds spans the years 1677 to 2262. Arithmetic that would
//! leave that span yields `None` instead of wrapping.

use chrono::DateTime;
use vstd::prelude::*;

verus! {

/// The text that chrono's `Display` gives the UTC date-time lying `nanos`
/// nanoseconds after the Unix epoch: calendar date, time of day with as many
/// fractional digits as the instant needs, and the zone name.
pub uninterp spec fn utc_display(nanos: i64) -> Seq<char>;

/// Calls `chrono::DateTime::from_timestamp_nanos` and formats the date-time
/// with its `Display` impl. Neither fails for any `i64`. The contract only
/// names the text: it is a function of the instant alone, since UTC involves no
/// locale and no zone database.
#[verifier::external_body]
pub(crate) fn utc_text(nanos: i64) -> (text: String)
    ensures
        text@ == utc_display(nanos),
{
    DateTime::from_timestamp_nanos(nanos).to_string()
}

/// Whole microseconds since the epoch of an instant, rounded towards the past.
pub open spec fn micros_of(nanos: int) -> int {
    nanos / 1000
}

/// The instant `millis` milliseconds after `start`.
pub open spec fn plus_millis(start: int, millis: int) -> int {
    start + millis * 1_000_000
}

/// The instant `micros` microseconds after `start` (before it, if negative).
pub open spec fn plus_micros(start: int, micros: int) -> int {
    start + micros * 1_000
}

/// Whether `t` can be held as nanoseconds in an `i64`.
pub open spec fn representable(t: int) -> bool {
    i64::MIN <= t <= i64::MAX
}

/// Whole microseconds since the epoch, rounded towards the past, as a
/// microsecond-precision column stores the instant.
pub fn timestamp_micros(nanos: i64) -> (micros: i64)
    ensures
        micros == micros_of(nanos as int),
{
    if nanos >= 0 {
        nanos / 1_000
    } else {
        let below: i64 = -(nanos + 1);
        -(below / 1_000) - 1
    }
}

/// The instant `millis` milliseconds after `start`, or `None` when it cannot
/// be represented.
pub fn after_millis(start: i64, millis: u64) -> (t: Option<i64>)
    ensures
        t is Some <==> representable(plus_millis(start as int, millis as int)),
        t is Some ==> t->0 == plus_millis(start as int, millis as int),
{
    let wide: i128 = (start as i128) + (millis as i128) * 1_000_000;
    if wide <= i64::MAX as i128 {
        Some(wide as i64)
    } else {
        None
    }
}

/// Whether `bits` is the bit pattern of a finite IEEE-754 binary64 number:
/// its eleven exponent bits are not all set.
pub open spec fn is_finite_bits(bits: u64) -> bool {
    (bits / 0x10_0000_0000_0000) % 0x800 != 0x7ff
}

/// Jitter of reading timestamps: a zero-mean Gaussian in microseconds that is
/// drawn anew for every reading, so the channels of one tick need not share a
/// timestamp.
///
/// The draw is made by the caller, who owns the random stream; this type
/// holds the standard deviation and applies a draw to a timestamp.
#[derive(Debug, Clone, Copy)]
pub struct TimestampJitter {
    std_dev_us: u64,
}

impl TimestampJitter {
    /// The standard deviation in microseconds, as the bit pattern of an
    /// IEEE-754 binary64 number.
    pub closed spec fn spec_std_dev_us(&self) -> u64 {
        self.std_dev_us
    }

    /// Jitter with the standard deviation whose bit pattern is `std_dev_us`;
    /// `None` unless that number is finite.
    pub fn new(std_dev_us: u64) -> (jitter: Option<TimestampJitter>)
        ensures
            jitter is Some <==> is_finite_bits(std_dev_us),
            jitter is Some ==> jitter->0.spec_std_dev_us() == std_dev_us,
    {
        let exponent: u64 = (std_dev_us / 0x10_0000_0000_0000) % 0x800;
        if exponent != 0x7ff {
            Some(TimestampJitter { std_dev_us })
        } else {
            None
        }
    }

    /// The standard deviation in microseconds, as a bit pattern.
    pub fn std_dev_us(&self) -> (bits: u64)
        ensures
            bits == self.spec_std_dev_us(),
            is_finite_bits(bits),
    {
        proof {
            use_type_invariant(self);
        }
        self.std_dev_us
    }

    #[verifier::type_invariant]
    spec fn finite(&self) -> bool {
        is_finite_bits(self.std_dev_us)
    }

    /// The instant `jitter_micros` microseconds away from `timestamp`, or
    /// `None` when it cannot be represented.
    pub fn apply(&self, timestamp: i64, jitter_micros: i64) -> (t: Option<i64>)
        ensures
            t is Some <==> representable(plus_micros(timestamp as int, jitter_micros as int)),
            t is Some ==> t->0 == plus_micros(timestamp as int, jitter_micros as int),
    {
        let wide: i128 = (timestamp as i128) + (jitter_micros as i128) * 1_000;
        if i64::MIN as i128 <= wide && wide <= i64::MAX as i128 {
            Some(wide as i64)
        } else {
            None
        }
    }
}

} // verus!
