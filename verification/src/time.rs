//! The timestamp converter: epoch-relative timer intervals to absolute time.

use vstd::prelude::*;

use crate::error::{DecodeError, FieldName};

verus! {

/// Seconds between the standard 1970 epoch and the catalog format's
/// reference epoch, 2001-01-01T00:00:00 UTC.
pub const FORMAT_EPOCH_OFFSET_SECONDS: i64 = 978307200;

/// Nanoseconds in one second; a fractional-part nanosecond count must stay
/// strictly below this.
pub const NANOS_PER_SECOND: u32 = 1000000000;

/// A raw timer-interval scalar of the catalog: a (possibly negative) count
/// of seconds since the format epoch, held as the floor of that count plus
/// the nanoseconds of its fractional part. The fractional part of a number
/// is taken against the floor, so it is never negative and `frac_nanos`
/// represents less than one full second whenever the value is well formed.
#[derive(Clone, Copy, Debug, PartialEq, Eq, Structural)]
pub struct TimeInterval {
    /// Floor of the interval, in whole seconds since the format epoch.
    pub whole: i64,
    /// Nanoseconds of the fractional part, truncated toward zero.
    pub frac_nanos: u32,
}

impl TimeInterval {
    /// A stored fraction represents less than one full second.
    pub open spec fn wf(self) -> bool {
        self.frac_nanos < NANOS_PER_SECOND
    }
}

/// An absolute point in time with nanosecond resolution: whole seconds
/// since the standard 1970 epoch, plus nanoseconds within that second.
#[derive(Clone, Copy, Debug, PartialEq, Eq, Structural)]
pub struct Timestamp {
    /// Whole seconds since 1970-01-01T00:00:00 UTC; negative before it.
    pub unix_seconds: i64,
    /// Nanoseconds within the second, in `[0, NANOS_PER_SECOND)`.
    pub nanoseconds: u32,
}

impl Timestamp {
    /// The nanosecond component stays within one second.
    pub open spec fn wf(self) -> bool {
        self.nanoseconds < NANOS_PER_SECOND
    }
}

/// What converting a timer interval yields: the floor of the interval moved
/// onto the 1970 epoch, with the fractional nanoseconds carried over
/// unchanged. A fraction of a second or more in `frac_nanos`, or a second
/// count above what the timestamp can hold, is an `Overflow` at `field`.
pub open spec fn spec_timestamp_from_interval(iv: TimeInterval, field: FieldName) -> Result<
    Timestamp,
    DecodeError,
> {
    if !iv.wf() {
        Err(DecodeError::Overflow(field))
    } else if iv.whole + FORMAT_EPOCH_OFFSET_SECONDS > i64::MAX {
        Err(DecodeError::Overflow(field))
    } else {
        Ok(
            Timestamp {
                unix_seconds: (iv.whole + FORMAT_EPOCH_OFFSET_SECONDS) as i64,
                nanoseconds: iv.frac_nanos,
            },
        )
    }
}

/// The timestamp converter: absolute-epoch seconds are the interval's floor
/// plus the format-epoch offset; nanoseconds are the fractional part's
/// nanoseconds unchanged. Succeeds exactly on well-formed intervals whose
/// shifted second count still fits the timestamp; the nanosecond component
/// of every successful conversion lies in `[0, NANOS_PER_SECOND)`.
pub fn timestamp_from_interval(iv: TimeInterval, field: FieldName) -> (r: Result<
    Timestamp,
    DecodeError,
>)
    ensures
        r == spec_timestamp_from_interval(iv, field),
        r matches Ok(t) ==> t.wf() && t.unix_seconds == iv.whole + FORMAT_EPOCH_OFFSET_SECONDS
            && t.nanoseconds == iv.frac_nanos,
        iv.wf() && iv.whole + FORMAT_EPOCH_OFFSET_SECONDS <= i64::MAX ==> r is Ok,
{
    if iv.frac_nanos >= NANOS_PER_SECOND {
        return Err(DecodeError::Overflow(field));
    }
    match iv.whole.checked_add(FORMAT_EPOCH_OFFSET_SECONDS) {
        Some(seconds) => Ok(Timestamp { unix_seconds: seconds, nanoseconds: iv.frac_nanos }),
        None => Err(DecodeError::Overflow(field)),
    }
}

} // verus!
