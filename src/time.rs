//! Timestamps and durations carried as microsecond counts.

use vstd::prelude::*;
use crate::wire::{expect_u64, u64_of, DecodeError, WireValue};

verus! {

pub const MICROS_PER_SEC: u64 = 1_000_000;

/// A point in time or a span, as a count of microseconds. Zero is a valid
/// value, used by the manager for "not set".
#[derive(Debug, Clone, Copy, PartialEq, Eq, PartialOrd, Ord, Hash, Structural)]
pub struct TimeStamp {
    micros: u64,
}

impl View for TimeStamp {
    type V = u64;

    closed spec fn view(&self) -> u64 {
        self.micros
    }
}

impl TimeStamp {
    pub fn from_micros(micros: u64) -> (r: TimeStamp)
        ensures
            r@ == micros,
    {
        TimeStamp { micros }
    }

    /// Decodes a `u64` wire value; every `u64` is a valid timestamp.
    pub fn decode(w: &WireValue) -> (r: Result<TimeStamp, DecodeError>)
        ensures
            match u64_of(*w) {
                Some(n) => r matches Ok(t) && t@ == n,
                None => r == Err::<TimeStamp, DecodeError>(DecodeError::TypeMismatch),
            },
    {
        match expect_u64(w) {
            Ok(n) => Ok(TimeStamp { micros: n }),
            Err(e) => Err(e),
        }
    }

    pub fn as_micros(&self) -> (r: u64)
        ensures
            r == self@,
    {
        self.micros
    }

    /// Whole seconds.
    pub fn as_secs(&self) -> (r: u64)
        ensures
            r == self@ / MICROS_PER_SEC,
    {
        self.micros / MICROS_PER_SEC
    }

    /// The microseconds past the whole seconds.
    pub fn subsec_micros(&self) -> (r: u32)
        ensures
            r == self@ % MICROS_PER_SEC,
    {
        (self.micros % MICROS_PER_SEC) as u32
    }

    /// Encodes this timestamp as a `u64` wire value.
    pub fn to_wire(&self) -> (w: WireValue)
        ensures
            u64_of(w) == Some(self@),
    {
        WireValue::U64(self.micros)
    }
}

} // verus!
