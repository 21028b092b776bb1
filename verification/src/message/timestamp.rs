//! Points in time, counted in milliseconds since the Unix epoch.

use vstd::prelude::*;
use crate::json::{decimal, digit, digit_char, push_decimal};
use std::time::{Duration, SystemTime, SystemTimeError};

verus! {

/// `std::time::SystemTime`, a reading of the system clock. It is carried,
/// never looked into.
#[verifier::external_type_specification]
#[verifier::external_body]
pub struct ExSystemTime(SystemTime);

/// `std::time::SystemTimeError`, the failure of `duration_since`. It is
/// carried, never looked into.
#[verifier::external_type_specification]
#[verifier::external_body]
pub struct ExSystemTimeError(SystemTimeError);

/// `SystemTime::now` reads the system clock. Nothing is claimed of the reading.
pub assume_specification[ SystemTime::now ]() -> (t: SystemTime)
;

/// `Duration::as_millis` gives the whole milliseconds that a duration holds.
/// Nothing is claimed of the number.
pub assume_specification[ Duration::as_millis ](d: &Duration) -> (ms: u128)
;

/// `SystemTime::duration_since`, asked for the time that has passed since the
/// Unix epoch. It fails for a time before the epoch. Nothing is claimed of
/// the outcome.
#[verifier::external_body]
fn since_unix_epoch(t: &SystemTime) -> (r: Result<Duration, SystemTimeError>) {
    t.duration_since(std::time::UNIX_EPOCH)
}

/// A point in time at or after the Unix epoch, to the millisecond.
#[derive(Clone, Copy, Debug, PartialEq, Eq, Structural)]
pub struct Timestamp {
    millis: u64,
}

impl View for Timestamp {
    type V = nat;

    /// The milliseconds since the Unix epoch.
    open spec fn view(&self) -> nat {
        self.spec_millis() as nat
    }
}

/// The timestamp as a JSON number: the seconds since the epoch, a point, and
/// the milliseconds in three digits.
pub open spec fn timestamp_text(millis: nat) -> Seq<char> {
    let fraction = millis % 1000;
    decimal(millis / 1000) + seq![
        '.',
        digit((fraction / 100) as int),
        digit((fraction % 100 / 10) as int),
        digit((fraction % 10) as int),
    ]
}

/// The timestamp that stands for a reading of the clock in milliseconds since
/// the epoch: the reading itself as far as 64 bits hold it, and the epoch
/// where the clock stood before the epoch.
pub open spec fn of_reading(reading: Option<u128>) -> nat {
    match reading {
        Some(ms) => if ms > u64::MAX {
            u64::MAX as nat
        } else {
            ms as nat
        },
        None => 0,
    }
}

impl Timestamp {
    pub closed spec fn spec_millis(&self) -> u64 {
        self.millis
    }

    /// The point in time so many milliseconds after the epoch.
    pub fn from_millis(millis: u64) -> (t: Timestamp)
        ensures
            t@ == millis,
    {
        Timestamp { millis }
    }

    /// The milliseconds since the epoch.
    pub fn as_millis(&self) -> (ms: u64)
        ensures
            ms == self@,
    {
        self.millis
    }

    /// The whole seconds since the epoch.
    pub fn seconds(&self) -> (s: u64)
        ensures
            s == self@ / 1000,
    {
        self.millis / 1000
    }

    /// The milliseconds past the whole second.
    pub fn subsec_millis(&self) -> (ms: u16)
        ensures
            ms == self@ % 1000,
    {
        (self.millis % 1000) as u16
    }

    /// The timestamp for a reading of the clock.
    pub fn from_reading(reading: Option<u128>) -> (t: Timestamp)
        ensures
            t@ == of_reading(reading),
    {
        match reading {
            Some(ms) => {
                if ms > 0xffff_ffff_ffff_ffff {
                    Timestamp { millis: 0xffff_ffff_ffff_ffff }
                } else {
                    Timestamp { millis: ms as u64 }
                }
            },
            None => Timestamp { millis: 0 },
        }
    }

    /// The current time by the system clock. The clock decides the value;
    /// `from_reading` says what each reading becomes.
    pub fn now() -> (t: Timestamp) {
        let clock = SystemTime::now();
        let reading = match since_unix_epoch(&clock) {
            Ok(passed) => Some(passed.as_millis()),
            Err(_) => None,
        };
        Timestamp::from_reading(reading)
    }

    /// Appends the timestamp as a JSON number.
    pub fn push_text(&self, out: &mut String)
        ensures
            final(out)@ == old(out)@ + timestamp_text(self@),
    {
        let fraction: u64 = self.millis % 1000;
        let hundreds: u8 = (fraction / 100) as u8;
        let tens: u8 = (fraction % 100 / 10) as u8;
        let ones: u8 = (fraction % 10) as u8;
        push_decimal(out, self.millis / 1000);
        let ghost whole = out@;
        out.push('.');
        out.push(digit_char(hundreds));
        out.push(digit_char(tens));
        out.push(digit_char(ones));
        assert(out@ =~= whole + seq!['.', digit(hundreds as int), digit(tens as int), digit(ones as int)]);
    }
}

} // verus!
