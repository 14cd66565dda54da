//! The duration field: how a span of time is stepped, shown and read.
//!
//! A span is held as whole seconds and nanoseconds. It is shown by magnitude:
//! below a minute as a number with a unit, from a minute on as a clock of
//! minutes and seconds, hours, or days. It is read from a number with a unit,
//! or from a clock of two to four fields.

pub mod text;

pub use text::{
    decimal_text, format_clock, is_number_char, read_clock, read_quantity, same_text,
    split_fields, trim, two_digit_text, ClockText, Quantity,
};

use vstd::prelude::*;

verus! {

/// Nanoseconds in a second.
pub const NANOS_PER_SECOND: u64 = 1_000_000_000;

/// Seconds in a minute.
pub const SECONDS_PER_MINUTE: u64 = 60;

/// Seconds in an hour.
pub const SECONDS_PER_HOUR: u64 = 3_600;

/// Seconds in a day.
pub const SECONDS_PER_DAY: u64 = 86_400;

/// A unit of time that a number can be given in.
#[derive(Debug, Clone, Copy, PartialEq, Eq, Structural)]
pub enum Unit {
    Nanoseconds,
    Microseconds,
    Milliseconds,
    Seconds,
    Minutes,
    Hours,
    Days,
}

impl Unit {
    /// The length of the unit in nanoseconds.
    pub open spec fn length(self) -> nat {
        match self {
            Unit::Nanoseconds => 1,
            Unit::Microseconds => 1_000,
            Unit::Milliseconds => 1_000_000,
            Unit::Seconds => 1_000_000_000,
            Unit::Minutes => 60_000_000_000,
            Unit::Hours => 3_600_000_000_000,
            Unit::Days => 86_400_000_000_000,
        }
    }

    /// The symbol that follows a number in this unit.
    pub open spec fn symbol_of(self) -> Seq<char> {
        match self {
            Unit::Nanoseconds => "ns"@,
            Unit::Microseconds => "µs"@,
            Unit::Milliseconds => "ms"@,
            Unit::Seconds => "s"@,
            Unit::Minutes => "min"@,
            Unit::Hours => "h"@,
            Unit::Days => "d"@,
        }
    }

    /// The symbol that follows a number in this unit.
    pub fn symbol(self) -> (symbol: &'static str)
        ensures
            symbol@ == self.symbol_of(),
    {
        match self {
            Unit::Nanoseconds => "ns",
            Unit::Microseconds => "µs",
            Unit::Milliseconds => "ms",
            Unit::Seconds => "s",
            Unit::Minutes => "min",
            Unit::Hours => "h",
            Unit::Days => "d",
        }
    }

    /// The length of the unit in nanoseconds.
    pub fn nanos(self) -> (nanos: u64)
        ensures
            nanos == self.length(),
    {
        match self {
            Unit::Nanoseconds => 1,
            Unit::Microseconds => 1_000,
            Unit::Milliseconds => 1_000_000,
            Unit::Seconds => NANOS_PER_SECOND,
            Unit::Minutes => 60_000_000_000,
            Unit::Hours => 3_600_000_000_000,
            Unit::Days => 86_400_000_000_000,
        }
    }
}

/// The magnitude of a span, which decides how it is stepped and shown.
#[derive(Debug, Clone, Copy, PartialEq, Eq, Structural)]
pub enum Magnitude {
    /// Less than a minute.
    Seconds,
    /// A minute or more, less than an hour.
    Minutes,
    /// An hour or more, less than a day.
    Hours,
    /// A day or more.
    Days,
}

/// The magnitude of a span of `secs` whole seconds.
pub open spec fn magnitude_of(secs: nat) -> Magnitude {
    if secs < 60 {
        Magnitude::Seconds
    } else if secs < 3_600 {
        Magnitude::Minutes
    } else if secs < 86_400 {
        Magnitude::Hours
    } else {
        Magnitude::Days
    }
}

/// The magnitude of a span of `secs` whole seconds.
pub fn magnitude(secs: u64) -> (magnitude: Magnitude)
    ensures
        magnitude == magnitude_of(secs as nat),
{
    if secs < SECONDS_PER_MINUTE {
        Magnitude::Seconds
    } else if secs < SECONDS_PER_HOUR {
        Magnitude::Minutes
    } else if secs < SECONDS_PER_DAY {
        Magnitude::Hours
    } else {
        Magnitude::Days
    }
}

/// The greatest power of ten that is not above `n`; one for zero.
pub open spec fn decade(n: nat) -> nat
    decreases n,
{
    if n < 10 {
        1
    } else {
        10 * decade(n / 10)
    }
}

/// A decade is not above its number, and ten times the decade is.
pub proof fn lemma_decade_brackets(n: nat)
    requires
        n > 0,
    ensures
        decade(n) <= n < 10 * decade(n),
    decreases n,
{
    if n >= 10 {
        lemma_decade_brackets(n / 10);
    }
}

/// The drag step of a span, in nanoseconds: below a minute the decade of the
/// span, and a whole second for the empty span; then a minute, an hour, a day,
/// by magnitude.
pub open spec fn step_of(secs: nat, subsec_nanos: nat) -> nat {
    match magnitude_of(secs) {
        Magnitude::Seconds => {
            let total = secs * 1_000_000_000 + subsec_nanos;
            if total == 0 {
                1_000_000_000
            } else {
                decade(total)
            }
        },
        Magnitude::Minutes => Unit::Minutes.length(),
        Magnitude::Hours => Unit::Hours.length(),
        Magnitude::Days => Unit::Days.length(),
    }
}

/// The drag step of a span of `secs` seconds and `subsec_nanos` nanoseconds,
/// in nanoseconds.
pub fn step(secs: u64, subsec_nanos: u32) -> (step: u64)
    ensures
        step == step_of(secs as nat, subsec_nanos as nat),
{
    match magnitude(secs) {
        Magnitude::Seconds => {
            let total: u64 = secs * NANOS_PER_SECOND + subsec_nanos as u64;
            if total == 0 {
                NANOS_PER_SECOND
            } else {
                let mut rest: u64 = total;
                let mut step: u64 = 1;
                while rest >= 10
                    invariant
                        0 < rest <= total,
                        total < 100_000_000_000,
                        step * decade(rest as nat) == decade(total as nat),
                        step * rest <= total,
                    decreases rest,
                {
                    proof {
                        lemma_decade_brackets((rest / 10) as nat);
                        assert(step * (10 * decade((rest / 10) as nat)) == (step * 10) * decade(
                            (rest / 10) as nat,
                        )) by (nonlinear_arith);
                        assert(step * 10 <= step * rest) by (nonlinear_arith)
                            requires
                                rest >= 10,
                                step >= 0,
                        ;
                        assert((step * 10) * (rest / 10) <= step * rest) by (nonlinear_arith)
                            requires
                                10 * (rest / 10) <= rest,
                                step >= 0,
                        ;
                    }
                    rest = rest / 10;
                    step = step * 10;
                }
                assert(decade(rest as nat) == 1);
                assert(step * 1 == step) by (nonlinear_arith);
                step
            }
        },
        Magnitude::Minutes => Unit::Minutes.nanos(),
        Magnitude::Hours => Unit::Hours.nanos(),
        Magnitude::Days => Unit::Days.nanos(),
    }
}

/// The unit in which a span is shown as a number: the greatest of
/// nanoseconds, microseconds, milliseconds and seconds that is not above the
/// span, and seconds for the empty span.
pub open spec fn display_unit_of(secs: nat, subsec_nanos: nat) -> Unit {
    let total = secs * 1_000_000_000 + subsec_nanos;
    if total == 0 {
        Unit::Seconds
    } else if total < 1_000 {
        Unit::Nanoseconds
    } else if total < 1_000_000 {
        Unit::Microseconds
    } else if total < 1_000_000_000 {
        Unit::Milliseconds
    } else {
        Unit::Seconds
    }
}

/// The unit in which a span is shown as a number: the greatest of
/// nanoseconds, microseconds, milliseconds and seconds that is not above the
/// span, and seconds for the empty span.
pub fn display_unit(secs: u64, subsec_nanos: u32) -> (unit: Unit)
    ensures
        unit == display_unit_of(secs as nat, subsec_nanos as nat),
{
    if secs > 0 || subsec_nanos == 0 || subsec_nanos as u64 >= NANOS_PER_SECOND {
        Unit::Seconds
    } else if subsec_nanos < 1_000 {
        Unit::Nanoseconds
    } else if subsec_nanos < 1_000_000 {
        Unit::Microseconds
    } else {
        Unit::Milliseconds
    }
}

/// A span of whole seconds as a clock reads it.
#[derive(Debug, Clone, Copy, PartialEq, Eq, Structural)]
pub struct Clock {
    /// Whole days.
    pub days: u64,
    /// Hours of the day, below 24.
    pub hours: u64,
    /// Minutes of the hour, below 60.
    pub minutes: u64,
    /// Seconds of the minute, below 60.
    pub seconds: u64,
}

impl Clock {
    /// The seconds that the clock stands for: its fields, weighted by the
    /// length of a day, an hour and a minute.
    pub open spec fn total(self) -> nat {
        (self.days * 86_400 + self.hours * 3_600 + self.minutes * 60 + self.seconds) as nat
    }

    /// The clock of `secs` seconds.
    pub open spec fn of(secs: nat) -> Clock {
        Clock {
            days: (secs / 86_400) as u64,
            hours: ((secs % 86_400) / 3_600) as u64,
            minutes: ((secs % 3_600) / 60) as u64,
            seconds: (secs % 60) as u64,
        }
    }
}

/// Breaks a span of whole seconds into days, hours, minutes and seconds.
pub fn clock(secs: u64) -> (clock: Clock)
    ensures
        clock == Clock::of(secs as nat),
        clock.hours < 24,
        clock.minutes < 60,
        clock.seconds < 60,
        clock.total() == secs,
{
    proof {
        lemma_clock_round_trip(secs as nat);
    }
    Clock {
        days: secs / SECONDS_PER_DAY,
        hours: (secs % SECONDS_PER_DAY) / SECONDS_PER_HOUR,
        minutes: (secs % SECONDS_PER_HOUR) / SECONDS_PER_MINUTE,
        seconds: secs % SECONDS_PER_MINUTE,
    }
}

/// Reading a clock gives back the seconds it was made of: summing the fields
/// with the weights of a day, an hour and a minute undoes the breaking up.
/// Hours stay below a day, minutes below an hour, seconds below a minute, and
/// a span below a day, or below an hour, has no days, or no hours.
pub proof fn lemma_clock_round_trip(secs: nat)
    requires
        secs <= u64::MAX,
    ensures
        Clock::of(secs).total() == secs,
        Clock::of(secs).days == secs / 86_400,
        Clock::of(secs).hours < 24,
        Clock::of(secs).minutes < 60,
        Clock::of(secs).seconds < 60,
        magnitude_of(secs) != Magnitude::Days ==> Clock::of(secs).days == 0,
        magnitude_of(secs) != Magnitude::Days && magnitude_of(secs) != Magnitude::Hours
            ==> Clock::of(secs).hours == 0,
{
    let total = secs as int;
    let days = total / 86_400;
    let in_day = total % 86_400;
    let hours = in_day / 3_600;
    let in_hour = total % 3_600;
    let minutes = in_hour / 60;
    let seconds = total % 60;
    assert(total == 86_400 * days + in_day) by {
        vstd::arithmetic::div_mod::lemma_fundamental_div_mod(total, 86_400);
    }
    assert(in_day == 3_600 * hours + in_day % 3_600) by {
        vstd::arithmetic::div_mod::lemma_fundamental_div_mod(in_day, 3_600);
    }
    assert(in_day % 3_600 == in_hour) by {
        vstd::arithmetic::div_mod::lemma_mod_mod(total, 3_600, 24);
    }
    assert(in_hour == 60 * minutes + in_hour % 60) by {
        vstd::arithmetic::div_mod::lemma_fundamental_div_mod(in_hour, 60);
    }
    assert(in_hour % 60 == seconds) by {
        vstd::arithmetic::div_mod::lemma_mod_mod(total, 60, 60);
    }
    assert(0 <= in_day < 86_400 && 0 <= in_hour < 3_600 && 0 <= seconds < 60);
    assert(0 <= hours < 24);
    assert(0 <= minutes < 60);
    assert(0 <= days <= total);
    assert(total == 86_400 * days + 3_600 * hours + 60 * minutes + seconds);
    let clock = Clock::of(secs);
    assert(clock.days == days);
    assert(clock.hours == hours);
    assert(clock.minutes == minutes);
    assert(clock.seconds == seconds);
}

} // verus!
