//! Validated scalar values of the device: percentages, facets, blink
//! intervals, colours and facet tasks.

use vstd::prelude::*;

verus! {

/// Error constructing a [Percent] object.
#[derive(Debug, Clone, Copy, PartialEq, Eq)]
pub enum PercentError {
    /// The value lies above 100.
    OutOfRange(usize),
}

/// Representation of a value in percent.
#[derive(Debug, Clone, Copy, PartialEq, Eq)]
pub struct Percent(u8);

impl Percent {
    #[verifier::type_invariant]
    spec fn in_range(self) -> bool {
        self.0 <= 100
    }

    /// The percentage with the given value, meaningful for 0 to 100.
    pub closed spec fn of(value: int) -> Percent {
        Percent(value as u8)
    }

    /// The value of the percentage.
    pub closed spec fn value(self) -> int {
        self.0 as int
    }

    /// What [Percent::new] returns.
    pub open spec fn checked(percent: usize) -> Result<Percent, PercentError> {
        if percent <= 100 {
            Ok(Percent::of(percent as int))
        } else {
            Err(PercentError::OutOfRange(percent))
        }
    }

    /// Construct a [Percent] object; values above 100 are rejected.
    pub fn new(percent: usize) -> (r: Result<Percent, PercentError>)
        ensures
            r == Percent::checked(percent),
    {
        if percent <= 100 {
            Ok(Percent(percent as u8))
        } else {
            Err(PercentError::OutOfRange(percent))
        }
    }

    /// Get the value as integer.
    pub fn get(&self) -> (r: u8)
        ensures
            r == self.value(),
            r <= 100,
    {
        proof {
            use_type_invariant(self);
        }
        self.0
    }

    /// Constructing a percentage succeeds for 0 to 100 and fails for
    /// anything above; what was constructed reads back as the value given.
    pub proof fn lemma_new_reads_back(percent: usize)
        ensures
            percent <= 100 ==> Percent::checked(percent) is Ok && Percent::checked(
                percent,
            )->Ok_0.value() == percent,
            percent > 100 ==> Percent::checked(percent) == Err::<Percent, PercentError>(
                PercentError::OutOfRange(percent),
            ),
    {
    }

    /// A percentage built from a value reads back as that value.
    pub proof fn lemma_value_of(value: int)
        requires
            0 <= value <= 100,
        ensures
            Percent::of(value).value() == value,
    {
    }

    /// A percentage is determined by its value.
    pub proof fn lemma_of_value(self)
        ensures
            Percent::of(self.value()) == self,
            0 <= self.value() <= 255,
    {
    }
}

/// A type representing minutes.
#[derive(Debug, Clone, Copy, PartialEq, Eq)]
pub struct Minutes(pub u16);

/// Representation of the color of the LED.
#[derive(Debug, Clone, Copy, PartialEq, Eq)]
pub struct Color {
    pub red: u16,
    pub green: u16,
    pub blue: u16,
}

impl Color {
    /// Construct the color from its RGB value.
    pub fn from_rgb(red: u16, green: u16, blue: u16) -> (r: Color)
        ensures
            r == (Color { red, green, blue }),
    {
        Color { red, green, blue }
    }

    /// Get the color's RGB value.
    pub fn rgb(&self) -> (r: (u16, u16, u16))
        ensures
            r == (self.red, self.green, self.blue),
    {
        (self.red, self.green, self.blue)
    }

    /// Black, the color of a side that was given none.
    pub open spec fn black() -> Color {
        Color { red: 0, green: 0, blue: 0 }
    }
}

impl Default for Color {
    fn default() -> (r: Color)
        ensures
            r == Color::black(),
    {
        Color { red: 0, green: 0, blue: 0 }
    }
}

/// Error while constructing a [Facet].
#[derive(Debug, Clone, Copy, PartialEq, Eq)]
pub enum FacetError {
    /// The index lies outside 1 to 12.
    InvalidIndex(usize),
}

/// The side of a TimeFlip2.
#[derive(Debug, Clone, Copy, PartialEq, Eq, PartialOrd, Ord)]
pub struct Facet(u8);

impl Facet {
    #[verifier::type_invariant]
    spec fn in_range(self) -> bool {
        1 <= self.0 <= 12
    }

    /// The facet with the given one-based index, meaningful for 1 to 12.
    pub closed spec fn at(index: int) -> Facet {
        Facet(index as u8)
    }

    /// The one-based index of the facet.
    pub closed spec fn value(self) -> int {
        self.0 as int
    }

    /// What [Facet::new] returns.
    pub open spec fn checked(index: usize) -> Result<Facet, FacetError> {
        if 1 <= index <= 12 {
            Ok(Facet::at(index as int))
        } else {
            Err(FacetError::InvalidIndex(index))
        }
    }

    /// Construct a [Facet].
    ///
    /// The facets are indexed from 1 to 12, inclusive; any other index is
    /// rejected.
    pub fn new(index: usize) -> (r: Result<Facet, FacetError>)
        ensures
            r == Facet::checked(index),
    {
        if 1 <= index && index <= 12 {
            Ok(Facet(index as u8))
        } else {
            Err(FacetError::InvalidIndex(index))
        }
    }

    /// Get the index of the facet.
    ///
    /// Please note that TimeFlip uses one-based indices.
    pub fn index(&self) -> (r: u8)
        ensures
            r == self.value(),
            1 <= r <= 12,
    {
        proof {
            use_type_invariant(self);
        }
        self.0
    }

    /// Get the zero based index of a facet.
    pub fn index_zero(&self) -> (r: usize)
        ensures
            r == self.value() - 1,
            r < 12,
    {
        proof {
            use_type_invariant(self);
        }
        (self.0 - 1) as usize
    }

    /// Constructing a facet succeeds for the indices 1 to 12 and fails for
    /// any other; what was constructed reads back as the index given.
    pub proof fn lemma_new_reads_back(index: usize)
        ensures
            1 <= index <= 12 ==> Facet::checked(index) is Ok && Facet::checked(
                index,
            )->Ok_0.value() == index,
            index < 1 || index > 12 ==> Facet::checked(index) == Err::<Facet, FacetError>(
                FacetError::InvalidIndex(index),
            ),
    {
    }

    /// A facet built from an index reads back as that index.
    pub proof fn lemma_value_at(index: int)
        requires
            0 <= index <= 255,
        ensures
            Facet::at(index).value() == index,
    {
    }

    /// A facet is determined by its index.
    pub proof fn lemma_at_value(self)
        ensures
            Facet::at(self.value()) == self,
            0 <= self.value() <= 255,
    {
    }
}

/// Task assigned to a facet.
#[derive(Debug, Clone, Copy, PartialEq, Eq)]
pub enum FacetTask {
    /// Simple counting up timer.
    Simple,
    /// Pomodoro timer with limit in seconds.
    Pomodoro(u32),
}

/// Error constructing a [BlinkInterval] object.
#[derive(Debug, Clone, Copy, PartialEq, Eq)]
pub enum BlinkIntervalError {
    /// The value lies outside 5 to 60.
    OutOfRange(usize),
}

/// Interval in seconds in which the LED of the TimeFlip2 will blink when active.
#[derive(Debug, Clone, Copy, PartialEq, Eq)]
pub struct BlinkInterval(u8);

impl BlinkInterval {
    #[verifier::type_invariant]
    spec fn in_range(self) -> bool {
        5 <= self.0 <= 60
    }

    /// The interval of the given number of seconds, meaningful for 5 to 60.
    pub closed spec fn of(seconds: int) -> BlinkInterval {
        BlinkInterval(seconds as u8)
    }

    /// The interval in seconds.
    pub closed spec fn value(self) -> int {
        self.0 as int
    }

    /// What [BlinkInterval::new] returns.
    pub open spec fn checked(seconds: usize) -> Result<BlinkInterval, BlinkIntervalError> {
        if 5 <= seconds <= 60 {
            Ok(BlinkInterval::of(seconds as int))
        } else {
            Err(BlinkIntervalError::OutOfRange(seconds))
        }
    }

    /// Construct a new [BlinkInterval] object.
    ///
    /// The interval value is given as seconds in range 5 to 60, inclusive.
    pub fn new(seconds: usize) -> (r: Result<BlinkInterval, BlinkIntervalError>)
        ensures
            r == BlinkInterval::checked(seconds),
    {
        if 5 <= seconds && seconds <= 60 {
            Ok(BlinkInterval(seconds as u8))
        } else {
            Err(BlinkIntervalError::OutOfRange(seconds))
        }
    }

    /// Get the blink interval in seconds.
    pub fn seconds(&self) -> (r: u8)
        ensures
            r == self.value(),
            5 <= r <= 60,
    {
        proof {
            use_type_invariant(self);
        }
        self.0
    }

    /// Constructing an interval succeeds for 5 to 60 seconds and fails for
    /// anything else; what was constructed reads back as the seconds given.
    pub proof fn lemma_new_reads_back(seconds: usize)
        ensures
            5 <= seconds <= 60 ==> BlinkInterval::checked(seconds) is Ok && BlinkInterval::checked(
                seconds,
            )->Ok_0.value() == seconds,
            seconds < 5 || seconds > 60 ==> BlinkInterval::checked(seconds) == Err::<
                BlinkInterval,
                BlinkIntervalError,
            >(BlinkIntervalError::OutOfRange(seconds)),
    {
    }

    /// An interval built from a number of seconds reads back as that number.
    pub proof fn lemma_value_of(seconds: int)
        requires
            0 <= seconds <= 255,
        ensures
            BlinkInterval::of(seconds).value() == seconds,
    {
    }

    /// An interval is determined by its number of seconds.
    pub proof fn lemma_of_value(self)
        ensures
            BlinkInterval::of(self.value()) == self,
            0 <= self.value() <= 255,
    {
    }
}

} // verus!
