//! Points in time as the device counts them: whole seconds since the UNIX
//! epoch, in UTC.

use vstd::prelude::*;

verus! {

/// Whether the calendar of the `chrono` crate has a UTC date and time that
/// lies `secs` seconds after the UNIX epoch.
pub uninterp spec fn representable_instant(secs: i64) -> bool;

/// A date and time of the `chrono` crate, without a time zone.
#[verifier::external_type_specification]
#[verifier::external_body]
pub struct ExNaiveDateTime(chrono::NaiveDateTime);

/// `chrono::NaiveDateTime::from_timestamp_opt` with no nanoseconds: the date
/// and time that lies the given number of seconds after the UNIX epoch, or
/// nothing where the calendar does not reach it. Whether it does depends on
/// the number alone and is given a name, not stated.
#[verifier::external_body]
#[allow(deprecated)]
pub(crate) fn instant(secs: i64) -> (r: Option<chrono::NaiveDateTime>)
    ensures
        r.is_some() == representable_instant(secs),
{
    chrono::NaiveDateTime::from_timestamp_opt(secs, 0)
}

/// Whether the calendar reaches a raw 64-bit device timestamp.
pub fn raw_time_is_representable(raw: u64) -> (r: bool)
    ensures
        r == raw_time_representable(raw),
{
    raw <= i64::MAX as u64 && instant(raw as i64).is_some()
}

/// Whether a raw 64-bit device timestamp denotes an instant: it fits the
/// signed seconds of the platform and the calendar reaches it.
pub open spec fn raw_time_representable(raw: u64) -> bool {
    raw <= i64::MAX as u64 && representable_instant(raw as i64)
}

/// A point in time, in seconds since the UNIX epoch (UTC).
#[derive(Debug, Clone, Copy, PartialEq, Eq, PartialOrd, Ord, Hash)]
pub struct Timestamp(pub i64);

impl Timestamp {
    /// What lifting a raw device timestamp gives, once it is known whether
    /// the calendar reaches it.
    pub open spec fn lifted(raw: u64, representable: bool) -> Option<Timestamp> {
        if raw <= i64::MAX as u64 && representable {
            Some(Timestamp(raw as i64))
        } else {
            None
        }
    }

    /// Lift a raw device timestamp, given whether the calendar reaches it.
    pub fn lift(raw: u64, representable: bool) -> (r: Option<Timestamp>)
        ensures
            r == Timestamp::lifted(raw, representable),
    {
        if raw <= i64::MAX as u64 && representable {
            Some(Timestamp(raw as i64))
        } else {
            None
        }
    }

    /// Lift a raw device timestamp. It is rejected where it does not fit the
    /// signed seconds of the platform or the calendar does not reach it.
    pub fn from_raw(raw: u64) -> (r: Option<Timestamp>)
        ensures
            r == Timestamp::lifted(raw, raw_time_representable(raw)),
    {
        Timestamp::lift(raw, raw_time_is_representable(raw))
    }

    /// The seconds since the UNIX epoch.
    pub fn secs(&self) -> (r: i64)
        ensures
            r == self.0,
    {
        self.0
    }
}

} // verus!
