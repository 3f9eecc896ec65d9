//! Results of commands, decoded from what the command result characteristic
//! holds after a command has run.

use crate::time::{raw_time_is_representable, raw_time_representable, Timestamp};
use crate::types::{Facet, FacetError, FacetTask, Minutes};
use crate::timeflip::command::Command;
use crate::types::Percent;
use crate::wire::{
    be16_at, be32, be32_at, be64_at, get_u16, get_u32, get_u64, get_u8, lemma_be16_round_trip,
    lemma_be32_round_trip, lemma_be64_round_trip,
};
use std::convert::Infallible;
use vstd::prelude::*;

verus! {

/// Trait for the output of a command read via the command result
/// characteristic.
pub trait CommandResult {
    /// What a successful decoding gives.
    type Output;

    /// How a decoding fails.
    type Error;

    /// What the bytes decode to.
    spec fn decoded(data: Seq<u8>) -> Result<Self::Output, Self::Error>;

    /// Construct an object from the data read from the command result
    /// characteristic.
    fn from_data(data: &[u8]) -> (r: Result<Self::Output, Self::Error>)
        ensures
            r == Self::decoded(data@),
    ;
}

impl CommandResult for () {
    type Output = ();

    type Error = Infallible;

    /// A command without output decodes from any bytes.
    open spec fn decoded(data: Seq<u8>) -> Result<(), Infallible> {
        Ok(())
    }

    fn from_data(data: &[u8]) -> (r: Result<(), Infallible>) {
        Ok(())
    }
}

/// Error for converting the command result to a [Timestamp].
#[derive(Debug, Clone, Copy, PartialEq, Eq)]
pub enum GetTimeError {
    /// Fewer than 9 bytes were read; holds their number.
    TooShort(usize),
    /// The result belongs to another command; holds its id.
    InvalidCommand(u8),
    /// The timestamp does not fit the signed seconds of the platform.
    TimestampTooBig(u64),
    /// The calendar does not reach the timestamp.
    Timestamp(u64),
}

/// What a time result decodes to, once it is known whether the calendar
/// reaches the timestamp that it holds.
pub open spec fn time_decoded(data: Seq<u8>, representable: bool) -> Result<
    Timestamp,
    GetTimeError,
> {
    if data.len() < 9 {
        Err(GetTimeError::TooShort(data.len() as usize))
    } else if data[0] != 0x07 {
        Err(GetTimeError::InvalidCommand(data[0]))
    } else if be64_at(data, 1) > i64::MAX {
        Err(GetTimeError::TimestampTooBig(be64_at(data, 1) as u64))
    } else if !representable {
        Err(GetTimeError::Timestamp(be64_at(data, 1) as u64))
    } else {
        Ok(Timestamp(be64_at(data, 1) as i64))
    }
}

/// Whether the calendar reaches the timestamp that a time result holds.
pub open spec fn result_time_representable(data: Seq<u8>) -> bool {
    data.len() >= 9 && raw_time_representable(be64_at(data, 1) as u64)
}

/// Decode a time result, given whether the calendar reaches the timestamp
/// that it holds.
pub fn decode_time(data: &[u8], representable: bool) -> (r: Result<Timestamp, GetTimeError>)
    ensures
        r == time_decoded(data@, representable),
{
    if data.len() < 9 {
        return Err(GetTimeError::TooShort(data.len()));
    }
    let cmd: u8 = get_u8(data, 0);
    if cmd != 0x07 {
        return Err(GetTimeError::InvalidCommand(cmd));
    }
    let timestamp: u64 = get_u64(data, 1);
    if timestamp > i64::MAX as u64 {
        return Err(GetTimeError::TimestampTooBig(timestamp));
    }
    match Timestamp::lift(timestamp, representable) {
        Some(time) => Ok(time),
        None => Err(GetTimeError::Timestamp(timestamp)),
    }
}

impl CommandResult for Timestamp {
    type Output = Timestamp;

    type Error = GetTimeError;

    open spec fn decoded(data: Seq<u8>) -> Result<Timestamp, GetTimeError> {
        time_decoded(data, result_time_representable(data))
    }

    fn from_data(data: &[u8]) -> (r: Result<Timestamp, GetTimeError>) {
        let representable = data.len() >= 9 && raw_time_is_representable(get_u64(data, 1));
        decode_time(data, representable)
    }
}

/// Error for converting the command result to a [SystemStatus].
#[derive(Debug, Clone, Copy, PartialEq, Eq)]
pub enum SystemStatusError {
    /// Fewer than 4 bytes were read; holds their number.
    TooShort(usize),
    /// The lock mode byte is neither 1 nor 2.
    InvalidLockMode(u8),
    /// The pause mode byte is neither 1 nor 2.
    InvalidPauseMode(u8),
}

/// The system status of TimeFlip2.
#[derive(Debug, Clone, Copy, PartialEq, Eq)]
pub struct SystemStatus {
    /// Whether the TimeFlip2 is in lock mode.
    pub lock_mode: bool,
    /// Whether the TimeFlip2 is in pause mode.
    pub pause_mode: bool,
    /// Time in minutes after which time tracking is paused automatically.
    pub auto_pause_time: Minutes,
}

impl CommandResult for SystemStatus {
    type Output = SystemStatus;

    type Error = SystemStatusError;

    open spec fn decoded(data: Seq<u8>) -> Result<SystemStatus, SystemStatusError> {
        if data.len() < 4 {
            Err(SystemStatusError::TooShort(data.len() as usize))
        } else if data[0] != 1 && data[0] != 2 {
            Err(SystemStatusError::InvalidLockMode(data[0]))
        } else if data[1] != 1 && data[1] != 2 {
            Err(SystemStatusError::InvalidPauseMode(data[1]))
        } else {
            Ok(
                SystemStatus {
                    lock_mode: data[0] == 1,
                    pause_mode: data[1] == 1,
                    auto_pause_time: Minutes(be16_at(data, 2) as u16),
                },
            )
        }
    }

    fn from_data(data: &[u8]) -> (r: Result<SystemStatus, SystemStatusError>) {
        if data.len() < 4 {
            return Err(SystemStatusError::TooShort(data.len()));
        }
        let lock_mode: u8 = get_u8(data, 0);
        let pause_mode: u8 = get_u8(data, 1);
        let auto_pause_time_minutes: u16 = get_u16(data, 2);
        let lock_mode = match lock_mode {
            1 => true,
            2 => false,
            v => return Err(SystemStatusError::InvalidLockMode(v)),
        };
        let pause_mode = match pause_mode {
            1 => true,
            2 => false,
            v => return Err(SystemStatusError::InvalidPauseMode(v)),
        };
        Ok(SystemStatus { lock_mode, pause_mode, auto_pause_time: Minutes(auto_pause_time_minutes) })
    }
}

/// Error for converting the command result to [FacetSettings].
#[derive(Debug, Clone, Copy, PartialEq, Eq)]
pub enum FacetSettingsError {
    /// Fewer than 11 bytes were read; holds their number.
    TooShort(usize),
    /// The result belongs to another command; holds its id.
    InvalidCommand(u8),
    /// The task byte is neither 0 nor 1.
    InvalidTask(u8),
    /// The facet byte names no facet.
    InvalidFacet(FacetError),
}

/// Settings of a facet of the TimeFlip2.
#[derive(Debug, Clone, Copy, PartialEq, Eq)]
pub struct FacetSettings {
    /// The facet.
    pub facet: Facet,
    /// The assigned task.
    pub task: FacetTask,
    /// The number of seconds from the moment the timer was started.
    pub seconds_since_start: u32,
}

impl CommandResult for FacetSettings {
    type Output = FacetSettings;

    type Error = FacetSettingsError;

    open spec fn decoded(data: Seq<u8>) -> Result<FacetSettings, FacetSettingsError> {
        if data.len() < 11 {
            Err(FacetSettingsError::TooShort(data.len() as usize))
        } else if data[0] != 0x14 {
            Err(FacetSettingsError::InvalidCommand(data[0]))
        } else {
            match Facet::checked(data[1] as usize) {
                Err(e) => Err(FacetSettingsError::InvalidFacet(e)),
                Ok(facet) => if data[2] == 0 {
                    Ok(
                        FacetSettings {
                            facet,
                            task: FacetTask::Simple,
                            seconds_since_start: be32_at(data, 7) as u32,
                        },
                    )
                } else if data[2] == 1 {
                    Ok(
                        FacetSettings {
                            facet,
                            task: FacetTask::Pomodoro(be32_at(data, 3) as u32),
                            seconds_since_start: be32_at(data, 7) as u32,
                        },
                    )
                } else {
                    Err(FacetSettingsError::InvalidTask(data[2]))
                },
            }
        }
    }

    /// Construct [FacetSettings] from the data read from the command result
    /// characteristic.
    fn from_data(data: &[u8]) -> (r: Result<FacetSettings, FacetSettingsError>) {
        if data.len() < 11 {
            return Err(FacetSettingsError::TooShort(data.len()));
        }
        let cmd: u8 = get_u8(data, 0);
        let facet: u8 = get_u8(data, 1);
        let task: u8 = get_u8(data, 2);
        let timer_seconds: u32 = get_u32(data, 3);
        let seconds_since_start: u32 = get_u32(data, 7);

        if cmd != 0x14 {
            return Err(FacetSettingsError::InvalidCommand(cmd));
        }
        let facet = match Facet::new(facet as usize) {
            Ok(facet) => facet,
            Err(e) => return Err(FacetSettingsError::InvalidFacet(e)),
        };
        let task = match task {
            0 => FacetTask::Simple,
            1 => FacetTask::Pomodoro(timer_seconds),
            _ => return Err(FacetSettingsError::InvalidTask(task)),
        };
        Ok(FacetSettings { facet, task, seconds_since_start })
    }
}

/// The time that a command sets is the time that a time result with the
/// same bytes decodes to, where the calendar reaches it.
pub proof fn lemma_time_round_trip(time: Timestamp, rest: Seq<u8>)
    requires
        time.0 >= 0,
    ensures
        time_decoded(seq![0x07u8] + Command::Time(time).payload() + rest, true) == Ok::<
            Timestamp,
            GetTimeError,
        >(time),
{
    lemma_be64_round_trip(time.0 as u64, seq![0x07u8], rest);
}

/// The switches and the minutes that commands set are those that a system
/// status with the same bytes decodes to.
pub proof fn lemma_status_round_trip(lock: bool, pause: bool, minutes: Minutes, rest: Seq<u8>)
    ensures
        SystemStatus::decoded(
            Command::LockMode(lock).payload() + Command::PauseMode(pause).payload()
                + Command::AutoPauseTime(minutes).payload() + rest,
        ) == Ok::<SystemStatus, SystemStatusError>(
            SystemStatus { lock_mode: lock, pause_mode: pause, auto_pause_time: minutes },
        ),
{
    let head = Command::LockMode(lock).payload() + Command::PauseMode(pause).payload();
    lemma_be16_round_trip(minutes.0, head, rest);
    let data = head + Command::AutoPauseTime(minutes).payload() + rest;
    assert(data[0] == Command::LockMode(lock).payload()[0]);
    assert(data[1] == Command::PauseMode(pause).payload()[0]);
}

/// The facet and the task that a command sets are those that facet
/// settings with the same bytes decode to.
pub proof fn lemma_task_round_trip(facet: Facet, task: FacetTask, seconds: u32, rest: Seq<u8>)
    requires
        1 <= facet.value() <= 12,
    ensures
        FacetSettings::decoded(
            seq![0x14u8] + Command::SetTaskParameter(facet, task).payload() + be32(seconds) + rest,
        ) == Ok::<FacetSettings, FacetSettingsError>(
            FacetSettings { facet, task, seconds_since_start: seconds },
        ),
{
    let timer: u32 = match task {
        FacetTask::Simple => 0,
        FacetTask::Pomodoro(timer) => timer,
    };
    let kind: u8 = match task {
        FacetTask::Simple => 0,
        FacetTask::Pomodoro(_) => 1,
    };
    let head = seq![0x14u8, facet.value() as u8, kind];
    let data = seq![0x14u8] + Command::SetTaskParameter(facet, task).payload() + be32(seconds)
        + rest;
    assert(data =~= head + be32(timer) + (be32(seconds) + rest));
    lemma_be32_round_trip(timer, head, be32(seconds) + rest);
    assert(data =~= (head + be32(timer)) + be32(seconds) + rest);
    lemma_be32_round_trip(seconds, head + be32(timer), rest);
    assert(data[0] == 0x14);
    assert(data[1] == facet.value() as u8);
    assert(data[2] == kind);
    facet.lemma_at_value();
}

/// The byte that a brightness command carries is a percentage, and the
/// one that was set.
pub proof fn lemma_brightness_round_trip(value: Percent)
    requires
        value.value() <= 100,
    ensures
        Command::Brightness(value).payload().len() == 1,
        Percent::checked(Command::Brightness(value).payload()[0] as usize) == Ok::<
            Percent,
            crate::types::PercentError,
        >(value),
{
    value.lemma_of_value();
}

} // verus!
