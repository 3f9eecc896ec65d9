//! Commands written to the command characteristic, and the bytes they are
//! written as.

use crate::time::Timestamp;
use crate::types::{BlinkInterval, Facet, FacetTask, Minutes, Percent};
use crate::wire::{be16, be32, be64, put_u16, put_u32, put_u64, put_u8};
use vstd::prelude::*;

verus! {

/// A command sent to the TimeFlip's command characteristic.
#[derive(Debug, Clone, Copy, PartialEq, Eq)]
pub enum Command {
    /// Set TimeFlip2's lock mode.
    ///
    /// In this mode the dice “freezes” to count time on the last active facet
    /// and blocks the device from switching facets when it is flipped.
    LockMode(bool),
    /// Set auto-pause time in minutes. 0 disables auto-pause.
    AutoPauseTime(Minutes),
    /// Set TimeFlip2's pause mode.
    PauseMode(bool),
    /// Get current time saved on TimeFlip2.
    GetTime,
    /// Set the time (in UTC) saved on TimeFlip2.
    Time(Timestamp),
    /// Set the LED brightness level in percent.
    Brightness(Percent),
    /// Set the LED blink interval in seconds (range 5-60).
    BlinkInterval(BlinkInterval),
    /// Read TimeFlip2's system status.
    ReadStatus,
    /// Set the color of a facet.
    SetColor { facet: Facet, red: u16, green: u16, blue: u16 },
    /// Set the task parameters of a facet.
    SetTaskParameter(Facet, FacetTask),
    /// Get the task parameter of a facet.
    GetTaskParameter(Facet),
}

/// The byte that stands for a switch on the wire: 1 for on, 2 for off.
pub open spec fn switch_byte(on: bool) -> u8 {
    if on {
        0x01
    } else {
        0x02
    }
}

/// The task kind byte and the timer that follow the facet in a task
/// parameter command. Both are there whatever the kind is.
pub open spec fn task_encoding(task: FacetTask) -> Seq<u8> {
    match task {
        FacetTask::Simple => seq![0u8] + be32(0),
        FacetTask::Pomodoro(timer) => seq![1u8] + be32(timer),
    }
}

impl Command {
    /// The command's id.
    pub open spec fn id_spec(self) -> u8 {
        match self {
            Command::LockMode(_) => 0x04,
            Command::AutoPauseTime(_) => 0x05,
            Command::PauseMode(_) => 0x06,
            Command::GetTime => 0x07,
            Command::Time(_) => 0x08,
            Command::Brightness(_) => 0x09,
            Command::BlinkInterval(_) => 0x0A,
            Command::ReadStatus => 0x10,
            Command::SetColor { .. } => 0x11,
            Command::SetTaskParameter(_, _) => 0x13,
            Command::GetTaskParameter(_) => 0x14,
        }
    }

    /// What follows the id on the wire.
    pub open spec fn payload(self) -> Seq<u8> {
        match self {
            Command::LockMode(on) => seq![switch_byte(on)],
            Command::PauseMode(on) => seq![switch_byte(on)],
            Command::AutoPauseTime(time) => be16(time.0),
            Command::Time(time) => be64(time.0 as u64),
            Command::Brightness(value) => seq![value.value() as u8],
            Command::BlinkInterval(value) => seq![value.value() as u8],
            Command::GetTime => Seq::empty(),
            Command::ReadStatus => Seq::empty(),
            Command::SetColor { facet, red, green, blue } => seq![facet.value() as u8] + be16(red)
                + be16(green) + be16(blue),
            Command::SetTaskParameter(facet, task) => seq![facet.value() as u8] + task_encoding(
                task,
            ),
            Command::GetTaskParameter(facet) => seq![facet.value() as u8],
        }
    }

    /// The bytes of the command: its id, then its payload.
    pub open spec fn encoding(self) -> Seq<u8> {
        seq![self.id_spec()] + self.payload()
    }

    /// Whether the command can be written: the device counts time from the
    /// epoch on and has no bytes for a time before it.
    pub open spec fn encodable(self) -> bool {
        self matches Command::Time(time) ==> time.0 >= 0
    }

    /// Get the command's id.
    pub fn id(&self) -> (r: u8)
        ensures
            r == self.id_spec(),
    {
        match self {
            Command::LockMode(_) => 0x04,
            Command::AutoPauseTime(_) => 0x05,
            Command::PauseMode(_) => 0x06,
            Command::GetTime => 0x07,
            Command::Time(_) => 0x08,
            Command::Brightness(_) => 0x09,
            Command::BlinkInterval(_) => 0x0A,
            Command::ReadStatus => 0x10,
            Command::SetColor { .. } => 0x11,
            Command::SetTaskParameter(_, _) => 0x13,
            Command::GetTaskParameter(_) => 0x14,
        }
    }

    /// Get the command's data to write to the GATT characteristic.
    pub fn to_vec(&self) -> (data: Vec<u8>)
        requires
            self.encodable(),
        ensures
            data@ == self.encoding(),
    {
        let mut data: Vec<u8> = Vec::with_capacity(3);
        put_u8(&mut data, self.id());
        assert(data@ =~= seq![self.id_spec()]);
        match self {
            Command::LockMode(on) | Command::PauseMode(on) => {
                if *on {
                    put_u8(&mut data, 0x01)
                } else {
                    put_u8(&mut data, 0x02)
                }
            },
            Command::AutoPauseTime(time) => put_u16(&mut data, time.0),
            Command::Time(time) => put_u64(&mut data, time.0 as u64),
            Command::Brightness(value) => put_u8(&mut data, value.get()),
            Command::BlinkInterval(value) => put_u8(&mut data, value.seconds()),
            Command::GetTime | Command::ReadStatus => {},
            Command::SetColor { facet, red, green, blue } => {
                put_u8(&mut data, facet.index());
                put_u16(&mut data, *red);
                put_u16(&mut data, *green);
                put_u16(&mut data, *blue);
            },
            Command::SetTaskParameter(facet, task) => {
                put_u8(&mut data, facet.index());
                match task {
                    FacetTask::Simple => {
                        put_u8(&mut data, 0);
                        put_u32(&mut data, 0);
                    },
                    FacetTask::Pomodoro(timer) => {
                        put_u8(&mut data, 1);
                        put_u32(&mut data, *timer);
                    },
                }
            },
            Command::GetTaskParameter(facet) => put_u8(&mut data, facet.index()),
        }
        assert(data@ =~= self.encoding());
        data
    }
}

} // verus!
