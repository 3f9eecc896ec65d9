//! Bringing the TimeFlip2 in line with a configuration.
//!
//! The device names one thing at a time that it wants corrected. The caller
//! reads the status word, asks [Synchronizer::step] what to write, writes
//! it, and reads again, until the device is synchronized or the step fails.

use crate::config::Config;
use crate::time::Timestamp;
use crate::timeflip::command::Command;
use crate::timeflip::sync_state::{SyncState, SyncType};
use crate::timeflip::Error;
use crate::types::Facet;
use vstd::prelude::*;

verus! {

/// What is to be done after a status word was read.
#[derive(Debug, Clone, PartialEq, Eq)]
pub enum SyncAction {
    /// The device is synchronized; nothing is left to do.
    Done,
    /// The commands are to be written, in this order, and the status word
    /// is to be read again.
    Write(Vec<Command>),
}

/// How a status word is answered.
pub enum SyncDecision {
    /// The synchronization has failed for good.
    Fail(Error),
    /// The device is synchronized.
    Done,
    /// The device is to be given what it asks for.
    Correct,
}

/// How a status word is answered, given what the device asked for when it
/// was read the time before. A hardware error fails at once. A device that
/// asks again for what it was just given does not take the correction.
pub open spec fn sync_decision(state: SyncState, last_sync: Option<SyncType>) -> SyncDecision {
    if state.accelerometer_error {
        SyncDecision::Fail(Error::AccelerometerError)
    } else if state.flash_error {
        SyncDecision::Fail(Error::FlashError)
    } else if state.sync == SyncType::Synchronized {
        SyncDecision::Done
    } else if last_sync == Some(state.sync) {
        SyncDecision::Fail(Error::SyncError(state.sync))
    } else {
        SyncDecision::Correct
    }
}

/// The command that sets the color of the facet at the given place, counted
/// from zero.
pub open spec fn color_command(config: Config, k: int) -> Command {
    Command::SetColor {
        facet: Facet::at(k + 1),
        red: config.sides@[k].color.red,
        green: config.sides@[k].color.green,
        blue: config.sides@[k].color.blue,
    }
}

/// The command that sets the task of the facet at the given place, counted
/// from zero.
pub open spec fn task_command(config: Config, k: int) -> Command {
    Command::SetTaskParameter(Facet::at(k + 1), config.sides@[k].task)
}

/// The commands that give the device what it asks for: the current time
/// after a reset or for the time, one command for each facet from 1 to 12
/// for colors or tasks, one command for each of the other settings.
pub open spec fn sync_commands(sync: SyncType, config: Config, now: Timestamp) -> Seq<Command> {
    match sync {
        SyncType::Synchronized => Seq::empty(),
        SyncType::FactoryReset | SyncType::Time => seq![Command::Time(now)],
        SyncType::FacetColor => Seq::new(12, |k: int| color_command(config, k)),
        SyncType::LedBrightness => seq![Command::Brightness(config.brightness)],
        SyncType::BlinkInterval => seq![Command::BlinkInterval(config.blink_interval)],
        SyncType::TaskParameters => Seq::new(12, |k: int| task_command(config, k)),
        SyncType::AutoPause => seq![Command::AutoPauseTime(config.auto_pause)],
    }
}

/// The commands that write a whole configuration: brightness, blink
/// interval and auto-pause, then color and task of each facet from 1 to 12.
pub open spec fn config_commands_spec(config: Config) -> Seq<Command> {
    seq![
        Command::Brightness(config.brightness),
        Command::BlinkInterval(config.blink_interval),
        Command::AutoPauseTime(config.auto_pause),
    ] + Seq::new(
        24,
        |j: int|
            if j % 2 == 0 {
                color_command(config, j / 2)
            } else {
                task_command(config, j / 2)
            },
    )
}

/// The facet at the given place, counted from zero.
fn facet_at(k: usize) -> (facet: Facet)
    requires
        k < 12,
    ensures
        facet == Facet::at(k + 1),
{
    Facet::new(k + 1).unwrap()
}

/// The commands that set the color of each facet.
fn color_commands(config: &Config) -> (commands: Vec<Command>)
    ensures
        commands@ == Seq::new(12, |k: int| color_command(*config, k)),
{
    let mut commands: Vec<Command> = Vec::new();
    let mut k: usize = 0;
    while k < 12
        invariant
            k <= 12,
            commands@.len() == k,
            forall|i: int| 0 <= i < k ==> commands@[i] == color_command(*config, i),
        decreases 12 - k,
    {
        let (red, green, blue) = config.sides[k].color.rgb();
        commands.push(Command::SetColor { facet: facet_at(k), red, green, blue });
        k += 1;
    }
    assert(commands@ =~= Seq::new(12, |k: int| color_command(*config, k)));
    commands
}

/// The commands that set the task of each facet.
fn task_commands(config: &Config) -> (commands: Vec<Command>)
    ensures
        commands@ == Seq::new(12, |k: int| task_command(*config, k)),
{
    let mut commands: Vec<Command> = Vec::new();
    let mut k: usize = 0;
    while k < 12
        invariant
            k <= 12,
            commands@.len() == k,
            forall|i: int| 0 <= i < k ==> commands@[i] == task_command(*config, i),
        decreases 12 - k,
    {
        commands.push(Command::SetTaskParameter(facet_at(k), config.sides[k].task));
        k += 1;
    }
    assert(commands@ =~= Seq::new(12, |k: int| task_command(*config, k)));
    commands
}

/// The commands that apply the given configuration to TimeFlip2's memory,
/// whatever the device asks for.
pub fn config_commands(config: &Config) -> (commands: Vec<Command>)
    ensures
        commands@ == config_commands_spec(*config),
        forall|i: int| 0 <= i < commands@.len() ==> (#[trigger] commands@[i]).encodable(),
{
    let mut commands: Vec<Command> = Vec::new();
    commands.push(Command::Brightness(config.brightness));
    commands.push(Command::BlinkInterval(config.blink_interval));
    commands.push(Command::AutoPauseTime(config.auto_pause));
    let mut k: usize = 0;
    while k < 12
        invariant
            k <= 12,
            commands@.len() == 3 + 2 * k,
            forall|i: int| 0 <= i < 3 + 2 * k ==> commands@[i] == config_commands_spec(*config)[i],
        decreases 12 - k,
    {
        let (red, green, blue) = config.sides[k].color.rgb();
        commands.push(Command::SetColor { facet: facet_at(k), red, green, blue });
        commands.push(Command::SetTaskParameter(facet_at(k), config.sides[k].task));
        k += 1;
    }
    assert(commands@ =~= config_commands_spec(*config));
    commands
}

/// The memory of a synchronization: what the device asked for when its
/// status word was read the time before.
#[derive(Debug, Clone, Copy, PartialEq, Eq)]
pub struct Synchronizer {
    /// What was corrected last, if anything.
    pub last_sync: Option<SyncType>,
}

impl Synchronizer {
    /// Start a synchronization: nothing was corrected yet.
    pub fn new() -> (r: Synchronizer)
        ensures
            r.last_sync == None::<SyncType>,
    {
        Synchronizer { last_sync: None }
    }

    /// The memory after a status word was answered: a correction is
    /// remembered, anything else leaves it as it was.
    pub open spec fn next(self, state: SyncState) -> Synchronizer {
        match sync_decision(state, self.last_sync) {
            SyncDecision::Correct => Synchronizer { last_sync: Some(state.sync) },
            _ => self,
        }
    }

    /// Answer a status word that was just read: fail, finish, or give the
    /// commands that correct what the device asks for. `now` is the current
    /// time, which the device is given where it asks for the time.
    pub fn step(&mut self, state: &SyncState, config: &Config, now: Timestamp) -> (r: Result<
        SyncAction,
        Error,
    >)
        ensures
            *final(self) == old(self).next(*state),
            match sync_decision(*state, old(self).last_sync) {
                SyncDecision::Fail(e) => r == Err::<SyncAction, Error>(e),
                SyncDecision::Done => r == Ok::<SyncAction, Error>(SyncAction::Done),
                SyncDecision::Correct => r matches Ok(SyncAction::Write(commands)) && commands@
                    == sync_commands(state.sync, *config, now) && (now.0 >= 0 ==> forall|i: int|
                    0 <= i < commands@.len() ==> (#[trigger] commands@[i]).encodable()),
            },
    {
        if state.accelerometer_error {
            return Err(Error::AccelerometerError);
        }
        if state.flash_error {
            return Err(Error::FlashError);
        }
        if state.sync == SyncType::Synchronized {
            return Ok(SyncAction::Done);
        }
        if let Some(last_sync) = self.last_sync {
            if last_sync == state.sync {
                return Err(Error::SyncError(last_sync));
            }
        }
        let mut commands: Vec<Command> = Vec::new();
        match state.sync {
            SyncType::FactoryReset | SyncType::Time => {
                commands.push(Command::Time(now));
            },
            SyncType::FacetColor => {
                commands = color_commands(config);
            },
            SyncType::LedBrightness => {
                commands.push(Command::Brightness(config.brightness));
            },
            SyncType::BlinkInterval => {
                commands.push(Command::BlinkInterval(config.blink_interval));
            },
            SyncType::TaskParameters => {
                commands = task_commands(config);
            },
            SyncType::AutoPause => {
                commands.push(Command::AutoPauseTime(config.auto_pause));
            },
            SyncType::Synchronized => {},
        }
        assert(commands@ =~= sync_commands(state.sync, *config, now));
        self.last_sync = Some(state.sync);
        Ok(SyncAction::Write(commands))
    }

    /// A device that asks twice in a row for the same correction fails the
    /// synchronization at the second status word, with an error that names
    /// what it asked for: no commands are written for it and no status word
    /// is read after it.
    pub proof fn lemma_repeated_request_fails(self, first: SyncState, second: SyncState)
        requires
            sync_decision(first, self.last_sync) is Correct,
            second.sync == first.sync,
            !second.accelerometer_error,
            !second.flash_error,
        ensures
            sync_decision(second, self.next(first).last_sync) == SyncDecision::Fail(
                Error::SyncError(first.sync),
            ),
    {
    }

    /// A synchronization that neither fails nor finishes never corrects the
    /// same thing twice in a row.
    pub proof fn lemma_corrections_alternate(self, state: SyncState)
        requires
            sync_decision(state, self.last_sync) is Correct,
        ensures
            self.last_sync != Some(state.sync),
            self.next(state).last_sync == Some(state.sync),
            state.sync != SyncType::Synchronized,
            !state.accelerometer_error && !state.flash_error,
    {
    }
}

} // verus!
