//! The settings of a session, as the command line or a wizard supplies them.

use crate::error::PomodoroError;
use crate::notification::NotificationManager;
use crate::state::{PomofocusState, DEFAULT_WORK_CYCLES};
use vstd::prelude::*;

verus! {

/// Minutes of a work phase when nothing else is asked for.
pub const DEFAULT_WORK_TIME: u64 = 15;

/// Minutes of a short break when nothing else is asked for.
pub const DEFAULT_SHORT_BREAK_TIME: u64 = 5;

/// Minutes of the long break when nothing else is asked for.
pub const DEFAULT_LONG_BREAK_TIME: u64 = 25;

/// The subcommands of the timer. Both say the same: that the user is to be
/// asked for the settings instead of passing them as flags.
#[derive(Debug, Clone, Copy, PartialEq, Eq, Hash, Structural)]
pub enum CliCommands {
    /// Usage: $ pompom interactive
    Interactive,
    /// Usage: $ pompom i
    I,
}

/// How long each phase of a session lasts, in minutes. Idling has no length.
#[derive(Debug, Clone, Copy, PartialEq, Eq, Hash, Structural)]
pub struct PhaseDurations {
    pub work: u64,
    pub short_break: u64,
    pub long_break: u64,
}

impl PhaseDurations {
    /// The minutes that `phase` lasts; idling lasts none.
    pub open spec fn spec_minutes_for(&self, phase: PomofocusState) -> Option<u64> {
        match phase {
            PomofocusState::Work => Some(self.work),
            PomofocusState::ShortBreak => Some(self.short_break),
            PomofocusState::LongBreak => Some(self.long_break),
            PomofocusState::Idle => None,
        }
    }

    /// The minutes that `phase` lasts; idling lasts none.
    #[verifier::when_used_as_spec(spec_minutes_for)]
    pub fn minutes_for(&self, phase: PomofocusState) -> (minutes: Option<u64>)
        ensures
            minutes == self.spec_minutes_for(phase),
    {
        match phase {
            PomofocusState::Work => Some(self.work),
            PomofocusState::ShortBreak => Some(self.short_break),
            PomofocusState::LongBreak => Some(self.long_break),
            PomofocusState::Idle => None,
        }
    }

    /// Whether every phase lasts at least a minute.
    pub open spec fn well_formed(&self) -> bool {
        &&& self.work >= 1
        &&& self.short_break >= 1
        &&& self.long_break >= 1
    }
}

/// `pompom` settings: the lengths of the phases and the number of work
/// phases before the long break.
#[derive(Debug, Clone, Copy, PartialEq, Eq, Hash, Structural)]
pub struct PomoFocusCli {
    pub command: Option<CliCommands>,
    /// The length of a work period in minutes.
    pub work_time: u64,
    /// The length of the short break after each work period, in minutes.
    pub short_break_time: u64,
    /// The length of the long break after all work periods, in minutes.
    pub long_break_time: u64,
    /// The count of work cycles before a long break starts.
    pub cycles: u16,
}

impl PomoFocusCli {
    /// The settings that apply when nothing is asked for.
    pub fn new() -> (cli: Self)
        ensures
            cli.command is None,
            cli.work_time == DEFAULT_WORK_TIME,
            cli.short_break_time == DEFAULT_SHORT_BREAK_TIME,
            cli.long_break_time == DEFAULT_LONG_BREAK_TIME,
            cli.cycles == DEFAULT_WORK_CYCLES,
            cli.well_formed(),
    {
        Self {
            command: None,
            work_time: DEFAULT_WORK_TIME,
            short_break_time: DEFAULT_SHORT_BREAK_TIME,
            long_break_time: DEFAULT_LONG_BREAK_TIME,
            cycles: DEFAULT_WORK_CYCLES,
        }
    }

    /// The lengths of the phases.
    pub open spec fn spec_durations(&self) -> PhaseDurations {
        PhaseDurations {
            work: self.work_time,
            short_break: self.short_break_time,
            long_break: self.long_break_time,
        }
    }

    /// The lengths of the phases.
    #[verifier::when_used_as_spec(spec_durations)]
    pub fn durations(&self) -> (durations: PhaseDurations)
        ensures
            durations == self.spec_durations(),
    {
        PhaseDurations {
            work: self.work_time,
            short_break: self.short_break_time,
            long_break: self.long_break_time,
        }
    }

    /// Whether a session can be run on these settings: at least one work
    /// phase per round, and phases that last at least a minute.
    pub open spec fn well_formed(&self) -> bool {
        self.cycles >= 1 && self.spec_durations().well_formed()
    }

    /// Checks the settings before anything is started.
    pub fn validate(&self) -> (checked: Result<(), PomodoroError>)
        ensures
            checked is Ok <==> self.well_formed(),
            checked matches Err(error) ==> error == PomodoroError::ConfigurationError,
    {
        if self.cycles >= 1 && self.work_time >= 1 && self.short_break_time >= 1
            && self.long_break_time >= 1 {
            Ok(())
        } else {
            Err(PomodoroError::ConfigurationError)
        }
    }

    /// These settings once the wizard's answers, if there are any, have been
    /// taken over: the lengths of the work phase and of the short break are
    /// those that the wizard was told.
    pub open spec fn answered(self, answers: Option<&NotificationManager>) -> PomoFocusCli {
        match answers {
            Some(answers) => PomoFocusCli {
                work_time: answers.work_time as u64,
                short_break_time: answers.short_break_time as u64,
                ..self
            },
            None => self,
        }
    }

    /// Takes over the lengths of the work phase and of the short break that
    /// the wizard was told.
    pub fn apply_wizard(&mut self, answers: &NotificationManager)
        ensures
            *final(self) == old(self).answered(Some(answers)),
    {
        self.work_time = answers.work_time as u64;
        self.short_break_time = answers.short_break_time as u64;
    }

    /// Whether the settings are to be asked for interactively.
    pub fn wants_wizard(&self) -> (wanted: bool)
        ensures
            wanted == self.command is Some,
    {
        match self.command {
            Some(CliCommands::Interactive) | Some(CliCommands::I) => true,
            None => false,
        }
    }
}

impl Default for PomoFocusCli {
    fn default() -> (cli: Self)
        ensures
            cli.command is None,
            cli.work_time == DEFAULT_WORK_TIME,
            cli.short_break_time == DEFAULT_SHORT_BREAK_TIME,
            cli.long_break_time == DEFAULT_LONG_BREAK_TIME,
            cli.cycles == DEFAULT_WORK_CYCLES,
    {
        Self::new()
    }
}

} // verus!
