use pompom::cli::{DEFAULT_LONG_BREAK_TIME, DEFAULT_SHORT_BREAK_TIME, DEFAULT_WORK_TIME};
use pompom::clock::MAX_MINUTES;
use pompom::{CliCommands, PhaseDurations, PomoFocusCli, PomodoroError, PomofocusState};

#[test]
fn defaults_are_those_of_the_flags() {
    let cli = PomoFocusCli::new();
    assert_eq!(cli.command, None);
    assert_eq!(cli.work_time, 15);
    assert_eq!(cli.short_break_time, 5);
    assert_eq!(cli.long_break_time, 25);
    assert_eq!(cli.cycles, 3);
    assert_eq!(cli, PomoFocusCli::default());
    assert_eq!(
        (DEFAULT_WORK_TIME, DEFAULT_SHORT_BREAK_TIME, DEFAULT_LONG_BREAK_TIME),
        (15, 5, 25)
    );
    assert_eq!(cli.validate(), Ok(()));
}

#[test]
fn every_zero_is_a_configuration_error() {
    let good = PomoFocusCli::new();
    assert_eq!(
        PomoFocusCli { cycles: 0, ..good }.validate(),
        Err(PomodoroError::ConfigurationError)
    );
    assert_eq!(
        PomoFocusCli { work_time: 0, ..good }.validate(),
        Err(PomodoroError::ConfigurationError)
    );
    assert_eq!(
        PomoFocusCli { short_break_time: 0, ..good }.validate(),
        Err(PomodoroError::ConfigurationError)
    );
    assert_eq!(
        PomoFocusCli { long_break_time: 0, ..good }.validate(),
        Err(PomodoroError::ConfigurationError)
    );
}

#[test]
fn long_phases_are_no_error() {
    let good = PomoFocusCli::new();
    assert_eq!(PomoFocusCli { work_time: MAX_MINUTES + 1, ..good }.validate(), Ok(()));
    assert_eq!(PomoFocusCli { short_break_time: u64::MAX, ..good }.validate(), Ok(()));
    assert_eq!(PomoFocusCli { long_break_time: u64::MAX, cycles: u16::MAX, ..good }.validate(), Ok(()));
}

#[test]
fn smallest_settings_are_accepted() {
    let cli = PomoFocusCli {
        command: None,
        work_time: 1,
        short_break_time: 1,
        long_break_time: 1,
        cycles: 1,
    };
    assert_eq!(cli.validate(), Ok(()));
}

#[test]
fn durations_map_phases_to_minutes() {
    let cli = PomoFocusCli {
        command: None,
        work_time: 25,
        short_break_time: 5,
        long_break_time: 20,
        cycles: 3,
    };
    let durations = cli.durations();
    assert_eq!(durations, PhaseDurations { work: 25, short_break: 5, long_break: 20 });
    assert_eq!(durations.minutes_for(PomofocusState::Work), Some(25));
    assert_eq!(durations.minutes_for(PomofocusState::ShortBreak), Some(5));
    assert_eq!(durations.minutes_for(PomofocusState::LongBreak), Some(20));
    assert_eq!(durations.minutes_for(PomofocusState::Idle), None);
}

#[test]
fn either_subcommand_asks_for_the_wizard() {
    let plain = PomoFocusCli::new();
    assert!(!plain.wants_wizard());
    assert!(PomoFocusCli { command: Some(CliCommands::Interactive), ..plain }.wants_wizard());
    assert!(PomoFocusCli { command: Some(CliCommands::I), ..plain }.wants_wizard());
}
