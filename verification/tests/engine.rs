use pompom::{effective_interval, DEFAULT_MILESTONE_INTERVAL};
use pompom::{
    run_phase, Clock, NotificationError, NotificationEvent, NotificationKind, PhaseOutcome,
    PomofocusState, TickEngine, TickSignal,
};
use std::cell::RefCell;

fn milestone(phase: PomofocusState, minutes: u64) -> NotificationEvent {
    NotificationEvent { kind: NotificationKind::Milestone, phase, minutes }
}

fn completion(phase: PomofocusState, minutes: u64) -> NotificationEvent {
    NotificationEvent { kind: NotificationKind::PhaseComplete, phase, minutes }
}

#[test]
fn default_interval_is_five_minutes() {
    assert_eq!(DEFAULT_MILESTONE_INTERVAL, 5);
}

#[test]
fn interval_that_fits_is_kept() {
    assert_eq!(effective_interval(1500, 5), 300);
    assert_eq!(effective_interval(300, 5), 300);
    assert_eq!(effective_interval(3600, 1), 60);
}

#[test]
fn interval_is_cut_down_to_a_three_minute_phase() {
    assert_eq!(effective_interval(180, 5), 180);
}

#[test]
fn interval_is_cut_down_to_whole_minutes() {
    assert_eq!(effective_interval(299, 5), 240);
    assert_eq!(effective_interval(119, 5), 60);
    assert_eq!(effective_interval(60, 5), 60);
    assert_eq!(effective_interval(200, u64::MAX), 180);
}

#[test]
fn very_short_phase_gets_a_one_tick_interval() {
    assert_eq!(effective_interval(59, 5), 1);
    assert_eq!(effective_interval(1, 5), 1);
    assert_eq!(effective_interval(0, 5), 1);
}

#[test]
fn zero_minutes_asked_for_is_one_tick() {
    assert_eq!(effective_interval(600, 0), 1);
}

#[test]
fn interval_never_exceeds_a_phase_that_lasts() {
    for total in 1..400u64 {
        for asked in 0..8u64 {
            let interval = effective_interval(total, asked);
            assert!(interval >= 1);
            assert!(interval <= total, "{} {}", total, asked);
        }
    }
}

#[test]
fn engine_starts_at_zero() {
    let engine = TickEngine::new(PomofocusState::Work, 25, 5);
    assert_eq!(engine.phase, PomofocusState::Work);
    assert_eq!(engine.clock.total_seconds, 1500);
    assert_eq!(engine.clock.elapsed_seconds, 0);
    assert_eq!(engine.interval_seconds, 300);
    assert!(!engine.is_complete());
}

#[test]
fn engine_for_a_phase_too_long_to_count() {
    let engine = TickEngine::new(PomofocusState::Work, u64::MAX, 5);
    assert_eq!(engine.clock.total_seconds, u64::MAX);
    assert_eq!(engine.interval_seconds, 300);
    let longest = TickEngine::new(PomofocusState::Work, u64::MAX, u64::MAX);
    assert_eq!(longest.interval_seconds, 18446744073709551600);
}

#[test]
fn engine_announces_every_five_minutes() {
    let mut engine = TickEngine::new(PomofocusState::Work, 25, 5);
    let mut seen = Vec::new();
    while !engine.is_complete() {
        if let Some(event) = engine.tick() {
            seen.push((engine.clock.elapsed_seconds, event));
        }
    }
    assert_eq!(
        seen,
        vec![
            (300, milestone(PomofocusState::Work, 5)),
            (600, milestone(PomofocusState::Work, 10)),
            (900, milestone(PomofocusState::Work, 15)),
            (1200, milestone(PomofocusState::Work, 20)),
            (1500, milestone(PomofocusState::Work, 25)),
        ]
    );
    assert_eq!(engine.completion(), completion(PomofocusState::Work, 25));
}

#[test]
fn engine_is_silent_between_milestones() {
    let mut engine = TickEngine::new(PomofocusState::ShortBreak, 5, 5);
    for second in 1..300u64 {
        assert_eq!(engine.tick(), None, "at {}", second);
    }
    assert_eq!(engine.tick(), Some(milestone(PomofocusState::ShortBreak, 5)));
    assert!(engine.is_complete());
}

#[test]
fn very_short_phase_announces_every_tick() {
    let clock = Clock { total_seconds: 4, elapsed_seconds: 0 };
    let mut engine = TickEngine {
        phase: PomofocusState::ShortBreak,
        clock,
        interval_seconds: effective_interval(clock.total_seconds, 5),
    };
    assert_eq!(engine.interval_seconds, 1);
    for _ in 0..4 {
        assert!(!engine.is_complete());
        assert_eq!(engine.tick(), Some(milestone(PomofocusState::ShortBreak, 0)));
    }
    assert!(engine.is_complete());
    assert_eq!(engine.tick(), None);
}

#[test]
fn engine_without_an_interval_announces_nothing() {
    let mut engine = TickEngine {
        phase: PomofocusState::Work,
        clock: Clock::from_minutes(1),
        interval_seconds: 0,
    };
    for _ in 0..60 {
        assert_eq!(engine.tick(), None);
    }
    assert!(engine.is_complete());
    assert_eq!(engine.completion(), completion(PomofocusState::Work, 1));
}

#[test]
fn complete_engine_stays_put() {
    let mut engine = TickEngine::new(PomofocusState::Work, 1, 1);
    for _ in 0..60 {
        engine.tick();
    }
    assert!(engine.is_complete());
    let before = engine;
    assert_eq!(engine.tick(), None);
    assert_eq!(engine, before);
}

#[test]
fn short_phase_fires_a_milestone_before_it_completes() {
    let report = run_phase(
        PomofocusState::ShortBreak,
        3,
        DEFAULT_MILESTONE_INTERVAL,
        &|_, _, _| TickSignal::Continue,
        &|_| Ok(()),
        &|_| Ok(()),
    );
    assert_eq!(report.outcome, PhaseOutcome::Complete);
    assert_eq!(report.total_seconds, 180);
    assert_eq!(report.elapsed_seconds, 180);
    assert_eq!(
        report.events,
        vec![milestone(PomofocusState::ShortBreak, 3), completion(PomofocusState::ShortBreak, 3)]
    );
    assert_eq!(report.deliveries, vec![Ok(()), Ok(())]);
}

#[test]
fn every_phase_up_to_an_hour_fires_a_milestone_first() {
    for minutes in 1..=60u64 {
        let report = run_phase(
            PomofocusState::Work,
            minutes,
            DEFAULT_MILESTONE_INTERVAL,
            &|_, _, _| TickSignal::Continue,
            &|_| Ok(()),
            &|_| Ok(()),
        );
        assert!(report.events.len() >= 2);
        assert_eq!(report.events[0].kind, NotificationKind::Milestone);
        assert_eq!(report.events.last(), Some(&completion(PomofocusState::Work, minutes)));
        let milestones = report.events.len() - 1;
        let expected = if minutes >= 5 { minutes / 5 } else { 1 };
        assert_eq!(milestones as u64, expected, "{} minutes", minutes);
    }
}

#[test]
fn callbacks_see_what_the_report_lists() {
    let ticks = RefCell::new(Vec::new());
    let milestones = RefCell::new(Vec::new());
    let completions = RefCell::new(Vec::new());
    let report = run_phase(
        PomofocusState::LongBreak,
        2,
        1,
        &|elapsed, total, phase| {
            ticks.borrow_mut().push((elapsed, total, phase));
            TickSignal::Continue
        },
        &|event| {
            milestones.borrow_mut().push(event);
            Ok(())
        },
        &|event| {
            completions.borrow_mut().push(event);
            Ok(())
        },
    );
    let ticks = ticks.into_inner();
    assert_eq!(ticks.len(), 120);
    for (second, tick) in ticks.iter().enumerate() {
        assert_eq!(*tick, (second as u64, 120, PomofocusState::LongBreak));
    }
    assert_eq!(
        milestones.into_inner(),
        vec![milestone(PomofocusState::LongBreak, 1), milestone(PomofocusState::LongBreak, 2)]
    );
    assert_eq!(completions.into_inner(), vec![completion(PomofocusState::LongBreak, 2)]);
    assert_eq!(report.events.len(), 3);
    assert_eq!(report.phase, PomofocusState::LongBreak);
}

#[test]
fn cancelled_work_emits_no_completion() {
    let completions = RefCell::new(0u32);
    let report = run_phase(
        PomofocusState::Work,
        25,
        DEFAULT_MILESTONE_INTERVAL,
        &|elapsed, _, _| if elapsed == 300 { TickSignal::Cancel } else { TickSignal::Continue },
        &|_| Ok(()),
        &|_| {
            *completions.borrow_mut() += 1;
            Ok(())
        },
    );
    assert_eq!(report.outcome, PhaseOutcome::Cancelled);
    assert_eq!(report.elapsed_seconds, 300);
    assert_eq!(report.total_seconds, 1500);
    assert_eq!(report.events, vec![milestone(PomofocusState::Work, 5)]);
    assert!(report.events.iter().all(|event| event.kind != NotificationKind::PhaseComplete));
    assert_eq!(completions.into_inner(), 0);
}

#[test]
fn cancelling_at_once_runs_nothing() {
    let report = run_phase(
        PomofocusState::Work,
        25,
        5,
        &|_, _, _| TickSignal::Cancel,
        &|_| Ok(()),
        &|_| Ok(()),
    );
    assert_eq!(report.outcome, PhaseOutcome::Cancelled);
    assert_eq!(report.elapsed_seconds, 0);
    assert!(report.events.is_empty());
    assert!(report.deliveries.is_empty());
}

#[test]
fn failed_notifications_do_not_stop_the_phase() {
    let report = run_phase(
        PomofocusState::Work,
        10,
        5,
        &|_, _, _| TickSignal::Continue,
        &|event| {
            if event.minutes == 5 {
                Err(NotificationError::Desktop(String::from("no desktop")))
            } else {
                Ok(())
            }
        },
        &|_| Err(NotificationError::EmptyConfiguration),
    );
    assert_eq!(report.outcome, PhaseOutcome::Complete);
    assert_eq!(report.elapsed_seconds, 600);
    assert_eq!(
        report.events,
        vec![
            milestone(PomofocusState::Work, 5),
            milestone(PomofocusState::Work, 10),
            completion(PomofocusState::Work, 10),
        ]
    );
    assert_eq!(
        report.deliveries,
        vec![
            Err(NotificationError::Desktop(String::from("no desktop"))),
            Ok(()),
            Err(NotificationError::EmptyConfiguration),
        ]
    );
}

#[test]
fn empty_phase_completes_without_a_tick() {
    let ticks = RefCell::new(0u32);
    let report = run_phase(
        PomofocusState::Work,
        0,
        5,
        &|_, _, _| {
            *ticks.borrow_mut() += 1;
            TickSignal::Continue
        },
        &|_| Ok(()),
        &|_| Ok(()),
    );
    assert_eq!(report.outcome, PhaseOutcome::Complete);
    assert_eq!(report.events, vec![completion(PomofocusState::Work, 0)]);
    assert_eq!(ticks.into_inner(), 0);
}

#[test]
fn messages_read_as_spoken() {
    assert_eq!(milestone(PomofocusState::Work, 5).message(), "5 minutes over");
    assert_eq!(milestone(PomofocusState::Work, 0).message(), "0 minutes over");
    assert_eq!(milestone(PomofocusState::ShortBreak, 120).message(), "120 minutes over");
    assert_eq!(completion(PomofocusState::Work, 25).message(), "Work session over");
    assert_eq!(completion(PomofocusState::ShortBreak, 5).message(), "Short Break session over");
    assert_eq!(completion(PomofocusState::LongBreak, 20).message(), "Long Break session over");
    assert_eq!(completion(PomofocusState::Idle, 0).message(), "Idle session over");
}

#[test]
fn only_the_end_of_work_is_for_the_desktop() {
    assert!(completion(PomofocusState::Work, 25).ends_work());
    assert!(!completion(PomofocusState::ShortBreak, 5).ends_work());
    assert!(!completion(PomofocusState::LongBreak, 20).ends_work());
    assert!(!completion(PomofocusState::Idle, 0).ends_work());
    assert!(!milestone(PomofocusState::Work, 25).ends_work());
}
