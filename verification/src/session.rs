//! The session driver: runs the phases of a session one after another and
//! asks the scheduler for the next one whenever a phase has run to its end.

use crate::cli::{PhaseDurations, PomoFocusCli};
use crate::engine::{never_cancels, run_phase, PhaseOutcome, PhaseReport, TickSignal};
use crate::error::{NotifyResult, PomodoroError};
use crate::event::NotificationEvent;
use crate::notification::NotificationManager;
use crate::state::{
    lemma_round_from_begin, lemma_round_occurrences, lemma_round_trajectory, occurrences,
    PomofocusState, SessionState, StateManager,
};
use vstd::prelude::*;

verus! {

/// How a session ended.
#[derive(Debug, Clone, Copy, PartialEq, Eq, Hash, Structural)]
pub enum SessionOutcome {
    /// All work phases and breaks of the round have run; the session idles.
    Complete,
    /// A phase was interrupted; the session stays in that phase.
    Cancelled,
}

/// What happened while a session ran.
#[derive(Debug, Clone, PartialEq, Eq)]
pub struct SessionReport {
    pub outcome: SessionOutcome,
    /// The report of every phase that was started, in order.
    pub phases: Vec<PhaseReport>,
}

/// Whether `report` is what a run of `phase` reports in a session whose
/// phases last as `durations` says: a phase that is no idling, run for the
/// minutes set for it.
pub open spec fn runs_phase_of(
    report: PhaseReport,
    phase: PomofocusState,
    durations: PhaseDurations,
    milestone_interval_minutes: u64,
) -> bool {
    match durations.minutes_for(phase) {
        Some(minutes) => report.is_run_of(
            phase,
            minutes as nat,
            milestone_interval_minutes as nat,
        ),
        None => false,
    }
}

impl SessionReport {
    /// Whether this is what a session reports that runs its first phase in
    /// the state `start`: the phases started are those that the scheduler
    /// goes through from there, one for each transition, each run for the
    /// minutes set for it; all but the last ran to their end; and the session
    /// is complete exactly when the last did too, which is when the scheduler
    /// has come to idle.
    pub open spec fn is_run_from(
        &self,
        start: SessionState,
        durations: PhaseDurations,
        milestone_interval_minutes: u64,
    ) -> bool {
        &&& 1 <= self.phases@.len() <= start.steps_to_idle()
        &&& forall|i: int|
            0 <= i < self.phases@.len() ==> runs_phase_of(
                #[trigger] self.phases@[i],
                start.advance_by(i as nat).phase,
                durations,
                milestone_interval_minutes,
            )
        &&& forall|i: int|
            0 <= i < self.phases@.len() - 1 ==> (#[trigger] self.phases@[i]).outcome
                == PhaseOutcome::Complete
        &&& match self.outcome {
            SessionOutcome::Complete => {
                &&& self.phases@.last().outcome == PhaseOutcome::Complete
                &&& self.phases@.len() == start.steps_to_idle()
            },
            SessionOutcome::Cancelled => self.phases@.last().outcome == PhaseOutcome::Cancelled,
        }
    }

    /// The phases that were started, in order.
    pub open spec fn phases_started(&self) -> Seq<PomofocusState> {
        self.phases@.map_values(|report: PhaseReport| report.phase)
    }

    /// The state in which the session leaves a scheduler that ran its first
    /// phase in the state `start`: one transition for every phase that ran to
    /// its end.
    pub open spec fn leaves(&self, start: SessionState) -> SessionState {
        match self.outcome {
            SessionOutcome::Complete => start.advance_by(self.phases@.len()),
            SessionOutcome::Cancelled => start.advance_by((self.phases@.len() - 1) as nat),
        }
    }

    /// Whether this is what a run of the session `asked` reports, with `left`
    /// as the session after it: the settings are untouched, the phases are
    /// those of `asked` from the state in which it begins, and the scheduler
    /// has moved on by every phase that ran to its end. A session that is
    /// complete idles with nothing counted, one that was interrupted stands in
    /// the phase that was; and where `on_tick` never interrupts, the session
    /// is complete.
    pub open spec fn is_report_of<T, M, C>(
        &self,
        asked: App,
        left: App,
        milestone_interval_minutes: u64,
        on_tick: &T,
        on_milestone: &M,
        on_complete: &C,
    ) -> bool where
        T: Fn(u64, u64, PomofocusState) -> TickSignal,
        M: Fn(NotificationEvent) -> NotifyResult,
        C: Fn(NotificationEvent) -> NotifyResult,
    {
        let start = asked.state_manager@.begin();
        &&& left.cli == asked.cli
        &&& left.well_formed()
        &&& self.is_run_from(start, asked.cli.durations(), milestone_interval_minutes)
        &&& self.is_driven_by(on_tick, on_milestone, on_complete)
        &&& left.state_manager@ == self.leaves(start)
        &&& self.outcome == SessionOutcome::Complete ==> left.state_manager@ == SessionState::idle(
            asked.cli.cycles as nat,
        )
        &&& self.outcome == SessionOutcome::Cancelled ==> left.state_manager.state
            == self.phases@.last().phase
        &&& never_cancels(on_tick) ==> self.outcome == SessionOutcome::Complete
    }

    /// Whether every phase was timed by `on_tick` and had its announcements
    /// handed to `on_milestone` and `on_complete`.
    pub open spec fn is_driven_by<T, M, C>(
        &self,
        on_tick: &T,
        on_milestone: &M,
        on_complete: &C,
    ) -> bool where
        T: Fn(u64, u64, PomofocusState) -> TickSignal,
        M: Fn(NotificationEvent) -> NotifyResult,
        C: Fn(NotificationEvent) -> NotifyResult,
    {
        forall|i: int|
            0 <= i < self.phases@.len() ==> (#[trigger] self.phases@[i]).is_timed_by(on_tick)
                && self.phases@[i].is_delivered_through(on_milestone, on_complete)
    }
}

/// A session: its settings and the scheduler that knows where it stands.
#[derive(Debug, Clone, Copy, PartialEq, Eq, Structural)]
pub struct App {
    pub cli: PomoFocusCli,
    pub state_manager: StateManager,
}

impl App {
    /// Whether the settings can be run and the scheduler is in a state that
    /// a session with these settings passes through.
    pub open spec fn well_formed(&self) -> bool {
        &&& self.cli.well_formed()
        &&& self.state_manager@.well_formed()
        &&& self.state_manager@.target_cycles == self.cli.cycles
    }

    /// A session on the given settings, idle. Settings on which no session
    /// can be run are refused before anything is started.
    pub fn new(cli: PomoFocusCli) -> (made: Result<App, PomodoroError>)
        ensures
            made is Ok <==> cli.well_formed(),
            made matches Err(error) ==> error == PomodoroError::ConfigurationError,
            made matches Ok(app) ==> app.cli == cli && app.state_manager@ == SessionState::idle(
                cli.cycles as nat,
            ) && app.well_formed(),
    {
        match cli.validate() {
            Err(error) => Err(error),
            Ok(_) => {
                match StateManager::with_cycles(cli.cycles) {
                    Err(error) => Err(error),
                    Ok(state_manager) => Ok(App { cli, state_manager }),
                }
            },
        }
    }

    /// Whether the session can be run as it stands.
    pub fn is_well_formed(&self) -> (ok: bool)
        ensures
            ok == self.well_formed(),
    {
        self.cli.validate().is_ok() && self.state_manager.is_well_formed()
            && self.state_manager.max_count == self.cli.cycles
    }

    /// This session once the wizard's answers, if there are any, have been
    /// taken over into its settings.
    pub open spec fn answered(self, answers: Option<&NotificationManager>) -> App {
        App { cli: self.cli.answered(answers), ..self }
    }

    /// Takes over the wizard's answers, if there are any, and runs the
    /// session as `run_timer_sequence` does. Answers on which no session can
    /// be run are refused before any phase begins, and leave the session as
    /// it was.
    pub fn run<T, M, C>(
        &mut self,
        answers: Option<&NotificationManager>,
        milestone_interval_minutes: u64,
        on_tick: &T,
        on_milestone: &M,
        on_complete: &C,
    ) -> (ran: Result<SessionReport, PomodoroError>) where
        T: Fn(u64, u64, PomofocusState) -> TickSignal,
        M: Fn(NotificationEvent) -> NotifyResult,
        C: Fn(NotificationEvent) -> NotifyResult,

        requires
            forall|elapsed: u64, total: u64, current: PomofocusState|
                call_requires(on_tick, (elapsed, total, current)),
            forall|event: NotificationEvent| call_requires(on_milestone, (event,)),
            forall|event: NotificationEvent| call_requires(on_complete, (event,)),
        ensures
            ran is Ok <==> old(self).answered(answers).well_formed() && milestone_interval_minutes
                >= 1,
            ran matches Err(error) ==> error == PomodoroError::ConfigurationError && *final(self)
                == *old(self),
            ran matches Ok(report) ==> report.is_report_of(
                old(self).answered(answers),
                *final(self),
                milestone_interval_minutes,
                on_tick,
                on_milestone,
                on_complete,
            ),
    {
        let mut asked = App { cli: self.cli, state_manager: self.state_manager };
        match answers {
            Some(answers) => {
                asked.cli.apply_wizard(answers);
            },
            None => {},
        }
        if !asked.is_well_formed() || milestone_interval_minutes == 0 {
            return Err(PomodoroError::ConfigurationError);
        }
        self.cli = asked.cli;
        self.run_timer_sequence(milestone_interval_minutes, on_tick, on_milestone, on_complete)
    }

    /// Runs the session until it idles again or is interrupted. An idle
    /// session begins a round with work; a session that was interrupted
    /// starts the phase it stands in anew. Each phase runs as `run_phase`
    /// says, with the callbacks given here; after a phase that ran to its end
    /// the scheduler moves on, after one that was interrupted it does not.
    pub fn run_timer_sequence<T, M, C>(
        &mut self,
        milestone_interval_minutes: u64,
        on_tick: &T,
        on_milestone: &M,
        on_complete: &C,
    ) -> (ran: Result<SessionReport, PomodoroError>) where
        T: Fn(u64, u64, PomofocusState) -> TickSignal,
        M: Fn(NotificationEvent) -> NotifyResult,
        C: Fn(NotificationEvent) -> NotifyResult,

        requires
            forall|elapsed: u64, total: u64, current: PomofocusState|
                call_requires(on_tick, (elapsed, total, current)),
            forall|event: NotificationEvent| call_requires(on_milestone, (event,)),
            forall|event: NotificationEvent| call_requires(on_complete, (event,)),
        ensures
            ran is Ok <==> old(self).well_formed() && milestone_interval_minutes >= 1,
            ran matches Err(error) ==> error == PomodoroError::ConfigurationError && *final(self)
                == *old(self),
            ran matches Ok(report) ==> report.is_report_of(
                *old(self),
                *final(self),
                milestone_interval_minutes,
                on_tick,
                on_milestone,
                on_complete,
            ),
    {
        if !self.is_well_formed() || milestone_interval_minutes == 0 {
            return Err(PomodoroError::ConfigurationError);
        }
        let durations = self.cli.durations();
        if self.state_manager.get_state() == PomofocusState::Idle {
            self.state_manager.advance();
        }
        let ghost start = self.state_manager@;
        let mut phases: Vec<PhaseReport> = Vec::new();
        let mut cancelled = false;
        while !cancelled && self.state_manager.get_state() != PomofocusState::Idle
            invariant
                self.cli == old(self).cli,
                self.well_formed(),
                durations == self.cli.durations(),
                start == old(self).state_manager@.begin(),
                start.well_formed(),
                start.phase != PomofocusState::Idle,
                forall|i: int|
                    0 <= i < phases@.len() ==> runs_phase_of(
                        #[trigger] phases@[i],
                        start.advance_by(i as nat).phase,
                        durations,
                        milestone_interval_minutes,
                    ),
                forall|i: int|
                    0 <= i < phases@.len() ==> (#[trigger] phases@[i]).is_timed_by(on_tick)
                        && phases@[i].is_delivered_through(on_milestone, on_complete),
                forall|i: int|
                    0 <= i < phases@.len() - 1 ==> (#[trigger] phases@[i]).outcome
                        == PhaseOutcome::Complete,
                !cancelled ==> {
                    &&& self.state_manager@ == start.advance_by(phases@.len())
                    &&& phases@.len() + self.state_manager@.steps_to_idle() == start.steps_to_idle()
                    &&& phases@.len() >= 1 ==> phases@.last().outcome == PhaseOutcome::Complete
                },
                cancelled ==> {
                    &&& phases@.len() >= 1
                    &&& phases@.last().outcome == PhaseOutcome::Cancelled
                    &&& self.state_manager@ == start.advance_by((phases@.len() - 1) as nat)
                    &&& self.state_manager@.phase == phases@.last().phase
                    &&& phases@.len() <= start.steps_to_idle()
                    &&& !never_cancels(on_tick)
                },
                forall|elapsed: u64, total: u64, current: PomofocusState|
                    call_requires(on_tick, (elapsed, total, current)),
                forall|event: NotificationEvent| call_requires(on_milestone, (event,)),
                forall|event: NotificationEvent| call_requires(on_complete, (event,)),
            decreases
                self.state_manager@.steps_to_idle() + (if cancelled {
                    0int
                } else {
                    1int
                }),
        {
            let phase = self.state_manager.get_state();
            let minutes = match durations.minutes_for(phase) {
                Some(minutes) => minutes,
                None => 0,
            };
            let report = run_phase(
                phase,
                minutes,
                milestone_interval_minutes,
                on_tick,
                on_milestone,
                on_complete,
            );
            match report.outcome {
                PhaseOutcome::Complete => {
                    self.state_manager.advance();
                },
                PhaseOutcome::Cancelled => {
                    cancelled = true;
                },
            }
            phases.push(report);
        }
        Ok(
            SessionReport {
                outcome: if cancelled {
                    SessionOutcome::Cancelled
                } else {
                    SessionOutcome::Complete
                },
                phases,
            },
        )
    }
}

/// Runs a whole session on the settings `cli`, after the wizard's answers,
/// if there are any, have been taken over: from idling through every work
/// phase and break of the round, until the session idles again or is
/// interrupted. Settings on which no session can be run are refused before any
/// phase begins.
pub fn run<T, M, C>(
    cli: PomoFocusCli,
    answers: Option<&NotificationManager>,
    milestone_interval_minutes: u64,
    on_tick: &T,
    on_milestone: &M,
    on_complete: &C,
) -> (ran: Result<SessionReport, PomodoroError>) where
    T: Fn(u64, u64, PomofocusState) -> TickSignal,
    M: Fn(NotificationEvent) -> NotifyResult,
    C: Fn(NotificationEvent) -> NotifyResult,

    requires
        forall|elapsed: u64, total: u64, current: PomofocusState|
            call_requires(on_tick, (elapsed, total, current)),
        forall|event: NotificationEvent| call_requires(on_milestone, (event,)),
        forall|event: NotificationEvent| call_requires(on_complete, (event,)),
    ensures
        ran is Ok <==> cli.answered(answers).well_formed() && milestone_interval_minutes >= 1,
        ran matches Err(error) ==> error == PomodoroError::ConfigurationError,
        ran matches Ok(report) ==> ({
            let asked = cli.answered(answers);
            &&& report.is_run_from(
                SessionState::idle(asked.cycles as nat).begin(),
                asked.durations(),
                milestone_interval_minutes,
            )
            &&& report.is_driven_by(on_tick, on_milestone, on_complete)
            &&& never_cancels(on_tick) ==> report.outcome == SessionOutcome::Complete
        }),
{
    let mut asked = cli;
    match answers {
        Some(answers) => {
            asked.apply_wizard(answers);
        },
        None => {},
    }
    match App::new(asked) {
        Err(error) => Err(error),
        Ok(app) => {
            let mut app = app;
            app.run_timer_sequence(milestone_interval_minutes, on_tick, on_milestone, on_complete)
        },
    }
}

/// A session of `cycles` work phases per round that runs from idling to its
/// end starts work `cycles` times, a short break once less and the long break
/// once, as the last of all; it never starts idling.
pub proof fn lemma_complete_session_is_a_full_round(
    report: SessionReport,
    cycles: nat,
    durations: PhaseDurations,
    milestone_interval_minutes: u64,
)
    requires
        cycles >= 1,
        report.outcome == SessionOutcome::Complete,
        report.is_run_from(
            SessionState::idle(cycles).begin(),
            durations,
            milestone_interval_minutes,
        ),
    ensures
        report.phases_started() == SessionState::idle(cycles).phases_entered(2 * cycles),
        occurrences(report.phases_started(), PomofocusState::Work) == cycles,
        occurrences(report.phases_started(), PomofocusState::ShortBreak) == cycles - 1,
        occurrences(report.phases_started(), PomofocusState::LongBreak) == 1,
        occurrences(report.phases_started(), PomofocusState::Idle) == 0,
        report.phases_started().last() == PomofocusState::LongBreak,
{
    let idle = SessionState::idle(cycles);
    lemma_round_from_begin(cycles, 0);
    assert forall|i: int| 0 <= i < 2 * cycles implies report.phases_started()[i]
        == idle.phases_entered(2 * cycles)[i] by {
        lemma_round_from_begin(cycles, i as nat);
        assert(runs_phase_of(
            report.phases@[i],
            idle.begin().advance_by(i as nat).phase,
            durations,
            milestone_interval_minutes,
        ));
    }
    lemma_round_occurrences(cycles, 2 * cycles);
    lemma_round_trajectory(cycles, 2 * cycles);
}

} // verus!
