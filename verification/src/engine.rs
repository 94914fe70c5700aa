//! The tick engine: drives one phase second by second, asks the milestone
//! policy what is due, and hands the announcements on.

use crate::clock::{seconds_of, Clock, ElapsedClock, SECONDS_PER_MINUTE};
use crate::error::NotifyResult;
use crate::event::{NotificationEvent, NotificationKind};
use crate::milestone::{
    completion_event, effective_interval, effective_interval_seconds, is_milestone,
    milestone_event, milestones_until, phase_events,
};
use crate::state::PomofocusState;
use vstd::prelude::*;

verus! {

/// The mathematical model of the engine while it drives one phase.
pub struct EngineState {
    pub phase: PomofocusState,
    pub clock: ElapsedClock,
    pub interval_seconds: nat,
}

impl EngineState {
    /// The engine at the start of a phase.
    pub open spec fn start(
        phase: PomofocusState,
        duration_minutes: nat,
        interval_minutes: nat,
    ) -> EngineState {
        EngineState {
            phase,
            clock: ElapsedClock::from_minutes(duration_minutes),
            interval_seconds: effective_interval_seconds(
                seconds_of(duration_minutes),
                interval_minutes,
            ),
        }
    }

    /// The engine one second later.
    pub open spec fn tick(self) -> EngineState {
        EngineState { clock: self.clock.tick(1), ..self }
    }

    /// The milestone that the next second brings, if the phase is still
    /// running and that second is a multiple of the interval.
    pub open spec fn milestone_on_tick(self) -> Option<NotificationEvent> {
        if !self.clock.is_complete() && is_milestone(
            self.clock.elapsed_seconds + 1,
            self.interval_seconds,
        ) {
            Some(milestone_event(self.phase, self.clock.elapsed_seconds + 1))
        } else {
            None
        }
    }
}

/// Drives the countdown of one phase.
#[derive(Debug, Clone, Copy, PartialEq, Eq, Structural)]
pub struct TickEngine {
    pub phase: PomofocusState,
    pub clock: Clock,
    /// Seconds between two milestones.
    pub interval_seconds: u64,
}

impl View for TickEngine {
    type V = EngineState;

    open spec fn view(&self) -> EngineState {
        EngineState {
            phase: self.phase,
            clock: self.clock@,
            interval_seconds: self.interval_seconds as nat,
        }
    }
}

impl TickEngine {
    /// An engine at the start of a phase of `duration_minutes`, with a
    /// milestone asked for every `milestone_interval_minutes`.
    pub fn new(
        phase: PomofocusState,
        duration_minutes: u64,
        milestone_interval_minutes: u64,
    ) -> (engine: TickEngine)
        ensures
            engine@ == EngineState::start(
                phase,
                duration_minutes as nat,
                milestone_interval_minutes as nat,
            ),
    {
        let clock = Clock::from_minutes(duration_minutes);
        let interval_seconds = effective_interval(clock.total_seconds, milestone_interval_minutes);
        TickEngine { phase, clock, interval_seconds }
    }

    /// Lets one second pass and says which milestone it brought, if any.
    /// Once the phase is complete nothing changes and nothing is announced.
    pub fn tick(&mut self) -> (milestone: Option<NotificationEvent>)
        ensures
            final(self)@ == old(self)@.tick(),
            milestone == old(self)@.milestone_on_tick(),
    {
        let running = !self.clock.is_complete();
        self.clock.tick(1);
        let elapsed = self.clock.elapsed_seconds;
        if running && self.interval_seconds != 0 && elapsed % self.interval_seconds == 0 {
            Some(
                NotificationEvent {
                    kind: NotificationKind::Milestone,
                    phase: self.phase,
                    minutes: elapsed / SECONDS_PER_MINUTE,
                },
            )
        } else {
            None
        }
    }

    /// Whether the phase has run its whole length.
    pub fn is_complete(&self) -> (complete: bool)
        ensures
            complete == self@.clock.is_complete(),
    {
        self.clock.is_complete()
    }

    /// The announcement that ends the phase.
    pub fn completion(&self) -> (event: NotificationEvent)
        ensures
            event == completion_event(self.phase, self@.clock.total_seconds),
    {
        NotificationEvent {
            kind: NotificationKind::PhaseComplete,
            phase: self.phase,
            minutes: self.clock.total_seconds / SECONDS_PER_MINUTE,
        }
    }
}

/// What the time source says at a tick boundary.
#[derive(Debug, Clone, Copy, PartialEq, Eq, Hash, Structural)]
pub enum TickSignal {
    /// One more tick has passed.
    Continue,
    /// The user has interrupted the phase.
    Cancel,
}

/// How a phase ended.
#[derive(Debug, Clone, Copy, PartialEq, Eq, Hash, Structural)]
pub enum PhaseOutcome {
    /// The phase ran its whole length.
    Complete,
    /// The phase was interrupted before its end.
    Cancelled,
}

/// What happened while a phase ran.
#[derive(Debug, Clone, PartialEq, Eq)]
pub struct PhaseReport {
    pub phase: PomofocusState,
    pub outcome: PhaseOutcome,
    pub elapsed_seconds: u64,
    pub total_seconds: u64,
    /// Everything that was announced, in order.
    pub events: Vec<NotificationEvent>,
    /// What became of each announcement, in the same order.
    pub deliveries: Vec<NotifyResult>,
}

impl PhaseReport {
    /// Whether this is what a run of `phase` reports, for a phase of
    /// `duration_minutes` with a milestone asked for every
    /// `interval_minutes`: the phase is complete exactly when all its seconds
    /// have elapsed, and what was announced is what the seconds that did
    /// elapse call for.
    pub open spec fn is_run_of(
        &self,
        phase: PomofocusState,
        duration_minutes: nat,
        interval_minutes: nat,
    ) -> bool {
        &&& self.phase == phase
        &&& self.total_seconds == seconds_of(duration_minutes)
        &&& self.elapsed_seconds <= self.total_seconds
        &&& (self.outcome == PhaseOutcome::Complete <==> self.elapsed_seconds
            == self.total_seconds)
        &&& self.events@ == phase_events(
            phase,
            self.total_seconds as nat,
            effective_interval_seconds(self.total_seconds as nat, interval_minutes),
            self.elapsed_seconds as nat,
            self.outcome == PhaseOutcome::Complete,
        )
    }

    /// Whether `on_tick` let every second that elapsed pass, and asked for
    /// the interruption if there was one.
    pub open spec fn is_timed_by<T>(&self, on_tick: &T) -> bool where
        T: Fn(u64, u64, PomofocusState) -> TickSignal,
    {
        &&& forall|elapsed: u64|
            elapsed < self.elapsed_seconds ==> call_ensures(
                on_tick,
                (elapsed, self.total_seconds, self.phase),
                TickSignal::Continue,
            )
        &&& self.outcome == PhaseOutcome::Cancelled ==> call_ensures(
            on_tick,
            (self.elapsed_seconds, self.total_seconds, self.phase),
            TickSignal::Cancel,
        )
    }

    /// Whether every announcement was handed to the callback meant for it,
    /// and what is recorded of it is what the callback answered: milestones
    /// went to `on_milestone`, the completion to `on_complete`.
    pub open spec fn is_delivered_through<M, C>(&self, on_milestone: &M, on_complete: &C) -> bool
        where
            M: Fn(NotificationEvent) -> NotifyResult,
            C: Fn(NotificationEvent) -> NotifyResult,
    {
        &&& self.deliveries@.len() == self.events@.len()
        &&& forall|i: int|
            0 <= i < self.events@.len() && self.events@[i].kind == NotificationKind::Milestone
                ==> call_ensures(on_milestone, (self.events@[i],), #[trigger] self.deliveries@[i])
        &&& forall|i: int|
            0 <= i < self.events@.len() && self.events@[i].kind
                == NotificationKind::PhaseComplete ==> call_ensures(
                on_complete,
                (self.events@[i],),
                #[trigger] self.deliveries@[i],
            )
    }
}

/// Whether `events` are milestones only, each handed to `on_milestone`, with
/// `deliveries` as what it answered.
spec fn milestones_delivered<M: Fn(NotificationEvent) -> NotifyResult>(
    events: Seq<NotificationEvent>,
    deliveries: Seq<NotifyResult>,
    on_milestone: &M,
) -> bool {
    &&& deliveries.len() == events.len()
    &&& forall|i: int|
        0 <= i < events.len() ==> events[i].kind == NotificationKind::Milestone && call_ensures(
            on_milestone,
            (events[i],),
            #[trigger] deliveries[i],
        )
}

/// Whether `on_tick` lets every tick pass.
pub open spec fn never_cancels<T: Fn(u64, u64, PomofocusState) -> TickSignal>(on_tick: &T) -> bool {
    forall|elapsed: u64, total: u64, phase: PomofocusState, signal: TickSignal|
        call_ensures(on_tick, (elapsed, total, phase), signal) ==> signal == TickSignal::Continue
}

/// Runs one phase from its start. Before every second `on_tick` is handed
/// the seconds elapsed so far, the total and the phase; it lets the second
/// pass and answers whether the phase goes on. Each milestone goes to
/// `on_milestone`, and the completion, if the phase was not interrupted, to
/// `on_complete`. An announcement that cannot be delivered is recorded as
/// such and the phase runs on.
pub fn run_phase<T, M, C>(
    phase: PomofocusState,
    duration_minutes: u64,
    milestone_interval_minutes: u64,
    on_tick: &T,
    on_milestone: &M,
    on_complete: &C,
) -> (report: PhaseReport) where
    T: Fn(u64, u64, PomofocusState) -> TickSignal,
    M: Fn(NotificationEvent) -> NotifyResult,
    C: Fn(NotificationEvent) -> NotifyResult,

    requires
        forall|elapsed: u64, total: u64, current: PomofocusState|
            call_requires(on_tick, (elapsed, total, current)),
        forall|event: NotificationEvent| call_requires(on_milestone, (event,)),
        forall|event: NotificationEvent| call_requires(on_complete, (event,)),
    ensures
        report.is_run_of(phase, duration_minutes as nat, milestone_interval_minutes as nat),
        report.is_timed_by(on_tick),
        report.is_delivered_through(on_milestone, on_complete),
        never_cancels(on_tick) ==> report.outcome == PhaseOutcome::Complete,
{
    let mut engine = TickEngine::new(phase, duration_minutes, milestone_interval_minutes);
    let total = engine.clock.total_seconds;
    let ghost interval = engine.interval_seconds as nat;
    let mut events: Vec<NotificationEvent> = Vec::new();
    let mut deliveries: Vec<NotifyResult> = Vec::new();
    let mut cancelled = false;
    while !cancelled && !engine.is_complete()
        invariant
            engine.phase == phase,
            engine.interval_seconds as nat == interval,
            engine.clock.total_seconds == total,
            engine.clock.elapsed_seconds <= total,
            events@ == milestones_until(phase, interval, engine.clock.elapsed_seconds as nat),
            milestones_delivered(events@, deliveries@, on_milestone),
            forall|elapsed: u64|
                elapsed < engine.clock.elapsed_seconds ==> call_ensures(
                    on_tick,
                    (elapsed, total, phase),
                    TickSignal::Continue,
                ),
            cancelled ==> engine.clock.elapsed_seconds < total && call_ensures(
                on_tick,
                (engine.clock.elapsed_seconds, total, phase),
                TickSignal::Cancel,
            ),
            forall|elapsed: u64, total: u64, current: PomofocusState|
                call_requires(on_tick, (elapsed, total, current)),
            forall|event: NotificationEvent| call_requires(on_milestone, (event,)),
        decreases total - engine.clock.elapsed_seconds + (if cancelled { 0int } else { 1int }),
    {
        match on_tick(engine.clock.elapsed_seconds, total, phase) {
            TickSignal::Cancel => {
                cancelled = true;
            },
            TickSignal::Continue => {
                match engine.tick() {
                    Some(event) => {
                        let ghost events_before = events@;
                        let ghost deliveries_before = deliveries@;
                        events.push(event);
                        deliveries.push(on_milestone(event));
                        assert(milestones_delivered(events@, deliveries@, on_milestone)) by {
                            assert forall|i: int| 0 <= i < events@.len() implies events@[i].kind
                                == NotificationKind::Milestone && call_ensures(
                                on_milestone,
                                (events@[i],),
                                #[trigger] deliveries@[i],
                            ) by {
                                if i < events_before.len() {
                                    assert(deliveries@[i] == deliveries_before[i]);
                                }
                            }
                        }
                    },
                    None => {},
                }
            },
        }
    }
    if !cancelled {
        let ghost events_before = events@;
        let ghost deliveries_before = deliveries@;
        let event = engine.completion();
        events.push(event);
        deliveries.push(on_complete(event));
        assert forall|i: int| 0 <= i < events_before.len() implies events@[i].kind
            == NotificationKind::Milestone && call_ensures(
            on_milestone,
            (events@[i],),
            #[trigger] deliveries@[i],
        ) by {
            assert(deliveries@[i] == deliveries_before[i]);
        }
    }
    PhaseReport {
        phase,
        outcome: if cancelled {
            PhaseOutcome::Cancelled
        } else {
            PhaseOutcome::Complete
        },
        elapsed_seconds: engine.clock.elapsed_seconds,
        total_seconds: total,
        events,
        deliveries,
    }
}

} // verus!
