//! The milestone policy: how far apart the milestones of a phase lie and
//! what a phase announces while its seconds pass.

use crate::clock::SECONDS_PER_MINUTE;
use crate::event::{NotificationEvent, NotificationKind};
use crate::state::PomofocusState;
use vstd::arithmetic::div_mod::{
    lemma_basic_div, lemma_div_basics, lemma_div_is_ordered, lemma_fundamental_div_mod,
    lemma_mod_bound,
};
use vstd::prelude::*;

verus! {

/// Minutes between two milestones when nothing else is configured.
pub const DEFAULT_MILESTONE_INTERVAL: u64 = 5;

/// The seconds between two milestones of a phase of `total_seconds`, where
/// one is asked for every `interval_minutes` minutes: that interval itself
/// where it fits into the phase, else as many whole minutes as do fit, and a
/// single second where not even one minute fits or none is asked for.
pub open spec fn effective_interval_seconds(total_seconds: nat, interval_minutes: nat) -> nat {
    let fitting = if interval_minutes * 60 <= total_seconds {
        interval_minutes
    } else {
        total_seconds / 60
    };
    if fitting == 0 {
        1
    } else {
        fitting * 60
    }
}

/// Computes the seconds between two milestones of a phase.
pub fn effective_interval(total_seconds: u64, interval_minutes: u64) -> (seconds: u64)
    ensures
        seconds == effective_interval_seconds(total_seconds as nat, interval_minutes as nat),
{
    let whole_minutes = total_seconds / SECONDS_PER_MINUTE;
    let fitting = if interval_minutes <= whole_minutes {
        interval_minutes
    } else {
        whole_minutes
    };
    if fitting == 0 {
        1
    } else {
        fitting * SECONDS_PER_MINUTE
    }
}

/// Whether a milestone is due once `elapsed_seconds` have passed: at every
/// multiple of the interval, but not at the start.
pub open spec fn is_milestone(elapsed_seconds: nat, interval_seconds: nat) -> bool {
    interval_seconds > 0 && elapsed_seconds != 0 && elapsed_seconds % interval_seconds == 0
}

/// The milestone announced once `elapsed_seconds` of `phase` have passed.
pub open spec fn milestone_event(phase: PomofocusState, elapsed_seconds: nat) -> NotificationEvent {
    NotificationEvent {
        kind: NotificationKind::Milestone,
        phase,
        minutes: (elapsed_seconds / 60) as u64,
    }
}

/// The announcement that `phase` has run its `total_seconds`.
pub open spec fn completion_event(phase: PomofocusState, total_seconds: nat) -> NotificationEvent {
    NotificationEvent {
        kind: NotificationKind::PhaseComplete,
        phase,
        minutes: (total_seconds / 60) as u64,
    }
}

/// The milestones announced during the first `ticks` seconds, in order.
pub open spec fn milestones_until(
    phase: PomofocusState,
    interval_seconds: nat,
    ticks: nat,
) -> Seq<NotificationEvent>
    decreases ticks,
{
    if ticks == 0 {
        Seq::empty()
    } else {
        let before = milestones_until(phase, interval_seconds, (ticks - 1) as nat);
        if is_milestone(ticks, interval_seconds) {
            before.push(milestone_event(phase, ticks))
        } else {
            before
        }
    }
}

/// Everything announced by a phase that ran for `ticks` seconds: its
/// milestones, and last of all its completion if it ran to its end.
pub open spec fn phase_events(
    phase: PomofocusState,
    total_seconds: nat,
    interval_seconds: nat,
    ticks: nat,
    complete: bool,
) -> Seq<NotificationEvent> {
    if complete {
        milestones_until(phase, interval_seconds, ticks).push(
            completion_event(phase, total_seconds),
        )
    } else {
        milestones_until(phase, interval_seconds, ticks)
    }
}

/// The effective interval is at least one second, never longer than a phase
/// that lasts at all, and never longer than what was asked for unless it is
/// the single second.
pub proof fn lemma_effective_interval_fits(total_seconds: nat, interval_minutes: nat)
    ensures
        effective_interval_seconds(total_seconds, interval_minutes) >= 1,
        total_seconds >= 1 ==> effective_interval_seconds(total_seconds, interval_minutes)
            <= total_seconds,
        effective_interval_seconds(total_seconds, interval_minutes) <= interval_minutes * 60
            || effective_interval_seconds(total_seconds, interval_minutes) == 1,
{
}

/// No span of whole minutes that is within what was asked for and within
/// the phase is longer than the effective interval.
pub proof fn lemma_effective_interval_is_longest(
    total_seconds: nat,
    interval_minutes: nat,
    minutes: nat,
)
    requires
        1 <= minutes <= interval_minutes,
        minutes * 60 <= total_seconds,
    ensures
        minutes * 60 <= effective_interval_seconds(total_seconds, interval_minutes),
{
}

/// How the number of whole intervals that have passed changes with one more
/// second: it grows by one where the second completes an interval, and stays
/// where it does not.
proof fn lemma_whole_intervals_step(ticks: nat, interval_seconds: nat)
    requires
        ticks >= 1,
        interval_seconds >= 1,
    ensures
        ({
            let passed = ticks / interval_seconds;
            let passed_before = (ticks - 1) / (interval_seconds as int);
            if ticks % interval_seconds == 0 {
                passed == passed_before + 1 && passed * interval_seconds == ticks
            } else {
                passed == passed_before
            }
        }),
{
    let d = interval_seconds as int;
    let t = ticks as int;
    lemma_fundamental_div_mod(t, d);
    lemma_fundamental_div_mod(t - 1, d);
    lemma_mod_bound(t, d);
    lemma_mod_bound(t - 1, d);
    let q = t / d;
    let p = (t - 1) / d;
    if t % d == 0 {
        assert(q == p + 1) by (nonlinear_arith)
            requires
                d >= 1,
                d * q == d * p + (t - 1) % d + 1,
                0 <= (t - 1) % d < d,
        ;
        assert(q * d == t) by (nonlinear_arith)
            requires
                t == d * q + t % d,
                t % d == 0,
        ;
    } else {
        assert(q == p) by (nonlinear_arith)
            requires
                d >= 1,
                d * q + t % d == d * p + (t - 1) % d + 1,
                0 < t % d < d,
                0 <= (t - 1) % d < d,
        ;
    }
}

/// The milestones of a phase lie one interval apart: after `ticks` seconds
/// as many have been announced as whole intervals have passed, and each is
/// the one that is due at the end of its interval.
pub proof fn lemma_milestones_are_evenly_spaced(
    phase: PomofocusState,
    interval_seconds: nat,
    ticks: nat,
)
    requires
        interval_seconds >= 1,
    ensures
        milestones_until(phase, interval_seconds, ticks).len() == ticks / interval_seconds,
        forall|k: int|
            0 <= k < ticks / interval_seconds ==> #[trigger] milestones_until(
                phase,
                interval_seconds,
                ticks,
            )[k] == milestone_event(phase, ((k + 1) * interval_seconds) as nat),
    decreases ticks,
{
    if ticks > 0 {
        lemma_milestones_are_evenly_spaced(phase, interval_seconds, (ticks - 1) as nat);
        lemma_whole_intervals_step(ticks, interval_seconds);
    } else {
        lemma_basic_div(0, interval_seconds as int);
    }
}

/// A phase that does not run to its end announces milestones of its own and
/// nothing else: no completion is among them.
pub proof fn lemma_interrupted_phase_announces_no_completion(
    phase: PomofocusState,
    total_seconds: nat,
    interval_seconds: nat,
    ticks: nat,
)
    ensures
        ({
            let events = phase_events(phase, total_seconds, interval_seconds, ticks, false);
            forall|i: int|
                0 <= i < events.len() ==> (#[trigger] events[i]).kind
                    == NotificationKind::Milestone && events[i].phase == phase
        }),
    decreases ticks,
{
    if ticks > 0 {
        lemma_interrupted_phase_announces_no_completion(
            phase,
            total_seconds,
            interval_seconds,
            (ticks - 1) as nat,
        );
    }
}

/// A phase that lasts at all and runs to its end announces at least one
/// milestone before its completion, however long the interval asked for is.
pub proof fn lemma_milestone_before_completion(
    phase: PomofocusState,
    total_seconds: nat,
    interval_minutes: nat,
)
    requires
        total_seconds >= 1,
    ensures
        ({
            let events = phase_events(
                phase,
                total_seconds,
                effective_interval_seconds(total_seconds, interval_minutes),
                total_seconds,
                true,
            );
            &&& events.len() >= 2
            &&& events[0] == milestone_event(
                phase,
                effective_interval_seconds(total_seconds, interval_minutes),
            )
            &&& events.last() == completion_event(phase, total_seconds)
        }),
{
    let interval_seconds = effective_interval_seconds(total_seconds, interval_minutes);
    lemma_effective_interval_fits(total_seconds, interval_minutes);
    lemma_milestones_are_evenly_spaced(phase, interval_seconds, total_seconds);
    lemma_div_is_ordered(interval_seconds as int, total_seconds as int, interval_seconds as int);
    lemma_div_basics(interval_seconds as int);
}

} // verus!
