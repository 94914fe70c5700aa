//! The phase scheduler: which phase follows which, and how completed work
//! is counted towards the long break.

use crate::error::PomodoroError;
use vstd::prelude::*;
use vstd::string::StringExecFns;

verus! {

/// The phase of a pomodoro session: one of its segments, or idling between
/// them.
#[derive(Debug, Clone, Copy, PartialEq, Eq, Hash, Structural)]
pub enum PomofocusState {
    Work,
    ShortBreak,
    LongBreak,
    /// Default session state between other states.
    Idle,
}

impl PomofocusState {
    /// The name of the phase in words.
    pub open spec fn label_text(self) -> Seq<char> {
        match self {
            PomofocusState::Work => "Work"@,
            PomofocusState::ShortBreak => "Short Break"@,
            PomofocusState::LongBreak => "Long Break"@,
            PomofocusState::Idle => "Idle"@,
        }
    }

    /// The name of the phase in words.
    pub fn label(&self) -> (label: &'static str)
        ensures
            label@ == self.label_text(),
    {
        match self {
            PomofocusState::Work => "Work",
            PomofocusState::ShortBreak => "Short Break",
            PomofocusState::LongBreak => "Long Break",
            PomofocusState::Idle => "Idle",
        }
    }

    /// The sign shown when the phase begins; idling shows nothing.
    pub open spec fn sign_text(self) -> Seq<char> {
        match self {
            PomofocusState::Work => "💪🏻"@,
            PomofocusState::ShortBreak => "💤🏻"@,
            PomofocusState::LongBreak => "💤🏻💤🏻💤🏻"@,
            PomofocusState::Idle => ""@,
        }
    }

    /// The sign shown when the phase begins; idling shows nothing.
    pub fn sign(&self) -> (sign: &'static str)
        ensures
            sign@ == self.sign_text(),
    {
        match self {
            PomofocusState::Work => "💪🏻",
            PomofocusState::ShortBreak => "💤🏻",
            PomofocusState::LongBreak => "💤🏻💤🏻💤🏻",
            PomofocusState::Idle => "",
        }
    }
}

/// The phase that follows `current` when nothing is counted: work and short
/// breaks alternate, a long break ends in idling, idling ends in work.
pub open spec fn spec_next_phase(current: PomofocusState) -> PomofocusState {
    match current {
        PomofocusState::Idle => PomofocusState::Work,
        PomofocusState::Work => PomofocusState::ShortBreak,
        PomofocusState::ShortBreak => PomofocusState::Work,
        PomofocusState::LongBreak => PomofocusState::Idle,
    }
}

/// Computes the phase that follows `current` in the plain rotation.
#[verifier::when_used_as_spec(spec_next_phase)]
pub fn next_phase(current: PomofocusState) -> (next: PomofocusState)
    ensures
        next == spec_next_phase(current),
{
    match current {
        PomofocusState::Idle => PomofocusState::Work,
        PomofocusState::Work => PomofocusState::ShortBreak,
        PomofocusState::ShortBreak => PomofocusState::Work,
        PomofocusState::LongBreak => PomofocusState::Idle,
    }
}

/// The mathematical model of a session: the current phase, the number of
/// work phases that have fully elapsed, and the number of work phases that
/// make up one round.
pub struct SessionState {
    pub phase: PomofocusState,
    pub completed_work_count: nat,
    pub target_cycles: nat,
}

/// The number of work phases in a round when nothing else is configured.
pub const DEFAULT_WORK_CYCLES: u16 = 3;

impl SessionState {
    /// A session that has not started: idle, with nothing counted.
    pub open spec fn idle(target_cycles: nat) -> SessionState {
        SessionState { phase: PomofocusState::Idle, completed_work_count: 0, target_cycles }
    }

    /// What holds of every state a session passes through: the count never
    /// exceeds the target, a work phase still has room to be counted, a short
    /// break follows counted work that was not the last, a long break is
    /// entered exactly when the count has reached the target, and an idle
    /// session has nothing counted.
    pub open spec fn well_formed(self) -> bool {
        &&& self.target_cycles >= 1
        &&& self.completed_work_count <= self.target_cycles
        &&& match self.phase {
            PomofocusState::Idle => self.completed_work_count == 0,
            PomofocusState::Work => self.completed_work_count < self.target_cycles,
            PomofocusState::ShortBreak => 1 <= self.completed_work_count < self.target_cycles,
            PomofocusState::LongBreak => self.completed_work_count == self.target_cycles,
        }
    }

    /// The count once the current phase has elapsed: a work phase adds one.
    pub open spec fn count_after_phase(self) -> nat {
        if self.phase == PomofocusState::Work {
            self.completed_work_count + 1
        } else {
            self.completed_work_count
        }
    }

    /// The state after the current phase has elapsed. Finished work is
    /// counted first; the break after the last work phase of the round is the
    /// long one; leaving the long break clears the count.
    pub open spec fn advance(self) -> SessionState {
        let count = self.count_after_phase();
        let candidate = next_phase(self.phase);
        if candidate == PomofocusState::ShortBreak && count == self.target_cycles {
            SessionState { phase: PomofocusState::LongBreak, completed_work_count: count, ..self }
        } else if candidate == PomofocusState::Idle {
            SessionState { phase: PomofocusState::Idle, completed_work_count: 0, ..self }
        } else {
            SessionState { phase: candidate, completed_work_count: count, ..self }
        }
    }

    /// The state in which a session runs its first phase: an idle session
    /// begins with work, any other goes on where it stands.
    pub open spec fn begin(self) -> SessionState {
        if self.phase == PomofocusState::Idle {
            self.advance()
        } else {
            self
        }
    }

    /// The number of phases still to run before the session idles again.
    pub open spec fn steps_to_idle(self) -> nat {
        match self.phase {
            PomofocusState::Idle => 0,
            PomofocusState::Work => (2 * (self.target_cycles - self.completed_work_count)) as nat,
            PomofocusState::ShortBreak => (2 * (self.target_cycles - self.completed_work_count)
                + 1) as nat,
            PomofocusState::LongBreak => 1,
        }
    }

    /// The state after `steps` phases have elapsed one after another.
    pub open spec fn advance_by(self, steps: nat) -> SessionState
        decreases steps,
    {
        if steps == 0 {
            self
        } else {
            self.advance_by((steps - 1) as nat).advance()
        }
    }

    /// The phases entered by the first `steps` transitions, in order.
    pub open spec fn phases_entered(self, steps: nat) -> Seq<PomofocusState> {
        Seq::new(steps, |i: int| self.advance_by((i + 1) as nat).phase)
    }
}

/// The phase scheduler: where a session stands and how much work it has
/// counted. With three work phases to a round it goes through work, short
/// break, work, short break, work, long break.
#[derive(Debug, Clone, Copy, PartialEq, Eq, Structural)]
pub struct StateManager {
    pub state: PomofocusState,
    /// Work phases that have fully elapsed in this round.
    pub counter: u16,
    /// Work phases in one round.
    pub max_count: u16,
}

impl View for StateManager {
    type V = SessionState;

    open spec fn view(&self) -> SessionState {
        SessionState {
            phase: self.state,
            completed_work_count: self.counter as nat,
            target_cycles: self.max_count as nat,
        }
    }
}

impl StateManager {
    /// An idle session with the default number of work phases per round.
    pub fn new() -> (manager: Self)
        ensures
            manager@ == SessionState::idle(DEFAULT_WORK_CYCLES as nat),
            manager@.well_formed(),
    {
        StateManager { state: PomofocusState::Idle, counter: 0, max_count: DEFAULT_WORK_CYCLES }
    }

    /// An idle session with `cycles` work phases per round. A round without
    /// work could never reach its long break, so zero is refused.
    pub fn with_cycles(cycles: u16) -> (made: Result<Self, PomodoroError>)
        ensures
            cycles == 0 <==> made is Err,
            made matches Err(e) ==> e == PomodoroError::ConfigurationError,
            made matches Ok(manager) ==> manager@ == SessionState::idle(cycles as nat)
                && manager@.well_formed(),
    {
        if cycles == 0 {
            Err(PomodoroError::ConfigurationError)
        } else {
            Ok(StateManager { state: PomofocusState::Idle, counter: 0, max_count: cycles })
        }
    }

    /// Whether this session is in a state that a session can pass through.
    pub fn is_well_formed(&self) -> (ok: bool)
        ensures
            ok == self@.well_formed(),
    {
        self.max_count >= 1 && self.counter <= self.max_count && match self.state {
            PomofocusState::Idle => self.counter == 0,
            PomofocusState::Work => self.counter < self.max_count,
            PomofocusState::ShortBreak => 1 <= self.counter && self.counter < self.max_count,
            PomofocusState::LongBreak => self.counter == self.max_count,
        }
    }

    /// The phase that the plain rotation puts after the current one.
    pub fn check_next_state(&self) -> (next: PomofocusState)
        ensures
            next == next_phase(self.state),
    {
        next_phase(self.state)
    }

    /// The current phase.
    pub fn get_state(&self) -> (state: PomofocusState)
        ensures
            state == self.state,
    {
        self.state
    }

    /// Whether the session is in its long break.
    pub fn is_state_longbreak(&self) -> (long: bool)
        ensures
            long == (self.state == PomofocusState::LongBreak),
    {
        match self.state {
            PomofocusState::LongBreak => true,
            _ => false,
        }
    }

    /// The sign to show for the current phase.
    pub fn state_message(&self) -> (message: String)
        ensures
            message@ == self.state.sign_text(),
    {
        String::from_str(self.state.sign())
    }

    /// The work phases that will have fully elapsed once the current phase
    /// has: a work phase adds itself to those counted so far.
    pub fn count_after_phase(&self) -> (count: u16)
        requires
            self.state == PomofocusState::Work ==> self.counter < u16::MAX,
        ensures
            count == self@.count_after_phase(),
    {
        match self.state {
            PomofocusState::Work => self.counter + 1,
            PomofocusState::ShortBreak | PomofocusState::LongBreak | PomofocusState::Idle => {
                self.counter
            },
        }
    }

    /// Counts the current phase if it is work.
    fn next_counter(&mut self)
        requires
            old(self).state == PomofocusState::Work ==> old(self).counter < u16::MAX,
        ensures
            final(self)@.completed_work_count == old(self)@.count_after_phase(),
            final(self).state == old(self).state,
            final(self).max_count == old(self).max_count,
    {
        self.counter = self.count_after_phase();
    }

    /// Abandons the round: back to idling with nothing counted.
    pub fn reset(&mut self)
        ensures
            final(self)@ == SessionState::idle(old(self)@.target_cycles),
    {
        self.state = PomofocusState::Idle;
        self.reset_counter();
    }

    /// Clears the count of elapsed work phases.
    fn reset_counter(&mut self)
        ensures
            final(self).counter == 0,
            final(self).state == old(self).state,
            final(self).max_count == old(self).max_count,
    {
        self.counter = 0;
    }

    /// Sets the state that follows once the current phase has elapsed.
    /// Finished work is counted first; the break after the last work phase
    /// of the round is the long one; leaving the long break clears the count.
    pub fn set_next_state(&mut self)
        requires
            old(self).state == PomofocusState::Work ==> old(self).counter < u16::MAX,
        ensures
            final(self)@ == old(self)@.advance(),
            old(self)@.well_formed() ==> final(self)@.well_formed(),
    {
        self.next_counter();
        let mut candidate = self.check_next_state();
        if candidate == PomofocusState::ShortBreak && self.counter == self.max_count {
            candidate = PomofocusState::LongBreak;
        }
        if candidate == PomofocusState::Idle {
            self.reset_counter();
        }
        self.state = candidate;
    }

    /// Records that the current phase has elapsed and enters the next one,
    /// as `set_next_state` does.
    pub fn advance(&mut self)
        requires
            old(self).state == PomofocusState::Work ==> old(self).counter < u16::MAX,
        ensures
            final(self)@ == old(self)@.advance(),
            old(self)@.well_formed() ==> final(self)@.well_formed(),
    {
        self.set_next_state();
    }
}

/// How often `phase` occurs in `phases`.
pub open spec fn occurrences(phases: Seq<PomofocusState>, phase: PomofocusState) -> nat
    decreases phases.len(),
{
    if phases.len() == 0 {
        0
    } else {
        occurrences(phases.drop_last(), phase) + if phases.last() == phase {
            1nat
        } else {
            0nat
        }
    }
}

/// Where a round of `target_cycles` work phases stands after `steps`
/// transitions from idling: work on the odd steps and short breaks on the
/// even ones, each having counted half the steps, until the long break at
/// twice the target and idling again one step later.
pub open spec fn round_state(target_cycles: nat, steps: nat) -> SessionState {
    if steps == 0 || steps > 2 * target_cycles {
        SessionState::idle(target_cycles)
    } else if steps == 2 * target_cycles {
        SessionState {
            phase: PomofocusState::LongBreak,
            completed_work_count: target_cycles,
            target_cycles,
        }
    } else if steps % 2 == 1 {
        SessionState {
            phase: PomofocusState::Work,
            completed_work_count: steps / 2,
            target_cycles,
        }
    } else {
        SessionState {
            phase: PomofocusState::ShortBreak,
            completed_work_count: steps / 2,
            target_cycles,
        }
    }
}

/// Every transition keeps a session well formed.
pub proof fn lemma_advance_keeps_well_formed(state: SessionState)
    requires
        state.well_formed(),
    ensures
        state.advance().well_formed(),
        state.advance().target_cycles == state.target_cycles,
{
}

/// Every phase that elapses brings a running session one step nearer to
/// idling, and a round that begins has twice its target of phases to run.
pub proof fn lemma_advance_nears_idle(state: SessionState)
    requires
        state.well_formed(),
    ensures
        state.phase != PomofocusState::Idle ==> state.advance().steps_to_idle() + 1
            == state.steps_to_idle(),
        state.phase == PomofocusState::Idle ==> state.advance().steps_to_idle() == 2
            * state.target_cycles,
        state.steps_to_idle() == 0 <==> state.phase == PomofocusState::Idle,
{
}

/// A session that starts well formed stays so, whatever number of phases
/// elapse.
pub proof fn lemma_advance_by_keeps_well_formed(state: SessionState, steps: nat)
    requires
        state.well_formed(),
    ensures
        state.advance_by(steps).well_formed(),
        state.advance_by(steps).target_cycles == state.target_cycles,
    decreases steps,
{
    if steps > 0 {
        lemma_advance_by_keeps_well_formed(state, (steps - 1) as nat);
        lemma_advance_keeps_well_formed(state.advance_by((steps - 1) as nat));
    }
}

/// Two sessions that start in the same state pass through the same phases,
/// however many transitions are replayed.
pub proof fn lemma_replay_is_deterministic(first: SessionState, second: SessionState, steps: nat)
    requires
        first == second,
    ensures
        first.advance_by(steps) == second.advance_by(steps),
        first.phases_entered(steps) == second.phases_entered(steps),
{
}

/// From idling, a round goes through the states that `round_state` names.
/// Once the phase entered with the transition `steps` has elapsed, half of
/// `steps`, rounded up, work phases have.
pub proof fn lemma_round_trajectory(target_cycles: nat, steps: nat)
    requires
        target_cycles >= 1,
        steps <= 2 * target_cycles + 1,
    ensures
        SessionState::idle(target_cycles).advance_by(steps) == round_state(target_cycles, steps),
        steps <= 2 * target_cycles ==> round_state(target_cycles, steps).count_after_phase() == (
        steps + 1) / 2,
    decreases steps,
{
    if steps > 0 {
        lemma_round_trajectory(target_cycles, (steps - 1) as nat);
    }
}

/// Taking one transition first and `steps` more after it is the same as
/// taking `steps` and one transitions.
pub proof fn lemma_advance_by_shifts(state: SessionState, steps: nat)
    ensures
        state.advance().advance_by(steps) == state.advance_by(steps + 1),
    decreases steps,
{
    if steps > 0 {
        lemma_advance_by_shifts(state, (steps - 1) as nat);
    } else {
        assert(state.advance_by(1) == state.advance_by(0).advance());
    }
}

/// A round that begins from idling has twice its target of phases to run,
/// and the phase that it runs after `steps` of them is the one that the
/// scheduler enters with the transition after those.
pub proof fn lemma_round_from_begin(target_cycles: nat, steps: nat)
    requires
        target_cycles >= 1,
        steps <= 2 * target_cycles,
    ensures
        ({
            let idle = SessionState::idle(target_cycles);
            &&& idle.begin().steps_to_idle() == 2 * target_cycles
            &&& idle.begin().advance_by(steps) == round_state(target_cycles, steps + 1)
            &&& steps < 2 * target_cycles ==> idle.begin().advance_by(steps).phase
                == idle.phases_entered(2 * target_cycles)[steps as int]
        }),
{
    lemma_advance_by_shifts(SessionState::idle(target_cycles), steps);
    lemma_round_trajectory(target_cycles, steps + 1);
}

/// The phases that a round has entered after `steps` transitions hold a work
/// phase for every odd step and a short break for every even one, up to the
/// long break, and nothing is idle before the round is over.
pub proof fn lemma_round_occurrences(target_cycles: nat, steps: nat)
    requires
        target_cycles >= 1,
        steps <= 2 * target_cycles + 1,
    ensures
        ({
            let run = SessionState::idle(target_cycles).phases_entered(steps);
            &&& occurrences(run, PomofocusState::Work) == if steps < 2 * target_cycles {
                (steps + 1) / 2
            } else {
                target_cycles
            }
            &&& occurrences(run, PomofocusState::ShortBreak) == if steps < 2 * target_cycles {
                steps / 2
            } else {
                (target_cycles - 1) as nat
            }
            &&& occurrences(run, PomofocusState::LongBreak) == if steps < 2 * target_cycles {
                0nat
            } else {
                1nat
            }
            &&& occurrences(run, PomofocusState::Idle) == if steps <= 2 * target_cycles {
                0nat
            } else {
                1nat
            }
        }),
    decreases steps,
{
    let start = SessionState::idle(target_cycles);
    if steps > 0 {
        let before = (steps - 1) as nat;
        lemma_round_occurrences(target_cycles, before);
        lemma_round_trajectory(target_cycles, steps);
        assert(start.phases_entered(steps).drop_last() =~= start.phases_entered(before));
    }
}

/// A whole round of `target_cycles` work phases, run from idling, enters
/// work exactly `target_cycles` times, a short break once less, the long
/// break once, and ends idle again with nothing counted, after twice the
/// target and one transitions.
pub proof fn lemma_full_round(target_cycles: nat)
    requires
        target_cycles >= 1,
    ensures
        ({
            let start = SessionState::idle(target_cycles);
            let run = start.phases_entered(2 * target_cycles + 1);
            &&& occurrences(run, PomofocusState::Work) == target_cycles
            &&& occurrences(run, PomofocusState::ShortBreak) == target_cycles - 1
            &&& occurrences(run, PomofocusState::LongBreak) == 1
            &&& occurrences(run, PomofocusState::Idle) == 1
            &&& run.last() == PomofocusState::Idle
            &&& run[2 * target_cycles - 1] == PomofocusState::LongBreak
            &&& start.advance_by(2 * target_cycles + 1) == start
        }),
{
    lemma_round_occurrences(target_cycles, 2 * target_cycles + 1);
    lemma_round_trajectory(target_cycles, 2 * target_cycles + 1);
    lemma_round_trajectory(target_cycles, 2 * target_cycles);
}

} // verus!
