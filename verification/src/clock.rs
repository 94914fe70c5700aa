//! The countdown of a single phase.

use crate::text::{push_two_places, two_places};
use vstd::prelude::*;
use vstd::string::StringExecFns;

verus! {

/// Seconds in a minute.
pub const SECONDS_PER_MINUTE: u64 = 60;

/// The longest phase, in minutes, whose length in seconds can be counted.
pub const MAX_MINUTES: u64 = 307445734561825860;

/// The seconds that `minutes` minutes last, as far as they can be counted:
/// sixty for each minute, and no more than the largest count there is.
pub open spec fn seconds_of(minutes: nat) -> nat {
    if minutes * 60 <= u64::MAX {
        minutes * 60
    } else {
        u64::MAX as nat
    }
}

/// The mathematical model of a phase's countdown.
pub struct ElapsedClock {
    pub total_seconds: nat,
    pub elapsed_seconds: nat,
}

impl ElapsedClock {
    /// A countdown of `minutes` minutes on which no time has passed.
    pub open spec fn from_minutes(minutes: nat) -> ElapsedClock {
        ElapsedClock { total_seconds: seconds_of(minutes), elapsed_seconds: 0 }
    }

    /// The countdown after `increment_seconds` more seconds: the elapsed
    /// time grows by that much, but never beyond the total.
    pub open spec fn tick(self, increment_seconds: nat) -> ElapsedClock {
        if self.elapsed_seconds + increment_seconds >= self.total_seconds {
            ElapsedClock { elapsed_seconds: self.total_seconds, ..self }
        } else {
            ElapsedClock { elapsed_seconds: self.elapsed_seconds + increment_seconds, ..self }
        }
    }

    /// The countdown after each of `increments` has been applied in turn.
    pub open spec fn tick_all(self, increments: Seq<nat>) -> ElapsedClock
        decreases increments.len(),
    {
        if increments.len() == 0 {
            self
        } else {
            self.tick_all(increments.drop_last()).tick(increments.last())
        }
    }

    /// Whether the whole phase has elapsed.
    pub open spec fn is_complete(self) -> bool {
        self.elapsed_seconds >= self.total_seconds
    }

    /// The seconds still to run, zero once the phase has elapsed.
    pub open spec fn remaining_seconds(self) -> nat {
        if self.elapsed_seconds >= self.total_seconds {
            0
        } else {
            (self.total_seconds - self.elapsed_seconds) as nat
        }
    }

    /// The clock face: minutes and seconds still to run, each on at least
    /// two places. Minutes are not folded into hours.
    pub open spec fn face(self) -> Seq<char> {
        two_places(self.remaining_seconds() / 60) + seq![':'] + two_places(
            self.remaining_seconds() % 60,
        )
    }
}

/// The countdown of one phase.
#[derive(Debug, Clone, Copy, PartialEq, Eq, Structural)]
pub struct Clock {
    pub total_seconds: u64,
    pub elapsed_seconds: u64,
}

impl View for Clock {
    type V = ElapsedClock;

    open spec fn view(&self) -> ElapsedClock {
        ElapsedClock {
            total_seconds: self.total_seconds as nat,
            elapsed_seconds: self.elapsed_seconds as nat,
        }
    }
}

impl Clock {
    /// A countdown of `minutes` minutes on which no time has passed. The
    /// seconds of a phase too long to be counted stop at the largest count.
    pub fn from_minutes(minutes: u64) -> (clock: Clock)
        ensures
            clock@ == ElapsedClock::from_minutes(minutes as nat),
    {
        let total_seconds = if minutes <= MAX_MINUTES {
            minutes * SECONDS_PER_MINUTE
        } else {
            u64::MAX
        };
        Clock { total_seconds, elapsed_seconds: 0 }
    }

    /// Lets `increment_seconds` pass. The elapsed time stops at the total.
    pub fn tick(&mut self, increment_seconds: u64)
        ensures
            final(self)@ == old(self)@.tick(increment_seconds as nat),
            final(self)@.elapsed_seconds <= final(self)@.total_seconds,
    {
        if self.elapsed_seconds >= self.total_seconds {
            self.elapsed_seconds = self.total_seconds;
        } else {
            let room = self.total_seconds - self.elapsed_seconds;
            if increment_seconds >= room {
                self.elapsed_seconds = self.total_seconds;
            } else {
                self.elapsed_seconds = self.elapsed_seconds + increment_seconds;
            }
        }
    }

    /// Whether the whole phase has elapsed.
    pub fn is_complete(&self) -> (complete: bool)
        ensures
            complete == self@.is_complete(),
    {
        self.elapsed_seconds >= self.total_seconds
    }

    /// The seconds still to run, zero once the phase has elapsed.
    pub fn remaining_seconds(&self) -> (remaining: u64)
        ensures
            remaining == self@.remaining_seconds(),
    {
        if self.elapsed_seconds >= self.total_seconds {
            0
        } else {
            self.total_seconds - self.elapsed_seconds
        }
    }

    /// The clock face, such as `04:59` or `125:00`.
    pub fn format(&self) -> (face: String)
        ensures
            face@ == self@.face(),
    {
        let remaining = self.remaining_seconds();
        let mut face = String::new();
        push_two_places(&mut face, remaining / SECONDS_PER_MINUTE);
        proof {
            reveal_strlit(":");
        }
        face.append(":");
        push_two_places(&mut face, remaining % SECONDS_PER_MINUTE);
        face
    }
}

/// However many increments are applied and however large they are, the
/// total stays what it was and the elapsed time never passes it: from the
/// first increment on in any case, and from the start for a clock that was
/// within its total. On such a clock the elapsed time never runs backwards.
pub proof fn lemma_ticks_saturate(clock: ElapsedClock, increments: Seq<nat>)
    ensures
        clock.tick_all(increments).total_seconds == clock.total_seconds,
        increments.len() >= 1 || clock.elapsed_seconds <= clock.total_seconds ==> clock.tick_all(
            increments,
        ).elapsed_seconds <= clock.total_seconds,
        clock.elapsed_seconds <= clock.total_seconds ==> clock.elapsed_seconds <= clock.tick_all(
            increments,
        ).elapsed_seconds,
    decreases increments.len(),
{
    if increments.len() > 0 {
        lemma_ticks_saturate(clock, increments.drop_last());
    }
}

} // verus!
