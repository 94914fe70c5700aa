//! Announcements: what the engine hands to whoever shows or speaks them.

use crate::state::PomofocusState;
use crate::text::{decimal, push_decimal};
use vstd::prelude::*;
use vstd::string::StringExecFns;

verus! {

/// What an announcement is about.
#[derive(Debug, Clone, Copy, PartialEq, Eq, Hash, Structural)]
pub enum NotificationKind {
    /// A regular mark inside a running phase.
    Milestone,
    /// The phase has run its whole length.
    PhaseComplete,
}

/// An announcement for whoever shows or speaks notifications.
#[derive(Debug, Clone, Copy, PartialEq, Eq, Hash, Structural)]
pub struct NotificationEvent {
    pub kind: NotificationKind,
    pub phase: PomofocusState,
    /// Whole minutes of the phase that have elapsed.
    pub minutes: u64,
}

impl NotificationEvent {
    /// Whether this announces the end of a work phase, which is what the
    /// desktop is told besides.
    pub fn ends_work(&self) -> (ends: bool)
        ensures
            ends == (self.kind == NotificationKind::PhaseComplete && self.phase
                == PomofocusState::Work),
    {
        self.kind == NotificationKind::PhaseComplete && self.phase == PomofocusState::Work
    }

    /// The words of the announcement.
    pub open spec fn text(self) -> Seq<char> {
        match self.kind {
            NotificationKind::Milestone => decimal(self.minutes as nat) + " minutes over"@,
            NotificationKind::PhaseComplete => self.phase.label_text() + " session over"@,
        }
    }

    /// The words of the announcement, such as `5 minutes over` or
    /// `Work session over`.
    pub fn message(&self) -> (message: String)
        ensures
            message@ == self.text(),
    {
        match self.kind {
            NotificationKind::Milestone => {
                let mut message = String::new();
                push_decimal(&mut message, self.minutes);
                message.append(" minutes over");
                message
            },
            NotificationKind::PhaseComplete => {
                String::from_str(self.phase.label()).concat(" session over")
            },
        }
    }
}

} // verus!
