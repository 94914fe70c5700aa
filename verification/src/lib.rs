//! A pomodoro timer core: the session state machine, the per-phase clock
//! and the tick engine that decides when notifications are due.
//!
//! Nothing here sleeps, prints or shows a notification. The engine is
//! handed callbacks for that, and reports what it decided.

pub mod cli;
pub mod clock;
pub mod engine;
pub mod error;
pub mod event;
pub mod milestone;
pub mod notification;
pub mod session;
pub mod state;
pub mod text;

pub use cli::{CliCommands, PhaseDurations, PomoFocusCli};
pub use clock::{Clock, ElapsedClock};
pub use engine::{run_phase, PhaseOutcome, PhaseReport, TickEngine, TickSignal};
pub use error::{NotificationError, NotifyResult, ParseError, PomodoroError};
pub use event::{NotificationEvent, NotificationKind};
pub use milestone::{effective_interval, DEFAULT_MILESTONE_INTERVAL};
pub use notification::{NotificationManager, Timestamp};
pub use session::{run, App, SessionOutcome, SessionReport};
pub use state::{next_phase, PomofocusState, SessionState, StateManager, DEFAULT_WORK_CYCLES};
