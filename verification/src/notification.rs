//! The desktop notification that ends a work session: what it says and
//! when the work and the break after it expire.

use crate::cli::PomoFocusCli;
use crate::text::{decimal, push_decimal};
use vstd::prelude::*;
use vstd::string::StringExecFns;

verus! {

/// Nanoseconds in a second.
pub const NANOS_PER_SECOND: u32 = 1_000_000_000;

/// The identifier that every notification of the timer carries.
pub const NOTIFICATION_ID: u16 = 1;

/// Milliseconds for which a notification stays on the screen.
pub const NOTIFICATION_TIMEOUT: u32 = 2000;

/// A moment in universal time: whole seconds since the start of 1970 and
/// the nanoseconds into that second.
#[derive(Debug, Clone, Copy, PartialEq, Eq, Hash, Structural)]
pub struct Timestamp {
    pub secs: i64,
    pub nanos: u32,
}

impl Timestamp {
    /// Whether this moment lies `minutes` minutes after `earlier`: sixty
    /// seconds on for every minute, at the same nanosecond.
    pub open spec fn is_minutes_after(self, earlier: Timestamp, minutes: int) -> bool {
        self.secs == earlier.secs + 60 * minutes && self.nanos == earlier.nanos
    }
}

/// The text that `chrono` displays for the moment in universal time that
/// lies `secs` seconds and `nanos` nanoseconds after the start of 1970, where
/// it has such a moment.
pub uninterp spec fn utc_text(secs: int, nanos: int) -> Option<Seq<char>>;

/// The seconds and nanoseconds of the moment that `chrono` finds `minutes`
/// minutes after the one that lies `secs` seconds and `nanos` nanoseconds
/// after the start of 1970, where it has both moments.
pub uninterp spec fn utc_after_minutes(secs: int, nanos: int, minutes: int) -> Option<(int, int)>;

/// Displays a moment through `chrono`: makes a `DateTime<Utc>` of it with
/// `DateTime::from_timestamp` and writes that out with its `Display`.
///
/// Not proved. The contract claims that the outcome depends on the moment
/// alone: whether there is a text, and which. It does not say what the text
/// is, nor for which moments there is one: `chrono` has none for a moment
/// outside the years it can name.
#[verifier::external_body]
fn render_utc(at: Timestamp) -> (text: Option<String>)
    ensures
        match text {
            Some(text) => utc_text(at.secs as int, at.nanos as int) == Some(text@),
            None => utc_text(at.secs as int, at.nanos as int) is None,
        },
{
    let moment = chrono::DateTime::from_timestamp(at.secs, at.nanos)?;
    Some(moment.to_string())
}

/// Adds minutes to a moment through `chrono`: makes a `DateTime<Utc>` of it
/// with `DateTime::from_timestamp`, adds a `TimeDelta::try_minutes` with
/// `DateTime::checked_add_signed`, and reads the seconds and nanoseconds of
/// the sum.
///
/// Not proved. The contract claims that the outcome depends on the moment
/// and the minutes alone, and that the sum, where there is one, lies sixty
/// seconds later for every minute and at the same nanosecond. That holds of
/// moments that are not inside a leap second, which the caller has to see
/// to. It does not say for which moments there is a sum: `chrono` has none
/// where the minutes or the sum are beyond what it can name.
#[verifier::external_body]
fn after_minutes(at: Timestamp, minutes: i64) -> (later: Option<Timestamp>)
    requires
        at.nanos < NANOS_PER_SECOND,
    ensures
        match later {
            Some(later) => utc_after_minutes(at.secs as int, at.nanos as int, minutes as int)
                == Some((later.secs as int, later.nanos as int)) && later.is_minutes_after(
                at,
                minutes as int,
            ),
            None => utc_after_minutes(at.secs as int, at.nanos as int, minutes as int) is None,
        },
{
    let moment = chrono::DateTime::from_timestamp(at.secs, at.nanos)?;
    let later = moment.checked_add_signed(chrono::TimeDelta::try_minutes(minutes)?)?;
    Some(Timestamp { secs: later.timestamp(), nanos: later.timestamp_subsec_nanos() })
}

/// What the desktop is asked to show when a work session is over.
#[derive(Debug, Clone, PartialEq, Eq)]
pub struct NotificationManager {
    pub id: u16,
    pub description: String,
    pub work_time: u16,
    pub short_break_time: u16,
    pub long_break_time: u16,
    pub created_at: Timestamp,
    pub work_expired_at: Timestamp,
    pub break_expired_at: Timestamp,
    pub body: String,
    pub icon: &'static str,
    /// In milliseconds
    pub timeout: u32,
    pub appname: &'static str,
}

impl NotificationManager {
    /// Whether this is the notification for a session with the settings
    /// `cli` that was created and expires at the given moments, with
    /// `expiry_text` as the text of the moment at which the work expires. The
    /// lengths of the phases are kept modulo 65536.
    pub open spec fn is_assembled_from(
        &self,
        cli: &PomoFocusCli,
        created_at: Timestamp,
        work_expired_at: Timestamp,
        break_expired_at: Timestamp,
        expiry_text: Seq<char>,
    ) -> bool {
        &&& self.id == NOTIFICATION_ID
        &&& self.description@ == "Work session over"@
        &&& self.work_time == cli.work_time % 65536
        &&& self.short_break_time == cli.short_break_time % 65536
        &&& self.long_break_time == cli.long_break_time % 65536
        &&& self.created_at == created_at
        &&& self.work_expired_at == work_expired_at
        &&& self.break_expired_at == break_expired_at
        &&& self.body@ == decimal(NOTIFICATION_ID as nat) + ","@ + expiry_text
        &&& self.icon@ == "alarm"@
        &&& self.timeout == NOTIFICATION_TIMEOUT
        &&& self.appname@ == "pompom"@
    }

    /// Puts the notification together from the settings, the moments and
    /// the text of the moment at which the work expires.
    pub fn assemble(
        cli: &PomoFocusCli,
        created_at: Timestamp,
        work_expired_at: Timestamp,
        break_expired_at: Timestamp,
        expiry_text: &str,
    ) -> (notification: NotificationManager)
        ensures
            notification.is_assembled_from(
                cli,
                created_at,
                work_expired_at,
                break_expired_at,
                expiry_text@,
            ),
    {
        let mut body = String::new();
        push_decimal(&mut body, NOTIFICATION_ID as u64);
        body.append(",");
        body.append(expiry_text);
        NotificationManager {
            id: NOTIFICATION_ID,
            description: String::from_str("Work session over"),
            work_time: (cli.work_time % 65536) as u16,
            short_break_time: (cli.short_break_time % 65536) as u16,
            long_break_time: (cli.long_break_time % 65536) as u16,
            created_at,
            work_expired_at,
            break_expired_at,
            body,
            icon: "alarm",
            timeout: NOTIFICATION_TIMEOUT,
            appname: "pompom",
        }
    }

    /// Whether there is a notification for a session with the settings `cli`
    /// that is created at `created_at`: the moment is not inside a leap
    /// second, the work phase and the short break are short enough to be added
    /// to a moment, and `chrono` has the moment at which the work expires, the
    /// moment at which the break after it does, and a text for the first.
    pub open spec fn can_be_made(cli: &PomoFocusCli, created_at: Timestamp) -> bool {
        &&& created_at.nanos < NANOS_PER_SECOND
        &&& cli.work_time <= i64::MAX
        &&& cli.short_break_time <= i64::MAX
        &&& utc_after_minutes(
            created_at.secs as int,
            created_at.nanos as int,
            cli.work_time as int,
        ) matches Some(work_expiry)
        &&& utc_after_minutes(work_expiry.0, work_expiry.1, cli.short_break_time as int) is Some
        &&& utc_text(work_expiry.0, work_expiry.1) is Some
    }

    /// The notification for a session with the settings `cli` that is
    /// created at `created_at`, where there can be one: the work expires a
    /// work phase later, the break a short break after that, and the body
    /// names the moment at which the work expires.
    pub fn new(cli: &PomoFocusCli, created_at: Timestamp) -> (made: Option<NotificationManager>)
        ensures
            made is Some <==> Self::can_be_made(cli, created_at),
            made matches Some(notification) ==> ({
                &&& notification.work_expired_at.is_minutes_after(
                    created_at,
                    cli.work_time as int,
                )
                &&& notification.break_expired_at.is_minutes_after(
                    notification.work_expired_at,
                    cli.short_break_time as int,
                )
                &&& utc_text(
                    notification.work_expired_at.secs as int,
                    notification.work_expired_at.nanos as int,
                ) matches Some(expiry_text)
                &&& notification.is_assembled_from(
                    cli,
                    created_at,
                    notification.work_expired_at,
                    notification.break_expired_at,
                    expiry_text,
                )
            }),
    {
        if created_at.nanos >= NANOS_PER_SECOND || cli.work_time > i64::MAX as u64
            || cli.short_break_time > i64::MAX as u64 {
            return None;
        }
        let work_expired_at = match after_minutes(created_at, cli.work_time as i64) {
            Some(moment) => moment,
            None => {
                return None;
            },
        };
        let break_expired_at = match after_minutes(work_expired_at, cli.short_break_time as i64) {
            Some(moment) => moment,
            None => {
                return None;
            },
        };
        match render_utc(work_expired_at) {
            Some(text) => Some(
                Self::assemble(cli, created_at, work_expired_at, break_expired_at, text.as_str()),
            ),
            None => None,
        }
    }

    /// Takes over what the wizard was told: the length of the work phase,
    /// and the lengths of the two breaks where they were asked for.
    pub fn with_answers(self, work_time: u16, breaks: Option<(u16, u16)>) -> (answered: Self)
        ensures
            answered == (NotificationManager {
                work_time,
                short_break_time: match breaks {
                    Some(times) => times.0,
                    None => self.short_break_time,
                },
                long_break_time: match breaks {
                    Some(times) => times.1,
                    None => self.long_break_time,
                },
                ..self
            }),
    {
        let mut answered = self;
        answered.work_time = work_time;
        match breaks {
            Some((short_break_time, long_break_time)) => {
                answered.short_break_time = short_break_time;
                answered.long_break_time = long_break_time;
            },
            None => {},
        }
        answered
    }
}

} // verus!
