//! The war clock and the ticket watch: when the war starts, what the
//! countdown shows, and how each availability poll is answered.
use std::sync::Arc;
use vstd::prelude::*;
use vstd::string::*;

use crate::autofill::SELECTOR_LIST_HEAD;
use crate::config::{append_escaped, Config};
use crate::error::{AppError, ErrorView};
use crate::notification::Notifier;
use crate::text::{escape_quotes, two_digit_text, two_digits};

verus! {

/// An instant as whole seconds since the Unix epoch plus the nanoseconds
/// past that second (above 999 999 999 only inside a leap second), the way
/// `chrono` reports it.
#[derive(Debug, Clone, Copy, PartialEq, Eq, Structural)]
pub struct ClockInstant {
    pub secs: i64,
    pub nanos: u32,
}

/// What `DateTime::parse_from_rfc3339` gives for a text: the instant it names
/// as (seconds since the epoch, nanoseconds past that second), or the text
/// of its parse error.
pub uninterp spec fn rfc3339_parse(text: Seq<char>) -> Result<(int, int), Seq<char>>;

/// The whole seconds from the instant `(earlier_secs, earlier_nanos)` to the
/// instant `(later_secs, later_nanos)`, rounded toward zero, as `chrono`
/// measures them; `None` when a pair names no instant.
pub uninterp spec fn seconds_between(
    later_secs: int,
    later_nanos: int,
    earlier_secs: int,
    earlier_nanos: int,
) -> Option<int>;

/// `chrono::DateTime::parse_from_rfc3339`, read back through `timestamp` and
/// `timestamp_subsec_nanos`; the error through its `Display` text.
#[verifier::external_body]
fn parse_rfc3339(text: &str) -> (r: Result<ClockInstant, String>)
    ensures
        match r {
            Ok(i) => rfc3339_parse(text@) == Ok::<(int, int), Seq<char>>(
                (i.secs as int, i.nanos as int),
            ),
            Err(m) => rfc3339_parse(text@) == Err::<(int, int), Seq<char>>(m@),
        },
{
    match chrono::DateTime::parse_from_rfc3339(text) {
        Ok(d) => Ok(ClockInstant { secs: d.timestamp(), nanos: d.timestamp_subsec_nanos() }),
        Err(e) => Err(e.to_string()),
    }
}

/// `chrono::DateTime::from_timestamp` on both instants, then
/// `signed_duration_since` and `TimeDelta::num_seconds`.
#[verifier::external_body]
fn whole_seconds_between(later: ClockInstant, earlier: ClockInstant) -> (r: Option<i64>)
    ensures
        match r {
            Some(n) => seconds_between(
                later.secs as int,
                later.nanos as int,
                earlier.secs as int,
                earlier.nanos as int,
            ) == Some(n as int),
            None => seconds_between(
                later.secs as int,
                later.nanos as int,
                earlier.secs as int,
                earlier.nanos as int,
            ) is None,
        },
{
    let a = chrono::DateTime::from_timestamp(later.secs, later.nanos);
    let b = chrono::DateTime::from_timestamp(earlier.secs, earlier.nanos);
    match (a, b) {
        (Some(x), Some(y)) => Some(x.signed_duration_since(y).num_seconds()),
        _ => None,
    }
}

/// The pause, in milliseconds, between two countdown ticks.
pub const COUNTDOWN_TICK_MS: u64 = 100;

/// The pause, in milliseconds, after the page is reloaded at war time.
pub const WAR_RELOAD_SETTLE_MS: u64 = 500;

/// Every how many polls the watch reports its progress.
pub const PROGRESS_EVERY: u64 = 100;

/// Every how many polls a failed poll also reloads the page.
pub const RELOAD_EVERY: u64 = 50;

/// The pause, in milliseconds, after the watch reloads the page.
pub const RELOAD_SETTLE_MS: u64 = 1000;

/// The script that reloads the page.
pub const RELOAD_JS: &'static str = "location.reload()";

pub const WAR_TIME_MESSAGE: &'static str = "🚀 WAR TIME STARTED!";

pub const TICKET_DETECTED_MESSAGE: &'static str = "🎫 TICKET DETECTED! Auto-checkout starting...";

pub const WATCH_TAIL: &'static str = "'.split(', ');\n                for (const sel of selectors) {\n                    const el = document.querySelector(sel.trim());\n                    if (el && !el.disabled && el.offsetParent !== null) {\n                        return true;\n                    }\n                }\n                return false;\n            })()";

/// The script that tells whether some element among the comma-separated
/// selectors `sel` is present, enabled and shown.
pub open spec fn availability_script(sel: Seq<char>) -> Seq<char> {
    SELECTOR_LIST_HEAD@ + escape_quotes(sel) + WATCH_TAIL@
}

/// What the countdown does at one tick.
#[derive(Debug, Clone, Copy, PartialEq, Eq, Structural)]
pub enum CountdownAction {
    /// The start time has come: the war begins.
    WarTime,
    /// Show the time left; announce the pre-warm phase when it starts this second.
    Tick { hours: i64, minutes: i64, seconds: i64, pre_warm_banner: bool },
}

/// The countdown tick for `remaining` whole seconds until the start, with a
/// pre-warm phase of `pre_warm` seconds (read as an `i64`, as the clock is).
pub open spec fn countdown_step_of(remaining: i64, pre_warm: u64) -> CountdownAction {
    if remaining <= 0 {
        CountdownAction::WarTime
    } else {
        CountdownAction::Tick {
            hours: (remaining / 3600) as i64,
            minutes: ((remaining / 60) % 60) as i64,
            seconds: (remaining % 60) as i64,
            pre_warm_banner: remaining == pre_warm as i64,
        }
    }
}

/// The countdown display `HH:MM:SS`, each part zero-padded to two digits.
pub open spec fn clock_of(h: nat, m: nat, s: nat) -> Seq<char> {
    two_digits(h) + seq![':'] + two_digits(m) + seq![':'] + two_digits(s)
}

/// Decides one countdown tick.
pub fn countdown_step(remaining: i64, pre_warm: u64) -> (r: CountdownAction)
    ensures
        r == countdown_step_of(remaining, pre_warm),
{
    if remaining <= 0 {
        CountdownAction::WarTime
    } else {
        CountdownAction::Tick {
            hours: remaining / 3600,
            minutes: (remaining / 60) % 60,
            seconds: remaining % 60,
            pre_warm_banner: remaining == pre_warm as i64,
        }
    }
}

/// The time left as `HH:MM:SS`.
pub fn clock_text(hours: i64, minutes: i64, seconds: i64) -> (r: String)
    requires
        hours >= 0,
        minutes >= 0,
        seconds >= 0,
    ensures
        r@ == clock_of(hours as nat, minutes as nat, seconds as nat),
{
    let mut r = two_digit_text(hours as u64);
    crate::text::push_char(&mut r, ':');
    let m = two_digit_text(minutes as u64);
    r.append(m.as_str());
    crate::text::push_char(&mut r, ':');
    let s = two_digit_text(seconds as u64);
    r.append(s.as_str());
    r
}

/// The error reported for a start time that cannot be read, with the
/// parser's own explanation.
pub fn start_time_problem(detail: &str) -> (e: AppError)
    ensures
        e@ == ErrorView::Monitor("Invalid start_time format: "@ + detail@),
{
    let mut m = String::from_str("Invalid start_time format: ");
    m.append(detail);
    AppError::Monitor(m)
}

/// What one availability poll found.
#[derive(Debug, Clone, Copy, PartialEq, Eq, Structural)]
pub enum PollOutcome {
    /// The buy button is present and usable.
    Available,
    /// The buy button is not usable yet.
    Unavailable,
    /// The page could not be asked.
    Failed,
}

/// What the watch does after a poll.
#[derive(Debug, Clone, Copy, PartialEq, Eq, Structural)]
pub enum WatchAction {
    /// Tickets are on sale: stop watching and start checkout.
    TicketDetected { attempt: u64 },
    /// Nothing yet: wait one poll interval, reporting progress when asked.
    KeepPolling { attempt: u64, show_progress: bool },
    /// The poll failed: reload the page when asked, then wait one poll interval.
    Retry { attempt: u64, reload_page: bool },
}

/// The answer to poll number `attempt` (counted from 1).
pub open spec fn watch_step_of(attempt: u64, outcome: PollOutcome) -> WatchAction {
    match outcome {
        PollOutcome::Available => WatchAction::TicketDetected { attempt },
        PollOutcome::Unavailable => WatchAction::KeepPolling {
            attempt,
            show_progress: attempt % PROGRESS_EVERY == 0,
        },
        PollOutcome::Failed => WatchAction::Retry {
            attempt,
            reload_page: attempt % RELOAD_EVERY == 0,
        },
    }
}

/// The running count of polls of one watch.
pub struct WatchState {
    attempts: u64,
}

impl WatchState {
    /// How many polls have been made.
    pub closed spec fn polls(self) -> nat {
        self.attempts as nat
    }

    /// A watch that has not polled yet.
    pub fn new() -> (r: Self)
        ensures
            r.polls() == 0,
    {
        WatchState { attempts: 0 }
    }

    /// How many polls have been made.
    pub fn attempts(&self) -> (r: u64)
        ensures
            r == self.polls(),
    {
        self.attempts
    }

    /// Counts one more poll and decides what follows it.
    pub fn on_poll(&mut self, outcome: PollOutcome) -> (r: WatchAction)
        requires
            old(self).polls() < u64::MAX,
        ensures
            final(self).polls() == old(self).polls() + 1,
            r == watch_step_of(final(self).polls() as u64, outcome),
            (r is TicketDetected) <==> outcome == PollOutcome::Available,
    {
        self.attempts = self.attempts + 1;
        let attempt: u64 = self.attempts;
        match outcome {
            PollOutcome::Available => WatchAction::TicketDetected { attempt },
            PollOutcome::Unavailable => WatchAction::KeepPolling {
                attempt,
                show_progress: attempt % PROGRESS_EVERY == 0,
            },
            PollOutcome::Failed => WatchAction::Retry {
                attempt,
                reload_page: attempt % RELOAD_EVERY == 0,
            },
        }
    }
}

/// The war-time monitor: the settings it reads and the notifier it reports to.
pub struct Monitor {
    config: Arc<Config>,
    notifier: Arc<Notifier>,
}

impl Monitor {
    /// The settings this monitor reads.
    pub closed spec fn settings(self) -> Config {
        *self.config
    }

    /// The notifier this monitor reports to.
    pub closed spec fn reporter(self) -> Notifier {
        *self.notifier
    }

    pub fn new(config: Arc<Config>, notifier: Arc<Notifier>) -> (r: Self)
        ensures
            r.settings() == *config,
            r.reporter() == *notifier,
    {
        Monitor { config, notifier }
    }

    /// The settings this monitor reads.
    pub fn config(&self) -> (r: &Config)
        ensures
            *r == self.settings(),
    {
        &self.config
    }

    /// The notifier this monitor reports to.
    pub fn notifier(&self) -> (r: &Notifier)
        ensures
            *r == self.reporter(),
    {
        &self.notifier
    }

    /// The configured start of the war, or the error for a start time that
    /// is not RFC 3339.
    pub fn start_time(&self) -> (r: Result<ClockInstant, AppError>)
        ensures
            match r {
                Ok(i) => rfc3339_parse(self.settings().monitor.start_time@) == Ok::<
                    (int, int),
                    Seq<char>,
                >((i.secs as int, i.nanos as int)),
                Err(e) => rfc3339_parse(self.settings().monitor.start_time@) is Err && e@
                    == ErrorView::Monitor(
                    "Invalid start_time format: "@ + rfc3339_parse(
                        self.settings().monitor.start_time@,
                    )->Err_0,
                ),
            },
    {
        match parse_rfc3339(self.config.monitor.start_time.as_str()) {
            Ok(i) => Ok(i),
            Err(m) => Err(start_time_problem(m.as_str())),
        }
    }

    /// The countdown tick at instant `now` for a war starting at `start`,
    /// with the configured pre-warm phase; `None` when an instant is not one
    /// `chrono` can represent.
    pub fn countdown(&self, start: ClockInstant, now: ClockInstant) -> (r: Option<
        CountdownAction,
    >)
        ensures
            r == match seconds_between(
                start.secs as int,
                start.nanos as int,
                now.secs as int,
                now.nanos as int,
            ) {
                Some(n) => Some(
                    countdown_step_of(n as i64, self.settings().monitor.pre_warm_seconds),
                ),
                None => None,
            },
    {
        match whole_seconds_between(start, now) {
            Some(remaining) => Some(countdown_step(remaining, self.config.monitor.pre_warm_seconds)),
            None => None,
        }
    }

    /// The script that asks whether the buy button is usable.
    pub fn availability_js(&self) -> (r: String)
        ensures
            r@ == availability_script(self.settings().selectors.buy_button@),
    {
        let mut r = String::from_str(SELECTOR_LIST_HEAD);
        append_escaped(&mut r, self.config.selectors.buy_button.as_str());
        r.append(WATCH_TAIL);
        r
    }

    /// The pause between two polls, in milliseconds.
    pub fn poll_interval_ms(&self) -> (r: u64)
        ensures
            r == self.settings().monitor.poll_interval_ms,
    {
        self.config.monitor.poll_interval_ms
    }
}

/// A countdown tick shows the time left exactly: hours, minutes under 60 and
/// seconds under 60 add back up to the seconds remaining.
pub proof fn lemma_countdown_adds_up(remaining: i64, pre_warm: u64)
    requires
        remaining > 0,
    ensures
        countdown_step_of(remaining, pre_warm) matches CountdownAction::Tick {
            hours,
            minutes,
            seconds,
            ..
        } && hours * 3600 + minutes * 60 + seconds == remaining && 0 <= minutes < 60 && 0
            <= seconds < 60 && hours >= 0,
{
    let h: int = remaining / 3600;
    let t: int = remaining / 60;
    assert(t == h * 60 + (t % 60)) by (nonlinear_arith)
        requires
            remaining > 0,
            h == remaining / 3600,
            t == remaining / 60,
    {
        assert(remaining / 3600 == (remaining / 60) / 60) by (nonlinear_arith)
            requires remaining > 0;
    }
    assert(remaining == t * 60 + remaining % 60) by (nonlinear_arith)
        requires
            t == remaining / 60;
}

/// The war begins exactly when no whole second is left.
pub proof fn lemma_war_time_when_due(remaining: i64, pre_warm: u64)
    ensures
        (countdown_step_of(remaining, pre_warm) == CountdownAction::WarTime) <==> remaining <= 0,
{
}

/// Availability is acted on at every poll, the first included: a poll
/// answers `TicketDetected` exactly when the button is usable, and every
/// answer carries the poll's own number. Progress shows on every 100th poll
/// that finds nothing; the page reloads on every 50th poll that fails.
pub proof fn lemma_watch_answers(n: u64, outcome: PollOutcome)
    ensures
        (watch_step_of(n, outcome) is TicketDetected) <==> outcome == PollOutcome::Available,
        match watch_step_of(n, outcome) {
            WatchAction::TicketDetected { attempt } => attempt == n,
            WatchAction::KeepPolling { attempt, show_progress } => attempt == n
                && outcome == PollOutcome::Unavailable && (show_progress <==> n % 100 == 0),
            WatchAction::Retry { attempt, reload_page } => attempt == n && outcome
                == PollOutcome::Failed && (reload_page <==> n % 50 == 0),
        },
{
}

/// The pre-warm banner shows at exactly one tick: when the whole seconds left
/// equal the pre-warm length (read as an `i64`), and at no other count.
pub proof fn lemma_pre_warm_banner_once(r1: i64, r2: i64, pre_warm: u64)
    requires
        r1 > 0,
        r2 > 0,
    ensures
        (countdown_step_of(r1, pre_warm) matches CountdownAction::Tick { pre_warm_banner, .. }
            && (pre_warm_banner <==> r1 == pre_warm as i64)),
        (countdown_step_of(r1, pre_warm) matches CountdownAction::Tick {
            pre_warm_banner: true,
            ..
        } && countdown_step_of(r2, pre_warm) matches CountdownAction::Tick {
            pre_warm_banner: true,
            ..
        }) ==> r1 == r2,
{
}

} // verus!
