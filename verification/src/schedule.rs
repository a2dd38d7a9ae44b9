//! The daily scheduled restart: validating its settings, deciding when the
//! warning countdown starts, and stepping the countdown.
use vstd::prelude::*;
use crate::text::opt_chars;
use crate::text::str_eq;

verus! {

broadcast use vstd::string::group_string_axioms;

/// Settings of the daily restart.
#[derive(Clone, Copy, Debug, PartialEq, Eq, Structural)]
pub struct ScheduleConfig {
    pub enabled: bool,
    /// Hour of day, 0-23 (local time).
    pub restart_hour: u8,
    /// Minute, 0-59.
    pub restart_minute: u8,
    /// Length of the warning countdown.
    pub warning_seconds: u64,
}

/// Settings and runtime state of the daily restart.
#[derive(Debug)]
pub struct ScheduleState {
    pub config: ScheduleConfig,
    pub countdown_active: bool,
    pub seconds_remaining: Option<u64>,
    /// Local date (`YYYY-MM-DD`) of the last scheduled restart.
    pub last_restart_date: Option<String>,
}

/// Checks a new schedule: the hour must be 0-23 and the minute 0-59.
pub fn validate_schedule(cfg: &ScheduleConfig) -> (r: Result<(), String>)
    ensures
        cfg.restart_hour > 23 ==> r is Err && r->Err_0@ == "restart_hour must be 0–23"@,
        cfg.restart_hour <= 23 && cfg.restart_minute > 59 ==> r is Err && r->Err_0@
            == "restart_minute must be 0–59"@,
        cfg.restart_hour <= 23 && cfg.restart_minute <= 59 ==> r is Ok,
{
    if cfg.restart_hour > 23 {
        return Err("restart_hour must be 0–23".to_string());
    }
    if cfg.restart_minute > 59 {
        return Err("restart_minute must be 0–59".to_string());
    }
    Ok(())
}

/// The countdown starts when the restart is enabled, no countdown is running,
/// the local time is the configured hour and minute, and the restart has not
/// yet happened today.
pub open spec fn countdown_due(
    cfg: ScheduleConfig,
    countdown_active: bool,
    last_restart_date: Option<Seq<char>>,
    hour: u8,
    minute: u8,
    today: Seq<char>,
) -> bool {
    cfg.enabled && !countdown_active && hour == cfg.restart_hour && minute == cfg.restart_minute
        && last_restart_date != Some(today)
}

impl ScheduleState {
    /// A schedule with these settings and no countdown or restart yet.
    pub fn new(config: ScheduleConfig) -> (r: Self)
        ensures
            r.config == config,
            !r.countdown_active,
            r.seconds_remaining is None,
            r.last_restart_date is None,
    {
        ScheduleState {
            config,
            countdown_active: false,
            seconds_remaining: None,
            last_restart_date: None,
        }
    }

    /// Whether the scheduler should start the warning countdown at local time
    /// `hour:minute` on date `today`.
    pub fn should_start_countdown(&self, hour: u8, minute: u8, today: &str) -> (r: bool)
        ensures
            r == countdown_due(
                self.config,
                self.countdown_active,
                opt_chars(self.last_restart_date),
                hour,
                minute,
                today@,
            ),
    {
        if !self.config.enabled || self.countdown_active {
            return false;
        }
        if hour != self.config.restart_hour || minute != self.config.restart_minute {
            return false;
        }
        match &self.last_restart_date {
            Some(d) => !str_eq(d.as_str(), today),
            None => true,
        }
    }

    /// Replaces the settings.
    pub fn set_config(&mut self, config: ScheduleConfig)
        ensures
            final(self).config == config,
            final(self).countdown_active == old(self).countdown_active,
            final(self).seconds_remaining == old(self).seconds_remaining,
            final(self).last_restart_date == old(self).last_restart_date,
    {
        self.config = config;
    }

    /// Records whether a countdown runs and how far it has got.
    pub fn set_countdown(&mut self, active: bool, remaining: Option<u64>)
        ensures
            final(self).countdown_active == active,
            final(self).seconds_remaining == remaining,
            final(self).config == old(self).config,
            final(self).last_restart_date == old(self).last_restart_date,
    {
        self.countdown_active = active;
        self.seconds_remaining = remaining;
    }

    /// Records the date of the restart just performed.
    pub fn set_last_restart_date(&mut self, date: Option<String>)
        ensures
            final(self).last_restart_date == date,
            final(self).config == old(self).config,
            final(self).countdown_active == old(self).countdown_active,
            final(self).seconds_remaining == old(self).seconds_remaining,
    {
        self.last_restart_date = date;
    }

    /// A countdown has reached zero on `today`: it stops, and today's restart
    /// is recorded.
    pub fn finish_countdown(&mut self, today: String)
        ensures
            !final(self).countdown_active,
            final(self).seconds_remaining is None,
            final(self).last_restart_date == Some(today),
            final(self).config == old(self).config,
    {
        self.set_countdown(false, None);
        self.set_last_restart_date(Some(today));
    }
}

/// Once a restart has fired on a date, the countdown does not start again
/// that day, whatever the time.
pub proof fn law_restart_once_per_day(
    cfg: ScheduleConfig,
    today: Seq<char>,
    hour: u8,
    minute: u8,
    active: bool,
)
    ensures
        !countdown_due(cfg, active, Some(today), hour, minute, today),
{
}

/// The countdown starts only at the configured hour and minute, only while
/// the restart is enabled and no countdown runs, and only once a day; at that
/// time, enabled, idle and not yet restarted today, it does start.
pub proof fn law_countdown_starts_at_the_configured_time(
    cfg: ScheduleConfig,
    active: bool,
    last: Option<Seq<char>>,
    hour: u8,
    minute: u8,
    today: Seq<char>,
)
    ensures
        hour != cfg.restart_hour ==> !countdown_due(cfg, active, last, hour, minute, today),
        minute != cfg.restart_minute ==> !countdown_due(cfg, active, last, hour, minute, today),
        !cfg.enabled ==> !countdown_due(cfg, active, last, hour, minute, today),
        active ==> !countdown_due(cfg, active, last, hour, minute, today),
        last == Some(today) ==> !countdown_due(cfg, active, last, hour, minute, today),
        cfg.enabled && !active && hour == cfg.restart_hour && minute == cfg.restart_minute && last
            != Some(today) ==> countdown_due(cfg, active, last, hour, minute, today),
{
}

/// Whether a cancellation request applies: only a running countdown can be
/// cancelled.
pub fn cancel_applies(state: &ScheduleState) -> (r: bool)
    ensures
        r == state.countdown_active,
{
    state.countdown_active
}

/// What the countdown does after a one-second pause.
#[derive(Debug, PartialEq, Eq, Structural)]
pub enum CountdownStep {
    /// Announce this many seconds left.
    Tick(u64),
    /// The operator cancelled: announce the cancellation and stop.
    Cancelled,
}

/// After announcing `remaining` seconds: at zero the restart fires at once.
pub fn countdown_finished(remaining: u64) -> (r: bool)
    ensures
        r == (remaining == 0),
{
    remaining == 0
}

/// The step after a pause with `remaining` announced: cancelled, or one
/// second less.
pub open spec fn next_step(remaining: u64, cancelled: bool) -> CountdownStep {
    if cancelled {
        CountdownStep::Cancelled
    } else {
        CountdownStep::Tick((remaining - 1) as u64)
    }
}

/// After pausing one second with `remaining` (above zero) announced: a
/// cancellation stops the countdown, otherwise one second less is announced.
pub fn countdown_step(remaining: u64, cancelled: bool) -> (r: CountdownStep)
    requires
        remaining > 0,
    ensures
        r == next_step(remaining, cancelled),
        cancelled ==> r == CountdownStep::Cancelled,
        !cancelled ==> r == CountdownStep::Tick((remaining - 1) as u64),
{
    if cancelled {
        CountdownStep::Cancelled
    } else {
        CountdownStep::Tick(remaining - 1)
    }
}

/// The announcements of a countdown from `w` that nobody cancels: `w`, then
/// one less after each pause, down to zero, when the restart fires.
pub open spec fn uncancelled_announcements(w: nat) -> Seq<nat>
    decreases w,
{
    if w == 0 {
        seq![0]
    } else {
        seq![w] + uncancelled_announcements((w - 1) as nat)
    }
}

/// Without cancellation a countdown of `w` seconds announces `w + 1` values,
/// the `i`-th being `w - i`, and fires after the last; so the restart comes
/// `w` one-second pauses after the countdown began.
pub proof fn law_countdown_runs_to_zero(w: nat)
    ensures
        uncancelled_announcements(w).len() == w + 1,
        forall|i: int| 0 <= i <= w ==> uncancelled_announcements(w)[i] == w - i,
    decreases w,
{
    if w > 0 {
        law_countdown_runs_to_zero((w - 1) as nat);
        assert forall|i: int| 0 <= i <= w implies uncancelled_announcements(w)[i] == w - i by {
            if i > 0 {
                assert(uncancelled_announcements(w)[i] == uncancelled_announcements(
                    (w - 1) as nat,
                )[i - 1]);
            }
        }
    }
}

/// Whether a countdown with `remaining` announced ends in the restart, when
/// the check after the `i`-th following pause sees a cancellation request
/// exactly when `cancels[i]` holds: zero fires the restart; otherwise the
/// next step decides.
pub open spec fn countdown_fires(remaining: u64, cancels: Seq<bool>) -> bool
    decreases remaining, cancels.len(),
{
    if remaining == 0 {
        true
    } else if cancels.len() == 0 {
        false
    } else {
        match next_step(remaining, cancels[0]) {
            CountdownStep::Cancelled => false,
            CountdownStep::Tick(n) => countdown_fires(n, cancels.drop_first()),
        }
    }
}

/// A countdown of `w` seconds restarts the server exactly when none of the
/// checks after its first `w` pauses sees a cancellation; one cancelled
/// before then never restarts it.
pub proof fn law_countdown_cancellation(w: u64, cancels: Seq<bool>)
    requires
        cancels.len() >= w,
    ensures
        countdown_fires(w, cancels) <==> forall|i: int| 0 <= i < w ==> !cancels[i],
    decreases w,
{
    if w > 0 {
        law_countdown_cancellation((w - 1) as u64, cancels.drop_first());
        if !cancels[0] {
            assert((forall|i: int| 0 <= i < w - 1 ==> !cancels.drop_first()[i]) <==> (forall|i: int|
                0 <= i < w ==> !cancels[i])) by {
                if forall|i: int| 0 <= i < w - 1 ==> !cancels.drop_first()[i] {
                    assert forall|i: int| 0 <= i < w implies !cancels[i] by {
                        if i > 0 {
                            assert(cancels[i] == cancels.drop_first()[i - 1]);
                        }
                    }
                }
            }
        }
    }
}

impl ScheduleState {
    /// Starts the warning countdown: it runs, with the configured number of
    /// seconds announced.
    pub fn begin_countdown(&mut self) -> (r: u64)
        ensures
            r == old(self).config.warning_seconds,
            final(self).countdown_active,
            final(self).seconds_remaining == Some(r),
            final(self).config == old(self).config,
            final(self).last_restart_date == old(self).last_restart_date,
    {
        let w = self.config.warning_seconds;
        self.set_countdown(true, Some(w));
        w
    }

    /// The countdown after a one-second pause, with `remaining` (above zero)
    /// announced before it: a cancellation stops it, otherwise one second
    /// less is announced. The settings and the last restart date are kept.
    pub fn countdown_after_pause(&mut self, remaining: u64, cancelled: bool) -> (r: CountdownStep)
        requires
            remaining > 0,
        ensures
            r == next_step(remaining, cancelled),
            match r {
                CountdownStep::Cancelled => !final(self).countdown_active
                    && final(self).seconds_remaining is None,
                CountdownStep::Tick(n) => final(self).countdown_active
                    && final(self).seconds_remaining == Some(n),
            },
            final(self).config == old(self).config,
            final(self).last_restart_date == old(self).last_restart_date,
    {
        let step = countdown_step(remaining, cancelled);
        match step {
            CountdownStep::Cancelled => self.set_countdown(false, None),
            CountdownStep::Tick(n) => self.set_countdown(true, Some(n)),
        }
        step
    }
}

/// What the schedule holds when a countdown with `remaining` announced has
/// run as far as `cancels` lets it: whether it still runs, the seconds
/// announced, and the last restart date. At zero the restart is recorded
/// for `today` (`finish_countdown`); otherwise each pause is one
/// `countdown_after_pause`, seeing a cancellation when `cancels[i]` holds.
pub open spec fn countdown_end_state(
    remaining: u64,
    last: Option<String>,
    cancels: Seq<bool>,
    today: String,
) -> (bool, Option<u64>, Option<String>)
    decreases remaining, cancels.len(),
{
    if remaining == 0 {
        (false, None, Some(today))
    } else if cancels.len() == 0 {
        (true, Some(remaining), last)
    } else {
        match next_step(remaining, cancels[0]) {
            CountdownStep::Cancelled => (false, None, last),
            CountdownStep::Tick(n) => countdown_end_state(n, last, cancels.drop_first(), today),
        }
    }
}

/// A countdown of `w` seconds always ends stopped. Cancelled before the
/// check after its `w`-th pause, it leaves the last restart date as it was;
/// uncancelled, it records today's restart.
pub proof fn law_countdown_end_state(
    w: u64,
    last: Option<String>,
    cancels: Seq<bool>,
    today: String,
)
    requires
        cancels.len() >= w,
    ensures
        !countdown_end_state(w, last, cancels, today).0,
        countdown_end_state(w, last, cancels, today).1 is None,
        countdown_end_state(w, last, cancels, today).2 == (if countdown_fires(w, cancels) {
            Some(today)
        } else {
            last
        }),
    decreases w,
{
    if w > 0 {
        law_countdown_end_state((w - 1) as u64, last, cancels.drop_first(), today);
    }
}

} // verus!
