//! The scheduler: the one piece of mutable state (the next fire time), the
//! rule that arms it at startup, the tick decision, and the re-arm that
//! follows every firing.
//!
//! The driving loop around it performs the waiting, the fetch and the
//! delivery; it hands this module the current time and the fetch outcome
//! and receives the decision and the message to deliver.

use vstd::prelude::*;
use crate::civil::{at_time, Date, TimeOfDay, Timestamp, MAX_DAY_NUMBER, MINUTES_PER_DAY};
use crate::message::{build_webhook_message, cycle_word, cycle_word_spec, description_spec, WebhookMessage};
use crate::parse::{parse_date, parse_time, ConfigError};

verus! {

/// The immutable schedule configuration, supplied once at startup.
#[derive(Clone, Copy, Debug, PartialEq, Eq, Structural)]
pub struct ScheduleConfig {
    /// The time of day a cycle fires at.
    pub time_of_day: TimeOfDay,
    /// Days between cycles; at least one.
    pub interval_days: u64,
    /// The date of the first cycle; when absent, the first cycle is
    /// scheduled `interval_days` after startup and one immediate cycle
    /// runs at startup instead.
    pub first_execution: Option<Date>,
}

impl ScheduleConfig {
    pub open spec fn wf(self) -> bool {
        &&& self.time_of_day.valid()
        &&& self.interval_days >= 1
        &&& match self.first_execution {
            Some(d) => d.valid(),
            None => true,
        }
    }
}

/// Parses the raw configuration strings into a schedule configuration.
pub fn parse_schedule_config(time: &str, interval_days: u64, first_execution: Option<&str>) -> (r:
    Result<ScheduleConfig, ConfigError>)
    requires
        interval_days >= 1,
    ensures
        r is Ok <==> crate::parse::is_time_str(time@) && (first_execution matches Some(f)
            ==> crate::parse::is_date_str(f@)),
        r matches Ok(c) ==> {
            &&& c.wf()
            &&& c.time_of_day == crate::parse::time_of_str(time@)
            &&& c.interval_days == interval_days
            &&& match first_execution {
                Some(f) => c.first_execution == Some(crate::parse::date_of_str(f@)),
                None => c.first_execution is None,
            }
        },
        r matches Err(e) ==> if !crate::parse::is_time_str(time@) {
            e == ConfigError::InvalidTime
        } else {
            e == ConfigError::InvalidDate
        },
{
    let time_of_day = parse_time(time)?;
    let first = match first_execution {
        Some(f) => Some(parse_date(f)?),
        None => None,
    };
    Ok(ScheduleConfig { time_of_day, interval_days, first_execution: first })
}

/// The minute count the schedule is first armed with: the first-execution
/// date at the configured time of day when one was given, else
/// `interval_days` after `today` at that time of day.
pub open spec fn initial_fire_spec(config: ScheduleConfig, today: Date) -> int {
    match config.first_execution {
        Some(d) => at_time(d.spec_day_number(), config.time_of_day),
        None => at_time(today.spec_day_number() + config.interval_days, config.time_of_day),
    }
}

/// The minute count the schedule is re-armed with after a firing at `now`:
/// `interval_days` after the day of the firing, at the configured time of
/// day. It is anchored at the firing day, not at the previous target.
pub open spec fn rearm_spec(config: ScheduleConfig, now: Timestamp) -> int {
    at_time(now.spec_day() + config.interval_days, config.time_of_day)
}

/// With no first-execution date, the initial fire time falls on the day
/// `interval_days` after `today`, at the configured time of day — never on
/// today's own date.
pub proof fn lemma_initial_fire_skips_today(config: ScheduleConfig, today: Date)
    requires
        config.wf(),
        today.valid(),
        config.first_execution is None,
    ensures
        initial_fire_spec(config, today) == at_time(
            today.spec_day_number() + config.interval_days,
            config.time_of_day,
        ),
        initial_fire_spec(config, today) / (MINUTES_PER_DAY as int) == today.spec_day_number()
            + config.interval_days,
        initial_fire_spec(config, today) / (MINUTES_PER_DAY as int) != today.spec_day_number(),
{
    crate::civil::lemma_day_number_bounds(today);
    crate::civil::lemma_at_time_day(today.spec_day_number() + config.interval_days, config.time_of_day);
}

/// With a first-execution date `d`, the initial fire time is exactly `d` at
/// the configured time of day, whatever `interval_days` holds and whatever
/// day it is computed on: a second configuration that differs only in its
/// interval, armed on a different day, is armed at the same instant.
pub proof fn lemma_initial_fire_first_execution(
    config: ScheduleConfig,
    other: ScheduleConfig,
    today: Date,
    other_today: Date,
    d: Date,
)
    requires
        config.first_execution == Some(d),
        other.first_execution == Some(d),
        other.time_of_day == config.time_of_day,
    ensures
        initial_fire_spec(config, today) == at_time(d.spec_day_number(), config.time_of_day),
        initial_fire_spec(config, today) == initial_fire_spec(other, other_today),
{
}

/// After any firing at `now`, the re-armed fire time strictly exceeds the
/// firing time, by more than `interval_days - 1` whole days: a firing never
/// makes the schedule due again at once.
pub proof fn lemma_rearm_no_immediate_refire(config: ScheduleConfig, now: Timestamp)
    requires
        config.wf(),
    ensures
        rearm_spec(config, now) > now.minutes,
        rearm_spec(config, now) - now.minutes > (config.interval_days - 1) * (
        MINUTES_PER_DAY as int),
{
    let q = now.spec_day();
    let r = now.minutes as int % (MINUTES_PER_DAY as int);
    let k = config.interval_days as int;
    let m = config.time_of_day.spec_minutes();
    assert(now.minutes as int == 1440 * q + r && 0 <= r < 1440) by (nonlinear_arith)
        requires
            q == now.minutes as int / 1440,
            r == now.minutes as int % 1440,
    ;
    assert((q + k) * 1440 + m - (1440 * q + r) == k * 1440 + m - r) by (nonlinear_arith);
    assert(k * 1440 + m - r > (k - 1) * 1440) by (nonlinear_arith)
        requires
            0 <= m,
            r < 1440,
    ;
    assert(k * 1440 + m - r > 0) by (nonlinear_arith)
        requires
            k >= 1,
            0 <= m,
            r < 1440,
    ;
}

/// When the firing tick observed the due time promptly — at most one
/// minute past the armed time of day — the re-armed fire time exceeds the
/// firing time by at least the full interval less that one minute. (A
/// firing that happens long after its armed minute, say after the process
/// slept across it, is re-anchored at the firing day instead, and the gap
/// to the next firing can then be shorter.)
pub proof fn lemma_rearm_keeps_full_interval(config: ScheduleConfig, now: Timestamp)
    requires
        config.wf(),
        now.minutes as int % (MINUTES_PER_DAY as int) <= config.time_of_day.spec_minutes() + 1,
    ensures
        rearm_spec(config, now) - now.minutes >= config.interval_days * (MINUTES_PER_DAY as int)
            - 1,
{
    let q = now.spec_day();
    let r = now.minutes as int % (MINUTES_PER_DAY as int);
    let k = config.interval_days as int;
    let m = config.time_of_day.spec_minutes();
    assert(now.minutes as int == 1440 * q + r) by (nonlinear_arith)
        requires
            q == now.minutes as int / 1440,
            r == now.minutes as int % 1440,
    ;
    assert((q + k) * 1440 + m - (1440 * q + r) == k * 1440 + m - r) by (nonlinear_arith);
}

/// Whether a tick found the schedule due.
#[derive(Clone, Copy, Debug, PartialEq, Eq, Structural)]
pub enum TickOutcome {
    Idle,
    Due,
}

/// The scheduler. Its one piece of mutable state, the next fire time, is
/// private: it is set when the scheduler is built and moves only through
/// [`Scheduler::fire`].
pub struct Scheduler {
    config: ScheduleConfig,
    next_fire_at: Timestamp,
}

impl Scheduler {
    pub closed spec fn spec_config(self) -> ScheduleConfig {
        self.config
    }

    /// The armed next fire time, as a minute count.
    pub closed spec fn spec_next_fire(self) -> int {
        self.next_fire_at.minutes as int
    }

    pub open spec fn wf(self) -> bool {
        self.spec_config().wf()
    }

    /// Builds a scheduler armed with the initial fire time.
    pub fn new(config: ScheduleConfig, today: &Date) -> (s: Scheduler)
        requires
            config.wf(),
            today.valid(),
            today.spec_day_number() + config.interval_days <= MAX_DAY_NUMBER,
        ensures
            s.wf(),
            s.spec_config() == config,
            s.spec_next_fire() == initial_fire_spec(config, *today),
    {
        let next_fire_at = match &config.first_execution {
            Some(d) => Timestamp::from_date_time(d, &config.time_of_day),
            None => {
                let day: u64 = today.day_number() + config.interval_days;
                Timestamp { minutes: day * MINUTES_PER_DAY + config.time_of_day.minutes() as u64 }
            },
        };
        Scheduler { config, next_fire_at }
    }

    pub fn config(&self) -> (c: ScheduleConfig)
        ensures
            c == self.spec_config(),
    {
        self.config
    }

    pub fn next_fire_at(&self) -> (ts: Timestamp)
        ensures
            ts.minutes == self.spec_next_fire(),
    {
        self.next_fire_at
    }

    /// Whether the startup-time immediate cycle runs: it does exactly when
    /// no first-execution date was configured.
    pub fn runs_initial_cycle(&self) -> (b: bool)
        ensures
            b == (self.spec_config().first_execution is None),
    {
        self.config.first_execution.is_none()
    }

    /// One polling-tick decision: due exactly when `now` has reached the
    /// armed fire time; never early. Reads the clock value it is handed and
    /// changes nothing.
    pub fn tick(&self, now: &Timestamp) -> (r: TickOutcome)
        ensures
            r is Due <==> now.minutes >= self.spec_next_fire(),
    {
        if now.minutes >= self.next_fire_at.minutes {
            TickOutcome::Due
        } else {
            TickOutcome::Idle
        }
    }

    /// One timer-triggered firing at time `now`. Whatever the fetch
    /// brought, it always yields the message to deliver — the fetched word,
    /// or the fixed fallback text when the fetch failed — and always
    /// re-arms the schedule `interval_days` after the firing day.
    pub fn fire(&mut self, now: &Timestamp, fetched: Option<String>) -> (m: WebhookMessage)
        requires
            old(self).wf(),
            now.spec_day() + old(self).spec_config().interval_days <= MAX_DAY_NUMBER,
        ensures
            final(self).wf(),
            final(self).spec_config() == old(self).spec_config(),
            final(self).spec_next_fire() == rearm_spec(old(self).spec_config(), *now),
            m.description@ == description_spec(
                cycle_word_spec(fetched),
                old(self).spec_config().interval_days as int,
            ),
            m.content@ == Seq::<char>::empty(),
            m.title@ == "Random Prompt Time!"@,
            m.color == 0x00ff00u64,
            m.username@ == "Artists' Random Prompt Generator"@,
            m.avatar_url@ == "https://github.com/bitfl0wer/art-prompt-webhook/blob/main/static/icon.png?raw=true"@,
    {
        let word = cycle_word(fetched);
        let message = build_webhook_message(word.as_str(), self.config.interval_days);
        let day: u64 = now.day() + self.config.interval_days;
        self.next_fire_at = Timestamp {
            minutes: day * MINUTES_PER_DAY + self.config.time_of_day.minutes() as u64,
        };
        message
    }
}

} // verus!
