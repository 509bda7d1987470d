use art_prompt_webhook::civil::{Date, TimeOfDay, Timestamp, MAX_DAY_NUMBER, MINUTES_PER_DAY};
use art_prompt_webhook::schedule::{ScheduleConfig, Scheduler, TickOutcome};

fn nine_oclock() -> TimeOfDay {
    TimeOfDay { hour: 9, minute: 0 }
}

fn ts(year: u16, month: u8, day: u8, hour: u8, minute: u8) -> Timestamp {
    Timestamp::from_date_time(&Date { year, month, day }, &TimeOfDay { hour, minute })
}

#[test]
fn day_number_of_origin_is_zero() {
    assert_eq!(Date { year: 1, month: 1, day: 1 }.day_number(), 0);
}

#[test]
fn day_number_of_last_date_is_max() {
    assert_eq!(
        Date { year: 9999, month: 12, day: 31 }.day_number(),
        MAX_DAY_NUMBER
    );
}

#[test]
fn day_number_counts_leap_days() {
    let feb28 = Date { year: 2024, month: 2, day: 28 }.day_number();
    let feb29 = Date { year: 2024, month: 2, day: 29 }.day_number();
    let mar1 = Date { year: 2024, month: 3, day: 1 }.day_number();
    assert_eq!(feb29, feb28 + 1);
    assert_eq!(mar1, feb29 + 1);
}

#[test]
fn timestamp_day_inverts_at_time() {
    let t = ts(2024, 1, 8, 9, 0);
    assert_eq!(t.day(), Date { year: 2024, month: 1, day: 8 }.day_number());
    assert_eq!(t.minutes % MINUTES_PER_DAY, 9 * 60);
}

// Scenario: time 09:00, interval 7 days, no first-execution date, started
// on 2024-01-01 before 09:00: the immediate startup cycle runs and the
// schedule is armed for 2024-01-08 09:00.
#[test]
fn startup_without_first_execution_date() {
    let config = ScheduleConfig {
        time_of_day: nine_oclock(),
        interval_days: 7,
        first_execution: None,
    };
    let today = Date { year: 2024, month: 1, day: 1 };
    let scheduler = Scheduler::new(config, &today);
    assert!(scheduler.runs_initial_cycle());
    assert_eq!(scheduler.next_fire_at(), ts(2024, 1, 8, 9, 0));
}

// Scenario: time 09:00, interval 7 days, first execution 2024-03-01: no
// immediate startup cycle, and the schedule is armed for 2024-03-01 09:00.
#[test]
fn startup_with_first_execution_date() {
    let config = ScheduleConfig {
        time_of_day: nine_oclock(),
        interval_days: 7,
        first_execution: Some(Date { year: 2024, month: 3, day: 1 }),
    };
    let today = Date { year: 2024, month: 1, day: 1 };
    let scheduler = Scheduler::new(config, &today);
    assert!(!scheduler.runs_initial_cycle());
    assert_eq!(scheduler.next_fire_at(), ts(2024, 3, 1, 9, 0));
}

#[test]
fn initial_fire_never_on_todays_date() {
    for interval in 1..40u64 {
        let config = ScheduleConfig {
            time_of_day: nine_oclock(),
            interval_days: interval,
            first_execution: None,
        };
        let today = Date { year: 2024, month: 1, day: 1 };
        let scheduler = Scheduler::new(config, &today);
        let armed_day = scheduler.next_fire_at().day();
        assert_eq!(armed_day, today.day_number() + interval);
        assert_ne!(armed_day, today.day_number());
    }
}

#[test]
fn first_execution_date_wins_over_interval() {
    let first = Date { year: 2024, month: 3, day: 1 };
    let mut armed = Vec::new();
    for interval in [1u64, 7, 365] {
        let config = ScheduleConfig {
            time_of_day: nine_oclock(),
            interval_days: interval,
            first_execution: Some(first),
        };
        let today = Date { year: 2024, month: 1, day: 1 };
        armed.push(Scheduler::new(config, &today).next_fire_at());
    }
    assert_eq!(armed[0], ts(2024, 3, 1, 9, 0));
    assert_eq!(armed[1], ts(2024, 3, 1, 9, 0));
    assert_eq!(armed[2], ts(2024, 3, 1, 9, 0));
}

#[test]
fn tick_is_due_exactly_from_the_armed_minute() {
    let config = ScheduleConfig {
        time_of_day: nine_oclock(),
        interval_days: 7,
        first_execution: Some(Date { year: 2024, month: 3, day: 1 }),
    };
    let scheduler = Scheduler::new(config, &Date { year: 2024, month: 1, day: 1 });
    let armed = scheduler.next_fire_at();
    let just_before = Timestamp { minutes: armed.minutes - 1 };
    assert_eq!(scheduler.tick(&just_before), TickOutcome::Idle);
    assert_eq!(scheduler.tick(&armed), TickOutcome::Due);
    let later = Timestamp { minutes: armed.minutes + 3 * MINUTES_PER_DAY };
    assert_eq!(scheduler.tick(&later), TickOutcome::Due);
}

#[test]
fn fire_rearms_interval_days_after_the_firing_day() {
    let config = ScheduleConfig {
        time_of_day: nine_oclock(),
        interval_days: 7,
        first_execution: None,
    };
    let mut scheduler = Scheduler::new(config, &Date { year: 2024, month: 1, day: 1 });
    let firing_time = ts(2024, 1, 8, 9, 0);
    assert_eq!(scheduler.tick(&firing_time), TickOutcome::Due);
    let _message = scheduler.fire(&firing_time, Some("violin".to_string()));
    assert_eq!(scheduler.next_fire_at(), ts(2024, 1, 15, 9, 0));
    assert_eq!(scheduler.tick(&firing_time), TickOutcome::Idle);
}

#[test]
fn fire_never_rearms_at_or_before_the_firing_time() {
    // Firing late in the day with interval 1 still lands strictly later.
    let config = ScheduleConfig {
        time_of_day: TimeOfDay { hour: 0, minute: 0 },
        interval_days: 1,
        first_execution: None,
    };
    let mut scheduler = Scheduler::new(config, &Date { year: 2024, month: 1, day: 1 });
    let late = ts(2024, 1, 2, 23, 59);
    let _message = scheduler.fire(&late, Some("cello".to_string()));
    let rearmed = scheduler.next_fire_at();
    assert!(rearmed.minutes > late.minutes);
    assert_eq!(rearmed, ts(2024, 1, 3, 0, 0));
}

#[test]
fn missed_firings_are_absorbed_by_rearming_from_the_firing_day() {
    // Armed for 2024-01-08 but the firing tick only happens on 2024-01-20:
    // the re-arm anchors at the firing day, not at the stale target.
    let config = ScheduleConfig {
        time_of_day: nine_oclock(),
        interval_days: 7,
        first_execution: None,
    };
    let mut scheduler = Scheduler::new(config, &Date { year: 2024, month: 1, day: 1 });
    let late_firing = ts(2024, 1, 20, 12, 30);
    assert_eq!(scheduler.tick(&late_firing), TickOutcome::Due);
    let _message = scheduler.fire(&late_firing, Some("drum".to_string()));
    assert_eq!(scheduler.next_fire_at(), ts(2024, 1, 27, 9, 0));
}
