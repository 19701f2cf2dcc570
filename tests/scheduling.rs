use celery_beat::schedule::{CronSchedule, DeltaSchedule, Schedule, ScheduleError};
use celery_beat::scheduled_task::ScheduledTask;
use celery_beat::scheduler::Scheduler;

fn delta(ms: u64) -> Schedule {
    Schedule::Delta(DeltaSchedule::new(ms).unwrap())
}

fn cron(expr: &str) -> Schedule {
    Schedule::Cron(CronSchedule::from_string(expr).unwrap())
}

// 2024-01-01T12:30:00Z in milliseconds.
const NOON_THIRTY: u64 = 1_704_112_200_000;

#[test]
fn fixed_delta_ticks() {
    let mut s = Scheduler::new();
    s.schedule_task("A".to_string(), "celery".to_string(), None, delta(10_000), 0).unwrap();
    assert_eq!(s.due_task(5_000), None);
    assert_eq!(s.next_tick_at(5_000, 1_000), 10_000);
    let i = s.due_task(10_001).unwrap();
    assert_eq!(s.tasks[i].name, "A");
    s.task_published(i, 10_001).unwrap();
    assert_eq!(s.due_task(10_001), None);
    assert_eq!(s.next_tick_at(10_001, 1_000), 20_000);
    assert_eq!(s.tasks[0].total_run_count, 1);
    assert_eq!(s.tasks[0].last_run_at, Some(10_000));
}

#[test]
fn equal_times_fire_in_registration_order() {
    let mut s = Scheduler::new();
    s.schedule_task("A".to_string(), "celery".to_string(), None, delta(1_000), 0).unwrap();
    s.schedule_task("B".to_string(), "celery".to_string(), None, delta(1_000), 0).unwrap();
    let mut published = Vec::new();
    while let Some(i) = s.due_task(1_000) {
        published.push(s.tasks[i].name.clone());
        s.task_published(i, 1_000).unwrap();
    }
    assert_eq!(published, vec!["A".to_string(), "B".to_string()]);
}

#[test]
fn cron_next_top_of_hour() {
    let c = CronSchedule::from_string("0 * * * *").unwrap();
    assert_eq!(c.next(NOON_THIRTY), Ok(1_704_114_000_000));
}

#[test]
fn cron_next_is_strictly_later() {
    let c = CronSchedule::from_string("0 * * * *").unwrap();
    // Exactly on a matching minute: the next one is an hour later.
    assert_eq!(c.next(1_704_114_000_000), Ok(1_704_117_600_000));
}

#[test]
fn cron_steps_ranges_and_lists() {
    let c = CronSchedule::from_string("*/15 9-17 * * 1-5").unwrap();
    // Monday 2024-01-01 12:30 -> 12:45.
    assert_eq!(c.next(NOON_THIRTY), Ok(NOON_THIRTY + 15 * 60_000));
    let d = CronSchedule::from_string("5,10 0 1 * *").unwrap();
    // Next first-of-month at 00:05 after 2024-01-01 12:30 is 2024-02-01T00:05Z.
    assert_eq!(d.next(NOON_THIRTY), Ok(1_706_745_900_000));
}

#[test]
fn cron_sunday_as_seven() {
    let c = CronSchedule::from_string("0 0 * * 7").unwrap();
    // First Sunday after Monday 2024-01-01 is 2024-01-07.
    assert_eq!(c.next(NOON_THIRTY), Ok(1_704_585_600_000));
}

#[test]
fn cron_either_day_field_matches() {
    // Day 15 of the month or any Friday: Friday 2024-01-05 comes first.
    let c = CronSchedule::from_string("0 0 15 * 5").unwrap();
    assert_eq!(c.next(NOON_THIRTY), Ok(1_704_412_800_000));
}

#[test]
fn cron_rejects_malformed_expressions() {
    assert_eq!(CronSchedule::from_string("bad").unwrap_err(), ScheduleError::InvalidExpression);
    assert_eq!(CronSchedule::from_string("60 * * * *").unwrap_err(), ScheduleError::InvalidExpression);
    assert_eq!(CronSchedule::from_string("* * * *").unwrap_err(), ScheduleError::InvalidExpression);
    assert_eq!(CronSchedule::from_string("1,,2 * * * *").unwrap_err(), ScheduleError::InvalidExpression);
    assert_eq!(CronSchedule::from_string("*/0 * * * *").unwrap_err(), ScheduleError::InvalidExpression);
}

#[test]
fn cron_without_occurrence() {
    let c = CronSchedule::from_string("0 0 30 2 *").unwrap();
    assert_eq!(c.next(NOON_THIRTY), Err(ScheduleError::NoOccurrence));
}

#[test]
fn cron_out_of_calendar_range() {
    let c = CronSchedule::from_string("* * * * *").unwrap();
    assert_eq!(c.next(u64::MAX), Err(ScheduleError::Overflow));
}

#[test]
fn delta_next_is_exact() {
    let d = DeltaSchedule::new(10_000).unwrap();
    assert_eq!(d.next(0), Ok(10_000));
    assert_eq!(d.next(123_456), Ok(133_456));
    assert_eq!(d.next(u64::MAX - 10_000), Ok(u64::MAX));
    assert_eq!(d.next(u64::MAX - 9_999), Err(ScheduleError::Overflow));
    assert!(DeltaSchedule::new(0).is_none());
    let bad = DeltaSchedule { interval: 0 };
    assert_eq!(bad.next(5), Err(ScheduleError::InvalidSchedule));
}

#[test]
fn mark_fired_moves_past_the_run() {
    let mut t = ScheduledTask::new(0, "A".to_string(), "q".to_string(), None, delta(500), 0).unwrap();
    assert_eq!(t.next_call_at, 500);
    t.mark_fired(700).unwrap();
    assert_eq!(t.last_run_at, Some(700));
    assert_eq!(t.total_run_count, 1);
    assert_eq!(t.next_call_at, 1_200);
    assert!(t.next_call_at > 700);
    let mut c = ScheduledTask::new(1, "C".to_string(), "q".to_string(), None, cron("0 * * * *"), 0).unwrap();
    c.mark_fired(1_704_114_000_000).unwrap();
    assert!(c.next_call_at > 1_704_114_000_000);
}

#[test]
fn replace_schedule_recomputes_from_last_run() {
    let mut t = ScheduledTask::new(0, "A".to_string(), "q".to_string(), None, delta(500), 0).unwrap();
    t.replace_schedule(delta(2_000), 100).unwrap();
    assert_eq!(t.next_call_at, 2_100);
    t.mark_fired(2_100).unwrap();
    t.replace_schedule(delta(50), 9_999).unwrap();
    assert_eq!(t.next_call_at, 2_150);
}

#[test]
fn first_tick_after_registration_publishes_once() {
    let mut s = Scheduler::new();
    s.schedule_task("A".to_string(), "celery".to_string(), None, delta(1_000), 0).unwrap();
    let mut count = 0;
    while let Some(i) = s.due_task(1_500) {
        count += 1;
        s.task_published(i, 1_500).unwrap();
    }
    assert_eq!(count, 1);
}

#[test]
fn catch_up_publishes_once_and_keeps_phase() {
    let mut s = Scheduler::new();
    s.schedule_task("A".to_string(), "celery".to_string(), None, delta(10_000), 0).unwrap();
    let mut count = 0;
    // Five periods late.
    while let Some(i) = s.due_task(50_000) {
        count += 1;
        s.task_published(i, 50_000).unwrap();
    }
    assert_eq!(count, 1);
    assert_eq!(s.tasks[0].next_call_at, 60_000);
    assert!(s.tasks[0].next_call_at > 50_000);
}

#[test]
fn connection_failure_keeps_entry() {
    let mut s = Scheduler::new();
    s.schedule_task("A".to_string(), "celery".to_string(), None, delta(10_000), 0).unwrap();
    let i = s.due_task(10_000).unwrap();
    s.publish_failed(i, true, 10_000).unwrap();
    assert_eq!(s.tasks[0].next_call_at, 10_000);
    assert_eq!(s.tasks[0].total_run_count, 0);
    let j = s.due_task(10_000).unwrap();
    s.publish_failed(j, false, 10_000).unwrap();
    assert_eq!(s.tasks[0].next_call_at, 20_000);
}

#[test]
fn empty_scheduler_waits_default_interval() {
    let s = Scheduler::new();
    assert_eq!(s.due_task(0), None);
    assert_eq!(s.next_tick_at(1_000, 500), 1_500);
    assert_eq!(s.next_tick_at(u64::MAX, 500), u64::MAX);
}

#[test]
fn schedule_task_reports_scheduling_fault() {
    let mut s = Scheduler::new();
    let r = s.schedule_task("A".to_string(), "q".to_string(), None, delta(10), u64::MAX);
    assert_eq!(r, Err(ScheduleError::Overflow));
    assert!(s.tasks.is_empty());
}
