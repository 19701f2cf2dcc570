//! Schedule policies: when a recurring task fires next.
//!
//! Instants are milliseconds since the Unix epoch (UTC).

use chrono::{Datelike, Timelike};
use vstd::prelude::*;

verus! {

/// Milliseconds in one minute.
pub const MS_PER_MINUTE: u64 = 60000;

/// How many minutes a cron search looks ahead before giving up (a little over four years).
pub const CRON_HORIZON_MINUTES: u64 = 2200000;

/// The last minute (counted from the epoch) for which calendar fields are computed.
pub const MAX_CALENDAR_MINUTE: u64 = 100000000000;

/// Why a schedule could not produce a next occurrence.
#[derive(Debug, Clone, Copy, PartialEq, Eq, Structural)]
pub enum ScheduleError {
    /// The next instant does not fit in the instant type.
    Overflow,
    /// No matching instant exists within the search horizon.
    NoOccurrence,
    /// A cron expression could not be parsed.
    InvalidExpression,
    /// The schedule is malformed: a zero interval, or a cron table of the wrong size.
    InvalidSchedule,
}

/// A fixed-interval schedule: the next occurrence is `after + interval`.
#[derive(Debug, Clone, Copy, PartialEq, Eq, Structural)]
pub struct DeltaSchedule {
    /// The interval in milliseconds; always positive.
    pub interval: u64,
}

impl DeltaSchedule {
    pub open spec fn wf(&self) -> bool {
        self.interval > 0
    }

    pub open spec fn next_spec(&self, after: int) -> Result<u64, ScheduleError> {
        if self.interval == 0 {
            Err(ScheduleError::InvalidSchedule)
        } else if after + self.interval <= u64::MAX {
            Ok((after + self.interval) as u64)
        } else {
            Err(ScheduleError::Overflow)
        }
    }

    /// A schedule firing every `interval` milliseconds; `None` for a zero interval.
    pub fn new(interval: u64) -> (r: Option<DeltaSchedule>)
        ensures
            r is Some <==> interval > 0,
            r matches Some(d) ==> d.interval == interval && d.wf(),
    {
        if interval > 0 {
            Some(DeltaSchedule { interval })
        } else {
            None
        }
    }

    /// The next occurrence after `after`: exactly `after + interval`.
    pub fn next(&self, after: u64) -> (r: Result<u64, ScheduleError>)
        ensures
            r == self.next_spec(after as int),
    {
        if self.interval == 0 {
            return Err(ScheduleError::InvalidSchedule);
        }
        match after.checked_add(self.interval) {
            Some(t) => Ok(t),
            None => Err(ScheduleError::Overflow),
        }
    }
}

/// The calendar fields of one UTC minute.
#[derive(Debug, Clone, Copy, PartialEq, Eq, Structural)]
pub struct CalendarMinute {
    pub minute: u32,
    pub hour: u32,
    /// Day of the month, from 1.
    pub day: u32,
    /// Month of the year, from 1.
    pub month: u32,
    /// Day of the week, 0 for Sunday.
    pub weekday: u32,
}

/// The UTC calendar fields of the minute that starts `minute_index` minutes after the epoch.
pub uninterp spec fn calendar_of(minute_index: int) -> CalendarMinute;

/// Relies on chrono's `DateTime::from_timestamp` and its `Timelike` / `Datelike` getters
/// (`minute`, `hour`, `day`, `month`, `weekday().num_days_from_sunday()`): UTC calendar
/// fields of a timestamp, within the ranges chrono documents for each getter. UTC days
/// have no leap seconds there, so minute, hour and weekday follow from the count of
/// minutes (the epoch fell on a Thursday).
#[verifier::external_body]
fn calendar_minute(minute_index: u64) -> (r: CalendarMinute)
    requires
        minute_index <= MAX_CALENDAR_MINUTE,
    ensures
        r == calendar_of(minute_index as int),
        r.minute == minute_index % 60,
        r.hour == (minute_index / 60) % 24,
        r.weekday == (minute_index / 1440 + 4) % 7,
        r.minute < 60,
        r.hour < 24,
        1 <= r.day <= 31,
        1 <= r.month <= 12,
        r.weekday < 7,
{
    let t = chrono::DateTime::from_timestamp((minute_index * 60) as i64, 0).unwrap();
    CalendarMinute {
        minute: t.minute(),
        hour: t.hour(),
        day: t.day(),
        month: t.month(),
        weekday: t.weekday().num_days_from_sunday(),
    }
}

/// A cron schedule over five fields (minute, hour, day of month, month, day of week).
///
/// Each field is a table of allowed values indexed by the value itself. As in standard
/// cron, when both day fields are restricted a day matches if either of them matches.
#[derive(Debug, Clone, PartialEq, Eq)]
pub struct CronSchedule {
    pub minutes: Vec<bool>,
    pub hours: Vec<bool>,
    pub days_of_month: Vec<bool>,
    pub months: Vec<bool>,
    pub days_of_week: Vec<bool>,
    pub day_of_month_restricted: bool,
    pub day_of_week_restricted: bool,
}

impl CronSchedule {
    pub open spec fn wf(&self) -> bool {
        &&& self.minutes@.len() == 60
        &&& self.hours@.len() == 24
        &&& self.days_of_month@.len() == 32
        &&& self.months@.len() == 13
        &&& self.days_of_week@.len() == 7
    }

    /// Whether the calendar fields `c` satisfy every field of the expression.
    pub open spec fn matches_fields(&self, c: CalendarMinute) -> bool {
        let dom = self.days_of_month@[c.day as int];
        let dow = self.days_of_week@[c.weekday as int];
        &&& self.minutes@[c.minute as int]
        &&& self.hours@[c.hour as int]
        &&& self.months@[c.month as int]
        &&& if self.day_of_month_restricted && self.day_of_week_restricted {
            dom || dow
        } else {
            dom && dow
        }
    }

    /// Whether the minute `m` (counted from the epoch) matches the expression.
    pub open spec fn matches_minute(&self, m: int) -> bool {
        self.matches_fields(calendar_of(m))
    }

    /// The first matching minute among `remaining` minutes starting at `m`.
    pub open spec fn first_match(&self, m: int, remaining: nat) -> Option<int>
        decreases remaining,
    {
        if remaining == 0 {
            None
        } else if self.matches_minute(m) {
            Some(m)
        } else {
            self.first_match(m + 1, (remaining - 1) as nat)
        }
    }

    /// The first whole minute strictly after the instant `after`.
    pub open spec fn first_candidate(after: int) -> int {
        after / (MS_PER_MINUTE as int) + 1
    }

    pub open spec fn next_spec(&self, after: int) -> Result<u64, ScheduleError> {
        let start = Self::first_candidate(after);
        if !self.wf() {
            Err(ScheduleError::InvalidSchedule)
        } else if start + CRON_HORIZON_MINUTES > MAX_CALENDAR_MINUTE + 1 {
            Err(ScheduleError::Overflow)
        } else {
            match self.first_match(start, CRON_HORIZON_MINUTES as nat) {
                Some(m) => Ok((m * MS_PER_MINUTE) as u64),
                None => Err(ScheduleError::NoOccurrence),
            }
        }
    }

    fn matches_calendar(&self, c: &CalendarMinute) -> (r: bool)
        requires
            self.wf(),
            c.minute < 60,
            c.hour < 24,
            1 <= c.day <= 31,
            1 <= c.month <= 12,
            c.weekday < 7,
        ensures
            r == self.matches_fields(*c),
    {
        let dom = self.days_of_month[c.day as usize];
        let dow = self.days_of_week[c.weekday as usize];
        let day_ok = if self.day_of_month_restricted && self.day_of_week_restricted {
            dom || dow
        } else {
            dom && dow
        };
        self.minutes[c.minute as usize] && self.hours[c.hour as usize] && self.months[c.month
            as usize] && day_ok
    }

    /// The smallest whole-minute instant strictly after `after` that matches every field,
    /// searched over a horizon of a little more than four years.
    pub fn next(&self, after: u64) -> (r: Result<u64, ScheduleError>)
        ensures
            r == self.next_spec(after as int),
    {
        if !(self.minutes.len() == 60 && self.hours.len() == 24 && self.days_of_month.len() == 32
            && self.months.len() == 13 && self.days_of_week.len() == 7) {
            return Err(ScheduleError::InvalidSchedule);
        }
        let start = after / MS_PER_MINUTE + 1;
        assert(start as int == CronSchedule::first_candidate(after as int));
        if start > MAX_CALENDAR_MINUTE + 1 - CRON_HORIZON_MINUTES {
            return Err(ScheduleError::Overflow);
        }
        let end = start + CRON_HORIZON_MINUTES;
        let mut m: u64 = start;
        while m < end
            invariant
                start <= m <= end,
                start as int == CronSchedule::first_candidate(after as int),
                end == start + CRON_HORIZON_MINUTES,
                end <= MAX_CALENDAR_MINUTE + 1,
                self.wf(),
                self.first_match(start as int, CRON_HORIZON_MINUTES as nat) == self.first_match(
                    m as int,
                    (end - m) as nat,
                ),
            decreases end - m,
        {
            let c = calendar_minute(m);
            if self.matches_calendar(&c) {
                assert(m * 60000 <= 6000000000060000) by (nonlinear_arith)
                    requires
                        m <= 100000000001,
                ;
                assert(self.first_match(m as int, (end - m) as nat) == Some(m as int));
                return Ok(m * MS_PER_MINUTE);
            }
            m = m + 1;
        }
        Err(ScheduleError::NoOccurrence)
    }
}

/// A schedule policy.
#[derive(Debug, Clone, PartialEq, Eq)]
pub enum Schedule {
    Delta(DeltaSchedule),
    Cron(CronSchedule),
}

impl Schedule {
    pub open spec fn wf(&self) -> bool {
        match self {
            Schedule::Delta(d) => d.wf(),
            Schedule::Cron(c) => c.wf(),
        }
    }

    pub open spec fn next_spec(&self, after: int) -> Result<u64, ScheduleError> {
        match self {
            Schedule::Delta(d) => d.next_spec(after),
            Schedule::Cron(c) => c.next_spec(after),
        }
    }

    /// The next occurrence strictly after `after`.
    pub fn next(&self, after: u64) -> (r: Result<u64, ScheduleError>)
        ensures
            r == self.next_spec(after as int),
            r matches Ok(t) ==> t > after,
    {
        proof {
            if let Schedule::Cron(c) = self {
                lemma_cron_next_is_least_match(c, after as int);
            }
        }
        match self {
            Schedule::Delta(d) => d.next(after),
            Schedule::Cron(c) => c.next(after),
        }
    }
}

proof fn lemma_first_match_bounds(c: &CronSchedule, m: int, remaining: nat)
    ensures
        c.first_match(m, remaining) matches Some(k) ==> m <= k < m + remaining
            && c.matches_minute(k) && forall|j: int| m <= j < k ==> !c.matches_minute(j),
        c.first_match(m, remaining) is None ==> forall|j: int|
            m <= j < m + remaining ==> !c.matches_minute(j),
    decreases remaining,
{
    if remaining > 0 && !c.matches_minute(m) {
        lemma_first_match_bounds(c, m + 1, (remaining - 1) as nat);
    }
}

/// A cron schedule's next occurrence is a whole minute strictly after the reference instant,
/// matches every field, and no earlier minute after the reference instant matches.
/// When the search finds nothing, no minute in the horizon matches.
pub proof fn lemma_cron_next_is_least_match(c: &CronSchedule, after: int)
    requires
        0 <= after <= u64::MAX,
    ensures
        c.next_spec(after) matches Ok(t) ==> {
            &&& t > after
            &&& t % MS_PER_MINUTE == 0
            &&& c.matches_minute((t / MS_PER_MINUTE) as int)
            &&& forall|m: int|
                #![trigger c.matches_minute(m)]
                after < m * MS_PER_MINUTE < t ==> !c.matches_minute(m)
        },
        c.next_spec(after) == Err::<u64, ScheduleError>(ScheduleError::NoOccurrence) ==> forall|
            m: int,
        |
            #![trigger c.matches_minute(m)]
            after < m * MS_PER_MINUTE <= (CronSchedule::first_candidate(after)
                + CRON_HORIZON_MINUTES - 1) * MS_PER_MINUTE ==> !c.matches_minute(m),
{
    let start = CronSchedule::first_candidate(after);
    lemma_first_match_bounds(c, start, CRON_HORIZON_MINUTES as nat);
    assert(start * 60000 > after && (start - 1) * 60000 <= after) by (nonlinear_arith)
        requires
            start == after / 60000 + 1,
            after >= 0,
    ;
    if let Some(k) = c.first_match(start, CRON_HORIZON_MINUTES as nat) {
        if start + CRON_HORIZON_MINUTES <= MAX_CALENDAR_MINUTE + 1 {
            assert(0 <= k * 60000 <= 6000000000060000 && k * 60000 > after) by (nonlinear_arith)
                requires
                    start <= k < start + 2200000,
                    start + 2200000 <= 100000000001,
                    start * 60000 > after,
                    start >= 1,
            ;
            assert((k * 60000) % 60000 == 0 && (k * 60000) / 60000 == k) by (nonlinear_arith)
                requires
                    k >= 0,
            ;
            assert forall|m: int| #![trigger c.matches_minute(m)]
                after < m * MS_PER_MINUTE < k * MS_PER_MINUTE implies !c.matches_minute(m) by {
                assert(start <= m < k) by (nonlinear_arith)
                    requires
                        after < m * 60000 < k * 60000,
                        (start - 1) * 60000 <= after,
                ;
            }
        }
    } else {
        assert forall|m: int| #![trigger c.matches_minute(m)]
            after < m * MS_PER_MINUTE <= (start + CRON_HORIZON_MINUTES - 1)
                * MS_PER_MINUTE implies !c.matches_minute(m) by {
            assert(start <= m < start + 2200000) by (nonlinear_arith)
                requires
                    after < m * 60000 <= (start + 2200000 - 1) * 60000,
                    (start - 1) * 60000 <= after,
            ;
        }
    }
}

} // verus!
