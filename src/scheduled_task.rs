//! A scheduled task: a task's destination and schedule, together with its run state.

use crate::schedule::{Schedule, ScheduleError};
use vstd::prelude::*;

verus! {

/// Advances `x` by the schedule until it lies strictly after `now`.
pub open spec fn catch_up_spec(s: Schedule, x: int, now: int) -> Result<u64, ScheduleError>
    decreases (if x > now { 0 } else { now - x + 1 }),
{
    if x > now {
        Ok(x as u64)
    } else {
        match s.next_spec(x) {
            Ok(y) => if y > x {
                catch_up_spec(s, y as int, now)
            } else {
                Ok(y)
            },
            Err(e) => Err(e),
        }
    }
}

/// Serialization of message bodies.
#[derive(Debug, Clone, Copy, PartialEq, Eq, Structural)]
pub enum MessageContentType {
    Json,
    Yaml,
    Pickle,
    MsgPack,
}

/// An entry of the beat scheduler.
#[derive(Debug)]
pub struct ScheduledTask {
    /// Registration number; earlier registrations fire first among equal times.
    pub id: u64,
    /// Display name.
    pub name: String,
    /// Destination queue.
    pub queue: String,
    pub schedule: Schedule,
    /// Body serialization of the entry's messages; `None` leaves the broker's default.
    pub content_type: Option<MessageContentType>,
    pub last_run_at: Option<u64>,
    pub total_run_count: u64,
    pub next_call_at: u64,
}

impl ScheduledTask {
    /// A new entry that has never run; its first occurrence is `schedule.next(now)`.
    pub fn new(
        id: u64,
        name: String,
        queue: String,
        content_type: Option<MessageContentType>,
        schedule: Schedule,
        now: u64,
    ) -> (r: Result<
        ScheduledTask,
        ScheduleError,
    >)
        ensures
            r is Err <==> schedule.next_spec(now as int) is Err,
            r matches Err(e) ==> schedule.next_spec(now as int) == Err::<u64, ScheduleError>(e),
            r matches Ok(t) ==> {
                &&& t.id == id
                &&& t.name == name
                &&& t.queue == queue
                &&& t.content_type == content_type
                &&& t.schedule == schedule
                &&& t.last_run_at is None
                &&& t.total_run_count == 0
                &&& schedule.next_spec(now as int) == Ok::<u64, ScheduleError>(t.next_call_at)
            },
    {
        match schedule.next(now) {
            Ok(next_call_at) => Ok(
                ScheduledTask {
                    id,
                    name,
                    queue,
                    schedule,
                    content_type,
                    last_run_at: None,
                    total_run_count: 0,
                    next_call_at,
                },
            ),
            Err(e) => Err(e),
        }
    }

    /// Records a run at `at`: the last run becomes `at`, the run count grows by one
    /// (saturating), and the next occurrence is `schedule.next(at)`. On a scheduling
    /// fault the entry is left unchanged.
    pub fn mark_fired(&mut self, at: u64) -> (r: Result<(), ScheduleError>)
        ensures
            r is Err <==> old(self).schedule.next_spec(at as int) is Err,
            r is Err ==> *final(self) == *old(self),
            r is Ok ==> {
                &&& final(self).last_run_at == Some(at)
                &&& final(self).total_run_count == if old(self).total_run_count < u64::MAX {
                    (old(self).total_run_count + 1) as u64
                } else {
                    old(self).total_run_count
                }
                &&& old(self).schedule.next_spec(at as int) == Ok::<u64, ScheduleError>(
                    final(self).next_call_at,
                )
                &&& final(self).next_call_at > at
                &&& final(self).id == old(self).id
                &&& final(self).name == old(self).name
                &&& final(self).queue == old(self).queue
                &&& final(self).content_type == old(self).content_type
                &&& final(self).schedule == old(self).schedule
            },
    {
        match self.schedule.next(at) {
            Ok(next) => {
                self.last_run_at = Some(at);
                self.total_run_count = self.total_run_count.saturating_add(1);
                self.next_call_at = next;
                Ok(())
            },
            Err(e) => Err(e),
        }
    }

    /// Moves the next occurrence forward by the schedule until it lies strictly after `now`,
    /// so that missed occurrences collapse into the run already recorded.
    pub fn catch_up(&mut self, now: u64) -> (r: Result<(), ScheduleError>)
        ensures
            r is Err <==> catch_up_spec(old(self).schedule, old(self).next_call_at as int, now as int) is Err,
            r matches Err(e) ==> catch_up_spec(old(self).schedule, old(self).next_call_at as int, now as int) == Err::<u64, ScheduleError>(e),
            r is Ok ==> final(self).next_call_at > now && catch_up_spec(
                old(self).schedule,
                old(self).next_call_at as int,
                now as int,
            ) == Ok::<u64, ScheduleError>(final(self).next_call_at),
            final(self).id == old(self).id,
            final(self).name == old(self).name,
            final(self).queue == old(self).queue,
            final(self).content_type == old(self).content_type,
            final(self).schedule == old(self).schedule,
            final(self).last_run_at == old(self).last_run_at,
            final(self).total_run_count == old(self).total_run_count,
    {
        loop
            invariant
                self.schedule == old(self).schedule,
                self.id == old(self).id,
                self.name == old(self).name,
                self.queue == old(self).queue,
                self.content_type == old(self).content_type,
                self.last_run_at == old(self).last_run_at,
                self.total_run_count == old(self).total_run_count,
                catch_up_spec(old(self).schedule, old(self).next_call_at as int, now as int)
                    == catch_up_spec(self.schedule, self.next_call_at as int, now as int),
            ensures
                self.next_call_at > now,
                catch_up_spec(old(self).schedule, old(self).next_call_at as int, now as int)
                    == Ok::<u64, ScheduleError>(self.next_call_at),
            decreases (if self.next_call_at > now { 0 } else { now - self.next_call_at + 1 }),
        {
            if self.next_call_at > now {
                break;
            }
            match self.schedule.next(self.next_call_at) {
                Ok(next) => {
                    self.next_call_at = next;
                },
                Err(e) => {
                    return Err(e);
                },
            }
        }
        Ok(())
    }

    /// Replaces the schedule; the next occurrence is recomputed from the last run, or from
    /// `now` if the entry never ran. On a scheduling fault the entry is left unchanged.
    pub fn replace_schedule(&mut self, schedule: Schedule, now: u64) -> (r: Result<
        (),
        ScheduleError,
    >)
        ensures
            ({
                let from = match old(self).last_run_at {
                    Some(t) => t,
                    None => now,
                };
                &&& r is Err <==> schedule.next_spec(from as int) is Err
                &&& r is Err ==> *final(self) == *old(self)
                &&& r is Ok ==> final(self).schedule == schedule && schedule.next_spec(
                    from as int,
                ) == Ok::<u64, ScheduleError>(final(self).next_call_at) && final(self).id == old(
                    self,
                ).id && final(self).name == old(self).name && final(self).queue == old(self).queue
                    && final(self).last_run_at == old(self).last_run_at
                    && final(self).total_run_count == old(self).total_run_count
            }),
    {
        let from = match self.last_run_at {
            Some(t) => t,
            None => now,
        };
        match schedule.next(from) {
            Ok(next) => {
                self.schedule = schedule;
                self.next_call_at = next;
                Ok(())
            },
            Err(e) => Err(e),
        }
    }
}

/// After a run is recorded at `t`, the next occurrence lies strictly after `t`.
pub proof fn lemma_mark_fired_moves_forward(s: Schedule, t: u64, next: u64)
    requires
        s.next_spec(t as int) == Ok::<u64, ScheduleError>(next),
    ensures
        next > t,
{
    if let Schedule::Cron(c) = s {
        crate::schedule::lemma_cron_next_is_least_match(&c, t as int);
    }
}

} // verus!
