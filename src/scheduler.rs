//! The beat scheduler: the set of scheduled tasks, ordered by next occurrence.
//!
//! Publishing happens outside the scheduler. A tick at `now` is driven as follows:
//! while `due_task(now)` names an entry, its message is published and the outcome is
//! handed back through `task_published` or `publish_failed`; then `next_tick_at` gives
//! the instant of the next tick.

use crate::schedule::{Schedule, ScheduleError};
use crate::scheduled_task::{catch_up_spec, MessageContentType, ScheduledTask};
use vstd::prelude::*;

verus! {

/// Whether `a` fires before `b`: earlier occurrence first, then earlier registration,
/// then earlier position.
pub open spec fn fires_before(a: ScheduledTask, ia: int, b: ScheduledTask, ib: int) -> bool {
    a.next_call_at < b.next_call_at || (a.next_call_at == b.next_call_at && (a.id < b.id || (a.id
        == b.id && ia <= ib)))
}

/// The earliest next occurrence among `tasks`.
pub open spec fn earliest(tasks: Seq<ScheduledTask>) -> Option<u64>
    decreases tasks.len(),
{
    if tasks.len() == 0 {
        None
    } else {
        let rest = earliest(tasks.drop_last());
        let t = tasks.last().next_call_at;
        match rest {
            Some(r) => if r <= t {
                Some(r)
            } else {
                Some(t)
            },
            None => Some(t),
        }
    }
}

/// What a whole firing of an entry at `now` yields: the run is recorded at the entry's
/// own occurrence time, then missed occurrences up to `now` are skipped.
pub open spec fn fired_next(t: ScheduledTask, now: int) -> Result<u64, ScheduleError> {
    match t.schedule.next_spec(t.next_call_at as int) {
        Ok(n) => catch_up_spec(t.schedule, n as int, now),
        Err(e) => Err(e),
    }
}

/// The beat scheduler.
#[derive(Debug)]
pub struct Scheduler {
    /// The entries; a scheduler backend may edit them between ticks.
    pub tasks: Vec<ScheduledTask>,
    /// The registration number the next entry receives.
    pub next_id: u64,
}

impl Scheduler {
    /// Whether entry `i` is the one to publish at `now`.
    pub open spec fn is_due(&self, i: int, now: int) -> bool {
        &&& 0 <= i < self.tasks@.len()
        &&& self.tasks@[i].next_call_at <= now
        &&& forall|j: int|
            0 <= j < self.tasks@.len() ==> fires_before(self.tasks@[i], i, #[trigger] self.tasks@[j], j)
    }

    /// An empty scheduler.
    pub fn new() -> (r: Scheduler)
        ensures
            r.tasks@.len() == 0,
            r.next_id == 0,
    {
        Scheduler { tasks: Vec::new(), next_id: 0 }
    }

    /// Adds an entry whose first occurrence is `schedule.next(now)`, and returns its
    /// registration number.
    pub fn schedule_task(
        &mut self,
        name: String,
        queue: String,
        content_type: Option<MessageContentType>,
        schedule: Schedule,
        now: u64,
    ) -> (r: Result<u64, ScheduleError>)
        ensures
            r is Err ==> final(self).tasks@ == old(self).tasks@,
            r is Err <==> (schedule.next_spec(now as int) is Err || old(self).next_id == u64::MAX),
            r is Ok ==> {
                let t = final(self).tasks@.last();
                &&& final(self).tasks@.len() == old(self).tasks@.len() + 1
                &&& final(self).tasks@.drop_last() == old(self).tasks@
                &&& r == Ok::<u64, ScheduleError>(t.id)
                &&& t.name == name
                &&& t.queue == queue
                &&& t.content_type == content_type
                &&& t.schedule == schedule
                &&& t.last_run_at is None
                &&& t.total_run_count == 0
                &&& schedule.next_spec(now as int) == Ok::<u64, ScheduleError>(t.next_call_at)
                &&& t.id == old(self).next_id
                &&& final(self).next_id == old(self).next_id + 1
            },
            r == Err::<u64, ScheduleError>(ScheduleError::Overflow) <== old(self).next_id
                == u64::MAX,
    {
        if self.next_id == u64::MAX {
            return Err(ScheduleError::Overflow);
        }
        let id = self.next_id;
        let task = ScheduledTask::new(id, name, queue, content_type, schedule, now)?;
        self.tasks.push(task);
        self.next_id = id + 1;
        Ok(id)
    }

    /// The entry to publish at `now`: among the entries whose next occurrence is at or
    /// before `now`, the one with the earliest occurrence, ties going to the earlier
    /// registration. `None` when nothing is due.
    pub fn due_task(&self, now: u64) -> (r: Option<usize>)
        ensures
            r matches Some(i) ==> self.is_due(i as int, now as int),
            r is None <==> forall|j: int|
                0 <= j < self.tasks@.len() ==> #[trigger] self.tasks@[j].next_call_at > now,
    {
        let n = self.tasks.len();
        if n == 0 {
            return None;
        }
        let mut best: usize = 0;
        let mut i: usize = 1;
        while i < n
            invariant
                n == self.tasks@.len(),
                1 <= i <= n,
                best < i,
                forall|j: int|
                    0 <= j < i ==> fires_before(self.tasks@[best as int], best as int, #[trigger] self.tasks@[j], j),
            decreases n - i,
        {
            let a = &self.tasks[best];
            let b = &self.tasks[i];
            if b.next_call_at < a.next_call_at || (b.next_call_at == a.next_call_at && b.id < a.id) {
                best = i;
            }
            i = i + 1;
        }
        if self.tasks[best].next_call_at <= now {
            Some(best)
        } else {
            None
        }
    }

    /// Records a successful publish of entry `i` at `now`: the run is recorded at the
    /// entry's own occurrence time (so missed ticks do not shift its phase), then the
    /// next occurrence is moved past `now`. On a scheduling fault the entry keeps whatever
    /// the failing step left, and the fault is returned.
    pub fn task_published(&mut self, i: usize, now: u64) -> (r: Result<(), ScheduleError>)
        requires
            i < old(self).tasks@.len(),
        ensures
            final(self).tasks@.len() == old(self).tasks@.len(),
            forall|j: int|
                0 <= j < old(self).tasks@.len() && j != i ==> #[trigger] final(self).tasks@[j]
                    == old(self).tasks@[j],
            r is Err <==> fired_next(old(self).tasks@[i as int], now as int) is Err,
            r is Ok ==> {
                let before = old(self).tasks@[i as int];
                let after = final(self).tasks@[i as int];
                &&& fired_next(before, now as int) == Ok::<u64, ScheduleError>(after.next_call_at)
                &&& after.next_call_at > now
                &&& after.last_run_at == Some(before.next_call_at)
                &&& after.total_run_count == if before.total_run_count < u64::MAX {
                    (before.total_run_count + 1) as u64
                } else {
                    before.total_run_count
                }
                &&& after.id == before.id
                &&& after.name == before.name
                &&& after.queue == before.queue
                &&& after.schedule == before.schedule
            },
    {
        let mut task = self.tasks.remove(i);
        assert(task == old(self).tasks@[i as int]);
        let at = task.next_call_at;
        let fired = task.mark_fired(at);
        let r = match fired {
            Ok(()) => task.catch_up(now),
            Err(e) => Err(e),
        };
        self.tasks.insert(i, task);
        assert forall|j: int|
            0 <= j < old(self).tasks@.len() && j != i implies #[trigger] self.tasks@[j]
                == old(self).tasks@[j] by {}
        r
    }

    /// Records a failed publish of entry `i` at `now`. After a connection error the entry
    /// is left unchanged, so it is published again once the broker is back; after any
    /// other error the entry advances as after a successful publish.
    pub fn publish_failed(&mut self, i: usize, connection_error: bool, now: u64) -> (r: Result<
        (),
        ScheduleError,
    >)
        requires
            i < old(self).tasks@.len(),
        ensures
            final(self).tasks@.len() == old(self).tasks@.len(),
            connection_error ==> final(self).tasks@ == old(self).tasks@ && r is Ok,
            !connection_error ==> (r is Err <==> fired_next(old(self).tasks@[i as int], now as int) is Err),
            !connection_error && r is Ok ==> fired_next(old(self).tasks@[i as int], now as int)
                == Ok::<u64, ScheduleError>(final(self).tasks@[i as int].next_call_at)
                && final(self).tasks@[i as int].next_call_at > now,
            forall|j: int|
                0 <= j < old(self).tasks@.len() && j != i ==> #[trigger] final(self).tasks@[j]
                    == old(self).tasks@[j],
    {
        if connection_error {
            Ok(())
        } else {
            self.task_published(i, now)
        }
    }

    /// The instant of the next tick: the earliest next occurrence, or `now` plus
    /// `default_interval` (saturating) when there is no entry.
    pub fn next_tick_at(&self, now: u64, default_interval: u64) -> (r: u64)
        ensures
            r == match earliest(self.tasks@) {
                Some(t) => t,
                None => if now + default_interval <= u64::MAX {
                    (now + default_interval) as u64
                } else {
                    u64::MAX
                },
            },
    {
        let n = self.tasks.len();
        let mut best: Option<u64> = None;
        let mut i: usize = 0;
        while i < n
            invariant
                n == self.tasks@.len(),
                0 <= i <= n,
                best == earliest(self.tasks@.take(i as int)),
            decreases n - i,
        {
            assert(self.tasks@.take(i + 1).drop_last() == self.tasks@.take(i as int));
            let t = self.tasks[i].next_call_at;
            best = match best {
                Some(b) => if b <= t {
                    Some(b)
                } else {
                    Some(t)
                },
                None => Some(t),
            };
            i = i + 1;
        }
        assert(self.tasks@.take(n as int) == self.tasks@);
        match best {
            Some(b) => b,
            None => now.saturating_add(default_interval),
        }
    }
}

/// A tick at `now` goes on publishing while entry `i` has an occurrence at or before `now`
/// (some entry is still due); once `i` has been published its next occurrence lies after
/// `now`, so the same tick does not publish it again.
pub proof fn lemma_tick_publishes_entry_once(before: Scheduler, after: Scheduler, i: int, now: int)
    requires
        0 <= i < before.tasks@.len(),
        before.tasks@[i].next_call_at <= now,
        0 <= i < after.tasks@.len(),
        after.tasks@[i].next_call_at > now,
    ensures
        !(forall|j: int| 0 <= j < before.tasks@.len() ==> #[trigger] before.tasks@[j].next_call_at > now),
        !after.is_due(i, now),
{
    assert(before.tasks@[i].next_call_at <= now);
}

/// Within one tick, an entry whose occurrences were missed is published at most once:
/// after the publish is recorded, it is no longer due at the same `now`, whatever the
/// number of missed occurrences.
pub proof fn lemma_catch_up_publishes_once(before: Scheduler, after: Scheduler, i: int, now: int)
    requires
        0 <= i < before.tasks@.len(),
        after.tasks@.len() == before.tasks@.len(),
        fired_next(before.tasks@[i], now) == Ok::<u64, ScheduleError>(after.tasks@[i].next_call_at),
        0 <= now <= u64::MAX,
    ensures
        after.tasks@[i].next_call_at > now,
        !after.is_due(i, now),
{
    let t = before.tasks@[i];
    if let Ok(n) = t.schedule.next_spec(t.next_call_at as int) {
        lemma_catch_up_lands_after(t.schedule, n as int, now);
    }
}

/// Catching up always lands strictly after `now`.
pub proof fn lemma_catch_up_lands_after(s: Schedule, x: int, now: int)
    requires
        0 <= x <= u64::MAX,
    ensures
        catch_up_spec(s, x, now) matches Ok(t) ==> t > now,
    decreases (if x > now { 0 } else { now - x + 1 }),
{
    if x <= now {
        if let Ok(y) = s.next_spec(x) {
            crate::scheduled_task::lemma_mark_fired_moves_forward(s, x as u64, y);
            lemma_catch_up_lands_after(s, y as int, now);
        }
    }
}

} // verus!

verus! {

/// One step of a tick at `now`: entry `j` was the one due, it was published, and the
/// publish was recorded (its next occurrence moved past `now`), leaving every other entry
/// as it was.
pub open spec fn tick_step(a: Scheduler, b: Scheduler, j: int, now: int) -> bool {
    &&& a.is_due(j, now)
    &&& b.tasks@.len() == a.tasks@.len()
    &&& forall|k: int| 0 <= k < a.tasks@.len() && k != j ==> #[trigger] b.tasks@[k] == a.tasks@[k]
    &&& fired_next(a.tasks@[j], now) == Ok::<u64, ScheduleError>(b.tasks@[j].next_call_at)
}

/// Whether `states` and `picks` record a whole tick at `now`: each step publishes the due
/// entry, and at the end nothing is due.
pub open spec fn is_tick(states: Seq<Scheduler>, picks: Seq<int>, now: int) -> bool {
    &&& states.len() == picks.len() + 1
    &&& forall|k: int| 0 <= k < picks.len() ==> tick_step(states[k], states[k + 1], #[trigger] picks[k], now)
    &&& forall|j: int|
        0 <= j < states.last().tasks@.len() ==> #[trigger] states.last().tasks@[j].next_call_at > now
}

proof fn lemma_tick_prefix(states: Seq<Scheduler>, picks: Seq<int>, i: int, now: int, m: int)
    requires
        states.len() == picks.len() + 1,
        forall|k: int| 0 <= k < picks.len() ==> tick_step(states[k], states[k + 1], #[trigger] picks[k], now),
        0 <= i < states[0].tasks@.len(),
        states[0].tasks@[i].next_call_at <= now,
        0 <= now <= u64::MAX,
        0 <= m < states.len(),
    ensures
        states[m].tasks@.len() == states[0].tasks@.len(),
        (states[m].tasks@[i].next_call_at <= now && forall|k: int| 0 <= k < m ==> picks[k] != i)
            || (states[m].tasks@[i].next_call_at > now && exists|k: int| 0 <= k < m && picks[k] == i
            && forall|k2: int| 0 <= k2 < m && picks[k2] == i ==> k2 == k),
    decreases m,
{
    if m > 0 {
        lemma_tick_prefix(states, picks, i, now, m - 1);
        let a = states[m - 1];
        let b = states[m];
        let j = picks[m - 1];
        assert(tick_step(a, b, j, now));
        if j == i {
            let t = a.tasks@[i];
            if let Ok(n) = t.schedule.next_spec(t.next_call_at as int) {
                lemma_catch_up_lands_after(t.schedule, n as int, now);
            }
            assert(b.tasks@[i].next_call_at > now);
            assert(a.tasks@[i].next_call_at <= now);
            assert forall|k2: int| 0 <= k2 < m && picks[k2] == i implies k2 == m - 1 by {}
        } else {
            assert(b.tasks@[i] == a.tasks@[i]);
            if a.tasks@[i].next_call_at > now {
                let k = choose|k: int| 0 <= k < m - 1 && picks[k] == i && forall|k2: int|
                    0 <= k2 < m - 1 && picks[k2] == i ==> k2 == k;
                assert forall|k2: int| 0 <= k2 < m && picks[k2] == i implies k2 == k by {}
            }
        }
    }
}

/// Registering an entry and then ticking at a time at or after its first occurrence
/// publishes that entry exactly once in the tick.
pub proof fn lemma_tick_publishes_due_entry_exactly_once(
    states: Seq<Scheduler>,
    picks: Seq<int>,
    i: int,
    now: int,
)
    requires
        is_tick(states, picks, now),
        0 <= i < states[0].tasks@.len(),
        states[0].tasks@[i].next_call_at <= now,
        0 <= now <= u64::MAX,
    ensures
        exists|k: int| 0 <= k < picks.len() && picks[k] == i && forall|k2: int|
            0 <= k2 < picks.len() && picks[k2] == i ==> k2 == k,
{
    let m = picks.len() as int;
    lemma_tick_prefix(states, picks, i, now, m);
    assert(states[m] == states.last());
    assert(states[m].tasks@[i].next_call_at > now);
}

} // verus!
