//! Recurring task scheduling and task-result bookkeeping for a Celery-compatible
//! task system: schedule policies, the beat scheduler's queue of scheduled tasks,
//! the beat service's reconnect decisions, and the result-backend record model.

pub mod schedule;
pub mod cron;
pub mod scheduled_task;
pub mod scheduler;
pub mod backend;
pub mod address;
pub mod redis;
pub mod mongo;
pub mod async_result;
pub mod beat;
pub mod routing;
