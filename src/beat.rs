//! The beat service: its configuration, task registration, and the decisions of its
//! outer loop (how long to sleep, when and how often to reconnect to the broker).
//!
//! The loop itself runs outside: it ticks the scheduler, runs the scheduler backend's
//! sync, sleeps for `sleep_duration`, and asks `after_loop` / `after_reconnect` what to
//! do when the tick loop stops.

use crate::address::{url_scheme, url_scheme_of};
use crate::backend::same_text;
use crate::routing::{route, route_spec};
use crate::schedule::{Schedule, ScheduleError};
use crate::scheduled_task::{MessageContentType, ScheduledTask};
use crate::scheduler::Scheduler;
use vstd::prelude::*;

verus! {

/// The kind of broker a URL names.
#[derive(Debug, Clone, Copy, PartialEq, Eq, Structural)]
pub enum BrokerKind {
    Amqp,
    Redis,
}

/// The broker kind for `url`: `amqp` and `redis` schemes are supported.
pub open spec fn broker_kind_of(url: Seq<char>) -> Option<BrokerKind> {
    match url_scheme_of(url) {
        Some(s) => if s == "amqp"@ {
            Some(BrokerKind::Amqp)
        } else if s == "redis"@ {
            Some(BrokerKind::Redis)
        } else {
            None
        },
        None => None,
    }
}

/// The broker kind for `url`, or `None` for an invalid URL or an unsupported scheme.
pub fn broker_kind(url: &str) -> (r: Option<BrokerKind>)
    ensures
        r == broker_kind_of(url@),
{
    match url_scheme(url) {
        Some(s) => {
            if same_text(s.as_str(), "amqp") {
                Some(BrokerKind::Amqp)
            } else if same_text(s.as_str(), "redis") {
                Some(BrokerKind::Redis)
            } else {
                None
            }
        },
        None => None,
    }
}

/// Failures reported by the broker.
#[derive(Debug, Clone, PartialEq, Eq)]
pub enum BrokerError {
    /// The connection to the broker is down or could not be made.
    Connection(String),
    /// Every reconnect attempt failed.
    NotConnected,
    /// Any other broker failure.
    Other(String),
}

impl BrokerError {
    /// Whether the error is about the connection, which a reconnect may mend.
    pub fn is_connection_error(&self) -> (r: bool)
        ensures
            r == (self is Connection || self is NotConnected),
    {
        match self {
            BrokerError::Connection(_) | BrokerError::NotConnected => true,
            BrokerError::Other(_) => false,
        }
    }
}

/// Failures of the beat service.
#[derive(Debug, Clone, PartialEq, Eq)]
pub enum BeatError {
    BrokerError(BrokerError),
    /// A schedule could not produce its next occurrence.
    ScheduleError(ScheduleError),
    /// The broker URL is invalid or its scheme is not supported.
    UnsupportedBroker(String),
    /// The scheduler backend failed to synchronize.
    SyncError(String),
}

/// Keeps the scheduler in step with an external source of scheduled tasks.
pub trait SchedulerBackend {
    /// Whether a sync is wanted now.
    fn should_sync(&self) -> bool;

    /// Adds, removes or edits scheduled tasks.
    fn sync(&mut self, tasks: &mut Vec<ScheduledTask>) -> Result<(), BeatError>;
}

/// The scheduler backend that never syncs: the tasks registered in code are the whole set.
#[derive(Debug, Clone, Copy, PartialEq, Eq, Structural)]
pub struct LocalSchedulerBackend {}

impl LocalSchedulerBackend {
    pub fn new() -> (r: LocalSchedulerBackend) {
        LocalSchedulerBackend {  }
    }
}

impl SchedulerBackend for LocalSchedulerBackend {
    fn should_sync(&self) -> (r: bool)
        ensures
            !r,
    {
        false
    }

    fn sync(&mut self, tasks: &mut Vec<ScheduledTask>) -> (r: Result<(), BeatError>)
        ensures
            r is Ok,
            final(tasks)@ == old(tasks)@,
    {
        Ok(())
    }
}

/// Default seconds before a broker connection attempt gives up.
pub const DEFAULT_CONNECTION_TIMEOUT: u32 = 2;

/// Default number of reconnect attempts.
pub const DEFAULT_MAX_RETRIES: u32 = 5;

/// Default seconds between reconnect attempts.
pub const DEFAULT_RETRY_DELAY: u32 = 5;

/// Configuration of a beat service.
#[derive(Debug)]
pub struct BeatBuilder<Sb> {
    pub name: String,
    pub broker_url: String,
    pub broker_kind: BrokerKind,
    /// Broker heartbeat in seconds; `None` keeps the broker's default.
    pub heartbeat: Option<u16>,
    pub broker_connection_timeout: u32,
    pub broker_connection_retry: bool,
    pub broker_connection_max_retries: u32,
    pub broker_connection_retry_delay: u32,
    pub default_queue: String,
    /// Routing rules `(pattern, queue)`, in order.
    pub task_routes: Vec<(String, String)>,
    pub task_content_type: Option<MessageContentType>,
    /// Longest sleep between two ticks, in milliseconds.
    pub max_sleep_duration: Option<u64>,
    pub scheduler_backend: Sb,
}

/// Whether `b` holds the default configuration for `name` and `broker_url`.
pub open spec fn is_default_config<Sb>(b: BeatBuilder<Sb>, name: Seq<char>, broker_url: Seq<char>) -> bool {
    &&& b.name@ == name
    &&& b.broker_url@ == broker_url
    &&& broker_kind_of(broker_url) == Some(b.broker_kind)
    &&& b.heartbeat is None
    &&& b.broker_connection_timeout == DEFAULT_CONNECTION_TIMEOUT
    &&& b.broker_connection_retry
    &&& b.broker_connection_max_retries == DEFAULT_MAX_RETRIES
    &&& b.broker_connection_retry_delay == DEFAULT_RETRY_DELAY
    &&& b.default_queue@ == "celery"@
    &&& b.task_routes@.len() == 0
    &&& b.task_content_type is None
    &&& b.max_sleep_duration is None
}

impl BeatBuilder<LocalSchedulerBackend> {
    /// A builder with the default configuration and the local scheduler backend;
    /// fails when the broker URL is invalid or not `amqp` / `redis`.
    pub fn with_default_scheduler_backend(name: &str, broker_url: &str) -> (r: Result<
        BeatBuilder<LocalSchedulerBackend>,
        BeatError,
    >)
        ensures
            r is Ok <==> broker_kind_of(broker_url@) is Some,
            r matches Ok(b) ==> is_default_config(b, name@, broker_url@),
            r matches Err(e) ==> e is UnsupportedBroker,
    {
        BeatBuilder::with_custom_scheduler_backend(name, broker_url, LocalSchedulerBackend::new())
    }
}

impl<Sb> BeatBuilder<Sb> {
    /// A builder with the default configuration and the given scheduler backend;
    /// fails when the broker URL is invalid or not `amqp` / `redis`.
    pub fn with_custom_scheduler_backend(name: &str, broker_url: &str, scheduler_backend: Sb) -> (r:
        Result<BeatBuilder<Sb>, BeatError>)
        ensures
            r is Ok <==> broker_kind_of(broker_url@) is Some,
            r matches Ok(b) ==> is_default_config(b, name@, broker_url@) && b.scheduler_backend
                == scheduler_backend,
            r matches Err(e) ==> e is UnsupportedBroker,
    {
        match broker_kind(broker_url) {
            Some(kind) => Ok(
                BeatBuilder {
                    name: name.to_string(),
                    broker_url: broker_url.to_string(),
                    broker_kind: kind,
                    heartbeat: None,
                    broker_connection_timeout: DEFAULT_CONNECTION_TIMEOUT,
                    broker_connection_retry: true,
                    broker_connection_max_retries: DEFAULT_MAX_RETRIES,
                    broker_connection_retry_delay: DEFAULT_RETRY_DELAY,
                    default_queue: "celery".to_string(),
                    task_routes: Vec::new(),
                    task_content_type: None,
                    max_sleep_duration: None,
                    scheduler_backend,
                },
            ),
            None => Err(BeatError::UnsupportedBroker(broker_url.to_string())),
        }
    }

    /// Sets the default queue.
    pub fn default_queue(self, queue_name: &str) -> (r: BeatBuilder<Sb>)
        ensures
            r == (BeatBuilder { default_queue: r.default_queue, ..self }),
            r.default_queue@ == queue_name@,
    {
        BeatBuilder { default_queue: queue_name.to_string(), ..self }
    }

    /// Sets the broker heartbeat.
    pub fn heartbeat(self, heartbeat: Option<u16>) -> (r: BeatBuilder<Sb>)
        ensures
            r == (BeatBuilder { heartbeat, ..self }),
    {
        BeatBuilder { heartbeat, ..self }
    }

    /// Appends a routing rule.
    pub fn task_route(self, pattern: &str, queue: &str) -> (r: BeatBuilder<Sb>)
        ensures
            r == (BeatBuilder { task_routes: r.task_routes, ..self }),
            r.task_routes@.len() == self.task_routes@.len() + 1,
            r.task_routes@.drop_last() == self.task_routes@,
            r.task_routes@.last().0@ == pattern@,
            r.task_routes@.last().1@ == queue@,
    {
        let mut b = self;
        b.task_routes.push((pattern.to_string(), queue.to_string()));
        b
    }

    /// Sets the broker connection timeout, in seconds.
    pub fn broker_connection_timeout(self, timeout: u32) -> (r: BeatBuilder<Sb>)
        ensures
            r == (BeatBuilder { broker_connection_timeout: timeout, ..self }),
    {
        BeatBuilder { broker_connection_timeout: timeout, ..self }
    }

    /// Sets whether a lost broker connection is re-established.
    pub fn broker_connection_retry(self, retry: bool) -> (r: BeatBuilder<Sb>)
        ensures
            r == (BeatBuilder { broker_connection_retry: retry, ..self }),
    {
        BeatBuilder { broker_connection_retry: retry, ..self }
    }

    /// Sets the number of reconnect attempts.
    pub fn broker_connection_max_retries(self, max_retries: u32) -> (r: BeatBuilder<Sb>)
        ensures
            r == (BeatBuilder { broker_connection_max_retries: max_retries, ..self }),
    {
        BeatBuilder { broker_connection_max_retries: max_retries, ..self }
    }

    /// Sets the seconds between reconnect attempts.
    pub fn broker_connection_retry_delay(self, retry_delay: u32) -> (r: BeatBuilder<Sb>)
        ensures
            r == (BeatBuilder { broker_connection_retry_delay: retry_delay, ..self }),
    {
        BeatBuilder { broker_connection_retry_delay: retry_delay, ..self }
    }

    /// Sets the body serialization of the messages.
    pub fn task_content_type(self, content_type: MessageContentType) -> (r: BeatBuilder<Sb>)
        ensures
            r == (BeatBuilder { task_content_type: Some(content_type), ..self }),
    {
        BeatBuilder { task_content_type: Some(content_type), ..self }
    }

    /// Caps the sleep between two ticks, in milliseconds.
    pub fn max_sleep_duration(self, max_sleep_duration: u64) -> (r: BeatBuilder<Sb>)
        ensures
            r == (BeatBuilder { max_sleep_duration: Some(max_sleep_duration), ..self }),
    {
        BeatBuilder { max_sleep_duration: Some(max_sleep_duration), ..self }
    }

    /// How many times the first broker connection is retried: the configured number when
    /// retrying is enabled, zero otherwise.
    pub fn connect_retries(&self) -> (r: u32)
        ensures
            r == if self.broker_connection_retry {
                self.broker_connection_max_retries
            } else {
                0
            },
    {
        if self.broker_connection_retry {
            self.broker_connection_max_retries
        } else {
            0
        }
    }

    /// The beat service with this configuration and an empty scheduler.
    pub fn build(self) -> (r: Beat<Sb>)
        ensures
            r.name == self.name,
            r.scheduler.tasks@.len() == 0,
            r.scheduler.next_id == 0,
            r.scheduler_backend == self.scheduler_backend,
            r.task_routes == self.task_routes,
            r.default_queue == self.default_queue,
            r.task_content_type == self.task_content_type,
            r.broker_connection_timeout == self.broker_connection_timeout,
            r.broker_connection_retry == self.broker_connection_retry,
            r.broker_connection_max_retries == self.broker_connection_max_retries,
            r.broker_connection_retry_delay == self.broker_connection_retry_delay,
            r.max_sleep_duration == self.max_sleep_duration,
    {
        Beat {
            name: self.name,
            scheduler: Scheduler::new(),
            scheduler_backend: self.scheduler_backend,
            task_routes: self.task_routes,
            default_queue: self.default_queue,
            task_content_type: self.task_content_type,
            broker_connection_timeout: self.broker_connection_timeout,
            broker_connection_retry: self.broker_connection_retry,
            broker_connection_max_retries: self.broker_connection_max_retries,
            broker_connection_retry_delay: self.broker_connection_retry_delay,
            max_sleep_duration: self.max_sleep_duration,
        }
    }
}

/// What the outer loop does next.
#[derive(Debug, PartialEq, Eq)]
pub enum BeatAction {
    /// Run the tick loop (again).
    RunLoop,
    /// Wait `delay` seconds, then try to reconnect with a `timeout` in seconds.
    Reconnect { delay: u32, timeout: u32 },
    /// Stop with this outcome.
    Stop(Result<(), BeatError>),
}

/// The beat service.
#[derive(Debug)]
pub struct Beat<Sb> {
    pub name: String,
    pub scheduler: Scheduler,
    pub scheduler_backend: Sb,
    pub task_routes: Vec<(String, String)>,
    pub default_queue: String,
    pub task_content_type: Option<MessageContentType>,
    pub broker_connection_timeout: u32,
    pub broker_connection_retry: bool,
    pub broker_connection_max_retries: u32,
    pub broker_connection_retry_delay: u32,
    pub max_sleep_duration: Option<u64>,
}

impl Beat<LocalSchedulerBackend> {
    /// A builder with the default configuration and the local scheduler backend.
    pub fn default_builder(name: &str, broker_url: &str) -> (r: Result<
        BeatBuilder<LocalSchedulerBackend>,
        BeatError,
    >)
        ensures
            r is Ok <==> broker_kind_of(broker_url@) is Some,
            r matches Ok(b) ==> is_default_config(b, name@, broker_url@),
            r matches Err(e) ==> e is UnsupportedBroker,
    {
        BeatBuilder::with_default_scheduler_backend(name, broker_url)
    }
}

impl<Sb> Beat<Sb> {
    /// A builder with the default configuration and the given scheduler backend.
    pub fn custom_builder(name: &str, broker_url: &str, scheduler_backend: Sb) -> (r: Result<
        BeatBuilder<Sb>,
        BeatError,
    >)
        ensures
            r is Ok <==> broker_kind_of(broker_url@) is Some,
            r matches Ok(b) ==> is_default_config(b, name@, broker_url@) && b.scheduler_backend
                == scheduler_backend,
            r matches Err(e) ==> e is UnsupportedBroker,
    {
        BeatBuilder::with_custom_scheduler_backend(name, broker_url, scheduler_backend)
    }

    /// Registers an entry named `name` for the task `task_name` with `schedule` at `now`.
    /// Its queue is the signature's own queue if it names one, else the queue of the first
    /// routing rule matching `task_name`, else the default queue. Its content type is the
    /// signature's own if set, else the beat's. Returns the entry's registration number.
    pub fn schedule_named_task(
        &mut self,
        name: String,
        task_name: &str,
        signature_queue: Option<String>,
        signature_content_type: Option<MessageContentType>,
        schedule: Schedule,
        now: u64,
    ) -> (r: Result<u64, ScheduleError>)
        ensures
            final(self).default_queue == old(self).default_queue,
            final(self).task_routes == old(self).task_routes,
            final(self).task_content_type == old(self).task_content_type,
            r is Err ==> final(self).scheduler.tasks@ == old(self).scheduler.tasks@,
            r is Err <==> (schedule.next_spec(now as int) is Err || old(self).scheduler.next_id
                == u64::MAX),
            r is Ok ==> {
                let t = final(self).scheduler.tasks@.last();
                &&& final(self).scheduler.tasks@.len() == old(self).scheduler.tasks@.len() + 1
                &&& final(self).scheduler.tasks@.drop_last() == old(self).scheduler.tasks@
                &&& r == Ok::<u64, ScheduleError>(t.id)
                &&& t.id == old(self).scheduler.next_id
                &&& final(self).scheduler.next_id == old(self).scheduler.next_id + 1
                &&& t.name == name
                &&& t.queue@ == match signature_queue {
                    Some(q) => q@,
                    None => match route_spec(task_name@, old(self).task_routes@) {
                        Some(q) => q,
                        None => old(self).default_queue@,
                    },
                }
                &&& t.content_type == match signature_content_type {
                    Some(c) => Some(c),
                    None => old(self).task_content_type,
                }
                &&& t.schedule == schedule
                &&& t.last_run_at is None
                &&& t.total_run_count == 0
                &&& schedule.next_spec(now as int) == Ok::<u64, ScheduleError>(t.next_call_at)
            },
    {
        let queue = match signature_queue {
            Some(q) => q,
            None => match route(task_name, &self.task_routes) {
                Some(q) => q,
                None => self.default_queue.clone(),
            },
        };
        let content_type = match signature_content_type {
            Some(c) => Some(c),
            None => self.task_content_type,
        };
        self.scheduler.schedule_task(name, queue, content_type, schedule, now)
    }

    /// Registers the task `task_name` under its own name; see `schedule_named_task`.
    pub fn schedule_task(
        &mut self,
        task_name: &str,
        signature_queue: Option<String>,
        signature_content_type: Option<MessageContentType>,
        schedule: Schedule,
        now: u64,
    ) -> (r: Result<u64, ScheduleError>)
        ensures
            r is Err <==> (schedule.next_spec(now as int) is Err || old(self).scheduler.next_id
                == u64::MAX),
            r is Err ==> final(self).scheduler.tasks@ == old(self).scheduler.tasks@,
            r is Ok ==> {
                let t = final(self).scheduler.tasks@.last();
                &&& final(self).scheduler.tasks@.len() == old(self).scheduler.tasks@.len() + 1
                &&& final(self).scheduler.tasks@.drop_last() == old(self).scheduler.tasks@
                &&& r == Ok::<u64, ScheduleError>(t.id)
                &&& t.id == old(self).scheduler.next_id
                &&& final(self).scheduler.next_id == old(self).scheduler.next_id + 1
                &&& t.name@ == task_name@
                &&& t.queue@ == match signature_queue {
                    Some(q) => q@,
                    None => match route_spec(task_name@, old(self).task_routes@) {
                        Some(q) => q,
                        None => old(self).default_queue@,
                    },
                }
                &&& t.content_type == match signature_content_type {
                    Some(c) => Some(c),
                    None => old(self).task_content_type,
                }
                &&& t.schedule == schedule
                &&& t.last_run_at is None
                &&& t.total_run_count == 0
                &&& schedule.next_spec(now as int) == Ok::<u64, ScheduleError>(t.next_call_at)
            },
    {
        self.schedule_named_task(
            task_name.to_string(),
            task_name,
            signature_queue,
            signature_content_type,
            schedule,
            now,
        )
    }

    /// How long to sleep after a tick at `now` whose next tick is due at `next_tick_at`:
    /// until then, capped by the maximum sleep duration; nothing if it is already due.
    pub fn sleep_duration(&self, now: u64, next_tick_at: u64) -> (r: u64)
        ensures
            now >= next_tick_at ==> r == 0,
            now < next_tick_at ==> r == match self.max_sleep_duration {
                Some(m) => if next_tick_at - now <= m {
                    (next_tick_at - now) as u64
                } else {
                    m
                },
                None => (next_tick_at - now) as u64,
            },
    {
        if now >= next_tick_at {
            return 0;
        }
        let wait = next_tick_at - now;
        match self.max_sleep_duration {
            Some(m) => if wait <= m {
                wait
            } else {
                m
            },
            None => wait,
        }
    }

    /// What to do when the tick loop stops with `result`: stop when retrying is disabled,
    /// on success, or on any error but a broker connection error; otherwise start
    /// reconnecting (or give up at once when no attempt is allowed).
    pub fn after_loop(&self, result: Result<(), BeatError>) -> (r: BeatAction)
        ensures
            match result {
                Err(BeatError::BrokerError(e)) => if self.broker_connection_retry && (
                e is Connection || e is NotConnected) {
                    if self.broker_connection_max_retries > 0 {
                        r == (BeatAction::Reconnect {
                            delay: self.broker_connection_retry_delay,
                            timeout: self.broker_connection_timeout,
                        })
                    } else {
                        r == BeatAction::Stop(Err(BeatError::BrokerError(BrokerError::NotConnected)))
                    }
                } else {
                    r == BeatAction::Stop(Err(BeatError::BrokerError(e)))
                },
                _ => r == BeatAction::Stop(result),
            },
    {
        if !self.broker_connection_retry {
            return BeatAction::Stop(result);
        }
        match result {
            Err(BeatError::BrokerError(e)) => {
                if e.is_connection_error() {
                    if self.broker_connection_max_retries > 0 {
                        BeatAction::Reconnect {
                            delay: self.broker_connection_retry_delay,
                            timeout: self.broker_connection_timeout,
                        }
                    } else {
                        BeatAction::Stop(Err(BeatError::BrokerError(BrokerError::NotConnected)))
                    }
                } else {
                    BeatAction::Stop(Err(BeatError::BrokerError(e)))
                }
            },
            _ => BeatAction::Stop(result),
        }
    }

    /// What to do after reconnect attempt number `attempts` (counting from one) ended with
    /// `outcome`: resume ticking on success; stop on an error that is not about the
    /// connection; try again while attempts remain; else stop with `NotConnected`.
    pub fn after_reconnect(&self, attempts: u32, outcome: Result<(), BrokerError>) -> (r: BeatAction)
        ensures
            match outcome {
                Ok(()) => r == BeatAction::RunLoop,
                Err(e) => if !(e is Connection || e is NotConnected) {
                    r == BeatAction::Stop(Err(BeatError::BrokerError(e)))
                } else if attempts < self.broker_connection_max_retries {
                    r == (BeatAction::Reconnect {
                        delay: self.broker_connection_retry_delay,
                        timeout: self.broker_connection_timeout,
                    })
                } else {
                    r == BeatAction::Stop(Err(BeatError::BrokerError(BrokerError::NotConnected)))
                },
            },
    {
        match outcome {
            Ok(()) => BeatAction::RunLoop,
            Err(e) => {
                if !e.is_connection_error() {
                    BeatAction::Stop(Err(BeatError::BrokerError(e)))
                } else if attempts < self.broker_connection_max_retries {
                    BeatAction::Reconnect {
                        delay: self.broker_connection_retry_delay,
                        timeout: self.broker_connection_timeout,
                    }
                } else {
                    BeatAction::Stop(Err(BeatError::BrokerError(BrokerError::NotConnected)))
                }
            },
        }
    }
}

} // verus!
