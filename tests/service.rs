use celery_beat::beat::{
    broker_kind, Beat, BeatAction, BeatBuilder, BeatError, BrokerError, BrokerKind, LocalSchedulerBackend,
    SchedulerBackend,
};
use celery_beat::scheduled_task::MessageContentType;
use celery_beat::schedule::{DeltaSchedule, Schedule};

fn beat() -> Beat<LocalSchedulerBackend> {
    Beat::default_builder("beat", "amqp://localhost:5672//").unwrap().build()
}

#[test]
fn default_configuration() {
    let b = BeatBuilder::with_default_scheduler_backend("beat", "amqp://localhost:5672//").unwrap();
    assert_eq!(b.broker_kind, BrokerKind::Amqp);
    assert_eq!(b.default_queue, "celery");
    assert_eq!(b.broker_connection_timeout, 2);
    assert!(b.broker_connection_retry);
    assert_eq!(b.broker_connection_max_retries, 5);
    assert_eq!(b.broker_connection_retry_delay, 5);
    assert_eq!(b.connect_retries(), 5);
    let b = b.broker_connection_retry(false);
    assert_eq!(b.connect_retries(), 0);
}

#[test]
fn builder_options() {
    let b = BeatBuilder::with_default_scheduler_backend("beat", "redis://localhost:6379")
        .unwrap()
        .default_queue("other")
        .heartbeat(Some(10))
        .task_route("add*", "math")
        .broker_connection_timeout(7)
        .broker_connection_max_retries(3)
        .broker_connection_retry_delay(1)
        .task_content_type(MessageContentType::Yaml)
        .max_sleep_duration(250);
    assert_eq!(b.broker_kind, BrokerKind::Redis);
    assert_eq!(b.default_queue, "other");
    assert_eq!(b.heartbeat, Some(10));
    assert_eq!(b.task_routes, vec![("add*".to_string(), "math".to_string())]);
    let beat = b.build();
    assert_eq!(beat.broker_connection_timeout, 7);
    assert_eq!(beat.broker_connection_max_retries, 3);
    assert_eq!(beat.broker_connection_retry_delay, 1);
    assert_eq!(beat.task_content_type, Some(MessageContentType::Yaml));
    assert_eq!(beat.max_sleep_duration, Some(250));
}

#[test]
fn unsupported_broker() {
    assert!(matches!(
        Beat::default_builder("beat", "http://localhost"),
        Err(BeatError::UnsupportedBroker(_))
    ));
    assert!(matches!(
        Beat::custom_builder("beat", "::", LocalSchedulerBackend::new()),
        Err(BeatError::UnsupportedBroker(_))
    ));
    assert_eq!(broker_kind("redis://h"), Some(BrokerKind::Redis));
    assert_eq!(broker_kind("amqp://h"), Some(BrokerKind::Amqp));
    assert_eq!(broker_kind("mongodb://h"), None);
}

#[test]
fn queue_resolution() {
    let mut b = Beat::default_builder("beat", "amqp://localhost:5672//")
        .unwrap()
        .task_route("math.*", "math")
        .task_route("*", "fallback")
        .task_content_type(MessageContentType::Json)
        .build();
    let d = Schedule::Delta(DeltaSchedule::new(1_000).unwrap());
    b.schedule_named_task("a".to_string(), "math.add", Some("own".to_string()), None, d.clone(), 0).unwrap();
    b.schedule_named_task("b".to_string(), "math.add", None, Some(MessageContentType::Pickle), d.clone(), 0).unwrap();
    b.schedule_task("io.read", None, None, d.clone(), 0).unwrap();
    let mut plain = beat();
    plain.schedule_task("io.read", None, None, d, 0).unwrap();
    let queues: Vec<String> = b.scheduler.tasks.iter().map(|t| t.queue.clone()).collect();
    assert_eq!(queues, vec!["own".to_string(), "math".to_string(), "fallback".to_string()]);
    assert_eq!(b.scheduler.tasks[2].name, "io.read");
    assert_eq!(plain.scheduler.tasks[0].queue, "celery");
    assert_eq!(plain.scheduler.tasks[0].content_type, None);
    assert_eq!(b.scheduler.tasks[1].content_type, Some(MessageContentType::Pickle));
    assert_eq!(b.scheduler.tasks[2].content_type, Some(MessageContentType::Json));
}

#[test]
fn sleep_is_capped() {
    let mut b = beat();
    assert_eq!(b.sleep_duration(100, 1_100), 1_000);
    assert_eq!(b.sleep_duration(100, 50), 0);
    b.max_sleep_duration = Some(300);
    assert_eq!(b.sleep_duration(100, 1_100), 300);
    assert_eq!(b.sleep_duration(100, 200), 100);
}

#[test]
fn reconnect_after_connection_loss() {
    let mut b = beat();
    b.schedule_named_task(
        "A".to_string(),
        "tasks.a",
        None,
        None,
        Schedule::Delta(DeltaSchedule::new(10_000).unwrap()),
        0,
    )
    .unwrap();
    // The publish at t=10 s fails on the connection: the entry stays as it was.
    let i = b.scheduler.due_task(10_000).unwrap();
    b.scheduler.publish_failed(i, true, 10_000).unwrap();
    let lost = Err(BeatError::BrokerError(BrokerError::Connection("reset".to_string())));
    assert_eq!(b.after_loop(lost), BeatAction::Reconnect { delay: 5, timeout: 2 });
    let refused = || Err(BrokerError::Connection("refused".to_string()));
    assert_eq!(b.after_reconnect(1, refused()), BeatAction::Reconnect { delay: 5, timeout: 2 });
    assert_eq!(b.after_reconnect(2, refused()), BeatAction::Reconnect { delay: 5, timeout: 2 });
    assert_eq!(b.after_reconnect(3, Ok(())), BeatAction::RunLoop);
    // The next tick publishes the entry at its unchanged occurrence time.
    let j = b.scheduler.due_task(25_000).unwrap();
    assert_eq!(b.scheduler.tasks[j].next_call_at, 10_000);
    b.scheduler.task_published(j, 25_000).unwrap();
    assert_eq!(b.scheduler.tasks[j].last_run_at, Some(10_000));
}

#[test]
fn reconnect_gives_up() {
    let b = beat();
    let refused = || Err(BrokerError::Connection("refused".to_string()));
    assert_eq!(
        b.after_reconnect(5, refused()),
        BeatAction::Stop(Err(BeatError::BrokerError(BrokerError::NotConnected)))
    );
    assert_eq!(
        b.after_reconnect(2, Err(BrokerError::Other("auth".to_string()))),
        BeatAction::Stop(Err(BeatError::BrokerError(BrokerError::Other("auth".to_string()))))
    );
}

#[test]
fn loop_errors_that_stop() {
    let mut b = beat();
    let other = Err(BeatError::BrokerError(BrokerError::Other("x".to_string())));
    assert_eq!(b.after_loop(other.clone()), BeatAction::Stop(other));
    let sync = Err(BeatError::SyncError("db".to_string()));
    assert_eq!(b.after_loop(sync.clone()), BeatAction::Stop(sync));
    b.broker_connection_retry = false;
    let lost = Err(BeatError::BrokerError(BrokerError::Connection("reset".to_string())));
    assert_eq!(b.after_loop(lost.clone()), BeatAction::Stop(lost));
    b.broker_connection_retry = true;
    b.broker_connection_max_retries = 0;
    assert_eq!(
        b.after_loop(Err(BeatError::BrokerError(BrokerError::NotConnected))),
        BeatAction::Stop(Err(BeatError::BrokerError(BrokerError::NotConnected)))
    );
    assert!(BrokerError::NotConnected.is_connection_error());
    assert!(!BrokerError::Other("x".to_string()).is_connection_error());
}

#[test]
fn local_backend_never_syncs() {
    let mut local = LocalSchedulerBackend::new();
    assert!(!local.should_sync());
    let mut tasks = Vec::new();
    assert!(local.sync(&mut tasks).is_ok());
    assert!(tasks.is_empty());
}
