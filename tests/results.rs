use std::collections::HashMap;
use std::sync::Arc;

use celery_beat::async_result::AsyncResult;
use celery_beat::backend::{Backend, completion_of, wait_is_over, BackendError, ResultMetadata, TaskState};
use celery_beat::mongo::{MongoBackendBuilder, MongoWrite};
use celery_beat::redis::{RedisBackend, RedisBackendBuilder, RedisCommand};

fn apply(store: &mut HashMap<String, ResultMetadata>, cmd: RedisCommand) {
    match cmd {
        RedisCommand::Put { key, value } => {
            store.insert(key, value);
        }
        RedisCommand::Delete { key } => {
            store.remove(&key);
        }
    }
}

fn stored(store: &HashMap<String, ResultMetadata>, task_id: &str) -> Option<ResultMetadata> {
    store.get(&RedisBackend::task_key(task_id)).map(|m| m.duplicate())
}

fn redis() -> RedisBackend {
    RedisBackendBuilder::new("redis://127.0.0.1:6379/").build()
}

#[test]
fn redis_round_trip() {
    let backend = redis();
    let mut store = HashMap::new();
    apply(&mut store, backend.mark_as_done("id1", "\"ok\"", 1_700_000_000_000));
    assert_eq!(backend.get_result("id1", stored(&store, "id1")), Ok(Some("\"ok\"".to_string())));
    assert_eq!(backend.get_state("id1", stored(&store, "id1")), Ok(TaskState::Success));
    let handle = AsyncResult::new("id1", Some(Arc::new(backend)));
    let b = handle.backend().unwrap().clone();
    let state = b.get_state("id1", stored(&store, "id1"));
    assert_eq!(handle.ready(state.clone()), Ok(true));
    assert_eq!(handle.successful(state.clone()), Ok(true));
    assert_eq!(handle.failed(state), Ok(false));
}

#[test]
fn forget_then_not_found() {
    let backend = redis();
    let mut store = HashMap::new();
    apply(&mut store, backend.add_task("id1"));
    assert!(backend.get_task_meta("id1", stored(&store, "id1")).is_ok());
    apply(&mut store, backend.forget("id1"));
    assert_eq!(
        backend.get_task_meta("id1", stored(&store, "id1")).unwrap_err(),
        BackendError::DocumentNotFound("id1".to_string())
    );
}

#[test]
fn redis_key_layout() {
    assert_eq!(RedisBackend::task_key("abc"), "task:abc");
    match redis().forget("abc") {
        RedisCommand::Delete { key } => assert_eq!(key, "task:abc"),
        other => panic!("unexpected {:?}", other),
    }
}

#[test]
fn reply_decoding_outcomes() {
    let backend = redis();
    assert_eq!(
        backend.record_from_reply("x", None).unwrap_err(),
        BackendError::DocumentNotFound("x".to_string())
    );
    assert_eq!(
        backend.record_from_reply("x", Some(Err("bad json".to_string()))).unwrap_err(),
        BackendError::Serialization("bad json".to_string())
    );
    let m = backend.record_from_reply("x", Some(Ok(ResultMetadata::started("x")))).unwrap();
    assert_eq!(m.status(), TaskState::Started);
    assert_eq!(RedisBackendBuilder::new("redis://h").build().backend_url, "redis://h");
}

#[test]
fn record_states_and_dates() {
    let p = ResultMetadata::pending("t");
    assert_eq!(p.status(), TaskState::Pending);
    assert_eq!(p.date_done(), None);
    let s = ResultMetadata::started("t");
    assert_eq!(s.date_done(), None);
    let d = ResultMetadata::done("t", "1", 42);
    assert_eq!(d.date_done(), Some(42));
    assert_eq!(d.result(), Some("1".to_string()));
    let f = ResultMetadata::failure("t", "boom", 43);
    assert_eq!(f.date_done(), Some(43));
    assert_eq!(f.traceback(), Some("boom".to_string()));
    assert_eq!(f.result(), None);
    assert_eq!(f.task_id(), "t");
}

#[test]
fn record_parts_are_checked() {
    let ok = ResultMetadata::from_parts("t".to_string(), TaskState::Success, Some("r".to_string()), None, Some(1));
    assert!(ok.is_some());
    let no_date = ResultMetadata::from_parts("t".to_string(), TaskState::Success, None, None, None);
    assert!(no_date.is_none());
    let date_on_pending = ResultMetadata::from_parts("t".to_string(), TaskState::Pending, None, None, Some(1));
    assert!(date_on_pending.is_none());
    let result_on_failure =
        ResultMetadata::from_parts("t".to_string(), TaskState::Failure, Some("r".to_string()), None, Some(1));
    assert!(result_on_failure.is_none());
    let traceback_on_success =
        ResultMetadata::from_parts("t".to_string(), TaskState::Success, None, Some("e".to_string()), Some(1));
    assert!(traceback_on_success.is_none());
}

#[test]
fn status_spelling_round_trip() {
    for s in [TaskState::Pending, TaskState::Started, TaskState::Retry, TaskState::Success, TaskState::Failure] {
        assert_eq!(TaskState::from_status(s.as_status()), Some(s));
    }
    assert_eq!(TaskState::Success.as_status(), "SUCCESS");
    assert_eq!(TaskState::from_status("success"), None);
}

#[test]
fn handle_without_backend_is_not_set() {
    let handle: AsyncResult<RedisBackend> = AsyncResult::new("x", None);
    assert_eq!(handle.task_id(), "x");
    assert_eq!(handle.state(Ok(TaskState::Success)), Err(BackendError::NotSet));
    assert_eq!(handle.ready(Ok(TaskState::Success)), Err(BackendError::NotSet));
    assert!(matches!(handle.forget(), Err(BackendError::NotSet)));
    assert!(handle.backend().is_err());
}

#[test]
fn handle_passes_backend_errors_through() {
    let handle = AsyncResult::new("x", Some(Arc::new(redis())));
    let err = BackendError::Transport("down".to_string());
    assert_eq!(handle.state(Err(err.clone())), Err(err.clone()));
    assert_eq!(handle.traceback(Ok(Some("tb".to_string()))), Ok(Some("tb".to_string())));
    assert_eq!(handle.result(Ok(None)), Ok(None));
    assert_eq!(handle.wait_for_completion(Ok(TaskState::Started)), Ok(None));
    assert_eq!(handle.wait_for_completion(Ok(TaskState::Failure)), Ok(Some(false)));
    assert_eq!(handle.wait_for_completion(Ok(TaskState::Success)), Ok(Some(true)));
}

#[test]
fn waiting_rules() {
    assert!(wait_is_over(TaskState::Started, TaskState::Started));
    assert!(wait_is_over(TaskState::Failure, TaskState::Started));
    assert!(!wait_is_over(TaskState::Pending, TaskState::Started));
    assert_eq!(completion_of(TaskState::Retry), None);
}

#[test]
fn mongo_writes() {
    let b = MongoBackendBuilder::new("mongodb://localhost:27017");
    assert_eq!(b.database, "celery");
    assert_eq!(b.taskmeta_collection, "celery_taskmeta");
    let backend = b.database("db").taskmeta_collection("meta").build(3);
    assert_eq!(backend.database, "db");
    assert_eq!(backend.collection_name, "meta");
    assert!(matches!(
        backend.store_result_inner("t", false, Some(ResultMetadata::pending("t"))),
        MongoWrite::InsertOne { .. }
    ));
    // A second Pending write replaces the existing document instead of duplicating it.
    assert!(matches!(
        backend.store_result_inner("t", true, Some(ResultMetadata::pending("t"))),
        MongoWrite::ReplaceOne { .. }
    ));
    assert!(matches!(
        backend.store_result_inner("t", false, Some(ResultMetadata::started("t"))),
        MongoWrite::ReplaceOne { .. }
    ));
    assert!(matches!(backend.store_result("t", true, ResultMetadata::pending("t")), MongoWrite::ReplaceOne { .. }));
    match backend.store_result_inner("t", true, None) {
        MongoWrite::DeleteOne { task_id } => assert_eq!(task_id, "t"),
        other => panic!("unexpected {:?}", other),
    }
    assert_eq!(
        backend.get_task_meta("t", None).unwrap_err(),
        BackendError::DocumentNotFound("t".to_string())
    );
}

#[test]
fn mongo_record_operations() {
    let backend = MongoBackendBuilder::new("mongodb+srv://cluster").build(2);
    assert_eq!(backend.connection_timeout, 2);
    match backend.add_task("t", false) {
        MongoWrite::InsertOne { document } => assert_eq!(document.status(), TaskState::Pending),
        other => panic!("unexpected {:?}", other),
    }
    assert!(matches!(backend.add_task("t", true), MongoWrite::ReplaceOne { .. }));
    match backend.mark_as_done("t", "7", 9) {
        MongoWrite::ReplaceOne { task_id, document } => {
            assert_eq!(task_id, "t");
            assert_eq!(document.result(), Some("7".to_string()));
            assert_eq!(document.date_done(), Some(9));
        }
        other => panic!("unexpected {:?}", other),
    }
    match backend.mark_as_failure("t", "err", 9) {
        MongoWrite::ReplaceOne { document, .. } => assert_eq!(document.traceback(), Some("err".to_string())),
        other => panic!("unexpected {:?}", other),
    }
    assert!(matches!(backend.mark_as_started("t"), MongoWrite::ReplaceOne { .. }));
    assert!(matches!(backend.forget("t"), MongoWrite::DeleteOne { .. }));
}

#[test]
fn record_round_trip_through_parts() {
    for m in [
        ResultMetadata::pending("a"),
        ResultMetadata::started("b"),
        ResultMetadata::done("c", "[1, 2]", 1_700_000_000_123),
        ResultMetadata::failure("d", "ValueError", 5),
    ] {
        let back = ResultMetadata::from_parts(m.task_id(), m.status(), m.result(), m.traceback(), m.date_done())
            .expect("a stored record is consistent");
        assert_eq!(back.task_id(), m.task_id());
        assert_eq!(back.status(), m.status());
        assert_eq!(back.result(), m.result());
        assert_eq!(back.traceback(), m.traceback());
        assert_eq!(back.date_done(), m.date_done());
        let copy = m.duplicate();
        assert_eq!(copy.status(), m.status());
        assert_eq!(TaskState::from_status(m.status().as_status()), Some(m.status()));
    }
}

fn not_found_through<B: Backend>(backend: &B, task_id: &str) -> BackendError {
    backend.get_task_meta(task_id, None).unwrap_err()
}

#[test]
fn backends_share_one_interface() {
    let mongo = MongoBackendBuilder::new("mongodb://h").build(1);
    assert_eq!(not_found_through(&redis(), "r"), BackendError::DocumentNotFound("r".to_string()));
    assert_eq!(not_found_through(&mongo, "m"), BackendError::DocumentNotFound("m".to_string()));
    let cmd = Backend::store_result_inner(&redis(), "k", false, None);
    assert!(matches!(cmd, RedisCommand::Delete { .. }));
    let handle = AsyncResult::new("id9", Some(Arc::new(redis())));
    match handle.forget() {
        Ok(RedisCommand::Delete { key }) => assert_eq!(key, "task:id9"),
        other => panic!("unexpected {:?}", other),
    }
    let mongo_handle = AsyncResult::new("id9", Some(Arc::new(MongoBackendBuilder::new("mongodb://h").build(1))));
    match mongo_handle.forget() {
        Ok(MongoWrite::DeleteOne { task_id }) => assert_eq!(task_id, "id9"),
        other => panic!("unexpected {:?}", other),
    }
}
