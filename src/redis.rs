//! The Redis result backend: one string key `task:<task_id>` per task, holding the
//! encoded record.

use crate::backend::{Backend, BackendError, ResultMetadata, ResultMetadataView, TaskState};
use vstd::prelude::*;

verus! {

/// The Redis key of a task's record.
pub open spec fn task_key_of(task_id: Seq<char>) -> Seq<char> {
    "task:"@ + task_id
}

/// A request to the Redis store.
#[derive(Debug)]
pub enum RedisCommand {
    /// Store `value` under `key`, replacing what was there.
    Put { key: String, value: ResultMetadata },
    /// Remove `key`.
    Delete { key: String },
}

/// The Redis keyspace after `cmd`.
pub open spec fn apply_command(
    ks: Map<Seq<char>, ResultMetadataView>,
    cmd: RedisCommand,
) -> Map<Seq<char>, ResultMetadataView> {
    match cmd {
        RedisCommand::Put { key, value } => ks.insert(key@, value@),
        RedisCommand::Delete { key } => ks.remove(key@),
    }
}

/// What the keyspace holds under `key`.
pub open spec fn stored_at(ks: Map<Seq<char>, ResultMetadataView>, key: Seq<char>) -> Option<
    ResultMetadataView,
> {
    if ks.contains_key(key) {
        Some(ks[key])
    } else {
        None
    }
}

/// Configuration of a Redis result backend.
#[derive(Debug)]
pub struct RedisBackendBuilder {
    pub backend_url: String,
}

impl RedisBackendBuilder {
    /// A builder for the backend at `backend_url`.
    pub fn new(backend_url: &str) -> (r: RedisBackendBuilder)
        ensures
            r.backend_url@ == backend_url@,
    {
        RedisBackendBuilder { backend_url: backend_url.to_string() }
    }

    /// The backend for this URL.
    pub fn build(self) -> (r: RedisBackend)
        ensures
            r.backend_url == self.backend_url,
    {
        RedisBackend { backend_url: self.backend_url }
    }
}

/// A Redis result backend.
#[derive(Debug)]
pub struct RedisBackend {
    pub backend_url: String,
}

impl RedisBackend {
    /// The key `task:<task_id>`.
    pub fn task_key(task_id: &str) -> (r: String)
        ensures
            r@ == task_key_of(task_id@),
    {
        let mut key = String::from_str("task:");
        key.append(task_id);
        key
    }

    /// Stores the full record of a task.
    pub fn store_result(&self, task_id: &str, metadata: ResultMetadata) -> (r: RedisCommand)
        ensures
            r matches RedisCommand::Put { key, value } && key@ == task_key_of(task_id@) && value@
                == metadata@,
    {
        Backend::store_result_inner(self, task_id, true, Some(metadata))
    }

    /// Records a new task as `Pending`.
    pub fn add_task(&self, task_id: &str) -> (r: RedisCommand)
        ensures
            r matches RedisCommand::Put { key, value } && key@ == task_key_of(task_id@) && value@
                == (ResultMetadataView {
                task_id: task_id@,
                status: TaskState::Pending,
                result: None,
                traceback: None,
                date_done: None,
            }),
    {
        self.store_result(task_id, ResultMetadata::pending(task_id))
    }

    /// Records that a task has started.
    pub fn mark_as_started(&self, task_id: &str) -> (r: RedisCommand)
        ensures
            r matches RedisCommand::Put { key, value } && key@ == task_key_of(task_id@) && value@
                == (ResultMetadataView {
                task_id: task_id@,
                status: TaskState::Started,
                result: None,
                traceback: None,
                date_done: None,
            }),
    {
        self.store_result(task_id, ResultMetadata::started(task_id))
    }

    /// Records a task's success with its serialized result.
    pub fn mark_as_done(&self, task_id: &str, result: &str, date_done: u64) -> (r: RedisCommand)
        ensures
            r matches RedisCommand::Put { key, value } && key@ == task_key_of(task_id@) && value@
                == (ResultMetadataView {
                task_id: task_id@,
                status: TaskState::Success,
                result: Some(result@),
                traceback: None,
                date_done: Some(date_done),
            }),
    {
        self.store_result(task_id, ResultMetadata::done(task_id, result, date_done))
    }

    /// Records a task's failure with its error description.
    pub fn mark_as_failure(&self, task_id: &str, traceback: &str, date_done: u64) -> (r:
        RedisCommand)
        ensures
            r matches RedisCommand::Put { key, value } && key@ == task_key_of(task_id@) && value@
                == (ResultMetadataView {
                task_id: task_id@,
                status: TaskState::Failure,
                result: None,
                traceback: Some(traceback@),
                date_done: Some(date_done),
            }),
    {
        self.store_result(task_id, ResultMetadata::failure(task_id, traceback, date_done))
    }

    /// Removes a task's record.
    pub fn forget(&self, task_id: &str) -> (r: RedisCommand)
        ensures
            r matches RedisCommand::Delete { key } && key@ == task_key_of(task_id@),
    {
        Backend::store_result_inner(self, task_id, true, None)
    }

    /// The task's record, given what the store holds under its key.
    pub fn get_task_meta(&self, task_id: &str, stored: Option<ResultMetadata>) -> (r: Result<
        ResultMetadata,
        BackendError,
    >)
        ensures
            match stored {
                Some(m) => r matches Ok(x) && x@ == m@,
                None => r matches Err(BackendError::DocumentNotFound(id)) && id@ == task_id@,
            },
    {
        match stored {
            Some(m) => Ok(m),
            None => Err(BackendError::DocumentNotFound(task_id.to_string())),
        }
    }

    /// The task's record, given the outcome of reading and decoding its key: `None` when the
    /// key is absent, `Some(Err(reason))` when the stored text could not be decoded.
    pub fn record_from_reply(&self, task_id: &str, reply: Option<Result<ResultMetadata, String>>) -> (r:
        Result<ResultMetadata, BackendError>)
        ensures
            match reply {
                None => r matches Err(BackendError::DocumentNotFound(id)) && id@ == task_id@,
                Some(Err(reason)) => r == Err::<ResultMetadata, BackendError>(
                    BackendError::Serialization(reason),
                ),
                Some(Ok(m)) => r matches Ok(x) && x@ == m@,
            },
    {
        match reply {
            None => Err(BackendError::DocumentNotFound(task_id.to_string())),
            Some(Err(reason)) => Err(BackendError::Serialization(reason)),
            Some(Ok(m)) => Ok(m),
        }
    }

    /// The task's state, given what the store holds under its key.
    pub fn get_state(&self, task_id: &str, stored: Option<ResultMetadata>) -> (r: Result<
        TaskState,
        BackendError,
    >)
        ensures
            match stored {
                Some(m) => r == Ok::<TaskState, BackendError>(m@.status),
                None => r matches Err(BackendError::DocumentNotFound(id)) && id@ == task_id@,
            },
    {
        match self.get_task_meta(task_id, stored) {
            Ok(m) => Ok(m.status()),
            Err(e) => Err(e),
        }
    }

    /// The task's serialized result, given what the store holds under its key.
    pub fn get_result(&self, task_id: &str, stored: Option<ResultMetadata>) -> (r: Result<
        Option<String>,
        BackendError,
    >)
        ensures
            match stored {
                Some(m) => r matches Ok(x) && crate::backend::opt_view(x) == m@.result,
                None => r matches Err(BackendError::DocumentNotFound(id)) && id@ == task_id@,
            },
    {
        match self.get_task_meta(task_id, stored) {
            Ok(m) => Ok(m.result()),
            Err(e) => Err(e),
        }
    }

    /// The task's error description, given what the store holds under its key.
    pub fn get_traceback(&self, task_id: &str, stored: Option<ResultMetadata>) -> (r: Result<
        Option<String>,
        BackendError,
    >)
        ensures
            match stored {
                Some(m) => r matches Ok(x) && crate::backend::opt_view(x) == m@.traceback,
                None => r matches Err(BackendError::DocumentNotFound(id)) && id@ == task_id@,
            },
    {
        match self.get_task_meta(task_id, stored) {
            Ok(m) => Ok(m.traceback()),
            Err(e) => Err(e),
        }
    }
}

/// After `forget(task_id)` the store holds nothing under the task's key, so reading the
/// record back yields `DocumentNotFound`.
pub proof fn lemma_forget_then_not_found(
    ks: Map<Seq<char>, ResultMetadataView>,
    task_id: Seq<char>,
    cmd: RedisCommand,
)
    requires
        cmd matches RedisCommand::Delete { key } && key@ == task_key_of(task_id),
    ensures
        stored_at(apply_command(ks, cmd), task_key_of(task_id)) is None,
{
}

/// After `mark_as_done(task_id, result, date_done)` the store holds a `Success` record
/// with that result and date under the task's key, whatever it held before.
pub proof fn lemma_done_then_read_back(
    ks: Map<Seq<char>, ResultMetadataView>,
    task_id: Seq<char>,
    result: Seq<char>,
    date_done: u64,
    cmd: RedisCommand,
)
    requires
        cmd matches RedisCommand::Put { key, value } && key@ == task_key_of(task_id) && value@ == (
        ResultMetadataView {
            task_id,
            status: TaskState::Success,
            result: Some(result),
            traceback: None,
            date_done: Some(date_done),
        }),
    ensures
        stored_at(apply_command(ks, cmd), task_key_of(task_id)) == Some(
            ResultMetadataView {
                task_id,
                status: TaskState::Success,
                result: Some(result),
                traceback: None,
                date_done: Some(date_done),
            },
        ),
{
}

impl Backend for RedisBackend {
    type Request = RedisCommand;

    open spec fn removes(&self, task_id: Seq<char>, req: RedisCommand) -> bool {
        req matches RedisCommand::Delete { key } && key@ == task_key_of(task_id)
    }

    /// Stores `metadata` under the task's key, or deletes the key when it is `None`. Keys are
    /// overwritten in place, so whether a record exists does not matter here.
    fn store_result_inner(&self, task_id: &str, exists: bool, metadata: Option<ResultMetadata>) -> (r:
        RedisCommand)
        ensures
            match metadata {
                Some(m) => r matches RedisCommand::Put { key, value } && key@ == task_key_of(
                    task_id@,
                ) && value@ == m@,
                None => r matches RedisCommand::Delete { key } && key@ == task_key_of(task_id@),
            },
    {
        let key = RedisBackend::task_key(task_id);
        match metadata {
            Some(value) => RedisCommand::Put { key, value },
            None => RedisCommand::Delete { key },
        }
    }

    fn get_task_meta(&self, task_id: &str, stored: Option<ResultMetadata>) -> (r: Result<
        ResultMetadata,
        BackendError,
    >) {
        RedisBackend::get_task_meta(self, task_id, stored)
    }
}

} // verus!
