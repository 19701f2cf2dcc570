//! The MongoDB result backend: one document per task in a configured collection,
//! located by its `task_id` field.

use crate::backend::{Backend, BackendError, ResultMetadata, ResultMetadataView, TaskState};
use vstd::prelude::*;

verus! {

/// A write to the task collection; each document is located by its `task_id` field.
#[derive(Debug)]
pub enum MongoWrite {
    /// Insert a new document.
    InsertOne { document: ResultMetadata },
    /// Replace the document whose `task_id` is `task_id`, inserting it when none matches.
    ReplaceOne { task_id: String, document: ResultMetadata },
    /// Delete the document whose `task_id` is `task_id`.
    DeleteOne { task_id: String },
}

/// Configuration of a MongoDB result backend.
#[derive(Debug)]
pub struct MongoBackendBuilder {
    pub backend_url: String,
    pub database: String,
    pub taskmeta_collection: String,
}

impl MongoBackendBuilder {
    /// A builder for the backend at `backend_url`, using database `celery` and collection
    /// `celery_taskmeta`.
    pub fn new(backend_url: &str) -> (r: MongoBackendBuilder)
        ensures
            r.backend_url@ == backend_url@,
            r.database@ == "celery"@,
            r.taskmeta_collection@ == "celery_taskmeta"@,
    {
        MongoBackendBuilder {
            backend_url: backend_url.to_string(),
            database: "celery".to_string(),
            taskmeta_collection: "celery_taskmeta".to_string(),
        }
    }

    /// Uses database `database`.
    pub fn database(self, database: &str) -> (r: MongoBackendBuilder)
        ensures
            r.backend_url == self.backend_url,
            r.database@ == database@,
            r.taskmeta_collection == self.taskmeta_collection,
    {
        MongoBackendBuilder { database: database.to_string(), ..self }
    }

    /// Uses collection `collection_name` for the task records.
    pub fn taskmeta_collection(self, collection_name: &str) -> (r: MongoBackendBuilder)
        ensures
            r.backend_url == self.backend_url,
            r.database == self.database,
            r.taskmeta_collection@ == collection_name@,
    {
        MongoBackendBuilder { taskmeta_collection: collection_name.to_string(), ..self }
    }

    /// The backend with this configuration. Connections give up after
    /// `connection_timeout` seconds.
    pub fn build(self, connection_timeout: u32) -> (r: MongoBackend)
        ensures
            r.backend_url == self.backend_url,
            r.database == self.database,
            r.collection_name == self.taskmeta_collection,
            r.connection_timeout == connection_timeout,
    {
        MongoBackend {
            backend_url: self.backend_url,
            database: self.database,
            collection_name: self.taskmeta_collection,
            connection_timeout,
        }
    }
}

/// A MongoDB result backend.
#[derive(Debug)]
pub struct MongoBackend {
    pub backend_url: String,
    pub database: String,
    pub collection_name: String,
    /// Seconds before a connection attempt gives up.
    pub connection_timeout: u32,
}

impl MongoBackend {
    /// Stores the full record of a task (an upsert); `exists` as for `store_result_inner`.
    pub fn store_result(&self, task_id: &str, exists: bool, metadata: ResultMetadata) -> (r: MongoWrite)
        ensures
            if !exists && metadata@.status == TaskState::Pending {
                r matches MongoWrite::InsertOne { document } && document@ == metadata@
            } else {
                r matches MongoWrite::ReplaceOne { task_id: id, document } && id@ == task_id@
                    && document@ == metadata@
            },
    {
        Backend::store_result_inner(self, task_id, exists, Some(metadata))
    }

    /// Records a task as `Pending`: inserted when no document exists yet, else replacing it.
    pub fn add_task(&self, task_id: &str, exists: bool) -> (r: MongoWrite)
        ensures
            ({
                let v = ResultMetadataView {
                    task_id: task_id@,
                    status: TaskState::Pending,
                    result: None,
                    traceback: None,
                    date_done: None,
                };
                if exists {
                    r matches MongoWrite::ReplaceOne { task_id: id, document } && id@ == task_id@
                        && document@ == v
                } else {
                    r matches MongoWrite::InsertOne { document } && document@ == v
                }
            }),
    {
        self.store_result(task_id, exists, ResultMetadata::pending(task_id))
    }

    /// Records that a task has started.
    pub fn mark_as_started(&self, task_id: &str) -> (r: MongoWrite)
        ensures
            r matches MongoWrite::ReplaceOne { task_id: id, document } && id@ == task_id@
                && document@ == (ResultMetadataView {
                task_id: task_id@,
                status: TaskState::Started,
                result: None,
                traceback: None,
                date_done: None,
            }),
    {
        self.store_result(task_id, true, ResultMetadata::started(task_id))
    }

    /// Records a task's success with its serialized result.
    pub fn mark_as_done(&self, task_id: &str, result: &str, date_done: u64) -> (r: MongoWrite)
        ensures
            r matches MongoWrite::ReplaceOne { task_id: id, document } && id@ == task_id@
                && document@ == (ResultMetadataView {
                task_id: task_id@,
                status: TaskState::Success,
                result: Some(result@),
                traceback: None,
                date_done: Some(date_done),
            }),
    {
        self.store_result(task_id, true, ResultMetadata::done(task_id, result, date_done))
    }

    /// Records a task's failure with its error description.
    pub fn mark_as_failure(&self, task_id: &str, traceback: &str, date_done: u64) -> (r: MongoWrite)
        ensures
            r matches MongoWrite::ReplaceOne { task_id: id, document } && id@ == task_id@
                && document@ == (ResultMetadataView {
                task_id: task_id@,
                status: TaskState::Failure,
                result: None,
                traceback: Some(traceback@),
                date_done: Some(date_done),
            }),
    {
        self.store_result(task_id, true, ResultMetadata::failure(task_id, traceback, date_done))
    }

    /// Removes a task's document.
    pub fn forget(&self, task_id: &str) -> (r: MongoWrite)
        ensures
            r matches MongoWrite::DeleteOne { task_id: id } && id@ == task_id@,
    {
        Backend::store_result_inner(self, task_id, true, None)
    }

    /// The task's record, given the document the filter `{task_id: <task_id>}` found.
    pub fn get_task_meta(&self, task_id: &str, found: Option<ResultMetadata>) -> (r: Result<
        ResultMetadata,
        BackendError,
    >)
        ensures
            match found {
                Some(m) => r matches Ok(x) && x@ == m@,
                None => r matches Err(BackendError::DocumentNotFound(id)) && id@ == task_id@,
            },
    {
        match found {
            Some(m) => Ok(m),
            None => Err(BackendError::DocumentNotFound(task_id.to_string())),
        }
    }
}

impl Backend for MongoBackend {
    type Request = MongoWrite;

    open spec fn removes(&self, task_id: Seq<char>, req: MongoWrite) -> bool {
        req matches MongoWrite::DeleteOne { task_id: id } && id@ == task_id
    }

    /// Stores `metadata` as the task's document, or deletes the document when it is `None`.
    /// `exists` tells whether the lookup by `task_id` found a document. A `Pending` record
    /// with no document yet is the task's first, so it is inserted; any other record
    /// replaces the document (inserting it when none matches).
    fn store_result_inner(&self, task_id: &str, exists: bool, metadata: Option<ResultMetadata>) -> (r:
        MongoWrite)
        ensures
            match metadata {
                None => r matches MongoWrite::DeleteOne { task_id: id } && id@ == task_id@,
                Some(m) => if !exists && m@.status == TaskState::Pending {
                    r matches MongoWrite::InsertOne { document } && document@ == m@
                } else {
                    r matches MongoWrite::ReplaceOne { task_id: id, document } && id@ == task_id@
                        && document@ == m@
                },
            },
    {
        match metadata {
            None => MongoWrite::DeleteOne { task_id: task_id.to_string() },
            Some(m) => {
                if !exists && m.status() == TaskState::Pending {
                    MongoWrite::InsertOne { document: m }
                } else {
                    MongoWrite::ReplaceOne { task_id: task_id.to_string(), document: m }
                }
            },
        }
    }


    fn get_task_meta(&self, task_id: &str, stored: Option<ResultMetadata>) -> (r: Result<
        ResultMetadata,
        BackendError,
    >) {
        MongoBackend::get_task_meta(self, task_id, stored)
    }
}

} // verus!
