//! A client-side handle on a task's result.
//!
//! Every operation first checks that a backend is attached. The backend reads themselves
//! are made by the caller, which hands their outcome to the operation.

use crate::backend::{completion_of, Backend, BackendError, TaskState};
use std::sync::Arc;
use vstd::prelude::*;

verus! {

/// A handle on the result of task `task_id`, over a shared backend of type `B`.
#[derive(Debug)]
pub struct AsyncResult<B> {
    pub task_id: String,
    pub backend: Option<Arc<B>>,
}

/// `NotSet` when no backend is attached, else the backend's answer unchanged.
pub open spec fn through_backend<T>(attached: bool, fetched: Result<T, BackendError>) -> Result<
    T,
    BackendError,
> {
    if attached {
        fetched
    } else {
        Err(BackendError::NotSet)
    }
}

impl<B> AsyncResult<B> {
    pub fn new(task_id: &str, backend: Option<Arc<B>>) -> (r: AsyncResult<B>)
        ensures
            r.task_id@ == task_id@,
            r.backend == backend,
    {
        AsyncResult { task_id: task_id.to_string(), backend }
    }

    /// The task's id.
    pub fn task_id(&self) -> (r: String)
        ensures
            r@ == self.task_id@,
    {
        self.task_id.clone()
    }

    /// The attached backend, or `NotSet`.
    pub fn backend(&self) -> (r: Result<&Arc<B>, BackendError>)
        ensures
            self.backend is Some <==> r is Ok,
            r matches Ok(b) ==> self.backend == Some(*b),
            r matches Err(e) ==> e == BackendError::NotSet,
    {
        match &self.backend {
            Some(b) => Ok(b),
            None => Err(BackendError::NotSet),
        }
    }

    /// The task's state, given the backend's answer to a state read.
    pub fn state(&self, fetched: Result<TaskState, BackendError>) -> (r: Result<TaskState, BackendError>)
        ensures
            r == through_backend(self.backend is Some, fetched),
    {
        if self.backend.is_none() {
            return Err(BackendError::NotSet);
        }
        fetched
    }

    /// Whether the task finished, given the backend's answer to a state read.
    pub fn ready(&self, fetched: Result<TaskState, BackendError>) -> (r: Result<bool, BackendError>)
        ensures
            match through_backend(self.backend is Some, fetched) {
                Ok(s) => r == Ok::<bool, BackendError>(s == TaskState::Success || s == TaskState::Failure),
                Err(e) => r == Err::<bool, BackendError>(e),
            },
    {
        match self.state(fetched) {
            Ok(s) => Ok(s.is_terminal()),
            Err(e) => Err(e),
        }
    }

    /// Whether the task succeeded, given the backend's answer to a state read.
    pub fn successful(&self, fetched: Result<TaskState, BackendError>) -> (r: Result<bool, BackendError>)
        ensures
            match through_backend(self.backend is Some, fetched) {
                Ok(s) => r == Ok::<bool, BackendError>(s == TaskState::Success),
                Err(e) => r == Err::<bool, BackendError>(e),
            },
    {
        match self.state(fetched) {
            Ok(s) => Ok(s == TaskState::Success),
            Err(e) => Err(e),
        }
    }

    /// Whether the task failed, given the backend's answer to a state read.
    pub fn failed(&self, fetched: Result<TaskState, BackendError>) -> (r: Result<bool, BackendError>)
        ensures
            match through_backend(self.backend is Some, fetched) {
                Ok(s) => r == Ok::<bool, BackendError>(s == TaskState::Failure),
                Err(e) => r == Err::<bool, BackendError>(e),
            },
    {
        match self.state(fetched) {
            Ok(s) => Ok(s == TaskState::Failure),
            Err(e) => Err(e),
        }
    }

    /// The task's serialized result, given the backend's answer to a result read.
    pub fn result(&self, fetched: Result<Option<String>, BackendError>) -> (r: Result<
        Option<String>,
        BackendError,
    >)
        ensures
            r == through_backend(self.backend is Some, fetched),
    {
        if self.backend.is_none() {
            return Err(BackendError::NotSet);
        }
        fetched
    }

    /// The task's error description, given the backend's answer to a traceback read.
    pub fn traceback(&self, fetched: Result<Option<String>, BackendError>) -> (r: Result<
        Option<String>,
        BackendError,
    >)
        ensures
            r == through_backend(self.backend is Some, fetched),
    {
        if self.backend.is_none() {
            return Err(BackendError::NotSet);
        }
        fetched
    }

    /// One probe of a wait for completion, given the backend's answer to a state read:
    /// `Some(true)` on success, `Some(false)` on failure, `None` to keep waiting.
    pub fn wait_for_completion(&self, fetched: Result<TaskState, BackendError>) -> (r: Result<
        Option<bool>,
        BackendError,
    >)
        ensures
            match through_backend(self.backend is Some, fetched) {
                Ok(s) => r == Ok::<Option<bool>, BackendError>(
                    if s == TaskState::Success {
                        Some(true)
                    } else if s == TaskState::Failure {
                        Some(false)
                    } else {
                        None
                    },
                ),
                Err(e) => r == Err::<Option<bool>, BackendError>(e),
            },
    {
        match self.state(fetched) {
            Ok(s) => Ok(completion_of(s)),
            Err(e) => Err(e),
        }
    }
}

impl<B: Backend> AsyncResult<B> {
    /// The request that removes the task's record from the attached backend, or `NotSet`.
    pub fn forget(&self) -> (r: Result<B::Request, BackendError>)
        ensures
            match self.backend {
                Some(b) => r matches Ok(q) && (*b).removes(self.task_id@, q),
                None => r == Err::<B::Request, BackendError>(BackendError::NotSet),
            },
    {
        match &self.backend {
            Some(b) => Ok(b.store_result_inner(self.task_id.as_str(), true, None)),
            None => Err(BackendError::NotSet),
        }
    }
}

} // verus!
