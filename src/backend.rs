//! Task result records and the storage logic of the result backends.
//!
//! A backend turns each operation into a storage request (a Redis command, a MongoDB
//! write) and interprets what the store hands back; the requests themselves are carried
//! out by the caller.

use vstd::prelude::*;

verus! {

/// The lifecycle label of a task.
#[derive(Debug, Clone, Copy, PartialEq, Eq, Structural)]
pub enum TaskState {
    Pending,
    Started,
    Retry,
    Success,
    Failure,
}

/// The wire spelling of each state.
pub open spec fn status_text(s: TaskState) -> Seq<char> {
    match s {
        TaskState::Pending => "PENDING"@,
        TaskState::Started => "STARTED"@,
        TaskState::Retry => "RETRY"@,
        TaskState::Success => "SUCCESS"@,
        TaskState::Failure => "FAILURE"@,
    }
}

/// The state spelled by `t`, if any.
pub open spec fn status_of_text(t: Seq<char>) -> Option<TaskState> {
    if t == "PENDING"@ {
        Some(TaskState::Pending)
    } else if t == "STARTED"@ {
        Some(TaskState::Started)
    } else if t == "RETRY"@ {
        Some(TaskState::Retry)
    } else if t == "SUCCESS"@ {
        Some(TaskState::Success)
    } else if t == "FAILURE"@ {
        Some(TaskState::Failure)
    } else {
        None
    }
}

/// Whether two strings hold the same characters.
pub(crate) fn same_text(a: &str, b: &str) -> (r: bool)
    ensures
        r == (a@ == b@),
{
    let n = a.unicode_len();
    if n != b.unicode_len() {
        return false;
    }
    let mut i: usize = 0;
    while i < n
        invariant
            n == a@.len(),
            n == b@.len(),
            0 <= i <= n,
            forall|j: int| 0 <= j < i ==> a@[j] == b@[j],
        decreases n - i,
    {
        if a.get_char(i) != b.get_char(i) {
            return false;
        }
        i = i + 1;
    }
    assert(a@ =~= b@);
    true
}

impl TaskState {
    pub open spec fn is_terminal_spec(&self) -> bool {
        *self == TaskState::Success || *self == TaskState::Failure
    }

    /// Whether the state is final (`Success` or `Failure`).
    pub fn is_terminal(&self) -> (r: bool)
        ensures
            r == self.is_terminal_spec(),
    {
        match self {
            TaskState::Success | TaskState::Failure => true,
            _ => false,
        }
    }

    /// The uppercase spelling used by Celery consumers.
    pub fn as_status(&self) -> (r: &'static str)
        ensures
            r@ == status_text(*self),
    {
        match self {
            TaskState::Pending => "PENDING",
            TaskState::Started => "STARTED",
            TaskState::Retry => "RETRY",
            TaskState::Success => "SUCCESS",
            TaskState::Failure => "FAILURE",
        }
    }

    /// Reads a state from its uppercase spelling.
    pub fn from_status(t: &str) -> (r: Option<TaskState>)
        ensures
            r == status_of_text(t@),
    {
        if same_text(t, "PENDING") {
            Some(TaskState::Pending)
        } else if same_text(t, "STARTED") {
            Some(TaskState::Started)
        } else if same_text(t, "RETRY") {
            Some(TaskState::Retry)
        } else if same_text(t, "SUCCESS") {
            Some(TaskState::Success)
        } else if same_text(t, "FAILURE") {
            Some(TaskState::Failure)
        } else {
            None
        }
    }
}

/// Reading a state back from its spelling gives the same state.
pub proof fn lemma_status_text_round_trip(s: TaskState)
    ensures
        status_of_text(status_text(s)) == Some(s),
{
    reveal_strlit("PENDING");
    reveal_strlit("STARTED");
    reveal_strlit("RETRY");
    reveal_strlit("SUCCESS");
    reveal_strlit("FAILURE");
    assert("PENDING"@[0] == 'P' && "STARTED"@[0] == 'S' && "RETRY"@[0] == 'R' && "SUCCESS"@[0]
        == 'S' && "FAILURE"@[0] == 'F');
    assert("STARTED"@[1] == 'T' && "SUCCESS"@[1] == 'U');
}

/// Failures of a result backend.
#[derive(Debug, Clone, PartialEq, Eq)]
pub enum BackendError {
    /// No backend is attached to the handle.
    NotSet,
    /// No record exists for the task id.
    DocumentNotFound(String),
    /// A stored record could not be encoded or decoded.
    Serialization(String),
    /// The store could not be reached or refused the request.
    Transport(String),
}

/// The mathematical content of a result record.
pub struct ResultMetadataView {
    pub task_id: Seq<char>,
    pub status: TaskState,
    pub result: Option<Seq<char>>,
    pub traceback: Option<Seq<char>>,
    pub date_done: Option<u64>,
}

/// Whether a record is consistent: a result only on success, a traceback only on
/// failure, and a completion date exactly in the terminal states.
pub open spec fn metadata_consistent(v: ResultMetadataView) -> bool {
    &&& v.result is Some ==> v.status == TaskState::Success
    &&& v.traceback is Some ==> v.status == TaskState::Failure
    &&& v.status.is_terminal_spec() <==> v.date_done is Some
}

pub open spec fn opt_view(o: Option<String>) -> Option<Seq<char>> {
    match o {
        Some(s) => Some(s@),
        None => None,
    }
}

/// The stored state of one task. Dates are milliseconds since the Unix epoch (UTC).
#[derive(Debug)]
pub struct ResultMetadata {
    task_id: String,
    status: TaskState,
    result: Option<String>,
    traceback: Option<String>,
    date_done: Option<u64>,
}

impl View for ResultMetadata {
    type V = ResultMetadataView;

    closed spec fn view(&self) -> ResultMetadataView {
        ResultMetadataView {
            task_id: self.task_id@,
            status: self.status,
            result: opt_view(self.result),
            traceback: opt_view(self.traceback),
            date_done: self.date_done,
        }
    }
}

fn clone_opt(o: &Option<String>) -> (r: Option<String>)
    ensures
        opt_view(r) == opt_view(*o),
{
    match o {
        Some(s) => Some(s.clone()),
        None => None,
    }
}

impl ResultMetadata {
    #[verifier::type_invariant]
    closed spec fn consistent(&self) -> bool {
        metadata_consistent(self@)
    }

    /// A record from its parts; `None` when the parts are not consistent.
    pub fn from_parts(
        task_id: String,
        status: TaskState,
        result: Option<String>,
        traceback: Option<String>,
        date_done: Option<u64>,
    ) -> (r: Option<ResultMetadata>)
        ensures
            ({
                let v = ResultMetadataView {
                    task_id: task_id@,
                    status,
                    result: opt_view(result),
                    traceback: opt_view(traceback),
                    date_done,
                };
                &&& r is Some <==> metadata_consistent(v)
                &&& r matches Some(m) ==> m@ == v
            }),
    {
        let result_ok = match &result {
            Some(_) => status == TaskState::Success,
            None => true,
        };
        let traceback_ok = match &traceback {
            Some(_) => status == TaskState::Failure,
            None => true,
        };
        let date_ok = status.is_terminal() == date_done.is_some();
        if result_ok && traceback_ok && date_ok {
            Some(ResultMetadata { task_id, status, result, traceback, date_done })
        } else {
            None
        }
    }

    /// A record in state `Pending`.
    pub fn pending(task_id: &str) -> (r: ResultMetadata)
        ensures
            r@ == (ResultMetadataView {
                task_id: task_id@,
                status: TaskState::Pending,
                result: None,
                traceback: None,
                date_done: None,
            }),
    {
        ResultMetadata {
            task_id: task_id.to_string(),
            status: TaskState::Pending,
            result: None,
            traceback: None,
            date_done: None,
        }
    }

    /// A record in state `Started`.
    pub fn started(task_id: &str) -> (r: ResultMetadata)
        ensures
            r@ == (ResultMetadataView {
                task_id: task_id@,
                status: TaskState::Started,
                result: None,
                traceback: None,
                date_done: None,
            }),
    {
        ResultMetadata {
            task_id: task_id.to_string(),
            status: TaskState::Started,
            result: None,
            traceback: None,
            date_done: None,
        }
    }

    /// A record in state `Success` holding the serialized result.
    pub fn done(task_id: &str, result: &str, date_done: u64) -> (r: ResultMetadata)
        ensures
            r@ == (ResultMetadataView {
                task_id: task_id@,
                status: TaskState::Success,
                result: Some(result@),
                traceback: None,
                date_done: Some(date_done),
            }),
    {
        ResultMetadata {
            task_id: task_id.to_string(),
            status: TaskState::Success,
            result: Some(result.to_string()),
            traceback: None,
            date_done: Some(date_done),
        }
    }

    /// A record in state `Failure` holding the error description.
    pub fn failure(task_id: &str, traceback: &str, date_done: u64) -> (r: ResultMetadata)
        ensures
            r@ == (ResultMetadataView {
                task_id: task_id@,
                status: TaskState::Failure,
                result: None,
                traceback: Some(traceback@),
                date_done: Some(date_done),
            }),
    {
        ResultMetadata {
            task_id: task_id.to_string(),
            status: TaskState::Failure,
            result: None,
            traceback: Some(traceback.to_string()),
            date_done: Some(date_done),
        }
    }

    pub fn task_id(&self) -> (r: String)
        ensures
            r@ == self@.task_id,
    {
        self.task_id.clone()
    }

    pub fn status(&self) -> (r: TaskState)
        ensures
            r == self@.status,
            metadata_consistent(self@),
    {
        proof {
            use_type_invariant(self);
        }
        self.status
    }

    pub fn result(&self) -> (r: Option<String>)
        ensures
            opt_view(r) == self@.result,
    {
        clone_opt(&self.result)
    }

    pub fn traceback(&self) -> (r: Option<String>)
        ensures
            opt_view(r) == self@.traceback,
    {
        clone_opt(&self.traceback)
    }

    /// The completion date; present exactly when the status is terminal.
    pub fn date_done(&self) -> (r: Option<u64>)
        ensures
            r == self@.date_done,
            metadata_consistent(self@),
            r is Some <==> (self@.status == TaskState::Success || self@.status == TaskState::Failure),
    {
        proof {
            use_type_invariant(self);
        }
        self.date_done
    }

    /// A copy of the record.
    pub fn duplicate(&self) -> (r: ResultMetadata)
        ensures
            r@ == self@,
    {
        proof {
            use_type_invariant(self);
        }
        ResultMetadata {
            task_id: self.task_id.clone(),
            status: self.status,
            result: clone_opt(&self.result),
            traceback: clone_opt(&self.traceback),
            date_done: self.date_done,
        }
    }
}

} // verus!

verus! {

/// Whether waiting for `target` is over once the stored status is `status`: the status
/// reached `target`, or the task finished.
pub fn wait_is_over(status: TaskState, target: TaskState) -> (r: bool)
    ensures
        r == (status == target || status.is_terminal_spec()),
{
    status == target || status.is_terminal()
}

/// One probe of a wait for completion: `Some(true)` once the task succeeded,
/// `Some(false)` once it failed, `None` while it is still pending, started or retrying.
pub fn completion_of(status: TaskState) -> (r: Option<bool>)
    ensures
        r == match status {
            TaskState::Success => Some(true),
            TaskState::Failure => Some(false),
            _ => None::<bool>,
        },
{
    match status {
        TaskState::Success => Some(true),
        TaskState::Failure => Some(false),
        _ => None,
    }
}

} // verus!

verus! {

/// A result backend: it turns record writes into requests to its store, and reads a
/// task's record out of what the store holds for it.
pub trait Backend {
    /// A request to the store.
    type Request;

    /// Whether `req` removes the record of task `task_id`.
    spec fn removes(&self, task_id: Seq<char>, req: Self::Request) -> bool;

    /// Stores `metadata` as the task's record, or removes the record when it is `None`.
    /// `exists` tells whether the store already holds a record for the task.
    fn store_result_inner(&self, task_id: &str, exists: bool, metadata: Option<ResultMetadata>) -> (r:
        Self::Request)
        ensures
            metadata is None ==> self.removes(task_id@, r),
    ;

    /// The task's record, given what the store holds for it.
    fn get_task_meta(&self, task_id: &str, stored: Option<ResultMetadata>) -> (r: Result<
        ResultMetadata,
        BackendError,
    >)
        ensures
            match stored {
                Some(m) => r matches Ok(x) && x@ == m@,
                None => r matches Err(BackendError::DocumentNotFound(id)) && id@ == task_id@,
            },
    ;
}

} // verus!
