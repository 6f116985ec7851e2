//! Why a thread store refuses.
use vstd::prelude::*;

use crate::records::{CloudStateError, ErrorView};

verus! {

/// Why a thread store refuses.
#[derive(Debug, Clone, PartialEq, Eq)]
pub enum ThreadStoreError {
    ThreadNotFound { thread_id: String },
    Conflict { message: String },
    Unsupported { operation: String },
    Internal { message: String },
}

/// What a [`ThreadStoreError`] says.
#[verifier::ext_equal]
pub enum ThreadErrorView {
    ThreadNotFound { thread_id: Seq<char> },
    Conflict { message: Seq<char> },
    Unsupported { operation: Seq<char> },
    Internal { message: Seq<char> },
}

impl DeepView for ThreadStoreError {
    type V = ThreadErrorView;

    open spec fn deep_view(&self) -> ThreadErrorView {
        match self {
            ThreadStoreError::ThreadNotFound { thread_id } => ThreadErrorView::ThreadNotFound {
                thread_id: thread_id@,
            },
            ThreadStoreError::Conflict { message } => ThreadErrorView::Conflict {
                message: message@,
            },
            ThreadStoreError::Unsupported { operation } => ThreadErrorView::Unsupported {
                operation: operation@,
            },
            ThreadStoreError::Internal { message } => ThreadErrorView::Internal {
                message: message@,
            },
        }
    }
}

/// What a result says, in the case of success and of failure.
pub open spec fn thread_outcome<T: DeepView>(r: Result<T, ThreadStoreError>) -> Result<
    T::V,
    ThreadErrorView,
> {
    match r {
        Ok(value) => Ok(value.deep_view()),
        Err(error) => Err(error.deep_view()),
    }
}

/// The failure of a statement, which the database reports with `text`.
pub open spec fn storage_failure(text: Seq<char>) -> ThreadErrorView {
    ThreadErrorView::Internal { message: ErrorView::Storage(text).message() }
}

/// The failure to write or read kept data as JSON.
pub open spec fn broken_data(reason: Seq<char>) -> ThreadErrorView {
    ThreadErrorView::Internal {
        message: "failed to serialize cloud thread store data: "@ + reason,
    }
}

/// The failure to read the identifier of a thread that is kept.
pub open spec fn broken_thread_id(value: Seq<char>, reason: Seq<char>) -> ThreadErrorView {
    ThreadErrorView::Internal {
        message: "invalid stored thread id "@ + value + ": "@ + reason,
    }
}

/// The refusal to append under a turn that does not hold the writer lease.
pub open spec fn no_writer_lease(thread_id: Seq<char>, turn_id: Seq<char>) -> ThreadErrorView {
    ThreadErrorView::Conflict {
        message: "thread "@ + thread_id + " turn "@ + turn_id
            + " does not hold an active writer lease"@,
    }
}

/// An error of the state store, as an error of the thread store.
pub fn thread_store_error(error: &CloudStateError) -> (r: ThreadStoreError)
    ensures
        r.deep_view() == (ThreadErrorView::Internal { message: error.deep_view().message() }),
{
    ThreadStoreError::Internal { message: error.message() }
}

/// The failure of a statement, which the database reports with `text`.
pub fn storage_thread_error(text: &String) -> (r: ThreadStoreError)
    ensures
        r.deep_view() == storage_failure(text@),
{
    thread_store_error(&CloudStateError::Storage(text.clone()))
}

/// The failure to write or read kept data as JSON.
pub fn serde_thread_store_error(reason: &String) -> (r: ThreadStoreError)
    ensures
        r.deep_view() == broken_data(reason@),
{
    let mut message = "failed to serialize cloud thread store data: ".to_owned();
    message.append(reason.as_str());
    ThreadStoreError::Internal { message }
}

/// The failure to read the identifier of a thread that is kept.
pub fn invalid_thread_id(value: &String, reason: &String) -> (r: ThreadStoreError)
    ensures
        r.deep_view() == broken_thread_id(value@, reason@),
{
    let mut message = "invalid stored thread id ".to_owned();
    message.append(value.as_str());
    message.append(": ");
    message.append(reason.as_str());
    ThreadStoreError::Internal { message }
}

/// The refusal to append under a turn that does not hold the writer lease.
pub fn writer_lease_missing(thread_id: &String, turn_id: &String) -> (r: ThreadStoreError)
    ensures
        r.deep_view() == no_writer_lease(thread_id@, turn_id@),
{
    let mut message = "thread ".to_owned();
    message.append(thread_id.as_str());
    message.append(" turn ");
    message.append(turn_id.as_str());
    message.append(" does not hold an active writer lease");
    ThreadStoreError::Conflict { message }
}

/// The refusal of an operation that the store does not have.
fn unsupported(operation: &str) -> (r: ThreadStoreError)
    ensures
        r.deep_view() == (ThreadErrorView::Unsupported { operation: operation@ }),
{
    ThreadStoreError::Unsupported { operation: operation.to_owned() }
}

/// Threads cannot be read by the path of a rollout file.
pub fn read_thread_by_rollout_path() -> (r: ThreadStoreError)
    ensures
        r.deep_view() == (ThreadErrorView::Unsupported {
            operation: "read_thread_by_rollout_path"@,
        }),
{
    unsupported("read_thread_by_rollout_path")
}

/// Threads cannot be searched.
pub fn search_threads() -> (r: ThreadStoreError)
    ensures
        r.deep_view() == (ThreadErrorView::Unsupported { operation: "thread/search"@ }),
{
    unsupported("thread/search")
}

/// The turns of a thread cannot be listed.
pub fn list_turns() -> (r: ThreadStoreError)
    ensures
        r.deep_view() == (ThreadErrorView::Unsupported { operation: "list_turns"@ }),
{
    unsupported("list_turns")
}

/// The items of a thread cannot be listed.
pub fn list_items() -> (r: ThreadStoreError)
    ensures
        r.deep_view() == (ThreadErrorView::Unsupported { operation: "list_items"@ }),
{
    unsupported("list_items")
}

} // verus!
