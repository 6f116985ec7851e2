//! What a store of threads asks of a MySQL database, and what it answers.
use vstd::prelude::*;

use crate::threads::errors::{
    broken_data, serde_thread_store_error, storage_failure, storage_thread_error, thread_outcome,
    ThreadErrorView, ThreadStoreError,
};
use crate::threads::records::{
    CreateThreadParams, CreateThreadView, ThreadMetadataPatch, ThreadPatchView,
};

verus! {

/// A value that was read from JSON, or why it could not be.
#[derive(Debug, PartialEq, Eq)]
pub enum Parsed<T> {
    Value(T),
    Invalid(String),
}

/// What a [`Parsed`] says.
#[verifier::ext_equal]
pub enum ParsedView<T> {
    Value(T),
    Invalid(Seq<char>),
}

impl<T: DeepView> DeepView for Parsed<T> {
    type V = ParsedView<T::V>;

    open spec fn deep_view(&self) -> ParsedView<T::V> {
        match self {
            Parsed::Value(value) => ParsedView::Value(value.deep_view()),
            Parsed::Invalid(reason) => ParsedView::Invalid(reason@),
        }
    }
}

impl<T> ParsedView<T> {
    /// The value that was read.
    pub open spec fn value(self) -> Result<T, ThreadErrorView> {
        match self {
            ParsedView::Value(value) => Ok(value),
            ParsedView::Invalid(reason) => Err(broken_data(reason)),
        }
    }
}

impl<T: DeepView> Parsed<T> {
    /// The value that was read.
    pub fn value(&self) -> (r: Result<&T, ThreadStoreError>)
        ensures
            thread_outcome(r) == self.deep_view().value(),
    {
        match self {
            Parsed::Value(value) => Ok(value),
            Parsed::Invalid(reason) => Err(serde_thread_store_error(reason)),
        }
    }
}

/// Items, if all of them could be read; the first one that could not be is an error.
pub open spec fn read_items(items: Seq<ParsedView<Seq<char>>>) -> Result<
    Seq<Seq<char>>,
    ThreadErrorView,
>
    decreases items.len(),
{
    if items.len() == 0 {
        Ok(Seq::empty())
    } else {
        match read_items(items.drop_last()) {
            Err(error) => Err(error),
            Ok(read) => match items.last().value() {
                Err(error) => Err(error),
                Ok(item) => Ok(read.push(item)),
            },
        }
    }
}

/// An item that could not be read is an error, whatever comes after it.
proof fn first_error_stays(items: Seq<ParsedView<Seq<char>>>, n: int)
    requires
        0 <= n <= items.len(),
        read_items(items.take(n)) is Err,
    ensures
        read_items(items) == read_items(items.take(n)),
    decreases items.len(),
{
    if n == items.len() {
        assert(items.take(n) =~= items);
    } else {
        assert(items.drop_last().take(n) =~= items.take(n));
        first_error_stays(items.drop_last(), n);
    }
}

fn copy_items(items: &Vec<Parsed<String>>) -> (r: Result<Vec<String>, ThreadStoreError>)
    ensures
        thread_outcome(r) == read_items(items.deep_view()),
{
    let ghost shown = items.deep_view();
    let mut read: Vec<String> = Vec::new();
    assert(read.deep_view() =~= Seq::empty());
    for n in 0..items.len()
        invariant
            shown == items.deep_view(),
            read_items(shown.take(n as int)) == Ok::<Seq<Seq<char>>, ThreadErrorView>(
                read.deep_view(),
            ),
    {
        let ghost so_far = read.deep_view();
        assert(shown.take(n + 1).drop_last() =~= shown.take(n as int));
        assert(shown.take(n + 1).last() == items@[n as int].deep_view());
        match items[n].value() {
            Ok(item) => {
                read.push(item.clone());
                assert(read.deep_view() =~= so_far.push(item@));
            },
            Err(error) => {
                proof {
                    first_error_stays(shown, n + 1);
                }
                return Err(error);
            },
        }
    }
    assert(shown.take(items@.len() as int) =~= shown);
    Ok(read)
}

/// A thread as it is read from the database.
#[derive(Debug, PartialEq, Eq)]
pub struct ThreadRow {
    pub create_params: Parsed<CreateThreadParams>,
    pub metadata_patch: Parsed<Option<ThreadMetadataPatch>>,
    pub archived_at_ms: Option<i64>,
    pub created_at_ms: i64,
    pub updated_at_ms: i64,
}

/// What a [`ThreadRow`] says.
#[verifier::ext_equal]
pub struct ThreadRowView {
    pub create_params: ParsedView<CreateThreadView>,
    pub metadata_patch: ParsedView<Option<ThreadPatchView>>,
    pub archived_at_ms: Option<i64>,
    pub created_at_ms: i64,
    pub updated_at_ms: i64,
}

impl DeepView for ThreadRow {
    type V = ThreadRowView;

    open spec fn deep_view(&self) -> ThreadRowView {
        ThreadRowView {
            create_params: self.create_params.deep_view(),
            metadata_patch: self.metadata_patch.deep_view(),
            archived_at_ms: self.archived_at_ms,
            created_at_ms: self.created_at_ms,
            updated_at_ms: self.updated_at_ms,
        }
    }
}

/// The identifier of a thread as it is kept, and as it is read.
#[derive(Debug, PartialEq, Eq)]
pub struct ListedThread {
    pub value: String,
    pub thread_id: Parsed<String>,
}

/// What a [`ListedThread`] says.
#[verifier::ext_equal]
pub struct ListedThreadView {
    pub value: Seq<char>,
    pub thread_id: ParsedView<Seq<char>>,
}

impl DeepView for ListedThread {
    type V = ListedThreadView;

    open spec fn deep_view(&self) -> ListedThreadView {
        ListedThreadView {
            value: self.value@,
            thread_id: self.thread_id.deep_view(),
        }
    }
}

/// What a store of threads puts to the database.
#[derive(Debug, PartialEq, Eq)]
pub enum ThreadStatement {
    /// Creates the tables that are missing.
    CreateSchema,
    /// Opens a transaction.
    Begin,
    /// Commits the open transaction.
    Commit,
    /// Reads the clock.
    ReadClock,
    /// Records a thread, or that it was updated if it is there.
    UpsertThread { thread_id: String, create_params_json: String, now_ms: i64 },
    /// Records a thread that is not there.
    InsertThread { thread_id: String, create_params_json: String, now_ms: i64 },
    /// Asks whether there is a thread.
    SelectThreadExists { thread_id: String },
    /// Reads a thread.
    SelectThread { thread_id: String },
    /// Reads which threads are not archived, the last updated first.
    SelectThreads { count: u64 },
    /// Asks whether a running request of the turn holds the writer lease of the thread, neither
    /// released nor expired, for an update.
    LockActiveTurn { thread_id: String, turn_id: String, now_ms: i64 },
    /// Reads the number of the last item of a thread.
    SelectLastItem { thread_id: String },
    /// Records an item.
    InsertItem { thread_id: String, sequence: u64, item_json: String, now_ms: i64 },
    /// Deletes the items of a thread.
    DeleteItems { thread_id: String },
    /// Records that a thread was updated.
    TouchThread { thread_id: String, now_ms: i64 },
    /// Reads the items of a thread, in order.
    SelectHistory { thread_id: String },
    /// Records the patch of a thread.
    SetMetadata { thread_id: String, metadata_patch_json: String, now_ms: i64 },
    /// Records when a thread was archived, or that it is not.
    SetArchived { thread_id: String, archived_at_ms: Option<i64>, now_ms: i64 },
}

/// What a [`ThreadStatement`] says.
#[verifier::ext_equal]
pub enum ThreadStatementView {
    CreateSchema,
    Begin,
    Commit,
    ReadClock,
    UpsertThread { thread_id: Seq<char>, create_params_json: Seq<char>, now_ms: i64 },
    InsertThread { thread_id: Seq<char>, create_params_json: Seq<char>, now_ms: i64 },
    SelectThreadExists { thread_id: Seq<char> },
    SelectThread { thread_id: Seq<char> },
    SelectThreads { count: u64 },
    LockActiveTurn { thread_id: Seq<char>, turn_id: Seq<char>, now_ms: i64 },
    SelectLastItem { thread_id: Seq<char> },
    InsertItem { thread_id: Seq<char>, sequence: u64, item_json: Seq<char>, now_ms: i64 },
    DeleteItems { thread_id: Seq<char> },
    TouchThread { thread_id: Seq<char>, now_ms: i64 },
    SelectHistory { thread_id: Seq<char> },
    SetMetadata { thread_id: Seq<char>, metadata_patch_json: Seq<char>, now_ms: i64 },
    SetArchived { thread_id: Seq<char>, archived_at_ms: Option<i64>, now_ms: i64 },
}

impl DeepView for ThreadStatement {
    type V = ThreadStatementView;

    open spec fn deep_view(&self) -> ThreadStatementView {
        match self {
            ThreadStatement::CreateSchema => ThreadStatementView::CreateSchema,
            ThreadStatement::Begin => ThreadStatementView::Begin,
            ThreadStatement::Commit => ThreadStatementView::Commit,
            ThreadStatement::ReadClock => ThreadStatementView::ReadClock,
            ThreadStatement::UpsertThread {
                thread_id,
                create_params_json,
                now_ms,
            } => ThreadStatementView::UpsertThread {
                thread_id: thread_id@,
                create_params_json: create_params_json@,
                now_ms: *now_ms,
            },
            ThreadStatement::InsertThread {
                thread_id,
                create_params_json,
                now_ms,
            } => ThreadStatementView::InsertThread {
                thread_id: thread_id@,
                create_params_json: create_params_json@,
                now_ms: *now_ms,
            },
            ThreadStatement::SelectThreadExists { thread_id } => ThreadStatementView::SelectThreadExists {
                thread_id: thread_id@,
            },
            ThreadStatement::SelectThread { thread_id } => ThreadStatementView::SelectThread {
                thread_id: thread_id@,
            },
            ThreadStatement::SelectThreads { count } => ThreadStatementView::SelectThreads {
                count: *count,
            },
            ThreadStatement::LockActiveTurn {
                thread_id,
                turn_id,
                now_ms,
            } => ThreadStatementView::LockActiveTurn {
                thread_id: thread_id@,
                turn_id: turn_id@,
                now_ms: *now_ms,
            },
            ThreadStatement::SelectLastItem { thread_id } => ThreadStatementView::SelectLastItem {
                thread_id: thread_id@,
            },
            ThreadStatement::InsertItem {
                thread_id,
                sequence,
                item_json,
                now_ms,
            } => ThreadStatementView::InsertItem {
                thread_id: thread_id@,
                sequence: *sequence,
                item_json: item_json@,
                now_ms: *now_ms,
            },
            ThreadStatement::DeleteItems { thread_id } => ThreadStatementView::DeleteItems {
                thread_id: thread_id@,
            },
            ThreadStatement::TouchThread { thread_id, now_ms } => ThreadStatementView::TouchThread {
                thread_id: thread_id@,
                now_ms: *now_ms,
            },
            ThreadStatement::SelectHistory { thread_id } => ThreadStatementView::SelectHistory {
                thread_id: thread_id@,
            },
            ThreadStatement::SetMetadata {
                thread_id,
                metadata_patch_json,
                now_ms,
            } => ThreadStatementView::SetMetadata {
                thread_id: thread_id@,
                metadata_patch_json: metadata_patch_json@,
                now_ms: *now_ms,
            },
            ThreadStatement::SetArchived {
                thread_id,
                archived_at_ms,
                now_ms,
            } => ThreadStatementView::SetArchived {
                thread_id: thread_id@,
                archived_at_ms: *archived_at_ms,
                now_ms: *now_ms,
            },
        }
    }
}

/// What the database answers to a store of threads.
#[derive(Debug, PartialEq, Eq)]
pub enum ThreadReply {
    /// The statement was executed.
    Done,
    /// What the clock shows, in milliseconds.
    Clock(i64),
    /// So many rows matched.
    Affected(u64),
    /// The statement failed.
    Failed(String),
    /// Whether there is such a row.
    Found(bool),
    /// A thread.
    Thread(Option<ThreadRow>),
    /// Threads.
    Threads(Vec<ListedThread>),
    /// A number, if there is one.
    Last(Option<u64>),
    /// Items as they are read from JSON.
    Items(Vec<Parsed<String>>),
}

/// What a [`ThreadReply`] says.
#[verifier::ext_equal]
pub enum ThreadReplyView {
    Done,
    Clock(i64),
    Affected(u64),
    Failed(Seq<char>),
    Found(bool),
    Thread(Option<ThreadRowView>),
    Threads(Seq<ListedThreadView>),
    Last(Option<u64>),
    Items(Seq<ParsedView<Seq<char>>>),
}

impl DeepView for ThreadReply {
    type V = ThreadReplyView;

    open spec fn deep_view(&self) -> ThreadReplyView {
        match self {
            ThreadReply::Done => ThreadReplyView::Done,
            ThreadReply::Clock(value) => ThreadReplyView::Clock(*value),
            ThreadReply::Affected(value) => ThreadReplyView::Affected(*value),
            ThreadReply::Failed(text) => ThreadReplyView::Failed(text@),
            ThreadReply::Found(value) => ThreadReplyView::Found(*value),
            ThreadReply::Thread(value) => ThreadReplyView::Thread(value.deep_view()),
            ThreadReply::Threads(value) => ThreadReplyView::Threads(value.deep_view()),
            ThreadReply::Last(value) => ThreadReplyView::Last(*value),
            ThreadReply::Items(value) => ThreadReplyView::Items(value.deep_view()),
        }
    }
}

/// What comes next: a statement to put to the database, or the answer of the operation.
#[derive(Debug)]
pub enum ThreadStep<T> {
    Ask(ThreadStatement),
    Done(Result<T, ThreadStoreError>),
}

/// What a [`ThreadStep`] says.
#[verifier::ext_equal]
pub enum ThreadStepView<T> {
    Ask(ThreadStatementView),
    Done(Result<T, ThreadErrorView>),
}

impl<T: DeepView> DeepView for ThreadStep<T> {
    type V = ThreadStepView<T::V>;

    open spec fn deep_view(&self) -> ThreadStepView<T::V> {
        match self {
            ThreadStep::Ask(statement) => ThreadStepView::Ask(statement.deep_view()),
            ThreadStep::Done(r) => ThreadStepView::Done(thread_outcome(*r)),
        }
    }
}

/// How far a part of an operation has come: it has a statement to put to the database, it
/// has failed, or it is through, with a result and with the number of answers it has used.
pub enum ThreadProgress<T> {
    Ask(ThreadStatement),
    Failed(ThreadStoreError),
    Ready(T, usize),
}

/// What a [`ThreadProgress`] says.
#[verifier::ext_equal]
pub enum ThreadProgressView<T> {
    Ask(ThreadStatementView),
    Failed(ThreadErrorView),
    Ready(T, int),
}

impl<T: DeepView> DeepView for ThreadProgress<T> {
    type V = ThreadProgressView<T::V>;

    open spec fn deep_view(&self) -> ThreadProgressView<T::V> {
        match self {
            ThreadProgress::Ask(statement) => ThreadProgressView::Ask(statement.deep_view()),
            ThreadProgress::Failed(error) => ThreadProgressView::Failed(error.deep_view()),
            ThreadProgress::Ready(value, used) => ThreadProgressView::Ready(
                value.deep_view(),
                *used as int,
            ),
        }
    }
}

/// Puts a statement to the database and goes on with what is read from its answer, which is
/// answer `at` of `h`. A failure ends the operation.
pub open spec fn thread_ask<A, T>(
    h: Seq<ThreadReplyView>,
    at: int,
    statement: ThreadStatementView,
    read: spec_fn(ThreadReplyView) -> Result<A, ThreadErrorView>,
    go_on: spec_fn(A) -> ThreadStepView<T>,
) -> ThreadStepView<T> {
    if h.len() <= at {
        ThreadStepView::Ask(statement)
    } else {
        match read(h[at]) {
            Err(error) => ThreadStepView::Done(Err(error)),
            Ok(value) => go_on(value),
        }
    }
}

/// As [`thread_ask`], in a part of an operation.
pub open spec fn thread_part<A, T>(
    h: Seq<ThreadReplyView>,
    at: int,
    statement: ThreadStatementView,
    read: spec_fn(ThreadReplyView) -> Result<A, ThreadErrorView>,
    go_on: spec_fn(A) -> ThreadProgressView<T>,
) -> ThreadProgressView<T> {
    if h.len() <= at {
        ThreadProgressView::Ask(statement)
    } else {
        match read(h[at]) {
            Err(error) => ThreadProgressView::Failed(error),
            Ok(value) => go_on(value),
        }
    }
}

/// Goes on with an operation when a part of it is through.
pub open spec fn thread_after<A, T>(
    progress: ThreadProgressView<A>,
    go_on: spec_fn(A, int) -> ThreadStepView<T>,
) -> ThreadStepView<T> {
    match progress {
        ThreadProgressView::Ask(statement) => ThreadStepView::Ask(statement),
        ThreadProgressView::Failed(error) => ThreadStepView::Done(Err(error)),
        ThreadProgressView::Ready(value, used) => go_on(value, used),
    }
}

/// The error for an answer that does not fit its statement.
pub open spec fn misfit() -> ThreadErrorView {
    storage_failure("statement got an answer of another kind"@)
}

fn misfitting_reply() -> (r: ThreadStoreError)
    ensures
        r.deep_view() == misfit(),
{
    storage_thread_error(&"statement got an answer of another kind".to_owned())
}

impl ThreadReplyView {
    /// That the statement was executed.
    pub open spec fn done(self) -> Result<(), ThreadErrorView> {
        match self {
            ThreadReplyView::Done => Ok(()),
            ThreadReplyView::Failed(text) => Err(storage_failure(text)),
            _ => Err(misfit()),
        }
    }

    /// What the clock shows.
    pub open spec fn clock(self) -> Result<i64, ThreadErrorView> {
        match self {
            ThreadReplyView::Clock(value) => Ok(value),
            ThreadReplyView::Failed(text) => Err(storage_failure(text)),
            _ => Err(misfit()),
        }
    }

    /// How many rows matched.
    pub open spec fn affected(self) -> Result<u64, ThreadErrorView> {
        match self {
            ThreadReplyView::Affected(value) => Ok(value),
            ThreadReplyView::Failed(text) => Err(storage_failure(text)),
            _ => Err(misfit()),
        }
    }

    /// Whether there is such a row.
    pub open spec fn found(self) -> Result<bool, ThreadErrorView> {
        match self {
            ThreadReplyView::Found(value) => Ok(value),
            ThreadReplyView::Failed(text) => Err(storage_failure(text)),
            _ => Err(misfit()),
        }
    }

    /// The thread that was read.
    pub open spec fn thread(self) -> Result<Option<ThreadRowView>, ThreadErrorView> {
        match self {
            ThreadReplyView::Thread(value) => Ok(value),
            ThreadReplyView::Failed(text) => Err(storage_failure(text)),
            _ => Err(misfit()),
        }
    }

    /// The threads that were read.
    pub open spec fn threads(self) -> Result<Seq<ListedThreadView>, ThreadErrorView> {
        match self {
            ThreadReplyView::Threads(value) => Ok(value),
            ThreadReplyView::Failed(text) => Err(storage_failure(text)),
            _ => Err(misfit()),
        }
    }

    /// The number that was read, if there is one.
    pub open spec fn last(self) -> Result<Option<u64>, ThreadErrorView> {
        match self {
            ThreadReplyView::Last(value) => Ok(value),
            ThreadReplyView::Failed(text) => Err(storage_failure(text)),
            _ => Err(misfit()),
        }
    }

    /// The items that were read.
    pub open spec fn items(self) -> Result<Seq<Seq<char>>, ThreadErrorView> {
        match self {
            ThreadReplyView::Items(value) => read_items(value),
            ThreadReplyView::Failed(text) => Err(storage_failure(text)),
            _ => Err(misfit()),
        }
    }
}

impl ThreadReply {
    /// That the statement was executed.
    pub fn done(&self) -> (r: Result<(), ThreadStoreError>)
        ensures
            thread_outcome(r) == self.deep_view().done(),
    {
        match self {
            ThreadReply::Done => Ok(()),
            ThreadReply::Failed(text) => Err(storage_thread_error(text)),
            _ => Err(misfitting_reply()),
        }
    }

    /// What the clock shows.
    pub fn clock(&self) -> (r: Result<i64, ThreadStoreError>)
        ensures
            thread_outcome(r) == self.deep_view().clock(),
    {
        match self {
            ThreadReply::Clock(value) => Ok(*value),
            ThreadReply::Failed(text) => Err(storage_thread_error(text)),
            _ => Err(misfitting_reply()),
        }
    }

    /// How many rows matched.
    pub fn affected(&self) -> (r: Result<u64, ThreadStoreError>)
        ensures
            thread_outcome(r) == self.deep_view().affected(),
    {
        match self {
            ThreadReply::Affected(value) => Ok(*value),
            ThreadReply::Failed(text) => Err(storage_thread_error(text)),
            _ => Err(misfitting_reply()),
        }
    }

    /// Whether there is such a row.
    pub fn found(&self) -> (r: Result<bool, ThreadStoreError>)
        ensures
            thread_outcome(r) == self.deep_view().found(),
    {
        match self {
            ThreadReply::Found(value) => Ok(*value),
            ThreadReply::Failed(text) => Err(storage_thread_error(text)),
            _ => Err(misfitting_reply()),
        }
    }

    /// The thread that was read.
    pub fn thread(&self) -> (r: Result<&Option<ThreadRow>, ThreadStoreError>)
        ensures
            thread_outcome(r) == self.deep_view().thread(),
    {
        match self {
            ThreadReply::Thread(value) => Ok(value),
            ThreadReply::Failed(text) => Err(storage_thread_error(text)),
            _ => Err(misfitting_reply()),
        }
    }

    /// The threads that were read.
    pub fn threads(&self) -> (r: Result<&Vec<ListedThread>, ThreadStoreError>)
        ensures
            thread_outcome(r) == self.deep_view().threads(),
    {
        match self {
            ThreadReply::Threads(value) => Ok(value),
            ThreadReply::Failed(text) => Err(storage_thread_error(text)),
            _ => Err(misfitting_reply()),
        }
    }

    /// The number that was read, if there is one.
    pub fn last(&self) -> (r: Result<Option<u64>, ThreadStoreError>)
        ensures
            thread_outcome(r) == self.deep_view().last(),
    {
        match self {
            ThreadReply::Last(value) => Ok(*value),
            ThreadReply::Failed(text) => Err(storage_thread_error(text)),
            _ => Err(misfitting_reply()),
        }
    }

    /// The items that were read.
    pub fn items(&self) -> (r: Result<Vec<String>, ThreadStoreError>)
        ensures
            thread_outcome(r) == self.deep_view().items(),
    {
        match self {
            ThreadReply::Items(value) => copy_items(value),
            ThreadReply::Failed(text) => Err(storage_thread_error(text)),
            _ => Err(misfitting_reply()),
        }
    }
}

} // verus!
