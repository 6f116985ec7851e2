//! What is asked of a MySQL database, and what it answers.
use vstd::prelude::*;

use crate::protocol::append::ThreadItemView;
use crate::protocol::{AppendThreadItemsWithLeaseResponse, RequestStatus, ThreadItemRecord};
use crate::records::{
    outcome, CloudStateError, ConfigSnapshotRecord, ConfigSnapshotView, ErrorView, EventRecord,
    EventView, StateMetadataRecord, StateMetadataView,
};

verus! {

/// A request as it is read from the database, with its status by name.
#[derive(Debug, Clone, PartialEq, Eq)]
pub struct RequestRow {
    pub request_id: String,
    pub caller_id: String,
    pub thread_id: String,
    pub idempotency_key: String,
    pub input_hash: String,
    pub turn_id: Option<String>,
    pub status: String,
    pub latest_event_cursor: u64,
}

/// What a [`RequestRow`] says.
#[verifier::ext_equal]
pub struct RequestRowView {
    pub request_id: Seq<char>,
    pub caller_id: Seq<char>,
    pub thread_id: Seq<char>,
    pub idempotency_key: Seq<char>,
    pub input_hash: Seq<char>,
    pub turn_id: Option<Seq<char>>,
    pub status: Seq<char>,
    pub latest_event_cursor: u64,
}

impl DeepView for RequestRow {
    type V = RequestRowView;

    open spec fn deep_view(&self) -> RequestRowView {
        RequestRowView {
            request_id: self.request_id@,
            caller_id: self.caller_id@,
            thread_id: self.thread_id@,
            idempotency_key: self.idempotency_key@,
            input_hash: self.input_hash@,
            turn_id: self.turn_id.deep_view(),
            status: self.status@,
            latest_event_cursor: self.latest_event_cursor,
        }
    }
}

/// A writer lease as it is read from the database.
#[derive(Debug, Clone, PartialEq, Eq)]
pub struct LeaseRow {
    pub request_id: String,
    pub lease_id: String,
    pub owner_instance_id: String,
    pub fencing_token: u64,
    pub expires_at_ms: i64,
}

/// What a [`LeaseRow`] says.
#[verifier::ext_equal]
pub struct LeaseRowView {
    pub request_id: Seq<char>,
    pub lease_id: Seq<char>,
    pub owner_instance_id: Seq<char>,
    pub fencing_token: u64,
    pub expires_at_ms: i64,
}

impl DeepView for LeaseRow {
    type V = LeaseRowView;

    open spec fn deep_view(&self) -> LeaseRowView {
        LeaseRowView {
            request_id: self.request_id@,
            lease_id: self.lease_id@,
            owner_instance_id: self.owner_instance_id@,
            fencing_token: self.fencing_token,
            expires_at_ms: self.expires_at_ms,
        }
    }
}

/// A recorded append as it is read from the database.
#[derive(Debug, Clone, PartialEq, Eq)]
pub struct AppendRow {
    pub request_id: String,
    pub payload_refs_json: String,
    pub thread_version: u64,
    pub first_append_sequence: u64,
    pub last_append_sequence: u64,
}

/// What a [`AppendRow`] says.
#[verifier::ext_equal]
pub struct AppendRowView {
    pub request_id: Seq<char>,
    pub payload_refs_json: Seq<char>,
    pub thread_version: u64,
    pub first_append_sequence: u64,
    pub last_append_sequence: u64,
}

impl DeepView for AppendRow {
    type V = AppendRowView;

    open spec fn deep_view(&self) -> AppendRowView {
        AppendRowView {
            request_id: self.request_id@,
            payload_refs_json: self.payload_refs_json@,
            thread_version: self.thread_version,
            first_append_sequence: self.first_append_sequence,
            last_append_sequence: self.last_append_sequence,
        }
    }
}

/// A request with its thread.
#[derive(Debug, Clone, PartialEq, Eq)]
pub struct OwnedRequest {
    pub request_id: String,
    pub thread_id: String,
}

/// What a [`OwnedRequest`] says.
#[verifier::ext_equal]
pub struct OwnedRequestView {
    pub request_id: Seq<char>,
    pub thread_id: Seq<char>,
}

impl DeepView for OwnedRequest {
    type V = OwnedRequestView;

    open spec fn deep_view(&self) -> OwnedRequestView {
        OwnedRequestView {
            request_id: self.request_id@,
            thread_id: self.thread_id@,
        }
    }
}

/// A statement that is put to the database.
#[derive(Debug, Clone, PartialEq, Eq)]
pub enum Statement {
    /// Opens a transaction.
    Begin,
    /// Commits the open transaction.
    Commit,
    /// Rolls the open transaction back.
    Rollback,
    /// Reads a request.
    SelectRequest { request_id: String },
    /// Reads a request, for an update.
    LockRequest { request_id: String },
    /// Reads the request of an idempotency key.
    SelectRequestByKey { caller_id: String, thread_id: String, idempotency_key: String },
    /// Reads a request that runs in a turn.
    SelectRequestByTurn { turn_id: String },
    /// Records a queued request without events.
    InsertRequest {
        request_id: String,
        caller_id: String,
        thread_id: String,
        idempotency_key: String,
        input_hash: String,
        now_ms: i64,
    },
    /// Notes the turn of a request.
    SetTurn { request_id: String, turn_id: String, now_ms: i64 },
    /// Notes the turn of an owner lease.
    SetOwnerTurn { request_id: String, turn_id: String },
    /// Asks whether a caller has a request on a thread.
    SelectThreadAccess { caller_id: String, thread_id: String },
    /// Reads the writer lease of a thread, for an update.
    LockThreadLease { thread_id: String },
    /// Reads the writer lease of a thread that is not released, for an update.
    LockHeldThreadLease { thread_id: String },
    /// Reads the writer lease of a request that is neither released nor expired.
    SelectRequestLease { request_id: String, now_ms: i64 },
    /// Asks whether a request holds a lease that is neither released nor expired, for an update.
    LockActiveLease { thread_id: String, request_id: String, now_ms: i64 },
    /// Ends a request that is not over, and counts one more event.
    EndRequestWithEvent { request_id: String, status: RequestStatus, now_ms: i64 },
    /// Ends a request that is not over.
    EndRequest { request_id: String, status: RequestStatus, now_ms: i64 },
    /// Reads how many events a request has.
    SelectCursor { request_id: String },
    /// Records an event.
    InsertEvent {
        request_id: String,
        sequence: u64,
        event_type: String,
        payload_inline: String,
        now_ms: i64,
    },
    /// Marks the writer lease of a request as released.
    ReleaseThreadLease { thread_id: String, request_id: String, now_ms: i64 },
    /// Deletes the writer lease of a request.
    DeleteThreadLease { thread_id: String, request_id: String },
    /// Marks the owner lease of a request as released.
    ReleaseOwnerLease { request_id: String, now_ms: i64 },
    /// Draws the next fencing token.
    InsertFencingToken { request_id: String, now_ms: i64 },
    /// Reads the fencing token that was drawn last.
    SelectFencingToken,
    /// Records a writer lease on a thread that has none.
    InsertThreadLease {
        thread_id: String,
        request_id: String,
        lease_id: String,
        owner_instance_id: String,
        fencing_token: u64,
        now_ms: i64,
        expires_at_ms: i64,
    },
    /// Records the owner lease of a request.
    UpsertOwnerLease {
        request_id: String,
        turn_id: Option<String>,
        owner_instance_id: String,
        now_ms: i64,
        expires_at_ms: i64,
    },
    /// Gives a request that is not over a status.
    SetStatus { request_id: String, status: RequestStatus },
    /// Renews a writer lease that is neither released nor expired.
    RenewThreadLease {
        thread_id: String,
        request_id: String,
        owner_instance_id: String,
        now_ms: i64,
        expires_at_ms: i64,
    },
    /// Renews an owner lease that is neither released nor expired.
    RenewOwnerLease {
        request_id: String,
        owner_instance_id: String,
        now_ms: i64,
        expires_at_ms: i64,
    },
    /// Reads the running requests whose owner lease has expired, for an update.
    LockExpiredOwners { now_ms: i64 },
    /// Reads the append of an idempotency key.
    SelectAppend { thread_id: String, append_idempotency_key: String },
    /// Reads the number of the last item of a thread.
    SelectVersion { thread_id: String },
    /// Records an item.
    InsertItem { thread_id: String, sequence: u64, payload_ref: String },
    /// Records an append under an idempotency key that has none.
    InsertAppend {
        thread_id: String,
        request_id: String,
        append_idempotency_key: String,
        payload_refs_json: String,
        response: AppendThreadItemsWithLeaseResponse,
    },
    /// Reads items after a position, in order.
    SelectItems { thread_id: String, after: u64, count: u64 },
    /// Counts one more event of a request.
    AdvanceCursor { request_id: String, now_ms: i64 },
    /// Counts one more event of a request that has the expected number.
    AdvanceCursorFrom { request_id: String, expected: u64, now_ms: i64 },
    /// Reads events after a position, in order.
    SelectEvents { request_id: String, after: u64, count: u64 },
    /// Keeps the configuration of a request.
    UpsertConfig { request_id: String, thread_id: String, config_json: String, now_ms: i64 },
    /// Reads the configuration of a request.
    SelectConfig { request_id: String },
    /// Keeps metadata of a thread.
    UpsertMetadata { thread_id: String, kind: String, payload_json: String, now_ms: i64 },
    /// Reads metadata of a thread.
    SelectMetadata { thread_id: String, kind: String },
}

/// What a [`Statement`] says.
#[verifier::ext_equal]
pub enum StatementView {
    Begin,
    Commit,
    Rollback,
    SelectRequest { request_id: Seq<char> },
    LockRequest { request_id: Seq<char> },
    SelectRequestByKey { caller_id: Seq<char>, thread_id: Seq<char>, idempotency_key: Seq<char> },
    SelectRequestByTurn { turn_id: Seq<char> },
    InsertRequest {
        request_id: Seq<char>,
        caller_id: Seq<char>,
        thread_id: Seq<char>,
        idempotency_key: Seq<char>,
        input_hash: Seq<char>,
        now_ms: i64,
    },
    SetTurn { request_id: Seq<char>, turn_id: Seq<char>, now_ms: i64 },
    SetOwnerTurn { request_id: Seq<char>, turn_id: Seq<char> },
    SelectThreadAccess { caller_id: Seq<char>, thread_id: Seq<char> },
    LockThreadLease { thread_id: Seq<char> },
    LockHeldThreadLease { thread_id: Seq<char> },
    SelectRequestLease { request_id: Seq<char>, now_ms: i64 },
    LockActiveLease { thread_id: Seq<char>, request_id: Seq<char>, now_ms: i64 },
    EndRequestWithEvent { request_id: Seq<char>, status: RequestStatus, now_ms: i64 },
    EndRequest { request_id: Seq<char>, status: RequestStatus, now_ms: i64 },
    SelectCursor { request_id: Seq<char> },
    InsertEvent {
        request_id: Seq<char>,
        sequence: u64,
        event_type: Seq<char>,
        payload_inline: Seq<char>,
        now_ms: i64,
    },
    ReleaseThreadLease { thread_id: Seq<char>, request_id: Seq<char>, now_ms: i64 },
    DeleteThreadLease { thread_id: Seq<char>, request_id: Seq<char> },
    ReleaseOwnerLease { request_id: Seq<char>, now_ms: i64 },
    InsertFencingToken { request_id: Seq<char>, now_ms: i64 },
    SelectFencingToken,
    InsertThreadLease {
        thread_id: Seq<char>,
        request_id: Seq<char>,
        lease_id: Seq<char>,
        owner_instance_id: Seq<char>,
        fencing_token: u64,
        now_ms: i64,
        expires_at_ms: i64,
    },
    UpsertOwnerLease {
        request_id: Seq<char>,
        turn_id: Option<Seq<char>>,
        owner_instance_id: Seq<char>,
        now_ms: i64,
        expires_at_ms: i64,
    },
    SetStatus { request_id: Seq<char>, status: RequestStatus },
    RenewThreadLease {
        thread_id: Seq<char>,
        request_id: Seq<char>,
        owner_instance_id: Seq<char>,
        now_ms: i64,
        expires_at_ms: i64,
    },
    RenewOwnerLease {
        request_id: Seq<char>,
        owner_instance_id: Seq<char>,
        now_ms: i64,
        expires_at_ms: i64,
    },
    LockExpiredOwners { now_ms: i64 },
    SelectAppend { thread_id: Seq<char>, append_idempotency_key: Seq<char> },
    SelectVersion { thread_id: Seq<char> },
    InsertItem { thread_id: Seq<char>, sequence: u64, payload_ref: Seq<char> },
    InsertAppend {
        thread_id: Seq<char>,
        request_id: Seq<char>,
        append_idempotency_key: Seq<char>,
        payload_refs_json: Seq<char>,
        response: AppendThreadItemsWithLeaseResponse,
    },
    SelectItems { thread_id: Seq<char>, after: u64, count: u64 },
    AdvanceCursor { request_id: Seq<char>, now_ms: i64 },
    AdvanceCursorFrom { request_id: Seq<char>, expected: u64, now_ms: i64 },
    SelectEvents { request_id: Seq<char>, after: u64, count: u64 },
    UpsertConfig {
        request_id: Seq<char>,
        thread_id: Seq<char>,
        config_json: Seq<char>,
        now_ms: i64,
    },
    SelectConfig { request_id: Seq<char> },
    UpsertMetadata { thread_id: Seq<char>, kind: Seq<char>, payload_json: Seq<char>, now_ms: i64 },
    SelectMetadata { thread_id: Seq<char>, kind: Seq<char> },
}

impl DeepView for Statement {
    type V = StatementView;

    open spec fn deep_view(&self) -> StatementView {
        match self {
            Statement::Begin => StatementView::Begin,
            Statement::Commit => StatementView::Commit,
            Statement::Rollback => StatementView::Rollback,
            Statement::SelectRequest { request_id } => StatementView::SelectRequest {
                request_id: request_id@,
            },
            Statement::LockRequest { request_id } => StatementView::LockRequest {
                request_id: request_id@,
            },
            Statement::SelectRequestByKey {
                caller_id,
                thread_id,
                idempotency_key,
            } => StatementView::SelectRequestByKey {
                caller_id: caller_id@,
                thread_id: thread_id@,
                idempotency_key: idempotency_key@,
            },
            Statement::SelectRequestByTurn { turn_id } => StatementView::SelectRequestByTurn {
                turn_id: turn_id@,
            },
            Statement::InsertRequest {
                request_id,
                caller_id,
                thread_id,
                idempotency_key,
                input_hash,
                now_ms,
            } => StatementView::InsertRequest {
                request_id: request_id@,
                caller_id: caller_id@,
                thread_id: thread_id@,
                idempotency_key: idempotency_key@,
                input_hash: input_hash@,
                now_ms: *now_ms,
            },
            Statement::SetTurn { request_id, turn_id, now_ms } => StatementView::SetTurn {
                request_id: request_id@,
                turn_id: turn_id@,
                now_ms: *now_ms,
            },
            Statement::SetOwnerTurn { request_id, turn_id } => StatementView::SetOwnerTurn {
                request_id: request_id@,
                turn_id: turn_id@,
            },
            Statement::SelectThreadAccess {
                caller_id,
                thread_id,
            } => StatementView::SelectThreadAccess {
                caller_id: caller_id@,
                thread_id: thread_id@,
            },
            Statement::LockThreadLease { thread_id } => StatementView::LockThreadLease {
                thread_id: thread_id@,
            },
            Statement::LockHeldThreadLease { thread_id } => StatementView::LockHeldThreadLease {
                thread_id: thread_id@,
            },
            Statement::SelectRequestLease {
                request_id,
                now_ms,
            } => StatementView::SelectRequestLease {
                request_id: request_id@,
                now_ms: *now_ms,
            },
            Statement::LockActiveLease {
                thread_id,
                request_id,
                now_ms,
            } => StatementView::LockActiveLease {
                thread_id: thread_id@,
                request_id: request_id@,
                now_ms: *now_ms,
            },
            Statement::EndRequestWithEvent {
                request_id,
                status,
                now_ms,
            } => StatementView::EndRequestWithEvent {
                request_id: request_id@,
                status: *status,
                now_ms: *now_ms,
            },
            Statement::EndRequest { request_id, status, now_ms } => StatementView::EndRequest {
                request_id: request_id@,
                status: *status,
                now_ms: *now_ms,
            },
            Statement::SelectCursor { request_id } => StatementView::SelectCursor {
                request_id: request_id@,
            },
            Statement::InsertEvent {
                request_id,
                sequence,
                event_type,
                payload_inline,
                now_ms,
            } => StatementView::InsertEvent {
                request_id: request_id@,
                sequence: *sequence,
                event_type: event_type@,
                payload_inline: payload_inline@,
                now_ms: *now_ms,
            },
            Statement::ReleaseThreadLease {
                thread_id,
                request_id,
                now_ms,
            } => StatementView::ReleaseThreadLease {
                thread_id: thread_id@,
                request_id: request_id@,
                now_ms: *now_ms,
            },
            Statement::DeleteThreadLease {
                thread_id,
                request_id,
            } => StatementView::DeleteThreadLease {
                thread_id: thread_id@,
                request_id: request_id@,
            },
            Statement::ReleaseOwnerLease {
                request_id,
                now_ms,
            } => StatementView::ReleaseOwnerLease {
                request_id: request_id@,
                now_ms: *now_ms,
            },
            Statement::InsertFencingToken {
                request_id,
                now_ms,
            } => StatementView::InsertFencingToken {
                request_id: request_id@,
                now_ms: *now_ms,
            },
            Statement::SelectFencingToken => StatementView::SelectFencingToken,
            Statement::InsertThreadLease {
                thread_id,
                request_id,
                lease_id,
                owner_instance_id,
                fencing_token,
                now_ms,
                expires_at_ms,
            } => StatementView::InsertThreadLease {
                thread_id: thread_id@,
                request_id: request_id@,
                lease_id: lease_id@,
                owner_instance_id: owner_instance_id@,
                fencing_token: *fencing_token,
                now_ms: *now_ms,
                expires_at_ms: *expires_at_ms,
            },
            Statement::UpsertOwnerLease {
                request_id,
                turn_id,
                owner_instance_id,
                now_ms,
                expires_at_ms,
            } => StatementView::UpsertOwnerLease {
                request_id: request_id@,
                turn_id: turn_id.deep_view(),
                owner_instance_id: owner_instance_id@,
                now_ms: *now_ms,
                expires_at_ms: *expires_at_ms,
            },
            Statement::SetStatus { request_id, status } => StatementView::SetStatus {
                request_id: request_id@,
                status: *status,
            },
            Statement::RenewThreadLease {
                thread_id,
                request_id,
                owner_instance_id,
                now_ms,
                expires_at_ms,
            } => StatementView::RenewThreadLease {
                thread_id: thread_id@,
                request_id: request_id@,
                owner_instance_id: owner_instance_id@,
                now_ms: *now_ms,
                expires_at_ms: *expires_at_ms,
            },
            Statement::RenewOwnerLease {
                request_id,
                owner_instance_id,
                now_ms,
                expires_at_ms,
            } => StatementView::RenewOwnerLease {
                request_id: request_id@,
                owner_instance_id: owner_instance_id@,
                now_ms: *now_ms,
                expires_at_ms: *expires_at_ms,
            },
            Statement::LockExpiredOwners { now_ms } => StatementView::LockExpiredOwners {
                now_ms: *now_ms,
            },
            Statement::SelectAppend {
                thread_id,
                append_idempotency_key,
            } => StatementView::SelectAppend {
                thread_id: thread_id@,
                append_idempotency_key: append_idempotency_key@,
            },
            Statement::SelectVersion { thread_id } => StatementView::SelectVersion {
                thread_id: thread_id@,
            },
            Statement::InsertItem {
                thread_id,
                sequence,
                payload_ref,
            } => StatementView::InsertItem {
                thread_id: thread_id@,
                sequence: *sequence,
                payload_ref: payload_ref@,
            },
            Statement::InsertAppend {
                thread_id,
                request_id,
                append_idempotency_key,
                payload_refs_json,
                response,
            } => StatementView::InsertAppend {
                thread_id: thread_id@,
                request_id: request_id@,
                append_idempotency_key: append_idempotency_key@,
                payload_refs_json: payload_refs_json@,
                response: *response,
            },
            Statement::SelectItems { thread_id, after, count } => StatementView::SelectItems {
                thread_id: thread_id@,
                after: *after,
                count: *count,
            },
            Statement::AdvanceCursor { request_id, now_ms } => StatementView::AdvanceCursor {
                request_id: request_id@,
                now_ms: *now_ms,
            },
            Statement::AdvanceCursorFrom {
                request_id,
                expected,
                now_ms,
            } => StatementView::AdvanceCursorFrom {
                request_id: request_id@,
                expected: *expected,
                now_ms: *now_ms,
            },
            Statement::SelectEvents { request_id, after, count } => StatementView::SelectEvents {
                request_id: request_id@,
                after: *after,
                count: *count,
            },
            Statement::UpsertConfig {
                request_id,
                thread_id,
                config_json,
                now_ms,
            } => StatementView::UpsertConfig {
                request_id: request_id@,
                thread_id: thread_id@,
                config_json: config_json@,
                now_ms: *now_ms,
            },
            Statement::SelectConfig { request_id } => StatementView::SelectConfig {
                request_id: request_id@,
            },
            Statement::UpsertMetadata {
                thread_id,
                kind,
                payload_json,
                now_ms,
            } => StatementView::UpsertMetadata {
                thread_id: thread_id@,
                kind: kind@,
                payload_json: payload_json@,
                now_ms: *now_ms,
            },
            Statement::SelectMetadata { thread_id, kind } => StatementView::SelectMetadata {
                thread_id: thread_id@,
                kind: kind@,
            },
        }
    }
}

/// What the database answers.
#[derive(Debug, Clone, PartialEq, Eq)]
pub enum Reply {
    /// The statement was executed.
    Done,
    /// So many rows matched.
    Affected(u64),
    /// A key is there already.
    Duplicate,
    /// The statement failed.
    Failed(String),
    /// Whether there is such a row.
    Found(bool),
    /// A request.
    Request(Option<RequestRow>),
    /// A writer lease.
    Lease(Option<LeaseRow>),
    /// A recorded append.
    Append(Option<AppendRow>),
    /// A number.
    Number(u64),
    /// Requests with their threads.
    Owners(Vec<OwnedRequest>),
    /// Items.
    Items(Vec<ThreadItemRecord>),
    /// Events.
    Events(Vec<EventRecord>),
    /// A configuration.
    Config(Option<ConfigSnapshotRecord>),
    /// Metadata.
    Metadata(Option<StateMetadataRecord>),
}

/// What a [`Reply`] says.
#[verifier::ext_equal]
pub enum ReplyView {
    Done,
    Affected(u64),
    Duplicate,
    Failed(Seq<char>),
    Found(bool),
    Request(Option<RequestRowView>),
    Lease(Option<LeaseRowView>),
    Append(Option<AppendRowView>),
    Number(u64),
    Owners(Seq<OwnedRequestView>),
    Items(Seq<ThreadItemView>),
    Events(Seq<EventView>),
    Config(Option<ConfigSnapshotView>),
    Metadata(Option<StateMetadataView>),
}

impl DeepView for Reply {
    type V = ReplyView;

    open spec fn deep_view(&self) -> ReplyView {
        match self {
            Reply::Done => ReplyView::Done,
            Reply::Affected(value) => ReplyView::Affected(*value),
            Reply::Duplicate => ReplyView::Duplicate,
            Reply::Failed(text) => ReplyView::Failed(text@),
            Reply::Found(value) => ReplyView::Found(*value),
            Reply::Request(value) => ReplyView::Request(value.deep_view()),
            Reply::Lease(value) => ReplyView::Lease(value.deep_view()),
            Reply::Append(value) => ReplyView::Append(value.deep_view()),
            Reply::Number(value) => ReplyView::Number(*value),
            Reply::Owners(value) => ReplyView::Owners(value.deep_view()),
            Reply::Items(value) => ReplyView::Items(value.deep_view()),
            Reply::Events(value) => ReplyView::Events(value.deep_view()),
            Reply::Config(value) => ReplyView::Config(value.deep_view()),
            Reply::Metadata(value) => ReplyView::Metadata(value.deep_view()),
        }
    }
}

/// What comes next: a statement to put to the database, or the answer of the operation.
#[derive(Debug)]
pub enum Step<T> {
    Ask(Statement),
    Done(Result<T, CloudStateError>),
}

/// What a [`Step`] says.
#[verifier::ext_equal]
pub enum StepView<T> {
    Ask(StatementView),
    Done(Result<T, ErrorView>),
}

impl<T: DeepView> DeepView for Step<T> {
    type V = StepView<T::V>;

    open spec fn deep_view(&self) -> StepView<T::V> {
        match self {
            Step::Ask(statement) => StepView::Ask(statement.deep_view()),
            Step::Done(r) => StepView::Done(outcome(*r)),
        }
    }
}

/// How far a part of an operation has come: it has a statement to put to the database, it
/// has failed, or it is through, with a result and with the number of answers it has used.
pub enum Progress<T> {
    Ask(Statement),
    Failed(CloudStateError),
    Ready(T, usize),
}

/// What a [`Progress`] says.
#[verifier::ext_equal]
pub enum ProgressView<T> {
    Ask(StatementView),
    Failed(ErrorView),
    Ready(T, int),
}

impl<T: DeepView> DeepView for Progress<T> {
    type V = ProgressView<T::V>;

    open spec fn deep_view(&self) -> ProgressView<T::V> {
        match self {
            Progress::Ask(statement) => ProgressView::Ask(statement.deep_view()),
            Progress::Failed(error) => ProgressView::Failed(error.deep_view()),
            Progress::Ready(value, used) => ProgressView::Ready(value.deep_view(), *used as int),
        }
    }
}

/// Puts a statement to the database and goes on with what is read from its answer, which is
/// answer `at` of `h`. A failure ends the operation.
pub open spec fn ask<A, T>(
    h: Seq<ReplyView>,
    at: int,
    statement: StatementView,
    read: spec_fn(ReplyView) -> Result<A, ErrorView>,
    go_on: spec_fn(A) -> StepView<T>,
) -> StepView<T> {
    if h.len() <= at {
        StepView::Ask(statement)
    } else {
        match read(h[at]) {
            Err(error) => StepView::Done(Err(error)),
            Ok(value) => go_on(value),
        }
    }
}

/// As [`ask`], in a part of an operation.
pub open spec fn part<A, T>(
    h: Seq<ReplyView>,
    at: int,
    statement: StatementView,
    read: spec_fn(ReplyView) -> Result<A, ErrorView>,
    go_on: spec_fn(A) -> ProgressView<T>,
) -> ProgressView<T> {
    if h.len() <= at {
        ProgressView::Ask(statement)
    } else {
        match read(h[at]) {
            Err(error) => ProgressView::Failed(error),
            Ok(value) => go_on(value),
        }
    }
}

/// Goes on with an operation when a part of it is through.
pub open spec fn after<A, T>(
    progress: ProgressView<A>,
    go_on: spec_fn(A, int) -> StepView<T>,
) -> StepView<T> {
    match progress {
        ProgressView::Ask(statement) => StepView::Ask(statement),
        ProgressView::Failed(error) => StepView::Done(Err(error)),
        ProgressView::Ready(value, used) => go_on(value, used),
    }
}

/// The error for an answer that does not fit its statement.
pub open spec fn unexpected() -> ErrorView {
    ErrorView::Storage("statement got an answer of another kind"@)
}

fn unexpected_reply() -> (r: CloudStateError)
    ensures
        r.deep_view() == unexpected(),
{
    CloudStateError::Storage("statement got an answer of another kind".to_owned())
}

impl ReplyView {
    /// That the statement was executed.
    pub open spec fn done(self) -> Result<(), ErrorView> {
        match self {
            ReplyView::Done => Ok(()),
            ReplyView::Failed(text) => Err(ErrorView::Storage(text)),
            _ => Err(unexpected()),
        }
    }

    /// How many rows matched.
    pub open spec fn affected(self) -> Result<u64, ErrorView> {
        match self {
            ReplyView::Affected(value) => Ok(value),
            ReplyView::Failed(text) => Err(ErrorView::Storage(text)),
            _ => Err(unexpected()),
        }
    }

    /// Whether there is such a row.
    pub open spec fn found(self) -> Result<bool, ErrorView> {
        match self {
            ReplyView::Found(value) => Ok(value),
            ReplyView::Failed(text) => Err(ErrorView::Storage(text)),
            _ => Err(unexpected()),
        }
    }

    /// The number that was read.
    pub open spec fn number(self) -> Result<u64, ErrorView> {
        match self {
            ReplyView::Number(value) => Ok(value),
            ReplyView::Failed(text) => Err(ErrorView::Storage(text)),
            _ => Err(unexpected()),
        }
    }

    /// The lease that was read.
    pub open spec fn lease_row(self) -> Result<Option<LeaseRowView>, ErrorView> {
        match self {
            ReplyView::Lease(value) => Ok(value),
            ReplyView::Failed(text) => Err(ErrorView::Storage(text)),
            _ => Err(unexpected()),
        }
    }

    /// The append that was read.
    pub open spec fn append_row(self) -> Result<Option<AppendRowView>, ErrorView> {
        match self {
            ReplyView::Append(value) => Ok(value),
            ReplyView::Failed(text) => Err(ErrorView::Storage(text)),
            _ => Err(unexpected()),
        }
    }

    /// The requests that were read.
    pub open spec fn owners(self) -> Result<Seq<OwnedRequestView>, ErrorView> {
        match self {
            ReplyView::Owners(value) => Ok(value),
            ReplyView::Failed(text) => Err(ErrorView::Storage(text)),
            _ => Err(unexpected()),
        }
    }

    /// The items that were read.
    pub open spec fn items(self) -> Result<Seq<ThreadItemView>, ErrorView> {
        match self {
            ReplyView::Items(value) => Ok(value),
            ReplyView::Failed(text) => Err(ErrorView::Storage(text)),
            _ => Err(unexpected()),
        }
    }

    /// The events that were read.
    pub open spec fn events(self) -> Result<Seq<EventView>, ErrorView> {
        match self {
            ReplyView::Events(value) => Ok(value),
            ReplyView::Failed(text) => Err(ErrorView::Storage(text)),
            _ => Err(unexpected()),
        }
    }

    /// The configuration that was read.
    pub open spec fn config(self) -> Result<Option<ConfigSnapshotView>, ErrorView> {
        match self {
            ReplyView::Config(value) => Ok(value),
            ReplyView::Failed(text) => Err(ErrorView::Storage(text)),
            _ => Err(unexpected()),
        }
    }

    /// The metadata that was read.
    pub open spec fn metadata(self) -> Result<Option<StateMetadataView>, ErrorView> {
        match self {
            ReplyView::Metadata(value) => Ok(value),
            ReplyView::Failed(text) => Err(ErrorView::Storage(text)),
            _ => Err(unexpected()),
        }
    }

    /// Whether a row was recorded: it was not if its key was there already.
    pub open spec fn inserted(self) -> Result<bool, ErrorView> {
        match self {
            ReplyView::Done => Ok(true),
            ReplyView::Duplicate => Ok(false),
            ReplyView::Failed(text) => Err(ErrorView::Storage(text)),
            _ => Err(unexpected()),
        }
    }
}

impl Reply {
    /// That the statement was executed.
    pub fn done(&self) -> (r: Result<(), CloudStateError>)
        ensures
            outcome(r) == self.deep_view().done(),
    {
        match self {
            Reply::Done => Ok(()),
            Reply::Failed(text) => Err(CloudStateError::Storage(text.clone())),
            _ => Err(unexpected_reply()),
        }
    }

    /// How many rows matched.
    pub fn affected(&self) -> (r: Result<u64, CloudStateError>)
        ensures
            outcome(r) == self.deep_view().affected(),
    {
        match self {
            Reply::Affected(value) => Ok(*value),
            Reply::Failed(text) => Err(CloudStateError::Storage(text.clone())),
            _ => Err(unexpected_reply()),
        }
    }

    /// Whether there is such a row.
    pub fn found(&self) -> (r: Result<bool, CloudStateError>)
        ensures
            outcome(r) == self.deep_view().found(),
    {
        match self {
            Reply::Found(value) => Ok(*value),
            Reply::Failed(text) => Err(CloudStateError::Storage(text.clone())),
            _ => Err(unexpected_reply()),
        }
    }

    /// The number that was read.
    pub fn number(&self) -> (r: Result<u64, CloudStateError>)
        ensures
            outcome(r) == self.deep_view().number(),
    {
        match self {
            Reply::Number(value) => Ok(*value),
            Reply::Failed(text) => Err(CloudStateError::Storage(text.clone())),
            _ => Err(unexpected_reply()),
        }
    }

    /// The lease that was read.
    pub fn lease_row(&self) -> (r: Result<&Option<LeaseRow>, CloudStateError>)
        ensures
            outcome(r) == self.deep_view().lease_row(),
    {
        match self {
            Reply::Lease(value) => Ok(value),
            Reply::Failed(text) => Err(CloudStateError::Storage(text.clone())),
            _ => Err(unexpected_reply()),
        }
    }

    /// The append that was read.
    pub fn append_row(&self) -> (r: Result<&Option<AppendRow>, CloudStateError>)
        ensures
            outcome(r) == self.deep_view().append_row(),
    {
        match self {
            Reply::Append(value) => Ok(value),
            Reply::Failed(text) => Err(CloudStateError::Storage(text.clone())),
            _ => Err(unexpected_reply()),
        }
    }

    /// The requests that were read.
    pub fn owners(&self) -> (r: Result<&Vec<OwnedRequest>, CloudStateError>)
        ensures
            outcome(r) == self.deep_view().owners(),
    {
        match self {
            Reply::Owners(value) => Ok(value),
            Reply::Failed(text) => Err(CloudStateError::Storage(text.clone())),
            _ => Err(unexpected_reply()),
        }
    }

    /// The items that were read.
    pub fn items(&self) -> (r: Result<&Vec<ThreadItemRecord>, CloudStateError>)
        ensures
            outcome(r) == self.deep_view().items(),
    {
        match self {
            Reply::Items(value) => Ok(value),
            Reply::Failed(text) => Err(CloudStateError::Storage(text.clone())),
            _ => Err(unexpected_reply()),
        }
    }

    /// The events that were read.
    pub fn events(&self) -> (r: Result<&Vec<EventRecord>, CloudStateError>)
        ensures
            outcome(r) == self.deep_view().events(),
    {
        match self {
            Reply::Events(value) => Ok(value),
            Reply::Failed(text) => Err(CloudStateError::Storage(text.clone())),
            _ => Err(unexpected_reply()),
        }
    }

    /// The configuration that was read.
    pub fn config(&self) -> (r: Result<&Option<ConfigSnapshotRecord>, CloudStateError>)
        ensures
            outcome(r) == self.deep_view().config(),
    {
        match self {
            Reply::Config(value) => Ok(value),
            Reply::Failed(text) => Err(CloudStateError::Storage(text.clone())),
            _ => Err(unexpected_reply()),
        }
    }

    /// The metadata that was read.
    pub fn metadata(&self) -> (r: Result<&Option<StateMetadataRecord>, CloudStateError>)
        ensures
            outcome(r) == self.deep_view().metadata(),
    {
        match self {
            Reply::Metadata(value) => Ok(value),
            Reply::Failed(text) => Err(CloudStateError::Storage(text.clone())),
            _ => Err(unexpected_reply()),
        }
    }

    /// Whether a row was recorded: it was not if its key was there already.
    pub fn inserted(&self) -> (r: Result<bool, CloudStateError>)
        ensures
            outcome(r) == self.deep_view().inserted(),
    {
        match self {
            Reply::Done => Ok(true),
            Reply::Duplicate => Ok(false),
            Reply::Failed(text) => Err(CloudStateError::Storage(text.clone())),
            _ => Err(unexpected_reply()),
        }
    }
}

} // verus!
