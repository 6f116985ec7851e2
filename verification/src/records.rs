//! What a store of request state keeps, takes and answers.
use vstd::prelude::*;

use crate::protocol::request::RequestRecordView;
use crate::protocol::RequestStatus;
use crate::text::copy_optional;

verus! {

/// Asks for a request to be recorded.
#[derive(Debug, Clone, PartialEq, Eq)]
pub struct CreateRequestParams {
    pub caller_id: String,
    pub thread_id: String,
    pub idempotency_key: String,
    pub input_hash: String,
}

/// What a [`CreateRequestParams`] says.
#[verifier::ext_equal]
pub struct CreateRequestView {
    pub caller_id: Seq<char>,
    pub thread_id: Seq<char>,
    pub idempotency_key: Seq<char>,
    pub input_hash: Seq<char>,
}

impl DeepView for CreateRequestParams {
    type V = CreateRequestView;

    open spec fn deep_view(&self) -> CreateRequestView {
        CreateRequestView {
            caller_id: self.caller_id@,
            thread_id: self.thread_id@,
            idempotency_key: self.idempotency_key@,
            input_hash: self.input_hash@,
        }
    }
}

/// A recorded request.
#[derive(Debug, PartialEq, Eq)]
pub struct RequestRecord {
    pub request_id: String,
    pub caller_id: String,
    pub thread_id: String,
    pub idempotency_key: String,
    pub input_hash: String,
    pub turn_id: Option<String>,
    pub status: RequestStatus,
    pub latest_event_cursor: u64,
}

/// What a [`RequestRecord`] says.
#[verifier::ext_equal]
pub struct RequestView {
    pub request_id: Seq<char>,
    pub caller_id: Seq<char>,
    pub thread_id: Seq<char>,
    pub idempotency_key: Seq<char>,
    pub input_hash: Seq<char>,
    pub turn_id: Option<Seq<char>>,
    pub status: RequestStatus,
    pub latest_event_cursor: u64,
}

impl DeepView for RequestRecord {
    type V = RequestView;

    open spec fn deep_view(&self) -> RequestView {
        RequestView {
            request_id: self.request_id@,
            caller_id: self.caller_id@,
            thread_id: self.thread_id@,
            idempotency_key: self.idempotency_key@,
            input_hash: self.input_hash@,
            turn_id: self.turn_id.deep_view(),
            status: self.status,
            latest_event_cursor: self.latest_event_cursor,
        }
    }
}

impl Clone for RequestRecord {
    fn clone(&self) -> (r: Self)
        ensures
            r == *self,
    {
        RequestRecord {
            request_id: self.request_id.clone(),
            caller_id: self.caller_id.clone(),
            thread_id: self.thread_id.clone(),
            idempotency_key: self.idempotency_key.clone(),
            input_hash: self.input_hash.clone(),
            turn_id: copy_optional(&self.turn_id),
            status: self.status,
            latest_event_cursor: self.latest_event_cursor,
        }
    }
}

impl RequestView {
    /// The request as clients see it.
    pub open spec fn to_protocol(self) -> RequestRecordView {
        RequestRecordView {
            request_id: self.request_id,
            thread_id: self.thread_id,
            turn_id: self.turn_id,
            status: self.status,
            latest_event_cursor: self.latest_event_cursor,
        }
    }
}

impl RequestRecord {
    /// The request as clients see it.
    pub fn to_protocol(&self) -> (r: crate::protocol::RequestRecord)
        ensures
            r.deep_view() == self.deep_view().to_protocol(),
    {
        crate::protocol::RequestRecord {
            request_id: self.request_id.clone(),
            thread_id: self.thread_id.clone(),
            turn_id: copy_optional(&self.turn_id),
            status: self.status,
            latest_event_cursor: self.latest_event_cursor,
        }
    }
}

/// Asks for items to be appended to the thread of a request, under its writer lease.
#[derive(Debug, Clone, PartialEq, Eq)]
pub struct LeaseAppendParams {
    pub request_id: String,
    pub lease_id: String,
    pub writer_owner_token: String,
    pub fencing_token: u64,
    pub append_idempotency_key: String,
    pub expected_thread_version: Option<u64>,
    pub payload_refs: Vec<String>,
}

/// What a [`LeaseAppendParams`] says.
#[verifier::ext_equal]
pub struct LeaseAppendView {
    pub request_id: Seq<char>,
    pub lease_id: Seq<char>,
    pub writer_owner_token: Seq<char>,
    pub fencing_token: u64,
    pub append_idempotency_key: Seq<char>,
    pub expected_thread_version: Option<u64>,
    pub payload_refs: Seq<Seq<char>>,
}

impl DeepView for LeaseAppendParams {
    type V = LeaseAppendView;

    open spec fn deep_view(&self) -> LeaseAppendView {
        LeaseAppendView {
            request_id: self.request_id@,
            lease_id: self.lease_id@,
            writer_owner_token: self.writer_owner_token@,
            fencing_token: self.fencing_token,
            append_idempotency_key: self.append_idempotency_key@,
            expected_thread_version: self.expected_thread_version,
            payload_refs: self.payload_refs.deep_view(),
        }
    }
}

/// Asks for an event to be appended to a request.
#[derive(Debug, Clone, PartialEq, Eq)]
pub struct EventAppendParams {
    pub request_id: String,
    pub event_type: String,
    pub payload_inline: String,
}

/// What a [`EventAppendParams`] says.
#[verifier::ext_equal]
pub struct EventAppendView {
    pub request_id: Seq<char>,
    pub event_type: Seq<char>,
    pub payload_inline: Seq<char>,
}

impl DeepView for EventAppendParams {
    type V = EventAppendView;

    open spec fn deep_view(&self) -> EventAppendView {
        EventAppendView {
            request_id: self.request_id@,
            event_type: self.event_type@,
            payload_inline: self.payload_inline@,
        }
    }
}

/// A recorded event.
#[derive(Debug, PartialEq, Eq)]
pub struct EventRecord {
    pub request_id: String,
    pub sequence: u64,
    pub event_type: String,
    pub payload_inline: String,
}

/// What a [`EventRecord`] says.
#[verifier::ext_equal]
pub struct EventView {
    pub request_id: Seq<char>,
    pub sequence: u64,
    pub event_type: Seq<char>,
    pub payload_inline: Seq<char>,
}

impl DeepView for EventRecord {
    type V = EventView;

    open spec fn deep_view(&self) -> EventView {
        EventView {
            request_id: self.request_id@,
            sequence: self.sequence,
            event_type: self.event_type@,
            payload_inline: self.payload_inline@,
        }
    }
}

impl Clone for EventRecord {
    fn clone(&self) -> (r: Self)
        ensures
            r == *self,
    {
        EventRecord {
            request_id: self.request_id.clone(),
            sequence: self.sequence,
            event_type: self.event_type.clone(),
            payload_inline: self.payload_inline.clone(),
        }
    }
}

/// Some events of a request, and the cursor after which the next ones stand.
#[derive(Debug, Clone, PartialEq, Eq)]
pub struct EventsPage {
    pub data: Vec<EventRecord>,
    pub next_cursor: Option<u64>,
}

/// What a [`EventsPage`] says.
#[verifier::ext_equal]
pub struct EventsPageView {
    pub data: Seq<EventView>,
    pub next_cursor: Option<u64>,
}

impl DeepView for EventsPage {
    type V = EventsPageView;

    open spec fn deep_view(&self) -> EventsPageView {
        EventsPageView {
            data: self.data.deep_view(),
            next_cursor: self.next_cursor,
        }
    }
}

/// The configuration under which a request runs.
#[derive(Debug, PartialEq, Eq)]
pub struct ConfigSnapshotRecord {
    pub request_id: String,
    pub thread_id: String,
    pub config_json: String,
}

/// What a [`ConfigSnapshotRecord`] says.
#[verifier::ext_equal]
pub struct ConfigSnapshotView {
    pub request_id: Seq<char>,
    pub thread_id: Seq<char>,
    pub config_json: Seq<char>,
}

impl DeepView for ConfigSnapshotRecord {
    type V = ConfigSnapshotView;

    open spec fn deep_view(&self) -> ConfigSnapshotView {
        ConfigSnapshotView {
            request_id: self.request_id@,
            thread_id: self.thread_id@,
            config_json: self.config_json@,
        }
    }
}

impl Clone for ConfigSnapshotRecord {
    fn clone(&self) -> (r: Self)
        ensures
            r == *self,
    {
        ConfigSnapshotRecord {
            request_id: self.request_id.clone(),
            thread_id: self.thread_id.clone(),
            config_json: self.config_json.clone(),
        }
    }
}

/// Metadata of one kind kept for a thread.
#[derive(Debug, PartialEq, Eq)]
pub struct StateMetadataRecord {
    pub thread_id: String,
    pub kind: String,
    pub payload_json: String,
}

/// What a [`StateMetadataRecord`] says.
#[verifier::ext_equal]
pub struct StateMetadataView {
    pub thread_id: Seq<char>,
    pub kind: Seq<char>,
    pub payload_json: Seq<char>,
}

impl DeepView for StateMetadataRecord {
    type V = StateMetadataView;

    open spec fn deep_view(&self) -> StateMetadataView {
        StateMetadataView {
            thread_id: self.thread_id@,
            kind: self.kind@,
            payload_json: self.payload_json@,
        }
    }
}

impl Clone for StateMetadataRecord {
    fn clone(&self) -> (r: Self)
        ensures
            r == *self,
    {
        StateMetadataRecord {
            thread_id: self.thread_id.clone(),
            kind: self.kind.clone(),
            payload_json: self.payload_json.clone(),
        }
    }
}

/// Whether a request took a terminal status.
#[derive(Debug, Clone, Copy, PartialEq, Eq, Structural)]
pub enum TerminalStatusUpdate {
    Changed,
    Unchanged,
}

impl DeepView for TerminalStatusUpdate {
    type V = TerminalStatusUpdate;

    open spec fn deep_view(&self) -> TerminalStatusUpdate {
        *self
    }
}

/// What an attempt to take the writer lease of a thread comes to.
#[derive(Debug, Clone, PartialEq, Eq)]
pub enum LeaseAcquireOutcome {
    /// The lease is taken, under this identifier and fencing token.
    Acquired { lease_id: String, fencing_token: u64 },
    /// Another lease on the thread is held.
    Queued,
}

/// What a [`LeaseAcquireOutcome`] says.
#[verifier::ext_equal]
pub enum LeaseAcquireView {
    Acquired { lease_id: Seq<char>, fencing_token: u64 },
    Queued,
}

impl DeepView for LeaseAcquireOutcome {
    type V = LeaseAcquireView;

    open spec fn deep_view(&self) -> LeaseAcquireView {
        match self {
            LeaseAcquireOutcome::Acquired {
                lease_id,
                fencing_token,
            } => LeaseAcquireView::Acquired {
                lease_id: lease_id@,
                fencing_token: *fencing_token,
            },
            LeaseAcquireOutcome::Queued => LeaseAcquireView::Queued,
        }
    }
}

/// Why a store refuses.
#[derive(Debug, Clone, PartialEq, Eq)]
pub enum CloudStateError {
    IdempotencyConflict,
    RequestNotFound,
    LeaseLost,
    RequestNotQueued,
    InvalidEventPayload,
    ThreadMismatch,
    ThreadVersionConflict,
    EmptyAppend,
    Storage(String),
}

/// What a [`CloudStateError`] says.
#[verifier::ext_equal]
pub enum ErrorView {
    IdempotencyConflict,
    RequestNotFound,
    LeaseLost,
    RequestNotQueued,
    InvalidEventPayload,
    ThreadMismatch,
    ThreadVersionConflict,
    EmptyAppend,
    Storage(Seq<char>),
}

impl DeepView for CloudStateError {
    type V = ErrorView;

    open spec fn deep_view(&self) -> ErrorView {
        match self {
            CloudStateError::IdempotencyConflict => ErrorView::IdempotencyConflict,
            CloudStateError::RequestNotFound => ErrorView::RequestNotFound,
            CloudStateError::LeaseLost => ErrorView::LeaseLost,
            CloudStateError::RequestNotQueued => ErrorView::RequestNotQueued,
            CloudStateError::InvalidEventPayload => ErrorView::InvalidEventPayload,
            CloudStateError::ThreadMismatch => ErrorView::ThreadMismatch,
            CloudStateError::ThreadVersionConflict => ErrorView::ThreadVersionConflict,
            CloudStateError::EmptyAppend => ErrorView::EmptyAppend,
            CloudStateError::Storage(text) => ErrorView::Storage(text@),
        }
    }
}

impl ErrorView {
    /// What the error reads as.
    pub open spec fn message(self) -> Seq<char> {
        match self {
            ErrorView::IdempotencyConflict => "idempotency key was reused with different input"@,
            ErrorView::RequestNotFound => "request was not found"@,
            ErrorView::LeaseLost => "request lost its writer lease"@,
            ErrorView::RequestNotQueued =>
                "request is not queued and cannot acquire a writer lease"@,
            ErrorView::InvalidEventPayload => "request event payload must be valid JSON"@,
            ErrorView::ThreadMismatch => "append thread_id does not match request thread_id"@,
            ErrorView::ThreadVersionConflict =>
                "expected thread version does not match current thread version"@,
            ErrorView::EmptyAppend => "append must include at least one thread item"@,
            ErrorView::Storage(text) => "cloud state storage error: "@ + text,
        }
    }
}

impl CloudStateError {
    /// What the error reads as.
    pub fn message(&self) -> (r: String)
        ensures
            r@ == self.deep_view().message(),
    {
        match self {
            CloudStateError::IdempotencyConflict => {
                "idempotency key was reused with different input".to_owned()
            },
            CloudStateError::RequestNotFound => "request was not found".to_owned(),
            CloudStateError::LeaseLost => "request lost its writer lease".to_owned(),
            CloudStateError::RequestNotQueued => {
                "request is not queued and cannot acquire a writer lease".to_owned()
            },
            CloudStateError::InvalidEventPayload => {
                "request event payload must be valid JSON".to_owned()
            },
            CloudStateError::ThreadMismatch => {
                "append thread_id does not match request thread_id".to_owned()
            },
            CloudStateError::ThreadVersionConflict => {
                "expected thread version does not match current thread version".to_owned()
            },
            CloudStateError::EmptyAppend => {
                "append must include at least one thread item".to_owned()
            },
            CloudStateError::Storage(text) => {
                let mut message = "cloud state storage error: ".to_owned();
                message.append(text.as_str());
                message
            },
        }
    }
}

/// What a result says, in the case of success and of failure.
pub open spec fn outcome<T: DeepView>(r: Result<T, CloudStateError>) -> Result<T::V, ErrorView> {
    match r {
        Ok(value) => Ok(value.deep_view()),
        Err(error) => Err(error.deep_view()),
    }
}

} // verus!
