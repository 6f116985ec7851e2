//! Requests, their status, and what a terminal signal does to it.
use vstd::prelude::*;

verus! {

/// Where a request stands.
#[derive(Debug, Clone, Copy, PartialEq, Eq, Structural)]
pub enum RequestStatus {
    Queued,
    Running,
    Cancelling,
    Completed,
    Failed,
    Cancelled,
    Interrupted,
    OwnerTimedOut,
    LeaseLost,
    TurnTimedOut,
}

impl RequestStatus {
    /// Whether a request with this status is over.
    pub open spec fn terminal(self) -> bool {
        !(self is Queued || self is Running || self is Cancelling)
    }

    /// Whether a request with this status is over.
    pub fn is_terminal(self) -> (r: bool)
        ensures
            r == self.terminal(),
    {
        matches!(
            self,
            RequestStatus::Completed | RequestStatus::Failed | RequestStatus::Cancelled
                | RequestStatus::Interrupted | RequestStatus::OwnerTimedOut
                | RequestStatus::LeaseLost | RequestStatus::TurnTimedOut
        )
    }
}

/// A request as clients see it.
#[derive(Debug, Clone, PartialEq, Eq)]
pub struct RequestRecord {
    pub request_id: String,
    pub thread_id: String,
    pub turn_id: Option<String>,
    pub status: RequestStatus,
    pub latest_event_cursor: u64,
}

/// What a [`RequestRecord`] says.
#[verifier::ext_equal]
pub struct RequestRecordView {
    pub request_id: Seq<char>,
    pub thread_id: Seq<char>,
    pub turn_id: Option<Seq<char>>,
    pub status: RequestStatus,
    pub latest_event_cursor: u64,
}

impl DeepView for RequestRecord {
    type V = RequestRecordView;

    open spec fn deep_view(&self) -> RequestRecordView {
        RequestRecordView {
            request_id: self.request_id@,
            thread_id: self.thread_id@,
            turn_id: self.turn_id.deep_view(),
            status: self.status,
            latest_event_cursor: self.latest_event_cursor,
        }
    }
}

/// Asks for a request to run, on a given thread or on a new one.
#[derive(Debug, Clone, PartialEq, Eq)]
pub struct RequestRunParams {
    pub thread_id: Option<String>,
    pub create_thread: Option<bool>,
    pub input: String,
    pub idempotency_key: String,
    pub cwd: Option<String>,
    pub client_info: Option<String>,
}

/// The lease under which a request writes to its thread.
#[derive(Debug, Clone, PartialEq, Eq)]
pub struct WriterLeaseRecord {
    pub lease_id: String,
    pub writer_owner_token: String,
    pub fencing_token: u64,
}

/// What a [`WriterLeaseRecord`] says.
#[verifier::ext_equal]
pub struct WriterLeaseView {
    pub lease_id: Seq<char>,
    pub writer_owner_token: Seq<char>,
    pub fencing_token: u64,
}

impl DeepView for WriterLeaseRecord {
    type V = WriterLeaseView;

    open spec fn deep_view(&self) -> WriterLeaseView {
        WriterLeaseView {
            lease_id: self.lease_id@,
            writer_owner_token: self.writer_owner_token@,
            fencing_token: self.fencing_token,
        }
    }
}

/// Answers [`RequestRunParams`].
#[derive(Debug, Clone, PartialEq, Eq)]
pub struct RequestRunResponse {
    pub request: RequestRecord,
    pub thread_id: String,
    pub event_cursor: u64,
    pub writer_lease: Option<WriterLeaseRecord>,
}

/// What a [`RequestRunResponse`] says.
#[verifier::ext_equal]
pub struct RequestRunResponseView {
    pub request: RequestRecordView,
    pub thread_id: Seq<char>,
    pub event_cursor: u64,
    pub writer_lease: Option<WriterLeaseView>,
}

impl DeepView for RequestRunResponse {
    type V = RequestRunResponseView;

    open spec fn deep_view(&self) -> RequestRunResponseView {
        RequestRunResponseView {
            request: self.request.deep_view(),
            thread_id: self.thread_id@,
            event_cursor: self.event_cursor,
            writer_lease: self.writer_lease.deep_view(),
        }
    }
}

/// Asks for one request.
#[derive(Debug, Clone, PartialEq, Eq)]
pub struct RequestReadParams {
    pub request_id: String,
}

/// Answers [`RequestReadParams`].
#[derive(Debug, Clone, PartialEq, Eq)]
pub struct RequestReadResponse {
    pub request: RequestRecord,
    pub latest_event_cursor: u64,
}

/// What a [`RequestReadResponse`] says.
#[verifier::ext_equal]
pub struct RequestReadResponseView {
    pub request: RequestRecordView,
    pub latest_event_cursor: u64,
}

impl DeepView for RequestReadResponse {
    type V = RequestReadResponseView;

    open spec fn deep_view(&self) -> RequestReadResponseView {
        RequestReadResponseView {
            request: self.request.deep_view(),
            latest_event_cursor: self.latest_event_cursor,
        }
    }
}

/// Asks for a request to be cancelled.
#[derive(Debug, Clone, PartialEq, Eq)]
pub struct RequestCancelParams {
    pub request_id: String,
    pub reason: Option<String>,
}

/// Answers [`RequestCancelParams`].
#[derive(Debug, Clone, PartialEq, Eq)]
pub struct RequestCancelResponse {
    pub request: RequestRecord,
}

/// What a [`RequestCancelResponse`] says.
#[verifier::ext_equal]
pub struct RequestCancelResponseView {
    pub request: RequestRecordView,
}

impl DeepView for RequestCancelResponse {
    type V = RequestCancelResponseView;

    open spec fn deep_view(&self) -> RequestCancelResponseView {
        RequestCancelResponseView {
            request: self.request.deep_view(),
        }
    }
}

/// Reports that a request has come to an end.
#[derive(Debug, Clone, PartialEq, Eq)]
pub struct RequestTerminalParams {
    pub request_id: String,
    pub signal: TerminalSignal,
    pub payload_inline: Option<String>,
}

/// Answers [`RequestTerminalParams`].
#[derive(Debug, Clone, PartialEq, Eq)]
pub struct RequestTerminalResponse {
    pub request: RequestRecord,
    pub latest_event_cursor: u64,
}

/// What a [`RequestTerminalResponse`] says.
#[verifier::ext_equal]
pub struct RequestTerminalResponseView {
    pub request: RequestRecordView,
    pub latest_event_cursor: u64,
}

impl DeepView for RequestTerminalResponse {
    type V = RequestTerminalResponseView;

    open spec fn deep_view(&self) -> RequestTerminalResponseView {
        RequestTerminalResponseView {
            request: self.request.deep_view(),
            latest_event_cursor: self.latest_event_cursor,
        }
    }
}

/// What can happen to the stream that a client reads from.
#[derive(Debug, Clone, Copy, PartialEq, Eq, Structural)]
pub enum ClientStreamEvent {
    SseDisconnected,
}

/// Why a request comes to an end.
#[derive(Debug, Clone, Copy, PartialEq, Eq, Structural)]
pub enum TerminalSignal {
    CancelConfirmed,
    RuntimeWriteDenied,
    WriterLeaseLost,
    OwnerLeaseTimedOut,
    TurnTimedOut,
    Interrupted,
    Failed,
    Completed,
}

impl TerminalSignal {
    /// The status that the signal gives to a request that is not over.
    pub open spec fn status(self) -> RequestStatus {
        match self {
            TerminalSignal::CancelConfirmed => RequestStatus::Cancelled,
            TerminalSignal::RuntimeWriteDenied => RequestStatus::LeaseLost,
            TerminalSignal::WriterLeaseLost => RequestStatus::LeaseLost,
            TerminalSignal::OwnerLeaseTimedOut => RequestStatus::OwnerTimedOut,
            TerminalSignal::TurnTimedOut => RequestStatus::TurnTimedOut,
            TerminalSignal::Interrupted => RequestStatus::Interrupted,
            TerminalSignal::Failed => RequestStatus::Failed,
            TerminalSignal::Completed => RequestStatus::Completed,
        }
    }
}

/// A status, and whether it differs from the one before.
#[derive(Debug, Clone, Copy, PartialEq, Eq, Structural)]
pub struct RequestStatusTransition {
    pub status: RequestStatus,
    pub changed: bool,
}

impl RequestStatusTransition {
    /// A client that goes away leaves the request as it is.
    pub fn from_client_stream_event(
        current_status: RequestStatus,
        event: ClientStreamEvent,
    ) -> (r: Self)
        ensures
            r.status == current_status,
            !r.changed,
    {
        match event {
            ClientStreamEvent::SseDisconnected => RequestStatusTransition {
                status: current_status,
                changed: false,
            },
        }
    }

    /// A request that is over keeps its status; another one takes that of the signal.
    pub fn from_terminal_signal(current_status: RequestStatus, signal: TerminalSignal) -> (r: Self)
        ensures
            current_status.terminal() ==> r.status == current_status && !r.changed,
            !current_status.terminal() ==> r.status == signal.status() && r.changed,
            r.status.terminal(),
            r.changed == (r.status != current_status),
    {
        if current_status.is_terminal() {
            return RequestStatusTransition { status: current_status, changed: false };
        }
        let status = match signal {
            TerminalSignal::Completed => RequestStatus::Completed,
            TerminalSignal::RuntimeWriteDenied | TerminalSignal::WriterLeaseLost => {
                RequestStatus::LeaseLost
            },
            TerminalSignal::OwnerLeaseTimedOut => RequestStatus::OwnerTimedOut,
            TerminalSignal::TurnTimedOut => RequestStatus::TurnTimedOut,
            TerminalSignal::CancelConfirmed => RequestStatus::Cancelled,
            TerminalSignal::Interrupted => RequestStatus::Interrupted,
            TerminalSignal::Failed => RequestStatus::Failed,
        };
        RequestStatusTransition { status, changed: status != current_status }
    }
}

} // verus!
