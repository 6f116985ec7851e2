//! The events of a request.
use vstd::prelude::*;

verus! {

/// Asks for the events of a request after a cursor.
#[derive(Debug, Clone, PartialEq, Eq)]
pub struct RequestEventsListParams {
    pub request_id: String,
    pub cursor: Option<u64>,
    pub limit: Option<u32>,
}

/// One event of a request.
#[derive(Debug, Clone, PartialEq, Eq)]
pub struct RequestEvent {
    pub request_id: String,
    pub sequence: u64,
    pub event_type: String,
    pub payload_inline: String,
}

/// What a [`RequestEvent`] says.
#[verifier::ext_equal]
pub struct RequestEventView {
    pub request_id: Seq<char>,
    pub sequence: u64,
    pub event_type: Seq<char>,
    pub payload_inline: Seq<char>,
}

impl DeepView for RequestEvent {
    type V = RequestEventView;

    open spec fn deep_view(&self) -> RequestEventView {
        RequestEventView {
            request_id: self.request_id@,
            sequence: self.sequence,
            event_type: self.event_type@,
            payload_inline: self.payload_inline@,
        }
    }
}

/// Answers [`RequestEventsListParams`].
#[derive(Debug, Clone, PartialEq, Eq)]
pub struct RequestEventsListResponse {
    pub data: Vec<RequestEvent>,
    pub next_cursor: Option<u64>,
}

/// What a [`RequestEventsListResponse`] says.
#[verifier::ext_equal]
pub struct RequestEventsListResponseView {
    pub data: Seq<RequestEventView>,
    pub next_cursor: Option<u64>,
}

impl DeepView for RequestEventsListResponse {
    type V = RequestEventsListResponseView;

    open spec fn deep_view(&self) -> RequestEventsListResponseView {
        RequestEventsListResponseView {
            data: self.data.deep_view(),
            next_cursor: self.next_cursor,
        }
    }
}

} // verus!
