//! Models say what the values that they stand for say.
use vstd::prelude::*;

use crate::protocol::{
    RequestCancelResponse, RequestEvent, RequestEventsListResponse, RequestReadResponse,
    RequestRunResponse, RequestTerminalResponse, ThreadItemRecord, ThreadItemsListResponse,
    WriterLeaseRecord,
};
use crate::records::{
    outcome, CloudStateError, ConfigSnapshotRecord, CreateRequestParams, ErrorView,
    EventAppendParams, EventRecord, EventsPage, LeaseAppendParams, RequestRecord,
    StateMetadataRecord,
};

verus! {

/// What is asked of a store is modelled by what its fields say.
pub proof fn questions_are_modelled_by_their_fields(
    request: CreateRequestParams,
    items: LeaseAppendParams,
    event: EventAppendParams,
    config: ConfigSnapshotRecord,
    metadata: StateMetadataRecord,
)
    ensures
        request.deep_view().caller_id == request.caller_id@,
        request.deep_view().thread_id == request.thread_id@,
        request.deep_view().idempotency_key == request.idempotency_key@,
        request.deep_view().input_hash == request.input_hash@,
        items.deep_view().request_id == items.request_id@,
        items.deep_view().lease_id == items.lease_id@,
        items.deep_view().writer_owner_token == items.writer_owner_token@,
        items.deep_view().fencing_token == items.fencing_token,
        items.deep_view().append_idempotency_key == items.append_idempotency_key@,
        items.deep_view().expected_thread_version == items.expected_thread_version,
        items.deep_view().payload_refs == items.payload_refs.deep_view(),
        event.deep_view().request_id == event.request_id@,
        event.deep_view().event_type == event.event_type@,
        event.deep_view().payload_inline == event.payload_inline@,
        config.deep_view().request_id == config.request_id@,
        config.deep_view().thread_id == config.thread_id@,
        config.deep_view().config_json == config.config_json@,
        metadata.deep_view().thread_id == metadata.thread_id@,
        metadata.deep_view().kind == metadata.kind@,
        metadata.deep_view().payload_json == metadata.payload_json@,
{
}

/// What a store records is modelled by what its fields say.
pub proof fn records_are_modelled_by_their_fields(
    request: RequestRecord,
    event: EventRecord,
    page: EventsPage,
    item: ThreadItemRecord,
    lease: WriterLeaseRecord,
)
    ensures
        request.deep_view().request_id == request.request_id@,
        request.deep_view().caller_id == request.caller_id@,
        request.deep_view().thread_id == request.thread_id@,
        request.deep_view().idempotency_key == request.idempotency_key@,
        request.deep_view().input_hash == request.input_hash@,
        request.deep_view().turn_id == request.turn_id.deep_view(),
        request.deep_view().status == request.status,
        request.deep_view().latest_event_cursor == request.latest_event_cursor,
        event.deep_view().request_id == event.request_id@,
        event.deep_view().sequence == event.sequence,
        event.deep_view().event_type == event.event_type@,
        event.deep_view().payload_inline == event.payload_inline@,
        page.deep_view().data == page.data.deep_view(),
        page.deep_view().next_cursor == page.next_cursor,
        item.deep_view().thread_id == item.thread_id@,
        item.deep_view().sequence == item.sequence,
        item.deep_view().payload_ref == item.payload_ref@,
        lease.deep_view().lease_id == lease.lease_id@,
        lease.deep_view().writer_owner_token == lease.writer_owner_token@,
        lease.deep_view().fencing_token == lease.fencing_token,
{
}

/// What clients are answered is modelled by what its fields say.
pub proof fn answers_are_modelled_by_their_fields(
    request: crate::protocol::RequestRecord,
    event: RequestEvent,
    run: RequestRunResponse,
    read: RequestReadResponse,
    cancelled: RequestCancelResponse,
    ended: RequestTerminalResponse,
    events: RequestEventsListResponse,
    items: ThreadItemsListResponse,
)
    ensures
        request.deep_view().request_id == request.request_id@,
        request.deep_view().thread_id == request.thread_id@,
        request.deep_view().turn_id == request.turn_id.deep_view(),
        request.deep_view().status == request.status,
        request.deep_view().latest_event_cursor == request.latest_event_cursor,
        event.deep_view().request_id == event.request_id@,
        event.deep_view().sequence == event.sequence,
        event.deep_view().event_type == event.event_type@,
        event.deep_view().payload_inline == event.payload_inline@,
        run.deep_view().request == run.request.deep_view(),
        run.deep_view().thread_id == run.thread_id@,
        run.deep_view().event_cursor == run.event_cursor,
        run.deep_view().writer_lease == run.writer_lease.deep_view(),
        read.deep_view().request == read.request.deep_view(),
        read.deep_view().latest_event_cursor == read.latest_event_cursor,
        cancelled.deep_view().request == cancelled.request.deep_view(),
        ended.deep_view().request == ended.request.deep_view(),
        ended.deep_view().latest_event_cursor == ended.latest_event_cursor,
        events.deep_view().data == events.data.deep_view(),
        events.deep_view().next_cursor == events.next_cursor,
        items.deep_view().data == items.data.deep_view(),
        items.deep_view().next_cursor == items.next_cursor,
{
}

/// Errors are modelled by what they are, and results by what they hold.
pub proof fn errors_are_modelled_as_they_are<T: DeepView>(
    error: CloudStateError,
    r: Result<T, CloudStateError>,
)
    ensures
        error is IdempotencyConflict <==> error.deep_view() is IdempotencyConflict,
        error is RequestNotFound <==> error.deep_view() is RequestNotFound,
        error is LeaseLost <==> error.deep_view() is LeaseLost,
        error is RequestNotQueued <==> error.deep_view() is RequestNotQueued,
        error is InvalidEventPayload <==> error.deep_view() is InvalidEventPayload,
        error is ThreadMismatch <==> error.deep_view() is ThreadMismatch,
        error is ThreadVersionConflict <==> error.deep_view() is ThreadVersionConflict,
        error is EmptyAppend <==> error.deep_view() is EmptyAppend,
        error matches CloudStateError::Storage(text) ==> error.deep_view() == ErrorView::Storage(
            text@,
        ),
        r matches Ok(value) ==> outcome(r) == Ok::<T::V, ErrorView>(value.deep_view()),
        r matches Err(failure) ==> outcome(r) == Err::<T::V, ErrorView>(failure.deep_view()),
{
}

} // verus!
