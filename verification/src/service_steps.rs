//! What the request service asks of a store, and what it makes of each answer.
//!
//! The relations here hold for any store: they fix what is handed to each call, and what
//! the service does with whatever comes back.
use vstd::prelude::*;

use crate::protocol::append::{ThreadItemView, ThreadItemsListResponseView};
use crate::protocol::event::{RequestEventView, RequestEventsListResponseView};
use crate::protocol::request::{
    RequestCancelResponseView, RequestReadResponseView, RequestRunResponseView,
    RequestTerminalResponseView, WriterLeaseView,
};
use crate::protocol::{AppendThreadItemsWithLeaseResponse, RequestStatus, TerminalSignal};
use crate::records::{
    ConfigSnapshotView, CreateRequestView, ErrorView, EventAppendView, EventView, EventsPageView,
    LeaseAcquireView, LeaseAppendView, RequestView, StateMetadataView, TerminalStatusUpdate,
};
use crate::request_store::CloudStateStore;

verus! {

/// A request that is read for a caller: that of another caller is not found.
pub open spec fn scoped(
    found: Result<RequestView, ErrorView>,
    caller_id: Seq<char>,
) -> Result<RequestView, ErrorView> {
    match found {
        Ok(request) => if request.caller_id == caller_id {
            Ok(request)
        } else {
            Err(ErrorView::RequestNotFound)
        },
        Err(error) => Err(error),
    }
}

/// The event that says that a request waits.
pub open spec fn queued_event(id: Seq<char>) -> EventAppendView {
    EventAppendView { request_id: id, event_type: "request/queued"@, payload_inline: "{}"@ }
}

/// The event that says that a request runs.
pub open spec fn running_event(id: Seq<char>) -> EventAppendView {
    EventAppendView { request_id: id, event_type: "request/running"@, payload_inline: "{}"@ }
}

/// What `run` answers of a request.
pub open spec fn run_response(
    request: RequestView,
    thread_id: Seq<char>,
    writer_lease: Option<WriterLeaseView>,
) -> RequestRunResponseView {
    RequestRunResponseView {
        request: request.to_protocol(),
        thread_id,
        event_cursor: request.latest_event_cursor,
        writer_lease,
    }
}

/// The end of `run`: the request is read and, where it runs, its lease too.
pub open spec fn run_answer<S: CloudStateStore>(
    pre: &S,
    id: Seq<char>,
    thread_id: Seq<char>,
    post: &S,
    r: Result<RequestRunResponseView, ErrorView>,
) -> bool {
    &&& post == pre
    &&& exists|found: Result<RequestView, ErrorView>| #[trigger]
        pre.read_request_reply(id, found) && match found {
            Err(error) => r == Err::<RequestRunResponseView, ErrorView>(error),
            Ok(request) => if request.status == RequestStatus::Running {
                exists|lease: Result<Option<WriterLeaseView>, ErrorView>| #[trigger]
                    pre.read_thread_writer_lease_reply(request.request_id, lease) && r
                        == match lease {
                        Err(error) => Err(error),
                        Ok(lease) => Ok(run_response(request, thread_id, lease)),
                    }
            } else {
                r == Ok::<RequestRunResponseView, ErrorView>(run_response(request, thread_id, None))
            },
        }
}

/// The middle of `run`: a queued request tries to take its lease, and says so if it runs.
pub open spec fn run_take<S: CloudStateStore>(
    pre: &S,
    caller_id: Seq<char>,
    id: Seq<char>,
    thread_id: Seq<char>,
    post: &S,
    r: Result<RequestRunResponseView, ErrorView>,
) -> bool {
    exists|found: Result<RequestView, ErrorView>| #[trigger]
        pre.read_request_reply(id, found) && match found {
            Err(error) => post == pre && r == Err::<RequestRunResponseView, ErrorView>(error),
            Ok(request) => if request.status == RequestStatus::Queued {
                run_acquire(pre, caller_id, request.request_id, thread_id, post, r)
            } else {
                run_answer(pre, request.request_id, thread_id, post, r)
            },
        }
}

/// A queued request tries to take its lease for its caller.
pub open spec fn run_acquire<S: CloudStateStore>(
    pre: &S,
    caller_id: Seq<char>,
    id: Seq<char>,
    thread_id: Seq<char>,
    post: &S,
    r: Result<RequestRunResponseView, ErrorView>,
) -> bool {
    exists|mid: &S, taken: Result<LeaseAcquireView, ErrorView>| #[trigger]
        S::acquire_thread_writer_lease_step(pre, id, caller_id, mid, taken) && match taken {
            Err(error) => post == mid && r == Err::<RequestRunResponseView, ErrorView>(error),
            Ok(LeaseAcquireView::Queued) => run_answer(mid, id, thread_id, post, r),
            Ok(LeaseAcquireView::Acquired { lease_id, fencing_token }) => run_started(
                mid,
                id,
                thread_id,
                post,
                r,
            ),
        }
}

/// A request that took its lease says that it runs.
pub open spec fn run_started<S: CloudStateStore>(
    pre: &S,
    id: Seq<char>,
    thread_id: Seq<char>,
    post: &S,
    r: Result<RequestRunResponseView, ErrorView>,
) -> bool {
    exists|mid: &S, said: Result<EventView, ErrorView>| #[trigger]
        S::append_request_event_step(pre, running_event(id), mid, said) && match said {
            Err(error) => post == mid && r == Err::<RequestRunResponseView, ErrorView>(error),
            Ok(_) => run_answer(mid, id, thread_id, post, r),
        }
}

/// After a request is recorded: its first event says that it waits.
pub open spec fn run_announce<S: CloudStateStore>(
    pre: &S,
    caller_id: Seq<char>,
    request: RequestView,
    thread_id: Seq<char>,
    post: &S,
    r: Result<RequestRunResponseView, ErrorView>,
) -> bool {
    if request.latest_event_cursor == 0 {
        exists|mid: &S, said: Result<Option<EventView>, ErrorView>| #[trigger]
            S::append_request_event_if_latest_cursor_step(
                pre,
                queued_event(request.request_id),
                0,
                mid,
                said,
            ) && match said {
                Err(error) => post == mid && r == Err::<RequestRunResponseView, ErrorView>(error),
                Ok(_) => run_take(mid, caller_id, request.request_id, thread_id, post, r),
            }
    } else {
        run_take(pre, caller_id, request.request_id, thread_id, post, r)
    }
}

/// Running a request on a thread.
pub open spec fn run_step<S: CloudStateStore>(
    pre: &S,
    params: CreateRequestView,
    post: &S,
    r: Result<RequestRunResponseView, ErrorView>,
) -> bool {
    exists|mid: &S, created: Result<RequestView, ErrorView>| #[trigger]
        S::create_request_step(pre, params, mid, created) && match created {
            Err(error) => post == mid && r == Err::<RequestRunResponseView, ErrorView>(error),
            Ok(request) => run_announce(mid, params.caller_id, request, params.thread_id, post, r),
        }
}

/// Appending items for a caller, to the thread that the request is on.
pub open spec fn append_step<S: CloudStateStore>(
    pre: &S,
    caller_id: Seq<char>,
    thread_id: Seq<char>,
    params: LeaseAppendView,
    post: &S,
    r: Result<AppendThreadItemsWithLeaseResponse, ErrorView>,
) -> bool {
    exists|found: Result<RequestView, ErrorView>| #[trigger]
        pre.read_request_reply(params.request_id, found) && match scoped(found, caller_id) {
            Err(error) => post == pre && r == Err::<AppendThreadItemsWithLeaseResponse, ErrorView>(
                error,
            ),
            Ok(request) => if request.thread_id != thread_id {
                post == pre && r == Err::<AppendThreadItemsWithLeaseResponse, ErrorView>(
                    ErrorView::ThreadMismatch,
                )
            } else {
                S::append_thread_items_with_lease_step(pre, params, post, r)
            },
        }
}

/// Listing items for a caller that has access to the thread.
pub open spec fn items_reply<S: CloudStateStore>(
    store: &S,
    caller_id: Seq<char>,
    thread_id: Seq<char>,
    cursor: Option<u64>,
    limit: nat,
    r: Result<ThreadItemsListResponseView, ErrorView>,
) -> bool {
    exists|access: Result<bool, ErrorView>| #[trigger]
        store.caller_can_access_thread_reply(caller_id, thread_id, access) && match access {
            Err(error) => r == Err::<ThreadItemsListResponseView, ErrorView>(error),
            Ok(false) => r == Err::<ThreadItemsListResponseView, ErrorView>(
                ErrorView::RequestNotFound,
            ),
            Ok(true) => exists|listed: Result<(Seq<ThreadItemView>, Option<u64>), ErrorView>|
                #[trigger]
                store.list_thread_items_reply(
                    thread_id,
                    cursor,
                    limit,
                    listed,
                ) && r == match listed {
                    Err(error) => Err(error),
                    Ok((data, next_cursor)) => Ok(
                        ThreadItemsListResponseView { data, next_cursor },
                    ),
                },
        }
}

/// Reading a request for a caller.
pub open spec fn read_reply<S: CloudStateStore>(
    store: &S,
    caller_id: Seq<char>,
    id: Seq<char>,
    r: Result<RequestReadResponseView, ErrorView>,
) -> bool {
    exists|found: Result<RequestView, ErrorView>| #[trigger]
        store.read_request_reply(id, found) && r == match scoped(found, caller_id) {
            Err(error) => Err(error),
            Ok(request) => Ok(
                RequestReadResponseView {
                    request: request.to_protocol(),
                    latest_event_cursor: request.latest_event_cursor,
                },
            ),
        }
}

/// Noting the turn of a caller's request.
pub open spec fn set_turn_step<S: CloudStateStore>(
    pre: &S,
    caller_id: Seq<char>,
    id: Seq<char>,
    turn_id: Seq<char>,
    post: &S,
    r: Result<RequestView, ErrorView>,
) -> bool {
    exists|found: Result<RequestView, ErrorView>| #[trigger]
        pre.read_request_reply(id, found) && match scoped(found, caller_id) {
            Err(error) => post == pre && r == Err::<RequestView, ErrorView>(error),
            Ok(_) => S::set_request_turn_id_step(pre, id, turn_id, post, r),
        }
}

/// The type of the event that records the end of a request.
pub open spec fn terminal_event_type(status: RequestStatus) -> Seq<char> {
    match status {
        RequestStatus::Completed => "request/completed"@,
        RequestStatus::Failed => "request/failed"@,
        RequestStatus::Cancelled => "request/cancelled"@,
        RequestStatus::Interrupted => "request/interrupted"@,
        RequestStatus::OwnerTimedOut => "request/owner_timed_out"@,
        RequestStatus::LeaseLost => "request/lease_lost"@,
        _ => "request/turn_timed_out"@,
    }
}

/// The event that records the end of a request.
pub open spec fn terminal_event(
    id: Seq<char>,
    signal: TerminalSignal,
    payload_inline: Option<Seq<char>>,
) -> EventAppendView {
    EventAppendView {
        request_id: id,
        event_type: terminal_event_type(signal.status()),
        payload_inline: match payload_inline {
            Some(payload) => payload,
            None => "{}"@,
        },
    }
}

/// What is answered of a request that came to an end.
pub open spec fn terminal_response(
    found: Result<RequestView, ErrorView>,
    caller_id: Seq<char>,
) -> Result<
    RequestTerminalResponseView,
    ErrorView,
> {
    match scoped(found, caller_id) {
        Err(error) => Err(error),
        Ok(request) => Ok(
            RequestTerminalResponseView {
                request: request.to_protocol(),
                latest_event_cursor: request.latest_event_cursor,
            },
        ),
    }
}

/// The end of a terminal signal: the request is read again.
pub open spec fn terminal_answer<S: CloudStateStore>(
    pre: &S,
    caller_id: Seq<char>,
    id: Seq<char>,
    post: &S,
    r: Result<RequestTerminalResponseView, ErrorView>,
) -> bool {
    &&& post == pre
    &&& exists|found: Result<RequestView, ErrorView>| #[trigger]
        pre.read_request_reply(id, found) && r == terminal_response(found, caller_id)
}

/// A terminal signal for a caller's request: one that is not over ends, with an event.
pub open spec fn terminal_step<S: CloudStateStore>(
    pre: &S,
    caller_id: Seq<char>,
    id: Seq<char>,
    signal: TerminalSignal,
    payload_inline: Option<Seq<char>>,
    post: &S,
    r: Result<RequestTerminalResponseView, ErrorView>,
) -> bool {
    exists|found: Result<RequestView, ErrorView>| #[trigger]
        pre.read_request_reply(id, found) && match scoped(found, caller_id) {
            Err(error) => post == pre && r == Err::<RequestTerminalResponseView, ErrorView>(error),
            Ok(current) => if current.status.terminal() {
                terminal_answer(pre, caller_id, id, post, r)
            } else if payload_inline is Some && !crate::json::json_valid(payload_inline->0) {
                &&& post == pre
                &&& r == Err::<RequestTerminalResponseView, ErrorView>(
                    ErrorView::InvalidEventPayload,
                )
                &&& !crate::json::own_payload(payload_inline->0)
            } else {
                terminal_mark(pre, caller_id, id, signal, payload_inline, post, r)
            },
        }
}

/// The store is asked to end the request.
pub open spec fn terminal_mark<S: CloudStateStore>(
    pre: &S,
    caller_id: Seq<char>,
    id: Seq<char>,
    signal: TerminalSignal,
    payload_inline: Option<Seq<char>>,
    post: &S,
    r: Result<RequestTerminalResponseView, ErrorView>,
) -> bool {
    exists|mid: &S, update: Result<TerminalStatusUpdate, ErrorView>| #[trigger]
        S::mark_request_terminal_with_event_step(
            pre,
            terminal_event(id, signal, payload_inline),
            signal.status(),
            mid,
            update,
        ) && match update {
            Err(error) => post == mid && r == Err::<RequestTerminalResponseView, ErrorView>(error),
            Ok(_) => terminal_answer(mid, caller_id, id, post, r),
        }
}

/// What a cancellation answers.
pub open spec fn cancel_response(r: Result<RequestTerminalResponseView, ErrorView>) -> Result<
    RequestCancelResponseView,
    ErrorView,
> {
    match r {
        Err(error) => Err(error),
        Ok(response) => Ok(RequestCancelResponseView { request: response.request }),
    }
}

/// The payload that records a cancellation.
pub open spec fn cancel_payload(reason: Option<Seq<char>>) -> Seq<char> {
    match reason {
        Some(reason) => crate::json::reason_json(reason),
        None => "{}"@,
    }
}

/// Cancelling a caller's request.
pub open spec fn cancel_step<S: CloudStateStore>(
    pre: &S,
    caller_id: Seq<char>,
    id: Seq<char>,
    reason: Option<Seq<char>>,
    post: &S,
    r: Result<RequestCancelResponseView, ErrorView>,
) -> bool {
    &&& reason is Some ==> crate::json::json_valid(cancel_payload(reason))
        && crate::json::json_reason(cancel_payload(reason)) == reason
    &&& exists|ended: Result<RequestTerminalResponseView, ErrorView>| #[trigger]
        terminal_step(
            pre,
            caller_id,
            id,
            TerminalSignal::CancelConfirmed,
            Some(cancel_payload(reason)),
            post,
            ended,
        ) && r == cancel_response(ended)
}

/// A terminal signal for the request that runs in a turn.
pub open spec fn terminal_turn_step<S: CloudStateStore>(
    pre: &S,
    turn_id: Seq<char>,
    signal: TerminalSignal,
    payload_inline: Option<Seq<char>>,
    post: &S,
    r: Result<RequestTerminalResponseView, ErrorView>,
) -> bool {
    exists|found: Result<RequestView, ErrorView>| #[trigger]
        pre.read_request_by_turn_id_reply(turn_id, found) && match found {
            Err(error) => post == pre && r == Err::<RequestTerminalResponseView, ErrorView>(error),
            Ok(request) => terminal_step(
                pre,
                request.caller_id,
                request.request_id,
                signal,
                payload_inline,
                post,
                r,
            ),
        }
}

/// A recorded event as clients see it.
pub open spec fn event_to_protocol(event: EventView) -> RequestEventView {
    RequestEventView {
        request_id: event.request_id,
        sequence: event.sequence,
        event_type: event.event_type,
        payload_inline: event.payload_inline,
    }
}

/// What an append of an event answers.
pub open spec fn event_response(r: Result<EventView, ErrorView>) -> Result<
    RequestEventView,
    ErrorView,
> {
    match r {
        Err(error) => Err(error),
        Ok(event) => Ok(event_to_protocol(event)),
    }
}

/// Adding an event to the request that runs in a turn.
pub open spec fn event_turn_step<S: CloudStateStore>(
    pre: &S,
    turn_id: Seq<char>,
    event_type: Seq<char>,
    payload_inline: Seq<char>,
    post: &S,
    r: Result<RequestEventView, ErrorView>,
) -> bool {
    exists|found: Result<RequestView, ErrorView>| #[trigger]
        pre.read_request_by_turn_id_reply(turn_id, found) && match found {
            Err(error) => post == pre && r == Err::<RequestEventView, ErrorView>(error),
            Ok(request) => exists|said: Result<EventView, ErrorView>| #[trigger]
                S::append_request_event_step(
                    pre,
                    EventAppendView { request_id: request.request_id, event_type, payload_inline },
                    post,
                    said,
                ) && r == event_response(said),
        }
}

/// A page of events as clients see it.
pub open spec fn page_to_protocol(page: EventsPageView) -> RequestEventsListResponseView {
    RequestEventsListResponseView {
        data: Seq::new(page.data.len(), |i: int| event_to_protocol(page.data[i])),
        next_cursor: page.next_cursor,
    }
}

/// What a list of events answers.
pub open spec fn page_response(r: Result<EventsPageView, ErrorView>) -> Result<
    RequestEventsListResponseView,
    ErrorView,
> {
    match r {
        Err(error) => Err(error),
        Ok(page) => Ok(page_to_protocol(page)),
    }
}

/// Listing the events of a caller's request.
pub open spec fn events_reply<S: CloudStateStore>(
    store: &S,
    caller_id: Seq<char>,
    id: Seq<char>,
    cursor: Option<u64>,
    limit: nat,
    r: Result<RequestEventsListResponseView, ErrorView>,
) -> bool {
    exists|found: Result<RequestView, ErrorView>| #[trigger]
        store.read_request_reply(id, found) && match scoped(found, caller_id) {
            Err(error) => r == Err::<RequestEventsListResponseView, ErrorView>(error),
            Ok(_) => exists|listed: Result<EventsPageView, ErrorView>| #[trigger]
                store.list_request_events_reply(id, cursor, limit, listed) && r == page_response(
                    listed,
                ),
        }
}

/// Keeping the configuration and the metadata of a caller's request.
pub open spec fn persist_step<S: CloudStateStore>(
    pre: &S,
    caller_id: Seq<char>,
    config: ConfigSnapshotView,
    metadata: StateMetadataView,
    post: &S,
    r: Result<(), ErrorView>,
) -> bool {
    exists|found: Result<RequestView, ErrorView>| #[trigger]
        pre.read_request_reply(config.request_id, found) && match scoped(found, caller_id) {
            Err(error) => post == pre && r == Err::<(), ErrorView>(error),
            Ok(request) => if request.thread_id != config.thread_id || request.thread_id
                != metadata.thread_id {
                post == pre && r == Err::<(), ErrorView>(ErrorView::ThreadMismatch)
            } else {
                exists|mid: &S, kept: Result<(), ErrorView>| #[trigger]
                    S::persist_config_snapshot_step(pre, config, mid, kept) && match kept {
                        Err(error) => post == mid && r == Err::<(), ErrorView>(error),
                        Ok(_) => S::upsert_state_metadata_step(mid, metadata, post, r),
                    }
            },
        }
}

/// How many entries a list gives: at least one, at most a hundred, which is also the default.
pub open spec fn list_limit(limit: Option<u32>) -> nat {
    match limit {
        None => 100,
        Some(limit) => if limit < 1 {
            1
        } else if limit > 100 {
            100
        } else {
            limit as nat
        },
    }
}

/// The thread on which a request runs: the one that is named, or a new one.
pub open spec fn thread_for(made: nat, thread_id: Option<Seq<char>>) -> (nat, Seq<char>) {
    match thread_id {
        Some(thread_id) => (made, thread_id),
        None => (made + 1, "thread-"@ + crate::text::decimal(made + 1)),
    }
}

} // verus!
