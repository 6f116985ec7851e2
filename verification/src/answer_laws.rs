//! What callers are answered, field by field, and what is handed to the store for them.
use vstd::prelude::*;

use crate::processor::{rpc_answer, rpc_error, RpcErrorView};
use crate::protocol::append::{ThreadItemView, ThreadItemsListResponseView};
use crate::protocol::event::{RequestEventView, RequestEventsListResponseView};
use crate::protocol::request::{
    RequestCancelResponseView, RequestReadResponseView, RequestRunResponseView,
    RequestTerminalResponseView, WriterLeaseView,
};
use crate::protocol::{
    AppendThreadItemsWithLeaseParams, AppendThreadItemsWithLeaseResponse, RequestRunParams,
    RequestStatus, TerminalSignal,
};
use crate::records::{
    ConfigSnapshotView, ErrorView, EventAppendView, EventView, EventsPageView, LeaseAppendView,
    RequestView, StateMetadataView, TerminalStatusUpdate,
};
use crate::request_store::CloudStateStore;
use crate::service_runtime::{appended, asked};
use crate::service_steps::{
    append_step, cancel_step, event_turn_step, events_reply, items_reply, list_limit, persist_step,
    queued_event, read_reply, run_answer, run_response, running_event, set_turn_step,
    terminal_answer, terminal_event, terminal_mark, terminal_step, terminal_turn_step, thread_for,
};

verus! {

/// Clients see the identifier, thread, turn, status and cursor of a request as they are
/// recorded, whatever its status.
pub proof fn requests_are_shown_as_recorded(request: RequestView)
    ensures
        ({
            let shown = request.to_protocol();
            &&& shown.request_id == request.request_id
            &&& shown.thread_id == request.thread_id
            &&& shown.turn_id == request.turn_id
            &&& shown.status == request.status
            &&& shown.latest_event_cursor == request.latest_event_cursor
        }),
{
}

/// Reading a request answers its caller with its fields as the store has them; to others, it
/// is not there.
pub proof fn read_shows_the_record<S: CloudStateStore>(
    store: &S,
    caller_id: Seq<char>,
    id: Seq<char>,
    r: Result<RequestReadResponseView, ErrorView>,
)
    requires
        read_reply(store, caller_id, id, r),
    ensures
        exists|found: Result<RequestView, ErrorView>| #[trigger]
            store.read_request_reply(id, found) && match found {
                Err(error) => r == Err::<RequestReadResponseView, ErrorView>(error),
                Ok(request) => if request.caller_id != caller_id {
                    r == Err::<RequestReadResponseView, ErrorView>(ErrorView::RequestNotFound)
                } else {
                    &&& r matches Ok(answer)
                    &&& answer.request.request_id == request.request_id
                    &&& answer.request.thread_id == request.thread_id
                    &&& answer.request.turn_id == request.turn_id
                    &&& answer.request.status == request.status
                    &&& answer.request.latest_event_cursor == request.latest_event_cursor
                    &&& answer.latest_event_cursor == request.latest_event_cursor
                },
            },
{
    let found = choose|found: Result<RequestView, ErrorView>| #[trigger]
        store.read_request_reply(id, found) && r == match crate::service_steps::scoped(
            found,
            caller_id,
        ) {
            Err(error) => Err(error),
            Ok(request) => Ok(
                RequestReadResponseView {
                    request: request.to_protocol(),
                    latest_event_cursor: request.latest_event_cursor,
                },
            ),
        };
    assert(store.read_request_reply(id, found));
}

/// The end of `run` answers with the fields of the request as the store has them, with the
/// thread that was asked for and, exactly while the request runs, with what the store says
/// of its lease.
pub proof fn run_shows_the_record<S: CloudStateStore>(
    store: &S,
    id: Seq<char>,
    thread_id: Seq<char>,
    post: &S,
    r: Result<RequestRunResponseView, ErrorView>,
)
    requires
        run_answer(store, id, thread_id, post, r),
    ensures
        post == store,
        exists|found: Result<RequestView, ErrorView>| #[trigger]
            store.read_request_reply(id, found) && match found {
                Err(error) => r == Err::<RequestRunResponseView, ErrorView>(error),
                Ok(request) => r matches Ok(answer) ==> {
                    &&& answer.request.request_id == request.request_id
                    &&& answer.request.thread_id == request.thread_id
                    &&& answer.request.turn_id == request.turn_id
                    &&& answer.request.status == request.status
                    &&& answer.request.latest_event_cursor == request.latest_event_cursor
                    &&& answer.event_cursor == request.latest_event_cursor
                    &&& answer.thread_id == thread_id
                    &&& request.status != RequestStatus::Running ==> answer.writer_lease is None
                    &&& request.status == RequestStatus::Running
                        ==> store.read_thread_writer_lease_reply(
                        request.request_id,
                        Ok::<Option<WriterLeaseView>, ErrorView>(answer.writer_lease),
                    )
                },
            },
{
    let found = choose|found: Result<RequestView, ErrorView>| #[trigger]
        store.read_request_reply(id, found) && match found {
            Err(error) => r == Err::<RequestRunResponseView, ErrorView>(error),
            Ok(request) => if request.status == RequestStatus::Running {
                exists|lease: Result<Option<WriterLeaseView>, ErrorView>| #[trigger]
                    store.read_thread_writer_lease_reply(request.request_id, lease) && r
                        == match lease {
                        Err(error) => Err(error),
                        Ok(lease) => Ok(run_response(request, thread_id, lease)),
                    }
            } else {
                r == Ok::<RequestRunResponseView, ErrorView>(run_response(request, thread_id, None))
            },
        };
    assert(store.read_request_reply(id, found));
    if let Ok(request) = found {
        if request.status == RequestStatus::Running && r is Ok {
            let lease = choose|lease: Result<Option<WriterLeaseView>, ErrorView>| #[trigger]
                store.read_thread_writer_lease_reply(request.request_id, lease) && r == match lease {
                    Err(error) => Err(error),
                    Ok(lease) => Ok(run_response(request, thread_id, lease)),
                };
            assert(lease == Ok::<Option<WriterLeaseView>, ErrorView>(r->Ok_0.writer_lease));
        }
    }
}

/// What `run` records is what was asked for: by the caller, on the thread that was named,
/// under the key, with the input. Without a name, each request gets a thread of its own, whose
/// name ends in the number of threads that were named.
pub proof fn run_records_what_was_asked(
    made: nat,
    caller_id: Seq<char>,
    params: RequestRunParams,
)
    ensures
        ({
            let recorded = asked(made, caller_id, params);
            &&& recorded.caller_id == caller_id
            &&& recorded.idempotency_key == params.idempotency_key@
            &&& recorded.input_hash == params.input@
            &&& params.thread_id matches Some(thread_id) ==> recorded.thread_id == thread_id@
            &&& params.thread_id is None ==> "thread-"@.is_prefix_of(recorded.thread_id)
        }),
        params.thread_id is Some ==> thread_for(made, params.thread_id.deep_view()).0 == made,
        params.thread_id is None ==> thread_for(made, params.thread_id.deep_view()).0 == made + 1,
{
}

/// Threads that are named one after the other have different names, each the number of
/// threads that were named with it.
pub proof fn new_threads_differ(a: nat, b: nat)
    requires
        a != b,
    ensures
        thread_for(a, None).1 != thread_for(b, None).1,
        thread_for(a, None).1 == "thread-"@ + crate::text::decimal(thread_for(a, None).0),
{
    if thread_for(a, None).1 == thread_for(b, None).1 {
        crate::text::prefixed_injective(
            "thread-"@,
            crate::text::decimal(a + 1),
            crate::text::decimal(b + 1),
        );
        crate::text::decimal_injective(a + 1, b + 1);
    }
}

/// What is appended for a caller is what was asked for: under the lease, owner, token and key
/// that the caller names, at the version that the caller expects, the references of the items
/// in their order.
pub proof fn append_hands_on_what_was_asked(params: AppendThreadItemsWithLeaseParams)
    ensures
        ({
            let handed = appended(params);
            &&& handed.request_id == params.request_id@
            &&& handed.lease_id == params.lease_id@
            &&& handed.writer_owner_token == params.writer_owner_token@
            &&& handed.fencing_token == params.fencing_token
            &&& handed.append_idempotency_key == params.append_idempotency_key@
            &&& handed.expected_thread_version == params.expected_thread_version
            &&& handed.payload_refs.len() == params.items@.len()
            &&& forall|i: int|
                0 <= i < params.items@.len() ==> #[trigger] handed.payload_refs[i]
                    == params.items@[i].payload_ref@
        }),
{
}

/// The number of entries that a list is asked for is the number that is handed on, from one to
/// a hundred; without a number, or above, it is a hundred, and one for none.
pub proof fn limit_is_what_was_asked(limit: Option<u32>, n: u32)
    ensures
        1 <= n <= 100 ==> list_limit(Some(n)) == n,
        n > 100 ==> list_limit(Some(n)) == 100,
        list_limit(Some(0)) == 1,
        list_limit(None) == 100,
        1 <= list_limit(limit) <= 100,
{
}

/// The two events with which a run begins say so, without a payload.
pub proof fn run_events(id: Seq<char>)
    ensures
        queued_event(id).request_id == id,
        queued_event(id).event_type == "request/queued"@,
        queued_event(id).payload_inline == "{}"@,
        running_event(id).request_id == id,
        running_event(id).event_type == "request/running"@,
        running_event(id).payload_inline == "{}"@,
{
}

/// The event that ends a request names its end, and holds the payload that came with the
/// signal, or else an empty object.
pub proof fn end_events_name_the_end(
    id: Seq<char>,
    signal: TerminalSignal,
    payload_inline: Option<Seq<char>>,
)
    ensures
        ({
            let event = terminal_event(id, signal, payload_inline);
            &&& event.request_id == id
            &&& payload_inline matches Some(payload) ==> event.payload_inline == payload
            &&& payload_inline is None ==> event.payload_inline == "{}"@
            &&& signal == TerminalSignal::Completed ==> event.event_type == "request/completed"@
            &&& signal == TerminalSignal::Failed ==> event.event_type == "request/failed"@
            &&& signal == TerminalSignal::Interrupted ==> event.event_type
                == "request/interrupted"@
            &&& signal == TerminalSignal::CancelConfirmed ==> event.event_type
                == "request/cancelled"@
            &&& signal == TerminalSignal::OwnerLeaseTimedOut ==> event.event_type
                == "request/owner_timed_out"@
            &&& signal == TerminalSignal::TurnTimedOut ==> event.event_type
                == "request/turn_timed_out"@
            &&& signal == TerminalSignal::WriterLeaseLost ==> event.event_type
                == "request/lease_lost"@
            &&& signal == TerminalSignal::RuntimeWriteDenied ==> event.event_type
                == "request/lease_lost"@
        }),
{
}

/// Requests that end differently have different events to say so.
pub proof fn different_ends_have_different_events(
    a: TerminalSignal,
    b: TerminalSignal,
    id: Seq<char>,
)
    requires
        terminal_event(id, a, None).event_type == terminal_event(id, b, None).event_type,
    ensures
        a.status() == b.status(),
        a != b ==> (a == TerminalSignal::WriterLeaseLost || a
            == TerminalSignal::RuntimeWriteDenied) && (b == TerminalSignal::WriterLeaseLost || b
            == TerminalSignal::RuntimeWriteDenied),
{
    reveal_strlit("request/completed");
    reveal_strlit("request/failed");
    reveal_strlit("request/interrupted");
    reveal_strlit("request/cancelled");
    reveal_strlit("request/owner_timed_out");
    reveal_strlit("request/turn_timed_out");
    reveal_strlit("request/lease_lost");
    assert("request/completed"@.len() == 17 && "request/cancelled"@.len() == 17);
    assert("request/failed"@.len() == 14 && "request/interrupted"@.len() == 19);
    assert("request/owner_timed_out"@.len() == 23 && "request/turn_timed_out"@.len() == 22);
    assert("request/lease_lost"@.len() == 18);
    assert("request/completed"@[9] != "request/cancelled"@[9]);
}

/// A terminal signal for a caller's own request that is not over asks the store to end it: at
/// the status of the signal and with the event of that status, both at once. The answer shows
/// the request as the store has it then. Otherwise the store is left alone.
pub proof fn signal_is_handed_to_the_store<S: CloudStateStore>(
    pre: &S,
    caller_id: Seq<char>,
    id: Seq<char>,
    signal: TerminalSignal,
    payload_inline: Option<Seq<char>>,
    post: &S,
    r: Result<RequestTerminalResponseView, ErrorView>,
)
    requires
        terminal_step(pre, caller_id, id, signal, payload_inline, post, r),
    ensures
        exists|found: Result<RequestView, ErrorView>| #[trigger]
            pre.read_request_reply(id, found) && match found {
                Err(error) => post == pre && r == Err::<RequestTerminalResponseView, ErrorView>(
                    error,
                ),
                Ok(request) => if request.caller_id != caller_id {
                    post == pre && r == Err::<RequestTerminalResponseView, ErrorView>(
                        ErrorView::RequestNotFound,
                    )
                } else if request.status != RequestStatus::Queued && request.status
                    != RequestStatus::Running && request.status != RequestStatus::Cancelling {
                    post == pre && answers_terminal(pre, caller_id, id, r)
                } else if payload_inline matches Some(payload) && !crate::json::json_valid(
                    payload,
                ) {
                    post == pre && r == Err::<RequestTerminalResponseView, ErrorView>(
                        ErrorView::InvalidEventPayload,
                    )
                } else {
                    exists|
                        event: EventAppendView,
                        status: RequestStatus,
                        mid: &S,
                        update: Result<TerminalStatusUpdate, ErrorView>,
                    | #[trigger]
                        S::mark_request_terminal_with_event_step(pre, event, status, mid, update)
                            && event.request_id == id && (payload_inline matches Some(payload)
                            ==> event.payload_inline == payload) && (payload_inline is None
                            ==> event.payload_inline == "{}"@) && (signal
                            == TerminalSignal::Completed ==> status == RequestStatus::Completed
                            && event.event_type == "request/completed"@) && (signal
                            == TerminalSignal::Failed ==> status == RequestStatus::Failed
                            && event.event_type == "request/failed"@) && (signal
                            == TerminalSignal::Interrupted ==> status == RequestStatus::Interrupted
                            && event.event_type == "request/interrupted"@) && (signal
                            == TerminalSignal::CancelConfirmed ==> status
                            == RequestStatus::Cancelled && event.event_type
                            == "request/cancelled"@) && (signal
                            == TerminalSignal::OwnerLeaseTimedOut ==> status
                            == RequestStatus::OwnerTimedOut && event.event_type
                            == "request/owner_timed_out"@) && (signal
                            == TerminalSignal::TurnTimedOut ==> status
                            == RequestStatus::TurnTimedOut && event.event_type
                            == "request/turn_timed_out"@) && (signal
                            == TerminalSignal::WriterLeaseLost || signal
                            == TerminalSignal::RuntimeWriteDenied ==> status
                            == RequestStatus::LeaseLost && event.event_type
                            == "request/lease_lost"@) && match update {
                            Err(error) => post == mid && r == Err::<
                                RequestTerminalResponseView,
                                ErrorView,
                            >(error),
                            Ok(_) => post == mid && answers_terminal(mid, caller_id, id, r),
                        }
                },
            },
{
    let found = choose|found: Result<RequestView, ErrorView>| #[trigger]
        pre.read_request_reply(id, found) && match crate::service_steps::scoped(found, caller_id) {
            Err(error) => post == pre && r == Err::<RequestTerminalResponseView, ErrorView>(error),
            Ok(current) => if current.status.terminal() {
                terminal_answer(pre, caller_id, id, post, r)
            } else if payload_inline is Some && !crate::json::json_valid(payload_inline->0) {
                &&& post == pre
                &&& r == Err::<RequestTerminalResponseView, ErrorView>(
                    ErrorView::InvalidEventPayload,
                )
                &&& !crate::json::own_payload(payload_inline->0)
            } else {
                terminal_mark(pre, caller_id, id, signal, payload_inline, post, r)
            },
        };
    assert(pre.read_request_reply(id, found));
    if let Ok(request) = found {
        if request.caller_id == caller_id {
            if request.status.terminal() {
                terminal_answer_is_shown(pre, caller_id, id, post, r);
            } else if terminal_mark(pre, caller_id, id, signal, payload_inline, post, r) {
                let event = terminal_event(id, signal, payload_inline);
                let (mid, update) = choose|
                    mid: &S,
                    update: Result<TerminalStatusUpdate, ErrorView>,
                | #[trigger]
                    S::mark_request_terminal_with_event_step(
                        pre,
                        event,
                        signal.status(),
                        mid,
                        update,
                    ) && match update {
                        Err(error) => post == mid && r == Err::<
                            RequestTerminalResponseView,
                            ErrorView,
                        >(error),
                        Ok(_) => terminal_answer(mid, caller_id, id, post, r),
                    };
                if update is Ok {
                    terminal_answer_is_shown(mid, caller_id, id, post, r);
                }
                assert(S::mark_request_terminal_with_event_step(
                    pre,
                    event,
                    signal.status(),
                    mid,
                    update,
                ));
            }
        }
    }
}

/// Whether the answer to a signal shows a caller's request as a store has it.
pub open spec fn answers_terminal<S: CloudStateStore>(
    store: &S,
    caller_id: Seq<char>,
    id: Seq<char>,
    r: Result<RequestTerminalResponseView, ErrorView>,
) -> bool {
    exists|found: Result<RequestView, ErrorView>| #[trigger]
        store.read_request_reply(id, found) && match found {
            Err(error) => r == Err::<RequestTerminalResponseView, ErrorView>(error),
            Ok(request) => if request.caller_id != caller_id {
                r == Err::<RequestTerminalResponseView, ErrorView>(ErrorView::RequestNotFound)
            } else {
                &&& r matches Ok(answer)
                &&& answer.request.request_id == request.request_id
                &&& answer.request.thread_id == request.thread_id
                &&& answer.request.turn_id == request.turn_id
                &&& answer.request.status == request.status
                &&& answer.request.latest_event_cursor == request.latest_event_cursor
                &&& answer.latest_event_cursor == request.latest_event_cursor
            },
        }
}

proof fn terminal_answer_is_shown<S: CloudStateStore>(
    store: &S,
    caller_id: Seq<char>,
    id: Seq<char>,
    post: &S,
    r: Result<RequestTerminalResponseView, ErrorView>,
)
    requires
        terminal_answer(store, caller_id, id, post, r),
    ensures
        post == store,
        answers_terminal(store, caller_id, id, r),
{
    let found = choose|found: Result<RequestView, ErrorView>| #[trigger]
        store.read_request_reply(id, found) && r == crate::service_steps::terminal_response(
            found,
            caller_id,
        );
    assert(store.read_request_reply(id, found));
}

/// Cancelling a request is the signal that confirms it, with the reason as its payload; the
/// answer shows the request that the signal is answered with.
pub proof fn cancelling_is_a_signal<S: CloudStateStore>(
    pre: &S,
    caller_id: Seq<char>,
    id: Seq<char>,
    reason: Option<Seq<char>>,
    post: &S,
    r: Result<RequestCancelResponseView, ErrorView>,
)
    requires
        cancel_step(pre, caller_id, id, reason, post, r),
    ensures
        exists|payload: Seq<char>, ended: Result<RequestTerminalResponseView, ErrorView>| #[trigger]
            terminal_step(
                pre,
                caller_id,
                id,
                TerminalSignal::CancelConfirmed,
                Some(payload),
                post,
                ended,
            ) && (reason matches Some(text) ==> crate::json::json_reason(payload) == Some(text)
                && crate::json::json_valid(payload)) && (reason is None ==> payload == "{}"@)
                && match ended {
                Err(error) => r == Err::<RequestCancelResponseView, ErrorView>(error),
                Ok(answer) => r matches Ok(cancelled) && cancelled.request.request_id
                    == answer.request.request_id && cancelled.request.thread_id
                    == answer.request.thread_id && cancelled.request.turn_id
                    == answer.request.turn_id && cancelled.request.status == answer.request.status
                    && cancelled.request.latest_event_cursor == answer.request.latest_event_cursor,
            },
{
    let payload = crate::service_steps::cancel_payload(reason);
    let ended = choose|ended: Result<RequestTerminalResponseView, ErrorView>| #[trigger]
        terminal_step(
            pre,
            caller_id,
            id,
            TerminalSignal::CancelConfirmed,
            Some(payload),
            post,
            ended,
        ) && r == crate::service_steps::cancel_response(ended);
    assert(terminal_step(
        pre,
        caller_id,
        id,
        TerminalSignal::CancelConfirmed,
        Some(payload),
        post,
        ended,
    ));
}

/// Whether an event is shown to clients as it is recorded.
pub open spec fn shows_event(shown: RequestEventView, event: EventView) -> bool {
    &&& shown.request_id == event.request_id
    &&& shown.sequence == event.sequence
    &&& shown.event_type == event.event_type
    &&& shown.payload_inline == event.payload_inline
}

/// Listing events asks the store for as many as the caller asked for, after the caller's
/// cursor, and shows each of those that come back, in their order, with the next cursor.
pub proof fn events_are_shown_as_recorded<S: CloudStateStore>(
    store: &S,
    caller_id: Seq<char>,
    id: Seq<char>,
    cursor: Option<u64>,
    limit: Option<u32>,
    r: Result<RequestEventsListResponseView, ErrorView>,
)
    requires
        events_reply(store, caller_id, id, cursor, list_limit(limit), r),
        r is Ok,
    ensures
        exists|request: RequestView| #[trigger]
            store.read_request_reply(id, Ok::<RequestView, ErrorView>(request))
                && request.caller_id == caller_id,
        exists|count: nat, page: EventsPageView| #[trigger]
            store.list_request_events_reply(
                id,
                cursor,
                count,
                Ok::<EventsPageView, ErrorView>(page),
            ) && (limit matches Some(n) ==> (1 <= n <= 100 ==> count == n) && (n == 0 ==> count
                == 1) && (n > 100 ==> count == 100)) && (limit is None ==> count == 100)
                && r->Ok_0.next_cursor == page.next_cursor && r->Ok_0.data.len()
                == page.data.len() && forall|i: int|
                0 <= i < page.data.len() ==> shows_event(
                    #[trigger] r->Ok_0.data[i],
                    page.data[i],
                ),
{
    let found = choose|found: Result<RequestView, ErrorView>| #[trigger]
        store.read_request_reply(id, found) && match crate::service_steps::scoped(
            found,
            caller_id,
        ) {
            Err(error) => r == Err::<RequestEventsListResponseView, ErrorView>(error),
            Ok(_) => exists|listed: Result<EventsPageView, ErrorView>| #[trigger]
                store.list_request_events_reply(id, cursor, list_limit(limit), listed) && r
                    == crate::service_steps::page_response(listed),
        };
    let request = found->Ok_0;
    assert(store.read_request_reply(id, Ok::<RequestView, ErrorView>(request)));
    let listed = choose|listed: Result<EventsPageView, ErrorView>| #[trigger]
        store.list_request_events_reply(id, cursor, list_limit(limit), listed) && r
            == crate::service_steps::page_response(listed);
    let page = listed->Ok_0;
    assert(store.list_request_events_reply(
        id,
        cursor,
        list_limit(limit),
        Ok::<EventsPageView, ErrorView>(page),
    ));
    assert forall|i: int| 0 <= i < page.data.len() implies shows_event(
        #[trigger] r->Ok_0.data[i],
        page.data[i],
    ) by {}
}

/// Listing items asks the store for as many as the caller asked for, after the caller's
/// cursor, and shows what comes back, if the caller has access to the thread.
pub proof fn items_are_shown_as_recorded<S: CloudStateStore>(
    store: &S,
    caller_id: Seq<char>,
    thread_id: Seq<char>,
    cursor: Option<u64>,
    limit: Option<u32>,
    r: Result<ThreadItemsListResponseView, ErrorView>,
)
    requires
        items_reply(store, caller_id, thread_id, cursor, list_limit(limit), r),
    ensures
        exists|access: Result<bool, ErrorView>| #[trigger]
            store.caller_can_access_thread_reply(caller_id, thread_id, access) && match access {
                Err(error) => r == Err::<ThreadItemsListResponseView, ErrorView>(error),
                Ok(allowed) => !allowed ==> r == Err::<ThreadItemsListResponseView, ErrorView>(
                    ErrorView::RequestNotFound,
                ),
            },
        r matches Ok(answer) ==> exists|count: nat| #[trigger]
            store.list_thread_items_reply(
                thread_id,
                cursor,
                count,
                Ok::<(Seq<ThreadItemView>, Option<u64>), ErrorView>(
                    (answer.data, answer.next_cursor),
                ),
            ) && (limit matches Some(n) ==> (1 <= n <= 100 ==> count == n) && (n == 0 ==> count
                == 1) && (n > 100 ==> count == 100)) && (limit is None ==> count == 100),
{
    let access = choose|access: Result<bool, ErrorView>| #[trigger]
        store.caller_can_access_thread_reply(caller_id, thread_id, access) && match access {
            Err(error) => r == Err::<ThreadItemsListResponseView, ErrorView>(error),
            Ok(false) => r == Err::<ThreadItemsListResponseView, ErrorView>(
                ErrorView::RequestNotFound,
            ),
            Ok(true) => exists|listed: Result<(Seq<ThreadItemView>, Option<u64>), ErrorView>|
                #[trigger]
                store.list_thread_items_reply(
                    thread_id,
                    cursor,
                    list_limit(limit),
                    listed,
                ) && r == match listed {
                    Err(error) => Err(error),
                    Ok((data, next_cursor)) => Ok(
                        ThreadItemsListResponseView { data, next_cursor },
                    ),
                },
        };
    assert(store.caller_can_access_thread_reply(caller_id, thread_id, access));
    if r is Ok {
        let listed = choose|listed: Result<(Seq<ThreadItemView>, Option<u64>), ErrorView>| #[trigger]
            store.list_thread_items_reply(thread_id, cursor, list_limit(limit), listed) && r
                == match listed {
                Err(error) => Err(error),
                Ok((data, next_cursor)) => Ok(ThreadItemsListResponseView { data, next_cursor }),
            };
        assert(listed == Ok::<(Seq<ThreadItemView>, Option<u64>), ErrorView>(
            (r->Ok_0.data, r->Ok_0.next_cursor),
        ));
    }
}

/// An event for a turn goes to the request that the store finds in the turn, as it was given,
/// and is shown as the store recorded it.
pub proof fn turn_event_is_handed_to_the_store<S: CloudStateStore>(
    pre: &S,
    turn_id: Seq<char>,
    event_type: Seq<char>,
    payload_inline: Seq<char>,
    post: &S,
    r: Result<RequestEventView, ErrorView>,
)
    requires
        event_turn_step(pre, turn_id, event_type, payload_inline, post, r),
    ensures
        exists|found: Result<RequestView, ErrorView>| #[trigger]
            pre.read_request_by_turn_id_reply(turn_id, found) && match found {
                Err(error) => post == pre && r == Err::<RequestEventView, ErrorView>(error),
                Ok(request) => exists|event: EventAppendView, said: Result<EventView, ErrorView>|
                    #[trigger]
                    S::append_request_event_step(pre, event, post, said) && event.request_id
                        == request.request_id && event.event_type == event_type
                        && event.payload_inline == payload_inline && match said {
                        Err(error) => r == Err::<RequestEventView, ErrorView>(error),
                        Ok(recorded) => r matches Ok(shown) && shows_event(shown, recorded),
                    },
            },
{
    let found = choose|found: Result<RequestView, ErrorView>| #[trigger]
        pre.read_request_by_turn_id_reply(turn_id, found) && match found {
            Err(error) => post == pre && r == Err::<RequestEventView, ErrorView>(error),
            Ok(request) => exists|said: Result<EventView, ErrorView>| #[trigger]
                S::append_request_event_step(
                    pre,
                    EventAppendView { request_id: request.request_id, event_type, payload_inline },
                    post,
                    said,
                ) && r == crate::service_steps::event_response(said),
        };
    assert(pre.read_request_by_turn_id_reply(turn_id, found));
    if let Ok(request) = found {
        let event = EventAppendView {
            request_id: request.request_id,
            event_type,
            payload_inline,
        };
        let said = choose|said: Result<EventView, ErrorView>| #[trigger]
            S::append_request_event_step(pre, event, post, said) && r
                == crate::service_steps::event_response(said);
        assert(S::append_request_event_step(pre, event, post, said));
    }
}

/// A signal for a turn is a signal of its caller for the request that the store finds in it.
pub proof fn turn_signal_is_of_the_caller<S: CloudStateStore>(
    pre: &S,
    turn_id: Seq<char>,
    signal: TerminalSignal,
    payload_inline: Option<Seq<char>>,
    post: &S,
    r: Result<RequestTerminalResponseView, ErrorView>,
)
    requires
        terminal_turn_step(pre, turn_id, signal, payload_inline, post, r),
    ensures
        exists|found: Result<RequestView, ErrorView>| #[trigger]
            pre.read_request_by_turn_id_reply(turn_id, found) && match found {
                Err(error) => post == pre && r == Err::<RequestTerminalResponseView, ErrorView>(
                    error,
                ),
                Ok(request) => terminal_step(
                    pre,
                    request.caller_id,
                    request.request_id,
                    signal,
                    payload_inline,
                    post,
                    r,
                ),
            },
{
}

/// An append, a turn or a context goes to the store only for a request that the store has for
/// the caller; an append or a context also only if it names the thread of the request.
pub proof fn only_the_caller_reaches_the_store<S: CloudStateStore>(
    pre: &S,
    caller_id: Seq<char>,
    thread_id: Seq<char>,
    params: LeaseAppendView,
    turn_id: Seq<char>,
    config: ConfigSnapshotView,
    metadata: StateMetadataView,
    post: &S,
)
    ensures
        forall|r: Result<AppendThreadItemsWithLeaseResponse, ErrorView>| #[trigger]
            append_step(pre, caller_id, thread_id, params, post, r) ==> {
                ||| post == pre && r is Err
                ||| S::append_thread_items_with_lease_step(pre, params, post, r) && exists|
                    request: RequestView,
                | #[trigger]
                    pre.read_request_reply(
                        params.request_id,
                        Ok::<RequestView, ErrorView>(request),
                    ) && request.caller_id == caller_id && request.thread_id == thread_id
            },
        forall|r: Result<RequestView, ErrorView>| #[trigger]
            set_turn_step(pre, caller_id, params.request_id, turn_id, post, r) ==> {
                ||| post == pre && r is Err
                ||| S::set_request_turn_id_step(pre, params.request_id, turn_id, post, r) && exists|
                    request: RequestView,
                | #[trigger]
                    pre.read_request_reply(
                        params.request_id,
                        Ok::<RequestView, ErrorView>(request),
                    ) && request.caller_id == caller_id
            },
        forall|r: Result<(), ErrorView>| #[trigger]
            persist_step(pre, caller_id, config, metadata, post, r) && r is Ok ==> {
                &&& exists|request: RequestView| #[trigger]
                    pre.read_request_reply(
                        config.request_id,
                        Ok::<RequestView, ErrorView>(request),
                    ) && request.caller_id == caller_id && request.thread_id == config.thread_id
                        && request.thread_id == metadata.thread_id
                &&& exists|mid: &S, kept: Result<(), ErrorView>|
                    #[trigger] S::persist_config_snapshot_step(pre, config, mid, kept) && kept is Ok
                        && S::upsert_state_metadata_step(mid, metadata, post, r)
            },
{
    assert forall|r: Result<AppendThreadItemsWithLeaseResponse, ErrorView>| #[trigger]
        append_step(pre, caller_id, thread_id, params, post, r) implies {
        ||| post == pre && r is Err
        ||| S::append_thread_items_with_lease_step(pre, params, post, r) && exists|
            request: RequestView,
        | #[trigger]
            pre.read_request_reply(params.request_id, Ok::<RequestView, ErrorView>(request))
                && request.caller_id == caller_id && request.thread_id == thread_id
    } by {
        let found = choose|found: Result<RequestView, ErrorView>| #[trigger]
            pre.read_request_reply(params.request_id, found) && match crate::service_steps::scoped(
                found,
                caller_id,
            ) {
                Err(error) => post == pre && r == Err::<
                    AppendThreadItemsWithLeaseResponse,
                    ErrorView,
                >(error),
                Ok(request) => if request.thread_id != thread_id {
                    post == pre && r == Err::<AppendThreadItemsWithLeaseResponse, ErrorView>(
                        ErrorView::ThreadMismatch,
                    )
                } else {
                    S::append_thread_items_with_lease_step(pre, params, post, r)
                },
            };
        if let Ok(request) = found {
            assert(pre.read_request_reply(
                params.request_id,
                Ok::<RequestView, ErrorView>(request),
            ));
        }
    }
    assert forall|r: Result<RequestView, ErrorView>| #[trigger]
        set_turn_step(pre, caller_id, params.request_id, turn_id, post, r) implies {
        ||| post == pre && r is Err
        ||| S::set_request_turn_id_step(pre, params.request_id, turn_id, post, r) && exists|
            request: RequestView,
        | #[trigger]
            pre.read_request_reply(params.request_id, Ok::<RequestView, ErrorView>(request))
                && request.caller_id == caller_id
    } by {
        let found = choose|found: Result<RequestView, ErrorView>| #[trigger]
            pre.read_request_reply(params.request_id, found) && match crate::service_steps::scoped(
                found,
                caller_id,
            ) {
                Err(error) => post == pre && r == Err::<RequestView, ErrorView>(error),
                Ok(_) => S::set_request_turn_id_step(pre, params.request_id, turn_id, post, r),
            };
        if let Ok(request) = found {
            assert(pre.read_request_reply(
                params.request_id,
                Ok::<RequestView, ErrorView>(request),
            ));
        }
    }
    assert forall|r: Result<(), ErrorView>| #[trigger]
        persist_step(pre, caller_id, config, metadata, post, r) && r is Ok implies {
        &&& exists|request: RequestView| #[trigger]
            pre.read_request_reply(config.request_id, Ok::<RequestView, ErrorView>(request))
                && request.caller_id == caller_id && request.thread_id == config.thread_id
                && request.thread_id == metadata.thread_id
        &&& exists|mid: &S, kept: Result<(), ErrorView>|
            #[trigger] S::persist_config_snapshot_step(pre, config, mid, kept) && kept is Ok
                && S::upsert_state_metadata_step(mid, metadata, post, r)
    } by {
        let found = choose|found: Result<RequestView, ErrorView>| #[trigger]
            pre.read_request_reply(config.request_id, found) && match crate::service_steps::scoped(
                found,
                caller_id,
            ) {
                Err(error) => post == pre && r == Err::<(), ErrorView>(error),
                Ok(request) => if request.thread_id != config.thread_id || request.thread_id
                    != metadata.thread_id {
                    post == pre && r == Err::<(), ErrorView>(ErrorView::ThreadMismatch)
                } else {
                    exists|mid: &S, kept: Result<(), ErrorView>| #[trigger]
                        S::persist_config_snapshot_step(pre, config, mid, kept) && match kept {
                            Err(error) => post == mid && r == Err::<(), ErrorView>(error),
                            Ok(_) => S::upsert_state_metadata_step(mid, metadata, post, r),
                        }
                },
            };
        assert(pre.read_request_reply(
            config.request_id,
            Ok::<RequestView, ErrorView>(found->Ok_0),
        ));
        let (mid, kept) = choose|mid: &S, kept: Result<(), ErrorView>| #[trigger]
            S::persist_config_snapshot_step(pre, config, mid, kept) && match kept {
                Err(error) => post == mid && r == Err::<(), ErrorView>(error),
                Ok(_) => S::upsert_state_metadata_step(mid, metadata, post, r),
            };
        assert(S::persist_config_snapshot_step(pre, config, mid, kept));
        assert(S::upsert_state_metadata_step(mid, metadata, post, r));
    }
}

/// What clients read of an error: a failure of the store is the server's, and is told in the
/// words of the store; every other error is told as one of their own.
pub proof fn errors_are_told_to_clients(error: ErrorView)
    ensures
        match rpc_error(error) {
            RpcErrorView::Internal(text) => error matches ErrorView::Storage(reason) && text
                == "cloud state storage error: "@ + reason,
            RpcErrorView::InvalidParams(text) => {
                &&& error !is Storage
                &&& error == ErrorView::IdempotencyConflict ==> text
                    == "idempotency key was reused with different input"@
                &&& error == ErrorView::RequestNotFound ==> text == "request was not found"@
                &&& error == ErrorView::LeaseLost ==> text == "request lost its writer lease"@
                &&& error == ErrorView::RequestNotQueued ==> text
                    == "request is not queued and cannot acquire a writer lease"@
                &&& error == ErrorView::InvalidEventPayload ==> text
                    == "request event payload must be valid JSON"@
                &&& error == ErrorView::ThreadMismatch ==> text
                    == "append thread_id does not match request thread_id"@
                &&& error == ErrorView::ThreadVersionConflict ==> text
                    == "expected thread version does not match current thread version"@
                &&& error == ErrorView::EmptyAppend ==> text
                    == "append must include at least one thread item"@
            },
        },
{
}

/// An answer of the service reaches its client as it is; an error is told.
pub proof fn answers_reach_clients<V>(answer: V, error: ErrorView)
    ensures
        rpc_answer(Ok::<V, ErrorView>(answer)) == Ok::<V, RpcErrorView>(answer),
        rpc_answer(Err::<V, ErrorView>(error)) == Err::<V, RpcErrorView>(rpc_error(error)),
{
}

} // verus!
