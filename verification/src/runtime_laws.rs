//! What the messages of clients come to, in terms of what they say.
use vstd::prelude::*;

use crate::answer_laws::shows_event;
use crate::model::StoreModel;
use crate::protocol::append::{ThreadItemView, ThreadItemsListResponseView};
use crate::protocol::event::{RequestEventView, RequestEventsListResponseView};
use crate::protocol::request::{
    RequestCancelResponseView, RequestReadResponseView, RequestRunResponseView,
    RequestTerminalResponseView,
};
use crate::protocol::{
    AppendThreadItemsWithLeaseParams, AppendThreadItemsWithLeaseResponse, RequestCancelParams,
    RequestEventsListParams, RequestReadParams, RequestRunParams, RequestStatus, TerminalSignal,
    ThreadItemsListParams,
};
use crate::records::{
    ConfigSnapshotView, CreateRequestView, ErrorView, EventsPageView, LeaseAppendView, RequestView,
    StateMetadataView,
};
use crate::request_store::CloudStateStore;
use crate::service_runtime::{appended, asked, CloudRequestServiceRuntime};
use crate::service_steps::terminal_step;

verus! {

/// Reading a request in memory answers its caller with its fields as they are recorded under
/// the identifier in the message; to others, it is not there.
pub proof fn read_message<M: CloudStateStore>(
    before: CloudRequestServiceRuntime<M>,
    caller_id: Seq<char>,
    params: RequestReadParams,
    r: Result<RequestReadResponseView, ErrorView>,
)
    requires
        CloudRequestServiceRuntime::read_shows(before, caller_id, params, r),
    ensures
        before matches CloudRequestServiceRuntime::InMemory(service) ==> {
            let requests = service.store()@.requests;
            let id = params.request_id@;
            if requests.dom().contains(id) && requests[id].caller_id == caller_id {
                &&& r matches Ok(answer)
                &&& answer.request.request_id == requests[id].request_id
                &&& answer.request.thread_id == requests[id].thread_id
                &&& answer.request.turn_id == requests[id].turn_id
                &&& answer.request.status == requests[id].status
                &&& answer.request.latest_event_cursor == requests[id].latest_event_cursor
                &&& answer.latest_event_cursor == requests[id].latest_event_cursor
            } else {
                r == Err::<RequestReadResponseView, ErrorView>(ErrorView::RequestNotFound)
            }
        },
        before matches CloudRequestServiceRuntime::Mysql(service) ==> exists|
            found: Result<RequestView, ErrorView>,
        | #[trigger]
            service.store().read_request_reply(params.request_id@, found) && match found {
                Err(error) => r == Err::<RequestReadResponseView, ErrorView>(error),
                Ok(request) => if request.caller_id != caller_id {
                    r == Err::<RequestReadResponseView, ErrorView>(ErrorView::RequestNotFound)
                } else {
                    &&& r matches Ok(answer)
                    &&& answer.request.request_id == request.request_id
                    &&& answer.request.thread_id == request.thread_id
                    &&& answer.request.turn_id == request.turn_id
                    &&& answer.request.status == request.status
                    &&& answer.request.latest_event_cursor == request.latest_event_cursor
                    &&& answer.latest_event_cursor == request.latest_event_cursor
                },
            },
{
    match before {
        CloudRequestServiceRuntime::InMemory(service) => {},
        CloudRequestServiceRuntime::Mysql(service) => {
            crate::answer_laws::read_shows_the_record(
                &service.store(),
                caller_id,
                params.request_id@,
                r,
            );
        },
    }
}

/// No request of the caller on the thread was made under the key.
pub open spec fn key_is_unused(
    state: StoreModel,
    caller_id: Seq<char>,
    thread_id: Seq<char>,
    key: Seq<char>,
) -> bool {
    forall|id: Seq<char>| #[trigger]
        state.requests.dom().contains(id) ==> state.requests[id].caller_id != caller_id
            || state.requests[id].thread_id != thread_id || state.requests[id].idempotency_key
            != key
}

/// Running a request asks for what the message says: on the thread that it names, or on a new
/// one, under its key, with its input, for the caller. In memory, a new one is answered as it
/// is then recorded.
pub proof fn run_message<M: CloudStateStore>(
    before: CloudRequestServiceRuntime<M>,
    caller_id: Seq<char>,
    params: RequestRunParams,
    after: CloudRequestServiceRuntime<M>,
    r: Result<RequestRunResponseView, ErrorView>,
)
    requires
        before.valid(),
        CloudRequestServiceRuntime::run_comes_to(before, caller_id, params, after, r),
    ensures
        (before, after) matches (
            CloudRequestServiceRuntime::InMemory(first),
            CloudRequestServiceRuntime::InMemory(second),
        ) ==> {
            let state = first.store()@;
            let later = second.store()@;
            let thread_id = if params.thread_id is Some {
                params.thread_id->0@
            } else {
                "thread-"@ + crate::text::decimal(first.threads_made() + 1)
            };
            let free = !state.leases.dom().contains(thread_id);
            state.can_run() && key_is_unused(state, caller_id, thread_id, params.idempotency_key@)
                ==> {
                &&& r matches Ok(answer)
                &&& answer.thread_id == thread_id
                &&& answer.request.thread_id == thread_id
                &&& answer.request.turn_id is None
                &&& answer.request.status == if free {
                    RequestStatus::Running
                } else {
                    RequestStatus::Queued
                }
                &&& later.requests.dom().contains(answer.request.request_id)
                &&& !state.requests.dom().contains(answer.request.request_id)
                &&& later.requests[answer.request.request_id].caller_id == caller_id
                &&& later.requests[answer.request.request_id].thread_id == thread_id
                &&& later.requests[answer.request.request_id].idempotency_key
                    == params.idempotency_key@
                &&& later.requests[answer.request.request_id].input_hash == params.input@
                &&& answer.writer_lease is Some <==> free
                &&& answer.writer_lease matches Some(lease) ==> lease.writer_owner_token
                    == caller_id
            }
        },
        (before, after) matches (
            CloudRequestServiceRuntime::Mysql(first),
            CloudRequestServiceRuntime::Mysql(second),
        ) ==> exists|request: CreateRequestView, mid: &M, created: Result<RequestView, ErrorView>|
            #[trigger]
            M::create_request_step(&first.store(), request, mid, created) && request.caller_id
                == caller_id && request.idempotency_key == params.idempotency_key@
                && request.input_hash == params.input@ && (params.thread_id matches Some(thread_id)
                ==> request.thread_id == thread_id@) && (params.thread_id is None
                ==> request.thread_id == "thread-"@ + crate::text::decimal(
                first.threads_made() + 1,
            )) && (created matches Err(error) ==> r == Err::<RequestRunResponseView, ErrorView>(
                error,
            )),
{
    match (before, after) {
        (
            CloudRequestServiceRuntime::InMemory(first),
            CloudRequestServiceRuntime::InMemory(second),
        ) => {
            let state = first.store()@;
            let request = asked(first.threads_made(), caller_id, params);
            first.store().model_wf();
            if state.can_run() && key_is_unused(
                state,
                caller_id,
                request.thread_id,
                request.idempotency_key,
            ) {
                state.run_answers_with_the_new_request(request);
                state.new_request_is_as_asked(request);
                state.next_request_id_is_new();
            }
        },
        (CloudRequestServiceRuntime::Mysql(first), CloudRequestServiceRuntime::Mysql(second)) => {
            let request = asked(first.threads_made(), caller_id, params);
            let (mid, created) = choose|mid: &M, created: Result<RequestView, ErrorView>| #[trigger]
                M::create_request_step(&first.store(), request, mid, created) && match created {
                    Err(error) => second.store() == mid && r == Err::<
                        RequestRunResponseView,
                        ErrorView,
                    >(error),
                    Ok(found) => crate::service_steps::run_announce(
                        mid,
                        request.caller_id,
                        found,
                        request.thread_id,
                        &second.store(),
                        r,
                    ),
                };
            assert(M::create_request_step(&first.store(), request, mid, created));
        },
        _ => {},
    }
}

/// Listing events shows those after the cursor in the message, as many as it asks for. In
/// memory they are the events of the caller's request that follow the cursor, in order.
pub proof fn events_message<M: CloudStateStore>(
    before: CloudRequestServiceRuntime<M>,
    caller_id: Seq<char>,
    params: RequestEventsListParams,
    r: Result<RequestEventsListResponseView, ErrorView>,
)
    requires
        before.valid(),
        CloudRequestServiceRuntime::events_list_shows(before, caller_id, params, r),
    ensures
        before matches CloudRequestServiceRuntime::InMemory(service) ==> {
            let state = service.store()@;
            let id = params.request_id@;
            let events = state.events_of(id);
            let own = state.requests.dom().contains(id) && state.requests[id].caller_id
                == caller_id;
            let start = match params.cursor {
                Some(cursor) => cursor as int,
                None => 0,
            };
            let left = events.len() - start;
            &&& !own ==> r == Err::<RequestEventsListResponseView, ErrorView>(
                ErrorView::RequestNotFound,
            )
            &&& own ==> r is Ok
            &&& own ==> (params.limit matches Some(n) ==> (1 <= n <= 100 && left > n
                ==> r->Ok_0.data.len() == n && r->Ok_0.next_cursor == Some((start + n) as u64)))
            &&& own ==> (params.limit matches Some(n) ==> (1 <= n <= 100 && 0 <= left <= n
                ==> r->Ok_0.data.len() == left && r->Ok_0.next_cursor is None))
            &&& own && left < 0 ==> r->Ok_0.data.len() == 0 && r->Ok_0.next_cursor is None
            &&& own ==> forall|i: int|
                0 <= i < r->Ok_0.data.len() ==> (#[trigger] r->Ok_0.data[i]).sequence == start + i
                    + 1 && shows_event(r->Ok_0.data[i], events[start + i])
        },
        before matches CloudRequestServiceRuntime::Mysql(service) ==> (r is Ok ==> exists|
            count: nat,
            page: EventsPageView,
        | #[trigger]
            service.store().list_request_events_reply(
                params.request_id@,
                params.cursor,
                count,
                Ok::<EventsPageView, ErrorView>(page),
            ) && (params.limit matches Some(n) ==> (1 <= n <= 100 ==> count == n) && (n == 0
                ==> count == 1) && (n > 100 ==> count == 100)) && (params.limit is None ==> count
                == 100) && r->Ok_0.next_cursor == page.next_cursor && r->Ok_0.data.len()
                == page.data.len() && forall|i: int|
                0 <= i < page.data.len() ==> shows_event(
                    #[trigger] r->Ok_0.data[i],
                    page.data[i],
                )),
{
    match before {
        CloudRequestServiceRuntime::InMemory(service) => {
            let state = service.store()@;
            let id = params.request_id@;
            service.store().model_wf();
            assert(crate::invariants::events_numbered(id, state.events_of(id)));
            state.events_after_are_the_rest(id, params.cursor);
            let rest = state.events_after(id, params.cursor);
            assert forall|i: int| 0 <= i < rest.len() implies #[trigger] rest[i]
                == state.events_of(id)[StoreModel::start(params.cursor) + i] by {}
        },
        CloudRequestServiceRuntime::Mysql(service) => {
            if r is Ok {
                crate::answer_laws::events_are_shown_as_recorded(
                    &service.store(),
                    caller_id,
                    params.request_id@,
                    params.cursor,
                    params.limit,
                    r,
                );
            }
        },
    }
}

/// Listing items shows those after the cursor in the message, as many as it asks for, to a
/// caller that has access to the thread. In memory they are the items of the thread that
/// follow the cursor, in order.
pub proof fn items_message<M: CloudStateStore>(
    before: CloudRequestServiceRuntime<M>,
    caller_id: Seq<char>,
    params: ThreadItemsListParams,
    r: Result<ThreadItemsListResponseView, ErrorView>,
)
    requires
        before.valid(),
        CloudRequestServiceRuntime::thread_items_list_shows(before, caller_id, params, r),
    ensures
        before matches CloudRequestServiceRuntime::InMemory(service) ==> {
            let state = service.store()@;
            let thread_id = params.thread_id@;
            let items = state.items_of(thread_id);
            let start = match params.cursor {
                Some(cursor) => cursor as int,
                None => 0,
            };
            let left = items.len() - start;
            &&& (exists|id: Seq<char>| #[trigger]
                state.requests.dom().contains(id) && state.requests[id].caller_id == caller_id
                    && state.requests[id].thread_id == thread_id) ==> r is Ok
            &&& r is Err ==> r == Err::<ThreadItemsListResponseView, ErrorView>(
                ErrorView::RequestNotFound,
            )
            &&& r is Ok ==> (params.limit matches Some(n) ==> (1 <= n <= 100 && left > n
                ==> r->Ok_0.data.len() == n && r->Ok_0.next_cursor == Some((start + n) as u64)))
            &&& r is Ok ==> (params.limit matches Some(n) ==> (1 <= n <= 100 && 0 <= left <= n
                ==> r->Ok_0.data.len() == left && r->Ok_0.next_cursor is None))
            &&& r is Ok && left < 0 ==> r->Ok_0.data.len() == 0 && r->Ok_0.next_cursor is None
            &&& r is Ok ==> forall|i: int|
                0 <= i < r->Ok_0.data.len() ==> (#[trigger] r->Ok_0.data[i]).sequence == start + i
                    + 1 && r->Ok_0.data[i].payload_ref == items[start + i].payload_ref
                    && r->Ok_0.data[i].thread_id == thread_id
        },
        before matches CloudRequestServiceRuntime::Mysql(service) ==> (r matches Ok(answer)
            ==> exists|count: nat| #[trigger]
            service.store().list_thread_items_reply(
                params.thread_id@,
                params.cursor,
                count,
                Ok::<(Seq<ThreadItemView>, Option<u64>), ErrorView>(
                    (answer.data, answer.next_cursor),
                ),
            ) && (params.limit matches Some(n) ==> (1 <= n <= 100 ==> count == n) && (n == 0
                ==> count == 1) && (n > 100 ==> count == 100)) && (params.limit is None ==> count
                == 100)),
{
    match before {
        CloudRequestServiceRuntime::InMemory(service) => {
            let state = service.store()@;
            let thread_id = params.thread_id@;
            service.store().model_wf();
            assert(crate::invariants::items_numbered(thread_id, state.items_of(thread_id)));
            state.items_after_are_the_rest(thread_id, params.cursor);
            state.access_is_by_a_request(caller_id, thread_id);
            let rest = state.items_after(thread_id, params.cursor);
            assert forall|i: int| 0 <= i < rest.len() implies #[trigger] rest[i] == state.items_of(
                thread_id,
            )[StoreModel::start(params.cursor) + i] by {}
        },
        CloudRequestServiceRuntime::Mysql(service) => {
            crate::answer_laws::items_are_shown_as_recorded(
                &service.store(),
                caller_id,
                params.thread_id@,
                params.cursor,
                params.limit,
                r,
            );
        },
    }
}

/// Appending asks for what the message says, for a request of the caller on the thread that
/// the message names. In memory, an append that is accepted adds a reference for each item of
/// the message to the end of that thread.
pub proof fn append_message<M: CloudStateStore>(
    before: CloudRequestServiceRuntime<M>,
    caller_id: Seq<char>,
    params: AppendThreadItemsWithLeaseParams,
    after: CloudRequestServiceRuntime<M>,
    r: Result<AppendThreadItemsWithLeaseResponse, ErrorView>,
)
    requires
        before.valid(),
        CloudRequestServiceRuntime::append_thread_items_with_lease_comes_to(
            before,
            caller_id,
            params,
            after,
            r,
        ),
    ensures
        (before, after) matches (
            CloudRequestServiceRuntime::InMemory(first),
            CloudRequestServiceRuntime::InMemory(second),
        ) ==> {
            let state = first.store()@;
            let id = params.request_id@;
            let thread_id = params.thread_id@;
            let old_items = state.items_of(thread_id);
            let new_items = second.store()@.items_of(thread_id);
            let lease = state.leases[thread_id];
            &&& r is Ok ==> {
                &&& state.requests.dom().contains(id)
                &&& state.requests[id].caller_id == caller_id
                &&& state.requests[id].thread_id == thread_id
                &&& lease.request_id == id
                &&& lease.lease_id == params.lease_id@
                &&& lease.owner_instance_id == params.writer_owner_token@
                &&& lease.fencing_token == params.fencing_token
                &&& params.items@.len() > 0
            }
            &&& r matches Ok(made) ==> (!made.deduplicated && old_items.len()
                + params.items@.len() <= u64::MAX ==> {
                &&& new_items.len() == old_items.len() + params.items@.len()
                &&& made.thread_version == new_items.len()
                &&& made.first_append_sequence == old_items.len() + 1
                &&& made.last_append_sequence == new_items.len()
                &&& params.expected_thread_version matches Some(v) ==> v == old_items.len()
                &&& forall|i: int|
                    0 <= i < params.items@.len() ==> (#[trigger] new_items[old_items.len()
                        + i]).payload_ref == params.items@[i].payload_ref@
            })
            &&& r matches Ok(made) ==> (made.deduplicated ==> second.store()@ == state)
        },
        (before, after) matches (
            CloudRequestServiceRuntime::Mysql(first),
            CloudRequestServiceRuntime::Mysql(second),
        ) ==> (r is Ok ==> exists|handed: LeaseAppendView| #[trigger]
            M::append_thread_items_with_lease_step(&first.store(), handed, &second.store(), r)
                && handed.request_id == params.request_id@ && handed.lease_id == params.lease_id@
                && handed.writer_owner_token == params.writer_owner_token@ && handed.fencing_token
                == params.fencing_token && handed.append_idempotency_key
                == params.append_idempotency_key@ && handed.expected_thread_version
                == params.expected_thread_version && handed.payload_refs.len()
                == params.items@.len() && forall|i: int|
                0 <= i < params.items@.len() ==> #[trigger] handed.payload_refs[i]
                    == params.items@[i].payload_ref@),
{
    let handed = appended(params);
    match (before, after) {
        (
            CloudRequestServiceRuntime::InMemory(first),
            CloudRequestServiceRuntime::InMemory(second),
        ) => {
            let state = first.store()@;
            first.store().model_wf();
            if r is Ok {
                assert(state.lease_matches(handed));
                if !r->Ok_0.deduplicated && state.items_of(params.thread_id@).len()
                    + params.items@.len() <= u64::MAX {
                    assert(!state.appends.dom().contains(
                        (params.thread_id@, handed.append_idempotency_key),
                    ));
                    state.append_goes_to_the_end(handed);
                }
            }
        },
        (CloudRequestServiceRuntime::Mysql(first), CloudRequestServiceRuntime::Mysql(second)) => {
            if r is Ok {
                assert(M::append_thread_items_with_lease_step(
                    &first.store(),
                    handed,
                    &second.store(),
                    r,
                ));
            }
        },
        _ => {},
    }
}

/// A turn that is noted for a caller's request in memory is what reading it answers from then
/// on, whatever its status.
pub proof fn turn_message<M: CloudStateStore>(
    before: CloudRequestServiceRuntime<M>,
    caller_id: Seq<char>,
    request_id: Seq<char>,
    turn_id: Seq<char>,
    after: CloudRequestServiceRuntime<M>,
    noted: Result<RequestView, ErrorView>,
    params: RequestReadParams,
    r: Result<RequestReadResponseView, ErrorView>,
)
    requires
        before is InMemory,
        CloudRequestServiceRuntime::set_turn_id_comes_to(
            before,
            caller_id,
            request_id,
            turn_id,
            after,
            noted,
        ),
        noted is Ok,
        params.request_id@ == request_id,
        CloudRequestServiceRuntime::read_shows(after, caller_id, params, r),
    ensures
        noted->Ok_0.turn_id == Some(turn_id),
        r matches Ok(answer) && answer.request.turn_id == Some(turn_id) && answer.request.status
            == noted->Ok_0.status,
{
}

/// A signal in memory ends the caller's request as it says, whoever asks; the end is named by
/// the last event that is then listed.
pub proof fn signal_message<M: CloudStateStore>(
    before: CloudRequestServiceRuntime<M>,
    caller_id: Seq<char>,
    request_id: Seq<char>,
    signal: TerminalSignal,
    payload_inline: Option<Seq<char>>,
    after: CloudRequestServiceRuntime<M>,
    r: Result<RequestTerminalResponseView, ErrorView>,
)
    requires
        before.valid(),
        CloudRequestServiceRuntime::terminal_signal_comes_to(
            before,
            caller_id,
            request_id,
            signal,
            payload_inline,
            after,
            r,
        ),
    ensures
        (before, after) matches (
            CloudRequestServiceRuntime::InMemory(first),
            CloudRequestServiceRuntime::InMemory(second),
        ) ==> {
            let state = first.store()@;
            let later = second.store()@;
            let status = state.requests[request_id].status;
            let active = status == RequestStatus::Queued || status == RequestStatus::Running
                || status == RequestStatus::Cancelling;
            let last = later.events_of(request_id).last();
            let valid = payload_inline matches Some(payload) ==> crate::json::json_valid(payload);
            &&& !state.requests.dom().contains(request_id) || state.requests[request_id].caller_id
                != caller_id ==> later == state && r == Err::<
                RequestTerminalResponseView,
                ErrorView,
            >(ErrorView::RequestNotFound)
            &&& state.requests.dom().contains(request_id) && state.requests[request_id].caller_id
                == caller_id && !active ==> later == state && r is Ok
                && r->Ok_0.request.status == status
            &&& state.requests.dom().contains(request_id) && state.requests[request_id].caller_id
                == caller_id && active && valid && state.events_of(request_id).len() < u64::MAX
                ==> {
                &&& r matches Ok(answer)
                &&& answer.request.status == later.requests[request_id].status
                &&& signal == TerminalSignal::Completed ==> answer.request.status
                    == RequestStatus::Completed && last.event_type == "request/completed"@
                &&& signal == TerminalSignal::Failed ==> answer.request.status
                    == RequestStatus::Failed && last.event_type == "request/failed"@
                &&& signal == TerminalSignal::Interrupted ==> answer.request.status
                    == RequestStatus::Interrupted && last.event_type == "request/interrupted"@
                &&& signal == TerminalSignal::CancelConfirmed ==> answer.request.status
                    == RequestStatus::Cancelled && last.event_type == "request/cancelled"@
                &&& signal == TerminalSignal::OwnerLeaseTimedOut ==> answer.request.status
                    == RequestStatus::OwnerTimedOut && last.event_type
                    == "request/owner_timed_out"@
                &&& signal == TerminalSignal::TurnTimedOut ==> answer.request.status
                    == RequestStatus::TurnTimedOut && last.event_type
                    == "request/turn_timed_out"@
                &&& signal == TerminalSignal::WriterLeaseLost || signal
                    == TerminalSignal::RuntimeWriteDenied ==> answer.request.status
                    == RequestStatus::LeaseLost && last.event_type == "request/lease_lost"@
                &&& payload_inline matches Some(payload) ==> last.payload_inline == payload
                &&& payload_inline is None ==> last.payload_inline == "{}"@
            }
        },
        (before, after) matches (
            CloudRequestServiceRuntime::Mysql(first),
            CloudRequestServiceRuntime::Mysql(second),
        ) ==> terminal_step(
            &first.store(),
            caller_id,
            request_id,
            signal,
            payload_inline,
            &second.store(),
            r,
        ),
{
    match (before, after) {
        (
            CloudRequestServiceRuntime::InMemory(first),
            CloudRequestServiceRuntime::InMemory(second),
        ) => {
            let state = first.store()@;
            first.store().model_wf();
            if state.requests.dom().contains(request_id) && state.requests[request_id].caller_id
                == caller_id && !state.requests[request_id].status.terminal() && (
            payload_inline matches Some(payload) ==> crate::json::json_valid(payload))
                && state.events_of(request_id).len() < u64::MAX {
                state.signal_is_recorded_by_name(request_id, signal, payload_inline);
            }
        },
        _ => {},
    }
}

/// Cancelling in memory ends the caller's request as cancelled, unless it is over, and answers
/// with it; the last event says that it was cancelled.
pub proof fn cancel_message<M: CloudStateStore>(
    before: CloudRequestServiceRuntime<M>,
    caller_id: Seq<char>,
    params: RequestCancelParams,
    after: CloudRequestServiceRuntime<M>,
    r: Result<RequestCancelResponseView, ErrorView>,
)
    requires
        before.valid(),
        CloudRequestServiceRuntime::cancel_comes_to(before, caller_id, params, after, r),
    ensures
        (before, after) matches (
            CloudRequestServiceRuntime::InMemory(first),
            CloudRequestServiceRuntime::InMemory(second),
        ) ==> {
            let state = first.store()@;
            let later = second.store()@;
            let id = params.request_id@;
            let own = state.requests.dom().contains(id) && state.requests[id].caller_id
                == caller_id;
            let status = state.requests[id].status;
            let active = status == RequestStatus::Queued || status == RequestStatus::Running
                || status == RequestStatus::Cancelling;
            &&& !own ==> later == state && r == Err::<RequestCancelResponseView, ErrorView>(
                ErrorView::RequestNotFound,
            )
            &&& own && !active ==> later == state && r is Ok && r->Ok_0.request.status == status
            &&& own && active ==> {
                &&& r matches Ok(answer)
                &&& answer.request.request_id == state.requests[id].request_id
                &&& answer.request.status == RequestStatus::Cancelled
                &&& answer.request.turn_id == state.requests[id].turn_id
                &&& answer.request.thread_id == state.requests[id].thread_id
                &&& later.requests[id].status == RequestStatus::Cancelled
                &&& later.events_of(id).len() == state.events_of(id).len() + 1
                &&& later.events_of(id).last().event_type == "request/cancelled"@
                &&& params.reason is None ==> later.events_of(id).last().payload_inline == "{}"@
                &&& params.reason matches Some(reason) ==> later.events_of(id).last().payload_inline
                    == crate::json::reason_json(reason@)
                &&& !(later.leases.dom().contains(state.requests[id].thread_id)
                    && later.leases[state.requests[id].thread_id].request_id == id)
            }
        },
        (before, after) matches (
            CloudRequestServiceRuntime::Mysql(first),
            CloudRequestServiceRuntime::Mysql(second),
        ) ==> exists|payload: Seq<char>, ended: Result<RequestTerminalResponseView, ErrorView>|
            #[trigger]
            terminal_step(
                &first.store(),
                caller_id,
                params.request_id@,
                TerminalSignal::CancelConfirmed,
                Some(payload),
                &second.store(),
                ended,
            ) && (params.reason matches Some(reason) ==> crate::json::json_reason(payload) == Some(
                reason@,
            )) && (params.reason is None ==> payload == "{}"@) && match ended {
                Err(error) => r == Err::<RequestCancelResponseView, ErrorView>(error),
                Ok(answer) => r matches Ok(cancelled) && cancelled.request == answer.request,
            },
{
    match (before, after) {
        (
            CloudRequestServiceRuntime::InMemory(first),
            CloudRequestServiceRuntime::InMemory(second),
        ) => {
            first.store().model_wf();
        },
        (CloudRequestServiceRuntime::Mysql(first), CloudRequestServiceRuntime::Mysql(second)) => {
            crate::answer_laws::cancelling_is_a_signal(
                &first.store(),
                caller_id,
                params.request_id@,
                params.reason.deep_view(),
                &second.store(),
                r,
            );
        },
        _ => {},
    }
}

/// A signal for a turn ends a request in that turn as it would for the caller of that request;
/// without such a request, nothing changes.
pub proof fn turn_signal_message<M: CloudStateStore>(
    before: CloudRequestServiceRuntime<M>,
    turn_id: Seq<char>,
    signal: TerminalSignal,
    payload_inline: Option<Seq<char>>,
    after: CloudRequestServiceRuntime<M>,
    r: Result<RequestTerminalResponseView, ErrorView>,
)
    requires
        CloudRequestServiceRuntime::terminal_for_turn_id_comes_to(
            before,
            turn_id,
            signal,
            payload_inline,
            after,
            r,
        ),
    ensures
        (before, after) matches (
            CloudRequestServiceRuntime::InMemory(first),
            CloudRequestServiceRuntime::InMemory(second),
        ) ==> {
            let state = first.store()@;
            &&& (forall|id: Seq<char>| #[trigger]
                state.requests.dom().contains(id) ==> state.requests[id].turn_id != Some(turn_id))
                ==> second.store()@ == state && r == Err::<RequestTerminalResponseView, ErrorView>(
                ErrorView::RequestNotFound,
            )
            &&& r is Ok ==> exists|id: Seq<char>| #[trigger]
                state.requests.dom().contains(id) && state.requests[id].turn_id == Some(turn_id)
                    && CloudRequestServiceRuntime::terminal_signal_comes_to(
                    before,
                    state.requests[id].caller_id,
                    id,
                    signal,
                    payload_inline,
                    after,
                    r,
                )
        },
        (before, after) matches (
            CloudRequestServiceRuntime::Mysql(first),
            CloudRequestServiceRuntime::Mysql(second),
        ) ==> exists|found: Result<RequestView, ErrorView>| #[trigger]
            first.store().read_request_by_turn_id_reply(turn_id, found) && match found {
                Err(error) => second.store() == first.store() && r == Err::<
                    RequestTerminalResponseView,
                    ErrorView,
                >(error),
                Ok(request) => terminal_step(
                    &first.store(),
                    request.caller_id,
                    request.request_id,
                    signal,
                    payload_inline,
                    &second.store(),
                    r,
                ),
            },
{
    match (before, after) {
        (
            CloudRequestServiceRuntime::InMemory(first),
            CloudRequestServiceRuntime::InMemory(second),
        ) => {
            let state = first.store()@;
            if exists|id: Seq<char>| state.in_turn(id, turn_id) {
                let id = choose|id: Seq<char>| #[trigger]
                    state.in_turn(id, turn_id) && (second.store()@, r) == state.terminal_for(
                        state.requests[id].caller_id,
                        id,
                        signal,
                        payload_inline,
                    );
                assert(state.requests.dom().contains(id));
            }
        },
        (CloudRequestServiceRuntime::Mysql(first), CloudRequestServiceRuntime::Mysql(second)) => {
            crate::answer_laws::turn_signal_is_of_the_caller(
                &first.store(),
                turn_id,
                signal,
                payload_inline,
                &second.store(),
                r,
            );
        },
        _ => {},
    }
}

/// The context of a caller's request is kept as it is handed in: in memory it is read back from
/// then on, and a context of another thread is refused.
pub proof fn context_message<M: CloudStateStore>(
    before: CloudRequestServiceRuntime<M>,
    caller_id: Seq<char>,
    config: ConfigSnapshotView,
    metadata: StateMetadataView,
    after: CloudRequestServiceRuntime<M>,
    r: Result<(), ErrorView>,
)
    requires
        CloudRequestServiceRuntime::persist_request_context_comes_to(
            before,
            caller_id,
            config,
            metadata,
            after,
            r,
        ),
    ensures
        (before, after) matches (
            CloudRequestServiceRuntime::InMemory(first),
            CloudRequestServiceRuntime::InMemory(second),
        ) ==> {
            let state = first.store()@;
            let id = config.request_id;
            let own = state.requests.dom().contains(id) && state.requests[id].caller_id
                == caller_id;
            &&& !own ==> second.store()@ == state && r == Err::<(), ErrorView>(
                ErrorView::RequestNotFound,
            )
            &&& r is Ok ==> own && config.thread_id == state.requests[id].thread_id
                && metadata.thread_id == state.requests[id].thread_id
                && second.store()@.read_config_snapshot(id) == Ok::<ConfigSnapshotView, ErrorView>(
                config,
            ) && second.store()@.read_state_metadata(metadata.thread_id, metadata.kind) == Ok::<
                StateMetadataView,
                ErrorView,
            >(metadata)
            &&& own && config.thread_id == state.requests[id].thread_id && metadata.thread_id
                == state.requests[id].thread_id && crate::json::json_valid(config.config_json)
                && crate::json::json_valid(metadata.payload_json) ==> r is Ok
        },
        (before, after) matches (
            CloudRequestServiceRuntime::Mysql(first),
            CloudRequestServiceRuntime::Mysql(second),
        ) ==> (r is Ok ==> exists|mid: &M, kept: Result<(), ErrorView>| #[trigger]
            M::persist_config_snapshot_step(&first.store(), config, mid, kept) && kept is Ok
                && M::upsert_state_metadata_step(mid, metadata, &second.store(), r)),
{
    match (before, after) {
        (
            CloudRequestServiceRuntime::InMemory(first),
            CloudRequestServiceRuntime::InMemory(second),
        ) => {
            if first.store()@.requests.dom().contains(config.request_id)
                && first.store()@.requests[config.request_id].caller_id == caller_id {
                first.store()@.context_is_kept_together(caller_id, config, metadata);
            }
        },
        _ => {},
    }
}

/// An event for a turn in memory goes to the end of the events of a request in that turn, and
/// is answered as it is recorded; without such a request, nothing changes.
pub proof fn turn_event_message<M: CloudStateStore>(
    before: CloudRequestServiceRuntime<M>,
    turn_id: Seq<char>,
    event_type: Seq<char>,
    payload_inline: Seq<char>,
    after: CloudRequestServiceRuntime<M>,
    r: Result<RequestEventView, ErrorView>,
)
    requires
        before is InMemory,
        CloudRequestServiceRuntime::append_event_for_turn_id_comes_to(
            before,
            turn_id,
            event_type,
            payload_inline,
            after,
            r,
        ),
        r is Ok,
    ensures
        (before, after) matches (
            CloudRequestServiceRuntime::InMemory(first),
            CloudRequestServiceRuntime::InMemory(second),
        ) && exists|id: Seq<char>| #[trigger]
            first.store()@.requests.dom().contains(id) && first.store()@.requests[id].turn_id
                == Some(turn_id) && r->Ok_0.request_id == id && r->Ok_0.event_type == event_type
                && r->Ok_0.payload_inline == payload_inline && second.store()@.events_of(id).len()
                == first.store()@.events_of(id).len() + 1 && shows_event(
                r->Ok_0,
                second.store()@.events_of(id).last(),
            ),
{
    match (before, after) {
        (
            CloudRequestServiceRuntime::InMemory(first),
            CloudRequestServiceRuntime::InMemory(second),
        ) => {
            let state = first.store()@;
            let id = choose|id: Seq<char>| #[trigger]
                state.in_turn(id, turn_id) && {
                    let (later, said) = state.append_request_event(
                        crate::records::EventAppendView {
                            request_id: id,
                            event_type,
                            payload_inline,
                        },
                    );
                    second.store()@ == later && r == crate::service_steps::event_response(said)
                };
            assert(state.requests.dom().contains(id));
        },
        _ => {},
    }
}

} // verus!
