//! Laws of the request service over a database.
//!
//! A store is kept in tables if each of its operations comes to what the conversation of that
//! operation comes to on them. The laws hold of the service over any such store, for calls
//! that are made in a span of time; each call of the store reads the clock for itself. A span
//! may be a single moment.
//!
//! That a store is kept in tables is a premise of the laws. The store over a connection to a
//! MySQL server stands outside of this crate and says nothing of its relations, so no type
//! here is shown to meet the premise: it is what that store does as long as the server does
//! what [`Tables::execute`] says and no other writer comes between.
use vstd::prelude::*;

use crate::mysql::endings::mark_request_terminal_with_event_steps;
use crate::mysql::events::{
    append_request_event_if_latest_cursor_steps, append_request_event_steps,
};
use crate::mysql::leases::{
    acquire_thread_writer_lease_steps, clock_fits, held_lease, read_thread_writer_lease_steps,
    THREAD_WRITER_LEASE_TTL_MS,
};
use crate::mysql::requests::{
    caller_can_access_thread_steps, create_request_steps, read_request_steps,
};
use crate::mysql::statements::ReplyView;
use crate::mysql::tables::Tables;
use crate::protocol::append::ThreadItemsListResponseView;
use crate::protocol::event::RequestEventsListResponseView;
use crate::protocol::request::{
    RequestCancelResponseView, RequestReadResponseView, RequestRunResponseView,
    RequestTerminalResponseView, WriterLeaseView,
};
use crate::protocol::{AppendThreadItemsWithLeaseResponse, RequestStatus, TerminalSignal};
use crate::records::{
    ConfigSnapshotView, CreateRequestView, ErrorView, EventAppendView, EventView,
    LeaseAcquireView, LeaseAppendView, RequestView, StateMetadataView, TerminalStatusUpdate,
};
use crate::request_store::CloudStateStore;
use crate::service_steps::{
    append_step, cancel_payload, cancel_step, events_reply, items_reply, persist_step,
    queued_event, read_reply, run_acquire, run_announce, run_answer, run_response, run_started,
    run_step, run_take, running_event, set_turn_step, terminal_answer, terminal_event,
    terminal_event_type, terminal_mark, terminal_step,
};

verus! {

impl Tables {
    /// Recording a request under an identifier that is not in use comes to this.
    pub open spec fn creates(
        self,
        params: CreateRequestView,
        id: Seq<char>,
        now_ms: i64,
        after: Tables,
        r: Result<RequestView, ErrorView>,
    ) -> bool {
        &&& !self.requests.dom().contains(id)
        &&& self.carry_out(
            |h: Seq<ReplyView>| create_request_steps(params, id, now_ms, h),
            4,
        ) == Some((after, r))
    }

    /// Reading a request comes to this.
    pub open spec fn reads(self, id: Seq<char>, r: Result<RequestView, ErrorView>) -> bool {
        self.carry_out(|h: Seq<ReplyView>| read_request_steps(id, h), 1) == Some((self, r))
    }

    /// Finding out whether a caller has access to a thread comes to this.
    pub open spec fn gives_access(
        self,
        caller_id: Seq<char>,
        thread_id: Seq<char>,
        r: Result<bool, ErrorView>,
    ) -> bool {
        self.carry_out(
            |h: Seq<ReplyView>| caller_can_access_thread_steps(caller_id, thread_id, h),
            1,
        ) == Some((self, r))
    }

    /// Taking a lease under an identifier that is not in use comes to this.
    pub open spec fn acquires(
        self,
        id: Seq<char>,
        owner: Seq<char>,
        lease_id: Seq<char>,
        now_ms: i64,
        after: Tables,
        r: Result<LeaseAcquireView, ErrorView>,
    ) -> bool {
        &&& !self.lease_id_used(lease_id)
        &&& self.carry_out(
            |h: Seq<ReplyView>|
                acquire_thread_writer_lease_steps(id, owner, lease_id, now_ms, h),
            16,
        ) == Some((after, r))
    }

    /// Reading the lease of a request comes to this.
    pub open spec fn reads_lease(
        self,
        id: Seq<char>,
        now_ms: i64,
        r: Result<Option<WriterLeaseView>, ErrorView>,
    ) -> bool {
        self.carry_out(
            |h: Seq<ReplyView>| read_thread_writer_lease_steps(id, now_ms, h),
            2,
        ) == Some((self, r))
    }

    /// Adding an event comes to this.
    pub open spec fn appends_event(
        self,
        event: EventAppendView,
        now_ms: i64,
        after: Tables,
        r: Result<EventView, ErrorView>,
    ) -> bool {
        self.carry_out(
            |h: Seq<ReplyView>| append_request_event_steps(event, now_ms, h),
            5,
        ) == Some((after, r))
    }

    /// Adding an event at an expected cursor comes to this.
    pub open spec fn appends_event_if(
        self,
        event: EventAppendView,
        expected: u64,
        now_ms: i64,
        after: Tables,
        r: Result<Option<EventView>, ErrorView>,
    ) -> bool {
        self.carry_out(
            |h: Seq<ReplyView>|
                append_request_event_if_latest_cursor_steps(event, expected, now_ms, h),
            4,
        ) == Some((after, r))
    }

    /// Ending a request with an event comes to this.
    pub open spec fn ends_request(
        self,
        event: EventAppendView,
        status: RequestStatus,
        now_ms: i64,
        after: Tables,
        r: Result<TerminalStatusUpdate, ErrorView>,
    ) -> bool {
        self.carry_out(
            |h: Seq<ReplyView>| mark_request_terminal_with_event_steps(event, status, now_ms, h),
            10,
        ) == Some((after, r))
    }
}

/// Whether what a store reads is read from tables.
pub open spec fn read_from_tables<S: CloudStateStore>(
    tables: spec_fn(S) -> Tables,
    from_ms: i64,
    until_ms: i64,
) -> bool {
    &&& forall|store: S, id: Seq<char>, r: Result<RequestView, ErrorView>| #[trigger]
        store.read_request_reply(id, r) ==> tables(store).reads(id, r)
    &&& forall|store: S, caller_id: Seq<char>, thread_id: Seq<char>, r: Result<bool, ErrorView>|
        #[trigger]
        store.caller_can_access_thread_reply(caller_id, thread_id, r) ==> tables(
            store,
        ).gives_access(caller_id, thread_id, r)
    &&& forall|store: S, id: Seq<char>, r: Result<Option<WriterLeaseView>, ErrorView>| #[trigger]
        store.read_thread_writer_lease_reply(id, r) ==> exists|now_ms: i64|
            from_ms <= now_ms <= until_ms && #[trigger] tables(store).reads_lease(id, now_ms, r)
}

/// Whether what a store changes is changed in tables.
pub open spec fn changed_in_tables<S: CloudStateStore>(
    tables: spec_fn(S) -> Tables,
    from_ms: i64,
    until_ms: i64,
) -> bool {
    &&& forall|pre: S, params: CreateRequestView, post: S, r: Result<RequestView, ErrorView>|
        #[trigger]
        S::create_request_step(&pre, params, &post, r) ==> exists|
            id: Seq<char>,
            now_ms: i64,
        | #[trigger]
            tables(pre).creates(params, id, now_ms, tables(post), r)
    &&& forall|
        pre: S,
        id: Seq<char>,
        owner: Seq<char>,
        post: S,
        r: Result<LeaseAcquireView, ErrorView>,
    | #[trigger]
        S::acquire_thread_writer_lease_step(&pre, id, owner, &post, r) ==> exists|
            lease_id: Seq<char>,
            now_ms: i64,
        |
            from_ms <= now_ms <= until_ms && #[trigger] tables(pre).acquires(
                id,
                owner,
                lease_id,
                now_ms,
                tables(post),
                r,
            )
    &&& forall|pre: S, event: EventAppendView, post: S, r: Result<EventView, ErrorView>| #[trigger]
        S::append_request_event_step(&pre, event, &post, r) ==> exists|now_ms: i64| #[trigger]
            tables(pre).appends_event(event, now_ms, tables(post), r)
    &&& forall|
        pre: S,
        event: EventAppendView,
        expected: u64,
        post: S,
        r: Result<Option<EventView>, ErrorView>,
    | #[trigger]
        S::append_request_event_if_latest_cursor_step(&pre, event, expected, &post, r) ==> exists|
            now_ms: i64,
        | #[trigger]
            tables(pre).appends_event_if(event, expected, now_ms, tables(post), r)
    &&& forall|
        pre: S,
        event: EventAppendView,
        status: RequestStatus,
        post: S,
        r: Result<TerminalStatusUpdate, ErrorView>,
    | #[trigger]
        S::mark_request_terminal_with_event_step(&pre, event, status, &post, r) ==> exists|
            now_ms: i64,
        |
            from_ms <= now_ms <= until_ms && #[trigger] tables(pre).ends_request(
                event,
                status,
                now_ms,
                tables(post),
                r,
            )
}

/// Whether a store is kept in tables over a span of time: each call reads the clock for
/// itself, at some moment of the span.
pub open spec fn kept_in_tables<S: CloudStateStore>(
    tables: spec_fn(S) -> Tables,
    from_ms: i64,
    until_ms: i64,
) -> bool {
    read_from_tables(tables, from_ms, until_ms) && changed_in_tables(tables, from_ms, until_ms)
}

/// A store that is kept in tables reads the request that is in them.
proof fn read_is_known<S: CloudStateStore>(
    tables: spec_fn(S) -> Tables,
    from_ms: i64,
    until_ms: i64,
    store: S,
    id: Seq<char>,
)
    requires
        kept_in_tables(tables, from_ms, until_ms),
    ensures
        forall|r: Result<RequestView, ErrorView>| #[trigger]
            store.read_request_reply(id, r) ==> r == tables(store).read_request(id),
{
    tables(store).read_request_carried_out(id);
    assert forall|r: Result<RequestView, ErrorView>| #[trigger]
        store.read_request_reply(id, r) implies r == tables(store).read_request(id) by {
        assert(tables(store).reads(id, r));
    }
}

/// To everyone but its caller a request in the database is not there: nothing of it can be
/// read, and nothing that is asked for it changes the store.
pub proof fn foreign_requests_are_not_found<S: CloudStateStore>(
    tables: spec_fn(S) -> Tables,
    from_ms: i64,
    until_ms: i64,
    store: S,
    caller_id: Seq<char>,
    id: Seq<char>,
)
    requires
        kept_in_tables(tables, from_ms, until_ms),
        tables(store).requests.dom().contains(id),
        tables(store).requests[id].caller_id != caller_id,
    ensures
        forall|r: Result<RequestReadResponseView, ErrorView>| #[trigger]
            read_reply(&store, caller_id, id, r) ==> r == Err::<RequestReadResponseView, ErrorView>(
                ErrorView::RequestNotFound,
            ),
        forall|
            cursor: Option<u64>,
            limit: nat,
            r: Result<RequestEventsListResponseView, ErrorView>,
        | #[trigger]
            events_reply(&store, caller_id, id, cursor, limit, r) ==> r == Err::<
                RequestEventsListResponseView,
                ErrorView,
            >(ErrorView::RequestNotFound),
        forall|turn_id: Seq<char>, post: S, r: Result<RequestView, ErrorView>| #[trigger]
            set_turn_step(&store, caller_id, id, turn_id, &post, r) ==> post == store && r == Err::<
                RequestView,
                ErrorView,
            >(ErrorView::RequestNotFound),
        forall|
            thread_id: Seq<char>,
            params: LeaseAppendView,
            post: S,
            r: Result<AppendThreadItemsWithLeaseResponse, ErrorView>,
        | #[trigger]
            append_step(&store, caller_id, thread_id, params, &post, r) && params.request_id == id
                ==> post == store && r == Err::<AppendThreadItemsWithLeaseResponse, ErrorView>(
                ErrorView::RequestNotFound,
            ),
        forall|
            signal: TerminalSignal,
            payload_inline: Option<Seq<char>>,
            post: S,
            r: Result<RequestTerminalResponseView, ErrorView>,
        | #[trigger]
            terminal_step(&store, caller_id, id, signal, payload_inline, &post, r) ==> post
                == store && r == Err::<RequestTerminalResponseView, ErrorView>(
                ErrorView::RequestNotFound,
            ),
        forall|
            reason: Option<Seq<char>>,
            post: S,
            r: Result<RequestCancelResponseView, ErrorView>,
        | #[trigger]
            cancel_step(&store, caller_id, id, reason, &post, r) ==> post == store && r == Err::<
                RequestCancelResponseView,
                ErrorView,
            >(ErrorView::RequestNotFound),
        forall|
            config: ConfigSnapshotView,
            metadata: StateMetadataView,
            post: S,
            r: Result<(), ErrorView>,
        | #[trigger]
            persist_step(&store, caller_id, config, metadata, &post, r) && config.request_id == id
                ==> post == store && r == Err::<(), ErrorView>(ErrorView::RequestNotFound),
{
    read_is_known(tables, from_ms, until_ms, store, id);
}

/// A caller that has no request on a thread cannot list its items from the database.
pub proof fn foreign_threads_are_not_found<S: CloudStateStore>(
    tables: spec_fn(S) -> Tables,
    from_ms: i64,
    until_ms: i64,
    store: S,
    caller_id: Seq<char>,
    thread_id: Seq<char>,
)
    requires
        kept_in_tables(tables, from_ms, until_ms),
        !tables(store).has_access(caller_id, thread_id),
    ensures
        forall|
            cursor: Option<u64>,
            limit: nat,
            r: Result<ThreadItemsListResponseView, ErrorView>,
        | #[trigger]
            items_reply(&store, caller_id, thread_id, cursor, limit, r) ==> r == Err::<
                ThreadItemsListResponseView,
                ErrorView,
            >(ErrorView::RequestNotFound),
{
    tables(store).access_carried_out(caller_id, thread_id);
    assert forall|access: Result<bool, ErrorView>| #[trigger]
        store.caller_can_access_thread_reply(caller_id, thread_id, access) implies access == Ok::<
        bool,
        ErrorView,
    >(false) by {
        assert(tables(store).gives_access(caller_id, thread_id, access));
    }
}

impl Tables {
    /// What is answered of a request that came to an end.
    pub open spec fn end_answer(self, id: Seq<char>) -> RequestTerminalResponseView {
        RequestTerminalResponseView {
            request: self.requests[id].to_protocol(),
            latest_event_cursor: self.requests[id].latest_event_cursor,
        }
    }

    /// The status at which a request ends on a signal: one that runs without the lease that
    /// this end needs has lost its lease.
    pub open spec fn end_status(
        self,
        id: Seq<char>,
        signal: TerminalSignal,
        now_ms: i64,
    ) -> RequestStatus {
        if self.lacks_lease(id, signal.status(), now_ms) {
            RequestStatus::LeaseLost
        } else {
            signal.status()
        }
    }

    /// Whether request `id` ended on a signal: at the status that this comes to, with the
    /// event of that status as its last one, and without its lease.
    pub open spec fn ends_as(
        self,
        id: Seq<char>,
        signal: TerminalSignal,
        payload_inline: Option<Seq<char>>,
        now_ms: i64,
        after: Tables,
    ) -> bool {
        let status = self.end_status(id, signal, now_ms);
        let event = after.events_of(id).last();
        &&& after.requests.dom().contains(id)
        &&& after.requests[id].status == status
        &&& after.requests[id].caller_id == self.requests[id].caller_id
        &&& after.requests[id].latest_event_cursor == self.events_of(id).len() + 1
        &&& after.events_of(id) == self.events_of(id).push(event)
        &&& event.event_type == terminal_event_type(status)
        &&& !self.lacks_lease(id, signal.status(), now_ms) ==> event.payload_inline == (
        self.given_back)(terminal_event(id, signal, payload_inline).payload_inline)
        &&& after.held(self.requests[id].thread_id) matches Some(row) ==> row.request_id != id
    }
}

/// A signal for a request that is over changes nothing and is answered with the request as it
/// ended, whatever the signal and its payload.
pub proof fn signal_after_the_end_changes_nothing<S: CloudStateStore>(
    tables: spec_fn(S) -> Tables,
    from_ms: i64,
    until_ms: i64,
    pre: S,
    id: Seq<char>,
    signal: TerminalSignal,
    payload_inline: Option<Seq<char>>,
    post: S,
    r: Result<RequestTerminalResponseView, ErrorView>,
)
    requires
        kept_in_tables(tables, from_ms, until_ms),
        tables(pre).requests.dom().contains(id),
        tables(pre).requests[id].status.terminal(),
        terminal_step(
            &pre,
            tables(pre).requests[id].caller_id,
            id,
            signal,
            payload_inline,
            &post,
            r,
        ),
    ensures
        post == pre,
        r == Ok::<RequestTerminalResponseView, ErrorView>(tables(pre).end_answer(id)),
{
    read_is_known(tables, from_ms, until_ms, pre, id);
}

/// A signal that takes effect gives the request its status, adds the event of that status as
/// the last one, and frees the thread. A request that runs without the lease that this end
/// needs ends as one that has lost its lease.
pub proof fn signal_ends_the_request<S: CloudStateStore>(
    tables: spec_fn(S) -> Tables,
    from_ms: i64,
    until_ms: i64,
    pre: S,
    id: Seq<char>,
    signal: TerminalSignal,
    payload_inline: Option<Seq<char>>,
    post: S,
    r: Result<RequestTerminalResponseView, ErrorView>,
)
    requires
        kept_in_tables(tables, from_ms, until_ms),
        tables(pre).wf(),
        tables(pre).requests.dom().contains(id),
        !tables(pre).requests[id].status.terminal(),
        tables(pre).events_of(id).len() < u64::MAX,
        terminal_step(
            &pre,
            tables(pre).requests[id].caller_id,
            id,
            signal,
            payload_inline,
            &post,
            r,
        ),
        r is Ok,
    ensures
        ({
            let after = tables(post);
            &&& after.wf()
            &&& r == Ok::<RequestTerminalResponseView, ErrorView>(after.end_answer(id))
            &&& exists|now_ms: i64|
                from_ms <= now_ms <= until_ms && #[trigger] tables(pre).ends_as(
                    id,
                    signal,
                    payload_inline,
                    now_ms,
                    after,
                )
        }),
{
    let before = tables(pre);
    let caller_id = before.requests[id].caller_id;
    let event = terminal_event(id, signal, payload_inline);
    read_is_known(tables, from_ms, until_ms, pre, id);
    assert(terminal_mark(&pre, caller_id, id, signal, payload_inline, &post, r));
    let (mid, update) = choose|mid: &S, update: Result<TerminalStatusUpdate, ErrorView>| #[trigger]
        S::mark_request_terminal_with_event_step(&pre, event, signal.status(), mid, update)
            && match update {
            Err(error) => post == mid && r == Err::<RequestTerminalResponseView, ErrorView>(error),
            Ok(_) => terminal_answer(mid, caller_id, id, &post, r),
        };
    assert(before.events_ok(id) && before.running_ok(id));
    let now_ms = choose|now_ms: i64|
        from_ms <= now_ms <= until_ms && #[trigger] before.ends_request(
            event,
            signal.status(),
            now_ms,
            tables(*mid),
            update,
        );
    assert(before.ends_request(event, signal.status(), now_ms, tables(*mid), update));
    before.mark_terminal_with_event_carried_out(event, signal.status(), now_ms);
    before.mark_terminal_keeps(event, signal.status(), now_ms);
    assert(terminal_answer(mid, caller_id, id, &post, r));
    read_is_known(tables, from_ms, until_ms, post, id);
    let after = tables(post);
    assert(after.events_of(id) =~= before.events_of(id).push(after.events_of(id).last()));
    assert(before.ends_as(id, signal, payload_inline, now_ms, after));
}

/// Of two signals for a request only the first one is recorded: the second one changes
/// nothing, and both are answered with the same end.
pub proof fn request_ends_once<S: CloudStateStore>(
    tables: spec_fn(S) -> Tables,
    from_ms: i64,
    until_ms: i64,
    pre: S,
    id: Seq<char>,
    first: TerminalSignal,
    first_payload: Option<Seq<char>>,
    mid: S,
    first_r: Result<RequestTerminalResponseView, ErrorView>,
    second: TerminalSignal,
    second_payload: Option<Seq<char>>,
    post: S,
    second_r: Result<RequestTerminalResponseView, ErrorView>,
)
    requires
        kept_in_tables(tables, from_ms, until_ms),
        tables(pre).wf(),
        tables(pre).requests.dom().contains(id),
        tables(pre).events_of(id).len() < u64::MAX,
        terminal_step(
            &pre,
            tables(pre).requests[id].caller_id,
            id,
            first,
            first_payload,
            &mid,
            first_r,
        ),
        first_r is Ok,
        terminal_step(
            &mid,
            tables(pre).requests[id].caller_id,
            id,
            second,
            second_payload,
            &post,
            second_r,
        ),
    ensures
        post == mid,
        second_r == first_r,
        tables(post).events_of(id).len() <= tables(pre).events_of(id).len() + 1,
{
    if tables(pre).requests[id].status.terminal() {
        signal_after_the_end_changes_nothing(
            tables,
            from_ms,
            until_ms,
            pre,
            id,
            first,
            first_payload,
            mid,
            first_r,
        );
    } else {
        signal_ends_the_request(tables, from_ms, until_ms, pre, id, first, first_payload, mid, first_r);
    }
    signal_after_the_end_changes_nothing(
        tables,
        from_ms,
        until_ms,
        mid,
        id,
        second,
        second_payload,
        post,
        second_r,
    );
}

/// What is recorded of a cancellation reads back to the reason that was given for it, as long
/// as the database keeps the members of objects.
pub proof fn recorded_reason_reads_back<S: CloudStateStore>(
    tables: spec_fn(S) -> Tables,
    from_ms: i64,
    until_ms: i64,
    pre: S,
    id: Seq<char>,
    reason: Seq<char>,
    post: S,
    r: Result<RequestCancelResponseView, ErrorView>,
)
    requires
        kept_in_tables(tables, from_ms, until_ms),
        tables(pre).wf(),
        forall|json: Seq<char>|
            crate::json::json_reason(json) is Some ==> crate::json::json_reason(
                #[trigger] (tables(pre).given_back)(json),
            ) == crate::json::json_reason(json),
        tables(pre).requests.dom().contains(id),
        !tables(pre).requests[id].status.terminal(),
        tables(pre).events_of(id).len() < u64::MAX,
        cancel_step(&pre, tables(pre).requests[id].caller_id, id, Some(reason), &post, r),
        r is Ok,
    ensures
        tables(post).requests[id].status == RequestStatus::Cancelled,
        crate::json::json_reason(tables(post).events_of(id).last().payload_inline) == Some(reason),
{
    let caller_id = tables(pre).requests[id].caller_id;
    let signal = TerminalSignal::CancelConfirmed;
    let payload = cancel_payload(Some(reason));
    let ended = choose|ended: Result<RequestTerminalResponseView, ErrorView>| #[trigger]
        terminal_step(&pre, caller_id, id, signal, Some(payload), &post, ended) && r
            == crate::service_steps::cancel_response(ended);
    signal_ends_the_request(tables, from_ms, until_ms, pre, id, signal, Some(payload), post, ended);
}

impl Tables {
    /// Whether there is room for the events and the lease of one more run.
    pub open spec fn can_run(self) -> bool {
        &&& self.tokens < u64::MAX
        &&& forall|id: Seq<char>| (#[trigger] self.events_of(id)).len() + 3 <= u64::MAX
    }

    /// Whether the key of a request was used for another input.
    pub open spec fn key_is_reused(self, params: CreateRequestView) -> bool {
        exists|id: Seq<char>| #[trigger]
            self.keyed(id, params.caller_id, params.thread_id, params.idempotency_key)
                && self.requests[id].input_hash != params.input_hash
    }

    /// Whether one more event of each request can be numbered.
    pub open spec fn room_for_events(self) -> bool {
        forall|id: Seq<char>| (#[trigger] self.events_of(id)).len() < u64::MAX
    }

    /// Whether the lease of a thread, if there is one, does not expire in a span of time.
    pub open spec fn steady(self, thread_id: Seq<char>, from_ms: i64, until_ms: i64) -> bool {
        self.leases.dom().contains(thread_id) ==> self.leases[thread_id].row.expires_at_ms
            > until_ms || self.leases[thread_id].row.expires_at_ms <= from_ms
    }

    /// Whether the lease of a thread does not expire in a span of time, and neither does one
    /// that is taken in it.
    pub open spec fn stays_steady(
        self,
        thread_id: Seq<char>,
        from_ms: i64,
        until_ms: i64,
    ) -> bool {
        self.steady(thread_id, from_ms, until_ms) && until_ms - from_ms
            < THREAD_WRITER_LEASE_TTL_MS
    }

    /// Whether the lease of a thread is in the way of others.
    pub open spec fn taken(self, thread_id: Seq<char>, now_ms: i64) -> bool {
        self.leases.dom().contains(thread_id) && self.leases[thread_id].row.expires_at_ms > now_ms
    }

    /// What `run` answers of request `id`.
    pub open spec fn run_answered(
        self,
        id: Seq<char>,
        thread_id: Seq<char>,
        now_ms: i64,
    ) -> RequestRunResponseView {
        run_response(
            self.requests[id],
            thread_id,
            if self.requests[id].status == RequestStatus::Running && self.lease_active(
                self.requests[id].thread_id,
                id,
                now_ms,
            ) {
                held_lease(Some(self.leases[self.requests[id].thread_id].row))
            } else {
                None
            },
        )
    }

    /// Whether `run` answers with request `id` as it stands at some moment of a span of time.
    pub open spec fn run_answers(
        self,
        id: Seq<char>,
        thread_id: Seq<char>,
        from_ms: i64,
        until_ms: i64,
        r: Result<RequestRunResponseView, ErrorView>,
    ) -> bool {
        exists|now_ms: i64|
            from_ms <= now_ms <= until_ms && r == Ok::<RequestRunResponseView, ErrorView>(
                #[trigger] self.run_answered(id, thread_id, now_ms),
            )
    }

    /// Whether running a request again has nothing left to do: it was recorded and announced,
    /// and if it waits, it waits for a lease that is held.
    pub open spec fn settled(
        self,
        id: Seq<char>,
        params: CreateRequestView,
        now_ms: i64,
    ) -> bool {
        &&& self.wf()
        &&& self.room_for_events()
        &&& self.keyed(id, params.caller_id, params.thread_id, params.idempotency_key)
        &&& self.requests[id].input_hash == params.input_hash
        &&& self.requests[id].latest_event_cursor > 0
        &&& self.requests[id].status == RequestStatus::Queued ==> self.taken(
            params.thread_id,
            now_ms,
        )
    }

    /// The request that is recorded under a key is the one that is found under it.
    proof fn key_is_found(self, id: Seq<char>, params: CreateRequestView, new_id: Seq<char>)
        requires
            self.wf(),
            self.keyed(id, params.caller_id, params.thread_id, params.idempotency_key),
            self.requests[id].input_hash == params.input_hash,
        ensures
            self.create_request(params, new_id) == (
                self,
                Ok::<RequestView, ErrorView>(self.requests[id]),
            ),
    {
        let x = choose|x: Seq<char>|
            self.keyed(x, params.caller_id, params.thread_id, params.idempotency_key);
        assert(self.keyed(x, params.caller_id, params.thread_id, params.idempotency_key));
        assert(self.requests.dom().contains(x) && self.requests.dom().contains(id));
    }

    /// Every request of tables with room for events has its events counted.
    proof fn all_counted(self)
        requires
            self.wf(),
            self.room_for_events(),
        ensures
            forall|x: Seq<char>| #[trigger]
                self.requests.dom().contains(x) ==> self.events_counted(x),
    {
        assert forall|x: Seq<char>| #[trigger] self.requests.dom().contains(x) implies
            self.events_counted(x) by {
            assert(self.events_ok(x));
            assert(self.events_of(x).len() < u64::MAX);
        }
    }
}

/// The end of `run` on a store that is kept in tables.
proof fn run_answer_is_known<S: CloudStateStore>(
    tables: spec_fn(S) -> Tables,
    from_ms: i64,
    until_ms: i64,
    pre: S,
    id: Seq<char>,
    thread_id: Seq<char>,
    post: S,
    r: Result<RequestRunResponseView, ErrorView>,
)
    requires
        kept_in_tables(tables, from_ms, until_ms),
        from_ms <= until_ms,
        tables(pre).wf(),
        tables(pre).requests.dom().contains(id),
        run_answer(&pre, id, thread_id, &post, r),
    ensures
        post == pre,
        tables(pre).run_answers(id, thread_id, from_ms, until_ms, r),
{
    let state = tables(pre);
    read_is_known(tables, from_ms, until_ms, pre, id);
    assert(state.requests[id].request_id == id);
    if state.requests[id].status == RequestStatus::Running {
        let lease = choose|lease: Result<Option<WriterLeaseView>, ErrorView>| #[trigger]
            pre.read_thread_writer_lease_reply(id, lease) && r == match lease {
                Err(error) => Err(error),
                Ok(lease) => Ok(run_response(state.requests[id], thread_id, lease)),
            };
        let now_ms = choose|now_ms: i64|
            from_ms <= now_ms <= until_ms && #[trigger] state.reads_lease(id, now_ms, lease);
        assert(state.reads_lease(id, now_ms, lease));
        state.held_lease_is_read(id, now_ms);
        assert(r == Ok::<RequestRunResponseView, ErrorView>(
            state.run_answered(id, thread_id, now_ms),
        ));
    } else {
        assert(r == Ok::<RequestRunResponseView, ErrorView>(
            state.run_answered(id, thread_id, from_ms),
        ));
    }
}

/// Running a settled request again changes nothing.
proof fn settled_run_changes_nothing<S: CloudStateStore>(
    tables: spec_fn(S) -> Tables,
    from_ms: i64,
    until_ms: i64,
    pre: S,
    id: Seq<char>,
    params: CreateRequestView,
    post: S,
    r: Result<RequestRunResponseView, ErrorView>,
)
    requires
        kept_in_tables(tables, from_ms, until_ms),
        from_ms <= until_ms,
        tables(pre).settled(id, params, until_ms),
        run_step(&pre, params, &post, r),
    ensures
        tables(post) == tables(pre),
        tables(pre).run_answers(id, params.thread_id, from_ms, until_ms, r),
{
    let state = tables(pre);
    let caller_id = params.caller_id;
    let thread_id = params.thread_id;
    let (mid, created) = choose|mid: &S, created: Result<RequestView, ErrorView>| #[trigger]
        S::create_request_step(&pre, params, mid, created) && match created {
            Err(error) => post == mid && r == Err::<RequestRunResponseView, ErrorView>(error),
            Ok(request) => run_announce(mid, caller_id, request, thread_id, &post, r),
        };
    let (new_id, now_ms) = choose|new_id: Seq<char>, now_ms: i64| #[trigger]
        state.creates(params, new_id, now_ms, tables(*mid), created);
    state.create_request_carried_out(params, new_id, now_ms);
    state.key_is_found(id, params, new_id);
    assert(tables(*mid) == state);
    assert(created == Ok::<RequestView, ErrorView>(state.requests[id]));
    assert(state.requests[id].request_id == id);
    assert(run_take(mid, caller_id, id, thread_id, &post, r));
    read_is_known(tables, from_ms, until_ms, *mid, id);
    if state.requests[id].status == RequestStatus::Queued {
        assert(run_acquire(mid, caller_id, id, thread_id, &post, r));
        let (tried, taken) = choose|tried: &S, taken: Result<LeaseAcquireView, ErrorView>|
            #[trigger]
            S::acquire_thread_writer_lease_step(mid, id, caller_id, tried, taken) && match taken {
                Err(error) => post == tried && r == Err::<RequestRunResponseView, ErrorView>(
                    error,
                ),
                Ok(LeaseAcquireView::Queued) => run_answer(tried, id, thread_id, &post, r),
                Ok(LeaseAcquireView::Acquired { lease_id, fencing_token }) => run_started(
                    tried,
                    id,
                    thread_id,
                    &post,
                    r,
                ),
            };
        let (lease_id, now_ms) = choose|lease_id: Seq<char>, now_ms: i64|
            from_ms <= now_ms <= until_ms && #[trigger] state.acquires(
                id,
                caller_id,
                lease_id,
                now_ms,
                tables(*tried),
                taken,
            );
        assert(state.acquires(id, caller_id, lease_id, now_ms, tables(*tried), taken));
        state.all_counted();
        state.acquire_carried_out(id, caller_id, lease_id, now_ms);
        state.one_writer_per_thread(id, caller_id, lease_id, now_ms);
        run_answer_is_known(tables, from_ms, until_ms, *tried, id, thread_id, post, r);
    } else {
        run_answer_is_known(tables, from_ms, until_ms, *mid, id, thread_id, post, r);
    }
}

impl Tables {
    /// Whether request `id` was recorded under its key, with an event that announced it, and
    /// the events of every request leave room for another one.
    spec fn announced(self, id: Seq<char>, params: CreateRequestView) -> bool {
        &&& self.wf()
        &&& self.room_for_events()
        &&& self.keyed(id, params.caller_id, params.thread_id, params.idempotency_key)
        &&& self.requests[id].input_hash == params.input_hash
        &&& self.requests[id].latest_event_cursor > 0
    }

    /// A request that took its lease and says that it runs is settled.
    proof fn started_is_settled(self, id: Seq<char>, params: CreateRequestView, from_ms: i64)
        requires
            self.announced(id, params),
            self.events_of(id).len() + 1 < u64::MAX,
            self.requests[id].status == RequestStatus::Running,
        ensures
            self.with_event(running_event(id)).settled(id, params, from_ms),
    {
        let after = self.with_event(running_event(id));
        assert(self.events_ok(id));
        self.with_event_keeps(running_event(id));
        assert forall|x: Seq<char>| (#[trigger] after.events_of(x)).len() < u64::MAX by {
            if x != id {
                assert(after.events_of(x) == self.events_of(x));
            }
        }
    }
}

/// What a request that took its lease comes to.
proof fn started_run_is_known<S: CloudStateStore>(
    tables: spec_fn(S) -> Tables,
    from_ms: i64,
    until_ms: i64,
    pre: S,
    id: Seq<char>,
    params: CreateRequestView,
    post: S,
    r: Result<RequestRunResponseView, ErrorView>,
)
    requires
        kept_in_tables(tables, from_ms, until_ms),
        from_ms <= until_ms,
        tables(pre).announced(id, params),
        tables(pre).events_of(id).len() + 1 < u64::MAX,
        tables(pre).requests[id].status == RequestStatus::Running,
        run_started(&pre, id, params.thread_id, &post, r),
    ensures
        r is Ok <==> crate::json::json_valid("{}"@),
        r is Ok ==> tables(post).settled(id, params, from_ms) && tables(post).run_answers(
            id,
            params.thread_id,
            from_ms,
            until_ms,
            r,
        ),
        r is Ok && tables(pre).stays_steady(params.thread_id, from_ms, until_ms) ==> tables(
            post,
        ).steady(params.thread_id, from_ms, until_ms),
{
    let state = tables(pre);
    let event = running_event(id);
    let (mid, said) = choose|mid: &S, said: Result<EventView, ErrorView>| #[trigger]
        S::append_request_event_step(&pre, event, mid, said) && match said {
            Err(error) => post == mid && r == Err::<RequestRunResponseView, ErrorView>(error),
            Ok(_) => run_answer(mid, id, params.thread_id, &post, r),
        };
    let now_ms = choose|now_ms: i64| #[trigger]
        state.appends_event(event, now_ms, tables(*mid), said);
    assert(state.appends_event(event, now_ms, tables(*mid), said));
    state.all_counted();
    state.append_event_carried_out(event, now_ms);
    if said is Ok {
        state.started_is_settled(id, params, from_ms);
        run_answer_is_known(tables, from_ms, until_ms, *mid, id, params.thread_id, post, r);
    }
}

/// What a queued request that tries to take its lease comes to.
proof fn acquiring_run_is_known<S: CloudStateStore>(
    tables: spec_fn(S) -> Tables,
    from_ms: i64,
    until_ms: i64,
    pre: S,
    id: Seq<char>,
    params: CreateRequestView,
    post: S,
    r: Result<RequestRunResponseView, ErrorView>,
)
    requires
        kept_in_tables(tables, from_ms, until_ms),
        from_ms <= until_ms,
        clock_fits(until_ms),
        tables(pre).announced(id, params),
        tables(pre).tokens < u64::MAX,
        forall|x: Seq<char>| (#[trigger] tables(pre).events_of(x)).len() + 1 < u64::MAX,
        tables(pre).requests[id].status == RequestStatus::Queued,
        run_acquire(&pre, params.caller_id, id, params.thread_id, &post, r),
    ensures
        crate::json::json_valid("{}"@) ==> r is Ok,
        r is Ok ==> tables(post).settled(id, params, from_ms) && tables(post).run_answers(
            id,
            params.thread_id,
            from_ms,
            until_ms,
            r,
        ),
        r is Ok && tables(pre).stays_steady(params.thread_id, from_ms, until_ms) ==> tables(
            post,
        ).steady(params.thread_id, from_ms, until_ms),
{
    let state = tables(pre);
    let caller_id = params.caller_id;
    let thread_id = params.thread_id;
    let (tried, taken) = choose|tried: &S, taken: Result<LeaseAcquireView, ErrorView>| #[trigger]
        S::acquire_thread_writer_lease_step(&pre, id, caller_id, tried, taken) && match taken {
            Err(error) => post == tried && r == Err::<RequestRunResponseView, ErrorView>(error),
            Ok(LeaseAcquireView::Queued) => run_answer(tried, id, thread_id, &post, r),
            Ok(LeaseAcquireView::Acquired { lease_id, fencing_token }) => run_started(
                tried,
                id,
                thread_id,
                &post,
                r,
            ),
        };
    let (lease_id, now_ms) = choose|lease_id: Seq<char>, now_ms: i64|
        from_ms <= now_ms <= until_ms && #[trigger] state.acquires(
            id,
            caller_id,
            lease_id,
            now_ms,
            tables(*tried),
            taken,
        );
    assert(state.acquires(id, caller_id, lease_id, now_ms, tables(*tried), taken));
    state.all_counted();
    state.acquire_carried_out(id, caller_id, lease_id, now_ms);
    state.acquire_keeps(id, caller_id, lease_id, now_ms);
    let after = tables(*tried);
    assert((after, taken) == state.acquire(id, caller_id, lease_id, now_ms));
    if state.taken(thread_id, now_ms) {
        run_answer_is_known(tables, from_ms, until_ms, *tried, id, thread_id, post, r);
    } else {
        if state.leases.dom().contains(thread_id) {
            assert(state.lease_ok(thread_id));
        }
        state.unused_lease_id_stays_unused(thread_id, lease_id);
        assert(after.requests[id].status == RequestStatus::Running);
        assert(after.events_of(id) == state.events_of(id));
        assert forall|x: Seq<char>| (#[trigger] after.events_of(x)).len() < u64::MAX by {
            assert(state.events_of(x).len() + 1 < u64::MAX);
        }
        started_run_is_known(tables, from_ms, until_ms, *tried, id, params, post, r);
    }
}

/// What a request that was recorded and announced comes to.
proof fn taking_run_is_known<S: CloudStateStore>(
    tables: spec_fn(S) -> Tables,
    from_ms: i64,
    until_ms: i64,
    pre: S,
    id: Seq<char>,
    params: CreateRequestView,
    post: S,
    r: Result<RequestRunResponseView, ErrorView>,
)
    requires
        kept_in_tables(tables, from_ms, until_ms),
        from_ms <= until_ms,
        clock_fits(until_ms),
        tables(pre).announced(id, params),
        tables(pre).tokens < u64::MAX,
        forall|x: Seq<char>| (#[trigger] tables(pre).events_of(x)).len() + 1 < u64::MAX,
        run_take(&pre, params.caller_id, id, params.thread_id, &post, r),
    ensures
        crate::json::json_valid("{}"@) ==> r is Ok,
        r is Ok ==> tables(post).settled(id, params, from_ms) && tables(post).run_answers(
            id,
            params.thread_id,
            from_ms,
            until_ms,
            r,
        ),
        r is Ok && tables(pre).stays_steady(params.thread_id, from_ms, until_ms) ==> tables(
            post,
        ).steady(params.thread_id, from_ms, until_ms),
{
    let state = tables(pre);
    read_is_known(tables, from_ms, until_ms, pre, id);
    assert(state.requests[id].request_id == id);
    if state.requests[id].status == RequestStatus::Queued {
        acquiring_run_is_known(tables, from_ms, until_ms, pre, id, params, post, r);
    } else {
        run_answer_is_known(tables, from_ms, until_ms, pre, id, params.thread_id, post, r);
    }
}

/// `run` fails only where the key was used for another input, and then nothing changes.
/// Otherwise the request stands under its key, announced by an event; it waits only if the
/// lease of its thread is held, and it is answered with the lease under which it writes.
pub proof fn run_settles_the_request<S: CloudStateStore>(
    tables: spec_fn(S) -> Tables,
    from_ms: i64,
    until_ms: i64,
    pre: S,
    params: CreateRequestView,
    post: S,
    r: Result<RequestRunResponseView, ErrorView>,
)
    requires
        kept_in_tables(tables, from_ms, until_ms),
        from_ms <= until_ms,
        clock_fits(until_ms),
        tables(pre).wf(),
        tables(pre).can_run(),
        run_step(&pre, params, &post, r),
    ensures
        if tables(pre).key_is_reused(params) {
            &&& r == Err::<RequestRunResponseView, ErrorView>(ErrorView::IdempotencyConflict)
            &&& tables(post) == tables(pre)
        } else {
            &&& crate::json::json_valid("{}"@) ==> r is Ok
            &&& r is Ok ==> exists|id: Seq<char>| #[trigger]
                tables(post).settled(id, params, from_ms) && tables(post).run_answers(
                    id,
                    params.thread_id,
                    from_ms,
                    until_ms,
                    r,
                )
            &&& r is Ok && tables(pre).stays_steady(params.thread_id, from_ms, until_ms)
                ==> tables(post).steady(params.thread_id, from_ms, until_ms)
        },
{
    let before = tables(pre);
    let caller_id = params.caller_id;
    let thread_id = params.thread_id;
    let (mid, created) = choose|mid: &S, created: Result<RequestView, ErrorView>| #[trigger]
        S::create_request_step(&pre, params, mid, created) && match created {
            Err(error) => post == mid && r == Err::<RequestRunResponseView, ErrorView>(error),
            Ok(request) => run_announce(mid, caller_id, request, thread_id, &post, r),
        };
    let (new_id, now_ms) = choose|new_id: Seq<char>, now_ms: i64| #[trigger]
        before.creates(params, new_id, now_ms, tables(*mid), created);
    assert(before.creates(params, new_id, now_ms, tables(*mid), created));
    before.create_request_carried_out(params, new_id, now_ms);
    before.create_request_keeps(params, new_id);
    let state = tables(*mid);
    assert((state, created) == before.create_request(params, new_id));
    assert forall|a: Seq<char>, b: Seq<char>|
        before.keyed(a, caller_id, thread_id, params.idempotency_key) && before.keyed(
            b,
            caller_id,
            thread_id,
            params.idempotency_key,
        ) implies a == b by {
        assert(before.requests.dom().contains(a) && before.requests.dom().contains(b));
    }
    if let Ok(request) = created {
        let id = request.request_id;
        assert(state.keyed(id, caller_id, thread_id, params.idempotency_key)
            && state.requests[id] == request && request.input_hash == params.input_hash);
        assert forall|x: Seq<char>| (#[trigger] state.events_of(x)).len() + 3 <= u64::MAX by {
            assert(state.events_of(x) == before.events_of(x));
        }
        assert(state.events_ok(id));
        if request.latest_event_cursor == 0 {
            let event = queued_event(id);
            let (said_in, said) = choose|said_in: &S, said: Result<Option<EventView>, ErrorView>|
                #[trigger]
                S::append_request_event_if_latest_cursor_step(mid, event, 0, said_in, said)
                    && match said {
                    Err(error) => post == said_in && r == Err::<RequestRunResponseView, ErrorView>(
                        error,
                    ),
                    Ok(_) => run_take(said_in, caller_id, id, thread_id, &post, r),
                };
            let said_ms = choose|said_ms: i64| #[trigger]
                state.appends_event_if(event, 0, said_ms, tables(*said_in), said);
            assert(state.appends_event_if(event, 0, said_ms, tables(*said_in), said));
            state.all_counted();
            state.append_event_if_carried_out(event, 0, said_ms);
            if said is Ok {
                let announced = tables(*said_in);
                assert(announced == state.with_event(event));
                state.with_event_keeps(event);
                assert forall|x: Seq<char>| (#[trigger] announced.events_of(x)).len() + 1
                    < u64::MAX by {
                    assert(state.events_of(x).len() + 3 <= u64::MAX);
                }
                assert(announced.announced(id, params));
                taking_run_is_known(tables, from_ms, until_ms, *said_in, id, params, post, r);
            }
        } else {
            assert(state.announced(id, params));
            taking_run_is_known(tables, from_ms, until_ms, *mid, id, params, post, r);
        }
    }
}

/// Running the same request twice in a span of time in which no lease of its thread expires is
/// running it once: the second time nothing changes, and the answer is the same.
pub proof fn run_is_idempotent<S: CloudStateStore>(
    tables: spec_fn(S) -> Tables,
    from_ms: i64,
    until_ms: i64,
    pre: S,
    params: CreateRequestView,
    mid: S,
    first_r: Result<RequestRunResponseView, ErrorView>,
    post: S,
    second_r: Result<RequestRunResponseView, ErrorView>,
)
    requires
        kept_in_tables(tables, from_ms, until_ms),
        from_ms <= until_ms,
        clock_fits(until_ms),
        tables(pre).wf(),
        tables(pre).can_run(),
        tables(pre).stays_steady(params.thread_id, from_ms, until_ms),
        run_step(&pre, params, &mid, first_r),
        first_r is Ok,
        run_step(&mid, params, &post, second_r),
    ensures
        tables(post) == tables(mid),
        second_r == first_r,
{
    run_settles_the_request(tables, from_ms, until_ms, pre, params, mid, first_r);
    let id = choose|id: Seq<char>| #[trigger]
        tables(mid).settled(id, params, from_ms) && tables(mid).run_answers(
            id,
            params.thread_id,
            from_ms,
            until_ms,
            first_r,
        );
    assert(tables(mid).settled(id, params, until_ms));
    settled_run_changes_nothing(tables, from_ms, until_ms, mid, id, params, post, second_r);
}

} // verus!
