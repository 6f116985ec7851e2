//! What the request service does on a store that keeps to the model.
use vstd::prelude::*;

use crate::memory_store::InMemoryCloudStateStore;
use crate::model::StoreModel;
use crate::protocol::append::ThreadItemsListResponseView;
use crate::protocol::event::{RequestEventView, RequestEventsListResponseView};
use crate::protocol::request::{
    RequestCancelResponseView, RequestReadResponseView, RequestRunResponseView,
    RequestTerminalResponseView, WriterLeaseView,
};
use crate::protocol::{AppendThreadItemsWithLeaseResponse, RequestStatus, TerminalSignal};
use crate::records::{
    ConfigSnapshotView, CreateRequestView, ErrorView, EventAppendView, EventView, LeaseAppendView,
    RequestView, StateMetadataView,
};
use crate::request_store::CloudStateStore;

verus! {

impl StoreModel {
    /// Request `id` as its caller reads it.
    pub open spec fn read_for(self, caller_id: Seq<char>, id: Seq<char>) -> Result<
        RequestView,
        ErrorView,
    > {
        crate::service_steps::scoped(self.read_request(id), caller_id)
    }

    /// The lease under which request `id` writes, if it runs.
    pub open spec fn running_lease(self, id: Seq<char>) -> Option<WriterLeaseView> {
        if self.requests[id].status == RequestStatus::Running {
            self.read_thread_writer_lease(id)->Ok_0
        } else {
            None
        }
    }

    /// What `run` answers of request `id`.
    pub open spec fn run_answer(
        self,
        id: Seq<char>,
        thread_id: Seq<char>,
    ) -> RequestRunResponseView {
        crate::service_steps::run_response(self.requests[id], thread_id, self.running_lease(id))
    }

    /// A new request that waits says so.
    pub open spec fn announced(self, id: Seq<char>) -> StoreModel {
        if self.requests[id].latest_event_cursor == 0 {
            self.with_event(crate::service_steps::queued_event(id)).0
        } else {
            self
        }
    }

    /// A queued request on a free thread runs, under a lease for its caller, and says so.
    pub open spec fn started(self, id: Seq<char>, caller_id: Seq<char>) -> StoreModel {
        if self.requests[id].status == RequestStatus::Queued && !self.leases.dom().contains(
            self.requests[id].thread_id,
        ) {
            self.acquire_thread_writer_lease(id, caller_id).0.with_event(
                crate::service_steps::running_event(id),
            ).0
        } else {
            self
        }
    }

    /// Runs a request.
    pub open spec fn run(self, params: CreateRequestView) -> (
        StoreModel,
        Result<RequestRunResponseView, ErrorView>,
    ) {
        let (recorded, created) = self.create_request(params);
        match created {
            Err(error) => (recorded, Err(error)),
            Ok(request) => {
                let id = request.request_id;
                let state = recorded.announced(id).started(id, params.caller_id);
                (state, Ok(state.run_answer(id, params.thread_id)))
            },
        }
    }

    /// Appends items for a caller.
    pub open spec fn append_for(
        self,
        caller_id: Seq<char>,
        thread_id: Seq<char>,
        params: LeaseAppendView,
    ) -> (StoreModel, Result<AppendThreadItemsWithLeaseResponse, ErrorView>) {
        match self.read_for(caller_id, params.request_id) {
            Err(error) => (self, Err(error)),
            Ok(request) => if request.thread_id != thread_id {
                (self, Err(ErrorView::ThreadMismatch))
            } else {
                self.append_thread_items_with_lease(params)
            },
        }
    }

    /// Lists items for a caller.
    pub open spec fn items_for(
        self,
        caller_id: Seq<char>,
        thread_id: Seq<char>,
        cursor: Option<u64>,
        limit: nat,
    ) -> Result<ThreadItemsListResponseView, ErrorView> {
        if self.caller_can_access_thread(caller_id, thread_id) {
            let (data, next_cursor) = self.list_thread_items(thread_id, cursor, limit);
            Ok(ThreadItemsListResponseView { data, next_cursor })
        } else {
            Err(ErrorView::RequestNotFound)
        }
    }

    /// Reads a request for a caller.
    pub open spec fn read_response(self, caller_id: Seq<char>, id: Seq<char>) -> Result<
        RequestReadResponseView,
        ErrorView,
    > {
        match self.read_for(caller_id, id) {
            Err(error) => Err(error),
            Ok(request) => Ok(
                RequestReadResponseView {
                    request: request.to_protocol(),
                    latest_event_cursor: request.latest_event_cursor,
                },
            ),
        }
    }

    /// Notes the turn of a caller's request.
    pub open spec fn set_turn_for(self, caller_id: Seq<char>, id: Seq<char>, turn_id: Seq<char>) -> (
        StoreModel,
        Result<RequestView, ErrorView>,
    ) {
        match self.read_for(caller_id, id) {
            Err(error) => (self, Err(error)),
            Ok(_) => self.set_request_turn_id(id, turn_id),
        }
    }

    /// What is answered of request `id` after a terminal signal.
    pub open spec fn terminal_answer(self, id: Seq<char>) -> RequestTerminalResponseView {
        RequestTerminalResponseView {
            request: self.requests[id].to_protocol(),
            latest_event_cursor: self.requests[id].latest_event_cursor,
        }
    }

    /// The state after request `id` ended as the signal says, with the event that records it.
    pub open spec fn signalled(
        self,
        id: Seq<char>,
        signal: TerminalSignal,
        payload_inline: Option<Seq<char>>,
    ) -> StoreModel {
        self.ended(id, signal.status()).with_event(
            crate::service_steps::terminal_event(id, signal, payload_inline),
        ).0
    }

    /// Ends a caller's request as the signal says, unless it is over.
    pub open spec fn terminal_for(
        self,
        caller_id: Seq<char>,
        id: Seq<char>,
        signal: TerminalSignal,
        payload_inline: Option<Seq<char>>,
    ) -> (StoreModel, Result<RequestTerminalResponseView, ErrorView>) {
        match self.read_for(caller_id, id) {
            Err(error) => (self, Err(error)),
            Ok(current) => if current.status.terminal() {
                (self, Ok(self.terminal_answer(id)))
            } else if payload_inline is Some && !crate::json::json_valid(payload_inline->0) {
                (self, Err(ErrorView::InvalidEventPayload))
            } else {
                let state = self.signalled(id, signal, payload_inline);
                (state, Ok(state.terminal_answer(id)))
            },
        }
    }

    /// Cancels a caller's request, unless it is over.
    pub open spec fn cancel_for(
        self,
        caller_id: Seq<char>,
        id: Seq<char>,
        reason: Option<Seq<char>>,
    ) -> (StoreModel, Result<RequestCancelResponseView, ErrorView>) {
        match self.read_for(caller_id, id) {
            Err(error) => (self, Err(error)),
            Ok(current) => {
                let state = if current.status.terminal() {
                    self
                } else {
                    self.signalled(
                        id,
                        TerminalSignal::CancelConfirmed,
                        Some(crate::service_steps::cancel_payload(reason)),
                    )
                };
                (
                    state,
                    Ok(RequestCancelResponseView { request: state.requests[id].to_protocol() }),
                )
            },
        }
    }

    /// Ends a request that runs in a turn, whichever it is.
    pub open spec fn terminal_in_turn(
        self,
        turn_id: Seq<char>,
        signal: TerminalSignal,
        payload_inline: Option<Seq<char>>,
        after: StoreModel,
        r: Result<RequestTerminalResponseView, ErrorView>,
    ) -> bool {
        ||| exists|id: Seq<char>| #[trigger]
            self.in_turn(id, turn_id) && (after, r) == self.terminal_for(
                self.requests[id].caller_id,
                id,
                signal,
                payload_inline,
            )
        ||| (forall|id: Seq<char>| !self.in_turn(id, turn_id)) && after == self && r == Err::<
            RequestTerminalResponseView,
            ErrorView,
        >(ErrorView::RequestNotFound)
    }

    /// Adds an event to a request that runs in a turn, whichever it is.
    pub open spec fn event_in_turn(
        self,
        turn_id: Seq<char>,
        event_type: Seq<char>,
        payload_inline: Seq<char>,
        after: StoreModel,
        r: Result<RequestEventView, ErrorView>,
    ) -> bool {
        ||| exists|id: Seq<char>| #[trigger]
            self.in_turn(id, turn_id) && {
                let (state, said) = self.append_request_event(
                    EventAppendView { request_id: id, event_type, payload_inline },
                );
                after == state && r == crate::service_steps::event_response(said)
            }
        ||| (forall|id: Seq<char>| !self.in_turn(id, turn_id)) && after == self && r == Err::<
            RequestEventView,
            ErrorView,
        >(ErrorView::RequestNotFound)
    }

    /// Lists the events of a caller's request.
    pub open spec fn events_for(
        self,
        caller_id: Seq<char>,
        id: Seq<char>,
        cursor: Option<u64>,
        limit: nat,
    ) -> Result<RequestEventsListResponseView, ErrorView> {
        match self.read_for(caller_id, id) {
            Err(error) => Err(error),
            Ok(_) => crate::service_steps::page_response(
                self.list_request_events(id, cursor, limit),
            ),
        }
    }

    /// Keeps the configuration and the metadata of a caller's request.
    pub open spec fn persist_for(
        self,
        caller_id: Seq<char>,
        config: ConfigSnapshotView,
        metadata: StateMetadataView,
    ) -> (StoreModel, Result<(), ErrorView>) {
        match self.read_for(caller_id, config.request_id) {
            Err(error) => (self, Err(error)),
            Ok(request) => if request.thread_id != config.thread_id || request.thread_id
                != metadata.thread_id {
                (self, Err(ErrorView::ThreadMismatch))
            } else {
                let (kept, r) = self.persist_config_snapshot(config);
                match r {
                    Err(error) => (kept, Err(error)),
                    Ok(_) => kept.upsert_state_metadata(metadata),
                }
            },
        }
    }
}

/// On the store in memory, running a request is what the model says.
pub proof fn memory_run(
    pre: &InMemoryCloudStateStore,
    params: CreateRequestView,
    post: &InMemoryCloudStateStore,
    r: Result<RequestRunResponseView, ErrorView>,
)
    requires
        pre.wf(),
        crate::service_steps::run_step(pre, params, post, r),
    ensures
        (post@, r) == pre@.run(params),
{
    pre.model_wf();
    let (mid, created) = choose|
        mid: &InMemoryCloudStateStore,
        created: Result<RequestView, ErrorView>,
    | #[trigger]
        InMemoryCloudStateStore::create_request_step(pre, params, mid, created) && match created {
            Err(error) => post == mid && r == Err::<RequestRunResponseView, ErrorView>(error),
            Ok(request) => crate::service_steps::run_announce(
                mid,
                params.caller_id,
                request,
                params.thread_id,
                post,
                r,
            ),
        };
    pre@.create_request_wf(params);
    if let Ok(request) = created {
        let id = request.request_id;
        assert(mid@.requests.dom().contains(id) && mid@.requests[id] == request) by {
            if exists|id: Seq<char>|
                pre@.keyed(id, params.caller_id, params.thread_id, params.idempotency_key) {
                let found = choose|id: Seq<char>|
                    pre@.keyed(id, params.caller_id, params.thread_id, params.idempotency_key);
                assert(pre@.request_ok(found));
            }
        }
        memory_run_announced(mid, params.caller_id, request, params.thread_id, post, r);
    }
}

proof fn memory_run_announced(
    pre: &InMemoryCloudStateStore,
    caller_id: Seq<char>,
    request: RequestView,
    thread_id: Seq<char>,
    post: &InMemoryCloudStateStore,
    r: Result<RequestRunResponseView, ErrorView>,
)
    requires
        pre@.wf(),
        pre@.requests.dom().contains(request.request_id),
        pre@.requests[request.request_id] == request,
        crate::service_steps::run_announce(pre, caller_id, request, thread_id, post, r),
    ensures
        post@ == pre@.announced(request.request_id).started(request.request_id, caller_id),
        r == Ok::<RequestRunResponseView, ErrorView>(
            post@.run_answer(request.request_id, thread_id),
        ),
{
    let id = request.request_id;
    assert(pre@.request_ok(id));
    if request.latest_event_cursor == 0 {
        let (mid, said) = choose|
            mid: &InMemoryCloudStateStore,
            said: Result<Option<EventView>, ErrorView>,
        | #[trigger]
            InMemoryCloudStateStore::append_request_event_if_latest_cursor_step(
                pre,
                crate::service_steps::queued_event(id),
                0,
                mid,
                said,
            ) && match said {
                Err(error) => post == mid && r == Err::<RequestRunResponseView, ErrorView>(error),
                Ok(_) => crate::service_steps::run_take(mid, caller_id, id, thread_id, post, r),
            };
        assert(mid@ == pre@.announced(id));
        memory_run_taken(mid, caller_id, id, thread_id, post, r);
    } else {
        memory_run_taken(pre, caller_id, id, thread_id, post, r);
    }
}

proof fn memory_run_taken(
    pre: &InMemoryCloudStateStore,
    caller_id: Seq<char>,
    id: Seq<char>,
    thread_id: Seq<char>,
    post: &InMemoryCloudStateStore,
    r: Result<RequestRunResponseView, ErrorView>,
)
    requires
        pre@.requests.dom().contains(id),
        pre@.requests[id].request_id == id,
        crate::service_steps::run_take(pre, caller_id, id, thread_id, post, r),
    ensures
        post@ == pre@.started(id, caller_id),
        r == Ok::<RequestRunResponseView, ErrorView>(post@.run_answer(id, thread_id)),
{
}

/// On the store in memory, appending items is what the model says.
pub proof fn memory_append(
    pre: &InMemoryCloudStateStore,
    caller_id: Seq<char>,
    thread_id: Seq<char>,
    params: LeaseAppendView,
    post: &InMemoryCloudStateStore,
    r: Result<AppendThreadItemsWithLeaseResponse, ErrorView>,
)
    requires
        crate::service_steps::append_step(pre, caller_id, thread_id, params, post, r),
    ensures
        (post@, r) == pre@.append_for(caller_id, thread_id, params),
{
}

/// On the store in memory, listing items is what the model says.
pub proof fn memory_items(
    store: &InMemoryCloudStateStore,
    caller_id: Seq<char>,
    thread_id: Seq<char>,
    cursor: Option<u64>,
    limit: nat,
    r: Result<ThreadItemsListResponseView, ErrorView>,
)
    requires
        crate::service_steps::items_reply(store, caller_id, thread_id, cursor, limit, r),
    ensures
        r == store@.items_for(caller_id, thread_id, cursor, limit),
{
}

/// On the store in memory, reading a request is what the model says.
pub proof fn memory_read(
    store: &InMemoryCloudStateStore,
    caller_id: Seq<char>,
    id: Seq<char>,
    r: Result<RequestReadResponseView, ErrorView>,
)
    requires
        crate::service_steps::read_reply(store, caller_id, id, r),
    ensures
        r == store@.read_response(caller_id, id),
{
}

/// On the store in memory, noting a turn is what the model says.
pub proof fn memory_set_turn(
    pre: &InMemoryCloudStateStore,
    caller_id: Seq<char>,
    id: Seq<char>,
    turn_id: Seq<char>,
    post: &InMemoryCloudStateStore,
    r: Result<RequestView, ErrorView>,
)
    requires
        crate::service_steps::set_turn_step(pre, caller_id, id, turn_id, post, r),
    ensures
        (post@, r) == pre@.set_turn_for(caller_id, id, turn_id),
{
}

/// On the store in memory, a terminal signal does what the model says.
pub proof fn memory_terminal(
    pre: &InMemoryCloudStateStore,
    caller_id: Seq<char>,
    id: Seq<char>,
    signal: TerminalSignal,
    payload_inline: Option<Seq<char>>,
    post: &InMemoryCloudStateStore,
    r: Result<RequestTerminalResponseView, ErrorView>,
)
    requires
        crate::service_steps::terminal_step(pre, caller_id, id, signal, payload_inline, post, r),
    ensures
        (post@, r) == pre@.terminal_for(caller_id, id, signal, payload_inline),
        pre@.read_for(caller_id, id) is Ok && !pre@.requests[id].status.terminal()
            && payload_inline is Some && crate::json::own_payload(payload_inline->0)
            ==> crate::json::json_valid(payload_inline->0),
{
}

/// On the store in memory, a cancellation does what the model says.
pub proof fn memory_cancel(
    pre: &InMemoryCloudStateStore,
    caller_id: Seq<char>,
    id: Seq<char>,
    reason: Option<Seq<char>>,
    post: &InMemoryCloudStateStore,
    r: Result<RequestCancelResponseView, ErrorView>,
)
    requires
        crate::service_steps::cancel_step(pre, caller_id, id, reason, post, r),
    ensures
        (post@, r) == pre@.cancel_for(caller_id, id, reason),
{
    let payload = crate::service_steps::cancel_payload(reason);
    let signal = TerminalSignal::CancelConfirmed;
    let ended = choose|ended: Result<RequestTerminalResponseView, ErrorView>| #[trigger]
        crate::service_steps::terminal_step(
            pre,
            caller_id,
            id,
            signal,
            Some(payload),
            post,
            ended,
        ) && r == crate::service_steps::cancel_response(ended);
    memory_terminal(pre, caller_id, id, signal, Some(payload), post, ended);
}

/// On the store in memory, ending the request of a turn is what the model says.
pub proof fn memory_terminal_in_turn(
    pre: &InMemoryCloudStateStore,
    turn_id: Seq<char>,
    signal: TerminalSignal,
    payload_inline: Option<Seq<char>>,
    post: &InMemoryCloudStateStore,
    r: Result<RequestTerminalResponseView, ErrorView>,
)
    requires
        pre.wf(),
        crate::service_steps::terminal_turn_step(pre, turn_id, signal, payload_inline, post, r),
    ensures
        pre@.terminal_in_turn(turn_id, signal, payload_inline, post@, r),
{
    pre.model_wf();
    let found = choose|found: Result<RequestView, ErrorView>| #[trigger]
        pre.read_request_by_turn_id_reply(turn_id, found) && match found {
            Err(error) => post == pre && r == Err::<RequestTerminalResponseView, ErrorView>(error),
            Ok(request) => crate::service_steps::terminal_step(
                pre,
                request.caller_id,
                request.request_id,
                signal,
                payload_inline,
                post,
                r,
            ),
        };
    if let Ok(request) = found {
        let id = choose|id: Seq<char>|
            pre@.in_turn(id, turn_id) && request == pre@.requests[id];
        assert(pre@.request_ok(id));
        memory_terminal(pre, request.caller_id, id, signal, payload_inline, post, r);
    }
}

/// On the store in memory, adding an event to the request of a turn is what the model says.
pub proof fn memory_event_in_turn(
    pre: &InMemoryCloudStateStore,
    turn_id: Seq<char>,
    event_type: Seq<char>,
    payload_inline: Seq<char>,
    post: &InMemoryCloudStateStore,
    r: Result<RequestEventView, ErrorView>,
)
    requires
        pre.wf(),
        crate::service_steps::event_turn_step(pre, turn_id, event_type, payload_inline, post, r),
    ensures
        pre@.event_in_turn(turn_id, event_type, payload_inline, post@, r),
{
    pre.model_wf();
    let found = choose|found: Result<RequestView, ErrorView>| #[trigger]
        pre.read_request_by_turn_id_reply(turn_id, found) && match found {
            Err(error) => post == pre && r == Err::<RequestEventView, ErrorView>(error),
            Ok(request) => exists|said: Result<EventView, ErrorView>| #[trigger]
                InMemoryCloudStateStore::append_request_event_step(
                    pre,
                    EventAppendView { request_id: request.request_id, event_type, payload_inline },
                    post,
                    said,
                ) && r == crate::service_steps::event_response(said),
        };
    if let Ok(request) = found {
        let id = choose|id: Seq<char>|
            pre@.in_turn(id, turn_id) && request == pre@.requests[id];
        assert(pre@.request_ok(id));
    }
}

/// On the store in memory, listing events is what the model says.
pub proof fn memory_events(
    store: &InMemoryCloudStateStore,
    caller_id: Seq<char>,
    id: Seq<char>,
    cursor: Option<u64>,
    limit: nat,
    r: Result<RequestEventsListResponseView, ErrorView>,
)
    requires
        crate::service_steps::events_reply(store, caller_id, id, cursor, limit, r),
    ensures
        r == store@.events_for(caller_id, id, cursor, limit),
{
}

/// On the store in memory, keeping the context of a request is what the model says.
pub proof fn memory_persist(
    pre: &InMemoryCloudStateStore,
    caller_id: Seq<char>,
    config: ConfigSnapshotView,
    metadata: StateMetadataView,
    post: &InMemoryCloudStateStore,
    r: Result<(), ErrorView>,
)
    requires
        crate::service_steps::persist_step(pre, caller_id, config, metadata, post, r),
    ensures
        (post@, r) == pre@.persist_for(caller_id, config, metadata),
{
}

} // verus!
