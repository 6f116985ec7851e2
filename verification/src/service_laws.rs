//! Laws of the request service, over the states of the store's model.
use vstd::prelude::*;

use crate::memory_store::InMemoryCloudStateStore;
use crate::model::StoreModel;
use crate::protocol::append::ThreadItemsListResponseView;
use crate::protocol::event::RequestEventsListResponseView;
use crate::protocol::request::{
    RequestCancelResponseView, RequestReadResponseView, RequestTerminalResponseView,
};
use crate::protocol::{AppendThreadItemsWithLeaseResponse, RequestStatus, TerminalSignal};
use crate::records::{
    ConfigSnapshotView, CreateRequestView, ErrorView, LeaseAppendView, RequestView,
    StateMetadataView,
};
use crate::service_model::memory_cancel;
use crate::service_steps::cancel_step;

verus! {

impl StoreModel {
    /// To everyone but its caller a request is not there: nothing of it can be read, and
    /// nothing that is asked for it changes the store.
    pub proof fn foreign_requests_are_not_found(
        self,
        caller_id: Seq<char>,
        id: Seq<char>,
        text: Seq<char>,
        cursor: Option<u64>,
        limit: nat,
        signal: TerminalSignal,
        payload_inline: Option<Seq<char>>,
        append: LeaseAppendView,
        config: ConfigSnapshotView,
        metadata: StateMetadataView,
    )
        requires
            self.requests.dom().contains(id),
            self.requests[id].caller_id != caller_id,
            append.request_id == id,
            config.request_id == id,
        ensures
            self.read_response(caller_id, id) == Err::<RequestReadResponseView, ErrorView>(
                ErrorView::RequestNotFound,
            ),
            self.events_for(caller_id, id, cursor, limit) == Err::<
                RequestEventsListResponseView,
                ErrorView,
            >(ErrorView::RequestNotFound),
            self.set_turn_for(caller_id, id, text) == (
                self,
                Err::<RequestView, ErrorView>(ErrorView::RequestNotFound),
            ),
            self.append_for(caller_id, text, append) == (
                self,
                Err::<AppendThreadItemsWithLeaseResponse, ErrorView>(ErrorView::RequestNotFound),
            ),
            self.terminal_for(caller_id, id, signal, payload_inline) == (
                self,
                Err::<RequestTerminalResponseView, ErrorView>(ErrorView::RequestNotFound),
            ),
            self.cancel_for(caller_id, id, payload_inline) == (
                self,
                Err::<RequestCancelResponseView, ErrorView>(ErrorView::RequestNotFound),
            ),
            self.persist_for(caller_id, config, metadata) == (
                self,
                Err::<(), ErrorView>(ErrorView::RequestNotFound),
            ),
    {
    }

    /// A caller that has no request on a thread cannot list its items.
    pub proof fn foreign_threads_are_not_found(
        self,
        caller_id: Seq<char>,
        thread_id: Seq<char>,
        cursor: Option<u64>,
        limit: nat,
    )
        requires
            forall|id: Seq<char>| !self.on_thread_of(id, caller_id, thread_id),
        ensures
            self.items_for(caller_id, thread_id, cursor, limit) == Err::<
                ThreadItemsListResponseView,
                ErrorView,
            >(ErrorView::RequestNotFound),
    {
    }

    /// An append that names another thread than that of the request is refused.
    pub proof fn append_to_another_thread_is_refused(
        self,
        caller_id: Seq<char>,
        thread_id: Seq<char>,
        params: LeaseAppendView,
    )
        requires
            self.read_for(caller_id, params.request_id) matches Ok(request) && request.thread_id
                != thread_id,
        ensures
            self.append_for(caller_id, thread_id, params) == (
                self,
                Err::<AppendThreadItemsWithLeaseResponse, ErrorView>(ErrorView::ThreadMismatch),
            ),
    {
    }

    /// Whether the store can number one more event on each request, and one more lease.
    pub open spec fn can_run(self) -> bool {
        &&& self.lease_count < u64::MAX
        &&& forall|id: Seq<char>| (#[trigger] self.events_of(id)).len() + 2 <= u64::MAX
    }

    /// Saying that a request waits, and starting it, keep the invariant.
    proof fn run_steps_wf(self, id: Seq<char>, caller_id: Seq<char>)
        requires
            self.wf(),
            self.can_run(),
            self.requests.dom().contains(id),
        ensures
            self.announced(id).wf(),
            self.announced(id).started(id, caller_id).wf(),
            self.announced(id).requests[id].latest_event_cursor > 0,
    {
        let queued = crate::service_steps::queued_event(id);
        let running = crate::service_steps::running_event(id);
        assert(self.request_ok(id));
        assert(self.events_of(id).len() + 2 <= u64::MAX);
        let announced = self.announced(id);
        if self.requests[id].latest_event_cursor == 0 {
            self.with_event_wf(queued);
        }
        assert(announced.events_of(id).len() < u64::MAX);
        announced.acquire_thread_writer_lease_wf(id, caller_id);
        let taken = announced.acquire_thread_writer_lease(id, caller_id).0;
        assert(taken.events_of(id) == announced.events_of(id));
        if announced.started(id, caller_id) != announced {
            taken.with_event_wf(running);
        }
    }

    /// The request that `run` creates or finds is in the store, under its key.
    proof fn created_is_keyed(self, params: CreateRequestView)
        requires
            self.wf(),
            self.create_request(params).1 is Ok,
        ensures
            ({
                let (state, r) = self.create_request(params);
                &&& state.keyed(
                    r->Ok_0.request_id,
                    params.caller_id,
                    params.thread_id,
                    params.idempotency_key,
                )
                &&& state.requests[r->Ok_0.request_id] == r->Ok_0
                &&& r->Ok_0.input_hash == params.input_hash
            }),
    {
        if exists|other: Seq<char>|
            self.keyed(other, params.caller_id, params.thread_id, params.idempotency_key) {
            let other = choose|other: Seq<char>|
                self.keyed(other, params.caller_id, params.thread_id, params.idempotency_key);
            assert(self.request_ok(other));
        }
    }

    /// Running the same request twice is running it once: the second time nothing changes,
    /// and the answer is the same.
    pub proof fn run_is_idempotent(self, params: CreateRequestView)
        requires
            self.wf(),
            self.can_run(),
            self.run(params).1 is Ok,
        ensures
            self.run(params).0.run(params) == self.run(params),
    {
        let (recorded, created) = self.create_request(params);
        let id = created->Ok_0.request_id;
        self.create_request_wf(params);
        self.created_is_keyed(params);
        assert forall|x: Seq<char>| (#[trigger] recorded.events_of(x)).len() + 2 <= u64::MAX by {
            assert(recorded.events_of(x) == self.events_of(x));
        }
        recorded.run_steps_wf(id, params.caller_id);
        let announced = recorded.announced(id);
        let state = announced.started(id, params.caller_id);
        assert(state.request_ok(id));
        assert(state.keyed(id, params.caller_id, params.thread_id, params.idempotency_key));
        state.repeated_request_is_found(id, params);
        assert(state.requests[id].latest_event_cursor > 0) by {
            assert(announced.requests[id].latest_event_cursor > 0);
            assert(state.events_of(id).len() >= announced.events_of(id).len());
            assert(announced.request_ok(id));
        }
        assert(state.announced(id) == state);
        assert(state.started(id, params.caller_id) == state);
    }

    /// `run` fails only where the key was used for another input.
    pub proof fn run_fails_only_on_a_reused_key(self, params: CreateRequestView)
        requires
            self.wf(),
        ensures
            self.run(params).1 is Err <==> exists|id: Seq<char>|
                self.keyed(id, params.caller_id, params.thread_id, params.idempotency_key)
                    && self.requests[id].input_hash != params.input_hash,
            self.run(params).1 matches Err(error) ==> error == ErrorView::IdempotencyConflict
                && self.run(params).0 == self,
    {
        if exists|id: Seq<char>|
            self.keyed(id, params.caller_id, params.thread_id, params.idempotency_key) {
            let id = choose|id: Seq<char>|
                self.keyed(id, params.caller_id, params.thread_id, params.idempotency_key);
            assert forall|other: Seq<char>|
                self.keyed(
                    other,
                    params.caller_id,
                    params.thread_id,
                    params.idempotency_key,
                ) implies
                other == id by {
                assert(self.requests.dom().contains(other) && self.requests.dom().contains(id));
            }
        }
    }

    /// A request that runs is answered with the lease that it holds for its caller; one that
    /// does not run is answered without a lease.
    pub proof fn run_answers_with_the_lease(self, params: CreateRequestView)
        requires
            self.wf(),
            self.can_run(),
            self.run(params).1 is Ok,
        ensures
            ({
                let (state, r) = self.run(params);
                let id = r->Ok_0.request.request_id;
                &&& state.wf()
                &&& state.keyed(
                    id,
                    params.caller_id,
                    params.thread_id,
                    params.idempotency_key,
                )
                &&& r->Ok_0.request == state.requests[id].to_protocol()
                &&& r->Ok_0.thread_id == params.thread_id
                &&& r->Ok_0.event_cursor == state.events_of(id).len()
                &&& r->Ok_0.writer_lease is Some <==> state.requests[id].status
                    == RequestStatus::Running
                &&& r->Ok_0.writer_lease is Some ==> state.holds_lease(id)
                    && r->Ok_0.writer_lease->0.fencing_token
                    == state.leases[params.thread_id].fencing_token
                    && r->Ok_0.writer_lease->0.lease_id == state.leases[params.thread_id].lease_id
            }),
    {
        let (recorded, created) = self.create_request(params);
        let id = created->Ok_0.request_id;
        self.create_request_wf(params);
        self.created_is_keyed(params);
        assert forall|x: Seq<char>| (#[trigger] recorded.events_of(x)).len() + 2 <= u64::MAX by {
            assert(recorded.events_of(x) == self.events_of(x));
        }
        recorded.run_steps_wf(id, params.caller_id);
        let state = recorded.announced(id).started(id, params.caller_id);
        assert(state.requests.dom().contains(id));
        assert(state.request_ok(id));
    }

    /// A new request on a free thread starts at once; its events say that it waited and that
    /// it runs.
    pub proof fn new_request_on_a_free_thread_runs(self, params: CreateRequestView)
        requires
            self.wf(),
            self.can_run(),
            forall|id: Seq<char>|
                !self.keyed(id, params.caller_id, params.thread_id, params.idempotency_key),
            !self.leases.dom().contains(params.thread_id),
        ensures
            ({
                let (state, r) = self.run(params);
                let id = r->Ok_0.request.request_id;
                &&& r is Ok
                &&& r->Ok_0.request.status == RequestStatus::Running
                &&& state.events_of(id).len() == 2
                &&& state.events_of(id)[0].event_type == "request/queued"@
                &&& state.events_of(id)[1].event_type == "request/running"@
                &&& r->Ok_0.event_cursor == 2
                &&& r->Ok_0.writer_lease is Some
            }),
    {
        self.run_answers_with_the_lease(params);
        self.next_request_id_is_new();
        let (recorded, created) = self.create_request(params);
        let id = created->Ok_0.request_id;
        assert(!self.events.dom().contains(id));
        assert(recorded.events_of(id) =~= Seq::empty());
    }

    /// A new request on a thread whose lease is held waits.
    pub proof fn new_request_on_a_busy_thread_waits(self, params: CreateRequestView)
        requires
            self.wf(),
            self.can_run(),
            forall|id: Seq<char>|
                !self.keyed(id, params.caller_id, params.thread_id, params.idempotency_key),
            self.leases.dom().contains(params.thread_id),
        ensures
            ({
                let (state, r) = self.run(params);
                &&& r is Ok
                &&& r->Ok_0.request.status == RequestStatus::Queued
                &&& r->Ok_0.event_cursor == 1
                &&& r->Ok_0.writer_lease is None
                &&& state.leases == self.leases
            }),
    {
        self.run_answers_with_the_lease(params);
        self.next_request_id_is_new();
        let (recorded, created) = self.create_request(params);
        let id = created->Ok_0.request_id;
        assert(!self.events.dom().contains(id));
        assert(recorded.events_of(id) =~= Seq::empty());
    }

    /// A signal for a request that is over changes nothing and is answered with the request
    /// as it ended, whatever the signal and its payload.
    pub proof fn signal_after_the_end_changes_nothing(
        self,
        id: Seq<char>,
        signal: TerminalSignal,
        payload_inline: Option<Seq<char>>,
    )
        requires
            self.requests.dom().contains(id),
            self.requests[id].status.terminal(),
        ensures
            self.terminal_for(self.requests[id].caller_id, id, signal, payload_inline) == (
                self,
                Ok::<RequestTerminalResponseView, ErrorView>(self.terminal_answer(id)),
            ),
    {
    }

    /// A signal that takes effect gives the request its status, adds the event of that status
    /// as the last one, and frees the thread.
    pub proof fn signal_ends_the_request(
        self,
        id: Seq<char>,
        signal: TerminalSignal,
        payload_inline: Option<Seq<char>>,
    )
        requires
            self.wf(),
            self.requests.dom().contains(id),
            !self.requests[id].status.terminal(),
            self.events_of(id).len() < u64::MAX,
            self.terminal_for(self.requests[id].caller_id, id, signal, payload_inline).1 is Ok,
        ensures
            ({
                let (state, r) = self.terminal_for(
                    self.requests[id].caller_id,
                    id,
                    signal,
                    payload_inline,
                );
                &&& state.wf()
                &&& r->Ok_0.request.status == signal.status()
                &&& r->Ok_0.latest_event_cursor == self.events_of(id).len() + 1
                &&& state.events_of(id).len() == self.events_of(id).len() + 1
                &&& state.events_of(id).last().event_type
                    == crate::service_steps::terminal_event_type(signal.status())
                &&& !state.holds_lease(id)
            }),
    {
        let event = crate::service_steps::terminal_event(id, signal, payload_inline);
        let ended = self.ended(id, signal.status());
        self.ended_wf(id, signal.status());
        assert(ended.events_of(id) == self.events_of(id));
        ended.with_event_wf(event);
        let state = self.signalled(id, signal, payload_inline);
        assert(state.requests.dom().contains(id));
    }

    /// A cancellation that takes effect is recorded with its reason as the payload.
    pub proof fn cancellation_is_recorded(self, id: Seq<char>, reason: Option<Seq<char>>)
        requires
            self.requests.dom().contains(id),
            !self.requests[id].status.terminal(),
        ensures
            ({
                let (state, r) = self.cancel_for(self.requests[id].caller_id, id, reason);
                let event = state.events_of(id).last();
                &&& state.events_of(id).len() == self.events_of(id).len() + 1
                &&& event.event_type == "request/cancelled"@
                &&& event.payload_inline == crate::service_steps::cancel_payload(reason)
            }),
    {
        let state = self.cancel_for(self.requests[id].caller_id, id, reason).0;
        assert(state.events_of(id).len() == self.events_of(id).len() + 1);
    }

    /// A cancellation is not refused for its reason.
    pub proof fn cancel_always_answers_its_caller(self, id: Seq<char>, reason: Option<Seq<char>>)
        requires
            self.requests.dom().contains(id),
        ensures
            ({
                let (state, r) = self.cancel_for(self.requests[id].caller_id, id, reason);
                &&& r is Ok
                &&& r->Ok_0.request.status == if self.requests[id].status.terminal() {
                    self.requests[id].status
                } else {
                    RequestStatus::Cancelled
                }
            }),
    {
    }
}

/// What is recorded of a cancellation reads back to the reason that was given for it.
pub proof fn recorded_reason_reads_back(
    pre: &InMemoryCloudStateStore,
    caller_id: Seq<char>,
    id: Seq<char>,
    reason: Seq<char>,
    post: &InMemoryCloudStateStore,
    r: Result<RequestCancelResponseView, ErrorView>,
)
    requires
        pre@.read_for(caller_id, id) matches Ok(request) && !request.status.terminal(),
        cancel_step(pre, caller_id, id, Some(reason), post, r),
    ensures
        crate::json::json_reason(post@.events_of(id).last().payload_inline) == Some(reason),
{
    memory_cancel(pre, caller_id, id, Some(reason), post, r);
    pre@.cancellation_is_recorded(id, Some(reason));
}

} // verus!
