//! What each operation does to a store, in terms of what can be read of it.
use vstd::prelude::*;

use crate::laws::Operation;
use crate::memory_store::InMemoryCloudStateStore;
use crate::model::StoreModel;
use crate::protocol::{AppendThreadItemsWithLeaseResponse, RequestStatus, TerminalSignal};
use crate::records::{
    ConfigSnapshotView, CreateRequestView, ErrorView, EventAppendView, EventView, LeaseAcquireView,
    LeaseAppendView, RequestView, StateMetadataView, TerminalStatusUpdate,
};
use crate::request_store::CloudStateStore;
use crate::service_steps::list_limit;

verus! {

impl StoreModel {
    /// A new request is recorded as it was asked for: it waits, has no turn and no events, and
    /// nothing else changes.
    pub proof fn new_request_is_as_asked(self, params: CreateRequestView)
        requires
            self.wf(),
            forall|id: Seq<char>|
                !self.keyed(id, params.caller_id, params.thread_id, params.idempotency_key),
        ensures
            ({
                let (state, r) = self.create_request(params);
                let id = r->Ok_0.request_id;
                &&& r is Ok
                &&& state.requests.dom() == self.requests.dom().insert(id)
                &&& state.requests[id].caller_id == params.caller_id
                &&& state.requests[id].thread_id == params.thread_id
                &&& state.requests[id].idempotency_key == params.idempotency_key
                &&& state.requests[id].input_hash == params.input_hash
                &&& state.requests[id].turn_id is None
                &&& state.requests[id].status == RequestStatus::Queued
                &&& state.requests[id].latest_event_cursor == 0
                &&& state.events_of(id).len() == 0
                &&& state.request_count == self.request_count + 1
                &&& id == "request-"@ + crate::text::decimal(state.request_count)
                &&& state.leases == self.leases
                &&& state.events == self.events
                &&& state.items == self.items
                &&& state.appends == self.appends
                &&& state.lease_count == self.lease_count
            }),
    {
        self.next_request_id_is_new();
        let (state, r) = self.create_request(params);
        let id = r->Ok_0.request_id;
        assert(!self.events.dom().contains(id));
        assert(state.requests.dom() =~= self.requests.dom().insert(id));
    }

    /// A key is taken by one caller on one thread: the same key of another caller, or on
    /// another thread, gives a request of its own.
    pub proof fn keys_are_of_a_caller_and_thread(
        self,
        params: CreateRequestView,
        other: CreateRequestView,
    )
        requires
            self.wf(),
            other.caller_id != params.caller_id || other.thread_id != params.thread_id
                || other.idempotency_key != params.idempotency_key,
            forall|id: Seq<char>|
                !self.keyed(id, other.caller_id, other.thread_id, other.idempotency_key),
            self.create_request(params).1 is Ok,
        ensures
            ({
                let (state, r) = self.create_request(params);
                let (later, other_r) = state.create_request(other);
                &&& other_r is Ok
                &&& other_r->Ok_0.request_id != r->Ok_0.request_id
                &&& later.read_request(r->Ok_0.request_id) == state.read_request(
                    r->Ok_0.request_id,
                )
            }),
    {
        let (state, r) = self.create_request(params);
        self.create_request_wf(params);
        assert forall|id: Seq<char>|
            !state.keyed(id, other.caller_id, other.thread_id, other.idempotency_key) by {
            assert(!self.keyed(id, other.caller_id, other.thread_id, other.idempotency_key));
        }
        state.next_request_id_is_new();
        if exists|id: Seq<char>|
            self.keyed(id, params.caller_id, params.thread_id, params.idempotency_key) {
            let id = choose|id: Seq<char>|
                self.keyed(id, params.caller_id, params.thread_id, params.idempotency_key);
            assert(self.request_ok(id));
        }
        assert(state.requests.dom().contains(r->Ok_0.request_id));
    }

    /// A request is read exactly if it was recorded, under its identifier.
    pub proof fn requests_are_read_by_identifier(self, id: Seq<char>)
        requires
            self.wf(),
        ensures
            self.requests.dom().contains(id) ==> self.read_request(id) == Ok::<
                RequestView,
                ErrorView,
            >(self.requests[id]) && self.requests[id].request_id == id,
            !self.requests.dom().contains(id) ==> self.read_request(id) == Err::<
                RequestView,
                ErrorView,
            >(ErrorView::RequestNotFound),
    {
        if self.requests.dom().contains(id) {
            assert(self.request_ok(id));
        }
    }

    /// Noting a turn changes the turn of that request and nothing else; it stays noted until
    /// another turn is.
    pub proof fn noted_turn_is_read(self, id: Seq<char>, turn_id: Seq<char>, other: Seq<char>)
        ensures
            ({
                let (state, r) = self.set_request_turn_id(id, turn_id);
                if self.requests.dom().contains(id) {
                    &&& r == state.read_request(id)
                    &&& state.requests.dom() == self.requests.dom()
                    &&& state.requests[id].turn_id == Some(turn_id)
                    &&& state.requests[id].status == self.requests[id].status
                    &&& state.requests[id].request_id == self.requests[id].request_id
                    &&& state.requests[id].caller_id == self.requests[id].caller_id
                    &&& state.requests[id].thread_id == self.requests[id].thread_id
                    &&& state.requests[id].idempotency_key == self.requests[id].idempotency_key
                    &&& state.requests[id].input_hash == self.requests[id].input_hash
                    &&& state.requests[id].latest_event_cursor
                        == self.requests[id].latest_event_cursor
                    &&& other != id ==> state.read_request(other) == self.read_request(other)
                    &&& state.events == self.events
                    &&& state.items == self.items
                    &&& state.leases == self.leases
                } else {
                    state == self && r == Err::<RequestView, ErrorView>(ErrorView::RequestNotFound)
                }
            }),
    {
        let state = self.set_request_turn_id(id, turn_id).0;
        if self.requests.dom().contains(id) {
            assert(state.requests.dom() =~= self.requests.dom());
        }
    }

    /// No operation but the one that notes a turn for a request changes its turn.
    pub proof fn turn_stays_noted(self, operation: Operation, id: Seq<char>)
        requires
            self.wf(),
            self.requests.dom().contains(id),
            !(operation matches Operation::SetRequestTurnId(noted, _) && noted == id),
        ensures
            self.after(operation).requests.dom().contains(id),
            self.after(operation).requests[id].turn_id == self.requests[id].turn_id,
    {
        match operation {
            Operation::CreateRequest(params) => {
                self.next_request_id_is_new();
            },
            Operation::SetRequestTurnId(noted, turn_id) => {},
            Operation::AcquireThreadWriterLease(noted, owner) => {},
            Operation::RenewRequestLeases(noted, owner) => {
                let lost = self.ended(noted, RequestStatus::LeaseLost);
                assert(lost.requests.dom().contains(id) || !self.requests.dom().contains(noted));
            },
            Operation::AppendThreadItemsWithLease(params) => {},
            Operation::MarkRequestTerminal(noted, status) => {},
            Operation::MarkRequestTerminalWithEvent(event, status) => {
                let ended = self.ended(event.request_id, status);
                assert(self.requests.dom().contains(event.request_id)
                    ==> ended.requests[id].turn_id == self.requests[id].turn_id);
            },
            Operation::AppendRequestEvent(event) => {},
            Operation::AppendRequestEventIfLatestCursor(event, expected) => {},
            Operation::PersistConfigSnapshot(record) => {},
            Operation::UpsertStateMetadata(record) => {},
        }
    }

    /// A request takes the lease of its thread exactly if it waits and no lease is held there.
    /// The lease is that of the request, for the owner that took it, under a number of its
    /// own; the answer says which. Nothing else changes but that the request runs.
    pub proof fn lease_is_taken_by_the_request(self, id: Seq<char>, owner: Seq<char>)
        requires
            self.wf(),
            self.requests.dom().contains(id),
            self.lease_count < u64::MAX,
        ensures
            ({
                let (state, r) = self.acquire_thread_writer_lease(id, owner);
                let thread_id = self.requests[id].thread_id;
                if self.leases.dom().contains(thread_id) {
                    state == self && r == Ok::<LeaseAcquireView, ErrorView>(
                        LeaseAcquireView::Queued,
                    )
                } else if self.requests[id].status != RequestStatus::Queued {
                    state == self && r == Err::<LeaseAcquireView, ErrorView>(
                        ErrorView::RequestNotQueued,
                    )
                } else {
                    &&& r matches Ok(LeaseAcquireView::Acquired { lease_id, fencing_token })
                    &&& fencing_token == self.lease_count + 1
                    &&& lease_id == "lease-"@ + crate::text::decimal(fencing_token as nat)
                    &&& state.lease_count == self.lease_count + 1
                    &&& state.leases.dom() == self.leases.dom().insert(thread_id)
                    &&& state.leases[thread_id].request_id == id
                    &&& state.leases[thread_id].owner_instance_id == owner
                    &&& state.leases[thread_id].lease_id == lease_id
                    &&& state.leases[thread_id].fencing_token == fencing_token
                    &&& state.requests[id].status == RequestStatus::Running
                    &&& state.requests[id].latest_event_cursor
                        == self.requests[id].latest_event_cursor
                    &&& state.events == self.events
                    &&& state.items == self.items
                    &&& state.appends == self.appends
                    &&& forall|x: Seq<char>| x != id ==> #[trigger] state.read_request(x)
                        == self.read_request(x)
                    &&& forall|t: Seq<char>| t != thread_id && #[trigger]
                        self.leases.dom().contains(t) ==> state.leases[t] == self.leases[t]
                }
            }),
    {
        let state = self.acquire_thread_writer_lease(id, owner).0;
        let thread_id = self.requests[id].thread_id;
        if !self.leases.dom().contains(thread_id) && self.requests[id].status
            == RequestStatus::Queued {
            assert(state.leases.dom() =~= self.leases.dom().insert(thread_id));
        }
    }

    /// The lease under which a request writes is read by that request alone, as it was taken.
    pub proof fn lease_is_read_by_its_request(self, id: Seq<char>)
        ensures
            match self.read_thread_writer_lease(id) {
                Err(error) => error == ErrorView::RequestNotFound
                    && !self.requests.dom().contains(id),
                Ok(None) => self.requests.dom().contains(id) && !(self.leases.dom().contains(
                    self.requests[id].thread_id,
                ) && self.leases[self.requests[id].thread_id].request_id == id),
                Ok(Some(lease)) => {
                    let held = self.leases[self.requests[id].thread_id];
                    &&& self.requests.dom().contains(id)
                    &&& self.leases.dom().contains(self.requests[id].thread_id)
                    &&& held.request_id == id
                    &&& lease.lease_id == held.lease_id
                    &&& lease.writer_owner_token == held.owner_instance_id
                    &&& lease.fencing_token == held.fencing_token
                },
            },
    {
    }

    /// A lease that was taken is read back as it was answered, for the owner that took it.
    pub proof fn taken_lease_is_read_back(self, id: Seq<char>, owner: Seq<char>)
        requires
            self.wf(),
            self.acquire_thread_writer_lease(id, owner).1 matches Ok(outcome)
                && outcome is Acquired,
        ensures
            ({
                let (state, r) = self.acquire_thread_writer_lease(id, owner);
                &&& state.read_thread_writer_lease(id) matches Ok(Some(lease))
                &&& lease.lease_id == r->Ok_0->lease_id
                &&& lease.fencing_token == r->Ok_0->fencing_token
                &&& lease.writer_owner_token == owner
            }),
    {
    }

    /// Renewing answers whether the owner still holds the lease of a request that is not over.
    /// If not, the request is over: its lease is lost, and an event says so and why.
    pub proof fn renewal_tells_the_owner(self, id: Seq<char>, owner: Seq<char>)
        requires
            self.wf(),
            self.requests.dom().contains(id),
            self.events_of(id).len() < u64::MAX,
        ensures
            ({
                let (state, r) = self.renew_request_leases(id, owner);
                let status = self.requests[id].status;
                let thread_id = self.requests[id].thread_id;
                let over = status != RequestStatus::Queued && status != RequestStatus::Running
                    && status != RequestStatus::Cancelling;
                let held = self.leases.dom().contains(thread_id)
                    && self.leases[thread_id].request_id == id
                    && self.leases[thread_id].owner_instance_id == owner;
                &&& r == Ok::<bool, ErrorView>(!over && held)
                &&& over || held ==> state == self
                &&& !over && !held ==> {
                    let event = state.events_of(id).last();
                    &&& state.requests[id].status == RequestStatus::LeaseLost
                    &&& state.events_of(id) == self.events_of(id).push(event)
                    &&& event.event_type == "request/lease_lost"@
                    &&& event.payload_inline == "{\"reason\":\"thread_writer_lease_lost\"}"@
                    &&& event.sequence == state.requests[id].latest_event_cursor
                    &&& event.request_id == id
                    &&& !(state.leases.dom().contains(thread_id)
                        && state.leases[thread_id].request_id == id)
                    &&& state.items == self.items
                    &&& forall|x: Seq<char>| x != id ==> #[trigger] state.read_request(x)
                        == self.read_request(x) && state.events_of(x) == self.events_of(x)
                }
            }),
            self.renew_request_leases(id, owner).1 is Ok,
    {
        let state = self.renew_request_leases(id, owner).0;
        assert(self.request_ok(id));
        if state != self {
            assert(state.events_of(id) =~= self.events_of(id).push(state.events_of(id).last()));
        }
    }

    /// Only the writer that names the lease which its request holds on the thread, with its
    /// owner and its fencing token, is let through; only with something to append; and only a
    /// new key at the expected version adds anything.
    pub proof fn append_is_accepted_from_the_writer(self, params: LeaseAppendView)
        requires
            self.wf(),
        ensures
            ({
                let (state, r) = self.append_thread_items_with_lease(params);
                let id = params.request_id;
                let thread_id = self.requests[id].thread_id;
                let key = (thread_id, params.append_idempotency_key);
                let lease = self.leases[thread_id];
                let writes = self.leases.dom().contains(thread_id) && lease.request_id == id
                    && lease.lease_id == params.lease_id && lease.owner_instance_id
                    == params.writer_owner_token && lease.fencing_token == params.fencing_token;
                &&& params.payload_refs.len() == 0 ==> state == self && r == Err::<
                    AppendThreadItemsWithLeaseResponse,
                    ErrorView,
                >(ErrorView::EmptyAppend)
                &&& params.payload_refs.len() > 0 && !self.requests.dom().contains(id) ==> state
                    == self && r == Err::<AppendThreadItemsWithLeaseResponse, ErrorView>(
                    ErrorView::RequestNotFound,
                )
                &&& params.payload_refs.len() > 0 && self.requests.dom().contains(id) && !writes
                    ==> r == Err::<AppendThreadItemsWithLeaseResponse, ErrorView>(
                    ErrorView::LeaseLost,
                ) && state.items == self.items
                &&& params.payload_refs.len() > 0 && self.requests.dom().contains(id) && writes ==> {
                    &&& self.appends.dom().contains(key) ==> state == self
                    &&& !self.appends.dom().contains(key) && (
                    params.expected_thread_version matches Some(v) && v != self.items_of(
                        thread_id,
                    ).len()) ==> state == self && r == Err::<
                        AppendThreadItemsWithLeaseResponse,
                        ErrorView,
                    >(ErrorView::ThreadVersionConflict)
                    &&& !self.appends.dom().contains(key) && (
                    params.expected_thread_version matches Some(v) ==> v == self.items_of(
                        thread_id,
                    ).len()) ==> r is Ok
                }
            }),
    {
    }

    /// The version that an append answers with is the number of items that the thread then
    /// has; of the next new appends, those that expect a version get through only with it.
    pub proof fn answered_version_is_the_next_expected(
        self,
        params: LeaseAppendView,
        next: LeaseAppendView,
    )
        requires
            self.wf(),
            self.append_thread_items_with_lease(params).1 matches Ok(made) && !made.deduplicated,
            self.items_of(self.requests[params.request_id].thread_id).len()
                + params.payload_refs.len() <= u64::MAX,
            next.request_id == params.request_id,
            next.lease_id == params.lease_id,
            next.writer_owner_token == params.writer_owner_token,
            next.fencing_token == params.fencing_token,
            next.payload_refs.len() > 0,
            next.append_idempotency_key != params.append_idempotency_key,
            !self.appends.dom().contains(
                (self.requests[params.request_id].thread_id, next.append_idempotency_key),
            ),
        ensures
            ({
                let (state, r) = self.append_thread_items_with_lease(params);
                let thread_id = self.requests[params.request_id].thread_id;
                let items = state.items_of(thread_id);
                let made = r->Ok_0;
                &&& made.thread_version == items.len()
                &&& items.len() == self.items_of(thread_id).len() + params.payload_refs.len()
                &&& made.last_append_sequence == items.last().sequence
                &&& made.first_append_sequence == items[items.len()
                    - params.payload_refs.len()].sequence
                &&& state.append_thread_items_with_lease(next).1 is Ok <==> (
                next.expected_thread_version matches Some(v) ==> v == made.thread_version)
            }),
    {
        let state = self.append_thread_items_with_lease(params).0;
        let thread_id = self.requests[params.request_id].thread_id;
        assert(self.lease_matches(params));
        self.with_items_wf(params);
        assert(crate::invariants::items_numbered(thread_id, state.items_of(thread_id)));
        assert(state.lease_matches(next));
    }

    /// An append is remembered as it was answered, by the request that made it, with what it
    /// appended.
    pub proof fn append_is_remembered(self, params: LeaseAppendView)
        requires
            self.append_thread_items_with_lease(params).1 matches Ok(made) && !made.deduplicated,
            self.wf(),
        ensures
            ({
                let (state, r) = self.append_thread_items_with_lease(params);
                let thread_id = self.requests[params.request_id].thread_id;
                let kept = state.appends[(thread_id, params.append_idempotency_key)];
                &&& state.appends.dom().contains((thread_id, params.append_idempotency_key))
                &&& !self.appends.dom().contains((thread_id, params.append_idempotency_key))
                &&& kept.request_id == params.request_id
                &&& kept.payload_refs == Some(params.payload_refs)
                &&& kept.response.thread_version == r->Ok_0.thread_version
                &&& kept.response.first_append_sequence == r->Ok_0.first_append_sequence
                &&& kept.response.last_append_sequence == r->Ok_0.last_append_sequence
                &&& state.requests == self.requests
                &&& state.leases == self.leases
                &&& state.events == self.events
            }),
    {
    }

    /// Ending a request gives it the status, unless it is over; its lease goes, other requests
    /// and all events stay. The answer tells whether the status changed.
    pub proof fn ending_without_an_event(self, id: Seq<char>, status: RequestStatus)
        requires
            self.wf(),
            status.terminal(),
        ensures
            ({
                let (state, r) = self.mark_request_terminal(id, status);
                let before = self.requests[id].status;
                let active = before == RequestStatus::Queued || before == RequestStatus::Running
                    || before == RequestStatus::Cancelling;
                if !self.requests.dom().contains(id) {
                    state == self && r == Err::<TerminalStatusUpdate, ErrorView>(
                        ErrorView::RequestNotFound,
                    )
                } else {
                    &&& r == Ok::<TerminalStatusUpdate, ErrorView>(
                        if active {
                            TerminalStatusUpdate::Changed
                        } else {
                            TerminalStatusUpdate::Unchanged
                        },
                    )
                    &&& state.requests[id].status == if active {
                        status
                    } else {
                        before
                    }
                    &&& !state.holds_lease(id)
                    &&& state.requests[id].turn_id == self.requests[id].turn_id
                    &&& state.requests[id].latest_event_cursor
                        == self.requests[id].latest_event_cursor
                    &&& state.events == self.events
                    &&& state.items == self.items
                    &&& forall|x: Seq<char>| x != id ==> #[trigger] state.read_request(x)
                        == self.read_request(x)
                }
            }),
    {
    }

    /// Ending a request with an event does both or nothing: a payload that is not JSON, an
    /// unknown request and one that is over change nothing.
    pub proof fn ending_with_an_event(self, event: EventAppendView, status: RequestStatus)
        requires
            self.wf(),
            status.terminal(),
            self.events_of(event.request_id).len() < u64::MAX,
        ensures
            ({
                let (state, r) = self.mark_request_terminal_with_event(event, status);
                let id = event.request_id;
                let before = self.requests[id].status;
                let active = before == RequestStatus::Queued || before == RequestStatus::Running
                    || before == RequestStatus::Cancelling;
                let last = state.events_of(id).last();
                if !crate::json::json_valid(event.payload_inline) {
                    state == self && r == Err::<TerminalStatusUpdate, ErrorView>(
                        ErrorView::InvalidEventPayload,
                    )
                } else if !self.requests.dom().contains(id) {
                    state == self && r == Err::<TerminalStatusUpdate, ErrorView>(
                        ErrorView::RequestNotFound,
                    )
                } else if !active {
                    state == self && r == Ok::<TerminalStatusUpdate, ErrorView>(
                        TerminalStatusUpdate::Unchanged,
                    )
                } else {
                    &&& r == Ok::<TerminalStatusUpdate, ErrorView>(TerminalStatusUpdate::Changed)
                    &&& state.requests[id].status == status
                    &&& state.requests[id].turn_id == self.requests[id].turn_id
                    &&& state.events_of(id) == self.events_of(id).push(last)
                    &&& last.request_id == id
                    &&& last.event_type == event.event_type
                    &&& last.payload_inline == event.payload_inline
                    &&& last.sequence == self.events_of(id).len() + 1
                    &&& state.requests[id].latest_event_cursor == last.sequence
                    &&& !state.holds_lease(id)
                    &&& state.items == self.items
                    &&& forall|x: Seq<char>| x != id ==> #[trigger] state.read_request(x)
                        == self.read_request(x) && state.events_of(x) == self.events_of(x)
                }
            }),
    {
        let state = self.mark_request_terminal_with_event(event, status).0;
        let id = event.request_id;
        if state != self {
            assert(state.events_of(id) =~= self.events_of(id).push(state.events_of(id).last()));
        }
    }

    /// An event that is added stands after the others of its request, as it was given, under
    /// the next number; with an expected cursor it is added exactly if that is the cursor.
    pub proof fn event_is_added_at_the_end(self, event: EventAppendView, expected: u64)
        requires
            self.wf(),
            self.events_of(event.request_id).len() < u64::MAX,
            crate::json::json_valid(event.payload_inline),
        ensures
            ({
                let id = event.request_id;
                let (state, r) = self.append_request_event(event);
                let (later, tried) = self.append_request_event_if_latest_cursor(event, expected);
                if !self.requests.dom().contains(id) {
                    &&& state == self && later == self
                    &&& r == Err::<EventView, ErrorView>(ErrorView::RequestNotFound)
                    &&& tried == Err::<Option<EventView>, ErrorView>(ErrorView::RequestNotFound)
                } else {
                    &&& r matches Ok(added)
                    &&& added.request_id == id
                    &&& added.event_type == event.event_type
                    &&& added.payload_inline == event.payload_inline
                    &&& added.sequence == self.events_of(id).len() + 1
                    &&& state.events_of(id) == self.events_of(id).push(added)
                    &&& state.requests[id].latest_event_cursor == added.sequence
                    &&& state.requests[id].status == self.requests[id].status
                    &&& state.leases == self.leases
                    &&& state.items == self.items
                    &&& forall|x: Seq<char>| x != id ==> #[trigger] state.read_request(x)
                        == self.read_request(x) && state.events_of(x) == self.events_of(x)
                    &&& expected == self.events_of(id).len() ==> later == state && tried == Ok::<
                        Option<EventView>,
                        ErrorView,
                    >(Some(added))
                    &&& expected != self.events_of(id).len() ==> later == self && tried == Ok::<
                        Option<EventView>,
                        ErrorView,
                    >(None)
                }
            }),
    {
        if self.requests.dom().contains(event.request_id) {
            assert(self.request_ok(event.request_id));
        }
    }

    /// A configuration is kept exactly for a request on its own thread and if it is JSON; a
    /// refusal tells why, in that order, and keeps what was there.
    pub proof fn configuration_is_kept_or_refused(self, record: ConfigSnapshotView)
        ensures
            ({
                let (state, r) = self.persist_config_snapshot(record);
                let id = record.request_id;
                if !self.requests.dom().contains(id) {
                    state == self && r == Err::<(), ErrorView>(ErrorView::RequestNotFound)
                } else if self.requests[id].thread_id != record.thread_id {
                    state == self && r == Err::<(), ErrorView>(ErrorView::ThreadMismatch)
                } else if !crate::json::json_valid(record.config_json) {
                    state == self && r matches Err(ErrorView::Storage(_))
                } else {
                    &&& r is Ok
                    &&& state.configs[id].config_json == record.config_json
                    &&& state.configs[id].thread_id == record.thread_id
                    &&& state.configs[id].request_id == id
                    &&& forall|x: Seq<char>| x != id ==> #[trigger] state.read_config_snapshot(x)
                        == self.read_config_snapshot(x)
                    &&& state.requests == self.requests
                }
            }),
    {
    }

    /// Metadata is kept exactly if it is JSON.
    pub proof fn metadata_is_kept_or_refused(self, record: StateMetadataView)
        ensures
            ({
                let (state, r) = self.upsert_state_metadata(record);
                if crate::json::json_valid(record.payload_json) {
                    &&& r is Ok
                    &&& state.metadata[(record.thread_id, record.kind)].payload_json
                        == record.payload_json
                    &&& state.requests == self.requests
                } else {
                    state == self && r matches Err(ErrorView::Storage(_))
                }
            }),
            forall|t: Seq<char>, k: Seq<char>|
                !self.metadata.dom().contains((t, k)) ==> #[trigger] self.read_state_metadata(t, k)
                    == Err::<StateMetadataView, ErrorView>(ErrorView::RequestNotFound),
            forall|id: Seq<char>|
                !self.configs.dom().contains(id) ==> #[trigger] self.read_config_snapshot(id)
                    == Err::<ConfigSnapshotView, ErrorView>(ErrorView::RequestNotFound),
    {
    }

    /// A page of events of a caller's request holds the events right after the cursor, as they
    /// are recorded: as many as were asked for, from one to a hundred, or all that are left;
    /// the next cursor is that of its last event, exactly if more are left.
    pub proof fn page_of_events(
        self,
        caller_id: Seq<char>,
        id: Seq<char>,
        cursor: u64,
        n: u32,
    )
        requires
            self.wf(),
            self.requests.dom().contains(id),
            self.requests[id].caller_id == caller_id,
            1 <= n <= 100,
        ensures
            cursor > self.events_of(id).len() ==> (self.events_for(
                caller_id,
                id,
                Some(cursor),
                list_limit(Some(n)),
            ) matches Ok(page) && page.data.len() == 0 && page.next_cursor is None),
            cursor <= self.events_of(id).len() ==> ({
                let events = self.events_of(id);
                let r = self.events_for(caller_id, id, Some(cursor), list_limit(Some(n)));
                let left = events.len() - cursor;
                &&& r matches Ok(page)
                &&& page.data.len() == if left > n {
                    n as int
                } else {
                    left
                }
                &&& page.next_cursor == if left > n {
                    Some((cursor + n) as u64)
                } else {
                    None
                }
                &&& forall|i: int|
                    0 <= i < page.data.len() ==> (#[trigger] page.data[i]).sequence == cursor + i
                        + 1 && page.data[i].request_id == id && page.data[i].event_type
                        == events[cursor + i].event_type && page.data[i].payload_inline
                        == events[cursor + i].payload_inline
            }),
            self.events_for(caller_id, id, None, list_limit(Some(n))) == self.events_for(
                caller_id,
                id,
                Some(0),
                list_limit(Some(n)),
            ),
    {
        let events = self.events_of(id);
        assert(crate::invariants::events_numbered(id, events));
        self.events_after_are_the_rest(id, Some(cursor));
        self.events_after_are_the_rest(id, None);
        self.events_after_are_the_rest(id, Some(0));
        let rest = self.events_after(id, Some(cursor));
        if cursor <= events.len() {
            assert(rest.len() == events.len() - cursor);
            assert forall|i: int| 0 <= i < rest.len() implies #[trigger] rest[i] == events[cursor
                + i] by {}
        }
    }

    /// A page of items of a thread holds the items right after the cursor, as they are
    /// recorded: as many as were asked for, from one to a hundred, or all that are left; the
    /// next cursor is that of its last item, exactly if more are left.
    pub proof fn page_of_items(
        self,
        caller_id: Seq<char>,
        thread_id: Seq<char>,
        id: Seq<char>,
        cursor: u64,
        n: u32,
    )
        requires
            self.wf(),
            self.requests.dom().contains(id),
            self.requests[id].caller_id == caller_id,
            self.requests[id].thread_id == thread_id,
            1 <= n <= 100,
        ensures
            cursor > self.items_of(thread_id).len() ==> (self.items_for(
                caller_id,
                thread_id,
                Some(cursor),
                list_limit(Some(n)),
            ) matches Ok(page) && page.data.len() == 0 && page.next_cursor is None),
            cursor <= self.items_of(thread_id).len() ==> ({
                let items = self.items_of(thread_id);
                let r = self.items_for(caller_id, thread_id, Some(cursor), list_limit(Some(n)));
                let left = items.len() - cursor;
                &&& r matches Ok(page)
                &&& page.data.len() == if left > n {
                    n as int
                } else {
                    left
                }
                &&& page.next_cursor == if left > n {
                    Some((cursor + n) as u64)
                } else {
                    None
                }
                &&& forall|i: int|
                    0 <= i < page.data.len() ==> (#[trigger] page.data[i]).sequence == cursor + i
                        + 1 && page.data[i].thread_id == thread_id && page.data[i].payload_ref
                        == items[cursor + i].payload_ref
            }),
            self.items_for(caller_id, thread_id, None, list_limit(Some(n))) == self.items_for(
                caller_id,
                thread_id,
                Some(0),
                list_limit(Some(n)),
            ),
    {
        let items = self.items_of(thread_id);
        assert(self.on_thread_of(id, caller_id, thread_id));
        assert(crate::invariants::items_numbered(thread_id, items));
        self.items_after_are_the_rest(thread_id, Some(cursor));
        self.items_after_are_the_rest(thread_id, None);
        self.items_after_are_the_rest(thread_id, Some(0));
        let rest = self.items_after(thread_id, Some(cursor));
        if cursor <= items.len() {
            assert(rest.len() == items.len() - cursor);
            assert forall|i: int| 0 <= i < rest.len() implies #[trigger] rest[i] == items[cursor
                + i] by {}
        }
    }

    /// A caller has access to a thread exactly if one of its requests is on it.
    pub proof fn access_is_by_a_request(self, caller_id: Seq<char>, thread_id: Seq<char>)
        ensures
            self.caller_can_access_thread(caller_id, thread_id) ==> exists|id: Seq<char>| #[trigger]
                self.requests.dom().contains(id) && self.requests[id].caller_id == caller_id
                    && self.requests[id].thread_id == thread_id,
            forall|id: Seq<char>| #[trigger]
                self.requests.dom().contains(id) && self.requests[id].caller_id == caller_id
                    && self.requests[id].thread_id == thread_id ==> self.caller_can_access_thread(
                    caller_id,
                    thread_id,
                ),
    {
        if self.caller_can_access_thread(caller_id, thread_id) {
            let id = choose|id: Seq<char>| self.on_thread_of(id, caller_id, thread_id);
            assert(self.requests.dom().contains(id));
        }
        assert forall|id: Seq<char>| #[trigger]
            self.requests.dom().contains(id) && self.requests[id].caller_id == caller_id
                && self.requests[id].thread_id == thread_id implies self.caller_can_access_thread(
            caller_id,
            thread_id,
        ) by {
            assert(self.on_thread_of(id, caller_id, thread_id));
        }
    }

    /// A turn that a caller's request is noted to run in is what reading the request answers,
    /// whatever its status; a new request is read without one. The other fields are read as
    /// they were recorded.
    pub proof fn noted_turn_is_answered(
        self,
        caller_id: Seq<char>,
        id: Seq<char>,
        turn_id: Seq<char>,
    )
        requires
            self.requests.dom().contains(id),
            self.requests[id].caller_id == caller_id,
        ensures
            ({
                let (state, r) = self.set_turn_for(caller_id, id, turn_id);
                &&& r matches Ok(request)
                &&& request.turn_id == Some(turn_id)
                &&& state.read_response(caller_id, id) matches Ok(answer)
                &&& answer.request.turn_id == Some(turn_id)
                &&& answer.request.status == self.requests[id].status
                &&& answer.request.thread_id == self.requests[id].thread_id
                &&& answer.request.request_id == self.requests[id].request_id
                &&& answer.request.latest_event_cursor == self.requests[id].latest_event_cursor
                &&& answer.latest_event_cursor == self.requests[id].latest_event_cursor
            }),
            self.read_response(caller_id, id) matches Ok(answer) && answer.request.turn_id
                == self.requests[id].turn_id,
    {
    }

    /// A run of a new request is answered with the fields under which it is recorded, without
    /// a turn; if it starts, with the lease that it took for its caller.
    pub proof fn run_answers_with_the_new_request(self, params: CreateRequestView)
        requires
            self.wf(),
            self.can_run(),
            forall|id: Seq<char>|
                !self.keyed(id, params.caller_id, params.thread_id, params.idempotency_key),
        ensures
            ({
                let (state, r) = self.run(params);
                let free = !self.leases.dom().contains(params.thread_id);
                &&& r matches Ok(answer)
                &&& answer.request.request_id == "request-"@ + crate::text::decimal(
                    self.request_count + 1,
                )
                &&& answer.request.thread_id == params.thread_id
                &&& answer.thread_id == params.thread_id
                &&& answer.request.turn_id is None
                &&& answer.request.status == if free {
                    RequestStatus::Running
                } else {
                    RequestStatus::Queued
                }
                &&& answer.event_cursor == if free {
                    2int
                } else {
                    1int
                }
                &&& answer.request.latest_event_cursor == answer.event_cursor
                &&& state.requests[answer.request.request_id].caller_id == params.caller_id
                &&& state.requests[answer.request.request_id].idempotency_key
                    == params.idempotency_key
                &&& state.requests[answer.request.request_id].input_hash == params.input_hash
                &&& free <==> answer.writer_lease is Some
                &&& answer.writer_lease matches Some(lease) ==> lease.writer_owner_token
                    == params.caller_id && lease.fencing_token == self.lease_count + 1
                    && lease.lease_id == "lease-"@ + crate::text::decimal(self.lease_count + 1)
                &&& state.items == self.items
                &&& state.appends == self.appends
                &&& forall|x: Seq<char>| #[trigger]
                    self.requests.dom().contains(x) ==> state.requests[x] == self.requests[x]
                        && state.events_of(x) == self.events_of(x)
            }),
    {
        self.new_request_is_as_asked(params);
        let (recorded, created) = self.create_request(params);
        let id = created->Ok_0.request_id;
        self.next_request_id_is_new();
        assert(recorded.events_of(id) =~= Seq::empty());
        let state = self.run(params).0;
        assert forall|x: Seq<char>| #[trigger] self.requests.dom().contains(x) implies
            state.requests[x] == self.requests[x] && state.events_of(x) == self.events_of(x) by {
            assert(x != id);
        }
    }

    /// A signal that takes effect ends the request at the status of the signal; the last event
    /// of the request names that end in words, with the payload of the signal. The answer
    /// shows the request as it ended.
    pub proof fn signal_is_recorded_by_name(
        self,
        id: Seq<char>,
        signal: TerminalSignal,
        payload_inline: Option<Seq<char>>,
    )
        requires
            self.wf(),
            self.requests.dom().contains(id),
            self.requests[id].status == RequestStatus::Queued || self.requests[id].status
                == RequestStatus::Running || self.requests[id].status == RequestStatus::Cancelling,
            self.events_of(id).len() < u64::MAX,
            payload_inline matches Some(payload) ==> crate::json::json_valid(payload),
        ensures
            ({
                let (state, r) = self.terminal_for(
                    self.requests[id].caller_id,
                    id,
                    signal,
                    payload_inline,
                );
                let last = state.events_of(id).last();
                let status = state.requests[id].status;
                &&& r matches Ok(answer)
                &&& answer.request.request_id == id
                &&& answer.request.status == status
                &&& answer.request.thread_id == self.requests[id].thread_id
                &&& answer.request.turn_id == self.requests[id].turn_id
                &&& answer.latest_event_cursor == self.events_of(id).len() + 1
                &&& answer.request.latest_event_cursor == answer.latest_event_cursor
                &&& state.events_of(id) == self.events_of(id).push(last)
                &&& last.sequence == answer.latest_event_cursor
                &&& payload_inline matches Some(payload) ==> last.payload_inline == payload
                &&& payload_inline is None ==> last.payload_inline == "{}"@
                &&& signal == TerminalSignal::Completed ==> status == RequestStatus::Completed
                    && last.event_type == "request/completed"@
                &&& signal == TerminalSignal::Failed ==> status == RequestStatus::Failed
                    && last.event_type == "request/failed"@
                &&& signal == TerminalSignal::Interrupted ==> status == RequestStatus::Interrupted
                    && last.event_type == "request/interrupted"@
                &&& signal == TerminalSignal::CancelConfirmed ==> status
                    == RequestStatus::Cancelled && last.event_type == "request/cancelled"@
                &&& signal == TerminalSignal::OwnerLeaseTimedOut ==> status
                    == RequestStatus::OwnerTimedOut && last.event_type
                    == "request/owner_timed_out"@
                &&& signal == TerminalSignal::TurnTimedOut ==> status
                    == RequestStatus::TurnTimedOut && last.event_type == "request/turn_timed_out"@
                &&& signal == TerminalSignal::WriterLeaseLost || signal
                    == TerminalSignal::RuntimeWriteDenied ==> status == RequestStatus::LeaseLost
                    && last.event_type == "request/lease_lost"@
                &&& !state.leases.dom().contains(self.requests[id].thread_id)
                    || state.leases[self.requests[id].thread_id].request_id != id
            }),
    {
        assert(self.request_ok(id));
        let state = self.signalled(id, signal, payload_inline);
        assert(state.events_of(id) =~= self.events_of(id).push(state.events_of(id).last()));
    }

    /// The configuration and the metadata of a caller's request are kept together, and read
    /// back; a thread that is not the one of the request is refused, and changes nothing.
    pub proof fn context_is_kept_together(
        self,
        caller_id: Seq<char>,
        config: ConfigSnapshotView,
        metadata: StateMetadataView,
    )
        requires
            self.requests.dom().contains(config.request_id),
            self.requests[config.request_id].caller_id == caller_id,
        ensures
            ({
                let (state, r) = self.persist_for(caller_id, config, metadata);
                let thread_id = self.requests[config.request_id].thread_id;
                let fits = config.thread_id == thread_id && metadata.thread_id == thread_id;
                &&& !fits ==> state == self && r == Err::<(), ErrorView>(ErrorView::ThreadMismatch)
                &&& fits && crate::json::json_valid(config.config_json) && crate::json::json_valid(
                    metadata.payload_json,
                ) ==> r is Ok
                &&& r is Ok ==> fits && state.read_config_snapshot(config.request_id) == Ok::<
                    ConfigSnapshotView,
                    ErrorView,
                >(config) && state.read_state_metadata(metadata.thread_id, metadata.kind) == Ok::<
                    StateMetadataView,
                    ErrorView,
                >(metadata) && state.requests == self.requests
            }),
    {
    }
}

/// In memory no owner times out: nothing changes, and none is counted.
pub proof fn owners_do_not_time_out_in_memory(
    pre: &InMemoryCloudStateStore,
    post: &InMemoryCloudStateStore,
    r: Result<usize, ErrorView>,
)
    requires
        InMemoryCloudStateStore::expire_owner_leases_step(pre, post, r),
    ensures
        post@ == pre@,
        r == Ok::<usize, ErrorView>(0),
{
}

} // verus!
