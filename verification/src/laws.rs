//! Laws of a request store, over the states of its model.
use vstd::prelude::*;

use crate::model::StoreModel;
use crate::protocol::{AppendThreadItemsWithLeaseResponse, RequestStatus};
use crate::records::{
    ConfigSnapshotView, CreateRequestView, ErrorView, EventAppendView, EventView, LeaseAcquireView,
    LeaseAppendView, RequestView, StateMetadataView, TerminalStatusUpdate,
};

verus! {

/// An operation that can change a store.
pub enum Operation {
    CreateRequest(CreateRequestView),
    SetRequestTurnId(Seq<char>, Seq<char>),
    AcquireThreadWriterLease(Seq<char>, Seq<char>),
    RenewRequestLeases(Seq<char>, Seq<char>),
    AppendThreadItemsWithLease(LeaseAppendView),
    MarkRequestTerminal(Seq<char>, RequestStatus),
    MarkRequestTerminalWithEvent(EventAppendView, RequestStatus),
    AppendRequestEvent(EventAppendView),
    AppendRequestEventIfLatestCursor(EventAppendView, u64),
    PersistConfigSnapshot(ConfigSnapshotView),
    UpsertStateMetadata(StateMetadataView),
}

impl StoreModel {
    /// The state after an operation.
    pub open spec fn after(self, operation: Operation) -> StoreModel {
        match operation {
            Operation::CreateRequest(params) => self.create_request(params).0,
            Operation::SetRequestTurnId(id, turn_id) => self.set_request_turn_id(id, turn_id).0,
            Operation::AcquireThreadWriterLease(id, owner) => self.acquire_thread_writer_lease(
                id,
                owner,
            ).0,
            Operation::RenewRequestLeases(id, owner) => self.renew_request_leases(id, owner).0,
            Operation::AppendThreadItemsWithLease(params) => self.append_thread_items_with_lease(
                params,
            ).0,
            Operation::MarkRequestTerminal(id, status) => self.mark_request_terminal(id, status).0,
            Operation::MarkRequestTerminalWithEvent(event, status) =>
                self.mark_request_terminal_with_event(event, status).0,
            Operation::AppendRequestEvent(event) => self.append_request_event(event).0,
            Operation::AppendRequestEventIfLatestCursor(event, expected) =>
                self.append_request_event_if_latest_cursor(event, expected).0,
            Operation::PersistConfigSnapshot(record) => self.persist_config_snapshot(record).0,
            Operation::UpsertStateMetadata(record) => self.upsert_state_metadata(record).0,
        }
    }

    /// A request ends only at a terminal status.
    pub open spec fn admits(self, operation: Operation) -> bool {
        match operation {
            Operation::MarkRequestTerminal(_, status) => status.terminal(),
            Operation::MarkRequestTerminalWithEvent(_, status) => status.terminal(),
            _ => true,
        }
    }

    /// Whether the numbers that an operation gives out fit into their type.
    pub open spec fn has_room(self, operation: Operation) -> bool {
        &&& self.lease_count < u64::MAX
        &&& forall|id: Seq<char>| (#[trigger] self.events_of(id)).len() < u64::MAX
        &&& operation matches Operation::AppendThreadItemsWithLease(params) ==> forall|t: Seq<char>|
            (#[trigger] self.items_of(t)).len() + params.payload_refs.len() <= u64::MAX
    }

    /// Whether `later` can come of this state: nothing is lost, and what is over stays over.
    pub open spec fn grows_into(self, later: StoreModel) -> bool {
        &&& self.request_count <= later.request_count
        &&& self.lease_count <= later.lease_count
        &&& forall|id: Seq<char>| #[trigger]
            self.requests.dom().contains(id) ==> self.request_stays(later, id)
        &&& forall|id: Seq<char>| self.events_of(id).is_prefix_of(#[trigger] later.events_of(id))
        &&& forall|t: Seq<char>| self.items_of(t).is_prefix_of(#[trigger] later.items_of(t))
        &&& forall|key: (Seq<char>, Seq<char>)| #[trigger]
            self.appends.dom().contains(key) ==> later.appends.dom().contains(key)
                && later.appends[key] == self.appends[key]
    }

    /// Every operation keeps the invariant.
    pub proof fn operations_keep_the_invariant(self, operation: Operation)
        requires
            self.wf(),
            self.admits(operation),
            self.has_room(operation),
        ensures
            self.after(operation).wf(),
    {
        match operation {
            Operation::CreateRequest(params) => self.create_request_wf(params),
            Operation::SetRequestTurnId(id, turn_id) => self.set_request_turn_id_wf(id, turn_id),
            Operation::AcquireThreadWriterLease(id, owner) => self.acquire_thread_writer_lease_wf(
                id,
                owner,
            ),
            Operation::RenewRequestLeases(id, owner) => {
                if self.after(operation) != self {
                    let event = StoreModel::lease_lost_event(id);
                    let ended = self.ended(id, RequestStatus::LeaseLost);
                    self.ended_wf(id, RequestStatus::LeaseLost);
                    assert(ended.events_of(id) == self.events_of(id));
                    ended.with_event_wf(event);
                }
            },
            Operation::AppendThreadItemsWithLease(params) => {
                let id = params.request_id;
                if self.requests.dom().contains(id) && params.payload_refs.len() > 0 {
                    if self.lease_matches(params) {
                        assert(self.version(self.requests[id].thread_id)
                            + params.payload_refs.len() <= u64::MAX);
                        self.with_items_wf(params);
                    } else if self.holds_lease(id) {
                        self.ended_wf(id, RequestStatus::LeaseLost);
                    }
                }
            },
            Operation::MarkRequestTerminal(id, status) => {
                if self.requests.dom().contains(id) {
                    self.ended_wf(id, status);
                    self.only_running_requests_hold_leases(id);
                }
            },
            Operation::MarkRequestTerminalWithEvent(event, status) => {
                if self.after(operation) != self {
                    let ended = self.ended(event.request_id, status);
                    self.ended_wf(event.request_id, status);
                    assert(ended.events_of(event.request_id) == self.events_of(event.request_id));
                    ended.with_event_wf(event);
                }
            },
            Operation::AppendRequestEvent(event) => {
                if self.after(operation) != self {
                    self.with_event_wf(event);
                }
            },
            Operation::AppendRequestEventIfLatestCursor(event, expected) => {
                if self.after(operation) != self {
                    self.with_event_wf(event);
                }
            },
            Operation::PersistConfigSnapshot(record) => self.persist_config_snapshot_wf(record),
            Operation::UpsertStateMetadata(record) => self.upsert_state_metadata_wf(record),
        }
    }

    /// Whether request `id` of this state is still there in `later`, and over if it was.
    pub open spec fn request_stays(self, later: StoreModel, id: Seq<char>) -> bool {
        let before = self.requests[id];
        let after = later.requests[id];
        &&& later.requests.dom().contains(id)
        &&& after.request_id == before.request_id
        &&& after.caller_id == before.caller_id
        &&& after.thread_id == before.thread_id
        &&& after.idempotency_key == before.idempotency_key
        &&& after.input_hash == before.input_hash
        &&& before.status.terminal() ==> after.status == before.status
        &&& before.status != RequestStatus::Queued ==> after.status != RequestStatus::Queued
    }

    proof fn requests_stay(self, operation: Operation, id: Seq<char>)
        requires
            self.wf(),
            self.admits(operation),
            self.requests.dom().contains(id),
        ensures
            self.request_stays(self.after(operation), id),
    {
        self.next_request_id_is_new();
        assert(self.requests[id].status == RequestStatus::Running <==> self.holds_lease(id));
        match operation {
            Operation::CreateRequest(params) => {},
            Operation::SetRequestTurnId(x, turn_id) => {},
            Operation::AcquireThreadWriterLease(x, owner) => {},
            Operation::RenewRequestLeases(x, owner) => {},
            Operation::AppendThreadItemsWithLease(params) => {},
            Operation::MarkRequestTerminal(x, status) => {},
            Operation::MarkRequestTerminalWithEvent(event, status) => {},
            Operation::AppendRequestEvent(event) => {},
            Operation::AppendRequestEventIfLatestCursor(event, expected) => {},
            Operation::PersistConfigSnapshot(record) => {},
            Operation::UpsertStateMetadata(record) => {},
        }
    }

    proof fn logs_stay(self, operation: Operation, name: Seq<char>)
        ensures
            self.events_of(name).is_prefix_of(self.after(operation).events_of(name)),
            self.items_of(name).is_prefix_of(self.after(operation).items_of(name)),
    {
        match operation {
            Operation::CreateRequest(params) => {},
            Operation::SetRequestTurnId(x, turn_id) => {},
            Operation::AcquireThreadWriterLease(x, owner) => {},
            Operation::RenewRequestLeases(x, owner) => {},
            Operation::AppendThreadItemsWithLease(params) => {},
            Operation::MarkRequestTerminal(x, status) => {},
            Operation::MarkRequestTerminalWithEvent(event, status) => {},
            Operation::AppendRequestEvent(event) => {},
            Operation::AppendRequestEventIfLatestCursor(event, expected) => {},
            Operation::PersistConfigSnapshot(record) => {},
            Operation::UpsertStateMetadata(record) => {},
        }
    }

    proof fn appends_stay(self, operation: Operation, key: (Seq<char>, Seq<char>))
        requires
            self.appends.dom().contains(key),
        ensures
            self.after(operation).appends.dom().contains(key),
            self.after(operation).appends[key] == self.appends[key],
    {
        match operation {
            Operation::AppendThreadItemsWithLease(params) => {},
            _ => {},
        }
    }

    proof fn counts_stay(self, operation: Operation)
        ensures
            self.request_count <= self.after(operation).request_count,
            self.lease_count <= self.after(operation).lease_count,
    {
        match operation {
            Operation::CreateRequest(params) => {},
            Operation::AcquireThreadWriterLease(x, owner) => {},
            _ => {},
        }
    }

    /// No operation loses anything, brings a request back into the queue, or changes the
    /// status of a request that is over.
    pub proof fn operations_only_grow(self, operation: Operation)
        requires
            self.wf(),
            self.admits(operation),
        ensures
            self.grows_into(self.after(operation)),
    {
        let later = self.after(operation);
        self.counts_stay(operation);
        assert forall|id: Seq<char>| #[trigger] self.requests.dom().contains(id) implies
            self.request_stays(later, id) by {
            self.requests_stay(operation, id);
        }
        assert forall|id: Seq<char>| self.events_of(id).is_prefix_of(
            #[trigger] later.events_of(id),
        ) by {
            self.logs_stay(operation, id);
        }
        assert forall|t: Seq<char>| self.items_of(t).is_prefix_of(#[trigger] later.items_of(t)) by {
            self.logs_stay(operation, t);
        }
        assert forall|key: (
            Seq<char>,
            Seq<char>,
        )| #[trigger] self.appends.dom().contains(key) implies
            later.appends.dom().contains(key) && later.appends[key] == self.appends[key] by {
            self.appends_stay(operation, key);
        }
    }

    /// What comes of a state over several operations has come of it: growth adds up.
    pub proof fn growth_adds_up(self, middle: StoreModel, later: StoreModel)
        requires
            self.grows_into(middle),
            middle.grows_into(later),
        ensures
            self.grows_into(later),
    {
        assert forall|id: Seq<char>| #[trigger] self.requests.dom().contains(id) implies
            self.request_stays(later, id) by {
            assert(self.request_stays(middle, id));
            assert(middle.requests.dom().contains(id));
            assert(middle.request_stays(later, id));
        }
        assert forall|id: Seq<char>| self.events_of(id).is_prefix_of(
            #[trigger] later.events_of(id),
        ) by {
            assert(self.events_of(id).is_prefix_of(middle.events_of(id)));
            assert(middle.events_of(id).is_prefix_of(later.events_of(id)));
        }
        assert forall|t: Seq<char>| self.items_of(t).is_prefix_of(#[trigger] later.items_of(t)) by {
            assert(self.items_of(t).is_prefix_of(middle.items_of(t)));
            assert(middle.items_of(t).is_prefix_of(later.items_of(t)));
        }
    }

    /// A repeated request with the same input gives the request that is there, as it now
    /// stands, and changes nothing.
    pub proof fn repeated_request_is_found(self, id: Seq<char>, params: CreateRequestView)
        requires
            self.wf(),
            self.keyed(id, params.caller_id, params.thread_id, params.idempotency_key),
            self.requests[id].input_hash == params.input_hash,
        ensures
            self.create_request(params) == (self, Ok::<RequestView, ErrorView>(self.requests[id])),
    {
        self.key_names_one_request(id, params);
    }

    /// A repeated request with another input is refused, and changes nothing.
    pub proof fn reused_key_is_refused(self, id: Seq<char>, params: CreateRequestView)
        requires
            self.wf(),
            self.keyed(id, params.caller_id, params.thread_id, params.idempotency_key),
            self.requests[id].input_hash != params.input_hash,
        ensures
            self.create_request(params) == (
                self,
                Err::<RequestView, ErrorView>(ErrorView::IdempotencyConflict),
            ),
    {
        self.key_names_one_request(id, params);
    }

    proof fn key_names_one_request(self, id: Seq<char>, params: CreateRequestView)
        requires
            self.wf(),
            self.keyed(id, params.caller_id, params.thread_id, params.idempotency_key),
        ensures
            id == choose|other: Seq<char>|
                self.keyed(other, params.caller_id, params.thread_id, params.idempotency_key),
    {
        let other = choose|other: Seq<char>|
            self.keyed(other, params.caller_id, params.thread_id, params.idempotency_key);
        assert(self.keyed(other, params.caller_id, params.thread_id, params.idempotency_key));
        assert(self.requests.dom().contains(id) && self.requests.dom().contains(other));
    }

    /// Recording the same request twice is recording it once.
    pub proof fn create_request_is_idempotent(self, params: CreateRequestView)
        requires
            self.wf(),
            self.create_request(params).1 is Ok,
        ensures
            self.create_request(params).0.create_request(params) == self.create_request(params),
    {
        let (state, r) = self.create_request(params);
        let id = r->Ok_0.request_id;
        self.create_request_wf(params);
        assert(state.keyed(id, params.caller_id, params.thread_id, params.idempotency_key)) by {
            if exists|other: Seq<char>|
                self.keyed(other, params.caller_id, params.thread_id, params.idempotency_key) {
                let other = choose|other: Seq<char>|
                    self.keyed(other, params.caller_id, params.thread_id, params.idempotency_key);
                assert(self.request_ok(other));
            }
        }
        state.repeated_request_is_found(id, params);
    }

    /// A request that is recorded under a new key gets an identifier of its own, and waits.
    pub proof fn new_request_is_new(self, params: CreateRequestView)
        requires
            self.wf(),
            forall|id: Seq<char>|
                !self.keyed(id, params.caller_id, params.thread_id, params.idempotency_key),
        ensures
            ({
                let (state, r) = self.create_request(params);
                &&& r is Ok
                &&& !self.requests.dom().contains(r->Ok_0.request_id)
                &&& state.read_request(r->Ok_0.request_id) == r
                &&& r->Ok_0.status == RequestStatus::Queued
                &&& forall|id: Seq<char>| #[trigger]
                    self.requests.dom().contains(id) ==> state.read_request(id)
                        == self.read_request(id)
            }),
    {
        self.next_request_id_is_new();
    }

    /// A lease is granted only on a thread on which none is held, with a fencing token above
    /// all that were granted before.
    pub proof fn fencing_tokens_rise(self, id: Seq<char>, owner: Seq<char>)
        requires
            self.wf(),
            self.lease_count < u64::MAX,
            self.acquire_thread_writer_lease(id, owner).1 matches Ok(outcome)
                && outcome is Acquired,
        ensures
            ({
                let (state, r) = self.acquire_thread_writer_lease(id, owner);
                let token = r->Ok_0->fencing_token;
                &&& !self.leases.dom().contains(self.requests[id].thread_id)
                &&& token == self.lease_count + 1
                &&& state.lease_count == token
                &&& forall|t: Seq<char>| #[trigger]
                    self.leases.dom().contains(t) ==> self.leases[t].fencing_token < token
                &&& state.requests[id].status == RequestStatus::Running
                &&& state.holds_lease(id)
            }),
    {
        assert forall|t: Seq<char>| #[trigger] self.leases.dom().contains(t) implies
            self.leases[t].fencing_token <= self.lease_count by {
            assert(self.lease_ok(t));
        }
    }

    /// While a request holds the lease of a thread, every request on that thread has to wait.
    pub proof fn one_writer_per_thread(self, holder: Seq<char>, other: Seq<char>, owner: Seq<char>)
        requires
            self.wf(),
            self.holds_lease(holder),
            self.requests.dom().contains(other),
            self.requests[other].thread_id == self.requests[holder].thread_id,
        ensures
            self.acquire_thread_writer_lease(other, owner) == (
                self,
                Ok::<LeaseAcquireView, ErrorView>(LeaseAcquireView::Queued),
            ),
            self.holds_lease(other) ==> other == holder,
    {
    }

    /// When the request that holds the lease of a thread ends, the next one in the queue can
    /// take it.
    pub proof fn ending_frees_the_thread(
        self,
        holder: Seq<char>,
        status: RequestStatus,
        next: Seq<char>,
        owner: Seq<char>,
    )
        requires
            self.wf(),
            status.terminal(),
            self.holds_lease(holder),
            self.requests.dom().contains(next),
            self.requests[next].thread_id == self.requests[holder].thread_id,
            self.requests[next].status == RequestStatus::Queued,
        ensures
            ({
                let (ended, update) = self.mark_request_terminal(holder, status);
                &&& update == Ok::<TerminalStatusUpdate, ErrorView>(TerminalStatusUpdate::Changed)
                &&& ended.acquire_thread_writer_lease(next, owner).1 matches Ok(outcome)
                    && outcome is Acquired
            }),
    {
        assert(self.requests.dom().contains(holder));
    }

    /// A request that is over takes no lease again.
    pub proof fn over_is_over(self, id: Seq<char>, owner: Seq<char>)
        requires
            self.wf(),
            self.requests.dom().contains(id),
            self.requests[id].status.terminal(),
        ensures
            self.acquire_thread_writer_lease(id, owner).0 == self,
            self.acquire_thread_writer_lease(id, owner).1 matches Ok(outcome) ==> outcome is Queued,
            !self.leases.dom().contains(self.requests[id].thread_id)
                ==> self.acquire_thread_writer_lease(id, owner).1 == Err::<
                LeaseAcquireView,
                ErrorView,
            >(ErrorView::RequestNotQueued),
            !self.holds_lease(id),
    {
    }

    /// An append under a lease that is not the one held, in its identifier, owner or fencing
    /// token, is refused even where it repeats an append that was made; it adds no item. A
    /// request that held the lease has lost it.
    pub proof fn stale_writer_is_fenced_off(self, params: LeaseAppendView)
        requires
            self.wf(),
            params.payload_refs.len() > 0,
            self.requests.dom().contains(params.request_id),
            !self.lease_matches(params),
        ensures
            ({
                let (state, r) = self.append_thread_items_with_lease(params);
                &&& r == Err::<AppendThreadItemsWithLeaseResponse, ErrorView>(ErrorView::LeaseLost)
                &&& state.items == self.items
                &&& state.appends == self.appends
                &&& state.events == self.events
                &&& !state.holds_lease(params.request_id)
                &&& self.holds_lease(params.request_id)
                    ==> state.requests[params.request_id].status == RequestStatus::LeaseLost
                &&& !self.holds_lease(params.request_id) ==> state == self
            }),
    {
        assert(self.requests[params.request_id].status == RequestStatus::Running
            <==> self.holds_lease(params.request_id));
    }

    /// A request that waits in the queue cannot append, and stays in the queue.
    pub proof fn queued_request_cannot_append(self, params: LeaseAppendView)
        requires
            self.wf(),
            params.payload_refs.len() > 0,
            self.requests.dom().contains(params.request_id),
            self.requests[params.request_id].status == RequestStatus::Queued,
        ensures
            self.append_thread_items_with_lease(params) == (
                self,
                Err::<AppendThreadItemsWithLeaseResponse, ErrorView>(ErrorView::LeaseLost),
            ),
    {
    }

    /// Repeating an append that was made answers with the same numbers, marked as a
    /// repetition, and changes nothing, however much the store has grown since, as long as the
    /// lease lasts. The version that the repetition expects does not matter.
    pub proof fn repeated_append_is_deduplicated(
        self,
        params: LeaseAppendView,
        expected: Option<u64>,
        later: StoreModel,
    )
        requires
            self.wf(),
            self.append_thread_items_with_lease(params).1 is Ok,
            self.append_thread_items_with_lease(params).0.grows_into(later),
            later.lease_matches(params),
        ensures
            ({
                let r = self.append_thread_items_with_lease(params).1;
                let again = LeaseAppendView { expected_thread_version: expected, ..params };
                later.append_thread_items_with_lease(again) == (
                    later,
                    Ok::<AppendThreadItemsWithLeaseResponse, ErrorView>(
                        AppendThreadItemsWithLeaseResponse { deduplicated: true, ..r->Ok_0 },
                    ),
                )
            }),
    {
        let state = self.append_thread_items_with_lease(params).0;
        let again = LeaseAppendView { expected_thread_version: expected, ..params };
        let key = (self.requests[params.request_id].thread_id, params.append_idempotency_key);
        assert(state.requests.dom().contains(params.request_id));
        assert(state.request_stays(later, params.request_id));
        assert(state.appends.dom().contains(key));
        assert(later.appends[key] == state.appends[key]);
        assert(later.lease_matches(again));
    }

    /// An append that is made leaves the lease under which it was made in force.
    pub proof fn append_keeps_its_lease(self, params: LeaseAppendView)
        requires
            self.wf(),
            self.append_thread_items_with_lease(params).1 is Ok,
        ensures
            self.append_thread_items_with_lease(params).0.lease_matches(params),
    {
        assert(self.lease_matches(params));
    }

    /// An append key that was used for other payloads, or by another request, is refused
    /// without a change.
    pub proof fn reused_append_key_is_refused(self, params: LeaseAppendView)
        requires
            self.wf(),
            params.payload_refs.len() > 0,
            self.lease_matches(params),
            ({
                let key = (
                    self.requests[params.request_id].thread_id,
                    params.append_idempotency_key,
                );
                &&& self.appends.dom().contains(key)
                &&& self.appends[key].request_id != params.request_id
                    || self.appends[key].payload_refs != Some(params.payload_refs)
            }),
        ensures
            self.append_thread_items_with_lease(params) == (
                self,
                Err::<AppendThreadItemsWithLeaseResponse, ErrorView>(
                    ErrorView::IdempotencyConflict,
                ),
            ),
    {
    }

    /// A new append under the lease that is held, on the expected version, puts its items at
    /// the end of the thread, numbered on from those before; the version is the number of
    /// items.
    pub proof fn append_goes_to_the_end(self, params: LeaseAppendView)
        requires
            self.wf(),
            params.payload_refs.len() > 0,
            self.lease_matches(params),
            !self.appends.dom().contains(
                (self.requests[params.request_id].thread_id, params.append_idempotency_key),
            ),
            params.expected_thread_version is Some ==> params.expected_thread_version->0
                == self.version(self.requests[params.request_id].thread_id),
            self.version(self.requests[params.request_id].thread_id) + params.payload_refs.len()
                <= u64::MAX,
        ensures
            ({
                let (state, r) = self.append_thread_items_with_lease(params);
                let thread_id = self.requests[params.request_id].thread_id;
                let old_items = self.items_of(thread_id);
                let new_items = state.items_of(thread_id);
                &&& r is Ok
                &&& !r->Ok_0.deduplicated
                &&& r->Ok_0.first_append_sequence == old_items.len() + 1
                &&& r->Ok_0.last_append_sequence == old_items.len() + params.payload_refs.len()
                &&& r->Ok_0.thread_version == state.version(thread_id)
                &&& new_items.len() == old_items.len() + params.payload_refs.len()
                &&& new_items.take(old_items.len() as int) == old_items
                &&& forall|i: int|
                    0 <= i < params.payload_refs.len() ==> (
                    #[trigger] new_items[old_items.len() + i]).payload_ref
                        == params.payload_refs[i]
                &&& forall|i: int|
                    0 <= i < new_items.len() ==> (#[trigger] new_items[i]).sequence == i + 1
                &&& forall|t: Seq<char>| t != thread_id ==> #[trigger] state.items_of(t)
                    == self.items_of(t)
            }),
    {
        let (state, r) = self.append_thread_items_with_lease(params);
        let thread_id = self.requests[params.request_id].thread_id;
        self.with_items_wf(params);
        assert(crate::invariants::items_numbered(thread_id, state.items_of(thread_id)));
        assert(state.items_of(thread_id).take(self.items_of(thread_id).len() as int)
            =~= self.items_of(thread_id));
    }

    /// The end of a request and the event that says so come together: status, event and
    /// cursor change at once, and the lease is released.
    pub proof fn terminal_event_and_status_agree(
        self,
        event: EventAppendView,
        status: RequestStatus,
    )
        requires
            self.wf(),
            status.terminal(),
            self.events_of(event.request_id).len() < u64::MAX,
            self.mark_request_terminal_with_event(event, status).1 == Ok::<
                TerminalStatusUpdate,
                ErrorView,
            >(TerminalStatusUpdate::Changed),
        ensures
            ({
                let (state, r) = self.mark_request_terminal_with_event(event, status);
                let id = event.request_id;
                &&& state.requests[id].status == status
                &&& state.events_of(id).len() == self.events_of(id).len() + 1
                &&& state.events_of(id).last().event_type == event.event_type
                &&& state.events_of(id).last().payload_inline == event.payload_inline
                &&& state.events_of(id).last().sequence == state.requests[id].latest_event_cursor
                &&& state.requests[id].latest_event_cursor == state.events_of(id).len()
                &&& !state.holds_lease(id)
            }),
    {
    }

    /// The first end of a request stands: a second one, at whatever status, leaves the store
    /// as it is and records nothing.
    pub proof fn first_end_stands(
        self,
        event: EventAppendView,
        status: RequestStatus,
    )
        requires
            self.wf(),
            status.terminal(),
            self.requests.dom().contains(event.request_id),
            self.requests[event.request_id].status.terminal(),
        ensures
            self.mark_request_terminal(event.request_id, status) == (
                self,
                Ok::<TerminalStatusUpdate, ErrorView>(TerminalStatusUpdate::Unchanged),
            ),
            self.mark_request_terminal_with_event(event, status).0 == self,
            self.mark_request_terminal_with_event(event, status).1 matches Ok(update)
                ==> update is Unchanged,
    {
        self.only_running_requests_hold_leases(event.request_id);
    }

    /// A payload that is not JSON is refused, and changes nothing.
    pub proof fn invalid_payload_changes_nothing(
        self,
        event: EventAppendView,
        status: RequestStatus,
        expected: u64,
    )
        ensures
            !crate::json::json_valid(event.payload_inline) ==> {
                &&& self.append_request_event(event) == (
                    self,
                    Err::<EventView, ErrorView>(ErrorView::InvalidEventPayload),
                )
                &&& self.append_request_event_if_latest_cursor(event, expected) == (
                    self,
                    Err::<Option<EventView>, ErrorView>(ErrorView::InvalidEventPayload),
                )
                &&& self.mark_request_terminal_with_event(event, status) == (
                    self,
                    Err::<TerminalStatusUpdate, ErrorView>(ErrorView::InvalidEventPayload),
                )
            },
    {
    }

    /// An event that was appended is the last of its request, at the request's cursor.
    pub proof fn appended_event_is_at_the_cursor(self, event: EventAppendView)
        requires
            self.wf(),
            self.events_of(event.request_id).len() < u64::MAX,
            self.append_request_event(event).1 is Ok,
        ensures
            ({
                let (state, r) = self.append_request_event(event);
                let id = event.request_id;
                &&& state.events_of(id) == self.events_of(id).push(r->Ok_0)
                &&& r->Ok_0.sequence == self.requests[id].latest_event_cursor + 1
                &&& state.requests[id].latest_event_cursor == r->Ok_0.sequence
                &&& state.requests[id].status == self.requests[id].status
            }),
    {
        assert(self.request_ok(event.request_id));
    }

    /// Of two appends that expect the same cursor, only the first adds an event.
    pub proof fn cursor_is_taken_once(
        self,
        first: EventAppendView,
        second: EventAppendView,
        expected: u64,
    )
        requires
            self.wf(),
            first.request_id == second.request_id,
            self.events_of(first.request_id).len() < u64::MAX,
            self.append_request_event_if_latest_cursor(first, expected).1 matches Ok(event)
                && event is Some,
        ensures
            ({
                let state = self.append_request_event_if_latest_cursor(first, expected).0;
                let (again, r) = state.append_request_event_if_latest_cursor(second, expected);
                &&& again == state
                &&& !(r matches Ok(event) && event is Some)
            }),
    {
        assert(self.request_ok(first.request_id));
    }

    /// What was kept as the configuration of a request is what is read.
    pub proof fn config_reads_back(self, record: ConfigSnapshotView)
        requires
            self.persist_config_snapshot(record).1 is Ok,
        ensures
            self.persist_config_snapshot(record).0.read_config_snapshot(record.request_id) == Ok::<
                ConfigSnapshotView,
                ErrorView,
            >(record),
    {
    }

    /// What was kept as metadata of a thread is what is read; other metadata stays.
    pub proof fn metadata_reads_back(
        self,
        record: StateMetadataView,
        thread_id: Seq<char>,
        kind: Seq<char>,
    )
        requires
            self.upsert_state_metadata(record).1 is Ok,
        ensures
            ({
                let state = self.upsert_state_metadata(record).0;
                &&& state.read_state_metadata(record.thread_id, record.kind) == Ok::<
                    StateMetadataView,
                    ErrorView,
                >(record)
                &&& (thread_id, kind) != (record.thread_id, record.kind)
                    ==> state.read_state_metadata(thread_id, kind) == self.read_state_metadata(
                    thread_id,
                    kind,
                )
            }),
    {
    }

    /// A request can be found by its turn: any answer for the turn is a request in it, and if
    /// no other request is in the turn, it is this one.
    pub proof fn turn_finds_its_request(
        self,
        id: Seq<char>,
        turn_id: Seq<char>,
        r: Result<RequestView, ErrorView>,
    )
        requires
            self.requests.dom().contains(id),
            forall|other: Seq<char>| #[trigger] self.in_turn(other, turn_id) ==> other == id,
            self.set_request_turn_id(id, turn_id).0.read_request_by_turn_id(turn_id, r),
        ensures
            r == self.set_request_turn_id(id, turn_id).1,
            r is Ok,
    {
        let state = self.set_request_turn_id(id, turn_id).0;
        assert(state.in_turn(id, turn_id));
        assert forall|other: Seq<char>| #[trigger] state.in_turn(other, turn_id) implies other
            == id by {
            if other != id {
                assert(self.in_turn(other, turn_id));
            }
        }
    }

    /// An owner that holds the lease of a request can renew it; another owner cannot, and
    /// then the request has lost its lease.
    pub proof fn only_the_owner_renews(self, id: Seq<char>, owner: Seq<char>)
        requires
            self.wf(),
            self.holds_lease(id),
            self.events_of(id).len() < u64::MAX,
        ensures
            ({
                let (state, r) = self.renew_request_leases(id, owner);
                let held = self.leases[self.requests[id].thread_id].owner_instance_id == owner;
                &&& r == Ok::<bool, ErrorView>(held)
                &&& held ==> state == self
                &&& !held ==> state.requests[id].status == RequestStatus::LeaseLost
                    && !state.holds_lease(id) && state.events_of(id).last().event_type
                    == "request/lease_lost"@
            }),
    {
        assert(self.requests.dom().contains(id));
    }
}

} // verus!
