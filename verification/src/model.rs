//! The state of a request store as a mathematical value, and what each operation does to it.
use vstd::prelude::*;

use crate::protocol::append::ThreadItemView;
use crate::protocol::request::WriterLeaseView;
use crate::protocol::{AppendThreadItemsWithLeaseResponse, RequestStatus};
use crate::records::{
    ConfigSnapshotView, CreateRequestView, ErrorView, EventAppendView, EventView, EventsPageView,
    LeaseAcquireView, LeaseAppendView, RequestView, StateMetadataView, TerminalStatusUpdate,
};

verus! {

/// A held writer lease.
#[verifier::ext_equal]
pub struct LeaseView {
    pub lease_id: Seq<char>,
    pub request_id: Seq<char>,
    pub owner_instance_id: Seq<char>,
    pub fencing_token: u64,
}

/// An append that was made: by which request, with what answer, of what.
#[verifier::ext_equal]
pub struct AppendView {
    pub request_id: Seq<char>,
    pub response: AppendThreadItemsWithLeaseResponse,
    pub payload_refs: Option<Seq<Seq<char>>>,
}

/// The state of a store.
#[verifier::ext_equal]
pub struct StoreModel {
    /// Requests by identifier.
    pub requests: Map<Seq<char>, RequestView>,
    /// The lease held on each thread that has one.
    pub leases: Map<Seq<char>, LeaseView>,
    /// Appends by thread and idempotency key.
    pub appends: Map<(Seq<char>, Seq<char>), AppendView>,
    /// Events by request.
    pub events: Map<Seq<char>, Seq<EventView>>,
    /// Items by thread.
    pub items: Map<Seq<char>, Seq<ThreadItemView>>,
    /// Configurations by request.
    pub configs: Map<Seq<char>, ConfigSnapshotView>,
    /// Metadata by thread and kind.
    pub metadata: Map<(Seq<char>, Seq<char>), StateMetadataView>,
    /// How many requests were recorded.
    pub request_count: nat,
    /// How many leases were granted.
    pub lease_count: nat,
}

/// The identifier of the `n`-th request.
pub open spec fn request_id(n: nat) -> Seq<char> {
    "request-"@ + crate::text::decimal(n)
}

/// The identifier of the `n`-th lease.
pub open spec fn lease_id(n: nat) -> Seq<char> {
    "lease-"@ + crate::text::decimal(n)
}

/// The first `limit` of `rest` and, where there are more, the position of the last one.
pub open spec fn page<T>(
    rest: Seq<T>,
    limit: nat,
    position: spec_fn(T) -> u64,
) -> (Seq<T>, Option<u64>) {
    if rest.len() > limit {
        (
            rest.take(limit as int),
            if limit > 0 {
                Some(position(rest[limit - 1]))
            } else {
                None
            },
        )
    } else {
        (rest, None)
    }
}

/// Items `from + 1`, `from + 2` and so on of a thread.
pub open spec fn numbered_items(
    thread_id: Seq<char>,
    from: nat,
    payload_refs: Seq<Seq<char>>,
) -> Seq<ThreadItemView> {
    Seq::new(
        payload_refs.len(),
        |i: int|
            ThreadItemView {
                thread_id,
                sequence: (from + i + 1) as u64,
                payload_ref: payload_refs[i],
            },
    )
}

impl StoreModel {
    /// A store that nothing was put into.
    pub open spec fn empty() -> StoreModel {
        StoreModel {
            requests: Map::empty(),
            leases: Map::empty(),
            appends: Map::empty(),
            events: Map::empty(),
            items: Map::empty(),
            configs: Map::empty(),
            metadata: Map::empty(),
            request_count: 0,
            lease_count: 0,
        }
    }

    /// The events of a request, oldest first.
    pub open spec fn events_of(self, id: Seq<char>) -> Seq<EventView> {
        if self.events.dom().contains(id) {
            self.events[id]
        } else {
            Seq::empty()
        }
    }

    /// The items of a thread, oldest first.
    pub open spec fn items_of(self, thread_id: Seq<char>) -> Seq<ThreadItemView> {
        if self.items.dom().contains(thread_id) {
            self.items[thread_id]
        } else {
            Seq::empty()
        }
    }

    /// How many items a thread has.
    pub open spec fn version(self, thread_id: Seq<char>) -> nat {
        self.items_of(thread_id).len()
    }

    /// Whether request `id` was recorded under the given idempotency key.
    pub open spec fn keyed(
        self,
        id: Seq<char>,
        caller_id: Seq<char>,
        thread_id: Seq<char>,
        idempotency_key: Seq<char>,
    ) -> bool {
        &&& self.requests.dom().contains(id)
        &&& self.requests[id].caller_id == caller_id
        &&& self.requests[id].thread_id == thread_id
        &&& self.requests[id].idempotency_key == idempotency_key
    }

    /// Whether the thread's lease is held by request `id`, whose thread it is.
    pub open spec fn holds_lease(self, id: Seq<char>) -> bool {
        &&& self.requests.dom().contains(id)
        &&& self.leases.dom().contains(self.requests[id].thread_id)
        &&& self.leases[self.requests[id].thread_id].request_id == id
    }

    /// The state with request `id` changed.
    pub open spec fn with_request(self, id: Seq<char>, request: RequestView) -> StoreModel {
        StoreModel { requests: self.requests.insert(id, request), ..self }
    }

    /// The state without the lease of request `id`, if it holds one.
    pub open spec fn released(self, id: Seq<char>) -> StoreModel {
        if self.holds_lease(id) {
            StoreModel { leases: self.leases.remove(self.requests[id].thread_id), ..self }
        } else {
            self
        }
    }

    /// The state with request `id` at `status`.
    pub open spec fn with_status(self, id: Seq<char>, status: RequestStatus) -> StoreModel {
        self.with_request(id, RequestView { status, ..self.requests[id] })
    }

    /// The state after request `id` came to an end: without its lease, and at `status`.
    pub open spec fn ended(self, id: Seq<char>, status: RequestStatus) -> StoreModel {
        self.released(id).with_status(id, status)
    }

    /// Whether request `id` would take `status`: it is not over, and not there already.
    pub open spec fn takes_status(self, id: Seq<char>, status: RequestStatus) -> bool {
        !self.requests[id].status.terminal() && self.requests[id].status != status
    }

    /// The state with one more event on request `id`, and that event.
    pub open spec fn with_event(self, event: EventAppendView) -> (StoreModel, EventView) {
        let id = event.request_id;
        let sequence = (self.events_of(id).len() + 1) as u64;
        let record = EventView {
            request_id: id,
            sequence,
            event_type: event.event_type,
            payload_inline: event.payload_inline,
        };
        let state = StoreModel {
            events: self.events.insert(id, self.events_of(id).push(record)),
            ..self
        };
        (
            state.with_request(
                id,
                RequestView { latest_event_cursor: sequence, ..self.requests[id] },
            ),
            record,
        )
    }

    /// A repeated request gives the one that is there, if the input is the same.
    pub open spec fn create_request(self, params: CreateRequestView) -> (
        StoreModel,
        Result<RequestView, ErrorView>,
    ) {
        if exists|id: Seq<char>|
            self.keyed(id, params.caller_id, params.thread_id, params.idempotency_key) {
            let id = choose|id: Seq<char>|
                self.keyed(id, params.caller_id, params.thread_id, params.idempotency_key);
            if self.requests[id].input_hash == params.input_hash {
                (self, Ok(self.requests[id]))
            } else {
                (self, Err(ErrorView::IdempotencyConflict))
            }
        } else {
            let id = request_id(self.request_count + 1);
            let request = RequestView {
                request_id: id,
                caller_id: params.caller_id,
                thread_id: params.thread_id,
                idempotency_key: params.idempotency_key,
                input_hash: params.input_hash,
                turn_id: None,
                status: RequestStatus::Queued,
                latest_event_cursor: 0,
            };
            (
                StoreModel {
                    requests: self.requests.insert(id, request),
                    request_count: self.request_count + 1,
                    ..self
                },
                Ok(request),
            )
        }
    }

    pub open spec fn read_request(self, id: Seq<char>) -> Result<RequestView, ErrorView> {
        if self.requests.dom().contains(id) {
            Ok(self.requests[id])
        } else {
            Err(ErrorView::RequestNotFound)
        }
    }

    /// Whether request `id` runs in the turn.
    pub open spec fn in_turn(self, id: Seq<char>, turn_id: Seq<char>) -> bool {
        self.requests.dom().contains(id) && self.requests[id].turn_id == Some(turn_id)
    }

    /// What may be read of a turn: a request that runs in it or, if there is none, an error.
    pub open spec fn read_request_by_turn_id(
        self,
        turn_id: Seq<char>,
        r: Result<RequestView, ErrorView>,
    ) -> bool {
        match r {
            Ok(request) => exists|id: Seq<char>|
                self.in_turn(id, turn_id) && request == self.requests[id],
            Err(error) => error == ErrorView::RequestNotFound && forall|id: Seq<char>|
                !self.in_turn(id, turn_id),
        }
    }

    pub open spec fn set_request_turn_id(self, id: Seq<char>, turn_id: Seq<char>) -> (
        StoreModel,
        Result<RequestView, ErrorView>,
    ) {
        if self.requests.dom().contains(id) {
            let request = RequestView { turn_id: Some(turn_id), ..self.requests[id] };
            (self.with_request(id, request), Ok(request))
        } else {
            (self, Err(ErrorView::RequestNotFound))
        }
    }

    /// Whether request `id` is of this caller and on this thread.
    pub open spec fn on_thread_of(
        self,
        id: Seq<char>,
        caller_id: Seq<char>,
        thread_id: Seq<char>,
    ) -> bool {
        &&& self.requests.dom().contains(id)
        &&& self.requests[id].caller_id == caller_id
        &&& self.requests[id].thread_id == thread_id
    }

    /// A caller has access to the threads on which it has requests.
    pub open spec fn caller_can_access_thread(
        self,
        caller_id: Seq<char>,
        thread_id: Seq<char>,
    ) -> bool {
        exists|id: Seq<char>| self.on_thread_of(id, caller_id, thread_id)
    }

    /// A queued request takes the lease of its thread, if no lease is held there.
    pub open spec fn acquire_thread_writer_lease(self, id: Seq<char>, owner: Seq<char>) -> (
        StoreModel,
        Result<LeaseAcquireView, ErrorView>,
    ) {
        if !self.requests.dom().contains(id) {
            (self, Err(ErrorView::RequestNotFound))
        } else if self.leases.dom().contains(self.requests[id].thread_id) {
            (self, Ok(LeaseAcquireView::Queued))
        } else if self.requests[id].status != RequestStatus::Queued {
            (self, Err(ErrorView::RequestNotQueued))
        } else {
            let token = (self.lease_count + 1) as u64;
            let lease = LeaseView {
                lease_id: lease_id(self.lease_count + 1),
                request_id: id,
                owner_instance_id: owner,
                fencing_token: token,
            };
            let state = StoreModel {
                leases: self.leases.insert(self.requests[id].thread_id, lease),
                lease_count: self.lease_count + 1,
                ..self
            };
            (
                state.with_status(id, RequestStatus::Running),
                Ok(LeaseAcquireView::Acquired { lease_id: lease.lease_id, fencing_token: token }),
            )
        }
    }

    pub open spec fn read_thread_writer_lease(self, id: Seq<char>) -> Result<
        Option<WriterLeaseView>,
        ErrorView,
    > {
        if !self.requests.dom().contains(id) {
            Err(ErrorView::RequestNotFound)
        } else if self.holds_lease(id) {
            let lease = self.leases[self.requests[id].thread_id];
            Ok(
                Some(
                    WriterLeaseView {
                        lease_id: lease.lease_id,
                        writer_owner_token: lease.owner_instance_id,
                        fencing_token: lease.fencing_token,
                    },
                ),
            )
        } else {
            Ok(None)
        }
    }

    /// What is recorded of a request that turns out to have no lease.
    pub open spec fn lease_lost_event(id: Seq<char>) -> EventAppendView {
        EventAppendView {
            request_id: id,
            event_type: "request/lease_lost"@,
            payload_inline: "{\"reason\":\"thread_writer_lease_lost\"}"@,
        }
    }

    /// A request that is not over must hold its lease for this owner; else its lease is lost.
    pub open spec fn renew_request_leases(self, id: Seq<char>, owner: Seq<char>) -> (
        StoreModel,
        Result<bool, ErrorView>,
    ) {
        if !self.requests.dom().contains(id) {
            (self, Err(ErrorView::RequestNotFound))
        } else if self.requests[id].status.terminal() {
            (self, Ok(false))
        } else if self.holds_lease(id) && self.leases[self.requests[id].thread_id].owner_instance_id
            == owner {
            (self, Ok(true))
        } else {
            (
                self.ended(id, RequestStatus::LeaseLost).with_event(Self::lease_lost_event(id)).0,
                Ok(false),
            )
        }
    }

    /// Whether the append names the lease that is held on the request's thread.
    pub open spec fn lease_matches(self, params: LeaseAppendView) -> bool {
        let lease = self.leases[self.requests[params.request_id].thread_id];
        &&& self.holds_lease(params.request_id)
        &&& lease.lease_id == params.lease_id
        &&& lease.owner_instance_id == params.writer_owner_token
        &&& lease.fencing_token == params.fencing_token
    }

    /// The state after items were appended, and the answer.
    pub open spec fn with_items(self, params: LeaseAppendView) -> (
        StoreModel,
        AppendThreadItemsWithLeaseResponse,
    ) {
        let thread_id = self.requests[params.request_id].thread_id;
        let version = self.version(thread_id);
        let response = AppendThreadItemsWithLeaseResponse {
            thread_version: (version + params.payload_refs.len()) as u64,
            first_append_sequence: (version + 1) as u64,
            last_append_sequence: (version + params.payload_refs.len()) as u64,
            deduplicated: false,
        };
        (
            StoreModel {
                items: self.items.insert(
                    thread_id,
                    self.items_of(thread_id) + numbered_items(
                        thread_id,
                        version,
                        params.payload_refs,
                    ),
                ),
                appends: self.appends.insert(
                    (thread_id, params.append_idempotency_key),
                    AppendView {
                        request_id: params.request_id,
                        response,
                        payload_refs: Some(params.payload_refs),
                    },
                ),
                ..self
            },
            response,
        )
    }

    /// Appends under a lease: a wrong lease is lost, a repeated append is answered as before.
    pub open spec fn append_thread_items_with_lease(self, params: LeaseAppendView) -> (
        StoreModel,
        Result<AppendThreadItemsWithLeaseResponse, ErrorView>,
    ) {
        let id = params.request_id;
        let thread_id = self.requests[id].thread_id;
        let key = (thread_id, params.append_idempotency_key);
        if params.payload_refs.len() == 0 {
            (self, Err(ErrorView::EmptyAppend))
        } else if !self.requests.dom().contains(id) {
            (self, Err(ErrorView::RequestNotFound))
        } else if !self.lease_matches(params) {
            (
                if self.holds_lease(id) {
                    self.ended(id, RequestStatus::LeaseLost)
                } else {
                    self
                },
                Err(ErrorView::LeaseLost),
            )
        } else if self.appends.dom().contains(key) {
            if self.appends[key].request_id == id && self.appends[key].payload_refs == Some(
                params.payload_refs,
            ) {
                (
                    self,
                    Ok(
                        AppendThreadItemsWithLeaseResponse {
                            deduplicated: true,
                            ..self.appends[key].response
                        },
                    ),
                )
            } else {
                (self, Err(ErrorView::IdempotencyConflict))
            }
        } else if params.expected_thread_version is Some && params.expected_thread_version->0
            != self.version(thread_id) {
            (self, Err(ErrorView::ThreadVersionConflict))
        } else {
            let (state, response) = self.with_items(params);
            (state, Ok(response))
        }
    }

    /// Where reading starts: after the cursor, or at the beginning.
    pub open spec fn start(cursor: Option<u64>) -> u64 {
        match cursor {
            Some(after) => after,
            None => 0,
        }
    }

    /// The items of a thread after the cursor.
    pub open spec fn items_after(self, thread_id: Seq<char>, cursor: Option<u64>) -> Seq<
        ThreadItemView,
    > {
        self.items_of(thread_id).filter(|item: ThreadItemView| item.sequence > Self::start(cursor))
    }

    pub open spec fn list_thread_items(
        self,
        thread_id: Seq<char>,
        cursor: Option<u64>,
        limit: nat,
    ) -> (Seq<ThreadItemView>, Option<u64>) {
        page(self.items_after(thread_id, cursor), limit, |item: ThreadItemView| item.sequence)
    }

    /// A request ends at `status` unless it is over; its lease is released either way.
    pub open spec fn mark_request_terminal(self, id: Seq<char>, status: RequestStatus) -> (
        StoreModel,
        Result<TerminalStatusUpdate, ErrorView>,
    ) {
        if !self.requests.dom().contains(id) {
            (self, Err(ErrorView::RequestNotFound))
        } else if self.takes_status(id, status) {
            (self.ended(id, status), Ok(TerminalStatusUpdate::Changed))
        } else {
            (self.released(id), Ok(TerminalStatusUpdate::Unchanged))
        }
    }

    /// A request that is not over ends at `status`, which is recorded as an event.
    pub open spec fn mark_request_terminal_with_event(
        self,
        event: EventAppendView,
        status: RequestStatus,
    ) -> (StoreModel, Result<TerminalStatusUpdate, ErrorView>) {
        let id = event.request_id;
        if !crate::json::json_valid(event.payload_inline) {
            (self, Err(ErrorView::InvalidEventPayload))
        } else if !self.requests.dom().contains(id) {
            (self, Err(ErrorView::RequestNotFound))
        } else if self.takes_status(id, status) {
            (
                self.ended(id, status).with_event(event).0,
                Ok(TerminalStatusUpdate::Changed),
            )
        } else {
            (self, Ok(TerminalStatusUpdate::Unchanged))
        }
    }

    pub open spec fn append_request_event(self, event: EventAppendView) -> (
        StoreModel,
        Result<EventView, ErrorView>,
    ) {
        if !crate::json::json_valid(event.payload_inline) {
            (self, Err(ErrorView::InvalidEventPayload))
        } else if !self.requests.dom().contains(event.request_id) {
            (self, Err(ErrorView::RequestNotFound))
        } else {
            let (state, record) = self.with_event(event);
            (state, Ok(record))
        }
    }

    pub open spec fn append_request_event_if_latest_cursor(
        self,
        event: EventAppendView,
        expected: u64,
    ) -> (StoreModel, Result<Option<EventView>, ErrorView>) {
        if !crate::json::json_valid(event.payload_inline) {
            (self, Err(ErrorView::InvalidEventPayload))
        } else if !self.requests.dom().contains(event.request_id) {
            (self, Err(ErrorView::RequestNotFound))
        } else if self.requests[event.request_id].latest_event_cursor != expected {
            (self, Ok(None))
        } else {
            let (state, record) = self.with_event(event);
            (state, Ok(Some(record)))
        }
    }

    /// The events of a request after the cursor.
    pub open spec fn events_after(self, id: Seq<char>, cursor: Option<u64>) -> Seq<EventView> {
        self.events_of(id).filter(|event: EventView| event.sequence > Self::start(cursor))
    }

    pub open spec fn list_request_events(
        self,
        id: Seq<char>,
        cursor: Option<u64>,
        limit: nat,
    ) -> Result<EventsPageView, ErrorView> {
        if !self.requests.dom().contains(id) {
            Err(ErrorView::RequestNotFound)
        } else {
            let (data, next_cursor) = page(
                self.events_after(id, cursor),
                limit,
                |event: EventView| event.sequence,
            );
            Ok(EventsPageView { data, next_cursor })
        }
    }

    pub open spec fn persist_config_snapshot(self, record: ConfigSnapshotView) -> (
        StoreModel,
        Result<(), ErrorView>,
    ) {
        if !self.requests.dom().contains(record.request_id) {
            (self, Err(ErrorView::RequestNotFound))
        } else if self.requests[record.request_id].thread_id != record.thread_id {
            (self, Err(ErrorView::ThreadMismatch))
        } else if !crate::json::json_valid(record.config_json) {
            (self, Err(ErrorView::Storage("payload must be valid JSON"@)))
        } else {
            (
                StoreModel { configs: self.configs.insert(record.request_id, record), ..self },
                Ok(()),
            )
        }
    }

    pub open spec fn read_config_snapshot(self, id: Seq<char>) -> Result<
        ConfigSnapshotView,
        ErrorView,
    > {
        if self.requests.dom().contains(id) && self.configs.dom().contains(id) {
            Ok(self.configs[id])
        } else {
            Err(ErrorView::RequestNotFound)
        }
    }

    pub open spec fn upsert_state_metadata(self, record: StateMetadataView) -> (
        StoreModel,
        Result<(), ErrorView>,
    ) {
        if !crate::json::json_valid(record.payload_json) {
            (self, Err(ErrorView::Storage("payload must be valid JSON"@)))
        } else {
            (
                StoreModel {
                    metadata: self.metadata.insert((record.thread_id, record.kind), record),
                    ..self
                },
                Ok(()),
            )
        }
    }

    pub open spec fn read_state_metadata(self, thread_id: Seq<char>, kind: Seq<char>) -> Result<
        StateMetadataView,
        ErrorView,
    > {
        if self.metadata.dom().contains((thread_id, kind)) {
            Ok(self.metadata[(thread_id, kind)])
        } else {
            Err(ErrorView::RequestNotFound)
        }
    }
}

} // verus!
