//! The boundary behind which request state is kept.
use vstd::prelude::*;

use crate::memory_store::InMemoryCloudStateStore;
use crate::protocol::append::ThreadItemView;
use crate::protocol::request::WriterLeaseView;
use crate::protocol::{
    AppendThreadItemsWithLeaseResponse, RequestStatus, ThreadItemRecord, WriterLeaseRecord,
};
use crate::records::{
    outcome, CloudStateError, ConfigSnapshotRecord, ConfigSnapshotView, CreateRequestParams,
    CreateRequestView, ErrorView, EventAppendParams, EventAppendView, EventRecord, EventView,
    EventsPage, EventsPageView, LeaseAcquireOutcome, LeaseAcquireView, LeaseAppendParams,
    LeaseAppendView, RequestRecord, RequestView, StateMetadataRecord, StateMetadataView,
    TerminalStatusUpdate,
};

verus! {

/// Persistence boundary for cloud wrapper request state.
///
/// Implementations must preserve request idempotency, per-thread writer lease fencing,
/// terminal status updates, append deduplication for identical payload references, and
/// request event cursor semantics. Durable implementations are expected to enforce these
/// invariants transactionally.
///
/// Each implementation says with its own relations what its operations do: those that end
/// in `_step` relate the store before a call, the arguments, the store after it and the
/// answer; those that end in `_reply` relate a store, the arguments and the answer. What an
/// implementation does not say is not known.
pub trait CloudStateStore: Sized {
    /// The invariant of the store.
    open spec fn valid(&self) -> bool {
        true
    }

    open spec fn create_request_step(
        pre: &Self,
        params: CreateRequestView,
        post: &Self,
        r: Result<RequestView, ErrorView>,
    ) -> bool {
        true
    }

    open spec fn read_request_reply(
        &self,
        request_id: Seq<char>,
        r: Result<RequestView, ErrorView>,
    ) -> bool {
        true
    }

    open spec fn read_request_by_turn_id_reply(
        &self,
        turn_id: Seq<char>,
        r: Result<RequestView, ErrorView>,
    ) -> bool {
        true
    }

    open spec fn set_request_turn_id_step(
        pre: &Self,
        request_id: Seq<char>,
        turn_id: Seq<char>,
        post: &Self,
        r: Result<RequestView, ErrorView>,
    ) -> bool {
        true
    }

    open spec fn caller_can_access_thread_reply(
        &self,
        caller_id: Seq<char>,
        thread_id: Seq<char>,
        r: Result<bool, ErrorView>,
    ) -> bool {
        true
    }

    open spec fn acquire_thread_writer_lease_step(
        pre: &Self,
        request_id: Seq<char>,
        owner: Seq<char>,
        post: &Self,
        r: Result<LeaseAcquireView, ErrorView>,
    ) -> bool {
        true
    }

    open spec fn read_thread_writer_lease_reply(
        &self,
        request_id: Seq<char>,
        r: Result<Option<WriterLeaseView>, ErrorView>,
    ) -> bool {
        true
    }

    open spec fn renew_request_leases_step(
        pre: &Self,
        request_id: Seq<char>,
        owner: Seq<char>,
        post: &Self,
        r: Result<bool, ErrorView>,
    ) -> bool {
        true
    }

    open spec fn expire_owner_leases_step(
        pre: &Self,
        post: &Self,
        r: Result<usize, ErrorView>,
    ) -> bool {
        true
    }

    open spec fn append_thread_items_with_lease_step(
        pre: &Self,
        params: LeaseAppendView,
        post: &Self,
        r: Result<AppendThreadItemsWithLeaseResponse, ErrorView>,
    ) -> bool {
        true
    }

    open spec fn list_thread_items_reply(
        &self,
        thread_id: Seq<char>,
        cursor: Option<u64>,
        limit: nat,
        r: Result<(Seq<ThreadItemView>, Option<u64>), ErrorView>,
    ) -> bool {
        true
    }

    open spec fn mark_request_terminal_step(
        pre: &Self,
        request_id: Seq<char>,
        status: RequestStatus,
        post: &Self,
        r: Result<TerminalStatusUpdate, ErrorView>,
    ) -> bool {
        true
    }

    open spec fn mark_request_terminal_with_event_step(
        pre: &Self,
        params: EventAppendView,
        status: RequestStatus,
        post: &Self,
        r: Result<TerminalStatusUpdate, ErrorView>,
    ) -> bool {
        true
    }

    open spec fn append_request_event_step(
        pre: &Self,
        params: EventAppendView,
        post: &Self,
        r: Result<EventView, ErrorView>,
    ) -> bool {
        true
    }

    open spec fn append_request_event_if_latest_cursor_step(
        pre: &Self,
        params: EventAppendView,
        expected: u64,
        post: &Self,
        r: Result<Option<EventView>, ErrorView>,
    ) -> bool {
        true
    }

    open spec fn list_request_events_reply(
        &self,
        request_id: Seq<char>,
        cursor: Option<u64>,
        limit: nat,
        r: Result<EventsPageView, ErrorView>,
    ) -> bool {
        true
    }

    open spec fn persist_config_snapshot_step(
        pre: &Self,
        record: ConfigSnapshotView,
        post: &Self,
        r: Result<(), ErrorView>,
    ) -> bool {
        true
    }

    open spec fn read_config_snapshot_reply(
        &self,
        request_id: Seq<char>,
        r: Result<ConfigSnapshotView, ErrorView>,
    ) -> bool {
        true
    }

    open spec fn upsert_state_metadata_step(
        pre: &Self,
        record: StateMetadataView,
        post: &Self,
        r: Result<(), ErrorView>,
    ) -> bool {
        true
    }

    open spec fn read_state_metadata_reply(
        &self,
        thread_id: Seq<char>,
        kind: Seq<char>,
        r: Result<StateMetadataView, ErrorView>,
    ) -> bool {
        true
    }

    /// Records a request, or finds the one recorded under the same key.
    fn create_request(
        &mut self,
        params: CreateRequestParams,
    ) -> (r: Result<RequestRecord, CloudStateError>)
        requires
            old(self).valid(),
        ensures
            final(self).valid(),
            Self::create_request_step(&*old(self), params.deep_view(), &*final(self), outcome(r)),
    ;

    /// One request.
    fn read_request(&self, request_id: &str) -> (r: Result<RequestRecord, CloudStateError>)
        requires
            self.valid(),
        ensures
            self.read_request_reply(request_id@, outcome(r)),
    ;

    /// A request that runs in the turn.
    fn read_request_by_turn_id(&self, turn_id: &str) -> (r: Result<RequestRecord, CloudStateError>)
        requires
            self.valid(),
        ensures
            self.read_request_by_turn_id_reply(turn_id@, outcome(r)),
    ;

    /// Notes the turn in which a request runs.
    fn set_request_turn_id(
        &mut self,
        request_id: &str,
        turn_id: &str,
    ) -> (r: Result<RequestRecord, CloudStateError>)
        requires
            old(self).valid(),
        ensures
            final(self).valid(),
            Self::set_request_turn_id_step(
                &*old(self),
                request_id@,
                turn_id@,
                &*final(self),
                outcome(r),
            ),
    ;

    /// Whether the caller has a request on the thread.
    fn caller_can_access_thread(
        &self,
        caller_id: &str,
        thread_id: &str,
    ) -> (r: Result<bool, CloudStateError>)
        requires
            self.valid(),
        ensures
            self.caller_can_access_thread_reply(caller_id@, thread_id@, outcome(r)),
    ;

    /// Takes the lease of the request's thread for an owner.
    fn acquire_thread_writer_lease(
        &mut self,
        request_id: &str,
        owner_instance_id: &str,
    ) -> (r: Result<LeaseAcquireOutcome, CloudStateError>)
        requires
            old(self).valid(),
        ensures
            final(self).valid(),
            Self::acquire_thread_writer_lease_step(
                &*old(self),
                request_id@,
                owner_instance_id@,
                &*final(self),
                outcome(r),
            ),
    ;

    /// The lease under which a request writes.
    fn read_thread_writer_lease(
        &self,
        request_id: &str,
    ) -> (r: Result<Option<WriterLeaseRecord>, CloudStateError>)
        requires
            self.valid(),
        ensures
            self.read_thread_writer_lease_reply(request_id@, outcome(r)),
    ;

    /// Renews the leases of a request for an owner; tells whether it still holds them.
    fn renew_request_leases(
        &mut self,
        request_id: &str,
        owner_instance_id: &str,
    ) -> (r: Result<bool, CloudStateError>)
        requires
            old(self).valid(),
        ensures
            final(self).valid(),
            Self::renew_request_leases_step(
                &*old(self),
                request_id@,
                owner_instance_id@,
                &*final(self),
                outcome(r),
            ),
    ;

    /// Ends the requests whose owners have timed out; tells how many there were.
    fn expire_owner_leases(&mut self) -> (r: Result<usize, CloudStateError>)
        requires
            old(self).valid(),
        ensures
            final(self).valid(),
            Self::expire_owner_leases_step(&*old(self), &*final(self), outcome(r)),
    ;

    /// Appends items to the thread of a request, under its lease.
    fn append_thread_items_with_lease(
        &mut self,
        params: LeaseAppendParams,
    ) -> (r: Result<AppendThreadItemsWithLeaseResponse, CloudStateError>)
        requires
            old(self).valid(),
        ensures
            final(self).valid(),
            Self::append_thread_items_with_lease_step(
                &*old(self),
                params.deep_view(),
                &*final(self),
                outcome(r),
            ),
    ;

    /// Items of a thread after a cursor, and the next cursor.
    fn list_thread_items(
        &self,
        thread_id: &str,
        cursor: Option<u64>,
        limit: usize,
    ) -> (r: Result<(Vec<ThreadItemRecord>, Option<u64>), CloudStateError>)
        requires
            self.valid(),
        ensures
            self.list_thread_items_reply(thread_id@, cursor, limit as nat, outcome(r)),
    ;

    /// Ends a request at a status.
    fn mark_request_terminal(
        &mut self,
        request_id: &str,
        status: RequestStatus,
    ) -> (r: Result<TerminalStatusUpdate, CloudStateError>)
        requires
            old(self).valid(),
            status.terminal(),
        ensures
            final(self).valid(),
            Self::mark_request_terminal_step(
                &*old(self),
                request_id@,
                status,
                &*final(self),
                outcome(r),
            ),
    ;

    /// Ends a request at a status, and records that as an event.
    fn mark_request_terminal_with_event(
        &mut self,
        params: EventAppendParams,
        status: RequestStatus,
    ) -> (r: Result<TerminalStatusUpdate, CloudStateError>)
        requires
            old(self).valid(),
            status.terminal(),
        ensures
            final(self).valid(),
            Self::mark_request_terminal_with_event_step(
                &*old(self),
                params.deep_view(),
                status,
                &*final(self),
                outcome(r),
            ),
    ;

    /// Adds an event to a request.
    fn append_request_event(
        &mut self,
        params: EventAppendParams,
    ) -> (r: Result<EventRecord, CloudStateError>)
        requires
            old(self).valid(),
        ensures
            final(self).valid(),
            Self::append_request_event_step(
                &*old(self),
                params.deep_view(),
                &*final(self),
                outcome(r),
            ),
    ;

    /// Adds an event to a request whose latest event is the expected one.
    fn append_request_event_if_latest_cursor(
        &mut self,
        params: EventAppendParams,
        expected_latest_event_cursor: u64,
    ) -> (r: Result<Option<EventRecord>, CloudStateError>)
        requires
            old(self).valid(),
        ensures
            final(self).valid(),
            Self::append_request_event_if_latest_cursor_step(
                &*old(self),
                params.deep_view(),
                expected_latest_event_cursor,
                &*final(self),
                outcome(r),
            ),
    ;

    /// Events of a request after a cursor, and the next cursor.
    fn list_request_events(
        &self,
        request_id: &str,
        cursor: Option<u64>,
        limit: usize,
    ) -> (r: Result<EventsPage, CloudStateError>)
        requires
            self.valid(),
        ensures
            self.list_request_events_reply(request_id@, cursor, limit as nat, outcome(r)),
    ;

    /// Keeps the configuration under which a request runs.
    fn persist_config_snapshot(
        &mut self,
        record: ConfigSnapshotRecord,
    ) -> (r: Result<(), CloudStateError>)
        requires
            old(self).valid(),
        ensures
            final(self).valid(),
            Self::persist_config_snapshot_step(
                &*old(self),
                record.deep_view(),
                &*final(self),
                outcome(r),
            ),
    ;

    /// The configuration under which a request runs.
    fn read_config_snapshot(
        &self,
        request_id: &str,
    ) -> (r: Result<ConfigSnapshotRecord, CloudStateError>)
        requires
            self.valid(),
        ensures
            self.read_config_snapshot_reply(request_id@, outcome(r)),
    ;

    /// Keeps metadata of one kind for a thread.
    fn upsert_state_metadata(
        &mut self,
        record: StateMetadataRecord,
    ) -> (r: Result<(), CloudStateError>)
        requires
            old(self).valid(),
        ensures
            final(self).valid(),
            Self::upsert_state_metadata_step(
                &*old(self),
                record.deep_view(),
                &*final(self),
                outcome(r),
            ),
    ;

    /// The metadata of one kind kept for a thread.
    fn read_state_metadata(
        &self,
        thread_id: &str,
        kind: &str,
    ) -> (r: Result<StateMetadataRecord, CloudStateError>)
        requires
            self.valid(),
        ensures
            self.read_state_metadata_reply(thread_id@, kind@, outcome(r)),
    ;
}

/// The store in memory does what the model says.
impl CloudStateStore for InMemoryCloudStateStore {
    open spec fn valid(&self) -> bool {
        self.wf()
    }

    open spec fn create_request_step(
        pre: &Self,
        params: CreateRequestView,
        post: &Self,
        r: Result<RequestView, ErrorView>,
    ) -> bool {
        (post@, r) == pre@.create_request(params)
    }

    open spec fn read_request_reply(
        &self,
        request_id: Seq<char>,
        r: Result<RequestView, ErrorView>,
    ) -> bool {
        r == self@.read_request(request_id)
    }

    open spec fn read_request_by_turn_id_reply(
        &self,
        turn_id: Seq<char>,
        r: Result<RequestView, ErrorView>,
    ) -> bool {
        self@.read_request_by_turn_id(turn_id, r)
    }

    open spec fn set_request_turn_id_step(
        pre: &Self,
        request_id: Seq<char>,
        turn_id: Seq<char>,
        post: &Self,
        r: Result<RequestView, ErrorView>,
    ) -> bool {
        (post@, r) == pre@.set_request_turn_id(request_id, turn_id)
    }

    open spec fn caller_can_access_thread_reply(
        &self,
        caller_id: Seq<char>,
        thread_id: Seq<char>,
        r: Result<bool, ErrorView>,
    ) -> bool {
        r == Ok::<bool, ErrorView>(self@.caller_can_access_thread(caller_id, thread_id))
    }

    open spec fn acquire_thread_writer_lease_step(
        pre: &Self,
        request_id: Seq<char>,
        owner: Seq<char>,
        post: &Self,
        r: Result<LeaseAcquireView, ErrorView>,
    ) -> bool {
        (post@, r) == pre@.acquire_thread_writer_lease(request_id, owner)
    }

    open spec fn read_thread_writer_lease_reply(
        &self,
        request_id: Seq<char>,
        r: Result<Option<WriterLeaseView>, ErrorView>,
    ) -> bool {
        r == self@.read_thread_writer_lease(request_id)
    }

    open spec fn renew_request_leases_step(
        pre: &Self,
        request_id: Seq<char>,
        owner: Seq<char>,
        post: &Self,
        r: Result<bool, ErrorView>,
    ) -> bool {
        (post@, r) == pre@.renew_request_leases(request_id, owner)
    }

    open spec fn expire_owner_leases_step(
        pre: &Self,
        post: &Self,
        r: Result<usize, ErrorView>,
    ) -> bool {
        (post@, r) == (pre@, Ok::<usize, ErrorView>(0))
    }

    open spec fn append_thread_items_with_lease_step(
        pre: &Self,
        params: LeaseAppendView,
        post: &Self,
        r: Result<AppendThreadItemsWithLeaseResponse, ErrorView>,
    ) -> bool {
        (post@, r) == pre@.append_thread_items_with_lease(params)
    }

    open spec fn list_thread_items_reply(
        &self,
        thread_id: Seq<char>,
        cursor: Option<u64>,
        limit: nat,
        r: Result<(Seq<ThreadItemView>, Option<u64>), ErrorView>,
    ) -> bool {
        r == Ok::<(Seq<ThreadItemView>, Option<u64>), ErrorView>(
            self@.list_thread_items(thread_id, cursor, limit),
        )
    }

    open spec fn mark_request_terminal_step(
        pre: &Self,
        request_id: Seq<char>,
        status: RequestStatus,
        post: &Self,
        r: Result<TerminalStatusUpdate, ErrorView>,
    ) -> bool {
        (post@, r) == pre@.mark_request_terminal(request_id, status)
    }

    open spec fn mark_request_terminal_with_event_step(
        pre: &Self,
        params: EventAppendView,
        status: RequestStatus,
        post: &Self,
        r: Result<TerminalStatusUpdate, ErrorView>,
    ) -> bool {
        &&& (post@, r) == pre@.mark_request_terminal_with_event(params, status)
        &&& crate::json::own_payload(params.payload_inline) ==> crate::json::json_valid(
            params.payload_inline,
        )
    }

    open spec fn append_request_event_step(
        pre: &Self,
        params: EventAppendView,
        post: &Self,
        r: Result<EventView, ErrorView>,
    ) -> bool {
        &&& (post@, r) == pre@.append_request_event(params)
        &&& crate::json::own_payload(params.payload_inline) ==> crate::json::json_valid(
            params.payload_inline,
        )
    }

    open spec fn append_request_event_if_latest_cursor_step(
        pre: &Self,
        params: EventAppendView,
        expected: u64,
        post: &Self,
        r: Result<Option<EventView>, ErrorView>,
    ) -> bool {
        &&& (post@, r) == pre@.append_request_event_if_latest_cursor(params, expected)
        &&& crate::json::own_payload(params.payload_inline) ==> crate::json::json_valid(
            params.payload_inline,
        )
    }

    open spec fn list_request_events_reply(
        &self,
        request_id: Seq<char>,
        cursor: Option<u64>,
        limit: nat,
        r: Result<EventsPageView, ErrorView>,
    ) -> bool {
        r == self@.list_request_events(request_id, cursor, limit)
    }

    open spec fn persist_config_snapshot_step(
        pre: &Self,
        record: ConfigSnapshotView,
        post: &Self,
        r: Result<(), ErrorView>,
    ) -> bool {
        (post@, r) == pre@.persist_config_snapshot(record)
    }

    open spec fn read_config_snapshot_reply(
        &self,
        request_id: Seq<char>,
        r: Result<ConfigSnapshotView, ErrorView>,
    ) -> bool {
        r == self@.read_config_snapshot(request_id)
    }

    open spec fn upsert_state_metadata_step(
        pre: &Self,
        record: StateMetadataView,
        post: &Self,
        r: Result<(), ErrorView>,
    ) -> bool {
        (post@, r) == pre@.upsert_state_metadata(record)
    }

    open spec fn read_state_metadata_reply(
        &self,
        thread_id: Seq<char>,
        kind: Seq<char>,
        r: Result<StateMetadataView, ErrorView>,
    ) -> bool {
        r == self@.read_state_metadata(thread_id, kind)
    }

    fn create_request(
        &mut self,
        params: CreateRequestParams,
    ) -> (r: Result<RequestRecord, CloudStateError>) {
        InMemoryCloudStateStore::create_request(self, params)
    }

    fn read_request(&self, request_id: &str) -> (r: Result<RequestRecord, CloudStateError>) {
        InMemoryCloudStateStore::read_request(self, request_id)
    }

    fn read_request_by_turn_id(
        &self,
        turn_id: &str,
    ) -> (r: Result<RequestRecord, CloudStateError>) {
        InMemoryCloudStateStore::read_request_by_turn_id(self, turn_id)
    }

    fn set_request_turn_id(
        &mut self,
        request_id: &str,
        turn_id: &str,
    ) -> (r: Result<RequestRecord, CloudStateError>) {
        InMemoryCloudStateStore::set_request_turn_id(self, request_id, turn_id)
    }

    fn caller_can_access_thread(
        &self,
        caller_id: &str,
        thread_id: &str,
    ) -> (r: Result<bool, CloudStateError>) {
        InMemoryCloudStateStore::caller_can_access_thread(self, caller_id, thread_id)
    }

    fn acquire_thread_writer_lease(
        &mut self,
        request_id: &str,
        owner_instance_id: &str,
    ) -> (r: Result<LeaseAcquireOutcome, CloudStateError>) {
        InMemoryCloudStateStore::acquire_thread_writer_lease(self, request_id, owner_instance_id)
    }

    fn read_thread_writer_lease(
        &self,
        request_id: &str,
    ) -> (r: Result<Option<WriterLeaseRecord>, CloudStateError>) {
        InMemoryCloudStateStore::read_thread_writer_lease(self, request_id)
    }

    fn renew_request_leases(
        &mut self,
        request_id: &str,
        owner_instance_id: &str,
    ) -> (r: Result<bool, CloudStateError>) {
        InMemoryCloudStateStore::renew_request_leases(self, request_id, owner_instance_id)
    }

    fn expire_owner_leases(&mut self) -> (r: Result<usize, CloudStateError>) {
        InMemoryCloudStateStore::expire_owner_leases(self)
    }

    fn append_thread_items_with_lease(
        &mut self,
        params: LeaseAppendParams,
    ) -> (r: Result<AppendThreadItemsWithLeaseResponse, CloudStateError>) {
        InMemoryCloudStateStore::append_thread_items_with_lease(self, params)
    }

    fn list_thread_items(
        &self,
        thread_id: &str,
        cursor: Option<u64>,
        limit: usize,
    ) -> (r: Result<(Vec<ThreadItemRecord>, Option<u64>), CloudStateError>) {
        InMemoryCloudStateStore::list_thread_items(self, thread_id, cursor, limit)
    }

    fn mark_request_terminal(
        &mut self,
        request_id: &str,
        status: RequestStatus,
    ) -> (r: Result<TerminalStatusUpdate, CloudStateError>) {
        InMemoryCloudStateStore::mark_request_terminal(self, request_id, status)
    }

    fn mark_request_terminal_with_event(
        &mut self,
        params: EventAppendParams,
        status: RequestStatus,
    ) -> (r: Result<TerminalStatusUpdate, CloudStateError>) {
        InMemoryCloudStateStore::mark_request_terminal_with_event(self, params, status)
    }

    fn append_request_event(
        &mut self,
        params: EventAppendParams,
    ) -> (r: Result<EventRecord, CloudStateError>) {
        InMemoryCloudStateStore::append_request_event(self, params)
    }

    fn append_request_event_if_latest_cursor(
        &mut self,
        params: EventAppendParams,
        expected_latest_event_cursor: u64,
    ) -> (r: Result<Option<EventRecord>, CloudStateError>) {
        InMemoryCloudStateStore::append_request_event_if_latest_cursor(
            self,
            params,
            expected_latest_event_cursor,
        )
    }

    fn list_request_events(
        &self,
        request_id: &str,
        cursor: Option<u64>,
        limit: usize,
    ) -> (r: Result<EventsPage, CloudStateError>) {
        InMemoryCloudStateStore::list_request_events(self, request_id, cursor, limit)
    }

    fn persist_config_snapshot(
        &mut self,
        record: ConfigSnapshotRecord,
    ) -> (r: Result<(), CloudStateError>) {
        InMemoryCloudStateStore::persist_config_snapshot(self, record)
    }

    fn read_config_snapshot(
        &self,
        request_id: &str,
    ) -> (r: Result<ConfigSnapshotRecord, CloudStateError>) {
        InMemoryCloudStateStore::read_config_snapshot(self, request_id)
    }

    fn upsert_state_metadata(
        &mut self,
        record: StateMetadataRecord,
    ) -> (r: Result<(), CloudStateError>) {
        InMemoryCloudStateStore::upsert_state_metadata(self, record)
    }

    fn read_state_metadata(
        &self,
        thread_id: &str,
        kind: &str,
    ) -> (r: Result<StateMetadataRecord, CloudStateError>) {
        InMemoryCloudStateStore::read_state_metadata(self, thread_id, kind)
    }
}

} // verus!
