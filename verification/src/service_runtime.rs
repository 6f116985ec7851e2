//! One service, over the store in memory or over a durable one.
use vstd::prelude::*;

use crate::memory_store::InMemoryCloudStateStore;
use crate::model::StoreModel;
use crate::protocol::event::{RequestEventView, RequestEventsListResponseView};
use crate::protocol::request::{
    RequestCancelResponseView, RequestReadResponseView, RequestRunResponseView,
    RequestTerminalResponseView,
};
use crate::protocol::append::ThreadItemsListResponseView;
use crate::protocol::{
    AppendThreadItemsWithLeaseParams, AppendThreadItemsWithLeaseResponse, RequestCancelParams,
    RequestCancelResponse, RequestEvent, RequestEventsListParams, RequestEventsListResponse,
    RequestReadParams, RequestReadResponse, RequestRunParams, RequestRunResponse,
    RequestTerminalParams, RequestTerminalResponse, TerminalSignal, ThreadItemsListParams,
    ThreadItemsListResponse,
};
use crate::records::{
    outcome, CloudStateError, ConfigSnapshotRecord, ConfigSnapshotView, CreateRequestView,
    ErrorView, LeaseAppendView, RequestRecord, RequestView, StateMetadataRecord,
    StateMetadataView,
};
use crate::request_service::CloudRequestService;
use crate::request_store::CloudStateStore;
use crate::service_model::{
    memory_append, memory_cancel, memory_event_in_turn, memory_events, memory_items,
    memory_persist, memory_read, memory_run, memory_set_turn, memory_terminal,
    memory_terminal_in_turn,
};
use crate::service_steps::{
    append_step, cancel_step, event_turn_step, events_reply, items_reply, list_limit,
    persist_step, read_reply, run_step, set_turn_step, terminal_step, terminal_turn_step,
    thread_for,
};

verus! {

/// A service over the store in memory, or over a durable store `M`.
#[derive(Debug)]
pub enum CloudRequestServiceRuntime<M> {
    InMemory(Box<CloudRequestService<InMemoryCloudStateStore>>),
    Mysql(Box<CloudRequestService<M>>),
}

impl<M: CloudStateStore> Default for CloudRequestServiceRuntime<M> {
    fn default() -> (r: Self)
        ensures
            r.valid(),
            r matches CloudRequestServiceRuntime::InMemory(service) && service.store()@
                == StoreModel::empty() && service.threads_made() == 0,
    {
        CloudRequestServiceRuntime::InMemory(Box::new(CloudRequestService::default()))
    }
}

/// What a caller asks to be recorded when `made` threads have been named.
pub open spec fn asked(
    made: nat,
    caller_id: Seq<char>,
    params: RequestRunParams,
) -> CreateRequestView {
    CreateRequestView {
        caller_id,
        thread_id: thread_for(made, params.thread_id.deep_view()).1,
        idempotency_key: params.idempotency_key@,
        input_hash: params.input@,
    }
}

/// What a caller asks to be appended.
pub open spec fn appended(params: AppendThreadItemsWithLeaseParams) -> LeaseAppendView {
    LeaseAppendView {
        request_id: params.request_id@,
        lease_id: params.lease_id@,
        writer_owner_token: params.writer_owner_token@,
        fencing_token: params.fencing_token,
        append_idempotency_key: params.append_idempotency_key@,
        expected_thread_version: params.expected_thread_version,
        payload_refs: params.payload_refs(),
    }
}

impl<M: CloudStateStore> CloudRequestServiceRuntime<M> {
    /// The invariant of the service.
    pub open spec fn valid(&self) -> bool {
        match self {
            CloudRequestServiceRuntime::InMemory(service) => service.valid(),
            CloudRequestServiceRuntime::Mysql(service) => service.valid(),
        }
    }

    /// How many threads the service has named.
    pub open spec fn threads_made(&self) -> nat {
        match self {
            CloudRequestServiceRuntime::InMemory(service) => service.threads_made(),
            CloudRequestServiceRuntime::Mysql(service) => service.threads_made(),
        }
    }

    /// Whether the service can name another thread.
    pub fn can_name_thread(&self) -> (r: bool)
        ensures
            r == (self.threads_made() < u64::MAX),
    {
        match self {
            CloudRequestServiceRuntime::InMemory(service) => service.can_name_thread(),
            CloudRequestServiceRuntime::Mysql(service) => service.can_name_thread(),
        }
    }

    /// A service over a durable store.
    pub fn mysql(store: M) -> (r: Self)
        ensures
            r matches CloudRequestServiceRuntime::Mysql(service) && service.store() == store
                && service.threads_made() == 0,
    {
        CloudRequestServiceRuntime::Mysql(Box::new(CloudRequestService::new(store)))
    }

    /// Whether running a request comes to this new state and answer.
    pub open spec fn run_comes_to(
        before: Self,
        caller_id: Seq<char>,
        params: RequestRunParams,
        after: Self,
        r: Result<RequestRunResponseView, ErrorView>,
    ) -> bool {
        match (before, after) {
            (
                CloudRequestServiceRuntime::InMemory(before),
                CloudRequestServiceRuntime::InMemory(after),
            ) => (after.store()@, r) == before.store()@.run(
                    asked(before.threads_made(), caller_id, params),
                ),
            (
                CloudRequestServiceRuntime::Mysql(before),
                CloudRequestServiceRuntime::Mysql(after),
            ) => run_step(
                    &before.store(),
                    asked(before.threads_made(), caller_id, params),
                    &after.store(),
                    r,
                ),
            _ => false,
        }
    }

    /// Runs a request.
    pub fn run(
        &mut self,
        caller_id: &str,
        params: RequestRunParams,
    ) -> (r: Result<RequestRunResponse, CloudStateError>)
        requires
            old(self).valid(),
            params.thread_id is None ==> old(self).threads_made() < u64::MAX,
        ensures
            final(self).valid(),
            final(self).threads_made() == thread_for(
                old(self).threads_made(),
                params.thread_id.deep_view(),
            ).0,
            Self::run_comes_to(*old(self), caller_id@, params, *final(self), outcome(r)),
    {
        match self {
            CloudRequestServiceRuntime::InMemory(service) => {
                let ghost before = **service;
                let r = service.run(caller_id, params);
                proof {
                    memory_run(
                        &before.store(),
                        asked(before.threads_made(), caller_id@, params),
                        &service.store(),
                        outcome(r),
                    );
                }
                r
            },
            CloudRequestServiceRuntime::Mysql(service) => service.run(caller_id, params),
        }
    }

    /// Whether reading a caller's request comes to this answer.
    pub open spec fn read_shows(
        before: Self,
        caller_id: Seq<char>,
        params: RequestReadParams,
        r: Result<RequestReadResponseView, ErrorView>,
    ) -> bool {
        match before {
            CloudRequestServiceRuntime::InMemory(before) => {
                r == before.store()@.read_response(caller_id, params.request_id@)
            },
            CloudRequestServiceRuntime::Mysql(before) => {
                read_reply(&before.store(), caller_id, params.request_id@, r)
            },
        }
    }

    /// A caller's request.
    pub fn read(
        &self,
        caller_id: &str,
        params: RequestReadParams,
    ) -> (r: Result<RequestReadResponse, CloudStateError>)
        requires
            self.valid(),
        ensures
            Self::read_shows(*self, caller_id@, params, outcome(r)),
    {
        match self {
            CloudRequestServiceRuntime::InMemory(service) => {
                let r = service.read(caller_id, params);
                proof {
                    memory_read(&service.store(), caller_id@, params.request_id@, outcome(r));
                }
                r
            },
            CloudRequestServiceRuntime::Mysql(service) => service.read(caller_id, params),
        }
    }

    /// Whether noting the turn of a caller's request comes to this new state and answer.
    pub open spec fn set_turn_id_comes_to(
        before: Self,
        caller_id: Seq<char>,
        request_id: Seq<char>,
        turn_id: Seq<char>,
        after: Self,
        r: Result<RequestView, ErrorView>,
    ) -> bool {
        match (before, after) {
            (
                CloudRequestServiceRuntime::InMemory(before),
                CloudRequestServiceRuntime::InMemory(after),
            ) => (after.store()@, r) == before.store()@.set_turn_for(caller_id, request_id, turn_id),
            (
                CloudRequestServiceRuntime::Mysql(before),
                CloudRequestServiceRuntime::Mysql(after),
            ) => set_turn_step(&before.store(), caller_id, request_id, turn_id, &after.store(), r),
            _ => false,
        }
    }

    /// Notes the turn in which a caller's request runs.
    pub fn set_turn_id(
        &mut self,
        caller_id: &str,
        request_id: &str,
        turn_id: &str,
    ) -> (r: Result<RequestRecord, CloudStateError>)
        requires
            old(self).valid(),
        ensures
            final(self).valid(),
            final(self).threads_made() == old(self).threads_made(),
            Self::set_turn_id_comes_to(
                *old(self),
                caller_id@,
                request_id@,
                turn_id@,
                *final(self),
                outcome(r),
            ),
    {
        match self {
            CloudRequestServiceRuntime::InMemory(service) => {
                let ghost before = **service;
                let r = service.set_turn_id(caller_id, request_id, turn_id);
                proof {
                    memory_set_turn(
                        &before.store(),
                        caller_id@,
                        request_id@,
                        turn_id@,
                        &service.store(),
                        outcome(r),
                    );
                }
                r
            },
            CloudRequestServiceRuntime::Mysql(service) => {
                service.set_turn_id(caller_id, request_id, turn_id)
            },
        }
    }

    /// Whether renewing the leases of a request comes to this new state and answer.
    pub open spec fn renew_request_leases_comes_to(
        before: Self,
        request_id: Seq<char>,
        owner_instance_id: Seq<char>,
        after: Self,
        r: Result<bool, ErrorView>,
    ) -> bool {
        match (before, after) {
            (
                CloudRequestServiceRuntime::InMemory(before),
                CloudRequestServiceRuntime::InMemory(after),
            ) => (after.store()@, r) == before.store()@.renew_request_leases(
                    request_id,
                    owner_instance_id,
                ),
            (
                CloudRequestServiceRuntime::Mysql(before),
                CloudRequestServiceRuntime::Mysql(after),
            ) => M::renew_request_leases_step(
                    &before.store(),
                    request_id,
                    owner_instance_id,
                    &after.store(),
                    r,
                ),
            _ => false,
        }
    }

    /// Renews the leases of a request for an owner.
    pub fn renew_request_leases(
        &mut self,
        request_id: &str,
        owner_instance_id: &str,
    ) -> (r: Result<bool, CloudStateError>)
        requires
            old(self).valid(),
        ensures
            final(self).valid(),
            final(self).threads_made() == old(self).threads_made(),
            Self::renew_request_leases_comes_to(
                *old(self),
                request_id@,
                owner_instance_id@,
                *final(self),
                outcome(r),
            ),
    {
        match self {
            CloudRequestServiceRuntime::InMemory(service) => {
                service.renew_request_leases(request_id, owner_instance_id)
            },
            CloudRequestServiceRuntime::Mysql(service) => {
                service.renew_request_leases(request_id, owner_instance_id)
            },
        }
    }

    /// Whether ending the requests whose owners have timed out comes to this new state and answer.
    pub open spec fn expire_owner_leases_comes_to(
        before: Self,
        after: Self,
        r: Result<usize, ErrorView>,
    ) -> bool {
        match (before, after) {
            (
                CloudRequestServiceRuntime::InMemory(before),
                CloudRequestServiceRuntime::InMemory(after),
            ) => after.store()@ == before.store()@ && r == Ok::<usize, ErrorView>(0),
            (
                CloudRequestServiceRuntime::Mysql(before),
                CloudRequestServiceRuntime::Mysql(after),
            ) => M::expire_owner_leases_step(&before.store(), &after.store(), r),
            _ => false,
        }
    }

    /// Ends the requests whose owners have timed out.
    pub fn expire_owner_leases(&mut self) -> (r: Result<usize, CloudStateError>)
        requires
            old(self).valid(),
        ensures
            final(self).valid(),
            final(self).threads_made() == old(self).threads_made(),
            Self::expire_owner_leases_comes_to(*old(self), *final(self), outcome(r)),
    {
        match self {
            CloudRequestServiceRuntime::InMemory(service) => service.expire_owner_leases(),
            CloudRequestServiceRuntime::Mysql(service) => service.expire_owner_leases(),
        }
    }

    /// Whether appending items for a caller comes to this new state and answer.
    pub open spec fn append_thread_items_with_lease_comes_to(
        before: Self,
        caller_id: Seq<char>,
        params: AppendThreadItemsWithLeaseParams,
        after: Self,
        r: Result<AppendThreadItemsWithLeaseResponse, ErrorView>,
    ) -> bool {
        match (before, after) {
            (
                CloudRequestServiceRuntime::InMemory(before),
                CloudRequestServiceRuntime::InMemory(after),
            ) => (after.store()@, r) == before.store()@.append_for(
                    caller_id,
                    params.thread_id@,
                    appended(params),
                ),
            (
                CloudRequestServiceRuntime::Mysql(before),
                CloudRequestServiceRuntime::Mysql(after),
            ) => append_step(
                    &before.store(),
                    caller_id,
                    params.thread_id@,
                    appended(params),
                    &after.store(),
                    r,
                ),
            _ => false,
        }
    }

    /// Appends items to a thread for a caller.
    pub fn append_thread_items_with_lease(
        &mut self,
        caller_id: &str,
        params: AppendThreadItemsWithLeaseParams,
    ) -> (r: Result<AppendThreadItemsWithLeaseResponse, CloudStateError>)
        requires
            old(self).valid(),
        ensures
            final(self).valid(),
            final(self).threads_made() == old(self).threads_made(),
            Self::append_thread_items_with_lease_comes_to(
                *old(self),
                caller_id@,
                params,
                *final(self),
                outcome(r),
            ),
    {
        match self {
            CloudRequestServiceRuntime::InMemory(service) => {
                let ghost before = **service;
                let r = service.append_thread_items_with_lease(caller_id, params);
                proof {
                    memory_append(
                        &before.store(),
                        caller_id@,
                        params.thread_id@,
                        appended(params),
                        &service.store(),
                        outcome(r),
                    );
                }
                r
            },
            CloudRequestServiceRuntime::Mysql(service) => {
                service.append_thread_items_with_lease(caller_id, params)
            },
        }
    }

    /// Whether listing items for a caller comes to this answer.
    pub open spec fn thread_items_list_shows(
        before: Self,
        caller_id: Seq<char>,
        params: ThreadItemsListParams,
        r: Result<ThreadItemsListResponseView, ErrorView>,
    ) -> bool {
        match before {
            CloudRequestServiceRuntime::InMemory(before) => {
                r == before.store()@.items_for(
                    caller_id,
                    params.thread_id@,
                    params.cursor,
                    list_limit(params.limit),
                )
            },
            CloudRequestServiceRuntime::Mysql(before) => {
                items_reply(
                    &before.store(),
                    caller_id,
                    params.thread_id@,
                    params.cursor,
                    list_limit(params.limit),
                    r,
                )
            },
        }
    }

    /// Items of a thread to which the caller has access.
    pub fn thread_items_list(
        &self,
        caller_id: &str,
        params: ThreadItemsListParams,
    ) -> (r: Result<ThreadItemsListResponse, CloudStateError>)
        requires
            self.valid(),
        ensures
            Self::thread_items_list_shows(*self, caller_id@, params, outcome(r)),
    {
        match self {
            CloudRequestServiceRuntime::InMemory(service) => {
                let r = service.thread_items_list(caller_id, params);
                proof {
                    memory_items(
                        &service.store(),
                        caller_id@,
                        params.thread_id@,
                        params.cursor,
                        list_limit(params.limit),
                        outcome(r),
                    );
                }
                r
            },
            CloudRequestServiceRuntime::Mysql(service) => {
                service.thread_items_list(caller_id, params)
            },
        }
    }

    /// Whether cancelling a caller's request comes to this new state and answer.
    pub open spec fn cancel_comes_to(
        before: Self,
        caller_id: Seq<char>,
        params: RequestCancelParams,
        after: Self,
        r: Result<RequestCancelResponseView, ErrorView>,
    ) -> bool {
        match (before, after) {
            (
                CloudRequestServiceRuntime::InMemory(before),
                CloudRequestServiceRuntime::InMemory(after),
            ) => (after.store()@, r) == before.store()@.cancel_for(
                    caller_id,
                    params.request_id@,
                    params.reason.deep_view(),
                ),
            (
                CloudRequestServiceRuntime::Mysql(before),
                CloudRequestServiceRuntime::Mysql(after),
            ) => cancel_step(
                    &before.store(),
                    caller_id,
                    params.request_id@,
                    params.reason.deep_view(),
                    &after.store(),
                    r,
                ),
            _ => false,
        }
    }

    /// Cancels a caller's request.
    pub fn cancel(
        &mut self,
        caller_id: &str,
        params: RequestCancelParams,
    ) -> (r: Result<RequestCancelResponse, CloudStateError>)
        requires
            old(self).valid(),
        ensures
            final(self).valid(),
            final(self).threads_made() == old(self).threads_made(),
            Self::cancel_comes_to(*old(self), caller_id@, params, *final(self), outcome(r)),
    {
        match self {
            CloudRequestServiceRuntime::InMemory(service) => {
                let ghost before = **service;
                let r = service.cancel(caller_id, params);
                proof {
                    memory_cancel(
                        &before.store(),
                        caller_id@,
                        params.request_id@,
                        params.reason.deep_view(),
                        &service.store(),
                        outcome(r),
                    );
                }
                r
            },
            CloudRequestServiceRuntime::Mysql(service) => service.cancel(caller_id, params),
        }
    }

    /// Whether ending a caller's request comes to this new state and answer.
    pub open spec fn terminal_signal_comes_to(
        before: Self,
        caller_id: Seq<char>,
        request_id: Seq<char>,
        signal: TerminalSignal,
        payload_inline: Option<Seq<char>>,
        after: Self,
        r: Result<RequestTerminalResponseView, ErrorView>,
    ) -> bool {
        match (before, after) {
            (
                CloudRequestServiceRuntime::InMemory(before),
                CloudRequestServiceRuntime::InMemory(after),
            ) => (after.store()@, r) == before.store()@.terminal_for(
                    caller_id,
                    request_id,
                    signal,
                    payload_inline,
                ),
            (
                CloudRequestServiceRuntime::Mysql(before),
                CloudRequestServiceRuntime::Mysql(after),
            ) => terminal_step(
                    &before.store(),
                    caller_id,
                    request_id,
                    signal,
                    payload_inline,
                    &after.store(),
                    r,
                ),
            _ => false,
        }
    }

    /// Ends a caller's request as the signal says, unless it is over.
    pub fn terminal_signal(
        &mut self,
        caller_id: &str,
        request_id: &str,
        signal: TerminalSignal,
        payload_inline: Option<String>,
    ) -> (r: Result<RequestTerminalResponse, CloudStateError>)
        requires
            old(self).valid(),
        ensures
            final(self).valid(),
            final(self).threads_made() == old(self).threads_made(),
            Self::terminal_signal_comes_to(
                *old(self),
                caller_id@,
                request_id@,
                signal,
                payload_inline.deep_view(),
                *final(self),
                outcome(r),
            ),
    {
        match self {
            CloudRequestServiceRuntime::InMemory(service) => {
                let ghost before = **service;
                let r = service.terminal_signal(caller_id, request_id, signal, payload_inline);
                proof {
                    memory_terminal(
                        &before.store(),
                        caller_id@,
                        request_id@,
                        signal,
                        payload_inline.deep_view(),
                        &service.store(),
                        outcome(r),
                    );
                }
                r
            },
            CloudRequestServiceRuntime::Mysql(service) => {
                service.terminal_signal(caller_id, request_id, signal, payload_inline)
            },
        }
    }

    /// Ends a caller's request.
    pub fn terminal(
        &mut self,
        caller_id: &str,
        params: RequestTerminalParams,
    ) -> (r: Result<RequestTerminalResponse, CloudStateError>)
        requires
            old(self).valid(),
        ensures
            final(self).valid(),
            final(self).threads_made() == old(self).threads_made(),
            Self::terminal_signal_comes_to(
                *old(self),
                caller_id@,
                params.request_id@,
                params.signal,
                params.payload_inline.deep_view(),
                *final(self),
                outcome(r),
            ),
    {
        match self {
            CloudRequestServiceRuntime::InMemory(service) => {
                let ghost before = **service;
                let r = service.terminal(caller_id, params);
                proof {
                    memory_terminal(
                        &before.store(),
                        caller_id@,
                        params.request_id@,
                        params.signal,
                        params.payload_inline.deep_view(),
                        &service.store(),
                        outcome(r),
                    );
                }
                r
            },
            CloudRequestServiceRuntime::Mysql(service) => service.terminal(caller_id, params),
        }
    }

    /// Whether ending the request that runs in a turn comes to this new state and answer.
    pub open spec fn terminal_for_turn_id_comes_to(
        before: Self,
        turn_id: Seq<char>,
        signal: TerminalSignal,
        payload_inline: Option<Seq<char>>,
        after: Self,
        r: Result<RequestTerminalResponseView, ErrorView>,
    ) -> bool {
        match (before, after) {
            (
                CloudRequestServiceRuntime::InMemory(before),
                CloudRequestServiceRuntime::InMemory(after),
            ) => before.store()@.terminal_in_turn(
                    turn_id,
                    signal,
                    payload_inline,
                    after.store()@,
                    r,
                ),
            (
                CloudRequestServiceRuntime::Mysql(before),
                CloudRequestServiceRuntime::Mysql(after),
            ) => terminal_turn_step(
                    &before.store(),
                    turn_id,
                    signal,
                    payload_inline,
                    &after.store(),
                    r,
                ),
            _ => false,
        }
    }

    /// Ends the request that runs in a turn.
    pub fn terminal_for_turn_id(
        &mut self,
        turn_id: &str,
        signal: TerminalSignal,
        payload_inline: Option<String>,
    ) -> (r: Result<RequestTerminalResponse, CloudStateError>)
        requires
            old(self).valid(),
        ensures
            final(self).valid(),
            final(self).threads_made() == old(self).threads_made(),
            Self::terminal_for_turn_id_comes_to(
                *old(self),
                turn_id@,
                signal,
                payload_inline.deep_view(),
                *final(self),
                outcome(r),
            ),
    {
        match self {
            CloudRequestServiceRuntime::InMemory(service) => {
                let ghost before = **service;
                let r = service.terminal_for_turn_id(turn_id, signal, payload_inline);
                proof {
                    memory_terminal_in_turn(
                        &before.store(),
                        turn_id@,
                        signal,
                        payload_inline.deep_view(),
                        &service.store(),
                        outcome(r),
                    );
                }
                r
            },
            CloudRequestServiceRuntime::Mysql(service) => {
                service.terminal_for_turn_id(turn_id, signal, payload_inline)
            },
        }
    }

    /// Whether adding an event to the request that runs in a turn comes to this new state and
    /// answer.
    pub open spec fn append_event_for_turn_id_comes_to(
        before: Self,
        turn_id: Seq<char>,
        event_type: Seq<char>,
        payload_inline: Seq<char>,
        after: Self,
        r: Result<RequestEventView, ErrorView>,
    ) -> bool {
        match (before, after) {
            (
                CloudRequestServiceRuntime::InMemory(before),
                CloudRequestServiceRuntime::InMemory(after),
            ) => before.store()@.event_in_turn(
                    turn_id,
                    event_type,
                    payload_inline,
                    after.store()@,
                    r,
                ),
            (
                CloudRequestServiceRuntime::Mysql(before),
                CloudRequestServiceRuntime::Mysql(after),
            ) => event_turn_step(
                    &before.store(),
                    turn_id,
                    event_type,
                    payload_inline,
                    &after.store(),
                    r,
                ),
            _ => false,
        }
    }

    /// Adds an event to the request that runs in a turn.
    pub fn append_event_for_turn_id(
        &mut self,
        turn_id: &str,
        event_type: String,
        payload_inline: String,
    ) -> (r: Result<RequestEvent, CloudStateError>)
        requires
            old(self).valid(),
        ensures
            final(self).valid(),
            final(self).threads_made() == old(self).threads_made(),
            Self::append_event_for_turn_id_comes_to(
                *old(self),
                turn_id@,
                event_type@,
                payload_inline@,
                *final(self),
                outcome(r),
            ),
    {
        match self {
            CloudRequestServiceRuntime::InMemory(service) => {
                let ghost before = **service;
                let r = service.append_event_for_turn_id(turn_id, event_type, payload_inline);
                proof {
                    memory_event_in_turn(
                        &before.store(),
                        turn_id@,
                        event_type@,
                        payload_inline@,
                        &service.store(),
                        outcome(r),
                    );
                }
                r
            },
            CloudRequestServiceRuntime::Mysql(service) => {
                service.append_event_for_turn_id(turn_id, event_type, payload_inline)
            },
        }
    }

    /// Whether listing events for a caller comes to this answer.
    pub open spec fn events_list_shows(
        before: Self,
        caller_id: Seq<char>,
        params: RequestEventsListParams,
        r: Result<RequestEventsListResponseView, ErrorView>,
    ) -> bool {
        match before {
            CloudRequestServiceRuntime::InMemory(before) => {
                r == before.store()@.events_for(
                    caller_id,
                    params.request_id@,
                    params.cursor,
                    list_limit(params.limit),
                )
            },
            CloudRequestServiceRuntime::Mysql(before) => {
                events_reply(
                    &before.store(),
                    caller_id,
                    params.request_id@,
                    params.cursor,
                    list_limit(params.limit),
                    r,
                )
            },
        }
    }

    /// Events of a caller's request.
    pub fn events_list(
        &self,
        caller_id: &str,
        params: RequestEventsListParams,
    ) -> (r: Result<RequestEventsListResponse, CloudStateError>)
        requires
            self.valid(),
        ensures
            Self::events_list_shows(*self, caller_id@, params, outcome(r)),
    {
        match self {
            CloudRequestServiceRuntime::InMemory(service) => {
                let r = service.events_list(caller_id, params);
                proof {
                    memory_events(
                        &service.store(),
                        caller_id@,
                        params.request_id@,
                        params.cursor,
                        list_limit(params.limit),
                        outcome(r),
                    );
                }
                r
            },
            CloudRequestServiceRuntime::Mysql(service) => service.events_list(caller_id, params),
        }
    }

    /// Whether keeping the configuration and the metadata of a caller's request comes to this new
    /// state and answer.
    pub open spec fn persist_request_context_comes_to(
        before: Self,
        caller_id: Seq<char>,
        config_snapshot: ConfigSnapshotView,
        state_metadata: StateMetadataView,
        after: Self,
        r: Result<(), ErrorView>,
    ) -> bool {
        match (before, after) {
            (
                CloudRequestServiceRuntime::InMemory(before),
                CloudRequestServiceRuntime::InMemory(after),
            ) => (after.store()@, r) == before.store()@.persist_for(
                    caller_id,
                    config_snapshot,
                    state_metadata,
                ),
            (
                CloudRequestServiceRuntime::Mysql(before),
                CloudRequestServiceRuntime::Mysql(after),
            ) => persist_step(
                    &before.store(),
                    caller_id,
                    config_snapshot,
                    state_metadata,
                    &after.store(),
                    r,
                ),
            _ => false,
        }
    }

    /// Keeps the configuration and the metadata of a caller's request.
    pub fn persist_request_context(
        &mut self,
        caller_id: &str,
        config_snapshot: ConfigSnapshotRecord,
        state_metadata: StateMetadataRecord,
    ) -> (r: Result<(), CloudStateError>)
        requires
            old(self).valid(),
        ensures
            final(self).valid(),
            final(self).threads_made() == old(self).threads_made(),
            Self::persist_request_context_comes_to(
                *old(self),
                caller_id@,
                config_snapshot.deep_view(),
                state_metadata.deep_view(),
                *final(self),
                outcome(r),
            ),
    {
        match self {
            CloudRequestServiceRuntime::InMemory(service) => {
                let ghost before = **service;
                let r = service.persist_request_context(caller_id, config_snapshot, state_metadata);
                proof {
                    memory_persist(
                        &before.store(),
                        caller_id@,
                        config_snapshot.deep_view(),
                        state_metadata.deep_view(),
                        &service.store(),
                        outcome(r),
                    );
                }
                r
            },
            CloudRequestServiceRuntime::Mysql(service) => {
                service.persist_request_context(caller_id, config_snapshot, state_metadata)
            },
        }
    }
}

} // verus!
