//! The operations on requests that callers use, on top of a store.
use vstd::prelude::*;

use crate::json::validate_event_payload_inline;
use crate::memory_store::InMemoryCloudStateStore;
use crate::model::StoreModel;
use crate::protocol::request::RequestRunResponseView;
use crate::protocol::{
    AppendThreadItemsWithLeaseParams, AppendThreadItemsWithLeaseResponse, RequestCancelParams,
    RequestCancelResponse, RequestEvent, RequestEventsListParams, RequestEventsListResponse,
    RequestReadParams, RequestReadResponse, RequestRunParams, RequestRunResponse, RequestStatus,
    RequestStatusTransition, RequestTerminalParams, RequestTerminalResponse, TerminalSignal,
    ThreadItemsListParams, ThreadItemsListResponse,
};
use crate::records::{
    outcome, CloudStateError, ConfigSnapshotRecord, CreateRequestParams, CreateRequestView,
    ErrorView, EventAppendParams, EventRecord, EventsPage, LeaseAcquireOutcome, LeaseAppendParams,
    LeaseAppendView, RequestRecord, RequestView, StateMetadataRecord,
};
use crate::request_store::CloudStateStore;
use crate::text::numbered;

verus! {

/// Requests, and what callers do with them.
#[derive(Debug)]
pub struct CloudRequestService<S = InMemoryCloudStateStore> {
    store: S,
    next_thread_sequence: u64,
}

impl Default for CloudRequestService<InMemoryCloudStateStore> {
    fn default() -> (r: Self)
        ensures
            r.valid(),
            r.store()@ == StoreModel::empty(),
            r.threads_made() == 0,
    {
        CloudRequestService::new(InMemoryCloudStateStore::default())
    }
}

/// A recorded event as clients see it.
fn event_record_into_protocol(event: EventRecord) -> (r: RequestEvent)
    ensures
        r.deep_view() == crate::service_steps::event_to_protocol(event.deep_view()),
{
    RequestEvent {
        request_id: event.request_id,
        sequence: event.sequence,
        event_type: event.event_type,
        payload_inline: event.payload_inline,
    }
}

impl EventsPage {
    /// The page as clients see it.
    fn into_protocol(self) -> (r: RequestEventsListResponse)
        ensures
            r.deep_view() == crate::service_steps::page_to_protocol(self.deep_view()),
    {
        let mut data: Vec<RequestEvent> = Vec::new();
        let count: usize = self.data.len();
        for i in 0..count
            invariant
                count == self.data@.len(),
                data@.len() == i,
                forall|j: int|
                    0 <= j < i ==> (#[trigger] data@[j]).deep_view()
                        == crate::service_steps::event_to_protocol(self.data@[j].deep_view()),
        {
            data.push(event_record_into_protocol(self.data[i].clone()));
        }
        let r = RequestEventsListResponse { data, next_cursor: self.next_cursor };
        assert(
            r.deep_view().data =~= crate::service_steps::page_to_protocol(self.deep_view()).data
        );
        r
    }
}

/// How many events a list gives.
pub fn request_events_list_limit(limit: Option<u32>) -> (r: usize)
    ensures
        r == crate::service_steps::list_limit(limit),
        1 <= r <= 100,
        limit matches Some(n) ==> (1 <= n <= 100 ==> r == n),
        limit matches Some(n) ==> (n > 100 ==> r == 100),
        limit is None ==> r == 100,
{
    match limit {
        None => 100,
        Some(limit) => if limit < 1 {
            1
        } else if limit > 100 {
            100
        } else {
            limit as usize
        },
    }
}

/// How many items a list gives.
pub fn thread_items_list_limit(limit: Option<u32>) -> (r: usize)
    ensures
        r == crate::service_steps::list_limit(limit),
        1 <= r <= 100,
        limit matches Some(n) ==> (1 <= n <= 100 ==> r == n),
        limit matches Some(n) ==> (n > 100 ==> r == 100),
        limit is None ==> r == 100,
{
    match limit {
        None => 100,
        Some(limit) => if limit < 1 {
            1
        } else if limit > 100 {
            100
        } else {
            limit as usize
        },
    }
}

fn terminal_event_type(status: RequestStatus) -> (r: &'static str)
    requires
        status.terminal(),
    ensures
        r@ == crate::service_steps::terminal_event_type(status),
{
    match status {
        RequestStatus::Completed => "request/completed",
        RequestStatus::Failed => "request/failed",
        RequestStatus::Cancelled => "request/cancelled",
        RequestStatus::Interrupted => "request/interrupted",
        RequestStatus::OwnerTimedOut => "request/owner_timed_out",
        RequestStatus::LeaseLost => "request/lease_lost",
        _ => "request/turn_timed_out",
    }
}

impl<S: CloudStateStore> CloudRequestService<S> {
    /// The store that the service works on.
    pub closed spec fn store(&self) -> S {
        self.store
    }

    /// How many threads the service has named.
    pub closed spec fn threads_made(&self) -> nat {
        self.next_thread_sequence as nat
    }

    /// The invariant of the service.
    pub open spec fn valid(&self) -> bool {
        self.store().valid()
    }

    /// Whether the service can name another thread.
    pub fn can_name_thread(&self) -> (r: bool)
        ensures
            r == (self.threads_made() < u64::MAX),
    {
        self.next_thread_sequence < u64::MAX
    }

    /// A service on a store.
    pub fn new(store: S) -> (r: Self)
        ensures
            r.store() == store,
            r.threads_made() == 0,
    {
        CloudRequestService { store, next_thread_sequence: 0 }
    }

    fn resolve_thread_id(&mut self, thread_id: Option<String>, create_thread: Option<bool>) -> (r:
        String)
        requires
            thread_id is None ==> old(self).threads_made() < u64::MAX,
        ensures
            final(self).store() == old(self).store(),
            (final(self).threads_made(), r@) == crate::service_steps::thread_for(
                old(self).threads_made(),
                thread_id.deep_view(),
            ),
    {
        if let Some(thread_id) = thread_id {
            return thread_id;
        }
        self.next_thread_sequence = self.next_thread_sequence + 1;
        numbered("thread-", self.next_thread_sequence as u128)
    }

    fn read_request_for_caller(&self, caller_id: &str, request_id: &str) -> (r: Result<
        RequestRecord,
        CloudStateError,
    >)
        requires
            self.valid(),
        ensures
            exists|found: Result<RequestView, ErrorView>| #[trigger]
                self.store().read_request_reply(request_id@, found) && outcome(r)
                    == crate::service_steps::scoped(found, caller_id@),
    {
        let read = self.store.read_request(request_id);
        let ghost found = outcome(read);
        assert(self.store().read_request_reply(request_id@, found));
        match read {
            Ok(request) => {
                let caller = caller_id.to_owned();
                if request.caller_id != caller {
                    return Err(CloudStateError::RequestNotFound);
                }
                Ok(request)
            },
            Err(error) => Err(error),
        }
    }

    /// Reads the request that `run` answers of and, where it runs, its lease.
    fn answer_run(&self, request_id: &str, thread_id: String) -> (r: Result<
        RequestRunResponse,
        CloudStateError,
    >)
        requires
            self.valid(),
        ensures
            crate::service_steps::run_answer(
                &self.store(),
                request_id@,
                thread_id@,
                &self.store(),
                outcome(r),
            ),
    {
        let read = self.store.read_request(request_id);
        let ghost found = outcome(read);
        assert(self.store().read_request_reply(request_id@, found));
        let request = match read {
            Ok(request) => request,
            Err(error) => return Err(error),
        };
        let writer_lease = if request.status == RequestStatus::Running {
            let held = self.store.read_thread_writer_lease(request.request_id.as_str());
            let ghost lease = outcome(held);
            assert(self.store().read_thread_writer_lease_reply(request.request_id@, lease));
            match held {
                Ok(lease) => lease,
                Err(error) => return Err(error),
            }
        } else {
            None
        };
        Ok(
            RequestRunResponse {
                request: request.to_protocol(),
                thread_id,
                event_cursor: request.latest_event_cursor,
                writer_lease,
            },
        )
    }

    /// Says that a request that took its lease runs.
    fn start_run(&mut self, request_id: &str, thread_id: String) -> (r: Result<
        RequestRunResponse,
        CloudStateError,
    >)
        requires
            old(self).valid(),
        ensures
            final(self).valid(),
            final(self).threads_made() == old(self).threads_made(),
            crate::service_steps::run_started(
                &old(self).store(),
                request_id@,
                thread_id@,
                &final(self).store(),
                outcome(r),
            ),
    {
        let ghost before = self.store;
        let said = self.store.append_request_event(
            EventAppendParams {
                request_id: request_id.to_owned(),
                event_type: "request/running".to_owned(),
                payload_inline: "{}".to_owned(),
            },
        );
        assert(S::append_request_event_step(
            &before,
            crate::service_steps::running_event(request_id@),
            &self.store,
            outcome(said),
        ));
        match said {
            Ok(_) => self.answer_run(request_id, thread_id),
            Err(error) => Err(error),
        }
    }

    /// Lets a queued request try to take its lease.
    fn take_run(&mut self, caller_id: &str, request_id: &str, thread_id: String) -> (r: Result<
        RequestRunResponse,
        CloudStateError,
    >)
        requires
            old(self).valid(),
        ensures
            final(self).valid(),
            final(self).threads_made() == old(self).threads_made(),
            crate::service_steps::run_take(
                &old(self).store(),
                caller_id@,
                request_id@,
                thread_id@,
                &final(self).store(),
                outcome(r),
            ),
    {
        let ghost before = self.store;
        let read = self.store.read_request(request_id);
        let ghost found = outcome(read);
        assert(before.read_request_reply(request_id@, found));
        let request = match read {
            Ok(request) => request,
            Err(error) => return Err(error),
        };
        if request.status != RequestStatus::Queued {
            return self.answer_run(request.request_id.as_str(), thread_id);
        }
        let taken = self.store.acquire_thread_writer_lease(request.request_id.as_str(), caller_id);
        assert(S::acquire_thread_writer_lease_step(
            &before,
            request.request_id@,
            caller_id@,
            &self.store,
            outcome(taken),
        ));
        match taken {
            Ok(LeaseAcquireOutcome::Acquired { .. }) => self.start_run(
                request.request_id.as_str(),
                thread_id,
            ),
            Ok(LeaseAcquireOutcome::Queued) => self.answer_run(
                request.request_id.as_str(),
                thread_id,
            ),
            Err(error) => Err(error),
        }
    }

    /// Runs a request: records it, says that it waits, and starts it if its thread is free.
    pub fn run(&mut self, caller_id: &str, params: RequestRunParams) -> (r: Result<
        RequestRunResponse,
        CloudStateError,
    >)
        requires
            old(self).valid(),
            params.thread_id is None ==> old(self).threads_made() < u64::MAX,
        ensures
            final(self).valid(),
            ({
                let (made, thread_id) = crate::service_steps::thread_for(
                    old(self).threads_made(),
                    params.thread_id.deep_view(),
                );
                &&& final(self).threads_made() == made
                &&& crate::service_steps::run_step(
                    &old(self).store(),
                    CreateRequestView {
                        caller_id: caller_id@,
                        thread_id,
                        idempotency_key: params.idempotency_key@,
                        input_hash: params.input@,
                    },
                    &final(self).store(),
                    outcome(r),
                )
            }),
    {
        let ghost before = self.store;
        let thread_id = self.resolve_thread_id(params.thread_id, params.create_thread);
        let create = CreateRequestParams {
            caller_id: caller_id.to_owned(),
            thread_id: thread_id.clone(),
            idempotency_key: params.idempotency_key,
            input_hash: params.input,
        };
        let ghost asked = create.deep_view();
        let created = self.store.create_request(create);
        let ghost recorded = self.store;
        assert(S::create_request_step(&before, asked, &recorded, outcome(created)));
        let record = match created {
            Ok(record) => record,
            Err(error) => return Err(error),
        };
        let ghost request = record.deep_view();
        if record.latest_event_cursor == 0 {
            let said = self.store.append_request_event_if_latest_cursor(
                EventAppendParams {
                    request_id: record.request_id.clone(),
                    event_type: "request/queued".to_owned(),
                    payload_inline: "{}".to_owned(),
                },
                0,
            );
            let ghost announced = self.store;
            let ghost answered = outcome(said);
            assert(S::append_request_event_if_latest_cursor_step(
                &recorded,
                crate::service_steps::queued_event(request.request_id),
                0,
                &announced,
                answered,
            ));
            match said {
                Ok(_) => {},
                Err(error) => {
                    assert(crate::service_steps::run_announce(
                        &recorded,
                        caller_id@,
                        request,
                        thread_id@,
                        &self.store,
                        Err::<RequestRunResponseView, ErrorView>(error.deep_view()),
                    ));
                    return Err(error);
                },
            }
        }
        let r = self.take_run(caller_id, record.request_id.as_str(), thread_id);
        assert(crate::service_steps::run_announce(
            &recorded,
            caller_id@,
            request,
            thread_id@,
            &self.store,
            outcome(r),
        ));
        r
    }

    /// Appends items to a thread for a caller.
    pub fn append_thread_items_with_lease(
        &mut self,
        caller_id: &str,
        params: AppendThreadItemsWithLeaseParams,
    ) -> (r: Result<AppendThreadItemsWithLeaseResponse, CloudStateError>)
        requires
            old(self).valid(),
        ensures
            final(self).valid(),
            final(self).threads_made() == old(self).threads_made(),
            crate::service_steps::append_step(
                &old(self).store(),
                caller_id@,
                params.thread_id@,
                (LeaseAppendView {
                    request_id: params.request_id@,
                    lease_id: params.lease_id@,
                    writer_owner_token: params.writer_owner_token@,
                    fencing_token: params.fencing_token,
                    append_idempotency_key: params.append_idempotency_key@,
                    expected_thread_version: params.expected_thread_version,
                    payload_refs: params.payload_refs(),
                }),
                &final(self).store(),
                outcome(r),
            ),
    {
        let read = self.read_request_for_caller(caller_id, params.request_id.as_str());
        let ghost asked = LeaseAppendView {
            request_id: params.request_id@,
            lease_id: params.lease_id@,
            writer_owner_token: params.writer_owner_token@,
            fencing_token: params.fencing_token,
            append_idempotency_key: params.append_idempotency_key@,
            expected_thread_version: params.expected_thread_version,
            payload_refs: params.payload_refs(),
        };
        let ghost found = choose|found: Result<RequestView, ErrorView>| #[trigger]
            self.store().read_request_reply(asked.request_id, found) && outcome(read)
                == crate::service_steps::scoped(found, caller_id@);
        assert(self.store().read_request_reply(asked.request_id, found));
        let request = match read {
            Ok(request) => request,
            Err(error) => return Err(error),
        };
        if request.thread_id != params.thread_id {
            return Err(CloudStateError::ThreadMismatch);
        }
        let mut payload_refs: Vec<String> = Vec::new();
        let count: usize = params.items.len();
        for i in 0..count
            invariant
                count == params.items@.len(),
                payload_refs@.len() == i,
                forall|j: int|
                    0 <= j < i ==> (#[trigger] payload_refs@[j])@ == params.items@[j].payload_ref@,
        {
            payload_refs.push(params.items[i].payload_ref.clone());
        }
        assert(payload_refs.deep_view() =~= params.payload_refs());
        self.store.append_thread_items_with_lease(
            LeaseAppendParams {
                request_id: params.request_id,
                lease_id: params.lease_id,
                writer_owner_token: params.writer_owner_token,
                fencing_token: params.fencing_token,
                append_idempotency_key: params.append_idempotency_key,
                expected_thread_version: params.expected_thread_version,
                payload_refs,
            },
        )
    }

    /// Items of a thread to which the caller has access.
    pub fn thread_items_list(&self, caller_id: &str, params: ThreadItemsListParams) -> (r: Result<
        ThreadItemsListResponse,
        CloudStateError,
    >)
        requires
            self.valid(),
        ensures
            crate::service_steps::items_reply(
                &self.store(),
                caller_id@,
                params.thread_id@,
                params.cursor,
                crate::service_steps::list_limit(params.limit),
                outcome(r),
            ),
    {
        let asked = self.store.caller_can_access_thread(caller_id, params.thread_id.as_str());
        let ghost access = outcome(asked);
        assert(self.store().caller_can_access_thread_reply(
            caller_id@,
            params.thread_id@,
            access,
        ));
        match asked {
            Ok(true) => {},
            Ok(false) => return Err(CloudStateError::RequestNotFound),
            Err(error) => return Err(error),
        }
        let limit: usize = thread_items_list_limit(params.limit);
        let listed = self.store.list_thread_items(params.thread_id.as_str(), params.cursor, limit);
        let ghost shown = outcome(listed);
        assert(self.store().list_thread_items_reply(
            params.thread_id@,
            params.cursor,
            limit as nat,
            shown,
        ));
        match listed {
            Ok((data, next_cursor)) => Ok(ThreadItemsListResponse { data, next_cursor }),
            Err(error) => Err(error),
        }
    }

    /// A caller's request.
    pub fn read(&self, caller_id: &str, params: RequestReadParams) -> (r: Result<
        RequestReadResponse,
        CloudStateError,
    >)
        requires
            self.valid(),
        ensures
            crate::service_steps::read_reply(
                &self.store(),
                caller_id@,
                params.request_id@,
                outcome(r),
            ),
    {
        match self.read_request_for_caller(caller_id, params.request_id.as_str()) {
            Ok(request) => Ok(
                RequestReadResponse {
                    latest_event_cursor: request.latest_event_cursor,
                    request: request.to_protocol(),
                },
            ),
            Err(error) => Err(error),
        }
    }

    /// Notes the turn in which a caller's request runs.
    pub fn set_turn_id(&mut self, caller_id: &str, request_id: &str, turn_id: &str) -> (r: Result<
        RequestRecord,
        CloudStateError,
    >)
        requires
            old(self).valid(),
        ensures
            final(self).valid(),
            final(self).threads_made() == old(self).threads_made(),
            crate::service_steps::set_turn_step(
                &old(self).store(),
                caller_id@,
                request_id@,
                turn_id@,
                &final(self).store(),
                outcome(r),
            ),
    {
        match self.read_request_for_caller(caller_id, request_id) {
            Ok(_) => self.store.set_request_turn_id(request_id, turn_id),
            Err(error) => Err(error),
        }
    }

    /// Renews the leases of a request for an owner.
    pub fn renew_request_leases(&mut self, request_id: &str, owner_instance_id: &str) -> (r: Result<
        bool,
        CloudStateError,
    >)
        requires
            old(self).valid(),
        ensures
            final(self).valid(),
            final(self).threads_made() == old(self).threads_made(),
            S::renew_request_leases_step(
                &old(self).store(),
                request_id@,
                owner_instance_id@,
                &final(self).store(),
                outcome(r),
            ),
    {
        self.store.renew_request_leases(request_id, owner_instance_id)
    }

    /// Ends the requests whose owners have timed out.
    pub fn expire_owner_leases(&mut self) -> (r: Result<usize, CloudStateError>)
        requires
            old(self).valid(),
        ensures
            final(self).valid(),
            final(self).threads_made() == old(self).threads_made(),
            S::expire_owner_leases_step(&old(self).store(), &final(self).store(), outcome(r)),
    {
        self.store.expire_owner_leases()
    }

    /// Cancels a caller's request.
    pub fn cancel(&mut self, caller_id: &str, params: RequestCancelParams) -> (r: Result<
        RequestCancelResponse,
        CloudStateError,
    >)
        requires
            old(self).valid(),
        ensures
            final(self).valid(),
            final(self).threads_made() == old(self).threads_made(),
            crate::service_steps::cancel_step(
                &old(self).store(),
                caller_id@,
                params.request_id@,
                params.reason.deep_view(),
                &final(self).store(),
                outcome(r),
            ),
    {
        let ghost before = self.store;
        let payload_inline = crate::json::cancel_payload(params.reason);
        let ended = self.terminal_signal(
            caller_id,
            params.request_id.as_str(),
            TerminalSignal::CancelConfirmed,
            Some(payload_inline),
        );
        assert(crate::service_steps::terminal_step(
            &before,
            caller_id@,
            params.request_id@,
            TerminalSignal::CancelConfirmed,
            Some(crate::service_steps::cancel_payload(params.reason.deep_view())),
            &self.store,
            outcome(ended),
        ));
        match ended {
            Ok(response) => Ok(RequestCancelResponse { request: response.request }),
            Err(error) => Err(error),
        }
    }

    /// Reads the request of which a terminal signal answers.
    fn answer_terminal(&self, caller_id: &str, request_id: &str) -> (r: Result<
        RequestTerminalResponse,
        CloudStateError,
    >)
        requires
            self.valid(),
        ensures
            crate::service_steps::terminal_answer(
                &self.store(),
                caller_id@,
                request_id@,
                &self.store(),
                outcome(r),
            ),
    {
        match self.read_request_for_caller(caller_id, request_id) {
            Ok(request) => Ok(
                RequestTerminalResponse {
                    latest_event_cursor: request.latest_event_cursor,
                    request: request.to_protocol(),
                },
            ),
            Err(error) => Err(error),
        }
    }

    /// Ends a caller's request as the signal says, unless it is over.
    pub fn terminal_signal(
        &mut self,
        caller_id: &str,
        request_id: &str,
        signal: TerminalSignal,
        payload_inline: Option<String>,
    ) -> (r: Result<RequestTerminalResponse, CloudStateError>)
        requires
            old(self).valid(),
        ensures
            final(self).valid(),
            final(self).threads_made() == old(self).threads_made(),
            crate::service_steps::terminal_step(
                &old(self).store(),
                caller_id@,
                request_id@,
                signal,
                payload_inline.deep_view(),
                &final(self).store(),
                outcome(r),
            ),
    {
        let ghost before = self.store;
        let current = match self.read_request_for_caller(caller_id, request_id) {
            Ok(current) => current,
            Err(error) => return Err(error),
        };
        let transition = RequestStatusTransition::from_terminal_signal(current.status, signal);
        if !transition.changed {
            return self.answer_terminal(caller_id, request_id);
        }
        let payload = match payload_inline {
            Some(payload) => {
                match validate_event_payload_inline(payload.as_str()) {
                    Ok(_) => {},
                    Err(error) => return Err(error),
                }
                payload
            },
            None => "{}".to_owned(),
        };
        let marked = self.store.mark_request_terminal_with_event(
            EventAppendParams {
                request_id: request_id.to_owned(),
                event_type: terminal_event_type(transition.status).to_owned(),
                payload_inline: payload,
            },
            transition.status,
        );
        assert(S::mark_request_terminal_with_event_step(
            &before,
            crate::service_steps::terminal_event(request_id@, signal, payload_inline.deep_view()),
            signal.status(),
            &self.store,
            outcome(marked),
        ));
        match marked {
            Ok(_) => self.answer_terminal(caller_id, request_id),
            Err(error) => Err(error),
        }
    }

    /// Ends a caller's request.
    pub fn terminal(&mut self, caller_id: &str, params: RequestTerminalParams) -> (r: Result<
        RequestTerminalResponse,
        CloudStateError,
    >)
        requires
            old(self).valid(),
        ensures
            final(self).valid(),
            final(self).threads_made() == old(self).threads_made(),
            crate::service_steps::terminal_step(
                &old(self).store(),
                caller_id@,
                params.request_id@,
                params.signal,
                params.payload_inline.deep_view(),
                &final(self).store(),
                outcome(r),
            ),
    {
        self.terminal_signal(
            caller_id,
            params.request_id.as_str(),
            params.signal,
            params.payload_inline,
        )
    }

    /// Ends the request that runs in a turn.
    pub fn terminal_for_turn_id(
        &mut self,
        turn_id: &str,
        signal: TerminalSignal,
        payload_inline: Option<String>,
    ) -> (r: Result<RequestTerminalResponse, CloudStateError>)
        requires
            old(self).valid(),
        ensures
            final(self).valid(),
            final(self).threads_made() == old(self).threads_made(),
            crate::service_steps::terminal_turn_step(
                &old(self).store(),
                turn_id@,
                signal,
                payload_inline.deep_view(),
                &final(self).store(),
                outcome(r),
            ),
    {
        let read = self.store.read_request_by_turn_id(turn_id);
        let ghost found = outcome(read);
        assert(self.store().read_request_by_turn_id_reply(turn_id@, found));
        match read {
            Ok(request) => self.terminal_signal(
                request.caller_id.as_str(),
                request.request_id.as_str(),
                signal,
                payload_inline,
            ),
            Err(error) => Err(error),
        }
    }

    /// Adds an event to the request that runs in a turn.
    pub fn append_event_for_turn_id(
        &mut self,
        turn_id: &str,
        event_type: String,
        payload_inline: String,
    ) -> (r: Result<RequestEvent, CloudStateError>)
        requires
            old(self).valid(),
        ensures
            final(self).valid(),
            final(self).threads_made() == old(self).threads_made(),
            crate::service_steps::event_turn_step(
                &old(self).store(),
                turn_id@,
                event_type@,
                payload_inline@,
                &final(self).store(),
                outcome(r),
            ),
    {
        let ghost before = self.store;
        let read = self.store.read_request_by_turn_id(turn_id);
        let ghost found = outcome(read);
        assert(self.store().read_request_by_turn_id_reply(turn_id@, found));
        let request = match read {
            Ok(request) => request,
            Err(error) => return Err(error),
        };
        let event = EventAppendParams {
            request_id: request.request_id,
            event_type,
            payload_inline,
        };
        let ghost asked = event.deep_view();
        let said = self.store.append_request_event(event);
        assert(S::append_request_event_step(&before, asked, &self.store, outcome(said)));
        match said {
            Ok(event) => Ok(event_record_into_protocol(event)),
            Err(error) => Err(error),
        }
    }

    /// Events of a caller's request.
    pub fn events_list(&self, caller_id: &str, params: RequestEventsListParams) -> (r: Result<
        RequestEventsListResponse,
        CloudStateError,
    >)
        requires
            self.valid(),
        ensures
            crate::service_steps::events_reply(
                &self.store(),
                caller_id@,
                params.request_id@,
                params.cursor,
                crate::service_steps::list_limit(params.limit),
                outcome(r),
            ),
    {
        match self.read_request_for_caller(caller_id, params.request_id.as_str()) {
            Ok(_) => {},
            Err(error) => return Err(error),
        }
        let limit: usize = request_events_list_limit(params.limit);
        let listed = self.store.list_request_events(
            params.request_id.as_str(),
            params.cursor,
            limit,
        );
        let ghost shown = outcome(listed);
        assert(self.store().list_request_events_reply(
            params.request_id@,
            params.cursor,
            limit as nat,
            shown,
        ));
        match listed {
            Ok(page) => Ok(page.into_protocol()),
            Err(error) => Err(error),
        }
    }

    /// Keeps the configuration and the metadata of a caller's request.
    pub fn persist_request_context(
        &mut self,
        caller_id: &str,
        config_snapshot: ConfigSnapshotRecord,
        state_metadata: StateMetadataRecord,
    ) -> (r: Result<(), CloudStateError>)
        requires
            old(self).valid(),
        ensures
            final(self).valid(),
            final(self).threads_made() == old(self).threads_made(),
            crate::service_steps::persist_step(
                &old(self).store(),
                caller_id@,
                config_snapshot.deep_view(),
                state_metadata.deep_view(),
                &final(self).store(),
                outcome(r),
            ),
    {
        let ghost before = self.store;
        let ghost config = config_snapshot.deep_view();
        let read = self.read_request_for_caller(caller_id, config_snapshot.request_id.as_str());
        let ghost found = choose|found: Result<RequestView, ErrorView>| #[trigger]
            self.store().read_request_reply(config.request_id, found) && outcome(read)
                == crate::service_steps::scoped(found, caller_id@);
        assert(self.store().read_request_reply(config.request_id, found));
        let request = match read {
            Ok(request) => request,
            Err(error) => return Err(error),
        };
        if request.thread_id != config_snapshot.thread_id || request.thread_id
            != state_metadata.thread_id {
            return Err(CloudStateError::ThreadMismatch);
        }
        let kept = self.store.persist_config_snapshot(config_snapshot);
        assert(S::persist_config_snapshot_step(&before, config, &self.store, outcome(kept)));
        match kept {
            Ok(_) => self.store.upsert_state_metadata(state_metadata),
            Err(error) => Err(error),
        }
    }
}

} // verus!
