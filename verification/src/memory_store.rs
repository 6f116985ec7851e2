//! A store of request state that is kept in memory.
use vstd::prelude::*;

use crate::json::{
    append_payload_refs_fingerprint, append_payload_refs_match, validate_event_payload_inline,
    validate_json_payload,
};
use crate::model::{AppendView, LeaseView, StoreModel};
use crate::protocol::append::ThreadItemView;
use crate::protocol::{
    AppendThreadItemsWithLeaseResponse, RequestStatus, ThreadItemRecord, WriterLeaseRecord,
};
use crate::records::{
    outcome, CloudStateError, ConfigSnapshotRecord, CreateRequestParams, ErrorView,
    EventAppendParams, EventRecord, EventsPage, LeaseAcquireOutcome, LeaseAppendParams,
    RequestRecord, StateMetadataRecord, TerminalStatusUpdate,
};
use crate::table::{Row, Table};
use crate::text::numbered;

verus! {

/// A held writer lease.
#[derive(Debug)]
struct ThreadWriterLeaseRecord {
    lease_id: String,
    request_id: String,
    owner_instance_id: String,
    fencing_token: u64,
}

impl DeepView for ThreadWriterLeaseRecord {
    type V = LeaseView;

    closed spec fn deep_view(&self) -> LeaseView {
        LeaseView {
            lease_id: self.lease_id@,
            request_id: self.request_id@,
            owner_instance_id: self.owner_instance_id@,
            fencing_token: self.fencing_token,
        }
    }
}

/// An append that was made, with the fingerprint of its payload references.
#[derive(Debug)]
struct AppendResultRecord {
    request_id: String,
    response: AppendThreadItemsWithLeaseResponse,
    payload_refs_fingerprint: String,
}

impl DeepView for AppendResultRecord {
    type V = AppendView;

    closed spec fn deep_view(&self) -> AppendView {
        AppendView {
            request_id: self.request_id@,
            response: self.response,
            payload_refs: crate::json::json_texts(self.payload_refs_fingerprint@),
        }
    }
}

/// How many of the requests are not queued any more.
closed spec fn started(rows: Seq<Row<String, RequestRecord>>) -> nat
    decreases rows.len(),
{
    if rows.len() == 0 {
        0
    } else {
        started(rows.drop_last()) + if rows.last().value.status == RequestStatus::Queued {
            0nat
        } else {
            1nat
        }
    }
}

proof fn started_at_most(rows: Seq<Row<String, RequestRecord>>)
    ensures
        started(rows) <= rows.len(),
    decreases rows.len(),
{
    if rows.len() > 0 {
        started_at_most(rows.drop_last());
    }
}

/// A queued request is not counted, so that fewer are counted than there are.
proof fn started_below(rows: Seq<Row<String, RequestRecord>>, i: int)
    requires
        0 <= i < rows.len(),
        rows[i].value.status == RequestStatus::Queued,
    ensures
        started(rows) < rows.len(),
    decreases rows.len(),
{
    if i == rows.len() - 1 {
        started_at_most(rows.drop_last());
    } else {
        started_below(rows.drop_last(), i);
    }
}

/// A request that leaves the queue is counted from then on.
proof fn started_update(
    rows: Seq<Row<String, RequestRecord>>,
    i: int,
    row: Row<String, RequestRecord>,
)
    requires
        0 <= i < rows.len(),
        row.value.status == RequestStatus::Queued ==> rows[i].value.status == RequestStatus::Queued,
    ensures
        rows[i].value.status == RequestStatus::Queued && row.value.status != RequestStatus::Queued
            ==> started(rows.update(i, row)) == started(rows) + 1,
        started(rows.update(i, row)) >= started(rows),
    decreases rows.len(),
{
    let after = rows.update(i, row);
    if i == rows.len() - 1 {
        assert(after.drop_last() =~= rows.drop_last());
    } else {
        assert(after.drop_last() =~= rows.drop_last().update(i, row));
        started_update(rows.drop_last(), i, row);
    }
}

/// A store of request state that is kept in memory.
#[derive(Debug)]
pub struct InMemoryCloudStateStore {
    requests: Table<String, RequestRecord>,
    leases: Table<String, ThreadWriterLeaseRecord>,
    appends: Table<(String, String), AppendResultRecord>,
    events: Table<String, Vec<EventRecord>>,
    items: Table<String, Vec<ThreadItemRecord>>,
    configs: Table<String, ConfigSnapshotRecord>,
    metadata: Table<(String, String), StateMetadataRecord>,
    leases_granted: u64,
}

impl View for InMemoryCloudStateStore {
    type V = StoreModel;

    closed spec fn view(&self) -> StoreModel {
        StoreModel {
            requests: self.requests.contents(),
            leases: self.leases.contents(),
            appends: self.appends.contents(),
            events: self.events.contents(),
            items: self.items.contents(),
            configs: self.configs.contents(),
            metadata: self.metadata.contents(),
            request_count: self.requests.rows().len(),
            lease_count: self.leases_granted as nat,
        }
    }
}

impl Default for InMemoryCloudStateStore {
    fn default() -> (r: Self)
        ensures
            r.wf(),
            r@ == StoreModel::empty(),
    {
        let r = InMemoryCloudStateStore {
            requests: Table::new(),
            leases: Table::new(),
            appends: Table::new(),
            events: Table::new(),
            items: Table::new(),
            configs: Table::new(),
            metadata: Table::new(),
            leases_granted: 0,
        };
        proof {
            StoreModel::empty_wf();
        }
        r
    }
}

impl InMemoryCloudStateStore {
    /// Keys occur once, and each lease that was granted took a request out of the queue.
    spec fn tables_wf(&self) -> bool {
        &&& self.requests.wf()
        &&& self.leases.wf()
        &&& self.appends.wf()
        &&& self.events.wf()
        &&& self.items.wf()
        &&& self.configs.wf()
        &&& self.metadata.wf()
        &&& self.leases_granted <= started(self.requests.rows())
        &&& forall|i: int|
            0 <= i < self.requests.rows().len() ==> (#[trigger] self.requests.rows()[i]).key@
                == self.requests.rows()[i].value.request_id@
    }

    /// The invariant of the store.
    pub closed spec fn wf(&self) -> bool {
        self.tables_wf() && self@.wf()
    }

    /// What holds of every state of a store holds of this one.
    pub proof fn model_wf(&self)
        requires
            self.wf(),
        ensures
            self@.wf(),
    {
    }

    /// Whether row `i` holds request `id`.
    spec fn request_at(&self, i: int, id: Seq<char>) -> bool {
        &&& 0 <= i < self.requests.rows().len()
        &&& self.requests.rows()[i].value.request_id@ == id
        &&& self@.requests.dom().contains(id)
        &&& self@.requests[id] == self.requests.rows()[i].value.deep_view()
    }

    fn find_request(&self, request_id: &str) -> (r: Option<usize>)
        requires
            self.tables_wf(),
        ensures
            match r {
                Some(i) => self.request_at(i as int, request_id@),
                None => !self@.requests.dom().contains(request_id@),
            },
    {
        let key = request_id.to_owned();
        self.requests.find(&key)
    }

    fn find_key(&self, caller_id: &String, thread_id: &String, idempotency_key: &String) -> (r:
        Option<usize>)
        requires
            self.tables_wf(),
        ensures
            match r {
                Some(i) => {
                    let id = self.requests.rows()[i as int].value.request_id@;
                    self.request_at(i as int, id) && self@.keyed(
                        id,
                        caller_id@,
                        thread_id@,
                        idempotency_key@,
                    )
                },
                None => forall|id: Seq<char>|
                    !self@.keyed(id, caller_id@, thread_id@, idempotency_key@),
            },
    {
        let count: usize = self.requests.len();
        for i in 0..count
            invariant
                count == self.requests.rows().len(),
                self.tables_wf(),
                forall|j: int|
                    0 <= j < i ==> {
                        let request = (#[trigger] self.requests.rows()[j]).value;
                        !(request.caller_id@ == caller_id@ && request.thread_id@ == thread_id@
                            && request.idempotency_key@ == idempotency_key@)
                    },
        {
            let request = &self.requests.row(i).value;
            if request.caller_id == *caller_id && request.thread_id == *thread_id
                && request.idempotency_key == *idempotency_key {
                proof {
                    self.requests.row_in_contents(i as int);
                }
                return Some(i);
            }
        }
        assert forall|id: Seq<char>| !self@.keyed(id, caller_id@, thread_id@, idempotency_key@) by {
            if self@.keyed(id, caller_id@, thread_id@, idempotency_key@) {
                let j = self.requests.index_of(id);
                assert(self.requests.row_is(j, id));
                self.requests.row_in_contents(j);
            }
        }
        None
    }

    /// Puts a changed record into row `i`.
    fn put_request(&mut self, i: usize, record: RequestRecord)
        requires
            old(self).tables_wf(),
            i < old(self).requests.rows().len(),
            record.request_id@ == old(self).requests.rows()[i as int].value.request_id@,
            record.status == RequestStatus::Queued ==> old(
                self,
            ).requests.rows()[i as int].value.status == RequestStatus::Queued,
        ensures
            final(self).tables_wf(),
            final(self)@ == old(self)@.with_request(record.request_id@, record.deep_view()),
            final(self).requests.rows() == old(self).requests.rows().update(
                i as int,
                Row { key: old(self).requests.rows()[i as int].key, value: record },
            ),
            old(self).requests.rows()[i as int].value.status == RequestStatus::Queued
                && record.status != RequestStatus::Queued ==> started(final(self).requests.rows())
                == started(old(self).requests.rows()) + 1,
    {
        let ghost before = self.requests.rows();
        proof {
            let row = Row { key: before[i as int].key, value: record };
            started_update(before, i as int, row);
        }
        let _ = self.requests.replace(i, record);
    }

    /// Records a request, or finds the one that was recorded under the same key.
    pub fn create_request(&mut self, params: CreateRequestParams) -> (r: Result<
        RequestRecord,
        CloudStateError,
    >)
        requires
            old(self).wf(),
        ensures
            final(self).wf(),
            (final(self)@, outcome(r)) == old(self)@.create_request(params.deep_view()),
    {
        let ghost before = *self;
        let ghost shown = params.deep_view();
        proof {
            self@.create_request_wf(shown);
            self@.next_request_id_is_new();
        }
        match self.find_key(&params.caller_id, &params.thread_id, &params.idempotency_key) {
            Some(i) => {
                let existing = &self.requests.row(i).value;
                proof {
                    let id = existing.request_id@;
                    let chosen = choose|id: Seq<char>|
                        self@.keyed(id, shown.caller_id, shown.thread_id, shown.idempotency_key);
                    assert(self@.requests.dom().contains(chosen));
                    assert(self@.requests.dom().contains(id));
                    assert(chosen == id);
                }
                if existing.input_hash != params.input_hash {
                    return Err(CloudStateError::IdempotencyConflict);
                }
                Ok(existing.clone())
            },
            None => {
                let number: u128 = self.requests.len() as u128 + 1;
                let record = RequestRecord {
                    request_id: numbered("request-", number),
                    caller_id: params.caller_id,
                    thread_id: params.thread_id,
                    idempotency_key: params.idempotency_key,
                    input_hash: params.input_hash,
                    turn_id: None,
                    status: RequestStatus::Queued,
                    latest_event_cursor: 0,
                };
                self.requests.push(record.request_id.clone(), record.clone());
                proof {
                    let rows = self.requests.rows();
                    assert(rows.drop_last() =~= before.requests.rows());
                    assert forall|i: int| 0 <= i < rows.len() implies (#[trigger] rows[i]).key@
                        == rows[i].value.request_id@ by {
                        if i < rows.len() - 1 {
                            assert(rows[i] == before.requests.rows()[i]);
                        }
                    }
                }
                Ok(record)
            },
        }
    }

    /// One request.
    pub fn read_request(&self, request_id: &str) -> (r: Result<RequestRecord, CloudStateError>)
        requires
            self.wf(),
        ensures
            outcome(r) == self@.read_request(request_id@),
    {
        match self.find_request(request_id) {
            Some(i) => Ok(self.requests.row(i).value.clone()),
            None => Err(CloudStateError::RequestNotFound),
        }
    }

    /// A request that runs in the turn.
    pub fn read_request_by_turn_id(&self, turn_id: &str) -> (r: Result<
        RequestRecord,
        CloudStateError,
    >)
        requires
            self.wf(),
        ensures
            self@.read_request_by_turn_id(turn_id@, outcome(r)),
    {
        let wanted = turn_id.to_owned();
        let count: usize = self.requests.len();
        for i in 0..count
            invariant
                count == self.requests.rows().len(),
                self.wf(),
                wanted@ == turn_id@,
                forall|j: int|
                    0 <= j < i ==> (#[trigger] self.requests.rows()[j]).value.deep_view().turn_id
                        != Some(turn_id@),
        {
            let request = &self.requests.row(i).value;
            if let Some(turn) = &request.turn_id {
                if *turn == wanted {
                    proof {
                        self.requests.row_in_contents(i as int);
                        assert(self@.in_turn(request.request_id@, turn_id@));
                    }
                    return Ok(request.clone());
                }
            }
        }
        assert forall|id: Seq<char>| !self@.in_turn(id, turn_id@) by {
            if self@.in_turn(id, turn_id@) {
                let j = self.requests.index_of(id);
                assert(self.requests.row_is(j, id));
                self.requests.row_in_contents(j);
            }
        }
        Err(CloudStateError::RequestNotFound)
    }

    /// Notes the turn in which a request runs.
    pub fn set_request_turn_id(&mut self, request_id: &str, turn_id: &str) -> (r: Result<
        RequestRecord,
        CloudStateError,
    >)
        requires
            old(self).wf(),
        ensures
            final(self).wf(),
            (final(self)@, outcome(r)) == old(self)@.set_request_turn_id(request_id@, turn_id@),
    {
        proof {
            self@.set_request_turn_id_wf(request_id@, turn_id@);
        }
        match self.find_request(request_id) {
            Some(i) => {
                let mut record = self.requests.row(i).value.clone();
                record.turn_id = Some(turn_id.to_owned());
                let changed = record.clone();
                self.put_request(i, changed);
                Ok(record)
            },
            None => Err(CloudStateError::RequestNotFound),
        }
    }

    /// Whether the caller has a request on the thread.
    pub fn caller_can_access_thread(&self, caller_id: &str, thread_id: &str) -> (r: Result<
        bool,
        CloudStateError,
    >)
        requires
            self.wf(),
        ensures
            r == Ok::<bool, CloudStateError>(
                self@.caller_can_access_thread(caller_id@, thread_id@),
            ),
    {
        let caller = caller_id.to_owned();
        let thread = thread_id.to_owned();
        let count: usize = self.requests.len();
        for i in 0..count
            invariant
                count == self.requests.rows().len(),
                self.wf(),
                caller@ == caller_id@,
                thread@ == thread_id@,
                forall|j: int|
                    0 <= j < i ==> {
                        let request = (#[trigger] self.requests.rows()[j]).value;
                        !(request.caller_id@ == caller_id@ && request.thread_id@ == thread_id@)
                    },
        {
            let request = &self.requests.row(i).value;
            if request.caller_id == caller && request.thread_id == thread {
                proof {
                    self.requests.row_in_contents(i as int);
                    assert(self@.on_thread_of(request.request_id@, caller_id@, thread_id@));
                }
                return Ok(true);
            }
        }
        assert forall|id: Seq<char>| !self@.on_thread_of(id, caller_id@, thread_id@) by {
            if self@.on_thread_of(id, caller_id@, thread_id@) {
                let j = self.requests.index_of(id);
                assert(self.requests.row_is(j, id));
                self.requests.row_in_contents(j);
            }
        }
        Ok(false)
    }

    /// Takes the lease of the request's thread for an owner, if no lease is held there.
    pub fn acquire_thread_writer_lease(&mut self, request_id: &str, owner_instance_id: &str) -> (r:
        Result<LeaseAcquireOutcome, CloudStateError>)
        requires
            old(self).wf(),
        ensures
            final(self).wf(),
            (final(self)@, outcome(r)) == old(self)@.acquire_thread_writer_lease(
                request_id@,
                owner_instance_id@,
            ),
    {
        let ghost before = *self;
        match self.find_request(request_id) {
            Some(i) => {
                let mut record = self.requests.row(i).value.clone();
                if self.leases.get(&record.thread_id).is_some() {
                    return Ok(LeaseAcquireOutcome::Queued);
                }
                if record.status != RequestStatus::Queued {
                    return Err(CloudStateError::RequestNotQueued);
                }
                let requests: usize = self.requests.len();
                proof {
                    started_below(self.requests.rows(), i as int);
                    assert(self.leases_granted < requests);
                    self@.acquire_thread_writer_lease_wf(request_id@, owner_instance_id@);
                }
                let token: u64 = self.leases_granted + 1;
                let id = numbered("lease-", token as u128);
                let lease = ThreadWriterLeaseRecord {
                    lease_id: id.clone(),
                    request_id: record.request_id.clone(),
                    owner_instance_id: owner_instance_id.to_owned(),
                    fencing_token: token,
                };
                record.status = RequestStatus::Running;
                self.leases.insert(record.thread_id.clone(), lease);
                self.put_request(i, record);
                self.leases_granted = token;
                Ok(LeaseAcquireOutcome::Acquired { lease_id: id, fencing_token: token })
            },
            None => Err(CloudStateError::RequestNotFound),
        }
    }

    /// The lease under which a request writes, if it holds one.
    pub fn read_thread_writer_lease(&self, request_id: &str) -> (r: Result<
        Option<WriterLeaseRecord>,
        CloudStateError,
    >)
        requires
            self.wf(),
        ensures
            outcome(r) == self@.read_thread_writer_lease(request_id@),
    {
        match self.find_request(request_id) {
            Some(i) => {
                let request = &self.requests.row(i).value;
                match self.leases.get(&request.thread_id) {
                    Some(lease) => {
                        if lease.request_id == request.request_id {
                            Ok(
                                Some(
                                    WriterLeaseRecord {
                                        lease_id: lease.lease_id.clone(),
                                        writer_owner_token: lease.owner_instance_id.clone(),
                                        fencing_token: lease.fencing_token,
                                    },
                                ),
                            )
                        } else {
                            Ok(None)
                        }
                    },
                    None => Ok(None),
                }
            },
            None => Err(CloudStateError::RequestNotFound),
        }
    }

    /// Gives up the lease of request `i`, if it holds one.
    fn release_lease(&mut self, i: usize)
        requires
            old(self).tables_wf(),
            i < old(self).requests.rows().len(),
        ensures
            final(self).tables_wf(),
            final(self).requests == old(self).requests,
            final(self)@ == old(self)@.released(
                old(self).requests.rows()[i as int].value.request_id@,
            ),
    {
        proof {
            self.requests.row_in_contents(i as int);
        }
        let request = &self.requests.row(i).value;
        let held = match self.leases.get(&request.thread_id) {
            Some(lease) => lease.request_id == request.request_id,
            None => false,
        };
        if held {
            let thread_id = request.thread_id.clone();
            self.leases.remove(&thread_id);
        }
    }

    /// Ends request `i` at a status.
    fn end_request(&mut self, i: usize, status: RequestStatus)
        requires
            old(self).tables_wf(),
            i < old(self).requests.rows().len(),
            status.terminal(),
        ensures
            final(self).tables_wf(),
            final(self).requests.rows().len() == old(self).requests.rows().len(),
            final(self).requests.rows()[i as int].value.request_id == old(
                self,
            ).requests.rows()[i as int].value.request_id,
            final(self)@ == old(self)@.ended(
                old(self).requests.rows()[i as int].value.request_id@,
                status,
            ),
    {
        proof {
            self.requests.row_in_contents(i as int);
        }
        self.release_lease(i);
        let mut record = self.requests.row(i).value.clone();
        record.status = status;
        self.put_request(i, record);
    }

    /// Adds an event to request `i`.
    fn push_event(&mut self, i: usize, event_type: String, payload_inline: String) -> (r:
        EventRecord)
        requires
            old(self).wf(),
            i < old(self).requests.rows().len(),
        ensures
            final(self).wf(),
            (final(self)@, r.deep_view()) == old(self)@.with_event(
                crate::records::EventAppendView {
                    request_id: old(self).requests.rows()[i as int].value.request_id@,
                    event_type: event_type@,
                    payload_inline: payload_inline@,
                },
            ),
    {
        let ghost before = *self;
        let ghost params = crate::records::EventAppendView {
            request_id: self.requests.rows()[i as int].value.request_id@,
            event_type: event_type@,
            payload_inline: payload_inline@,
        };
        proof {
            self.requests.row_in_contents(i as int);
        }
        let mut record = self.requests.row(i).value.clone();
        let key = record.request_id.clone();
        let found = self.events.find(&key);
        let mut log: Vec<EventRecord> = match found {
            Some(at) => self.events.replace(at, Vec::new()),
            None => Vec::new(),
        };
        let ghost logged = log.deep_view();
        assert(logged =~= before@.events_of(params.request_id));
        log.push(EventRecord { request_id: key.clone(), sequence: 0, event_type, payload_inline });
        let sequence: u64 = log.len() as u64;
        let last: usize = log.len() - 1;
        log[last].sequence = sequence;
        let event = log[last].clone();
        proof {
            assert(log.deep_view() =~= logged.push(event.deep_view()));
            before@.with_event_wf(params);
        }
        match found {
            Some(at) => {
                let _ = self.events.replace(at, log);
            },
            None => self.events.push(key, log),
        }
        proof {
            assert(self.events.contents() =~= before.events.contents().insert(
                params.request_id,
                logged.push(event.deep_view()),
            ));
        }
        record.latest_event_cursor = sequence;
        self.put_request(i, record);
        event
    }

    /// Confirms that an owner still holds the lease of a request; else the request is over.
    pub fn renew_request_leases(&mut self, request_id: &str, owner_instance_id: &str) -> (r: Result<
        bool,
        CloudStateError,
    >)
        requires
            old(self).wf(),
        ensures
            final(self).wf(),
            (final(self)@, outcome(r)) == old(self)@.renew_request_leases(
                request_id@,
                owner_instance_id@,
            ),
    {
        let owner = owner_instance_id.to_owned();
        match self.find_request(request_id) {
            Some(i) => {
                let request = &self.requests.row(i).value;
                if request.status.is_terminal() {
                    return Ok(false);
                }
                let active = match self.leases.get(&request.thread_id) {
                    Some(lease) => lease.request_id == request.request_id
                        && lease.owner_instance_id == owner,
                    None => false,
                };
                if active {
                    return Ok(true);
                }
                let event = EventAppendParams {
                    request_id: request_id.to_owned(),
                    event_type: "request/lease_lost".to_owned(),
                    payload_inline: "{\"reason\":\"thread_writer_lease_lost\"}".to_owned(),
                };
                match self.mark_request_terminal_with_event(event, RequestStatus::LeaseLost) {
                    Ok(_) => Ok(false),
                    Err(error) => Err(error),
                }
            },
            None => Err(CloudStateError::RequestNotFound),
        }
    }

    /// In memory an owner does not time out.
    pub fn expire_owner_leases(&mut self) -> (r: Result<usize, CloudStateError>)
        requires
            old(self).wf(),
        ensures
            *final(self) == *old(self),
            r == Ok::<usize, CloudStateError>(0),
    {
        Ok(0)
    }

    /// Adds items to the end of a thread.
    fn push_items(&mut self, thread_id: &String, payload_refs: Vec<String>) -> (r: u64)
        requires
            old(self).tables_wf(),
        ensures
            final(self).tables_wf(),
            final(self).requests == old(self).requests,
            r == old(self)@.version(thread_id@) + payload_refs@.len(),
            final(self)@ == (StoreModel {
                items: old(self)@.items.insert(
                    thread_id@,
                    old(self)@.items_of(thread_id@) + crate::model::numbered_items(
                        thread_id@,
                        old(self)@.version(thread_id@),
                        payload_refs.deep_view(),
                    ),
                ),
                ..old(self)@
            }),
    {
        let ghost before = *self;
        let found = self.items.find(thread_id);
        let mut log: Vec<ThreadItemRecord> = match found {
            Some(at) => self.items.replace(at, Vec::new()),
            None => Vec::new(),
        };
        let ghost logged = log.deep_view();
        assert(logged =~= before@.items_of(thread_id@));
        let count: usize = payload_refs.len();
        for n in 0..count
            invariant
                count == payload_refs@.len(),
                log.deep_view() == logged + crate::model::numbered_items(
                    thread_id@,
                    logged.len(),
                    payload_refs.deep_view(),
                ).take(n as int),
        {
            let ghost so_far = log.deep_view();
            log.push(
                ThreadItemRecord {
                    thread_id: thread_id.clone(),
                    sequence: 0,
                    payload_ref: payload_refs[n].clone(),
                },
            );
            let last: usize = log.len() - 1;
            log[last].sequence = log.len() as u64;
            proof {
                let all = crate::model::numbered_items(
                    thread_id@,
                    logged.len(),
                    payload_refs.deep_view(),
                );
                assert(so_far.len() == logged.len() + n);
                assert(log.deep_view() =~= so_far.push(log@[last as int].deep_view()));
                assert(all.take(n + 1) =~= all.take(n as int).push(all[n as int]));
                assert(log.deep_view() =~= logged + all.take(n + 1));
            }
        }
        let version: u64 = log.len() as u64;
        proof {
            let all = crate::model::numbered_items(
                thread_id@,
                logged.len(),
                payload_refs.deep_view(),
            );
            assert(all.take(count as int) =~= all);
            assert(log.deep_view().len() == log@.len());
        }
        let ghost shown = log.deep_view();
        match found {
            Some(at) => {
                let _ = self.items.replace(at, log);
            },
            None => self.items.push(thread_id.clone(), log),
        }
        assert(self.items.contents() =~= before.items.contents().insert(thread_id@, shown));
        version
    }

    /// Appends items to the thread of a request, under its lease.
    pub fn append_thread_items_with_lease(&mut self, params: LeaseAppendParams) -> (r: Result<
        AppendThreadItemsWithLeaseResponse,
        CloudStateError,
    >)
        requires
            old(self).wf(),
        ensures
            final(self).wf(),
            (final(self)@, outcome(r)) == old(self)@.append_thread_items_with_lease(
                params.deep_view(),
            ),
    {
        let ghost before = *self;
        let ghost shown = params.deep_view();
        if params.payload_refs.len() == 0 {
            return Err(CloudStateError::EmptyAppend);
        }
        let i: usize = match self.find_request(params.request_id.as_str()) {
            Some(i) => i,
            None => return Err(CloudStateError::RequestNotFound),
        };
        let request = self.requests.row(i).value.clone();
        let fingerprint = match append_payload_refs_fingerprint(&params.payload_refs) {
            Ok(fingerprint) => fingerprint,
            Err(error) => return Err(error),
        };
        let (held, valid) = match self.leases.get(&request.thread_id) {
            Some(lease) => (
                lease.request_id == params.request_id,
                lease.request_id == params.request_id && lease.lease_id == params.lease_id
                    && lease.owner_instance_id == params.writer_owner_token && lease.fencing_token
                    == params.fencing_token,
            ),
            None => (false, false),
        };
        assert(held == self@.holds_lease(shown.request_id));
        assert(valid == self@.lease_matches(shown));
        if !valid {
            if held {
                proof {
                    self@.ended_wf(shown.request_id, RequestStatus::LeaseLost);
                }
                self.end_request(i, RequestStatus::LeaseLost);
            }
            return Err(CloudStateError::LeaseLost);
        }
        let key = (request.thread_id.clone(), params.append_idempotency_key.clone());
        if let Some(existing) = self.appends.get(&key) {
            if existing.request_id != params.request_id {
                return Err(CloudStateError::IdempotencyConflict);
            }
            if !append_payload_refs_match(
                existing.payload_refs_fingerprint.as_str(),
                &params.payload_refs,
            ) {
                return Err(CloudStateError::IdempotencyConflict);
            }
            return Ok(
                AppendThreadItemsWithLeaseResponse {
                    thread_version: existing.response.thread_version,
                    first_append_sequence: existing.response.first_append_sequence,
                    last_append_sequence: existing.response.last_append_sequence,
                    deduplicated: true,
                },
            );
        }
        let version: u64 = match self.items.get(&request.thread_id) {
            Some(items) => items.len() as u64,
            None => 0,
        };
        assert(version == self@.version(request.thread_id@));
        if let Some(expected) = params.expected_thread_version {
            if expected != version {
                return Err(CloudStateError::ThreadVersionConflict);
            }
        }
        let next_version: u64 = self.push_items(&request.thread_id, params.payload_refs);
        proof {
            before@.with_items_wf(shown);
        }
        let response = AppendThreadItemsWithLeaseResponse {
            thread_version: next_version,
            first_append_sequence: version + 1,
            last_append_sequence: next_version,
            deduplicated: false,
        };
        self.appends.insert(
            key,
            AppendResultRecord {
                request_id: params.request_id,
                response,
                payload_refs_fingerprint: fingerprint,
            },
        );
        Ok(response)
    }

    /// Ends a request at a status, unless it is over, and releases its lease.
    pub fn mark_request_terminal(&mut self, request_id: &str, status: RequestStatus) -> (r: Result<
        TerminalStatusUpdate,
        CloudStateError,
    >)
        requires
            old(self).wf(),
            status.terminal(),
        ensures
            final(self).wf(),
            (final(self)@, outcome(r)) == old(self)@.mark_request_terminal(request_id@, status),
    {
        match self.find_request(request_id) {
            Some(i) => {
                proof {
                    self@.ended_wf(request_id@, status);
                    self@.only_running_requests_hold_leases(request_id@);
                }
                let current = self.requests.row(i).value.status;
                if current.is_terminal() || current == status {
                    self.release_lease(i);
                    Ok(TerminalStatusUpdate::Unchanged)
                } else {
                    self.end_request(i, status);
                    Ok(TerminalStatusUpdate::Changed)
                }
            },
            None => Err(CloudStateError::RequestNotFound),
        }
    }

    /// Ends a request at a status, unless it is over, and records that as an event.
    pub fn mark_request_terminal_with_event(
        &mut self,
        params: EventAppendParams,
        status: RequestStatus,
    ) -> (r: Result<TerminalStatusUpdate, CloudStateError>)
        requires
            old(self).wf(),
            status.terminal(),
        ensures
            final(self).wf(),
            (final(self)@, outcome(r)) == old(self)@.mark_request_terminal_with_event(
                params.deep_view(),
                status,
            ),
            crate::json::own_payload(params.payload_inline@) ==> crate::json::json_valid(
                params.payload_inline@,
            ),
    {
        match validate_event_payload_inline(params.payload_inline.as_str()) {
            Ok(_) => {},
            Err(error) => return Err(error),
        }
        match self.find_request(params.request_id.as_str()) {
            Some(i) => {
                let current = self.requests.row(i).value.status;
                if current.is_terminal() || current == status {
                    return Ok(TerminalStatusUpdate::Unchanged);
                }
                proof {
                    self@.ended_wf(params.request_id@, status);
                }
                self.end_request(i, status);
                let _ = self.push_event(i, params.event_type, params.payload_inline);
                Ok(TerminalStatusUpdate::Changed)
            },
            None => Err(CloudStateError::RequestNotFound),
        }
    }

    /// Adds an event to a request.
    pub fn append_request_event(&mut self, params: EventAppendParams) -> (r: Result<
        EventRecord,
        CloudStateError,
    >)
        requires
            old(self).wf(),
        ensures
            final(self).wf(),
            (final(self)@, outcome(r)) == old(self)@.append_request_event(params.deep_view()),
            crate::json::own_payload(params.payload_inline@) ==> crate::json::json_valid(
                params.payload_inline@,
            ),
    {
        match validate_event_payload_inline(params.payload_inline.as_str()) {
            Ok(_) => {},
            Err(error) => return Err(error),
        }
        match self.find_request(params.request_id.as_str()) {
            Some(i) => Ok(self.push_event(i, params.event_type, params.payload_inline)),
            None => Err(CloudStateError::RequestNotFound),
        }
    }

    /// Adds an event to a request whose latest event is the expected one.
    pub fn append_request_event_if_latest_cursor(
        &mut self,
        params: EventAppendParams,
        expected_latest_event_cursor: u64,
    ) -> (r: Result<Option<EventRecord>, CloudStateError>)
        requires
            old(self).wf(),
        ensures
            final(self).wf(),
            (final(self)@, outcome(r)) == old(self)@.append_request_event_if_latest_cursor(
                params.deep_view(),
                expected_latest_event_cursor,
            ),
            crate::json::own_payload(params.payload_inline@) ==> crate::json::json_valid(
                params.payload_inline@,
            ),
    {
        match validate_event_payload_inline(params.payload_inline.as_str()) {
            Ok(_) => {},
            Err(error) => return Err(error),
        }
        match self.find_request(params.request_id.as_str()) {
            Some(i) => {
                if self.requests.row(i).value.latest_event_cursor != expected_latest_event_cursor {
                    return Ok(None);
                }
                Ok(Some(self.push_event(i, params.event_type, params.payload_inline)))
            },
            None => Err(CloudStateError::RequestNotFound),
        }
    }

    /// Keeps the configuration under which a request runs.
    pub fn persist_config_snapshot(&mut self, record: ConfigSnapshotRecord) -> (r: Result<
        (),
        CloudStateError,
    >)
        requires
            old(self).wf(),
        ensures
            final(self).wf(),
            (final(self)@, outcome(r)) == old(self)@.persist_config_snapshot(record.deep_view()),
    {
        proof {
            self@.persist_config_snapshot_wf(record.deep_view());
        }
        match self.find_request(record.request_id.as_str()) {
            Some(i) => {
                if self.requests.row(i).value.thread_id != record.thread_id {
                    return Err(CloudStateError::ThreadMismatch);
                }
            },
            None => return Err(CloudStateError::RequestNotFound),
        }
        match validate_json_payload(record.config_json.as_str()) {
            Ok(_) => {},
            Err(error) => return Err(error),
        }
        self.configs.insert(record.request_id.clone(), record);
        Ok(())
    }

    /// The configuration under which a request runs.
    pub fn read_config_snapshot(&self, request_id: &str) -> (r: Result<
        ConfigSnapshotRecord,
        CloudStateError,
    >)
        requires
            self.wf(),
        ensures
            outcome(r) == self@.read_config_snapshot(request_id@),
    {
        if self.find_request(request_id).is_none() {
            return Err(CloudStateError::RequestNotFound);
        }
        let key = request_id.to_owned();
        match self.configs.get(&key) {
            Some(record) => Ok(record.clone()),
            None => Err(CloudStateError::RequestNotFound),
        }
    }

    /// Keeps metadata of one kind for a thread, in place of what was kept of that kind.
    pub fn upsert_state_metadata(&mut self, record: StateMetadataRecord) -> (r: Result<
        (),
        CloudStateError,
    >)
        requires
            old(self).wf(),
        ensures
            final(self).wf(),
            (final(self)@, outcome(r)) == old(self)@.upsert_state_metadata(record.deep_view()),
    {
        proof {
            self@.upsert_state_metadata_wf(record.deep_view());
        }
        match validate_json_payload(record.payload_json.as_str()) {
            Ok(_) => {},
            Err(error) => return Err(error),
        }
        self.metadata.insert((record.thread_id.clone(), record.kind.clone()), record);
        Ok(())
    }

    /// The metadata of one kind kept for a thread.
    pub fn read_state_metadata(&self, thread_id: &str, kind: &str) -> (r: Result<
        StateMetadataRecord,
        CloudStateError,
    >)
        requires
            self.wf(),
        ensures
            outcome(r) == self@.read_state_metadata(thread_id@, kind@),
    {
        let key = (thread_id.to_owned(), kind.to_owned());
        match self.metadata.get(&key) {
            Some(record) => Ok(record.clone()),
            None => Err(CloudStateError::RequestNotFound),
        }
    }

    /// Items of a thread after a cursor, and the cursor after which the next ones stand.
    pub fn list_thread_items(&self, thread_id: &str, cursor: Option<u64>, limit: usize) -> (r: Result<
        (Vec<ThreadItemRecord>, Option<u64>),
        CloudStateError,
    >)
        requires
            self.wf(),
        ensures
            outcome(r) == Ok::<(Seq<ThreadItemView>, Option<u64>), ErrorView>(
                self@.list_thread_items(thread_id@, cursor, limit as nat),
            ),
    {
        let key = thread_id.to_owned();
        proof {
            self@.items_after_are_the_rest(thread_id@, cursor);
        }
        let mut data: Vec<ThreadItemRecord> = Vec::new();
        match self.items.get(&key) {
            Some(items) => {
                let (from, to) = page_bounds(items.len(), cursor, limit);
                let ghost rest = self@.items_after(thread_id@, cursor);
                assert(rest.len() == items@.len() - from);
                for i in from..to
                    invariant
                        from <= to <= items@.len(),
                        data.deep_view() == items.deep_view().subrange(from as int, i as int),
                {
                    let ghost so_far = data.deep_view();
                    data.push(items[i].clone());
                    assert(data.deep_view() =~= so_far.push(items@[i as int].deep_view()));
                    assert(items.deep_view().subrange(from as int, i + 1) =~= so_far.push(
                        items.deep_view()[i as int],
                    ));
                }
                assert(data.deep_view() =~= rest.take(to - from));
                assert(rest.take(rest.len() as int) =~= rest);
                let next_cursor: Option<u64> = if to < items.len() && to > from {
                    Some(items[to - 1].sequence)
                } else {
                    None
                };
                Ok((data, next_cursor))
            },
            None => {
                assert(data.deep_view() =~= self@.items_after(thread_id@, cursor));
                Ok((data, None))
            },
        }
    }

    /// Events of a request after a cursor, and the cursor after which the next ones stand.
    pub fn list_request_events(&self, request_id: &str, cursor: Option<u64>, limit: usize) -> (r:
        Result<EventsPage, CloudStateError>)
        requires
            self.wf(),
        ensures
            outcome(r) == self@.list_request_events(request_id@, cursor, limit as nat),
    {
        if self.find_request(request_id).is_none() {
            return Err(CloudStateError::RequestNotFound);
        }
        let key = request_id.to_owned();
        proof {
            self@.events_after_are_the_rest(request_id@, cursor);
        }
        let mut data: Vec<EventRecord> = Vec::new();
        match self.events.get(&key) {
            Some(events) => {
                let (from, to) = page_bounds(events.len(), cursor, limit);
                let ghost rest = self@.events_after(request_id@, cursor);
                assert(rest.len() == events@.len() - from);
                for i in from..to
                    invariant
                        from <= to <= events@.len(),
                        data.deep_view() == events.deep_view().subrange(from as int, i as int),
                {
                    let ghost so_far = data.deep_view();
                    data.push(events[i].clone());
                    assert(data.deep_view() =~= so_far.push(events@[i as int].deep_view()));
                    assert(events.deep_view().subrange(from as int, i + 1) =~= so_far.push(
                        events.deep_view()[i as int],
                    ));
                }
                assert(data.deep_view() =~= rest.take(to - from));
                assert(rest.take(rest.len() as int) =~= rest);
                let next_cursor: Option<u64> = if to < events.len() && to > from {
                    Some(events[to - 1].sequence)
                } else {
                    None
                };
                Ok(EventsPage { data, next_cursor })
            },
            None => {
                assert(data.deep_view() =~= self@.events_after(request_id@, cursor));
                Ok(EventsPage { data, next_cursor: None })
            },
        }
    }
}

/// Where a page of a list of `len` numbered entries begins and ends.
fn page_bounds(len: usize, cursor: Option<u64>, limit: usize) -> (r: (usize, usize))
    ensures
        r.0 == crate::pages::passed(cursor, len as nat),
        r.0 <= r.1 <= len,
        len - r.0 > limit ==> r.1 == r.0 + limit,
        len - r.0 <= limit ==> r.1 == len,
{
    let after: u64 = match cursor {
        Some(after) => after,
        None => 0,
    };
    let from: usize = if after < len as u64 {
        after as usize
    } else {
        len
    };
    let to: usize = if len - from > limit {
        from + limit
    } else {
        len
    };
    (from, to)
}

} // verus!
