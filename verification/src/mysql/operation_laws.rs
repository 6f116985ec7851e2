//! What each operation does to the tables, in terms of what can be read of them.
use vstd::prelude::*;

use crate::mysql::rows::{duplicate_entry, occurs_at, status_name};
use crate::mysql::statements::{OwnedRequestView, RequestRowView, StatementView};
use crate::mysql::tables::{Database, Tables};
use crate::protocol::append::ThreadItemView;
use crate::protocol::{AppendThreadItemsWithLeaseResponse, RequestStatus};
use crate::records::{
    CreateRequestView, ErrorView, EventAppendView, EventView, LeaseAcquireView, LeaseAppendView,
    RequestView, TerminalStatusUpdate,
};
use crate::service_steps::list_limit;

verus! {

impl Tables {
    /// A request that is recorded under a new key waits, as it was asked for, without a turn
    /// and without events; nothing else changes.
    pub proof fn new_request_is_as_asked(self, params: CreateRequestView, id: Seq<char>)
        requires
            self.wf(),
            !self.requests.dom().contains(id),
            forall|x: Seq<char>|
                !self.keyed(x, params.caller_id, params.thread_id, params.idempotency_key),
        ensures
            ({
                let (after, r) = self.create_request(params, id);
                let request = after.requests[id];
                &&& r == Ok::<RequestView, ErrorView>(request)
                &&& request.request_id == id
                &&& request.caller_id == params.caller_id
                &&& request.thread_id == params.thread_id
                &&& request.idempotency_key == params.idempotency_key
                &&& request.input_hash == params.input_hash
                &&& request.turn_id is None
                &&& request.status == RequestStatus::Queued
                &&& request.latest_event_cursor == 0
                &&& after.events_of(id).len() == 0
                &&& after.requests.dom() == self.requests.dom().insert(id)
                &&& forall|x: Seq<char>| #[trigger]
                    self.requests.dom().contains(x) ==> after.requests[x] == self.requests[x]
                &&& after.events == self.events
                &&& after.leases == self.leases
                &&& after.items == self.items
                &&& after.appends == self.appends
                &&& after.tokens == self.tokens
            }),
    {
        let after = self.create_request(params, id).0;
        assert(!self.events.dom().contains(id));
        assert(after.requests.dom() =~= self.requests.dom().insert(id));
    }

    /// A key that was used leads to its request if the input is the same, and is refused if it
    /// is not; nothing changes.
    pub proof fn used_key_leads_to_its_request(
        self,
        params: CreateRequestView,
        new_id: Seq<char>,
        id: Seq<char>,
    )
        requires
            self.wf(),
            self.requests.dom().contains(id),
            self.requests[id].caller_id == params.caller_id,
            self.requests[id].thread_id == params.thread_id,
            self.requests[id].idempotency_key == params.idempotency_key,
        ensures
            self.requests[id].input_hash == params.input_hash ==> self.create_request(
                params,
                new_id,
            ) == (self, Ok::<RequestView, ErrorView>(self.requests[id])),
            self.requests[id].input_hash != params.input_hash ==> self.create_request(
                params,
                new_id,
            ) == (self, Err::<RequestView, ErrorView>(ErrorView::IdempotencyConflict)),
    {
        assert(self.keyed(id, params.caller_id, params.thread_id, params.idempotency_key));
        let x = choose|x: Seq<char>|
            self.keyed(x, params.caller_id, params.thread_id, params.idempotency_key);
        assert(self.keyed(x, params.caller_id, params.thread_id, params.idempotency_key));
        assert(self.requests.dom().contains(x) && self.requests.dom().contains(id));
    }

    /// Noting a turn changes the turn of that request and nothing else of any request.
    pub proof fn noted_turn_is_read(self, id: Seq<char>, turn_id: Seq<char>, other: Seq<char>)
        requires
            self.requests.dom().contains(id),
        ensures
            ({
                let after = self.with_turn(id, turn_id);
                &&& after.read_request(id) matches Ok(request)
                &&& request.turn_id == Some(turn_id)
                &&& request.request_id == self.requests[id].request_id
                &&& request.caller_id == self.requests[id].caller_id
                &&& request.thread_id == self.requests[id].thread_id
                &&& request.idempotency_key == self.requests[id].idempotency_key
                &&& request.input_hash == self.requests[id].input_hash
                &&& request.status == self.requests[id].status
                &&& request.latest_event_cursor == self.requests[id].latest_event_cursor
                &&& other != id ==> after.read_request(other) == self.read_request(other)
                &&& self.owners.dom().contains(id) ==> after.owners[id].turn_id == Some(turn_id)
                    && after.owners[id].owner_instance_id == self.owners[id].owner_instance_id
                    && after.owners[id].expires_at_ms == self.owners[id].expires_at_ms
                    && after.owners[id].released == self.owners[id].released
                &&& after.events == self.events
                &&& after.leases == self.leases
                &&& after.items == self.items
                &&& after.appends == self.appends
            }),
    {
    }

    /// A request is read exactly if it was recorded, under its identifier.
    pub proof fn requests_are_read_by_identifier(self, id: Seq<char>)
        ensures
            self.requests.dom().contains(id) ==> self.read_request(id) == Ok::<
                RequestView,
                ErrorView,
            >(self.requests[id]),
            !self.requests.dom().contains(id) ==> self.read_request(id) == Err::<
                RequestView,
                ErrorView,
            >(ErrorView::RequestNotFound),
    {
    }

    /// No operation but the one that notes a turn for a request changes its turn.
    pub proof fn turn_stays_noted(
        self,
        create: CreateRequestView,
        new_id: Seq<char>,
        id: Seq<char>,
        noted: Seq<char>,
        turn_id: Seq<char>,
        owner: Seq<char>,
        lease_id: Seq<char>,
        append: LeaseAppendView,
        event: EventAppendView,
        status: RequestStatus,
        expected: u64,
        now_ms: i64,
        x: Seq<char>,
    )
        requires
            self.requests.dom().contains(x),
            !self.requests.dom().contains(new_id),
            noted != x,
        ensures
            self.create_request(create, new_id).0.requests[x].turn_id == self.requests[x].turn_id,
            self.with_turn(noted, turn_id).requests[x].turn_id == self.requests[x].turn_id,
            self.acquire(id, owner, lease_id, now_ms).0.requests[x].turn_id
                == self.requests[x].turn_id,
            self.renew(id, owner, now_ms).0.requests[x].turn_id == self.requests[x].turn_id,
            self.append(append, now_ms).0.requests[x].turn_id == self.requests[x].turn_id,
            self.mark_terminal(id, status, now_ms).0.requests[x].turn_id
                == self.requests[x].turn_id,
            self.mark_terminal_with_event(event, status, now_ms).0.requests[x].turn_id
                == self.requests[x].turn_id,
            self.append_event(event).0.requests[x].turn_id == self.requests[x].turn_id,
            self.append_event_if(event, expected).0.requests[x].turn_id == self.requests[x].turn_id,
    {
    }

    /// A waiting request takes the lease of a thread that has none: for the owner, under the
    /// identifier, with the next fencing token, for half a minute; it holds an owner lease for
    /// three minutes; and it runs. The answer names the lease. Nothing else changes.
    pub proof fn free_lease_is_taken(
        self,
        id: Seq<char>,
        owner: Seq<char>,
        lease_id: Seq<char>,
        now_ms: i64,
    )
        requires
            self.wf(),
            self.tokens < u64::MAX,
            now_ms + 180_000 <= i64::MAX,
            self.requests.dom().contains(id),
            self.requests[id].status == RequestStatus::Queued,
            !self.leases.dom().contains(self.requests[id].thread_id),
            !self.lease_id_used(lease_id),
        ensures
            ({
                let (after, r) = self.acquire(id, owner, lease_id, now_ms);
                let thread_id = self.requests[id].thread_id;
                let lease = after.leases[thread_id];
                &&& r matches Ok(LeaseAcquireView::Acquired { lease_id: taken, fencing_token })
                &&& taken == lease_id
                &&& fencing_token == self.tokens + 1
                &&& after.tokens == self.tokens + 1
                &&& after.leases.dom() == self.leases.dom().insert(thread_id)
                &&& lease.row.request_id == id
                &&& lease.row.lease_id == lease_id
                &&& lease.row.owner_instance_id == owner
                &&& lease.row.fencing_token == fencing_token
                &&& lease.row.expires_at_ms == now_ms + 30_000
                &&& !lease.released
                &&& after.owners.dom().contains(id)
                &&& after.owners[id].owner_instance_id == owner
                &&& after.owners[id].expires_at_ms == now_ms + 180_000
                &&& !after.owners[id].released
                &&& !self.owners.dom().contains(id) ==> after.owners[id].turn_id
                    == self.requests[id].turn_id
                &&& self.owners.dom().contains(id) ==> after.owners[id].turn_id
                    == self.owners[id].turn_id
                &&& after.requests[id].turn_id == self.requests[id].turn_id
                &&& after.requests[id].status == RequestStatus::Running
                &&& after.requests[id].latest_event_cursor == self.requests[id].latest_event_cursor
                &&& after.events == self.events
                &&& after.items == self.items
                &&& after.appends == self.appends
                &&& forall|x: Seq<char>| x != id ==> #[trigger] after.read_request(x)
                    == self.read_request(x)
                &&& forall|t: Seq<char>| t != thread_id && #[trigger] self.leases.dom().contains(t)
                    ==> after.leases[t] == self.leases[t]
            }),
    {
        let after = self.acquire(id, owner, lease_id, now_ms).0;
        assert(after.leases.dom() =~= self.leases.dom().insert(self.requests[id].thread_id));
    }

    /// An unknown request takes no lease, and neither does one that does not wait: a lease
    /// that is in force is in the way of both, and otherwise the request is told why.
    pub proof fn lease_is_refused(
        self,
        id: Seq<char>,
        owner: Seq<char>,
        lease_id: Seq<char>,
        now_ms: i64,
    )
        requires
            self.wf(),
        ensures
            ({
                let (after, r) = self.acquire(id, owner, lease_id, now_ms);
                let thread_id = self.requests[id].thread_id;
                let lease = self.leases[thread_id];
                let free = !self.leases.dom().contains(thread_id);
                &&& !self.requests.dom().contains(id) ==> after == self && r == Err::<
                    LeaseAcquireView,
                    ErrorView,
                >(ErrorView::RequestNotFound)
                &&& self.requests.dom().contains(id) && !free && lease.row.expires_at_ms > now_ms
                    ==> after == self && r == Ok::<LeaseAcquireView, ErrorView>(
                    LeaseAcquireView::Queued,
                )
                &&& self.requests.dom().contains(id) && free && self.requests[id].status
                    != RequestStatus::Queued ==> after == self && r == Err::<
                    LeaseAcquireView,
                    ErrorView,
                >(ErrorView::RequestNotQueued)
                &&& self.requests.dom().contains(id) && free && self.requests[id].status
                    == RequestStatus::Queued && self.lease_id_used(lease_id) ==> r == Ok::<
                    LeaseAcquireView,
                    ErrorView,
                >(LeaseAcquireView::Queued) && after.requests == self.requests && after.leases
                    == self.leases && after.tokens == self.tokens + 1
            }),
    {
    }

    /// A request that let its lease expire loses it to the next one: it is over, and an event
    /// says so and why.
    pub proof fn expired_lease_is_lost(
        self,
        id: Seq<char>,
        owner: Seq<char>,
        lease_id: Seq<char>,
        now_ms: i64,
    )
        requires
            self.wf(),
            self.requests.dom().contains(id),
            self.requests[id].status == RequestStatus::Queued,
            self.leases.dom().contains(self.requests[id].thread_id),
            self.leases[self.requests[id].thread_id].row.expires_at_ms <= now_ms,
            !self.lease_id_used(lease_id),
            forall|x: Seq<char>| (#[trigger] self.events_of(x)).len() < u64::MAX,
        ensures
            ({
                let (after, r) = self.acquire(id, owner, lease_id, now_ms);
                let thread_id = self.requests[id].thread_id;
                let holder = self.leases[thread_id].row.request_id;
                let last = after.events_of(holder).last();
                &&& holder != id
                &&& after.requests[holder].status == RequestStatus::LeaseLost
                &&& after.requests[holder].turn_id == self.requests[holder].turn_id
                &&& after.events_of(holder) == self.events_of(holder).push(last)
                &&& last.request_id == holder
                &&& last.event_type == "request/lease_lost"@
                &&& last.payload_inline == (self.given_back)(
                    "{\"reason\":\"thread_writer_lease_expired\"}"@,
                )
                &&& last.sequence == self.events_of(holder).len() + 1
                &&& after.requests[holder].latest_event_cursor == last.sequence
                &&& after.leases[thread_id].row.request_id == id
                &&& after.leases[thread_id].row.owner_instance_id == owner
                &&& after.leases[thread_id].row.lease_id == lease_id
                &&& after.items == self.items
            }),
    {
        let thread_id = self.requests[id].thread_id;
        let holder = self.leases[thread_id].row.request_id;
        assert(self.lease_ok(thread_id));
        assert(self.events_ok(holder));
        assert(self.events_of(holder).len() < u64::MAX);
        self.unused_lease_id_stays_unused(thread_id, lease_id);
        let after = self.acquire(id, owner, lease_id, now_ms).0;
        assert(after.events_of(holder) =~= self.events_of(holder).push(
            after.events_of(holder).last(),
        ));
    }

    /// An owner that lost the lease of its request, or was never given it, is told so: the
    /// request is over, and an event says so and why.
    pub proof fn renewal_without_the_lease(self, id: Seq<char>, owner: Seq<char>, now_ms: i64)
        requires
            self.wf(),
            self.requests.dom().contains(id),
            self.events_of(id).len() < u64::MAX,
        ensures
            ({
                let (after, r) = self.renew(id, owner, now_ms);
                let status = self.requests[id].status;
                let thread_id = self.requests[id].thread_id;
                let over = status != RequestStatus::Queued && status != RequestStatus::Running
                    && status != RequestStatus::Cancelling;
                let lease = self.leases[thread_id];
                let writes = self.leases.dom().contains(thread_id) && lease.row.request_id == id
                    && !lease.released && lease.row.expires_at_ms > now_ms
                    && lease.row.owner_instance_id == owner;
                let owns = self.owners.dom().contains(id) && self.owners[id].owner_instance_id
                    == owner && !self.owners[id].released && self.owners[id].expires_at_ms
                    > now_ms;
                let last = after.events_of(id).last();
                &&& r == Ok::<bool, ErrorView>(!over && writes && owns)
                &&& over ==> after == self
                &&& !over && !(writes && owns) ==> {
                    &&& after.requests[id].status == if writes {
                        RequestStatus::OwnerTimedOut
                    } else {
                        RequestStatus::LeaseLost
                    }
                    &&& after.events_of(id) == self.events_of(id).push(last)
                    &&& last.event_type == if writes {
                        "request/owner_timed_out"@
                    } else {
                        "request/lease_lost"@
                    }
                    &&& last.payload_inline == (self.given_back)(
                        if writes {
                            "{\"reason\":\"owner_lease_lost\"}"@
                        } else {
                            "{\"reason\":\"thread_writer_lease_lost\"}"@
                        },
                    )
                    &&& last.sequence == after.requests[id].latest_event_cursor
                    &&& !(after.leases.dom().contains(thread_id)
                        && after.leases[thread_id].row.request_id == id)
                    &&& self.owners.dom().contains(id) ==> after.owners[id].released
                }
                &&& !over && writes && owns ==> after.events == self.events && after.requests
                    == self.requests
                &&& after.items == self.items
            }),
    {
        assert(self.events_ok(id) && self.running_ok(id));
        let after = self.renew(id, owner, now_ms).0;
        if self.can_end(id) && after.requests != self.requests {
            assert(after.events_of(id) =~= self.events_of(id).push(after.events_of(id).last()));
        }
    }

    /// The lease of a request is read with the identifier, owner and token under which it is
    /// held, as long as it is held and has not expired.
    pub proof fn lease_is_read_by_its_request(self, id: Seq<char>, now_ms: i64)
        requires
            self.wf(),
            self.requests.dom().contains(id),
        ensures
            ({
                let thread_id = self.requests[id].thread_id;
                let lease = self.leases[thread_id];
                let held = self.leases.dom().contains(thread_id) && lease.row.request_id == id
                    && lease.row.expires_at_ms > now_ms;
                self.carry_out(
                    |h: Seq<crate::mysql::statements::ReplyView>|
                        crate::mysql::leases::read_thread_writer_lease_steps(id, now_ms, h),
                    2,
                ) matches Some((after, Ok(read))) && after == self && (read is Some <==> held) && (
                read matches Some(shown) ==> shown.lease_id == lease.row.lease_id
                    && shown.writer_owner_token == lease.row.owner_instance_id
                    && shown.fencing_token == lease.row.fencing_token)
            }),
    {
        self.held_lease_is_read(id, now_ms);
        if self.leases.dom().contains(self.requests[id].thread_id) {
            assert(self.lease_ok(self.requests[id].thread_id));
        }
    }

    /// An append is let through only for the writer: the request that holds the lease of its
    /// thread, by its identifier, owner and token, before it expires.
    pub proof fn append_is_accepted_from_the_writer(self, params: LeaseAppendView, now_ms: i64)
        requires
            self.wf(),
        ensures
            ({
                let (after, r) = self.append(params, now_ms);
                let id = params.request_id;
                let thread_id = self.requests[id].thread_id;
                let key = (thread_id, params.append_idempotency_key);
                let lease = self.leases[thread_id].row;
                let writes = self.leases.dom().contains(thread_id) && lease.request_id == id
                    && lease.lease_id == params.lease_id && lease.owner_instance_id
                    == params.writer_owner_token && lease.fencing_token == params.fencing_token
                    && lease.expires_at_ms > now_ms;
                &&& params.payload_refs.len() == 0 ==> after == self && r == Err::<
                    AppendThreadItemsWithLeaseResponse,
                    ErrorView,
                >(ErrorView::EmptyAppend)
                &&& params.payload_refs.len() > 0 && !self.requests.dom().contains(id) ==> after
                    == self && r == Err::<AppendThreadItemsWithLeaseResponse, ErrorView>(
                    ErrorView::RequestNotFound,
                )
                &&& params.payload_refs.len() > 0 && self.requests.dom().contains(id) && !writes
                    ==> r == Err::<AppendThreadItemsWithLeaseResponse, ErrorView>(
                    ErrorView::LeaseLost,
                ) && after.items == self.items && after.appends == self.appends
                &&& params.payload_refs.len() > 0 && self.requests.dom().contains(id) && writes ==> {
                    let made = self.appends[key];
                    let repeated = made.request_id == id && crate::json::json_texts(
                        made.payload_refs_json,
                    ) == Some(params.payload_refs);
                    &&& self.appends.dom().contains(key) ==> after == self && r is Ok == repeated
                    &&& self.appends.dom().contains(key) && !repeated ==> r == Err::<
                        AppendThreadItemsWithLeaseResponse,
                        ErrorView,
                    >(ErrorView::IdempotencyConflict)
                    &&& self.appends.dom().contains(key) && repeated ==> r->Ok_0.deduplicated
                        && r->Ok_0.thread_version == made.thread_version
                        && r->Ok_0.first_append_sequence == made.first_append_sequence
                        && r->Ok_0.last_append_sequence == made.last_append_sequence
                    &&& !self.appends.dom().contains(key) && (
                    params.expected_thread_version matches Some(v) && v != self.items_of(
                        thread_id,
                    ).len()) ==> after == self && r == Err::<
                        AppendThreadItemsWithLeaseResponse,
                        ErrorView,
                    >(ErrorView::ThreadVersionConflict)
                    &&& !self.appends.dom().contains(key) && (
                    params.expected_thread_version matches Some(v) ==> v == self.items_of(
                        thread_id,
                    ).len()) ==> (r matches Ok(answer) && !answer.deduplicated)
                }
            }),
    {
        let thread_id = self.requests[params.request_id].thread_id;
        assert(self.items_ok(thread_id));
        self.version_is_the_number_of_items(thread_id);
        if self.leases.dom().contains(thread_id) {
            assert(self.lease_ok(thread_id));
        }
    }

    /// A writer that names another lease, owner or token than its request holds, or comes after
    /// the lease expired, ends its own request: its lease is lost, and an event says so. A
    /// request that does not hold the lease of its thread stays as it is.
    pub proof fn stale_writer_loses_its_lease(self, params: LeaseAppendView, now_ms: i64)
        requires
            self.wf(),
            params.payload_refs.len() > 0,
            self.requests.dom().contains(params.request_id),
            self.events_of(params.request_id).len() < u64::MAX,
        ensures
            ({
                let (after, r) = self.append(params, now_ms);
                let id = params.request_id;
                let thread_id = self.requests[id].thread_id;
                let lease = self.leases[thread_id].row;
                let holds = self.leases.dom().contains(thread_id) && lease.request_id == id;
                let writes = holds && lease.lease_id == params.lease_id && lease.owner_instance_id
                    == params.writer_owner_token && lease.fencing_token == params.fencing_token
                    && lease.expires_at_ms > now_ms;
                let last = after.events_of(id).last();
                &&& !holds ==> after == self
                &&& holds && !writes ==> {
                    &&& after.requests[id].status == RequestStatus::LeaseLost
                    &&& after.events_of(id) == self.events_of(id).push(last)
                    &&& last.event_type == "request/lease_lost"@
                    &&& last.payload_inline == (self.given_back)(
                        "{\"reason\":\"thread_writer_lease_lost\"}"@,
                    )
                    &&& last.sequence == self.events_of(id).len() + 1
                    &&& after.requests[id].latest_event_cursor == last.sequence
                    &&& !after.leases.dom().contains(thread_id)
                    &&& self.owners.dom().contains(id) ==> after.owners[id].released
                    &&& after.items == self.items
                }
            }),
    {
        let id = params.request_id;
        let thread_id = self.requests[id].thread_id;
        assert(self.events_ok(id) && self.running_ok(id));
        if self.leases.dom().contains(thread_id) {
            assert(self.lease_ok(thread_id));
        }
        let after = self.append(params, now_ms).0;
        if after.events != self.events {
            assert(after.events_of(id) =~= self.events_of(id).push(after.events_of(id).last()));
        }
    }

    /// A new append adds its payloads, in their order, after the items of the thread. Its
    /// answer gives the numbers of the first and the last item that it added, and as the
    /// version the number of items that the thread then has: of the next new appends, those
    /// that expect a version get through only with that one. What is kept for repetitions are
    /// those numbers.
    pub proof fn answered_version_is_the_next_expected(
        self,
        params: LeaseAppendView,
        now_ms: i64,
        next: LeaseAppendView,
        later_ms: i64,
    )
        requires
            self.wf(),
            self.append(params, now_ms).1 matches Ok(made) && !made.deduplicated,
            self.items_of(self.requests[params.request_id].thread_id).len()
                + params.payload_refs.len() <= u64::MAX,
            next.request_id == params.request_id,
            next.lease_id == params.lease_id,
            next.writer_owner_token == params.writer_owner_token,
            next.fencing_token == params.fencing_token,
            next.payload_refs.len() > 0,
            next.append_idempotency_key != params.append_idempotency_key,
            !self.appends.dom().contains(
                (self.requests[params.request_id].thread_id, next.append_idempotency_key),
            ),
            self.leases[self.requests[params.request_id].thread_id].row.expires_at_ms > later_ms,
        ensures
            ({
                let (after, r) = self.append(params, now_ms);
                let thread_id = self.requests[params.request_id].thread_id;
                let before = self.items_of(thread_id);
                let items = after.items_of(thread_id);
                let made = r->Ok_0;
                let kept = after.appends[(thread_id, params.append_idempotency_key)];
                &&& items.len() == before.len() + params.payload_refs.len()
                &&& before.is_prefix_of(items)
                &&& forall|i: int|
                    0 <= i < params.payload_refs.len() ==> (
                    #[trigger] items[before.len() + i]).payload_ref == params.payload_refs[i]
                        && items[before.len() + i].sequence == before.len() + i + 1
                        && items[before.len() + i].thread_id == thread_id
                &&& made.thread_version == items.len()
                &&& made.first_append_sequence == items[before.len() as int].sequence
                &&& made.last_append_sequence == items.last().sequence
                &&& kept.request_id == params.request_id
                &&& kept.thread_version == items.len()
                &&& kept.first_append_sequence == before.len() + 1
                &&& kept.last_append_sequence == items.len()
                &&& kept.payload_refs_json == (self.given_back)(
                    crate::json::texts_json(params.payload_refs),
                )
                &&& after.append(next, later_ms).1 is Ok <==> (
                next.expected_thread_version matches Some(v) ==> v == made.thread_version)
                &&& after.requests == self.requests
                &&& after.events == self.events
                &&& after.leases == self.leases
                &&& forall|t: Seq<char>| t != thread_id ==> #[trigger] after.items_of(t)
                    == self.items_of(t)
            }),
    {
        let (after, r) = self.append(params, now_ms);
        let thread_id = self.requests[params.request_id].thread_id;
        let before = self.items_of(thread_id);
        assert(self.items_ok(thread_id));
        self.version_is_the_number_of_items(thread_id);
        self.appended_keeps(thread_id, params);
        assert(after.items_ok(thread_id));
        after.version_is_the_number_of_items(thread_id);
        assert(after.items_of(thread_id).len() == before.len() + params.payload_refs.len());
        assert(after.held(thread_id) == self.held(thread_id));
    }

    /// Ending a request without an event gives it the status, unless it is over; one that runs
    /// without a lease in force cannot complete, fail or be interrupted: its lease is lost. It
    /// has no lease after that.
    pub proof fn ending_without_an_event(self, id: Seq<char>, status: RequestStatus, now_ms: i64)
        requires
            self.wf(),
            self.requests.dom().contains(id),
            status.terminal(),
        ensures
            ({
                let (after, r) = self.mark_terminal(id, status, now_ms);
                let before = self.requests[id].status;
                let thread_id = self.requests[id].thread_id;
                let active = before == RequestStatus::Queued || before == RequestStatus::Running
                    || before == RequestStatus::Cancelling;
                let lapsed = before == RequestStatus::Running && (status
                    == RequestStatus::Completed || status == RequestStatus::Failed || status
                    == RequestStatus::Interrupted) && self.leases[thread_id].row.expires_at_ms
                    <= now_ms;
                &&& !active ==> after == self && r == Ok::<TerminalStatusUpdate, ErrorView>(
                    TerminalStatusUpdate::Unchanged,
                )
                &&& active ==> {
                    &&& r == Ok::<TerminalStatusUpdate, ErrorView>(TerminalStatusUpdate::Changed)
                    &&& after.requests[id].status == if lapsed {
                        RequestStatus::LeaseLost
                    } else {
                        status
                    }
                    &&& after.requests[id].turn_id == self.requests[id].turn_id
                    &&& after.requests[id].latest_event_cursor
                        == self.requests[id].latest_event_cursor
                    &&& !(after.leases.dom().contains(thread_id)
                        && after.leases[thread_id].row.request_id == id)
                    &&& self.owners.dom().contains(id) ==> after.owners[id].released
                    &&& after.events == self.events
                    &&& after.items == self.items
                    &&& forall|x: Seq<char>| x != id ==> #[trigger] after.read_request(x)
                        == self.read_request(x)
                }
            }),
    {
        assert(self.running_ok(id));
        if self.leases.dom().contains(self.requests[id].thread_id) {
            assert(self.lease_ok(self.requests[id].thread_id));
        }
    }

    /// Ending a request with an event does both or nothing. One that runs without a lease in
    /// force cannot complete, fail or be interrupted: its lease is lost, and that is the event.
    pub proof fn ending_with_an_event(
        self,
        event: EventAppendView,
        status: RequestStatus,
        now_ms: i64,
    )
        requires
            self.wf(),
            status.terminal(),
            self.events_of(event.request_id).len() < u64::MAX,
        ensures
            ({
                let (after, r) = self.mark_terminal_with_event(event, status, now_ms);
                let id = event.request_id;
                let before = self.requests[id].status;
                let thread_id = self.requests[id].thread_id;
                let active = before == RequestStatus::Queued || before == RequestStatus::Running
                    || before == RequestStatus::Cancelling;
                let lapsed = before == RequestStatus::Running && (status
                    == RequestStatus::Completed || status == RequestStatus::Failed || status
                    == RequestStatus::Interrupted) && self.leases[thread_id].row.expires_at_ms
                    <= now_ms;
                let last = after.events_of(id).last();
                if !crate::json::json_valid(event.payload_inline) {
                    after == self && r == Err::<TerminalStatusUpdate, ErrorView>(
                        ErrorView::InvalidEventPayload,
                    )
                } else if !self.requests.dom().contains(id) {
                    after == self && r == Err::<TerminalStatusUpdate, ErrorView>(
                        ErrorView::RequestNotFound,
                    )
                } else if !active {
                    after == self && r == Ok::<TerminalStatusUpdate, ErrorView>(
                        TerminalStatusUpdate::Unchanged,
                    )
                } else {
                    &&& r == Ok::<TerminalStatusUpdate, ErrorView>(TerminalStatusUpdate::Changed)
                    &&& after.requests[id].status == if lapsed {
                        RequestStatus::LeaseLost
                    } else {
                        status
                    }
                    &&& after.requests[id].turn_id == self.requests[id].turn_id
                    &&& after.events_of(id) == self.events_of(id).push(last)
                    &&& last.request_id == id
                    &&& last.event_type == if lapsed {
                        "request/lease_lost"@
                    } else {
                        event.event_type
                    }
                    &&& last.payload_inline == (self.given_back)(
                        if lapsed {
                            "{\"reason\":\"thread_writer_lease_lost\"}"@
                        } else {
                            event.payload_inline
                        },
                    )
                    &&& last.sequence == self.events_of(id).len() + 1
                    &&& after.requests[id].latest_event_cursor == last.sequence
                    &&& !(after.leases.dom().contains(thread_id)
                        && after.leases[thread_id].row.request_id == id)
                    &&& self.owners.dom().contains(id) ==> after.owners[id].released
                    &&& after.items == self.items
                    &&& forall|x: Seq<char>| x != id ==> #[trigger] after.read_request(x)
                        == self.read_request(x) && after.events_of(x) == self.events_of(x)
                }
            }),
    {
        let id = event.request_id;
        if self.requests.dom().contains(id) {
            assert(self.events_ok(id) && self.running_ok(id));
            if self.leases.dom().contains(self.requests[id].thread_id) {
                assert(self.lease_ok(self.requests[id].thread_id));
            }
            let after = self.mark_terminal_with_event(event, status, now_ms).0;
            if self.can_end(id) && crate::json::json_valid(event.payload_inline) {
                assert(after.events_of(id) =~= self.events_of(id).push(after.events_of(id).last()));
            }
        }
    }

    /// An event that is added stands after the others of its request under the next number;
    /// with an expected cursor it is added exactly if that is the cursor.
    pub proof fn event_is_added_at_the_end(self, event: EventAppendView, expected: u64)
        requires
            self.wf(),
            self.events_of(event.request_id).len() < u64::MAX,
        ensures
            ({
                let id = event.request_id;
                let (after, r) = self.append_event(event);
                let (later, tried) = self.append_event_if(event, expected);
                let last = after.events_of(id).last();
                if !crate::json::json_valid(event.payload_inline) {
                    &&& after == self && later == self
                    &&& r == Err::<EventView, ErrorView>(ErrorView::InvalidEventPayload)
                    &&& tried == Err::<Option<EventView>, ErrorView>(
                        ErrorView::InvalidEventPayload,
                    )
                } else if !self.requests.dom().contains(id) {
                    &&& after == self && later == self
                    &&& r == Err::<EventView, ErrorView>(ErrorView::RequestNotFound)
                    &&& tried == Err::<Option<EventView>, ErrorView>(ErrorView::RequestNotFound)
                } else {
                    &&& r matches Ok(added)
                    &&& added.request_id == id
                    &&& added.event_type == event.event_type
                    &&& added.payload_inline == event.payload_inline
                    &&& added.sequence == self.events_of(id).len() + 1
                    &&& after.events_of(id) == self.events_of(id).push(last)
                    &&& last.request_id == id
                    &&& last.event_type == event.event_type
                    &&& last.payload_inline == (self.given_back)(event.payload_inline)
                    &&& last.sequence == added.sequence
                    &&& after.requests[id].latest_event_cursor == added.sequence
                    &&& after.requests[id].status == self.requests[id].status
                    &&& after.leases == self.leases
                    &&& after.items == self.items
                    &&& forall|x: Seq<char>| x != id ==> #[trigger] after.read_request(x)
                        == self.read_request(x) && after.events_of(x) == self.events_of(x)
                    &&& expected == self.events_of(id).len() ==> later == after && tried == Ok::<
                        Option<EventView>,
                        ErrorView,
                    >(Some(added))
                    &&& expected != self.events_of(id).len() ==> later == self && tried == Ok::<
                        Option<EventView>,
                        ErrorView,
                    >(None)
                }
            }),
    {
        let id = event.request_id;
        if self.requests.dom().contains(id) {
            assert(self.events_ok(id));
            let after = self.with_event(event);
            assert(after.events_of(id) =~= self.events_of(id).push(after.events_of(id).last()));
        }
    }

    /// A page of events holds those right after the cursor, as they are kept: as many as were
    /// asked for, from one to a hundred, or all that are left; the next cursor is that of its
    /// last event, exactly if more are left.
    pub proof fn page_of_events(self, id: Seq<char>, cursor: u64, n: u32)
        requires
            self.wf(),
            self.requests.dom().contains(id),
            1 <= n <= 100,
        ensures
            cursor > self.events_of(id).len() ==> self.event_page(
                id,
                Some(cursor),
                list_limit(Some(n)),
            ) == (Seq::<EventView>::empty(), None::<u64>),
            cursor <= self.events_of(id).len() ==> ({
                let events = self.events_of(id);
                let (data, next_cursor) = self.event_page(id, Some(cursor), list_limit(Some(n)));
                let left = events.len() - cursor;
                &&& data.len() == if left > n {
                    n as int
                } else {
                    left
                }
                &&& next_cursor == if left > n {
                    Some((cursor + n) as u64)
                } else {
                    None
                }
                &&& forall|i: int| 0 <= i < data.len() ==> #[trigger] data[i] == events[cursor + i]
                &&& forall|i: int|
                    0 <= i < data.len() ==> (#[trigger] data[i]).sequence == cursor + i + 1
            }),
    {
        let events = self.events_of(id);
        assert(self.events_ok(id));
        crate::pages::rest_after(
            events,
            |event: EventView| event.sequence > crate::model::StoreModel::start(Some(cursor)),
            crate::pages::passed(Some(cursor), events.len()),
        );
        let rest = self.events_after(id, Some(cursor));
        if cursor <= events.len() {
            assert(rest =~= events.skip(cursor as int));
        } else {
            assert(rest =~= Seq::empty());
        }
    }

    /// A page of items holds those right after the cursor: as many as were asked for, from one
    /// to a hundred, or all that are left; the next cursor is that of its last item, exactly
    /// if more are left.
    pub proof fn page_of_items(self, thread_id: Seq<char>, cursor: u64, n: u32)
        requires
            self.wf(),
            1 <= n <= 100,
        ensures
            cursor > self.items_of(thread_id).len() ==> self.item_page(
                thread_id,
                Some(cursor),
                list_limit(Some(n)),
            ) == (Seq::<ThreadItemView>::empty(), None::<u64>),
            cursor <= self.items_of(thread_id).len() ==> ({
                let items = self.items_of(thread_id);
                let (data, next_cursor) = self.item_page(
                    thread_id,
                    Some(cursor),
                    list_limit(Some(n)),
                );
                let left = items.len() - cursor;
                &&& data.len() == if left > n {
                    n as int
                } else {
                    left
                }
                &&& next_cursor == if left > n {
                    Some((cursor + n) as u64)
                } else {
                    None
                }
                &&& forall|i: int| 0 <= i < data.len() ==> #[trigger] data[i] == items[cursor + i]
                &&& forall|i: int|
                    0 <= i < data.len() ==> (#[trigger] data[i]).sequence == cursor + i + 1
            }),
    {
        let items = self.items_of(thread_id);
        assert(self.items_ok(thread_id));
        crate::pages::rest_after(
            items,
            |item: ThreadItemView|
                item.sequence > crate::model::StoreModel::start(Some(cursor)),
            crate::pages::passed(Some(cursor), items.len()),
        );
        let rest = self.items_after(thread_id, Some(cursor));
        if cursor <= items.len() {
            assert(rest =~= items.skip(cursor as int));
        } else {
            assert(rest =~= Seq::empty());
        }
    }

    /// A caller has access to a thread exactly if one of its requests is on it.
    pub proof fn access_is_by_a_request(self, caller_id: Seq<char>, thread_id: Seq<char>)
        ensures
            self.has_access(caller_id, thread_id) ==> exists|id: Seq<char>| #[trigger]
                self.requests.dom().contains(id) && self.requests[id].caller_id == caller_id
                    && self.requests[id].thread_id == thread_id,
            forall|id: Seq<char>| #[trigger]
                self.requests.dom().contains(id) && self.requests[id].caller_id == caller_id
                    && self.requests[id].thread_id == thread_id ==> self.has_access(
                    caller_id,
                    thread_id,
                ),
    {
        if self.has_access(caller_id, thread_id) {
            let id = choose|id: Seq<char>| self.on_thread_of(id, caller_id, thread_id);
            assert(self.requests.dom().contains(id));
        }
        assert forall|id: Seq<char>| #[trigger]
            self.requests.dom().contains(id) && self.requests[id].caller_id == caller_id
                && self.requests[id].thread_id == thread_id implies self.has_access(
            caller_id,
            thread_id,
        ) by {
            assert(self.on_thread_of(id, caller_id, thread_id));
        }
    }

    /// When the owner of a request has timed out, the request is over: an event says so and
    /// why, and its thread is free.
    pub proof fn timed_out_owner_ends_its_request(
        self,
        expired: Seq<OwnedRequestView>,
        i: int,
    )
        requires
            self.wf(),
            self.can_time_out(expired, 0),
            0 <= i < expired.len(),
            forall|j: int|
                0 <= j < expired.len() ==> self.requests.dom().contains(
                    (#[trigger] expired[j]).request_id,
                ) && self.requests[expired[j].request_id].status == RequestStatus::Running,
        ensures
            ({
                let id = expired[i].request_id;
                let after = self.owners_timed_out(expired, 0);
                let last = after.events_of(id).last();
                &&& after.requests[id].status == RequestStatus::OwnerTimedOut
                &&& after.events_of(id) == self.events_of(id).push(last)
                &&& last.event_type == "request/owner_timed_out"@
                &&& last.payload_inline == (self.given_back)(
                    "{\"reason\":\"owner_lease_expired\"}"@,
                )
                &&& last.sequence == after.requests[id].latest_event_cursor
                &&& last.sequence == self.events_of(id).len() + 1
                &&& !after.leases.dom().contains(expired[i].thread_id)
                    || after.leases[expired[i].thread_id].row.request_id != id
                &&& self.owners.dom().contains(id) ==> after.owners[id].released
            }),
    {
        self.expiry_ends(expired, 0, i);
        self.expiry_keeps(expired, 0);
        let after = self.owners_timed_out(expired, 0);
        if after.leases.dom().contains(expired[i].thread_id) {
            assert(after.lease_ok(expired[i].thread_id));
        }
    }

    proof fn expiry_ends(self, expired: Seq<OwnedRequestView>, from: int, i: int)
        requires
            self.wf(),
            self.can_time_out(expired, from),
            0 <= from <= expired.len(),
            0 <= i < expired.len(),
            i < from ==> self.requests[expired[i].request_id].status.terminal(),
            forall|j: int|
                from <= j < expired.len() ==> self.requests.dom().contains(
                    (#[trigger] expired[j]).request_id,
                ) && self.requests[expired[j].request_id].status == RequestStatus::Running,
        ensures
            ({
                let id = expired[i].request_id;
                let after = self.owners_timed_out(expired, from);
                let last = after.events_of(id).last();
                if i < from {
                    &&& after.requests[id] == self.requests[id]
                    &&& after.events_of(id) == self.events_of(id)
                    &&& after.given_back == self.given_back
                    &&& after.owners.dom().contains(id) == self.owners.dom().contains(id)
                    &&& after.owners[id] == self.owners[id]
                } else {
                    &&& self.owners.dom().contains(id) ==> after.owners[id].released
                    &&& after.requests[id].status == RequestStatus::OwnerTimedOut
                    &&& after.events_of(id) == self.events_of(id).push(last)
                    &&& last.event_type == "request/owner_timed_out"@
                    &&& last.payload_inline == (self.given_back)(
                        "{\"reason\":\"owner_lease_expired\"}"@,
                    )
                    &&& last.sequence == after.requests[id].latest_event_cursor
                    &&& last.sequence == self.events_of(id).len() + 1
                }
            }),
        decreases expired.len() - from,
    {
        if from < expired.len() {
            let id = expired[from].request_id;
            let next = self.owner_timed_out(
                expired[from].thread_id,
                id,
                "{\"reason\":\"owner_lease_expired\"}"@,
            );
            assert(self.events_ok(id));
            assert(self.events_of(id).len() < u64::MAX);
            self.ending_keeps(
                id,
                RequestStatus::OwnerTimedOut,
                "request/owner_timed_out"@,
                "{\"reason\":\"owner_lease_expired\"}"@,
            );
            assert(next.events_of(id) =~= self.events_of(id).push(next.events_of(id).last()));
            assert forall|j: int| from + 1 <= j < expired.len() implies next.requests.dom().contains(
                (#[trigger] expired[j]).request_id,
            ) && next.requests[expired[j].request_id].status == RequestStatus::Running by {
                assert(expired[j].request_id != id);
            }
            if i != from {
                assert(expired[i].request_id != id);
                assert(next.events_of(expired[i].request_id) == self.events_of(
                    expired[i].request_id,
                ));
            }
            next.expiry_ends(expired, from + 1, i);
        }
    }
}

/// A status is stored under its name in lower case, with underscores between words.
pub proof fn statuses_are_stored_by_name()
    ensures
        status_name(RequestStatus::Queued) == "queued"@,
        status_name(RequestStatus::Running) == "running"@,
        status_name(RequestStatus::Cancelling) == "cancelling"@,
        status_name(RequestStatus::Completed) == "completed"@,
        status_name(RequestStatus::Failed) == "failed"@,
        status_name(RequestStatus::Cancelled) == "cancelled"@,
        status_name(RequestStatus::Interrupted) == "interrupted"@,
        status_name(RequestStatus::OwnerTimedOut) == "owner_timed_out"@,
        status_name(RequestStatus::LeaseLost) == "lease_lost"@,
        status_name(RequestStatus::TurnTimedOut) == "turn_timed_out"@,
{
}

/// A row is read with each of its fields as it stands, and its status by name; a status with
/// another name cannot be read.
pub proof fn row_is_read_as_it_stands(row: RequestRowView, status: RequestStatus)
    ensures
        row.status == status_name(status) ==> row.request() == Ok::<RequestView, ErrorView>(
            (RequestView {
                request_id: row.request_id,
                caller_id: row.caller_id,
                thread_id: row.thread_id,
                idempotency_key: row.idempotency_key,
                input_hash: row.input_hash,
                turn_id: row.turn_id,
                status,
                latest_event_cursor: row.latest_event_cursor,
            }),
        ),
        (forall|s: RequestStatus| #[trigger] status_name(s) != row.status) ==> row.request()
            == Err::<RequestView, ErrorView>(
            ErrorView::Storage("unknown request status: "@ + row.status),
        ),
{
    crate::mysql::rows::status_reads_back(status);
}

/// A duplicate is told by its code or by the words of the message, and by nothing else.
pub proof fn duplicates_are_told(code: Seq<char>, message: Seq<char>, at: int)
    ensures
        duplicate_entry(Some("1062"@), message),
        duplicate_entry(Some("23000"@), message),
        occurs_at(message, "Duplicate entry"@, at) ==> duplicate_entry(None, message),
        duplicate_entry(Some(code), message) && code != "1062"@ && code != "23000"@
            ==> exists|i: int|
            0 <= i && i + "Duplicate entry"@.len() <= message.len() && #[trigger] message.subrange(
                i,
                i + "Duplicate entry"@.len(),
            ) == "Duplicate entry"@,
{
    if duplicate_entry(Some(code), message) && code != "1062"@ && code != "23000"@ {
        let i = choose|i: int| occurs_at(message, "Duplicate entry"@, i);
        assert(message.subrange(i, i + "Duplicate entry"@.len()) == "Duplicate entry"@);
    }
}

/// What is done in a transaction stays once it is committed; until then, or if it is rolled
/// back, it leaves nothing but the fencing tokens that were drawn. Outside of a transaction
/// each statement stays.
pub proof fn transactions_stay_when_committed(tables: Tables, statement: StatementView)
    requires
        !(statement is Begin),
        !(statement is Commit),
        !(statement is Rollback),
    ensures
        ({
            let alone = Database::of(tables).execute(statement).0;
            let begun = Database::of(tables).execute(StatementView::Begin).0;
            let done = begun.execute(statement).0;
            let kept = done.execute(StatementView::Commit).0.closed();
            let undone = done.execute(StatementView::Rollback).0.closed();
            &&& kept == alone.closed()
            &&& kept == tables.execute(statement).0
            &&& done.closed() == undone
            &&& undone.requests == tables.requests
            &&& undone.leases == tables.leases
            &&& undone.owners == tables.owners
            &&& undone.events == tables.events
            &&& undone.items == tables.items
            &&& undone.appends == tables.appends
            &&& undone.configs == tables.configs
            &&& undone.metadata == tables.metadata
            &&& undone.tokens == kept.tokens
        }),
{
}

} // verus!
