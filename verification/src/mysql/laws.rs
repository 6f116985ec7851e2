//! Laws of the store in the database, over the states of its tables.
use vstd::prelude::*;

use crate::mysql::appends::{append_response, lease_allows};
use crate::mysql::statements::OwnedRequestView;
use crate::mysql::tables::Tables;
use crate::protocol::{AppendThreadItemsWithLeaseResponse, RequestStatus};
use crate::records::{
    CreateRequestView, ErrorView, EventAppendView, LeaseAcquireView, LeaseAppendView,
};

verus! {

impl Tables {
    /// The events of a request are numbered from one, and its cursor is at the last of them.
    pub open spec fn events_ok(self, id: Seq<char>) -> bool {
        let events = self.events_of(id);
        &&& self.requests[id].latest_event_cursor == events.len()
        &&& forall|i: int| 0 <= i < events.len() ==> (#[trigger] events[i]).sequence == i + 1
    }

    /// The items of a thread are numbered from one, up to the last that an append names.
    pub open spec fn items_ok(self, thread_id: Seq<char>) -> bool {
        let items = self.items_of(thread_id);
        &&& items.len() <= u64::MAX
        &&& self.last_appended(thread_id, items.len() as u64)
        &&& forall|i: int| 0 <= i < items.len() ==> (#[trigger] items[i]).sequence == i + 1
    }

    /// The lease of a thread is that of a request that runs on it, with a fencing token that
    /// was drawn.
    pub open spec fn lease_ok(self, thread_id: Seq<char>) -> bool {
        let row = self.leases[thread_id].row;
        &&& self.requests.dom().contains(row.request_id)
        &&& self.requests[row.request_id].thread_id == thread_id
        &&& self.requests[row.request_id].status == RequestStatus::Running
        &&& row.fencing_token <= self.tokens
        &&& !self.leases[thread_id].released
    }

    /// A request that runs has the lease of its thread.
    pub open spec fn running_ok(self, id: Seq<char>) -> bool {
        self.requests[id].status == RequestStatus::Running ==> self.leases.dom().contains(
            self.requests[id].thread_id,
        ) && self.leases[self.requests[id].thread_id].row.request_id == id
    }

    /// No two requests have the same caller, thread and idempotency key.
    pub open spec fn keys_ok(self) -> bool {
        forall|a: Seq<char>, b: Seq<char>| #[trigger]
            self.requests.dom().contains(a) && #[trigger] self.requests.dom().contains(b)
                && self.requests[a].caller_id == self.requests[b].caller_id
                && self.requests[a].thread_id == self.requests[b].thread_id
                && self.requests[a].idempotency_key == self.requests[b].idempotency_key ==> a == b
    }

    /// The invariant of the tables.
    pub open spec fn wf(self) -> bool {
        &&& self.requests_named()
        &&& self.keys_ok()
        &&& forall|id: Seq<char>| #[trigger]
            self.requests.dom().contains(id) ==> self.events_ok(id) && self.running_ok(id)
        &&& forall|id: Seq<char>| #[trigger]
            self.events.dom().contains(id) ==> self.requests.dom().contains(id)
        &&& forall|t: Seq<char>| #[trigger] self.leases.dom().contains(t) ==> self.lease_ok(t)
        &&& forall|t: Seq<char>| #[trigger] self.items_ok(t)
    }

    /// The number of the last item that an append names is one number.
    proof fn last_appended_is_one(self, thread_id: Seq<char>, a: u64, b: u64)
        requires
            self.last_appended(thread_id, a),
            self.last_appended(thread_id, b),
        ensures
            a == b,
    {
        if a != 0 {
            let key = choose|key: Seq<char>| self.append_ends_at(thread_id, key, a);
            assert(self.append_ends_at(thread_id, key, a));
        }
        if b != 0 {
            let key = choose|key: Seq<char>| self.append_ends_at(thread_id, key, b);
            assert(self.append_ends_at(thread_id, key, b));
        }
    }

    /// The version of a thread is the number of its items.
    pub proof fn version_is_the_number_of_items(self, thread_id: Seq<char>)
        requires
            self.items_ok(thread_id),
        ensures
            self.version(thread_id) == self.items_of(thread_id).len(),
            self.items_counted(thread_id),
    {
        let n = self.items_of(thread_id).len() as u64;
        assert(self.last_appended(thread_id, n));
        self.last_appended_is_one(thread_id, n, self.version(thread_id));
    }

    /// Whether nothing but status, cursor, turn, events and leases of a request changed.
    spec fn same_requests(self, after: Tables) -> bool {
        &&& after.requests.dom() == self.requests.dom()
        &&& forall|id: Seq<char>| #[trigger]
            self.requests.dom().contains(id) ==> {
                &&& after.requests[id].request_id == self.requests[id].request_id
                &&& after.requests[id].caller_id == self.requests[id].caller_id
                &&& after.requests[id].thread_id == self.requests[id].thread_id
                &&& after.requests[id].idempotency_key == self.requests[id].idempotency_key
            }
        &&& after.appends == self.appends
        &&& after.items == self.items
    }

    proof fn same_requests_keep(self, after: Tables)
        requires
            self.wf(),
            self.same_requests(after),
        ensures
            after.requests_named(),
            after.keys_ok(),
            forall|t: Seq<char>| #[trigger] after.items_ok(t),
    {
        assert forall|t: Seq<char>| #[trigger] after.items_ok(t) by {
            assert(self.items_ok(t));
            assert(after.items_of(t) == self.items_of(t));
            let n = self.items_of(t).len() as u64;
            assert(self.last_appended(t, n));
            if n != 0 {
                let key = choose|key: Seq<char>| self.append_ends_at(t, key, n);
                assert(self.append_ends_at(t, key, n));
                assert(after.append_ends_at(t, key, n));
            }
        }
    }

    /// Recording a request keeps the invariant.
    pub proof fn create_request_keeps(self, params: CreateRequestView, id: Seq<char>)
        requires
            self.wf(),
            !self.requests.dom().contains(id),
        ensures
            self.create_request(params, id).0.wf(),
    {
        let after = self.create_request(params, id).0;
        if after != self {
            assert(!self.events.dom().contains(id));
            assert forall|x: Seq<char>| #[trigger] after.requests.dom().contains(x) implies
                after.events_ok(x) && after.running_ok(x) by {
                if x != id {
                    assert(self.requests.dom().contains(x));
                    assert(self.events_ok(x) && self.running_ok(x));
                    assert(after.events_of(x) == self.events_of(x));
                }
            }
            assert forall|t: Seq<char>| #[trigger] after.leases.dom().contains(t) implies
                after.lease_ok(t) by {
                assert(self.lease_ok(t));
            }
            assert forall|a: Seq<char>, b: Seq<char>| #[trigger]
                after.requests.dom().contains(a) && #[trigger] after.requests.dom().contains(b)
                    && after.requests[a].caller_id == after.requests[b].caller_id
                    && after.requests[a].thread_id == after.requests[b].thread_id
                    && after.requests[a].idempotency_key
                    == after.requests[b].idempotency_key implies a == b by {
                if a == id && b != id {
                    assert(
                        self.keyed(b, params.caller_id, params.thread_id, params.idempotency_key)
                    );
                }
                if b == id && a != id {
                    assert(
                        self.keyed(a, params.caller_id, params.thread_id, params.idempotency_key)
                    );
                }
            }
            assert forall|t: Seq<char>| #[trigger] after.items_ok(t) by {
                assert(self.items_ok(t));
                assert(after.items_of(t) == self.items_of(t));
                let n = self.items_of(t).len() as u64;
                if n != 0 {
                    let key = choose|key: Seq<char>| self.append_ends_at(t, key, n);
                    assert(self.append_ends_at(t, key, n));
                    assert(after.append_ends_at(t, key, n));
                }
            }
        }
    }

    /// A request that ends with an event and loses its leases keeps the invariant.
    pub proof fn ending_keeps(
        self,
        id: Seq<char>,
        status: RequestStatus,
        event_type: Seq<char>,
        payload_inline: Seq<char>,
    )
        requires
            self.wf(),
            self.requests.dom().contains(id),
            self.events_of(id).len() < u64::MAX,
            status.terminal(),
        ensures
            self.ended_with_event(id, status, event_type, payload_inline).released(
                self.requests[id].thread_id,
                id,
            ).wf(),
    {
        let after = self.ended_with_event(id, status, event_type, payload_inline).released(
            self.requests[id].thread_id,
            id,
        );
        assert(self.events_ok(id) && self.running_ok(id));
        assert(after.requests.dom() =~= self.requests.dom());
        self.same_requests_keep(after);
        assert forall|x: Seq<char>| #[trigger] after.requests.dom().contains(x) implies
            after.events_ok(x) && after.running_ok(x) by {
            assert(self.events_ok(x) && self.running_ok(x));
            if x != id {
                assert(after.events_of(x) == self.events_of(x));
            }
        }
        assert forall|t: Seq<char>| #[trigger] after.leases.dom().contains(t) implies after.lease_ok(
            t,
        ) by {
            assert(self.lease_ok(t));
        }
    }

    /// A request that ends without an event and loses its leases keeps the invariant.
    pub proof fn quiet_ending_keeps(self, id: Seq<char>, status: RequestStatus)
        requires
            self.wf(),
            self.requests.dom().contains(id),
            status.terminal(),
        ensures
            self.with_status(id, status).released(self.requests[id].thread_id, id).wf(),
    {
        let after = self.with_status(id, status).released(self.requests[id].thread_id, id);
        assert(self.events_ok(id) && self.running_ok(id));
        assert(after.requests.dom() =~= self.requests.dom());
        self.same_requests_keep(after);
        assert forall|x: Seq<char>| #[trigger] after.requests.dom().contains(x) implies
            after.events_ok(x) && after.running_ok(x) by {
            assert(self.events_ok(x) && self.running_ok(x));
            assert(after.events_of(x) == self.events_of(x));
        }
        assert forall|t: Seq<char>| #[trigger] after.leases.dom().contains(t) implies after.lease_ok(
            t,
        ) by {
            assert(self.lease_ok(t));
        }
    }

    /// Taking a lease keeps the invariant.
    pub proof fn acquire_keeps(
        self,
        id: Seq<char>,
        owner: Seq<char>,
        lease_id: Seq<char>,
        now_ms: i64,
    )
        requires
            self.wf(),
            self.tokens < u64::MAX,
            forall|x: Seq<char>| (#[trigger] self.events_of(x)).len() < u64::MAX,
        ensures
            self.acquire(id, owner, lease_id, now_ms).0.wf(),
    {
        let after = self.acquire(id, owner, lease_id, now_ms).0;
        if self.requests.dom().contains(id) && after != self {
            let thread_id = self.requests[id].thread_id;
            let freed = self.expired_lease_lost(thread_id);
            if self.leases.dom().contains(thread_id) {
                assert(self.lease_ok(thread_id));
                self.ending_keeps(
                    self.leases[thread_id].row.request_id,
                    RequestStatus::LeaseLost,
                    "request/lease_lost"@,
                    "{\"reason\":\"thread_writer_lease_expired\"}"@,
                );
            }
            assert(freed.wf());
            assert(freed.requests.dom() =~= self.requests.dom());
            if freed.requests[id].status == RequestStatus::Queued {
                freed.grant_keeps(id, owner, lease_id, now_ms);
                self.drawing_keeps();
            }
        }
    }

    proof fn drawing_keeps(self)
        requires
            self.wf(),
        ensures
            self.token_drawn().wf(),
    {
        let after = self.token_drawn();
        self.same_requests_keep(after);
        assert forall|x: Seq<char>| #[trigger] after.requests.dom().contains(x) implies
            after.events_ok(x) && after.running_ok(x) by {
            assert(self.events_ok(x) && self.running_ok(x));
            assert(after.events_of(x) == self.events_of(x));
        }
        assert forall|t: Seq<char>| #[trigger] after.leases.dom().contains(t) implies after.lease_ok(
            t,
        ) by {
            assert(self.lease_ok(t));
        }
    }

    proof fn grant_keeps(self, id: Seq<char>, owner: Seq<char>, lease_id: Seq<char>, now_ms: i64)
        requires
            self.wf(),
            self.tokens < u64::MAX,
            self.requests.dom().contains(id),
            self.requests[id].status == RequestStatus::Queued,
            !self.leases.dom().contains(self.requests[id].thread_id),
        ensures
            self.granted(id, owner, lease_id, now_ms).wf(),
    {
        let after = self.granted(id, owner, lease_id, now_ms);
        assert(after.requests.dom() =~= self.requests.dom());
        self.same_requests_keep(after);
        assert forall|x: Seq<char>| #[trigger] after.requests.dom().contains(x) implies
            after.events_ok(x) && after.running_ok(x) by {
            assert(self.events_ok(x) && self.running_ok(x));
            assert(after.events_of(x) == self.events_of(x));
        }
        assert forall|t: Seq<char>| #[trigger] after.leases.dom().contains(t) implies after.lease_ok(
            t,
        ) by {
            if t != self.requests[id].thread_id {
                assert(self.lease_ok(t));
            }
        }
    }

    /// Renewing leases keeps the invariant.
    pub proof fn renew_keeps(self, id: Seq<char>, owner: Seq<char>, now_ms: i64)
        requires
            self.wf(),
            self.events_of(id).len() < u64::MAX,
        ensures
            self.renew(id, owner, now_ms).0.wf(),
    {
        if self.requests.dom().contains(id) && !self.requests[id].status.terminal() {
            let thread_id = self.requests[id].thread_id;
            if !self.lease_active(thread_id, id, now_ms)
                || self.leases[thread_id].row.owner_instance_id != owner {
                self.ending_keeps(
                    id,
                    RequestStatus::LeaseLost,
                    "request/lease_lost"@,
                    "{\"reason\":\"thread_writer_lease_lost\"}"@,
                );
            } else {
                let renewed = self.lease_renewed(thread_id, now_ms);
                self.renewal_keeps(thread_id, now_ms);
                if !self.owner_active(id, owner, now_ms) {
                    assert(renewed.events_of(id) == self.events_of(id));
                    renewed.ending_keeps(
                        id,
                        RequestStatus::OwnerTimedOut,
                        "request/owner_timed_out"@,
                        "{\"reason\":\"owner_lease_lost\"}"@,
                    );
                } else {
                    let after = renewed.owner_renewed(id, now_ms);
                    renewed.same_requests_keep(after);
                    assert forall|x: Seq<char>| #[trigger] after.requests.dom().contains(x) implies
                        after.events_ok(x) && after.running_ok(x) by {
                        assert(renewed.events_ok(x) && renewed.running_ok(x));
                        assert(after.events_of(x) == renewed.events_of(x));
                    }
                    assert forall|t: Seq<char>| #[trigger] after.leases.dom().contains(t) implies
                        after.lease_ok(t) by {
                        assert(renewed.lease_ok(t));
                    }
                }
            }
        }
    }

    proof fn renewal_keeps(self, thread_id: Seq<char>, now_ms: i64)
        requires
            self.wf(),
            self.leases.dom().contains(thread_id),
        ensures
            self.lease_renewed(thread_id, now_ms).wf(),
    {
        let after = self.lease_renewed(thread_id, now_ms);
        self.same_requests_keep(after);
        assert forall|x: Seq<char>| #[trigger] after.requests.dom().contains(x) implies
            after.events_ok(x) && after.running_ok(x) by {
            assert(self.events_ok(x) && self.running_ok(x));
            assert(after.events_of(x) == self.events_of(x));
        }
        assert forall|t: Seq<char>| #[trigger] after.leases.dom().contains(t) implies after.lease_ok(
            t,
        ) by {
            assert(self.lease_ok(t));
        }
    }

    /// Appending keeps the invariant.
    pub proof fn append_keeps(self, params: LeaseAppendView, now_ms: i64)
        requires
            self.wf(),
            self.events_of(params.request_id).len() < u64::MAX,
            self.items_of(self.requests[params.request_id].thread_id).len()
                + params.payload_refs.len() <= u64::MAX,
        ensures
            self.append(params, now_ms).0.wf(),
    {
        let id = params.request_id;
        let thread_id = self.requests[id].thread_id;
        let after = self.append(params, now_ms).0;
        if after != self && self.requests.dom().contains(id) {
            if !lease_allows(self.held(thread_id), params, now_ms) {
                self.ending_keeps(
                    id,
                    RequestStatus::LeaseLost,
                    "request/lease_lost"@,
                    "{\"reason\":\"thread_writer_lease_lost\"}"@,
                );
            } else {
                self.appended_keeps(thread_id, params);
            }
        }
    }

    pub(crate) proof fn appended_keeps(self, thread_id: Seq<char>, params: LeaseAppendView)
        requires
            self.wf(),
            params.payload_refs.len() > 0,
            !self.appends.dom().contains((thread_id, params.append_idempotency_key)),
            self.items_of(thread_id).len() + params.payload_refs.len() <= u64::MAX,
        ensures
            self.appended(thread_id, params).wf(),
            self.appended(thread_id, params).items_of(thread_id).len() == self.items_of(
                thread_id,
            ).len() + params.payload_refs.len(),
            self.items_of(thread_id).is_prefix_of(
                self.appended(thread_id, params).items_of(thread_id),
            ),
    {
        let after = self.appended(thread_id, params);
        let old_items = self.items_of(thread_id);
        let total = (old_items.len() + params.payload_refs.len()) as u64;
        assert(self.items_ok(thread_id));
        self.version_is_the_number_of_items(thread_id);
        assert forall|x: Seq<char>| #[trigger] after.requests.dom().contains(x) implies
            after.events_ok(x) && after.running_ok(x) by {
            assert(self.events_ok(x) && self.running_ok(x));
            assert(after.events_of(x) == self.events_of(x));
        }
        assert forall|t: Seq<char>| #[trigger] after.leases.dom().contains(t) implies after.lease_ok(
            t,
        ) by {
            assert(self.lease_ok(t));
        }
        assert forall|t: Seq<char>| #[trigger] after.items_ok(t) by {
            assert(self.items_ok(t));
            let n = self.items_of(t).len() as u64;
            if t == thread_id {
                assert(after.append_ends_at(t, params.append_idempotency_key, total));
                assert forall|key: Seq<char>| #[trigger]
                    after.appends.dom().contains((t, key)) implies after.appends[(
                    t,
                    key,
                )].last_append_sequence <= total by {
                    if key != params.append_idempotency_key {
                        assert(self.appends.dom().contains((t, key)));
                    }
                }
                assert(after.last_appended(t, total));
            } else {
                assert(after.items_of(t) == self.items_of(t));
                if n != 0 {
                    let key = choose|key: Seq<char>| self.append_ends_at(t, key, n);
                    assert(self.append_ends_at(t, key, n));
                    assert(after.append_ends_at(t, key, n));
                }
                assert forall|key: Seq<char>| #[trigger]
                    after.appends.dom().contains((t, key)) implies after.appends[(
                    t,
                    key,
                )].last_append_sequence <= n by {
                    assert(self.appends.dom().contains((t, key)));
                }
            }
        }
    }

    /// Ending requests keeps the invariant.
    pub proof fn mark_terminal_keeps(
        self,
        event: EventAppendView,
        status: RequestStatus,
        now_ms: i64,
    )
        requires
            self.wf(),
            status.terminal(),
            self.events_of(event.request_id).len() < u64::MAX,
        ensures
            self.mark_terminal(event.request_id, status, now_ms).0.wf(),
            self.mark_terminal_with_event(event, status, now_ms).0.wf(),
    {
        let id = event.request_id;
        if self.requests.dom().contains(id) {
            self.quiet_ending_keeps(id, status);
            self.quiet_ending_keeps(id, RequestStatus::LeaseLost);
            self.ending_keeps(id, status, event.event_type, event.payload_inline);
            self.ending_keeps(
                id,
                RequestStatus::LeaseLost,
                "request/lease_lost"@,
                "{\"reason\":\"thread_writer_lease_lost\"}"@,
            );
        }
    }

    /// Whether requests are there on their threads, each once, with room for another event.
    pub open spec fn can_time_out(self, expired: Seq<OwnedRequestView>, from: int) -> bool {
        &&& forall|i: int|
            from <= i < expired.len() ==> self.requests.dom().contains(
                (#[trigger] expired[i]).request_id,
            ) && self.requests[expired[i].request_id].thread_id == expired[i].thread_id
                && self.events_of(expired[i].request_id).len() < u64::MAX
        &&& forall|i: int, j: int|
            0 <= i < expired.len() && 0 <= j < expired.len() && (
            #[trigger] expired[i]).request_id == (#[trigger] expired[j]).request_id ==> i == j
    }

    /// Expiring owner leases keeps the invariant.
    pub proof fn expiry_keeps(self, expired: Seq<OwnedRequestView>, from: int)
        requires
            self.wf(),
            0 <= from <= expired.len(),
            self.can_time_out(expired, from),
        ensures
            self.owners_timed_out(expired, from).wf(),
        decreases expired.len() - from,
    {
        if from < expired.len() {
            let id = expired[from].request_id;
            let payload = "{\"reason\":\"owner_lease_expired\"}"@;
            let after = self.owner_timed_out(expired[from].thread_id, id, payload);
            self.ending_keeps(
                id,
                RequestStatus::OwnerTimedOut,
                "request/owner_timed_out"@,
                payload,
            );
            assert forall|i: int| from + 1 <= i < expired.len() implies after.requests.dom().contains(
                (#[trigger] expired[i]).request_id,
            ) && after.requests[expired[i].request_id].thread_id == expired[i].thread_id
                && after.events_of(expired[i].request_id).len() < u64::MAX by {
                assert(expired[i].request_id != id);
                assert(after.events_of(expired[i].request_id) == self.events_of(
                    expired[i].request_id,
                ));
            }
            after.expiry_keeps(expired, from + 1);
        }
    }

    /// Noting the turn of a request keeps the invariant.
    pub proof fn set_turn_keeps(self, id: Seq<char>, turn_id: Seq<char>)
        requires
            self.wf(),
            self.requests.dom().contains(id),
        ensures
            self.with_turn(id, turn_id).wf(),
    {
        let after = self.with_turn(id, turn_id);
        assert(after.requests.dom() =~= self.requests.dom());
        self.same_requests_keep(after);
        assert forall|x: Seq<char>| #[trigger] after.requests.dom().contains(x) implies
            after.events_ok(x) && after.running_ok(x) by {
            assert(self.events_ok(x) && self.running_ok(x));
            assert(after.events_of(x) == self.events_of(x));
        }
        assert forall|t: Seq<char>| #[trigger] after.leases.dom().contains(t) implies after.lease_ok(
            t,
        ) by {
            assert(self.lease_ok(t));
        }
    }

    /// Adding an event keeps the invariant.
    pub proof fn append_event_keeps(self, event: EventAppendView, expected: u64)
        requires
            self.wf(),
            self.events_of(event.request_id).len() < u64::MAX,
        ensures
            self.append_event(event).0.wf(),
            self.append_event_if(event, expected).0.wf(),
    {
        if self.requests.dom().contains(event.request_id) {
            self.with_event_keeps(event);
        }
    }

    /// One more event on a request keeps the invariant.
    pub proof fn with_event_keeps(self, event: EventAppendView)
        requires
            self.wf(),
            self.requests.dom().contains(event.request_id),
            self.events_of(event.request_id).len() < u64::MAX,
        ensures
            self.with_event(event).wf(),
    {
        let id = event.request_id;
        let after = self.with_event(event);
        assert(self.events_ok(id));
        assert(after.requests.dom() =~= self.requests.dom());
        self.same_requests_keep(after);
        assert forall|x: Seq<char>| #[trigger] after.requests.dom().contains(x) implies
            after.events_ok(x) && after.running_ok(x) by {
            assert(self.events_ok(x) && self.running_ok(x));
            if x != id {
                assert(after.events_of(x) == self.events_of(x));
            }
        }
        assert forall|t: Seq<char>| #[trigger] after.leases.dom().contains(t) implies after.lease_ok(
            t,
        ) by {
            assert(self.lease_ok(t));
        }
    }

    /// Whether every request of these tables that is over has the same status in `later`.
    pub open spec fn over_stays_over(self, later: Tables) -> bool {
        forall|id: Seq<char>| #[trigger]
            self.requests.dom().contains(id) && self.requests[id].status.terminal() ==> {
                &&& later.requests.dom().contains(id)
                &&& later.requests[id].status == self.requests[id].status
            }
    }

    /// No operation changes the status of a request that is over.
    pub proof fn over_is_over(
        self,
        create: CreateRequestView,
        new_id: Seq<char>,
        id: Seq<char>,
        owner: Seq<char>,
        lease_id: Seq<char>,
        append: LeaseAppendView,
        event: EventAppendView,
        status: RequestStatus,
        expected: u64,
        now_ms: i64,
    )
        requires
            !self.requests.dom().contains(new_id),
        ensures
            self.over_stays_over(self.create_request(create, new_id).0),
            self.over_stays_over(self.acquire(id, owner, lease_id, now_ms).0),
            self.over_stays_over(self.renew(id, owner, now_ms).0),
            self.over_stays_over(self.append(append, now_ms).0),
            self.over_stays_over(self.mark_terminal(id, status, now_ms).0),
            self.over_stays_over(self.mark_terminal_with_event(event, status, now_ms).0),
            self.over_stays_over(self.append_event(event).0),
            self.over_stays_over(self.append_event_if(event, expected).0),
    {
    }

    /// While a lease on a thread has not expired, every request on the thread has to wait.
    pub proof fn one_writer_per_thread(
        self,
        id: Seq<char>,
        owner: Seq<char>,
        lease_id: Seq<char>,
        now_ms: i64,
    )
        requires
            self.requests.dom().contains(id),
            self.leases.dom().contains(self.requests[id].thread_id),
            self.leases[self.requests[id].thread_id].row.expires_at_ms > now_ms,
        ensures
            self.acquire(id, owner, lease_id, now_ms) == (
                self,
                Ok::<LeaseAcquireView, ErrorView>(LeaseAcquireView::Queued),
            ),
    {
    }

    /// A lease that has expired goes to the next queued request, with a higher fencing token;
    /// the request that let it expire is over, with an event that says so.
    pub proof fn expired_lease_is_taken_over(
        self,
        id: Seq<char>,
        owner: Seq<char>,
        lease_id: Seq<char>,
        now_ms: i64,
    )
        requires
            self.wf(),
            self.tokens < u64::MAX,
            self.requests.dom().contains(id),
            self.requests[id].status == RequestStatus::Queued,
            self.leases.dom().contains(self.requests[id].thread_id),
            self.leases[self.requests[id].thread_id].row.expires_at_ms <= now_ms,
            forall|x: Seq<char>| (#[trigger] self.events_of(x)).len() < u64::MAX,
            !self.lease_id_used(lease_id),
        ensures
            ({
                let thread_id = self.requests[id].thread_id;
                let holder = self.leases[thread_id].row.request_id;
                let (after, r) = self.acquire(id, owner, lease_id, now_ms);
                &&& r == Ok::<LeaseAcquireView, ErrorView>(
                    LeaseAcquireView::Acquired {
                        lease_id,
                        fencing_token: (self.tokens + 1) as u64,
                    },
                )
                &&& after.leases[thread_id].row.request_id == id
                &&& after.leases[thread_id].row.fencing_token
                    > self.leases[thread_id].row.fencing_token
                &&& after.requests[id].status == RequestStatus::Running
                &&& after.requests[holder].status == RequestStatus::LeaseLost
                &&& after.events_of(holder).last().event_type == "request/lease_lost"@
                &&& after.requests[holder].latest_event_cursor == after.events_of(holder).len()
            }),
    {
        let thread_id = self.requests[id].thread_id;
        assert(self.lease_ok(thread_id));
        assert(self.events_ok(self.leases[thread_id].row.request_id));
        self.unused_lease_id_stays_unused(thread_id, lease_id);
    }

    /// A writer whose lease is not the one that is held, or has expired, adds no item, even
    /// where it repeats an append that was made.
    pub proof fn stale_writer_is_fenced_off(self, params: LeaseAppendView, now_ms: i64)
        requires
            self.wf(),
            params.payload_refs.len() > 0,
            self.requests.dom().contains(params.request_id),
            !lease_allows(
                self.held(self.requests[params.request_id].thread_id),
                params,
                now_ms,
            ),
        ensures
            ({
                let thread_id = self.requests[params.request_id].thread_id;
                let held = self.held(thread_id);
                let (after, r) = self.append(params, now_ms);
                &&& r == Err::<AppendThreadItemsWithLeaseResponse, ErrorView>(ErrorView::LeaseLost)
                &&& after.items == self.items
                &&& after.appends == self.appends
                &&& held is Some && held->0.request_id == params.request_id
                    ==> after.requests[params.request_id].status == RequestStatus::LeaseLost
                    && after.held(thread_id) is None
                &&& !(held is Some && held->0.request_id == params.request_id) ==> after == self
            }),
    {
        let thread_id = self.requests[params.request_id].thread_id;
        if self.leases.dom().contains(thread_id) {
            assert(self.lease_ok(thread_id));
        }
    }

    /// A new append under the lease that is held puts its items at the end of the thread,
    /// numbered on from those before.
    pub proof fn append_goes_to_the_end(self, params: LeaseAppendView, now_ms: i64)
        requires
            self.wf(),
            params.payload_refs.len() > 0,
            self.requests.dom().contains(params.request_id),
            lease_allows(
                self.held(self.requests[params.request_id].thread_id),
                params,
                now_ms,
            ),
            !self.appends.dom().contains(
                (self.requests[params.request_id].thread_id, params.append_idempotency_key),
            ),
            params.expected_thread_version is Some ==> params.expected_thread_version->0
                == self.items_of(self.requests[params.request_id].thread_id).len(),
            self.items_of(self.requests[params.request_id].thread_id).len()
                + params.payload_refs.len() <= u64::MAX,
        ensures
            ({
                let thread_id = self.requests[params.request_id].thread_id;
                let old_items = self.items_of(thread_id);
                let (after, r) = self.append(params, now_ms);
                let new_items = after.items_of(thread_id);
                &&& r == Ok::<AppendThreadItemsWithLeaseResponse, ErrorView>(
                    append_response(old_items.len() as u64, params.payload_refs.len()),
                )
                &&& new_items.len() == old_items.len() + params.payload_refs.len()
                &&& old_items.is_prefix_of(new_items)
                &&& forall|i: int|
                    0 <= i < params.payload_refs.len() ==> (
                    #[trigger] new_items[old_items.len() + i]).payload_ref
                        == params.payload_refs[i]
                &&& forall|i: int|
                    0 <= i < new_items.len() ==> (#[trigger] new_items[i]).sequence == i + 1
            }),
    {
        let thread_id = self.requests[params.request_id].thread_id;
        assert(self.items_ok(thread_id));
        self.version_is_the_number_of_items(thread_id);
        self.appended_keeps(thread_id, params);
        let after = self.appended(thread_id, params);
        assert(after.items_ok(thread_id));
    }

    /// Whether a list of texts reads the same when the database gives it back.
    pub open spec fn keeps_lists(self) -> bool {
        forall|text: Seq<char>|
            crate::json::json_texts(text) is Some ==> crate::json::json_texts(
                #[trigger] (self.given_back)(text),
            ) == crate::json::json_texts(text)
    }

    /// A request that runs without a lease in force cannot complete: it has lost its lease.
    pub proof fn completion_needs_a_lease(
        self,
        event: EventAppendView,
        status: RequestStatus,
        now_ms: i64,
    )
        requires
            self.requests.dom().contains(event.request_id),
            self.lacks_lease(event.request_id, status, now_ms),
        ensures
            self.mark_terminal(event.request_id, status, now_ms).0.requests[event.request_id].status
                == RequestStatus::LeaseLost,
            crate::json::json_valid(event.payload_inline) ==> self.mark_terminal_with_event(
                event,
                status,
                now_ms,
            ).0.requests[event.request_id].status == RequestStatus::LeaseLost,
    {
    }

    /// An owner that renews in time holds both leases for their full length from then on.
    pub proof fn renewal_extends_the_leases(self, id: Seq<char>, owner: Seq<char>, now_ms: i64)
        requires
            crate::mysql::leases::clock_fits(now_ms),
            self.renew(id, owner, now_ms).1 == Ok::<bool, ErrorView>(true),
        ensures
            ({
                let after = self.renew(id, owner, now_ms).0;
                let thread_id = self.requests[id].thread_id;
                &&& after.leases[thread_id].row.request_id == id
                &&& after.leases[thread_id].row.expires_at_ms == now_ms + 30_000
                &&& after.owners[id].expires_at_ms == now_ms + 180_000
                &&& after.requests == self.requests
            }),
    {
    }
}

} // verus!
