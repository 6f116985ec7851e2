//! What holds of every state of a request store.
use vstd::prelude::*;

use crate::model::{AppendView, StoreModel};
use crate::protocol::append::ThreadItemView;
use crate::protocol::RequestStatus;
use crate::records::{
    ConfigSnapshotView, CreateRequestView, EventAppendView, EventView, LeaseAppendView,
    StateMetadataView,
};

verus! {

/// Whether events are those of request `id`, numbered from one.
pub open spec fn events_numbered(id: Seq<char>, events: Seq<EventView>) -> bool {
    &&& events.len() <= u64::MAX
    &&& forall|i: int|
        0 <= i < events.len() ==> (#[trigger] events[i]).sequence == i + 1 && events[i].request_id
            == id
}

/// Whether items are those of a thread, numbered from one.
pub open spec fn items_numbered(thread_id: Seq<char>, items: Seq<ThreadItemView>) -> bool {
    &&& items.len() <= u64::MAX
    &&& forall|i: int|
        0 <= i < items.len() ==> (#[trigger] items[i]).sequence == i + 1 && items[i].thread_id
            == thread_id
}

/// Whether a remembered append says what stands in the thread.
pub open spec fn append_stands(append: AppendView, items: Seq<ThreadItemView>) -> bool {
    let first = append.response.first_append_sequence;
    let last = append.response.last_append_sequence;
    &&& append.payload_refs is Some
    &&& !append.response.deduplicated
    &&& append.response.thread_version == last
    &&& 1 <= first <= last <= items.len()
    &&& append.payload_refs->0.len() == last - first + 1
    &&& forall|i: int|
        0 <= i < append.payload_refs->0.len() ==> #[trigger] append.payload_refs->0[i]
            == items[first - 1 + i].payload_ref
}

impl StoreModel {
    /// Request `id` has an identifier that was given out, and its cursor is at its last event.
    pub open spec fn request_ok(self, id: Seq<char>) -> bool {
        let request = self.requests[id];
        &&& request.request_id == id
        &&& exists|n: nat|
            1 <= n <= self.request_count && id == #[trigger] crate::model::request_id(n)
        &&& request.latest_event_cursor == self.events_of(id).len()
    }

    /// The lease of a thread is that of a request on it, and was given out.
    pub open spec fn lease_ok(self, thread_id: Seq<char>) -> bool {
        let lease = self.leases[thread_id];
        &&& self.requests.dom().contains(lease.request_id)
        &&& self.requests[lease.request_id].thread_id == thread_id
        &&& 1 <= lease.fencing_token <= self.lease_count
        &&& lease.lease_id == crate::model::lease_id(lease.fencing_token as nat)
    }

    /// A remembered append was made by a request on the thread, and stands there.
    pub open spec fn append_ok(self, thread_id: Seq<char>, key: Seq<char>) -> bool {
        let append = self.appends[(thread_id, key)];
        &&& self.requests.dom().contains(append.request_id)
        &&& self.requests[append.request_id].thread_id == thread_id
        &&& append_stands(append, self.items_of(thread_id))
    }

    /// A kept configuration is that of the request and of its thread.
    pub open spec fn config_ok(self, id: Seq<char>) -> bool {
        let config = self.configs[id];
        &&& config.request_id == id
        &&& self.requests.dom().contains(id)
        &&& self.requests[id].thread_id == config.thread_id
    }

    /// Every request has an identifier that was given out.
    pub open spec fn requests_ok(self) -> bool {
        forall|id: Seq<char>| #[trigger] self.requests.dom().contains(id) ==> self.request_ok(id)
    }

    /// A request runs exactly while it holds the lease of its thread.
    pub open spec fn running_ok(self) -> bool {
        forall|id: Seq<char>| #[trigger]
            self.requests.dom().contains(id) ==> (self.requests[id].status
                == RequestStatus::Running <==> self.holds_lease(id))
    }

    /// No two requests have the same caller, thread and idempotency key.
    pub open spec fn keys_ok(self) -> bool {
        forall|a: Seq<char>, b: Seq<char>| #[trigger]
            self.requests.dom().contains(a) && #[trigger] self.requests.dom().contains(b)
                && self.requests[a].caller_id == self.requests[b].caller_id
                && self.requests[a].thread_id == self.requests[b].thread_id
                && self.requests[a].idempotency_key == self.requests[b].idempotency_key ==> a == b
    }

    pub open spec fn leases_ok(self) -> bool {
        forall|thread_id: Seq<char>| #[trigger]
            self.leases.dom().contains(thread_id) ==> self.lease_ok(thread_id)
    }

    /// Events are numbered, and those of a request.
    pub open spec fn events_ok(self) -> bool {
        &&& forall|id: Seq<char>| #[trigger]
            self.events.dom().contains(id) ==> self.requests.dom().contains(id)
        &&& forall|id: Seq<char>| events_numbered(id, #[trigger] self.events_of(id))
    }

    pub open spec fn items_ok(self) -> bool {
        forall|thread_id: Seq<char>| items_numbered(thread_id, #[trigger] self.items_of(thread_id))
    }

    pub open spec fn appends_ok(self) -> bool {
        forall|thread_id: Seq<char>, key: Seq<char>| #[trigger]
            self.appends.dom().contains((thread_id, key)) ==> self.append_ok(thread_id, key)
    }

    pub open spec fn configs_ok(self) -> bool {
        forall|id: Seq<char>| #[trigger] self.configs.dom().contains(id) ==> self.config_ok(id)
    }

    /// Kept metadata stands under its own thread and kind.
    pub open spec fn metadata_ok(self) -> bool {
        forall|thread_id: Seq<char>, kind: Seq<char>| #[trigger]
            self.metadata.dom().contains((thread_id, kind)) ==> {
                let record = self.metadata[(thread_id, kind)];
                &&& record.thread_id == thread_id
                &&& record.kind == kind
            }
    }

    /// The invariant of a store.
    ///
    /// Every request has an identifier of its own and an idempotency key of its own; a
    /// request runs exactly while it holds the lease of its thread; events and items are
    /// numbered from one without a gap; and what is remembered of an append stands in the
    /// thread.
    pub open spec fn wf(self) -> bool {
        &&& self.requests_ok()
        &&& self.running_ok()
        &&& self.keys_ok()
        &&& self.leases_ok()
        &&& self.events_ok()
        &&& self.items_ok()
        &&& self.appends_ok()
        &&& self.configs_ok()
        &&& self.metadata_ok()
    }

    /// Whether `after` has the same requests: the same callers, threads and keys.
    pub open spec fn same_requests(self, after: StoreModel) -> bool {
        &&& after.requests.dom() == self.requests.dom()
        &&& after.request_count == self.request_count
        &&& forall|id: Seq<char>| #[trigger]
            self.requests.dom().contains(id) ==> {
                &&& after.requests[id].request_id == self.requests[id].request_id
                &&& after.requests[id].caller_id == self.requests[id].caller_id
                &&& after.requests[id].thread_id == self.requests[id].thread_id
                &&& after.requests[id].idempotency_key == self.requests[id].idempotency_key
            }
    }

    /// Of two states with the same requests, what holds of the keys, the leases, the
    /// remembered appends and the configurations of one holds of the other, as long as
    /// leases are only released and items only added.
    proof fn same_requests_keep(self, after: StoreModel)
        requires
            self.wf(),
            self.same_requests(after),
            after.lease_count >= self.lease_count,
            forall|t: Seq<char>| #[trigger]
                after.leases.dom().contains(t) ==> self.leases.dom().contains(t)
                    && after.leases[t] == self.leases[t],
            after.appends == self.appends,
            forall|t: Seq<char>| self.items_of(t).is_prefix_of(#[trigger] after.items_of(t)),
            after.configs == self.configs,
        ensures
            after.keys_ok(),
            after.leases_ok(),
            after.appends_ok(),
            after.configs_ok(),
    {
        assert forall|t: Seq<char>| #[trigger] after.leases.dom().contains(t) implies after.lease_ok(
            t,
        ) by {
            assert(self.lease_ok(t));
        }
        assert forall|t: Seq<char>, key: Seq<char>| #[trigger]
            after.appends.dom().contains((t, key)) implies after.append_ok(t, key) by {
            assert(self.append_ok(t, key));
            assert(self.items_of(t).is_prefix_of(after.items_of(t)));
        }
        assert forall|id: Seq<char>| #[trigger] after.configs.dom().contains(id) implies after.config_ok(
            id,
        ) by {
            assert(self.config_ok(id));
        }
    }

    /// The invariant holds of an empty store.
    pub proof fn empty_wf()
        ensures
            StoreModel::empty().wf(),
    {
    }

    /// The next request gets an identifier that no request has.
    pub proof fn next_request_id_is_new(self)
        requires
            self.wf(),
        ensures
            !self.requests.dom().contains(crate::model::request_id(self.request_count + 1)),
    {
        let id = crate::model::request_id(self.request_count + 1);
        if self.requests.dom().contains(id) {
            assert(self.request_ok(id));
            let n = choose|n: nat|
                1 <= n <= self.request_count && id == #[trigger] crate::model::request_id(n);
            crate::text::prefixed_injective(
                "request-"@,
                crate::text::decimal(n),
                crate::text::decimal(self.request_count + 1),
            );
            crate::text::decimal_injective(n, self.request_count + 1);
        }
    }

    /// Recording a request keeps the invariant.
    pub proof fn create_request_wf(self, params: CreateRequestView)
        requires
            self.wf(),
        ensures
            self.create_request(params).0.wf(),
    {
        self.next_request_id_is_new();
        let after = self.create_request(params).0;
        if after != self {
            let new = crate::model::request_id(self.request_count + 1);
            assert forall|id: Seq<char>| after.requests.dom().contains(id) implies after.request_ok(
                id,
            ) by {
                if id != new {
                    assert(self.request_ok(id));
                    let n = choose|n: nat|
                        1 <= n <= self.request_count && id == #[trigger] crate::model::request_id(
                            n,
                        );
                    assert(1 <= n <= after.request_count && id == crate::model::request_id(n));
                } else {
                    let n = (self.request_count + 1) as nat;
                    assert(1 <= n <= after.request_count && id == crate::model::request_id(n));
                    assert(!self.events.dom().contains(id));
                }
            }
            assert forall|a: Seq<char>, b: Seq<char>| #[trigger]
                after.requests.dom().contains(a) && #[trigger] after.requests.dom().contains(b)
                    && after.requests[a].caller_id == after.requests[b].caller_id
                    && after.requests[a].thread_id == after.requests[b].thread_id
                    && after.requests[a].idempotency_key
                    == after.requests[b].idempotency_key implies a == b by {
                if a == new && b != new {
                    assert(
                        self.keyed(b, params.caller_id, params.thread_id, params.idempotency_key)
                    );
                }
                if b == new && a != new {
                    assert(
                        self.keyed(a, params.caller_id, params.thread_id, params.idempotency_key)
                    );
                }
            }
            assert forall|id: Seq<char>| #[trigger] after.requests.dom().contains(id) implies (
            after.requests[id].status == RequestStatus::Running <==> after.holds_lease(id)) by {
                if id == new {
                    if after.holds_lease(id) {
                        assert(self.lease_ok(params.thread_id));
                    }
                } else {
                    assert(self.requests.dom().contains(id));
                }
            }
            assert forall|t: Seq<char>| #[trigger] after.leases.dom().contains(t) implies
                after.lease_ok(t) by {
                assert(self.lease_ok(t));
            }
            assert forall|id: Seq<char>| events_numbered(id, #[trigger] after.events_of(id)) by {
                assert(after.events_of(id) == self.events_of(id));
            }
            assert forall|t: Seq<char>| items_numbered(t, #[trigger] after.items_of(t)) by {
                assert(after.items_of(t) == self.items_of(t));
            }
            assert forall|t: Seq<char>, key: Seq<char>| #[trigger]
                after.appends.dom().contains((t, key)) implies after.append_ok(t, key) by {
                assert(self.append_ok(t, key));
                assert(after.items_of(t) == self.items_of(t));
            }
            assert forall|id: Seq<char>| #[trigger] after.configs.dom().contains(id) implies
                after.config_ok(id) by {
                assert(self.config_ok(id));
            }
        }
    }

    /// Setting the turn of a request keeps the invariant.
    pub proof fn set_request_turn_id_wf(self, id: Seq<char>, turn_id: Seq<char>)
        requires
            self.wf(),
        ensures
            self.set_request_turn_id(id, turn_id).0.wf(),
    {
        let after = self.set_request_turn_id(id, turn_id).0;
        if self.requests.dom().contains(id) {
            assert(after.requests.dom() =~= self.requests.dom());
            assert forall|t: Seq<char>| self.items_of(t).is_prefix_of(
                #[trigger] after.items_of(t),
            ) by {}
            self.same_requests_keep(after);
            assert forall|x: Seq<char>| #[trigger] after.requests.dom().contains(x) implies
                after.request_ok(x) by {
                assert(self.request_ok(x));
                assert(after.events_of(x) == self.events_of(x));
            }
            assert forall|x: Seq<char>| #[trigger] after.requests.dom().contains(x) implies (
            after.requests[x].status == RequestStatus::Running <==> after.holds_lease(x)) by {
                assert(self.requests.dom().contains(x));
            }
            assert forall|x: Seq<char>| events_numbered(x, #[trigger] after.events_of(x)) by {
                assert(after.events_of(x) == self.events_of(x));
            }
            assert forall|t: Seq<char>| items_numbered(t, #[trigger] after.items_of(t)) by {
                assert(after.items_of(t) == self.items_of(t));
            }
        }
    }

    /// Granting a lease keeps the invariant.
    pub proof fn acquire_thread_writer_lease_wf(self, id: Seq<char>, owner: Seq<char>)
        requires
            self.wf(),
            self.lease_count < u64::MAX,
        ensures
            self.acquire_thread_writer_lease(id, owner).0.wf(),
    {
        let after = self.acquire_thread_writer_lease(id, owner).0;
        if after != self {
            let thread_id = self.requests[id].thread_id;
            assert(after.requests.dom() =~= self.requests.dom());
            let between = StoreModel { leases: self.leases, ..after };
            assert forall|t: Seq<char>| self.items_of(t).is_prefix_of(
                #[trigger] between.items_of(t),
            ) by {}
            self.same_requests_keep(between);
            assert forall|x: Seq<char>| #[trigger] after.requests.dom().contains(x) implies
                after.request_ok(x) by {
                assert(self.request_ok(x));
                assert(after.events_of(x) == self.events_of(x));
            }
            assert forall|x: Seq<char>| #[trigger] after.requests.dom().contains(x) implies (
            after.requests[x].status == RequestStatus::Running <==> after.holds_lease(x)) by {
                assert(self.requests.dom().contains(x));
            }
            assert forall|t: Seq<char>| #[trigger] after.leases.dom().contains(t) implies
                after.lease_ok(t) by {
                if t != thread_id {
                    assert(between.leases.dom().contains(t));
                    assert(between.lease_ok(t));
                }
            }
            assert forall|t: Seq<char>, key: Seq<char>| #[trigger]
                after.appends.dom().contains((t, key)) implies after.append_ok(t, key) by {
                assert(between.appends.dom().contains((t, key)));
                assert(between.append_ok(t, key));
                assert(after.items_of(t) == between.items_of(t));
            }
            assert forall|x: Seq<char>| #[trigger] after.configs.dom().contains(x) implies
                after.config_ok(x) by {
                assert(between.configs.dom().contains(x));
                assert(between.config_ok(x));
            }
            assert(after.keys_ok()) by {
                assert(between.keys_ok());
                assert(after.requests == between.requests);
            }
            assert forall|x: Seq<char>| events_numbered(x, #[trigger] after.events_of(x)) by {
                assert(after.events_of(x) == self.events_of(x));
            }
            assert forall|t: Seq<char>| items_numbered(t, #[trigger] after.items_of(t)) by {
                assert(after.items_of(t) == self.items_of(t));
            }
        }
    }

    /// Ending a request keeps the invariant.
    pub proof fn ended_wf(self, id: Seq<char>, status: RequestStatus)
        requires
            self.wf(),
            self.requests.dom().contains(id),
            status.terminal(),
        ensures
            self.ended(id, status).wf(),
    {
        let after = self.ended(id, status);
        assert(after.requests.dom() =~= self.requests.dom());
        assert forall|t: Seq<char>| self.items_of(t).is_prefix_of(
            #[trigger] after.items_of(t),
        ) by {}
        self.same_requests_keep(after);
        assert forall|x: Seq<char>| #[trigger] after.requests.dom().contains(x) implies after.request_ok(
            x,
        ) by {
            assert(self.request_ok(x));
            assert(after.events_of(x) == self.events_of(x));
        }
        assert forall|x: Seq<char>| #[trigger] after.requests.dom().contains(x) implies (
        after.requests[x].status == RequestStatus::Running <==> after.holds_lease(x)) by {
            assert(self.requests.dom().contains(x));
        }
        assert forall|x: Seq<char>| events_numbered(x, #[trigger] after.events_of(x)) by {
            assert(after.events_of(x) == self.events_of(x));
        }
        assert forall|t: Seq<char>| items_numbered(t, #[trigger] after.items_of(t)) by {
            assert(after.items_of(t) == self.items_of(t));
        }
    }

    /// One more event on a request keeps the invariant.
    pub proof fn with_event_wf(self, event: EventAppendView)
        requires
            self.wf(),
            self.requests.dom().contains(event.request_id),
            self.events_of(event.request_id).len() < u64::MAX,
        ensures
            self.with_event(event).0.wf(),
    {
        let id = event.request_id;
        let after = self.with_event(event).0;
        assert(after.requests.dom() =~= self.requests.dom());
        assert forall|t: Seq<char>| self.items_of(t).is_prefix_of(
            #[trigger] after.items_of(t),
        ) by {}
        self.same_requests_keep(after);
        assert forall|x: Seq<char>| #[trigger] after.requests.dom().contains(x) implies after.request_ok(
            x,
        ) by {
            assert(self.request_ok(x));
            if x != id {
                assert(after.events_of(x) == self.events_of(x));
            }
        }
        assert forall|x: Seq<char>| #[trigger] after.requests.dom().contains(x) implies (
        after.requests[x].status == RequestStatus::Running <==> after.holds_lease(x)) by {
            assert(self.requests.dom().contains(x));
        }
        assert forall|x: Seq<char>| events_numbered(x, #[trigger] after.events_of(x)) by {
            assert(events_numbered(x, self.events_of(x)));
            if x != id {
                assert(after.events_of(x) == self.events_of(x));
            }
        }
        assert forall|t: Seq<char>| items_numbered(t, #[trigger] after.items_of(t)) by {
            assert(after.items_of(t) == self.items_of(t));
        }
    }

    /// Appended items keep the invariant.
    pub proof fn with_items_wf(self, params: LeaseAppendView)
        requires
            self.wf(),
            self.requests.dom().contains(params.request_id),
            params.payload_refs.len() > 0,
            self.version(self.requests[params.request_id].thread_id) + params.payload_refs.len()
                <= u64::MAX,
        ensures
            self.with_items(params).0.wf(),
    {
        let thread_id = self.requests[params.request_id].thread_id;
        let after = self.with_items(params).0;
        let between = StoreModel { appends: self.appends, ..after };
        assert forall|t: Seq<char>| self.items_of(t).is_prefix_of(
            #[trigger] between.items_of(t),
        ) by {}
        self.same_requests_keep(between);
        assert forall|x: Seq<char>| #[trigger] after.requests.dom().contains(x) implies after.request_ok(
            x,
        ) by {
            assert(self.request_ok(x));
            assert(after.events_of(x) == self.events_of(x));
        }
        assert forall|x: Seq<char>| #[trigger] after.requests.dom().contains(x) implies (
        after.requests[x].status == RequestStatus::Running <==> after.holds_lease(x)) by {
            assert(self.requests.dom().contains(x));
        }
        assert forall|t: Seq<char>| #[trigger] after.leases.dom().contains(t) implies after.lease_ok(
            t,
        ) by {
            assert(self.lease_ok(t));
        }
        assert forall|x: Seq<char>| events_numbered(x, #[trigger] after.events_of(x)) by {
            assert(after.events_of(x) == self.events_of(x));
        }
        assert forall|t: Seq<char>| items_numbered(t, #[trigger] after.items_of(t)) by {
            assert(items_numbered(t, self.items_of(t)));
            if t != thread_id {
                assert(after.items_of(t) == self.items_of(t));
            }
        }
        assert forall|t: Seq<char>, key: Seq<char>| #[trigger]
            after.appends.dom().contains((t, key)) implies after.append_ok(t, key) by {
            if (t, key) == (thread_id, params.append_idempotency_key) {
                let append = after.appends[(t, key)];
                let version = self.version(t);
                assert forall|i: int| 0 <= i < append.payload_refs->0.len() implies #[trigger]
                    append.payload_refs->0[i] == after.items_of(t)[append.response.first_append_sequence
                    - 1 + i].payload_ref by {
                    assert(after.items_of(t)[version + i] == crate::model::numbered_items(
                        t,
                        version,
                        params.payload_refs,
                    )[i]);
                }
            } else {
                assert(between.appends.dom().contains((t, key)));
                assert(between.append_ok(t, key));
                assert(after.items_of(t) == between.items_of(t));
            }
        }
        assert forall|x: Seq<char>| #[trigger] after.configs.dom().contains(x) implies after.config_ok(
            x,
        ) by {
            assert(self.config_ok(x));
        }
    }

    /// Keeping a configuration keeps the invariant.
    pub proof fn persist_config_snapshot_wf(self, record: ConfigSnapshotView)
        requires
            self.wf(),
        ensures
            self.persist_config_snapshot(record).0.wf(),
    {
        let after = self.persist_config_snapshot(record).0;
        if after != self {
            assert forall|x: Seq<char>| #[trigger] after.requests.dom().contains(x) implies
                after.request_ok(x) by {
                assert(self.request_ok(x));
                assert(after.events_of(x) == self.events_of(x));
            }
            assert forall|x: Seq<char>| #[trigger] after.requests.dom().contains(x) implies (
            after.requests[x].status == RequestStatus::Running <==> after.holds_lease(x)) by {
                assert(self.requests.dom().contains(x));
            }
            assert forall|t: Seq<char>| #[trigger] after.leases.dom().contains(t) implies
                after.lease_ok(t) by {
                assert(self.lease_ok(t));
            }
            assert forall|x: Seq<char>| events_numbered(x, #[trigger] after.events_of(x)) by {
                assert(after.events_of(x) == self.events_of(x));
            }
            assert forall|t: Seq<char>| items_numbered(t, #[trigger] after.items_of(t)) by {
                assert(after.items_of(t) == self.items_of(t));
            }
            assert forall|t: Seq<char>, key: Seq<char>| #[trigger]
                after.appends.dom().contains((t, key)) implies after.append_ok(t, key) by {
                assert(self.append_ok(t, key));
                assert(after.items_of(t) == self.items_of(t));
            }
            assert forall|x: Seq<char>| #[trigger] after.configs.dom().contains(x) implies
                after.config_ok(x) by {
                if x != record.request_id {
                    assert(self.config_ok(x));
                }
            }
        }
    }

    /// Keeping metadata keeps the invariant.
    pub proof fn upsert_state_metadata_wf(self, record: StateMetadataView)
        requires
            self.wf(),
        ensures
            self.upsert_state_metadata(record).0.wf(),
    {
        let after = self.upsert_state_metadata(record).0;
        if after != self {
            assert forall|t: Seq<char>| self.items_of(t).is_prefix_of(
                #[trigger] after.items_of(t),
            ) by {}
            self.same_requests_keep(after);
            assert forall|x: Seq<char>| #[trigger] after.requests.dom().contains(x) implies
                after.request_ok(x) by {
                assert(self.request_ok(x));
                assert(after.events_of(x) == self.events_of(x));
            }
            assert forall|x: Seq<char>| #[trigger] after.requests.dom().contains(x) implies (
            after.requests[x].status == RequestStatus::Running <==> after.holds_lease(x)) by {
                assert(self.requests.dom().contains(x));
            }
            assert forall|x: Seq<char>| events_numbered(x, #[trigger] after.events_of(x)) by {
                assert(after.events_of(x) == self.events_of(x));
            }
            assert forall|t: Seq<char>| items_numbered(t, #[trigger] after.items_of(t)) by {
                assert(after.items_of(t) == self.items_of(t));
            }
        }
    }

    /// The lease of a request that does not run needs no release.
    pub proof fn only_running_requests_hold_leases(self, id: Seq<char>)
        requires
            self.wf(),
            self.requests.dom().contains(id),
        ensures
            self.holds_lease(id) <==> self.requests[id].status == RequestStatus::Running,
            self.requests[id].status != RequestStatus::Running ==> self.released(id) == self,
    {
    }
}

} // verus!
