//! What no operation takes out of the database.
use vstd::prelude::*;

use crate::mysql::appends::lease_allows;
use crate::mysql::statements::OwnedRequestView;
use crate::mysql::tables::Tables;
use crate::protocol::{AppendThreadItemsWithLeaseResponse, RequestStatus};
use crate::records::{
    ConfigSnapshotView, CreateRequestView, ErrorView, EventAppendView, LeaseAppendView,
    StateMetadataView,
};

verus! {

impl Tables {
    /// Whether request `id` is still there in `later`: the same request, and over if it was.
    pub open spec fn request_stays(self, later: Tables, id: Seq<char>) -> bool {
        &&& later.requests.dom().contains(id)
        &&& later.requests[id].request_id == self.requests[id].request_id
        &&& later.requests[id].caller_id == self.requests[id].caller_id
        &&& later.requests[id].thread_id == self.requests[id].thread_id
        &&& later.requests[id].idempotency_key == self.requests[id].idempotency_key
        &&& later.requests[id].input_hash == self.requests[id].input_hash
        &&& self.requests[id].status.terminal() ==> later.requests[id].status
            == self.requests[id].status
    }

    /// Whether `later` can come of these tables: nothing is lost, and what is over stays over.
    pub open spec fn grows_into(self, later: Tables) -> bool {
        &&& self.tokens <= later.tokens
        &&& later.given_back == self.given_back
        &&& forall|id: Seq<char>| #[trigger]
            self.requests.dom().contains(id) ==> self.request_stays(later, id)
        &&& forall|id: Seq<char>| self.events_of(id).is_prefix_of(#[trigger] later.events_of(id))
        &&& forall|t: Seq<char>| self.items_of(t).is_prefix_of(#[trigger] later.items_of(t))
        &&& forall|key: (Seq<char>, Seq<char>)| #[trigger]
            self.appends.dom().contains(key) ==> later.appends.dom().contains(key)
                && later.appends[key] == self.appends[key]
    }

    /// What comes of tables over several operations has come of them: growth adds up.
    pub proof fn growth_adds_up(self, middle: Tables, later: Tables)
        requires
            self.grows_into(middle),
            middle.grows_into(later),
        ensures
            self.grows_into(later),
    {
        assert forall|id: Seq<char>| #[trigger] self.requests.dom().contains(id) implies
            self.request_stays(later, id) by {
            assert(self.request_stays(middle, id));
            assert(middle.requests.dom().contains(id));
            assert(middle.request_stays(later, id));
        }
        assert forall|id: Seq<char>| self.events_of(id).is_prefix_of(
            #[trigger] later.events_of(id),
        ) by {
            assert(self.events_of(id).is_prefix_of(middle.events_of(id)));
            assert(middle.events_of(id).is_prefix_of(later.events_of(id)));
        }
        assert forall|t: Seq<char>| self.items_of(t).is_prefix_of(#[trigger] later.items_of(t)) by {
            assert(self.items_of(t).is_prefix_of(middle.items_of(t)));
            assert(middle.items_of(t).is_prefix_of(later.items_of(t)));
        }
    }

    /// Ending a request with an event and releasing its leases loses nothing.
    proof fn ending_grows(
        self,
        id: Seq<char>,
        status: RequestStatus,
        event_type: Seq<char>,
        payload_inline: Seq<char>,
        thread_id: Seq<char>,
    )
        ensures
            self.grows_into(
                self.ended_with_event(id, status, event_type, payload_inline).released(
                    thread_id,
                    id,
                ),
            ),
    {
        let later = self.ended_with_event(id, status, event_type, payload_inline).released(
            thread_id,
            id,
        );
        assert forall|x: Seq<char>| self.events_of(x).is_prefix_of(#[trigger] later.events_of(x)) by {
            if x != id {
                assert(later.events_of(x) == self.events_of(x));
            }
        }
        assert forall|t: Seq<char>| self.items_of(t).is_prefix_of(#[trigger] later.items_of(t)) by {
            assert(later.items_of(t) == self.items_of(t));
        }
    }

    /// Recording a request, noting its turn, and keeping its configuration and the metadata of
    /// its thread lose nothing.
    pub proof fn recording_grows(
        self,
        params: CreateRequestView,
        new_id: Seq<char>,
        id: Seq<char>,
        turn_id: Seq<char>,
        configs: Map<Seq<char>, ConfigSnapshotView>,
        metadata: Map<(Seq<char>, Seq<char>), StateMetadataView>,
    )
        requires
            !self.requests.dom().contains(new_id),
        ensures
            self.grows_into(self.create_request(params, new_id).0),
            self.grows_into(self.with_turn(id, turn_id)),
            self.grows_into(Tables { configs, metadata, ..self }),
    {
        let created = self.create_request(params, new_id).0;
        let noted = self.with_turn(id, turn_id);
        let kept = Tables { configs, metadata, ..self };
        assert forall|x: Seq<char>| #[trigger] self.requests.dom().contains(x) implies
            self.request_stays(noted, x) by {}
        assert forall|x: Seq<char>| self.events_of(x).is_prefix_of(#[trigger] created.events_of(x)) by {
            assert(created.events_of(x) == self.events_of(x));
        }
        assert forall|x: Seq<char>| self.events_of(x).is_prefix_of(#[trigger] noted.events_of(x)) by {
            assert(noted.events_of(x) == self.events_of(x));
        }
        assert forall|x: Seq<char>| self.events_of(x).is_prefix_of(#[trigger] kept.events_of(x)) by {
            assert(kept.events_of(x) == self.events_of(x));
        }
        assert forall|x: Seq<char>| self.items_of(x).is_prefix_of(#[trigger] created.items_of(x)) by {
            assert(created.items_of(x) == self.items_of(x));
        }
        assert forall|x: Seq<char>| self.items_of(x).is_prefix_of(#[trigger] noted.items_of(x)) by {
            assert(noted.items_of(x) == self.items_of(x));
        }
        assert forall|x: Seq<char>| self.items_of(x).is_prefix_of(#[trigger] kept.items_of(x)) by {
            assert(kept.items_of(x) == self.items_of(x));
        }
    }

    /// Tables that have the same items and appends, with a request that stays and another
    /// lease, lose nothing.
    proof fn leasing_grows(self, later: Tables)
        requires
            self.tokens <= later.tokens,
            later.given_back == self.given_back,
            later.events == self.events,
            later.items == self.items,
            later.appends == self.appends,
            forall|id: Seq<char>| #[trigger]
                self.requests.dom().contains(id) ==> self.request_stays(later, id),
        ensures
            self.grows_into(later),
    {
        assert forall|x: Seq<char>| self.events_of(x).is_prefix_of(#[trigger] later.events_of(x)) by {
            assert(later.events_of(x) == self.events_of(x));
        }
        assert forall|t: Seq<char>| self.items_of(t).is_prefix_of(#[trigger] later.items_of(t)) by {
            assert(later.items_of(t) == self.items_of(t));
        }
    }

    /// Taking and renewing leases lose nothing.
    pub proof fn leases_grow(
        self,
        id: Seq<char>,
        owner: Seq<char>,
        lease_id: Seq<char>,
        now_ms: i64,
    )
        ensures
            self.grows_into(self.acquire(id, owner, lease_id, now_ms).0),
            self.grows_into(self.renew(id, owner, now_ms).0),
    {
        let thread_id = self.requests[id].thread_id;
        let holder = self.leases[thread_id].row.request_id;
        self.leasing_grows(self);
        self.leasing_grows(self.token_drawn());
        self.ending_grows(
            holder,
            RequestStatus::LeaseLost,
            "request/lease_lost"@,
            "{\"reason\":\"thread_writer_lease_expired\"}"@,
            thread_id,
        );
        let freed = self.expired_lease_lost(thread_id);
        assert(self.grows_into(freed));
        if self.requests.dom().contains(id) {
            assert(self.request_stays(freed, id));
            if freed.requests[id].status == RequestStatus::Queued {
                let granted = freed.granted(id, owner, lease_id, now_ms);
                freed.leasing_grows(granted);
                self.growth_adds_up(freed, granted);
            }
        }
        self.ending_grows(
            id,
            RequestStatus::LeaseLost,
            "request/lease_lost"@,
            "{\"reason\":\"thread_writer_lease_lost\"}"@,
            thread_id,
        );
        let renewed = self.lease_renewed(thread_id, now_ms);
        self.leasing_grows(renewed);
        self.leasing_grows(renewed.owner_renewed(id, now_ms));
        renewed.ending_grows(
            id,
            RequestStatus::OwnerTimedOut,
            "request/owner_timed_out"@,
            "{\"reason\":\"owner_lease_lost\"}"@,
            thread_id,
        );
        self.growth_adds_up(
            renewed,
            renewed.owner_timed_out(thread_id, id, "{\"reason\":\"owner_lease_lost\"}"@),
        );
    }

    /// Adding events and ending requests lose nothing.
    pub proof fn events_grow(
        self,
        event: EventAppendView,
        expected: u64,
        status: RequestStatus,
        now_ms: i64,
    )
        ensures
            self.grows_into(self.append_event(event).0),
            self.grows_into(self.append_event_if(event, expected).0),
            self.grows_into(self.mark_terminal(event.request_id, status, now_ms).0),
            self.grows_into(self.mark_terminal_with_event(event, status, now_ms).0),
    {
        let id = event.request_id;
        let thread_id = self.requests[id].thread_id;
        self.leasing_grows(self);
        let said = self.with_event(event);
        if self.requests.dom().contains(id) {
            assert forall|x: Seq<char>| self.events_of(x).is_prefix_of(
                #[trigger] said.events_of(x),
            ) by {
                if x != id {
                    assert(said.events_of(x) == self.events_of(x));
                }
            }
            assert forall|t: Seq<char>| self.items_of(t).is_prefix_of(
                #[trigger] said.items_of(t),
            ) by {
                assert(said.items_of(t) == self.items_of(t));
            }
            assert(self.grows_into(said));
            if !self.requests[id].status.terminal() {
                self.leasing_grows(self.mark_terminal(id, status, now_ms).0);
            }
        }
        self.ending_grows(id, status, event.event_type, event.payload_inline, thread_id);
        self.ending_grows(
            id,
            RequestStatus::LeaseLost,
            "request/lease_lost"@,
            "{\"reason\":\"thread_writer_lease_lost\"}"@,
            thread_id,
        );
    }

    /// Ending the requests whose owners have timed out loses nothing.
    pub proof fn expiry_grows(self, expired: Seq<OwnedRequestView>, from: int)
        requires
            0 <= from <= expired.len(),
        ensures
            self.grows_into(self.owners_timed_out(expired, from)),
        decreases expired.len() - from,
    {
        self.leasing_grows(self);
        if from < expired.len() {
            let next = self.owner_timed_out(
                expired[from].thread_id,
                expired[from].request_id,
                "{\"reason\":\"owner_lease_expired\"}"@,
            );
            self.ending_grows(
                expired[from].request_id,
                RequestStatus::OwnerTimedOut,
                "request/owner_timed_out"@,
                "{\"reason\":\"owner_lease_expired\"}"@,
                expired[from].thread_id,
            );
            next.expiry_grows(expired, from + 1);
            self.growth_adds_up(next, self.owners_timed_out(expired, from));
        }
    }

    /// Appending loses nothing.
    pub proof fn append_grows(self, params: LeaseAppendView, now_ms: i64)
        ensures
            self.grows_into(self.append(params, now_ms).0),
    {
        let id = params.request_id;
        let thread_id = self.requests[id].thread_id;
        self.leasing_grows(self);
        self.ending_grows(
            id,
            RequestStatus::LeaseLost,
            "request/lease_lost"@,
            "{\"reason\":\"thread_writer_lease_lost\"}"@,
            thread_id,
        );
        let later = self.append(params, now_ms).0;
        if later == self.appended(thread_id, params) {
            let appended = self.appended(thread_id, params);
            assert forall|x: Seq<char>| self.events_of(x).is_prefix_of(
                #[trigger] appended.events_of(x),
            ) by {
                assert(appended.events_of(x) == self.events_of(x));
            }
            assert forall|t: Seq<char>| self.items_of(t).is_prefix_of(
                #[trigger] appended.items_of(t),
            ) by {
                if t != thread_id {
                    assert(appended.items_of(t) == self.items_of(t));
                }
            }
        }
    }

    /// Repeating an append that was made answers with the same numbers and changes nothing,
    /// however much the tables have grown since, as long as the lease lasts, the database
    /// keeps lists of texts and `serde_json` reads back the payloads that it wrote. The version
    /// that the repetition expects does not matter.
    pub proof fn repeated_append_is_deduplicated(
        self,
        params: LeaseAppendView,
        expected: Option<u64>,
        now_ms: i64,
        later: Tables,
        later_ms: i64,
    )
        requires
            self.keeps_lists(),
            crate::json::json_texts(crate::json::texts_json(params.payload_refs)) == Some(
                params.payload_refs,
            ),
            self.append(params, now_ms).1 is Ok,
            self.append(params, now_ms).0.grows_into(later),
            lease_allows(
                later.held(later.requests[params.request_id].thread_id),
                params,
                later_ms,
            ),
        ensures
            ({
                let again = LeaseAppendView { expected_thread_version: expected, ..params };
                later.append(again, later_ms) == (
                    later,
                    Ok::<AppendThreadItemsWithLeaseResponse, ErrorView>(
                        AppendThreadItemsWithLeaseResponse {
                            deduplicated: true,
                            ..self.append(params, now_ms).1->Ok_0
                        },
                    ),
                )
            }),
    {
        let after = self.append(params, now_ms).0;
        let key = (self.requests[params.request_id].thread_id, params.append_idempotency_key);
        assert(after.requests.dom().contains(params.request_id));
        assert(after.request_stays(later, params.request_id));
        assert(after.appends.dom().contains(key));
        assert(later.appends[key] == after.appends[key]);
    }
}

} // verus!
