//! The tables of the database as mathematical values, and what each statement does to them.
use vstd::prelude::*;

use crate::mysql::statements::{
    AppendRowView, LeaseRowView, OwnedRequestView, ReplyView, StatementView, StepView,
};
use crate::protocol::append::ThreadItemView;
use crate::protocol::RequestStatus;
use crate::records::{
    ConfigSnapshotView, ErrorView, EventView, RequestView, StateMetadataView,
};

verus! {

/// A row of the table of writer leases.
#[verifier::ext_equal]
pub struct LeaseEntry {
    pub row: LeaseRowView,
    pub released: bool,
}

/// A row of the table of owner leases.
#[verifier::ext_equal]
pub struct OwnerEntry {
    pub turn_id: Option<Seq<char>>,
    pub owner_instance_id: Seq<char>,
    pub expires_at_ms: i64,
    pub released: bool,
}

/// The tables, by their primary keys. Events and items are listed in the order of their
/// numbers. Columns of JSON hold what a query gives back for the text that was written, which
/// `given_back` says: the database lays a value out in its own way, and unquotes a string.
#[verifier::ext_equal]
pub struct Tables {
    pub requests: Map<Seq<char>, RequestView>,
    pub leases: Map<Seq<char>, LeaseEntry>,
    pub owners: Map<Seq<char>, OwnerEntry>,
    pub tokens: nat,
    pub appends: Map<(Seq<char>, Seq<char>), AppendRowView>,
    pub items: Map<Seq<char>, Seq<ThreadItemView>>,
    pub events: Map<Seq<char>, Seq<EventView>>,
    pub configs: Map<Seq<char>, ConfigSnapshotView>,
    pub metadata: Map<(Seq<char>, Seq<char>), StateMetadataView>,
    pub given_back: spec_fn(Seq<char>) -> Seq<char>,
}

/// The tables and, in a transaction, what they were when it was opened.
#[verifier::ext_equal]
pub struct Database {
    pub tables: Tables,
    pub saved: Option<Tables>,
}

impl Tables {
    /// The events of a request.
    pub open spec fn events_of(self, id: Seq<char>) -> Seq<EventView> {
        if self.events.dom().contains(id) {
            self.events[id]
        } else {
            Seq::empty()
        }
    }

    /// The items of a thread.
    pub open spec fn items_of(self, thread_id: Seq<char>) -> Seq<ThreadItemView> {
        if self.items.dom().contains(thread_id) {
            self.items[thread_id]
        } else {
            Seq::empty()
        }
    }

    /// Whether request `id` is recorded under an idempotency key.
    pub open spec fn keyed(
        self,
        id: Seq<char>,
        caller_id: Seq<char>,
        thread_id: Seq<char>,
        idempotency_key: Seq<char>,
    ) -> bool {
        &&& self.requests.dom().contains(id)
        &&& self.requests[id].caller_id == caller_id
        &&& self.requests[id].thread_id == thread_id
        &&& self.requests[id].idempotency_key == idempotency_key
    }

    /// Whether the lease of a thread is held by a request, and neither released nor expired.
    pub open spec fn lease_active(
        self,
        thread_id: Seq<char>,
        request_id: Seq<char>,
        now_ms: i64,
    ) -> bool {
        &&& self.leases.dom().contains(thread_id)
        &&& self.leases[thread_id].row.request_id == request_id
        &&& !self.leases[thread_id].released
        &&& self.leases[thread_id].row.expires_at_ms > now_ms
    }

    /// Whether a request has an owner lease of this owner that is neither released nor
    /// expired.
    pub open spec fn owner_active(
        self,
        request_id: Seq<char>,
        owner: Seq<char>,
        now_ms: i64,
    ) -> bool {
        &&& self.owners.dom().contains(request_id)
        &&& self.owners[request_id].owner_instance_id == owner
        &&& !self.owners[request_id].released
        &&& self.owners[request_id].expires_at_ms > now_ms
    }

    /// Whether an append of the thread ends at item `n`.
    pub open spec fn append_ends_at(self, thread_id: Seq<char>, key: Seq<char>, n: u64) -> bool {
        self.appends.dom().contains((thread_id, key))
            && self.appends[(thread_id, key)].last_append_sequence == n
    }

    /// Whether `n` is the number of the last item that an append of the thread names, or zero
    /// if there is no append.
    pub open spec fn last_appended(self, thread_id: Seq<char>, n: u64) -> bool {
        &&& n == 0 || exists|key: Seq<char>| self.append_ends_at(thread_id, key, n)
        &&& forall|key: Seq<char>| #[trigger]
            self.appends.dom().contains((thread_id, key)) ==> self.appends[(
                thread_id,
                key,
            )].last_append_sequence <= n
    }

    /// The number of the last item that an append of the thread names.
    pub open spec fn version(self, thread_id: Seq<char>) -> u64 {
        choose|n: u64| self.last_appended(thread_id, n)
    }

    pub open spec fn with_request(self, id: Seq<char>, request: RequestView) -> Tables {
        Tables { requests: self.requests.insert(id, request), ..self }
    }

    /// Whether a list of requests holds the running ones whose owner lease has expired, each
    /// once.
    pub open spec fn expired_owners(self, now_ms: i64, expired: Seq<OwnedRequestView>) -> bool {
        &&& forall|i: int|
            0 <= i < expired.len() ==> self.owner_expired(
                (#[trigger] expired[i]).request_id,
                now_ms,
            )
                && self.requests[expired[i].request_id].thread_id == expired[i].thread_id
        &&& forall|i: int, j: int|
            0 <= i < expired.len() && 0 <= j < expired.len() && (
            #[trigger] expired[i]).request_id == (#[trigger] expired[j]).request_id ==> i == j
        &&& forall|id: Seq<char>| #[trigger]
            self.owner_expired(id, now_ms) ==> exists|i: int|
                0 <= i < expired.len() && (#[trigger] expired[i]).request_id == id
    }

    /// Whether a request runs although its owner lease has expired.
    pub open spec fn owner_expired(self, id: Seq<char>, now_ms: i64) -> bool {
        &&& self.requests.dom().contains(id)
        &&& self.requests[id].status == RequestStatus::Running
        &&& self.owners.dom().contains(id)
        &&& !self.owners[id].released
        &&& self.owners[id].expires_at_ms <= now_ms
    }

    /// What a statement does to the tables, and what it answers.
    pub open spec fn execute(self, statement: StatementView) -> (Tables, ReplyView) {
        match statement {
            StatementView::Begin => (self, ReplyView::Done),
            StatementView::Commit => (self, ReplyView::Done),
            StatementView::Rollback => (self, ReplyView::Done),
            StatementView::SelectRequest { request_id } => (self, self.request_reply(request_id)),
            StatementView::LockRequest { request_id } => (self, self.request_reply(request_id)),
            StatementView::SelectRequestByKey { caller_id, thread_id, idempotency_key } => {
                if exists|id: Seq<char>| self.keyed(id, caller_id, thread_id, idempotency_key) {
                    let id = choose|id: Seq<char>|
                        self.keyed(id, caller_id, thread_id, idempotency_key);
                    (self, self.request_reply(id))
                } else {
                    (self, ReplyView::Request(None))
                }
            },
            StatementView::SelectRequestByTurn { turn_id } => {
                if exists|id: Seq<char>| self.in_turn(id, turn_id) {
                    let id = choose|id: Seq<char>| self.in_turn(id, turn_id);
                    (self, self.request_reply(id))
                } else {
                    (self, ReplyView::Request(None))
                }
            },
            StatementView::InsertRequest {
                request_id,
                caller_id,
                thread_id,
                idempotency_key,
                input_hash,
                now_ms,
            } => {
                if self.requests.dom().contains(request_id) || exists|id: Seq<char>|
                    self.keyed(id, caller_id, thread_id, idempotency_key) {
                    (self, ReplyView::Duplicate)
                } else {
                    let request = RequestView {
                        request_id,
                        caller_id,
                        thread_id,
                        idempotency_key,
                        input_hash,
                        turn_id: None,
                        status: RequestStatus::Queued,
                        latest_event_cursor: 0,
                    };
                    (self.with_request(request_id, request), ReplyView::Done)
                }
            },
            StatementView::SetTurn { request_id, turn_id, now_ms } => {
                if self.requests.dom().contains(request_id) {
                    let request = RequestView {
                        turn_id: Some(turn_id),
                        ..self.requests[request_id]
                    };
                    (self.with_request(request_id, request), ReplyView::Affected(1))
                } else {
                    (self, ReplyView::Affected(0))
                }
            },
            StatementView::SetOwnerTurn { request_id, turn_id } => {
                if self.owners.dom().contains(request_id) {
                    let owner = OwnerEntry { turn_id: Some(turn_id), ..self.owners[request_id] };
                    (
                        Tables { owners: self.owners.insert(request_id, owner), ..self },
                        ReplyView::Done,
                    )
                } else {
                    (self, ReplyView::Done)
                }
            },
            StatementView::SelectThreadAccess { caller_id, thread_id } => (
                self,
                ReplyView::Found(self.has_access(caller_id, thread_id)),
            ),
            StatementView::LockThreadLease { thread_id } => (
                self,
                ReplyView::Lease(
                    if self.leases.dom().contains(thread_id) {
                        Some(self.leases[thread_id].row)
                    } else {
                        None
                    },
                ),
            ),
            StatementView::LockHeldThreadLease { thread_id } => (
                self,
                ReplyView::Lease(
                    if self.leases.dom().contains(thread_id) && !self.leases[thread_id].released {
                        Some(self.leases[thread_id].row)
                    } else {
                        None
                    },
                ),
            ),
            StatementView::SelectRequestLease { request_id, now_ms } => {
                if exists|thread_id: Seq<char>| self.lease_active(thread_id, request_id, now_ms) {
                    let thread_id = choose|thread_id: Seq<char>|
                        self.lease_active(thread_id, request_id, now_ms);
                    (self, ReplyView::Lease(Some(self.leases[thread_id].row)))
                } else {
                    (self, ReplyView::Lease(None))
                }
            },
            StatementView::LockActiveLease { thread_id, request_id, now_ms } => (
                self,
                ReplyView::Found(self.lease_active(thread_id, request_id, now_ms)),
            ),
            StatementView::EndRequestWithEvent { request_id, status, now_ms } => {
                if self.requests.dom().contains(request_id)
                    && !self.requests[request_id].status.terminal() {
                    let request = RequestView {
                        status,
                        latest_event_cursor: (self.requests[request_id].latest_event_cursor
                            + 1) as u64,
                        ..self.requests[request_id]
                    };
                    (self.with_request(request_id, request), ReplyView::Affected(1))
                } else {
                    (self, ReplyView::Affected(0))
                }
            },
            StatementView::EndRequest { request_id, status, now_ms } => {
                if self.requests.dom().contains(request_id)
                    && !self.requests[request_id].status.terminal() {
                    let request = RequestView { status, ..self.requests[request_id] };
                    (self.with_request(request_id, request), ReplyView::Affected(1))
                } else {
                    (self, ReplyView::Affected(0))
                }
            },
            StatementView::SelectCursor { request_id } => {
                if self.requests.dom().contains(request_id) {
                    (self, ReplyView::Number(self.requests[request_id].latest_event_cursor))
                } else {
                    (self, Self::refusal())
                }
            },
            StatementView::InsertEvent {
                request_id,
                sequence,
                event_type,
                payload_inline,
                now_ms,
            } => {
                let events = self.events_of(request_id);
                if forall|i: int| 0 <= i < events.len() ==> (#[trigger] events[i]).sequence < sequence {
                    let event = EventView {
                        request_id,
                        sequence,
                        event_type,
                        payload_inline: (self.given_back)(payload_inline),
                    };
                    (
                        Tables {
                            events: self.events.insert(request_id, events.push(event)),
                            ..self
                        },
                        ReplyView::Done,
                    )
                } else {
                    (self, Self::refusal())
                }
            },
            StatementView::ReleaseThreadLease { thread_id, request_id, now_ms } => {
                if self.leases.dom().contains(thread_id) && self.leases[thread_id].row.request_id
                    == request_id {
                    let lease = LeaseEntry { released: true, ..self.leases[thread_id] };
                    (
                        Tables { leases: self.leases.insert(thread_id, lease), ..self },
                        ReplyView::Done,
                    )
                } else {
                    (self, ReplyView::Done)
                }
            },
            StatementView::DeleteThreadLease { thread_id, request_id } => {
                if self.leases.dom().contains(thread_id) && self.leases[thread_id].row.request_id
                    == request_id {
                    (Tables { leases: self.leases.remove(thread_id), ..self }, ReplyView::Done)
                } else {
                    (self, ReplyView::Done)
                }
            },
            StatementView::ReleaseOwnerLease { request_id, now_ms } => {
                if self.owners.dom().contains(request_id) {
                    let owner = OwnerEntry { released: true, ..self.owners[request_id] };
                    (
                        Tables { owners: self.owners.insert(request_id, owner), ..self },
                        ReplyView::Done,
                    )
                } else {
                    (self, ReplyView::Done)
                }
            },
            StatementView::InsertFencingToken { request_id, now_ms } => (
                Tables { tokens: self.tokens + 1, ..self },
                ReplyView::Done,
            ),
            StatementView::SelectFencingToken => (self, ReplyView::Number(self.tokens as u64)),
            StatementView::InsertThreadLease {
                thread_id,
                request_id,
                lease_id,
                owner_instance_id,
                fencing_token,
                now_ms,
                expires_at_ms,
            } => {
                if self.leases.dom().contains(thread_id) || self.lease_id_used(lease_id) {
                    (self, ReplyView::Duplicate)
                } else {
                    let row = LeaseRowView {
                        request_id,
                        lease_id,
                        owner_instance_id,
                        fencing_token,
                        expires_at_ms,
                    };
                    (
                        Tables {
                            leases: self.leases.insert(
                                thread_id,
                                LeaseEntry { row, released: false },
                            ),
                            ..self
                        },
                        ReplyView::Done,
                    )
                }
            },
            StatementView::UpsertOwnerLease {
                request_id,
                turn_id,
                owner_instance_id,
                now_ms,
                expires_at_ms,
            } => {
                let owner = OwnerEntry {
                    turn_id: if self.owners.dom().contains(request_id) {
                        self.owners[request_id].turn_id
                    } else {
                        turn_id
                    },
                    owner_instance_id,
                    expires_at_ms,
                    released: false,
                };
                (
                    Tables { owners: self.owners.insert(request_id, owner), ..self },
                    ReplyView::Done,
                )
            },
            StatementView::SetStatus { request_id, status } => {
                if self.requests.dom().contains(request_id) {
                    if self.requests[request_id].status.terminal() {
                        (self, ReplyView::Affected(1))
                    } else {
                        let request = RequestView { status, ..self.requests[request_id] };
                        (self.with_request(request_id, request), ReplyView::Affected(1))
                    }
                } else {
                    (self, ReplyView::Affected(0))
                }
            },
            StatementView::RenewThreadLease {
                thread_id,
                request_id,
                owner_instance_id,
                now_ms,
                expires_at_ms,
            } => {
                if self.lease_active(thread_id, request_id, now_ms)
                    && self.leases[thread_id].row.owner_instance_id == owner_instance_id {
                    let lease = self.leases[thread_id];
                    let renewed = LeaseEntry {
                        row: LeaseRowView { expires_at_ms, ..lease.row },
                        ..lease
                    };
                    (
                        Tables { leases: self.leases.insert(thread_id, renewed), ..self },
                        ReplyView::Affected(1),
                    )
                } else {
                    (self, ReplyView::Affected(0))
                }
            },
            StatementView::RenewOwnerLease {
                request_id,
                owner_instance_id,
                now_ms,
                expires_at_ms,
            } => {
                if self.owner_active(request_id, owner_instance_id, now_ms) {
                    let owner = OwnerEntry { expires_at_ms, ..self.owners[request_id] };
                    (
                        Tables { owners: self.owners.insert(request_id, owner), ..self },
                        ReplyView::Affected(1),
                    )
                } else {
                    (self, ReplyView::Affected(0))
                }
            },
            StatementView::LockExpiredOwners { now_ms } => (
                self,
                ReplyView::Owners(
                    choose|expired: Seq<OwnedRequestView>| self.expired_owners(now_ms, expired),
                ),
            ),
            StatementView::SelectAppend { thread_id, append_idempotency_key } => (
                self,
                ReplyView::Append(
                    if self.appends.dom().contains((thread_id, append_idempotency_key)) {
                        Some(self.appends[(thread_id, append_idempotency_key)])
                    } else {
                        None
                    },
                ),
            ),
            StatementView::SelectVersion { thread_id } => (
                self,
                ReplyView::Number(self.version(thread_id)),
            ),
            StatementView::InsertItem { thread_id, sequence, payload_ref } => {
                let items = self.items_of(thread_id);
                if forall|i: int| 0 <= i < items.len() ==> (#[trigger] items[i]).sequence < sequence {
                    let item = ThreadItemView { thread_id, sequence, payload_ref };
                    (
                        Tables { items: self.items.insert(thread_id, items.push(item)), ..self },
                        ReplyView::Done,
                    )
                } else {
                    (self, Self::refusal())
                }
            },
            StatementView::InsertAppend {
                thread_id,
                request_id,
                append_idempotency_key,
                payload_refs_json,
                response,
            } => {
                let key = (thread_id, append_idempotency_key);
                if self.appends.dom().contains(key) {
                    (self, ReplyView::Duplicate)
                } else {
                    let append = AppendRowView {
                        request_id,
                        payload_refs_json: (self.given_back)(payload_refs_json),
                        thread_version: response.thread_version,
                        first_append_sequence: response.first_append_sequence,
                        last_append_sequence: response.last_append_sequence,
                    };
                    (
                        Tables { appends: self.appends.insert(key, append), ..self },
                        ReplyView::Done,
                    )
                }
            },
            StatementView::SelectItems { thread_id, after, count } => (
                self,
                ReplyView::Items(
                    first(
                        self.items_of(thread_id).filter(
                            |item: ThreadItemView| item.sequence > after,
                        ),
                        count,
                    ),
                ),
            ),
            StatementView::AdvanceCursor { request_id, now_ms } => {
                if self.requests.dom().contains(request_id) {
                    (self.advanced(request_id), ReplyView::Affected(1))
                } else {
                    (self, ReplyView::Affected(0))
                }
            },
            StatementView::AdvanceCursorFrom { request_id, expected, now_ms } => {
                if self.requests.dom().contains(request_id)
                    && self.requests[request_id].latest_event_cursor == expected {
                    (self.advanced(request_id), ReplyView::Affected(1))
                } else {
                    (self, ReplyView::Affected(0))
                }
            },
            StatementView::SelectEvents { request_id, after, count } => (
                self,
                ReplyView::Events(
                    first(
                        self.events_of(request_id).filter(
                            |event: EventView| event.sequence > after,
                        ),
                        count,
                    ),
                ),
            ),
            StatementView::UpsertConfig { request_id, thread_id, config_json, now_ms } => (
                Tables {
                    configs: self.configs.insert(
                        request_id,
                        ConfigSnapshotView {
                            request_id,
                            thread_id,
                            config_json: (self.given_back)(config_json),
                        },
                    ),
                    ..self
                },
                ReplyView::Done,
            ),
            StatementView::SelectConfig { request_id } => (
                self,
                ReplyView::Config(
                    if self.configs.dom().contains(request_id) {
                        Some(self.configs[request_id])
                    } else {
                        None
                    },
                ),
            ),
            StatementView::UpsertMetadata { thread_id, kind, payload_json, now_ms } => (
                Tables {
                    metadata: self.metadata.insert(
                        (thread_id, kind),
                        StateMetadataView {
                            thread_id,
                            kind,
                            payload_json: (self.given_back)(payload_json),
                        },
                    ),
                    ..self
                },
                ReplyView::Done,
            ),
            StatementView::SelectMetadata { thread_id, kind } => (
                self,
                ReplyView::Metadata(
                    if self.metadata.dom().contains((thread_id, kind)) {
                        Some(self.metadata[(thread_id, kind)])
                    } else {
                        None
                    },
                ),
            ),
        }
    }

    /// The answer that holds request `id`, if it is there.
    pub open spec fn request_reply(self, id: Seq<char>) -> ReplyView {
        ReplyView::Request(
            if self.requests.dom().contains(id) {
                Some(self.requests[id].row())
            } else {
                None
            },
        )
    }

    /// Whether request `id` runs in a turn.
    pub open spec fn in_turn(self, id: Seq<char>, turn_id: Seq<char>) -> bool {
        self.requests.dom().contains(id) && self.requests[id].turn_id == Some(turn_id)
    }

    /// Whether request `id` is of this caller and on this thread.
    pub open spec fn on_thread_of(
        self,
        id: Seq<char>,
        caller_id: Seq<char>,
        thread_id: Seq<char>,
    ) -> bool {
        &&& self.requests.dom().contains(id)
        &&& self.requests[id].caller_id == caller_id
        &&& self.requests[id].thread_id == thread_id
    }

    /// Whether a request of the caller is on the thread.
    pub open spec fn has_access(self, caller_id: Seq<char>, thread_id: Seq<char>) -> bool {
        exists|id: Seq<char>| self.on_thread_of(id, caller_id, thread_id)
    }

    /// Whether the lease of a thread has this identifier.
    pub open spec fn lease_named(self, thread_id: Seq<char>, lease_id: Seq<char>) -> bool {
        self.leases.dom().contains(thread_id) && self.leases[thread_id].row.lease_id == lease_id
    }

    /// Whether a lease has this identifier.
    pub open spec fn lease_id_used(self, lease_id: Seq<char>) -> bool {
        exists|t: Seq<char>| self.lease_named(t, lease_id)
    }

    /// The tables after a fencing token was drawn that no lease has.
    pub open spec fn token_drawn(self) -> Tables {
        Tables { tokens: self.tokens + 1, ..self }
    }

    /// The tables with one more event counted for a request.
    pub open spec fn advanced(self, id: Seq<char>) -> Tables {
        self.with_request(
            id,
            RequestView {
                latest_event_cursor: (self.requests[id].latest_event_cursor + 1) as u64,
                ..self.requests[id]
            },
        )
    }

    /// The answer to a statement that the tables do not admit.
    pub open spec fn refusal() -> ReplyView {
        ReplyView::Failed("refused"@)
    }
}

/// The first `count` entries of a list.
pub open spec fn first<T>(list: Seq<T>, count: u64) -> Seq<T> {
    if list.len() <= count {
        list
    } else {
        list.take(count as int)
    }
}

impl Database {
    /// A database outside of any transaction.
    pub open spec fn of(tables: Tables) -> Database {
        Database { tables, saved: None }
    }

    /// What a statement does, and what it answers.
    pub open spec fn execute(self, statement: StatementView) -> (Database, ReplyView) {
        match statement {
            StatementView::Begin => (
                Database { tables: self.tables, saved: Some(self.tables) },
                ReplyView::Done,
            ),
            StatementView::Commit => (Database::of(self.tables), ReplyView::Done),
            StatementView::Rollback => (Database::of(self.closed()), ReplyView::Done),
            _ => {
                let (tables, reply) = self.tables.execute(statement);
                (Database { tables, saved: self.saved }, reply)
            },
        }
    }

    /// The tables that stay when a transaction that is still open is dropped. A fencing token
    /// that was drawn is not drawn again.
    pub open spec fn closed(self) -> Tables {
        match self.saved {
            Some(saved) => Tables { tokens: self.tables.tokens, ..saved },
            None => self.tables,
        }
    }

    /// The conversation of an operation with the database, in at most `fuel` statements: the
    /// tables that stay, and the answer.
    pub open spec fn run<T>(
        self,
        script: spec_fn(Seq<ReplyView>) -> StepView<T>,
        h: Seq<ReplyView>,
        fuel: nat,
    ) -> Option<(Tables, Result<T, ErrorView>)>
        decreases fuel,
    {
        match script(h) {
            StepView::Done(r) => Some((self.closed(), r)),
            StepView::Ask(statement) => if fuel == 0 {
                None
            } else {
                let (next, reply) = self.execute(statement);
                next.run(script, h.push(reply), (fuel - 1) as nat)
            },
        }
    }
}

impl Tables {
    /// What an operation comes to on these tables.
    pub open spec fn carry_out<T>(
        self,
        script: spec_fn(Seq<ReplyView>) -> StepView<T>,
        fuel: nat,
    ) -> Option<(Tables, Result<T, ErrorView>)> {
        Database::of(self).run(script, Seq::empty(), fuel)
    }
}

} // verus!
