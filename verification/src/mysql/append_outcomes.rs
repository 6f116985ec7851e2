//! What appending items comes to on the tables of the database.
use vstd::prelude::*;

use crate::mysql::appends::{
    append_new_items_steps, append_response, append_thread_items_with_lease_steps,
    append_under_lease_steps, insert_items_steps, lease_allows, repeated_response, repeats,
};
use crate::mysql::conversations::{lose_steps, Stage};
use crate::mysql::statements::{
    after, AppendRowView, LeaseRowView, ReplyView, StatementView, StepView,
};
use crate::mysql::tables::{Database, Tables};
use crate::protocol::append::ThreadItemView;
use crate::protocol::{AppendThreadItemsWithLeaseResponse, RequestStatus};
use crate::records::{ErrorView, LeaseAppendView};

verus! {

impl Tables {
    /// Whether the items of a thread are numbered from one up to the last that an append
    /// names.
    pub open spec fn items_counted(self, thread_id: Seq<char>) -> bool {
        let items = self.items_of(thread_id);
        &&& items.len() == self.version(thread_id)
        &&& forall|i: int| 0 <= i < items.len() ==> (#[trigger] items[i]).sequence == i + 1
    }

    /// The lease that is held on a thread, if it is not released.
    pub open spec fn held(self, thread_id: Seq<char>) -> Option<LeaseRowView> {
        if self.leases.dom().contains(thread_id) && !self.leases[thread_id].released {
            Some(self.leases[thread_id].row)
        } else {
            None
        }
    }

    /// The tables with items added to the end of a thread, from the `from`-th one on.
    pub open spec fn with_items(
        self,
        thread_id: Seq<char>,
        version: u64,
        payload_refs: Seq<Seq<char>>,
        from: int,
    ) -> Tables {
        if from >= payload_refs.len() {
            self
        } else {
            Tables {
                items: self.items.insert(
                    thread_id,
                    self.items_of(thread_id) + Seq::new(
                        (payload_refs.len() - from) as nat,
                        |i: int|
                            ThreadItemView {
                                thread_id,
                                sequence: (version + from + i + 1) as u64,
                                payload_ref: payload_refs[from + i],
                            },
                    ),
                ),
                ..self
            }
        }
    }

    /// The tables after an append was made under its key.
    pub open spec fn appended(self, thread_id: Seq<char>, params: LeaseAppendView) -> Tables {
        let version = self.version(thread_id);
        let response = append_response(version, params.payload_refs.len());
        let listed = self.with_items(thread_id, version, params.payload_refs, 0);
        Tables {
            appends: listed.appends.insert(
                (thread_id, params.append_idempotency_key),
                AppendRowView {
                    request_id: params.request_id,
                    payload_refs_json: (self.given_back)(
                        crate::json::texts_json(params.payload_refs),
                    ),
                    thread_version: response.thread_version,
                    first_append_sequence: response.first_append_sequence,
                    last_append_sequence: response.last_append_sequence,
                },
            ),
            ..listed
        }
    }

    /// Appending items under a lease. A lease that is wrong or has expired is lost, with an
    /// event; a repeated append is answered as before.
    pub open spec fn append(self, params: LeaseAppendView, now_ms: i64) -> (
        Tables,
        Result<AppendThreadItemsWithLeaseResponse, ErrorView>,
    ) {
        let id = params.request_id;
        let thread_id = self.requests[id].thread_id;
        let key = (thread_id, params.append_idempotency_key);
        let held = self.held(thread_id);
        if params.payload_refs.len() == 0 {
            (self, Err(ErrorView::EmptyAppend))
        } else if !self.requests.dom().contains(id) {
            (self, Err(ErrorView::RequestNotFound))
        } else if !lease_allows(held, params, now_ms) {
            (
                if held is Some && held->0.request_id == id {
                    self.lost(thread_id, id, "{\"reason\":\"thread_writer_lease_lost\"}"@)
                } else {
                    self
                },
                Err(ErrorView::LeaseLost),
            )
        } else if self.appends.dom().contains(key) {
            if repeats(self.appends[key], params) {
                (self, Ok(repeated_response(self.appends[key])))
            } else {
                (self, Err(ErrorView::IdempotencyConflict))
            }
        } else if params.expected_thread_version is Some && params.expected_thread_version->0
            != self.version(thread_id) {
            (self, Err(ErrorView::ThreadVersionConflict))
        } else {
            (
                self.appended(thread_id, params),
                Ok(append_response(self.version(thread_id), params.payload_refs.len())),
            )
        }
    }

    /// Appending comes to what it should on the tables.
    pub proof fn append_carried_out(self, params: LeaseAppendView, now_ms: i64)
        requires
            self.requests_named(),
            self.requests.dom().contains(params.request_id) ==> self.events_counted(
                params.request_id,
            ) && self.items_counted(self.requests[params.request_id].thread_id) && self.version(
                self.requests[params.request_id].thread_id,
            ) + params.payload_refs.len() <= u64::MAX,
        ensures
            self.carry_out(
                |h: Seq<ReplyView>| append_thread_items_with_lease_steps(params, now_ms, h),
                params.payload_refs.len() + 10,
            ) == Some(self.append(params, now_ms)),
    {
        let script = |h: Seq<ReplyView>| append_thread_items_with_lease_steps(params, now_ms, h);
        let id = params.request_id;
        let start = Stage {
            db: Database::of(self),
            h: Seq::empty(),
            fuel: params.payload_refs.len() + 10,
        };
        if params.payload_refs.len() == 0 {
            start.ends(script, Err(ErrorView::EmptyAppend));
        } else {
            let select = StatementView::SelectRequest { request_id: id };
            start.asks(script, select);
            let found = start.next(select);
            if !self.requests.dom().contains(id) {
                found.ends(script, Err(ErrorView::RequestNotFound));
            } else {
                let thread_id = self.requests[id].thread_id;
                self.requests[id].row_reads_back();
                found.asks(script, StatementView::Begin);
                let begun = found.next(StatementView::Begin);
                assert forall|g: Seq<ReplyView>| #[trigger] begun.h.is_prefix_of(g) implies script(g)
                    == append_under_lease_steps(params, thread_id, now_ms, g, 2) by {
                    assert(g[0] == begun.h[0] && g[1] == begun.h[1]);
                }
                begun.appends_under_lease(script, self, params, thread_id, now_ms);
            }
        }
    }
}

impl Stage {
    /// The part of a conversation that appends under the lease that is held.
    proof fn appends_under_lease(
        self,
        script: spec_fn(Seq<ReplyView>) -> StepView<AppendThreadItemsWithLeaseResponse>,
        tables: Tables,
        params: LeaseAppendView,
        thread_id: Seq<char>,
        now_ms: i64,
    )
        requires
            self.db == (Database { tables, saved: Some(tables) }),
            self.fuel >= params.payload_refs.len() + 8,
            params.payload_refs.len() > 0,
            tables.requests.dom().contains(params.request_id),
            tables.requests[params.request_id].thread_id == thread_id,
            tables.events_counted(params.request_id),
            tables.items_counted(thread_id),
            tables.version(thread_id) + params.payload_refs.len() <= u64::MAX,
            self.goes_on(
                script,
                |g: Seq<ReplyView>|
                    append_under_lease_steps(params, thread_id, now_ms, g, self.h.len() as int),
            ),
        ensures
            self.outcome(script) == Some(tables.append(params, now_ms)),
    {
        let id = params.request_id;
        let at = self.h.len() as int;
        let lock = StatementView::LockHeldThreadLease { thread_id };
        assert(self.h.is_prefix_of(self.h));
        self.asks(script, lock);
        let locked = self.next(lock);
        assert(self.h.is_prefix_of(locked.h));
        let held = tables.held(thread_id);
        if !lease_allows(held, params, now_ms) {
            if held is Some && held->0.request_id == id {
                let payload = "{\"reason\":\"thread_writer_lease_lost\"}"@;
                let lost = Err::<AppendThreadItemsWithLeaseResponse, ErrorView>(
                    ErrorView::LeaseLost,
                );
                assert forall|g: Seq<ReplyView>| #[trigger] locked.h.is_prefix_of(g) implies script(
                    g,
                ) == lose_steps(
                    thread_id,
                    id,
                    RequestStatus::LeaseLost,
                    "request/lease_lost"@,
                    payload,
                    now_ms,
                    lost,
                    g,
                    at + 1,
                ) by {
                    assert(self.h.is_prefix_of(g));
                    assert(g[at] == locked.h[at]);
                }
                locked.loses(
                    script,
                    thread_id,
                    id,
                    RequestStatus::LeaseLost,
                    "request/lease_lost"@,
                    payload,
                    now_ms,
                    lost,
                );
            } else {
                let done = locked.next(StatementView::Commit);
                assert(self.h.is_prefix_of(done.h));
                locked.commits(script, Err(ErrorView::LeaseLost));
            }
        } else {
            let select = StatementView::SelectAppend {
                thread_id,
                append_idempotency_key: params.append_idempotency_key,
            };
            locked.asks(script, select);
            let selected = locked.next(select);
            assert(self.h.is_prefix_of(selected.h));
            let key = (thread_id, params.append_idempotency_key);
            if tables.appends.dom().contains(key) {
                if repeats(tables.appends[key], params) {
                    assert(self.h.is_prefix_of(selected.next(StatementView::Commit).h));
                    selected.commits(script, Ok(repeated_response(tables.appends[key])));
                } else {
                    selected.asks(script, StatementView::Rollback);
                    let done = selected.next(StatementView::Rollback);
                    assert(self.h.is_prefix_of(done.h));
                    done.ends(script, Err(ErrorView::IdempotencyConflict));
                }
            } else {
                assert forall|g: Seq<ReplyView>| #[trigger]
                    selected.h.is_prefix_of(g) implies script(g) == append_new_items_steps(
                    params,
                    thread_id,
                    g,
                    at + 2,
                ) by {
                    assert(self.h.is_prefix_of(g));
                    assert(g[at] == selected.h[at] && g[at + 1] == selected.h[at + 1]);
                }
                selected.appends_new_items(script, tables, params, thread_id);
            }
        }
    }

    /// The part of a conversation that appends items that were not appended before.
    proof fn appends_new_items(
        self,
        script: spec_fn(Seq<ReplyView>) -> StepView<AppendThreadItemsWithLeaseResponse>,
        tables: Tables,
        params: LeaseAppendView,
        thread_id: Seq<char>,
    )
        requires
            self.db == (Database { tables, saved: Some(tables) }),
            self.fuel >= params.payload_refs.len() + 3,
            params.payload_refs.len() > 0,
            !tables.appends.dom().contains((thread_id, params.append_idempotency_key)),
            tables.items_counted(thread_id),
            tables.version(thread_id) + params.payload_refs.len() <= u64::MAX,
            self.goes_on(
                script,
                |g: Seq<ReplyView>|
                    append_new_items_steps(params, thread_id, g, self.h.len() as int),
            ),
        ensures
            self.outcome(script) == Some(
                if params.expected_thread_version is Some && params.expected_thread_version->0
                    != tables.version(thread_id) {
                    (
                        tables,
                        Err::<AppendThreadItemsWithLeaseResponse, ErrorView>(
                            ErrorView::ThreadVersionConflict,
                        ),
                    )
                } else {
                    (
                        tables.appended(thread_id, params),
                        Ok::<AppendThreadItemsWithLeaseResponse, ErrorView>(
                            append_response(tables.version(thread_id), params.payload_refs.len()),
                        ),
                    )
                },
            ),
    {
        let at = self.h.len() as int;
        let version = tables.version(thread_id);
        let response = append_response(version, params.payload_refs.len());
        let select = StatementView::SelectVersion { thread_id };
        assert(self.h.is_prefix_of(self.h));
        self.asks(script, select);
        let counted = self.next(select);
        assert(self.h.is_prefix_of(counted.h));
        if params.expected_thread_version is Some && params.expected_thread_version->0 != version {
            counted.asks(script, StatementView::Rollback);
            let done = counted.next(StatementView::Rollback);
            assert(self.h.is_prefix_of(done.h));
            done.ends(script, Err(ErrorView::ThreadVersionConflict));
        } else {
            let record = |g: Seq<ReplyView>, used: int|
                record_append_steps(params, thread_id, response, g, used);
            assert forall|g: Seq<ReplyView>| #[trigger] counted.h.is_prefix_of(g) implies script(g)
                == after(
                insert_items_steps(thread_id, version, params.payload_refs, 0, g, at + 1),
                |_done: (), used: int| record(g, used),
            ) by {
                assert(self.h.is_prefix_of(g));
                assert(g[at] == counted.h[at]);
            }
            let listed = counted.inserts_items(
                script,
                record,
                thread_id,
                version,
                params.payload_refs,
                0,
            );
            let insert = StatementView::InsertAppend {
                thread_id,
                request_id: params.request_id,
                append_idempotency_key: params.append_idempotency_key,
                payload_refs_json: crate::json::texts_json(params.payload_refs),
                response,
            };
            assert(listed.h.is_prefix_of(listed.h));
            listed.asks(script, insert);
            let recorded = listed.next(insert);
            assert(listed.h.is_prefix_of(recorded.h));
            assert(listed.h.is_prefix_of(recorded.next(StatementView::Commit).h));
            recorded.commits(script, Ok(response));
        }
    }

    /// The part of a conversation that records items.
    proof fn inserts_items<T>(
        self,
        script: spec_fn(Seq<ReplyView>) -> StepView<T>,
        rest: spec_fn(Seq<ReplyView>, int) -> StepView<T>,
        thread_id: Seq<char>,
        version: u64,
        payload_refs: Seq<Seq<char>>,
        from: int,
    ) -> (later: Stage)
        requires
            0 <= from <= payload_refs.len(),
            self.fuel >= payload_refs.len() - from,
            version + payload_refs.len() <= u64::MAX,
            self.db.tables.items_of(thread_id).len() == version + from,
            forall|i: int|
                0 <= i < self.db.tables.items_of(thread_id).len() ==> (
                #[trigger] self.db.tables.items_of(thread_id)[i]).sequence == i + 1,
            self.goes_on(
                script,
                |g: Seq<ReplyView>|
                    after(
                        insert_items_steps(
                            thread_id,
                            version,
                            payload_refs,
                            from,
                            g,
                            self.h.len() as int,
                        ),
                        |_done: (), used: int| rest(g, used),
                    ),
            ),
        ensures
            later.db == (Database {
                tables: self.db.tables.with_items(thread_id, version, payload_refs, from),
                saved: self.db.saved,
            }),
            self.h.is_prefix_of(later.h),
            later.fuel == self.fuel - (payload_refs.len() - from),
            later.outcome(script) == self.outcome(script),
            later.goes_on(script, |g: Seq<ReplyView>| rest(g, later.h.len() as int)),
        decreases payload_refs.len() - from,
    {
        let at = self.h.len() as int;
        assert(self.h.is_prefix_of(self.h));
        if from >= payload_refs.len() {
            self
        } else {
            let tables = self.db.tables;
            let sequence = (version + from + 1) as u64;
            let insert = StatementView::InsertItem {
                thread_id,
                sequence,
                payload_ref: payload_refs[from],
            };
            self.asks(script, insert);
            let one = self.next(insert);
            let item = ThreadItemView { thread_id, sequence, payload_ref: payload_refs[from] };
            assert(one.db.tables.items_of(thread_id) == tables.items_of(thread_id).push(item));
            assert forall|g: Seq<ReplyView>| #[trigger] one.h.is_prefix_of(g) implies script(g)
                == after(
                insert_items_steps(thread_id, version, payload_refs, from + 1, g, at + 1),
                |_done: (), used: int| rest(g, used),
            ) by {
                assert(self.h.is_prefix_of(g));
                assert(g[at] == one.h[at]);
            }
            let later = one.inserts_items(
                script,
                rest,
                thread_id,
                version,
                payload_refs,
                from + 1,
            );
            assert(later.db.tables.items =~= tables.with_items(
                thread_id,
                version,
                payload_refs,
                from,
            ).items) by {
                assert(later.db.tables.items_of(thread_id) =~= tables.with_items(
                    thread_id,
                    version,
                    payload_refs,
                    from,
                ).items_of(thread_id));
            }
            later
        }
    }
}

/// Records an append whose items were recorded, commits and answers.
spec fn record_append_steps(
    params: LeaseAppendView,
    thread_id: Seq<char>,
    response: AppendThreadItemsWithLeaseResponse,
    h: Seq<ReplyView>,
    at: int,
) -> StepView<AppendThreadItemsWithLeaseResponse> {
    crate::mysql::statements::ask(
        h,
        at,
        StatementView::InsertAppend {
            thread_id,
            request_id: params.request_id,
            append_idempotency_key: params.append_idempotency_key,
            payload_refs_json: crate::json::texts_json(params.payload_refs),
            response,
        },
        |reply: ReplyView| reply.inserted(),
        |recorded: bool|
            if !recorded {
                crate::mysql::appends::find_duplicate_append_steps(params, thread_id, h, at + 1)
            } else {
                crate::mysql::statements::ask(
                    h,
                    at + 1,
                    StatementView::Commit,
                    |reply: ReplyView| reply.done(),
                    |_done: ()| StepView::Done(Ok(response)),
                )
            },
    )
}

} // verus!
