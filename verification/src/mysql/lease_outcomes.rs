//! What taking and renewing leases comes to on the tables of the database.
use vstd::prelude::*;

use crate::mysql::statements::{after, ReplyView, StatementView, StepView};
use crate::mysql::conversations::{lose_steps, Stage};
use crate::mysql::leases::{
    acquire_free_lease_steps, end_with_event_steps, release_leases_steps,
};
use crate::mysql::tables::{Database, LeaseEntry, OwnerEntry, Tables};
use crate::protocol::RequestStatus;
use crate::records::{ErrorView, LeaseAcquireView, RequestView, TerminalStatusUpdate};

verus! {

impl Tables {
    /// The tables after a request lost its lease: it is over, and its leases are released.
    pub open spec fn lost(
        self,
        thread_id: Seq<char>,
        id: Seq<char>,
        payload_inline: Seq<char>,
    ) -> Tables {
        self.ended_with_event(
            id,
            RequestStatus::LeaseLost,
            "request/lease_lost"@,
            payload_inline,
        ).released(thread_id, id)
    }

    /// The tables after a lease that has expired was taken from the request that held it.
    pub open spec fn expired_lease_lost(self, thread_id: Seq<char>) -> Tables {
        if self.leases.dom().contains(thread_id) {
            self.lost(
                thread_id,
                self.leases[thread_id].row.request_id,
                "{\"reason\":\"thread_writer_lease_expired\"}"@,
            )
        } else {
            self
        }
    }

    /// The tables after a queued request took the lease of its thread, and runs.
    pub open spec fn granted(
        self,
        id: Seq<char>,
        owner: Seq<char>,
        lease_id: Seq<char>,
        now_ms: i64,
    ) -> Tables {
        let request = self.requests[id];
        let row = crate::mysql::statements::LeaseRowView {
            request_id: id,
            lease_id,
            owner_instance_id: owner,
            fencing_token: (self.tokens + 1) as u64,
            expires_at_ms: (now_ms + crate::mysql::leases::THREAD_WRITER_LEASE_TTL_MS) as i64,
        };
        let owner_lease = OwnerEntry {
            turn_id: if self.owners.dom().contains(id) {
                self.owners[id].turn_id
            } else {
                request.turn_id
            },
            owner_instance_id: owner,
            expires_at_ms: (now_ms + crate::mysql::leases::OWNER_LEASE_TTL_MS) as i64,
            released: false,
        };
        Tables {
            requests: self.requests.insert(
                id,
                RequestView { status: RequestStatus::Running, ..request },
            ),
            leases: self.leases.insert(request.thread_id, LeaseEntry { row, released: false }),
            owners: self.owners.insert(id, owner_lease),
            tokens: self.tokens + 1,
            ..self
        }
    }

    /// Taking the lease of the request's thread. A lease that has not expired is in the way;
    /// one that has expired is lost to the request that held it. If the identifier is that of
    /// another lease, nothing but the fencing token is taken.
    pub open spec fn acquire(
        self,
        id: Seq<char>,
        owner: Seq<char>,
        lease_id: Seq<char>,
        now_ms: i64,
    ) -> (Tables, Result<LeaseAcquireView, ErrorView>) {
        let thread_id = self.requests[id].thread_id;
        if !self.requests.dom().contains(id) {
            (self, Err(ErrorView::RequestNotFound))
        } else if self.leases.dom().contains(thread_id) && self.leases[thread_id].row.expires_at_ms
            > now_ms {
            (self, Ok(LeaseAcquireView::Queued))
        } else {
            let freed = self.expired_lease_lost(thread_id);
            if freed.requests[id].status != RequestStatus::Queued {
                (freed, Err(ErrorView::RequestNotQueued))
            } else if freed.lease_id_used(lease_id) {
                (self.token_drawn(), Ok(LeaseAcquireView::Queued))
            } else {
                (
                    freed.granted(id, owner, lease_id, now_ms),
                    Ok(
                        LeaseAcquireView::Acquired {
                            lease_id,
                            fencing_token: (self.tokens + 1) as u64,
                        },
                    ),
                )
            }
        }
    }

    /// An identifier that no lease has is not that of a lease after one was lost.
    pub proof fn unused_lease_id_stays_unused(self, thread_id: Seq<char>, lease_id: Seq<char>)
        requires
            !self.lease_id_used(lease_id),
        ensures
            !self.expired_lease_lost(thread_id).lease_id_used(lease_id),
    {
        let freed = self.expired_lease_lost(thread_id);
        if freed.lease_id_used(lease_id) {
            let t = choose|t: Seq<char>| freed.lease_named(t, lease_id);
            assert(self.lease_named(t, lease_id));
        }
    }

    /// Taking a lease comes to what it should on the tables.
    pub proof fn acquire_carried_out(
        self,
        id: Seq<char>,
        owner: Seq<char>,
        lease_id: Seq<char>,
        now_ms: i64,
    )
        requires
            self.requests_named(),
            forall|x: Seq<char>| #[trigger]
                self.requests.dom().contains(x) ==> self.events_counted(x),
        ensures
            self.carry_out(
                |h: Seq<ReplyView>|
                    crate::mysql::leases::acquire_thread_writer_lease_steps(
                        id,
                        owner,
                        lease_id,
                        now_ms,
                        h,
                    ),
                16,
            ) == Some(self.acquire(id, owner, lease_id, now_ms)),
    {
        let script = |h: Seq<ReplyView>|
            crate::mysql::leases::acquire_thread_writer_lease_steps(id, owner, lease_id, now_ms, h);
        let lock = StatementView::LockRequest { request_id: id };
        let start = Stage { db: Database::of(self), h: Seq::empty(), fuel: 16 };
        start.asks(script, StatementView::Begin);
        let begun = start.next(StatementView::Begin);
        begun.asks(script, lock);
        let found = begun.next(lock);
        if !self.requests.dom().contains(id) {
            found.ends(script, Err(ErrorView::RequestNotFound));
        } else {
            let thread_id = self.requests[id].thread_id;
            let read = StatementView::LockThreadLease { thread_id };
            self.requests[id].row_reads_back();
            found.asks(script, read);
            let stage = found.next(read);
            if !self.leases.dom().contains(thread_id) {
                assert forall|g: Seq<ReplyView>| #[trigger] stage.h.is_prefix_of(g) implies script(g)
                    == crate::mysql::leases::acquire_free_lease_steps(
                    id,
                    owner,
                    lease_id,
                    now_ms,
                    g,
                    3,
                ) by {
                    assert(g[0] == stage.h[0] && g[1] == stage.h[1] && g[2] == stage.h[2]);
                }
                stage.acquires_free(script, self, id, owner, lease_id, now_ms);
            } else if self.leases[thread_id].row.expires_at_ms > now_ms {
                stage.asks(script, StatementView::Commit);
                stage.next(StatementView::Commit).ends(script, Ok(LeaseAcquireView::Queued));
            } else {
                let holder = self.leases[thread_id].row.request_id;
                assert forall|g: Seq<ReplyView>| #[trigger] stage.h.is_prefix_of(g) implies script(g)
                    == acquire_expired_steps(
                    thread_id,
                    holder,
                    id,
                    owner,
                    lease_id,
                    now_ms,
                    g,
                    3,
                ) by {
                    assert(g[0] == stage.h[0] && g[1] == stage.h[1] && g[2] == stage.h[2]);
                }
                stage.acquires_expired(script, holder, id, owner, lease_id, now_ms);
            }
        }
    }

    /// The tables with the writer lease of a thread renewed.
    pub open spec fn lease_renewed(self, thread_id: Seq<char>, now_ms: i64) -> Tables {
        let lease = self.leases[thread_id];
        let row = crate::mysql::statements::LeaseRowView {
            expires_at_ms: (now_ms + crate::mysql::leases::THREAD_WRITER_LEASE_TTL_MS) as i64,
            ..lease.row
        };
        Tables { leases: self.leases.insert(thread_id, LeaseEntry { row, ..lease }), ..self }
    }

    /// The tables with the owner lease of a request renewed.
    pub open spec fn owner_renewed(self, id: Seq<char>, now_ms: i64) -> Tables {
        let owner = OwnerEntry {
            expires_at_ms: (now_ms + crate::mysql::leases::OWNER_LEASE_TTL_MS) as i64,
            ..self.owners[id]
        };
        Tables { owners: self.owners.insert(id, owner), ..self }
    }

    /// The tables after the owner of a request timed out: the request is over, and its leases
    /// are released.
    pub open spec fn owner_timed_out(
        self,
        thread_id: Seq<char>,
        id: Seq<char>,
        payload_inline: Seq<char>,
    ) -> Tables {
        self.ended_with_event(
            id,
            RequestStatus::OwnerTimedOut,
            "request/owner_timed_out"@,
            payload_inline,
        ).released(thread_id, id)
    }

    /// Renewing the leases of a request for an owner. Both leases must be of this owner, and
    /// neither released nor expired; else the request is over.
    pub open spec fn renew(self, id: Seq<char>, owner: Seq<char>, now_ms: i64) -> (
        Tables,
        Result<bool, ErrorView>,
    ) {
        let thread_id = self.requests[id].thread_id;
        if !self.requests.dom().contains(id) {
            (self, Err(ErrorView::RequestNotFound))
        } else if self.requests[id].status.terminal() {
            (self, Ok(false))
        } else if !self.lease_active(thread_id, id, now_ms)
            || self.leases[thread_id].row.owner_instance_id != owner {
            (
                self.lost(thread_id, id, "{\"reason\":\"thread_writer_lease_lost\"}"@),
                Ok(false),
            )
        } else if !self.owner_active(id, owner, now_ms) {
            (
                self.lease_renewed(thread_id, now_ms).owner_timed_out(
                    thread_id,
                    id,
                    "{\"reason\":\"owner_lease_lost\"}"@,
                ),
                Ok(false),
            )
        } else {
            (self.lease_renewed(thread_id, now_ms).owner_renewed(id, now_ms), Ok(true))
        }
    }

    /// Renewing leases comes to what it should on the tables.
    pub proof fn renew_carried_out(self, id: Seq<char>, owner: Seq<char>, now_ms: i64)
        requires
            self.requests_named(),
            self.requests.dom().contains(id) ==> self.events_counted(id),
        ensures
            self.carry_out(
                |h: Seq<ReplyView>|
                    crate::mysql::leases::renew_request_leases_steps(id, owner, now_ms, h),
                11,
            ) == Some(self.renew(id, owner, now_ms)),
    {
        let script = |h: Seq<ReplyView>|
            crate::mysql::leases::renew_request_leases_steps(id, owner, now_ms, h);
        let lock = StatementView::LockRequest { request_id: id };
        let start = Stage { db: Database::of(self), h: Seq::empty(), fuel: 11 };
        start.asks(script, StatementView::Begin);
        let begun = start.next(StatementView::Begin);
        begun.asks(script, lock);
        let found = begun.next(lock);
        if !self.requests.dom().contains(id) {
            found.ends(script, Err(ErrorView::RequestNotFound));
        } else {
            let request = self.requests[id];
            let thread_id = request.thread_id;
            request.row_reads_back();
            if request.status.terminal() {
                found.commits(script, Ok(false));
            } else {
                let renew = StatementView::RenewThreadLease {
                    thread_id,
                    request_id: id,
                    owner_instance_id: owner,
                    now_ms,
                    expires_at_ms: (now_ms
                        + crate::mysql::leases::THREAD_WRITER_LEASE_TTL_MS) as i64,
                };
                found.asks(script, renew);
                let stage = found.next(renew);
                if !self.lease_active(thread_id, id, now_ms)
                    || self.leases[thread_id].row.owner_instance_id != owner {
                    let payload = "{\"reason\":\"thread_writer_lease_lost\"}"@;
                    assert forall|g: Seq<ReplyView>| #[trigger] stage.h.is_prefix_of(g) implies script(
                        g,
                    ) == lose_steps(
                        thread_id,
                        id,
                        RequestStatus::LeaseLost,
                        "request/lease_lost"@,
                        payload,
                        now_ms,
                        Ok::<bool, ErrorView>(false),
                        g,
                        3,
                    ) by {
                        assert(g[0] == stage.h[0] && g[1] == stage.h[1] && g[2] == stage.h[2]);
                    }
                    stage.loses(
                        script,
                        thread_id,
                        id,
                        RequestStatus::LeaseLost,
                        "request/lease_lost"@,
                        payload,
                        now_ms,
                        Ok(false),
                    );
                } else {
                    let own = StatementView::RenewOwnerLease {
                        request_id: id,
                        owner_instance_id: owner,
                        now_ms,
                        expires_at_ms: (now_ms + crate::mysql::leases::OWNER_LEASE_TTL_MS) as i64,
                    };
                    stage.asks(script, own);
                    let owned = stage.next(own);
                    assert(stage.db.tables == self.lease_renewed(thread_id, now_ms));
                    if !self.owner_active(id, owner, now_ms) {
                        let payload = "{\"reason\":\"owner_lease_lost\"}"@;
                        assert(owned.db.tables.events_of(id) == self.events_of(id));
                        assert forall|g: Seq<ReplyView>| #[trigger]
                            owned.h.is_prefix_of(g) implies script(g) == lose_steps(
                            thread_id,
                            id,
                            RequestStatus::OwnerTimedOut,
                            "request/owner_timed_out"@,
                            payload,
                            now_ms,
                            Ok::<bool, ErrorView>(false),
                            g,
                            4,
                        ) by {
                            assert(g[0] == owned.h[0] && g[1] == owned.h[1] && g[2] == owned.h[2]
                                && g[3] == owned.h[3]);
                        }
                        owned.loses(
                            script,
                            thread_id,
                            id,
                            RequestStatus::OwnerTimedOut,
                            "request/owner_timed_out"@,
                            payload,
                            now_ms,
                            Ok(false),
                        );
                    } else {
                        owned.commits(script, Ok(true));
                    }
                }
            }
        }
    }
}

/// The part of a conversation that takes a lease from a request that let it expire.
spec fn acquire_expired_steps(
    thread_id: Seq<char>,
    holder: Seq<char>,
    id: Seq<char>,
    owner: Seq<char>,
    lease_id: Seq<char>,
    now_ms: i64,
    h: Seq<ReplyView>,
    at: int,
) -> StepView<LeaseAcquireView> {
    after(
        end_with_event_steps(
            holder,
            RequestStatus::LeaseLost,
            "request/lease_lost"@,
            "{\"reason\":\"thread_writer_lease_expired\"}"@,
            now_ms,
            h,
            at,
        ),
        |_update: TerminalStatusUpdate, ended: int|
            after(
                release_leases_steps(thread_id, holder, now_ms, h, ended),
                |_done: (), released: int|
                    acquire_free_lease_steps(id, owner, lease_id, now_ms, h, released),
            ),
    )
}

impl Stage {
    /// The part of a conversation that takes a lease from a request that let it expire.
    proof fn acquires_expired(
        self,
        script: spec_fn(Seq<ReplyView>) -> StepView<LeaseAcquireView>,
        holder: Seq<char>,
        id: Seq<char>,
        owner: Seq<char>,
        lease_id: Seq<char>,
        now_ms: i64,
    )
        requires
            self.fuel >= 13,
            self.db.tables.requests.dom().contains(id),
            self.db.tables.requests[id].request_id == id,
            self.db.tables.leases.dom().contains(self.db.tables.requests[id].thread_id),
            self.db.tables.leases[self.db.tables.requests[id].thread_id].row.request_id == holder,
            self.db.tables.requests.dom().contains(holder) ==> self.db.tables.events_counted(
                holder,
            ),
            self.db.saved == Some(self.db.tables),
            self.goes_on(
                script,
                |g: Seq<ReplyView>|
                    acquire_expired_steps(
                        self.db.tables.requests[id].thread_id,
                        holder,
                        id,
                        owner,
                        lease_id,
                        now_ms,
                        g,
                        self.h.len() as int,
                    ),
            ),
        ensures
            ({
                let freed = self.db.tables.expired_lease_lost(
                    self.db.tables.requests[id].thread_id,
                );
                self.outcome(script) == Some(
                    if freed.requests[id].status != RequestStatus::Queued {
                        (freed, Err::<LeaseAcquireView, ErrorView>(ErrorView::RequestNotQueued))
                    } else if freed.lease_id_used(lease_id) {
                        (
                            self.db.tables.token_drawn(),
                            Ok::<LeaseAcquireView, ErrorView>(LeaseAcquireView::Queued),
                        )
                    } else {
                        (
                            freed.granted(id, owner, lease_id, now_ms),
                            Ok::<LeaseAcquireView, ErrorView>(
                                LeaseAcquireView::Acquired {
                                    lease_id,
                                    fencing_token: (self.db.tables.tokens + 1) as u64,
                                },
                            ),
                        )
                    },
                )
            }),
    {
        let thread_id = self.db.tables.requests[id].thread_id;
        let free = |g: Seq<ReplyView>, used: int|
            acquire_free_lease_steps(id, owner, lease_id, now_ms, g, used);
        let release = |g: Seq<ReplyView>, update: TerminalStatusUpdate, used: int|
            after(
                release_leases_steps(thread_id, holder, now_ms, g, used),
                |_done: (), released: int| free(g, released),
            );
        let ended = self.ends_request(
            script,
            release,
            holder,
            RequestStatus::LeaseLost,
            "request/lease_lost"@,
            "{\"reason\":\"thread_writer_lease_expired\"}"@,
            now_ms,
        );
        let freed = ended.releases(script, free, thread_id, holder, now_ms);
        freed.acquires_free(script, self.db.tables, id, owner, lease_id, now_ms);
    }

    /// The part of a conversation that takes a lease on a thread that has none.
    proof fn acquires_free(
        self,
        script: spec_fn(Seq<ReplyView>) -> StepView<LeaseAcquireView>,
        saved: Tables,
        id: Seq<char>,
        owner: Seq<char>,
        lease_id: Seq<char>,
        now_ms: i64,
    )
        requires
            self.fuel >= 7,
            self.goes_on(
                script,
                |g: Seq<ReplyView>|
                    crate::mysql::leases::acquire_free_lease_steps(
                        id,
                        owner,
                        lease_id,
                        now_ms,
                        g,
                        self.h.len() as int,
                    ),
            ),
            self.db.tables.requests.dom().contains(id),
            self.db.tables.requests[id].request_id == id,
            !self.db.tables.leases.dom().contains(self.db.tables.requests[id].thread_id),
            self.db.saved == Some(saved),
            self.db.tables.tokens == saved.tokens,
        ensures
            self.outcome(script) == Some(
                if self.db.tables.requests[id].status != RequestStatus::Queued {
                    (
                        self.db.tables,
                        Err::<LeaseAcquireView, ErrorView>(ErrorView::RequestNotQueued),
                    )
                } else if self.db.tables.lease_id_used(lease_id) {
                    (
                        saved.token_drawn(),
                        Ok::<LeaseAcquireView, ErrorView>(LeaseAcquireView::Queued),
                    )
                } else {
                    (
                        self.db.tables.granted(id, owner, lease_id, now_ms),
                        Ok::<LeaseAcquireView, ErrorView>(
                            LeaseAcquireView::Acquired {
                                lease_id,
                                fencing_token: (self.db.tables.tokens + 1) as u64,
                            },
                        ),
                    )
                },
            ),
    {
        let at = self.h.len() as int;
        let tables = self.db.tables;
        let request = tables.requests[id];
        request.row_reads_back();
        let lock = StatementView::LockRequest { request_id: id };
        assert(self.h.is_prefix_of(self.h));
        self.asks(script, lock);
        let found = self.next(lock);
        assert(self.h.is_prefix_of(found.h));
        if request.status != RequestStatus::Queued {
            found.asks(script, StatementView::Commit);
            let done = found.next(StatementView::Commit);
            assert(self.h.is_prefix_of(done.h));
            done.ends(script, Err(ErrorView::RequestNotQueued));
        } else {
            let draw = StatementView::InsertFencingToken { request_id: id, now_ms };
            found.asks(script, draw);
            let drawn = found.next(draw);
            assert(self.h.is_prefix_of(drawn.h));
            drawn.asks(script, StatementView::SelectFencingToken);
            let numbered = drawn.next(StatementView::SelectFencingToken);
            assert(self.h.is_prefix_of(numbered.h));
            let token = (tables.tokens + 1) as u64;
            let insert = StatementView::InsertThreadLease {
                thread_id: request.thread_id,
                request_id: id,
                lease_id,
                owner_instance_id: owner,
                fencing_token: token,
                now_ms,
                expires_at_ms: (now_ms + crate::mysql::leases::THREAD_WRITER_LEASE_TTL_MS) as i64,
            };
            numbered.asks(script, insert);
            let inserted = numbered.next(insert);
            assert(self.h.is_prefix_of(inserted.h));
            assert(numbered.db.tables.lease_id_used(lease_id) == tables.lease_id_used(lease_id)) by {
                assert forall|t: Seq<char>|
                    numbered.db.tables.lease_named(t, lease_id) == tables.lease_named(
                        t,
                        lease_id,
                    ) by {}
                if numbered.db.tables.lease_id_used(lease_id) {
                    let t = choose|t: Seq<char>| numbered.db.tables.lease_named(t, lease_id);
                    assert(tables.lease_named(t, lease_id));
                }
                if tables.lease_id_used(lease_id) {
                    let t = choose|t: Seq<char>| tables.lease_named(t, lease_id);
                    assert(numbered.db.tables.lease_named(t, lease_id));
                }
            }
            if tables.lease_id_used(lease_id) {
                inserted.asks(script, StatementView::Rollback);
                let undone = inserted.next(StatementView::Rollback);
                assert(self.h.is_prefix_of(undone.h));
                undone.ends(script, Ok(LeaseAcquireView::Queued));
            } else {
                let own = StatementView::UpsertOwnerLease {
                    request_id: id,
                    turn_id: request.turn_id,
                    owner_instance_id: owner,
                    now_ms,
                    expires_at_ms: (now_ms + crate::mysql::leases::OWNER_LEASE_TTL_MS) as i64,
                };
                inserted.asks(script, own);
                let owned = inserted.next(own);
                assert(self.h.is_prefix_of(owned.h));
                let start = StatementView::SetStatus { request_id: id, status: RequestStatus::Running };
                owned.asks(script, start);
                let started = owned.next(start);
                assert(self.h.is_prefix_of(started.h));
                started.asks(script, StatementView::Commit);
                let done = started.next(StatementView::Commit);
                assert(self.h.is_prefix_of(done.h));
                done.ends(
                    script,
                    Ok(LeaseAcquireView::Acquired { lease_id, fencing_token: token }),
                );
                assert(done.db.tables =~= tables.granted(id, owner, lease_id, now_ms));
            }
        }
    }
}

} // verus!
