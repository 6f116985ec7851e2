//! What ending requests comes to on the tables of the database.
use vstd::prelude::*;

use crate::mysql::conversations::{lose_steps, Stage};
use crate::mysql::endings::{
    end_and_release_steps, end_as_asked_steps, mark_request_terminal_steps,
    mark_request_terminal_with_event_steps, needs_lease,
};
use crate::mysql::leases::{
    end_with_event_steps, expire_each_steps, expire_owner_leases_steps, release_leases_steps,
};
use crate::mysql::statements::{
    after, ask, OwnedRequestView, ReplyView, StatementView, StepView,
};
use crate::mysql::tables::{Database, Tables};
use crate::protocol::RequestStatus;
use crate::records::{ErrorView, EventAppendView, RequestView, TerminalStatusUpdate};

verus! {

impl Tables {
    /// Whether request `id` would end without the lease that this end needs.
    pub open spec fn lacks_lease(self, id: Seq<char>, status: RequestStatus, now_ms: i64) -> bool {
        &&& needs_lease(status)
        &&& self.requests[id].status == RequestStatus::Running
        &&& !self.lease_active(self.requests[id].thread_id, id, now_ms)
    }

    /// The tables with request `id` at a status.
    pub open spec fn with_status(self, id: Seq<char>, status: RequestStatus) -> Tables {
        self.with_request(id, RequestView { status, ..self.requests[id] })
    }

    /// Ending a request at a status, unless it is over, and releasing its leases. One that
    /// runs without a lease cannot complete, fail or be interrupted: its lease is lost.
    pub open spec fn mark_terminal(self, id: Seq<char>, status: RequestStatus, now_ms: i64) -> (
        Tables,
        Result<TerminalStatusUpdate, ErrorView>,
    ) {
        if !self.requests.dom().contains(id) {
            (self, Err(ErrorView::RequestNotFound))
        } else if self.requests[id].status.terminal() {
            (self, Ok(TerminalStatusUpdate::Unchanged))
        } else {
            let end = if self.lacks_lease(id, status, now_ms) {
                RequestStatus::LeaseLost
            } else {
                status
            };
            (
                self.with_status(id, end).released(self.requests[id].thread_id, id),
                Ok(TerminalStatusUpdate::Changed),
            )
        }
    }

    /// Ending a request at a status, unless it is over, with an event, and releasing its
    /// leases. One that runs without a lease cannot complete, fail or be interrupted: its
    /// lease is lost, and that is the event.
    pub open spec fn mark_terminal_with_event(
        self,
        event: EventAppendView,
        status: RequestStatus,
        now_ms: i64,
    ) -> (Tables, Result<TerminalStatusUpdate, ErrorView>) {
        let id = event.request_id;
        let thread_id = self.requests[id].thread_id;
        if !crate::json::json_valid(event.payload_inline) {
            (self, Err(ErrorView::InvalidEventPayload))
        } else if !self.requests.dom().contains(id) {
            (self, Err(ErrorView::RequestNotFound))
        } else if self.requests[id].status.terminal() {
            (self, Ok(TerminalStatusUpdate::Unchanged))
        } else if self.lacks_lease(id, status, now_ms) {
            (
                self.lost(thread_id, id, "{\"reason\":\"thread_writer_lease_lost\"}"@),
                Ok(TerminalStatusUpdate::Changed),
            )
        } else {
            (
                self.ended_with_event(
                    id,
                    status,
                    event.event_type,
                    event.payload_inline,
                ).released(thread_id, id),
                Ok(TerminalStatusUpdate::Changed),
            )
        }
    }

    /// Ending a request comes to what it should on the tables.
    pub proof fn mark_terminal_carried_out(
        self,
        id: Seq<char>,
        status: RequestStatus,
        now_ms: i64,
    )
        requires
            self.requests_named(),
        ensures
            self.carry_out(
                |h: Seq<ReplyView>| mark_request_terminal_steps(id, status, now_ms, h),
                8,
            ) == Some(self.mark_terminal(id, status, now_ms)),
    {
        let script = |h: Seq<ReplyView>| mark_request_terminal_steps(id, status, now_ms, h);
        let lock = StatementView::LockRequest { request_id: id };
        let start = Stage { db: Database::of(self), h: Seq::empty(), fuel: 8 };
        start.asks(script, StatementView::Begin);
        let begun = start.next(StatementView::Begin);
        begun.asks(script, lock);
        let found = begun.next(lock);
        if !self.requests.dom().contains(id) {
            found.ends(script, Err(ErrorView::RequestNotFound));
        } else {
            let request = self.requests[id];
            request.row_reads_back();
            if request.status.terminal() {
                found.commits(script, Ok(TerminalStatusUpdate::Unchanged));
            } else if needs_lease(status) && request.status == RequestStatus::Running {
                let check = StatementView::LockActiveLease {
                    thread_id: request.thread_id,
                    request_id: id,
                    now_ms,
                };
                found.asks(script, check);
                let checked = found.next(check);
                let end = if self.lacks_lease(id, status, now_ms) {
                    RequestStatus::LeaseLost
                } else {
                    status
                };
                assert forall|g: Seq<ReplyView>| #[trigger]
                    checked.h.is_prefix_of(g) implies script(g) == end_and_release_steps(
                    request,
                    end,
                    now_ms,
                    g,
                    3,
                ) by {
                    assert(g[0] == checked.h[0] && g[1] == checked.h[1] && g[2] == checked.h[2]);
                }
                checked.ends_and_releases(script, request, end, now_ms);
            } else {
                assert forall|g: Seq<ReplyView>| #[trigger] found.h.is_prefix_of(g) implies script(g)
                    == end_and_release_steps(request, status, now_ms, g, 2) by {
                    assert(g[0] == found.h[0] && g[1] == found.h[1]);
                }
                found.ends_and_releases(script, request, status, now_ms);
            }
        }
    }

    /// Ending a request with an event comes to what it should on the tables.
    pub proof fn mark_terminal_with_event_carried_out(
        self,
        event: EventAppendView,
        status: RequestStatus,
        now_ms: i64,
    )
        requires
            self.requests_named(),
            self.requests.dom().contains(event.request_id) ==> self.events_counted(
                event.request_id,
            ),
        ensures
            self.carry_out(
                |h: Seq<ReplyView>|
                    mark_request_terminal_with_event_steps(event, status, now_ms, h),
                10,
            ) == Some(self.mark_terminal_with_event(event, status, now_ms)),
    {
        let script = |h: Seq<ReplyView>|
            mark_request_terminal_with_event_steps(event, status, now_ms, h);
        let id = event.request_id;
        let lock = StatementView::LockRequest { request_id: id };
        let start = Stage { db: Database::of(self), h: Seq::empty(), fuel: 10 };
        if !crate::json::json_valid(event.payload_inline) {
            start.ends(script, Err(ErrorView::InvalidEventPayload));
        } else {
            start.asks(script, StatementView::Begin);
            let begun = start.next(StatementView::Begin);
            begun.asks(script, lock);
            let found = begun.next(lock);
            if !self.requests.dom().contains(id) {
                found.ends(script, Err(ErrorView::RequestNotFound));
            } else {
                let request = self.requests[id];
                request.row_reads_back();
                if request.status.terminal() {
                    found.commits(script, Ok(TerminalStatusUpdate::Unchanged));
                } else if needs_lease(status) && request.status == RequestStatus::Running {
                    let check = StatementView::LockActiveLease {
                        thread_id: request.thread_id,
                        request_id: id,
                        now_ms,
                    };
                    found.asks(script, check);
                    let checked = found.next(check);
                    if self.lacks_lease(id, status, now_ms) {
                        let payload = "{\"reason\":\"thread_writer_lease_lost\"}"@;
                        let changed = Ok::<TerminalStatusUpdate, ErrorView>(
                            TerminalStatusUpdate::Changed,
                        );
                        assert forall|g: Seq<ReplyView>| #[trigger]
                            checked.h.is_prefix_of(g) implies script(g) == lose_steps(
                            request.thread_id,
                            id,
                            RequestStatus::LeaseLost,
                            "request/lease_lost"@,
                            payload,
                            now_ms,
                            changed,
                            g,
                            3,
                        ) by {
                            assert(g[0] == checked.h[0] && g[1] == checked.h[1] && g[2]
                                == checked.h[2]);
                        }
                        checked.loses(
                            script,
                            request.thread_id,
                            id,
                            RequestStatus::LeaseLost,
                            "request/lease_lost"@,
                            payload,
                            now_ms,
                            changed,
                        );
                    } else {
                        assert forall|g: Seq<ReplyView>| #[trigger]
                            checked.h.is_prefix_of(g) implies script(g) == end_as_asked_steps(
                            event,
                            status,
                            request,
                            now_ms,
                            g,
                            3,
                        ) by {
                            assert(g[0] == checked.h[0] && g[1] == checked.h[1] && g[2]
                                == checked.h[2]);
                        }
                        checked.ends_as_asked(script, event, status, request, now_ms);
                    }
                } else {
                    assert forall|g: Seq<ReplyView>| #[trigger]
                        found.h.is_prefix_of(g) implies script(g) == end_as_asked_steps(
                        event,
                        status,
                        request,
                        now_ms,
                        g,
                        2,
                    ) by {
                        assert(g[0] == found.h[0] && g[1] == found.h[1]);
                    }
                    found.ends_as_asked(script, event, status, request, now_ms);
                }
            }
        }
    }

    /// The tables after the owners of some requests timed out, from the `from`-th one on.
    pub open spec fn owners_timed_out(self, expired: Seq<OwnedRequestView>, from: int) -> Tables
        decreases expired.len() - from,
    {
        if from >= expired.len() {
            self
        } else {
            self.owner_timed_out(
                expired[from].thread_id,
                expired[from].request_id,
                "{\"reason\":\"owner_lease_expired\"}"@,
            ).owners_timed_out(expired, from + 1)
        }
    }

    /// Every request in a list runs, and no request is in it twice.
    pub open spec fn all_running(self, expired: Seq<OwnedRequestView>, from: int) -> bool {
        &&& forall|i: int|
            from <= i < expired.len() ==> self.requests.dom().contains(
                (#[trigger] expired[i]).request_id,
            ) && self.requests[expired[i].request_id].status == RequestStatus::Running
                && self.events_counted(expired[i].request_id)
        &&& forall|i: int, j: int|
            0 <= i < expired.len() && 0 <= j < expired.len() && (
            #[trigger] expired[i]).request_id == (#[trigger] expired[j]).request_id ==> i == j
    }

    /// Expiring owner leases ends each request that runs although the lease of its owner has
    /// expired, and tells how many those were.
    pub proof fn expire_owner_leases_carried_out(
        self,
        expired: Seq<OwnedRequestView>,
        now_ms: i64,
    )
        requires
            self.execute(
                StatementView::LockExpiredOwners { now_ms },
            ).1 == ReplyView::Owners(expired),
            self.expired_owners(now_ms, expired),
            expired.len() <= usize::MAX,
            forall|i: int|
                0 <= i < expired.len() ==> self.events_counted((#[trigger] expired[i]).request_id),
        ensures
            self.carry_out(
                |h: Seq<ReplyView>| expire_owner_leases_steps(now_ms, h),
                6 * expired.len() + 3,
            ) == Some(
                (
                    self.owners_timed_out(expired, 0),
                    Ok::<usize, ErrorView>(expired.len() as usize),
                ),
            ),
    {
        let script = |h: Seq<ReplyView>| expire_owner_leases_steps(now_ms, h);
        let start = Stage {
            db: Database::of(self),
            h: Seq::empty(),
            fuel: 6 * expired.len() + 3,
        };
        let lock = StatementView::LockExpiredOwners { now_ms };
        start.asks(script, StatementView::Begin);
        let begun = start.next(StatementView::Begin);
        begun.asks(script, lock);
        let listed = begun.next(lock);
        assert forall|g: Seq<ReplyView>| #[trigger] listed.h.is_prefix_of(g) implies script(g)
            == expire_each_steps(expired, 0, 0, now_ms, g, 2) by {
            assert(g[0] == listed.h[0] && g[1] == listed.h[1]);
        }
        listed.expires_each(script, expired, 0, now_ms);
    }
}

impl Stage {
    /// The part of a conversation that ends a request and releases its leases.
    proof fn ends_and_releases(
        self,
        script: spec_fn(Seq<ReplyView>) -> StepView<TerminalStatusUpdate>,
        request: RequestView,
        status: RequestStatus,
        now_ms: i64,
    )
        requires
            self.fuel >= 5,
            self.db.tables.requests.dom().contains(request.request_id),
            self.db.tables.requests[request.request_id] == request,
            !request.status.terminal(),
            self.goes_on(
                script,
                |g: Seq<ReplyView>|
                    end_and_release_steps(request, status, now_ms, g, self.h.len() as int),
            ),
        ensures
            self.outcome(script) == Some(
                (
                    self.db.tables.with_status(request.request_id, status).released(
                        request.thread_id,
                        request.request_id,
                    ),
                    Ok::<TerminalStatusUpdate, ErrorView>(TerminalStatusUpdate::Changed),
                ),
            ),
    {
        let at = self.h.len() as int;
        let id = request.request_id;
        let end = StatementView::EndRequest { request_id: id, status, now_ms };
        let changed = Ok::<TerminalStatusUpdate, ErrorView>(TerminalStatusUpdate::Changed);
        let commit = |g: Seq<ReplyView>, used: int|
            ask(
                g,
                used,
                StatementView::Commit,
                |reply: ReplyView| reply.done(),
                |_done: ()| StepView::Done(changed),
            );
        assert(self.h.is_prefix_of(self.h));
        self.asks(script, end);
        let ended = self.next(end);
        assert forall|g: Seq<ReplyView>| #[trigger] ended.h.is_prefix_of(g) implies script(g)
            == after(
            release_leases_steps(request.thread_id, id, now_ms, g, at + 1),
            |_done: (), used: int| commit(g, used),
        ) by {
            assert(self.h.is_prefix_of(g));
            assert(g[at] == ended.h[at]);
        }
        let released = ended.releases(script, commit, request.thread_id, id, now_ms);
        assert(released.h.is_prefix_of(released.h));
        assert(released.h.is_prefix_of(released.next(StatementView::Commit).h));
        released.commits(script, changed);
    }

    /// The part of a conversation that ends a request with the given event.
    proof fn ends_as_asked(
        self,
        script: spec_fn(Seq<ReplyView>) -> StepView<TerminalStatusUpdate>,
        event: EventAppendView,
        status: RequestStatus,
        request: RequestView,
        now_ms: i64,
    )
        requires
            self.fuel >= 6,
            request.request_id == event.request_id,
            self.db.tables.requests.dom().contains(event.request_id),
            self.db.tables.requests[event.request_id] == request,
            self.db.tables.events_counted(event.request_id),
            !request.status.terminal(),
            self.goes_on(
                script,
                |g: Seq<ReplyView>|
                    end_as_asked_steps(event, status, request, now_ms, g, self.h.len() as int),
            ),
        ensures
            self.outcome(script) == Some(
                (
                    self.db.tables.ended_with_event(
                        event.request_id,
                        status,
                        event.event_type,
                        event.payload_inline,
                    ).released(request.thread_id, event.request_id),
                    Ok::<TerminalStatusUpdate, ErrorView>(TerminalStatusUpdate::Changed),
                ),
            ),
    {
        let at = self.h.len() as int;
        let tables = self.db.tables;
        let id = event.request_id;
        let end = StatementView::EndRequestWithEvent { request_id: id, status, now_ms };
        let changed = Ok::<TerminalStatusUpdate, ErrorView>(TerminalStatusUpdate::Changed);
        let sequence = (request.latest_event_cursor + 1) as u64;
        let insert = StatementView::InsertEvent {
            request_id: id,
            sequence,
            event_type: event.event_type,
            payload_inline: event.payload_inline,
            now_ms,
        };
        let record = |g: Seq<ReplyView>, used: int|
            ask(
                g,
                used,
                insert,
                |reply: ReplyView| reply.done(),
                |_done: ()|
                    ask(
                        g,
                        used + 1,
                        StatementView::Commit,
                        |reply: ReplyView| reply.done(),
                        |_done: ()| StepView::Done(changed),
                    ),
            );
        assert(self.h.is_prefix_of(self.h));
        self.asks(script, end);
        let ended = self.next(end);
        assert forall|g: Seq<ReplyView>| #[trigger] ended.h.is_prefix_of(g) implies script(g)
            == after(
            release_leases_steps(request.thread_id, id, now_ms, g, at + 1),
            |_done: (), used: int| record(g, used),
        ) by {
            assert(self.h.is_prefix_of(g));
            assert(g[at] == ended.h[at]);
        }
        let released = ended.releases(script, record, request.thread_id, id, now_ms);
        assert(released.h.is_prefix_of(released.h));
        released.asks(script, insert);
        let recorded = released.next(insert);
        assert(released.h.is_prefix_of(recorded.h));
        assert(released.db.tables.events_of(id) == tables.events_of(id));
        assert(released.h.is_prefix_of(recorded.next(StatementView::Commit).h));
        recorded.commits(script, changed);
        assert(recorded.db.tables =~= tables.ended_with_event(
            id,
            status,
            event.event_type,
            event.payload_inline,
        ).released(request.thread_id, id));
    }

    /// The part of a conversation that ends the requests whose owners have timed out.
    proof fn expires_each(
        self,
        script: spec_fn(Seq<ReplyView>) -> StepView<usize>,
        expired: Seq<OwnedRequestView>,
        from: int,
        now_ms: i64,
    )
        requires
            0 <= from <= expired.len() <= usize::MAX,
            self.fuel >= 6 * (expired.len() - from) + 1,
            self.db.tables.all_running(expired, from),
            self.goes_on(
                script,
                |g: Seq<ReplyView>|
                    expire_each_steps(
                        expired,
                        from,
                        from as usize,
                        now_ms,
                        g,
                        self.h.len() as int,
                    ),
            ),
        ensures
            self.outcome(script) == Some(
                (
                    self.db.tables.owners_timed_out(expired, from),
                    Ok::<usize, ErrorView>(expired.len() as usize),
                ),
            ),
        decreases expired.len() - from,
    {
        assert(self.h.is_prefix_of(self.h));
        if from >= expired.len() {
            assert(self.h.is_prefix_of(self.next(StatementView::Commit).h));
            self.commits(script, Ok(expired.len() as usize));
        } else {
            let id = expired[from].request_id;
            let thread_id = expired[from].thread_id;
            let tables = self.db.tables;
            let payload = "{\"reason\":\"owner_lease_expired\"}"@;
            let more = |g: Seq<ReplyView>, used: int|
                expire_each_steps(expired, from + 1, (from + 1) as usize, now_ms, g, used);
            let release = |g: Seq<ReplyView>, update: TerminalStatusUpdate, used: int|
                after(
                    release_leases_steps(thread_id, id, now_ms, g, used),
                    |_done: (), released: int|
                        expire_each_steps(
                            expired,
                            from + 1,
                            if update == TerminalStatusUpdate::Changed {
                                (from + 1) as usize
                            } else {
                                from as usize
                            },
                            now_ms,
                            g,
                            released,
                        ),
                );
            assert forall|g: Seq<ReplyView>| #[trigger] self.h.is_prefix_of(g) implies script(g)
                == after(
                end_with_event_steps(
                    id,
                    RequestStatus::OwnerTimedOut,
                    "request/owner_timed_out"@,
                    payload,
                    now_ms,
                    g,
                    self.h.len() as int,
                ),
                |update: TerminalStatusUpdate, used: int| release(g, update, used),
            ) by {}
            let ended = self.ends_request(
                script,
                release,
                id,
                RequestStatus::OwnerTimedOut,
                "request/owner_timed_out"@,
                payload,
                now_ms,
            );
            let released = ended.releases(script, more, thread_id, id, now_ms);
            let after_one = released.db.tables;
            assert(after_one == tables.owner_timed_out(thread_id, id, payload));
            assert(after_one.all_running(expired, from + 1)) by {
                assert forall|i: int| from + 1 <= i < expired.len() implies {
                    let x = (#[trigger] expired[i]).request_id;
                    &&& after_one.requests.dom().contains(x)
                    &&& after_one.requests[x].status == RequestStatus::Running
                    &&& after_one.events_counted(x)
                } by {
                    let x = expired[i].request_id;
                    assert(x != id);
                    assert(tables.events_counted(x));
                    assert(after_one.events_of(x) == tables.events_of(x));
                }
            }
            released.expires_each(script, expired, from + 1, now_ms);
        }
    }
}

} // verus!
