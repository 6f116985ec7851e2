//! How conversations with the database proceed, part by part.
use vstd::prelude::*;

use crate::mysql::leases::{end_with_event_steps, release_leases_steps};
use crate::mysql::statements::{after, ask, ReplyView, StatementView, StepView};
use crate::mysql::tables::{Database, OwnerEntry, Tables};
use crate::protocol::RequestStatus;
use crate::records::{ErrorView, EventView, RequestView, TerminalStatusUpdate};

verus! {

impl Tables {
    /// Whether the events of request `id` are numbered from one, and its cursor is at the last
    /// of them, with room for another one.
    pub open spec fn events_counted(self, id: Seq<char>) -> bool {
        let events = self.events_of(id);
        &&& self.requests[id].latest_event_cursor == events.len()
        &&& events.len() < u64::MAX
        &&& forall|i: int| 0 <= i < events.len() ==> (#[trigger] events[i]).sequence == i + 1
    }

    /// The tables after request `id` ended at a status, with an event that says so; if it was
    /// over, nothing changed.
    pub open spec fn ended_with_event(
        self,
        id: Seq<char>,
        status: RequestStatus,
        event_type: Seq<char>,
        payload_inline: Seq<char>,
    ) -> Tables {
        if self.requests.dom().contains(id) && !self.requests[id].status.terminal() {
            let sequence = (self.requests[id].latest_event_cursor + 1) as u64;
            let event = EventView {
                request_id: id,
                sequence,
                event_type,
                payload_inline: (self.given_back)(payload_inline),
            };
            Tables {
                requests: self.requests.insert(
                    id,
                    RequestView { status, latest_event_cursor: sequence, ..self.requests[id] },
                ),
                events: self.events.insert(id, self.events_of(id).push(event)),
                ..self
            }
        } else {
            self
        }
    }

    /// Whether request `id` is there and not over.
    pub open spec fn can_end(self, id: Seq<char>) -> bool {
        self.requests.dom().contains(id) && !self.requests[id].status.terminal()
    }

    /// The tables without the leases of a request on a thread.
    pub open spec fn released(self, thread_id: Seq<char>, id: Seq<char>) -> Tables {
        Tables {
            leases: if self.leases.dom().contains(thread_id)
                && self.leases[thread_id].row.request_id == id {
                self.leases.remove(thread_id)
            } else {
                self.leases
            },
            owners: if self.owners.dom().contains(id) {
                self.owners.insert(id, OwnerEntry { released: true, ..self.owners[id] })
            } else {
                self.owners
            },
            ..self
        }
    }
}

/// How far a conversation has come: the database, the answers so far, and how many more
/// statements it may put.
pub struct Stage {
    pub db: Database,
    pub h: Seq<ReplyView>,
    pub fuel: nat,
}

impl Stage {
    /// What the rest of the conversation comes to.
    pub open spec fn outcome<T>(self, script: spec_fn(Seq<ReplyView>) -> StepView<T>) -> Option<
        (Tables, Result<T, ErrorView>),
    > {
        self.db.run(script, self.h, self.fuel)
    }

    /// Whether a script goes on as `rest` from here, whatever is answered.
    pub open spec fn goes_on<T>(
        self,
        script: spec_fn(Seq<ReplyView>) -> StepView<T>,
        rest: spec_fn(Seq<ReplyView>) -> StepView<T>,
    ) -> bool {
        forall|g: Seq<ReplyView>| #[trigger] self.h.is_prefix_of(g) ==> script(g) == rest(g)
    }

    /// The stage after one statement.
    pub open spec fn next(self, statement: StatementView) -> Stage {
        let (db, reply) = self.db.execute(statement);
        Stage { db, h: self.h.push(reply), fuel: (self.fuel - 1) as nat }
    }

    /// One statement of a conversation.
    pub(crate) proof fn asks<T>(
        self,
        script: spec_fn(Seq<ReplyView>) -> StepView<T>,
        statement: StatementView,
    )
        requires
            script(self.h) == StepView::<T>::Ask(statement),
            self.fuel > 0,
        ensures
            self.outcome(script) == self.next(statement).outcome(script),
            self.h.is_prefix_of(self.next(statement).h),
            self.next(statement).h.len() == self.h.len() + 1,
    {
    }

    /// The end of a conversation.
    pub(crate) proof fn ends<T>(
        self,
        script: spec_fn(Seq<ReplyView>) -> StepView<T>,
        r: Result<T, ErrorView>,
    )
        requires
            script(self.h) == StepView::Done(r),
        ensures
            self.outcome(script) == Some((self.db.closed(), r)),
    {
    }

    /// The part of a conversation that releases leases.
    pub(crate) proof fn releases<T>(
        self,
        script: spec_fn(Seq<ReplyView>) -> StepView<T>,
        rest: spec_fn(Seq<ReplyView>, int) -> StepView<T>,
        thread_id: Seq<char>,
        id: Seq<char>,
        now_ms: i64,
    ) -> (later: Stage)
        requires
            self.fuel >= 3,
            self.goes_on(
                script,
                |g: Seq<ReplyView>|
                    after(
                        release_leases_steps(thread_id, id, now_ms, g, self.h.len() as int),
                        |_done: (), used: int| rest(g, used),
                    ),
            ),
        ensures
            later.db == (Database {
                tables: self.db.tables.released(thread_id, id),
                saved: self.db.saved,
            }),
            self.h.is_prefix_of(later.h),
            later.h.len() == self.h.len() + 3,
            later.fuel == self.fuel - 3,
            later.outcome(script) == self.outcome(script),
            later.goes_on(script, |g: Seq<ReplyView>| rest(g, later.h.len() as int)),
    {
        let at = self.h.len() as int;
        let release = StatementView::ReleaseThreadLease { thread_id, request_id: id, now_ms };
        let delete = StatementView::DeleteThreadLease { thread_id, request_id: id };
        let owner = StatementView::ReleaseOwnerLease { request_id: id, now_ms };
        assert(self.h.is_prefix_of(self.h));
        self.asks(script, release);
        let one = self.next(release);
        assert(self.h.is_prefix_of(one.h));
        one.asks(script, delete);
        let two = one.next(delete);
        assert(self.h.is_prefix_of(two.h));
        two.asks(script, owner);
        let later = two.next(owner);
        assert(later.db.tables =~= self.db.tables.released(thread_id, id)) by {
            let tables = self.db.tables;
            if tables.leases.dom().contains(thread_id) && tables.leases[thread_id].row.request_id
                == id {
                assert(later.db.tables.leases =~= tables.leases.remove(thread_id));
            }
        }
        assert forall|g: Seq<ReplyView>| #[trigger] later.h.is_prefix_of(g) implies script(g)
            == rest(g, later.h.len() as int) by {
            assert(self.h.is_prefix_of(g));
            assert(g[at] == later.h[at] && g[at + 1] == later.h[at + 1] && g[at + 2]
                == later.h[at + 2]);
        }
        later
    }

    /// The part of a conversation that ends a request with an event.
    pub(crate) proof fn ends_request<T>(
        self,
        script: spec_fn(Seq<ReplyView>) -> StepView<T>,
        rest: spec_fn(Seq<ReplyView>, TerminalStatusUpdate, int) -> StepView<T>,
        id: Seq<char>,
        status: RequestStatus,
        event_type: Seq<char>,
        payload_inline: Seq<char>,
        now_ms: i64,
    ) -> (later: Stage)
        requires
            self.fuel >= 3,
            self.db.tables.requests.dom().contains(id) ==> self.db.tables.events_counted(id),
            self.goes_on(
                script,
                |g: Seq<ReplyView>|
                    after(
                        end_with_event_steps(
                            id,
                            status,
                            event_type,
                            payload_inline,
                            now_ms,
                            g,
                            self.h.len() as int,
                        ),
                        |update: TerminalStatusUpdate, used: int| rest(g, update, used),
                    ),
            ),
        ensures
            later.db == (Database {
                tables: self.db.tables.ended_with_event(id, status, event_type, payload_inline),
                saved: self.db.saved,
            }),
            self.h.is_prefix_of(later.h),
            later.h.len() <= self.h.len() + 3,
            later.fuel >= self.fuel - 3,
            later.outcome(script) == self.outcome(script),
            later.goes_on(
                script,
                |g: Seq<ReplyView>|
                    rest(
                        g,
                        if self.db.tables.can_end(id) {
                            TerminalStatusUpdate::Changed
                        } else {
                            TerminalStatusUpdate::Unchanged
                        },
                        later.h.len() as int,
                    ),
            ),
    {
        let at = self.h.len() as int;
        let tables = self.db.tables;
        let end = StatementView::EndRequestWithEvent { request_id: id, status, now_ms };
        assert(self.h.is_prefix_of(self.h));
        self.asks(script, end);
        let one = self.next(end);
        assert(self.h.is_prefix_of(one.h));
        if tables.can_end(id) {
            let cursor = StatementView::SelectCursor { request_id: id };
            one.asks(script, cursor);
            let two = one.next(cursor);
            assert(self.h.is_prefix_of(two.h));
            let sequence = (tables.requests[id].latest_event_cursor + 1) as u64;
            let insert = StatementView::InsertEvent {
                request_id: id,
                sequence,
                event_type,
                payload_inline,
                now_ms,
            };
            two.asks(script, insert);
            let later = two.next(insert);
            assert(two.db.tables.events_of(id) == tables.events_of(id));
            assert(later.db.tables =~= tables.ended_with_event(
                id,
                status,
                event_type,
                payload_inline,
            ));
            assert forall|g: Seq<ReplyView>| #[trigger] later.h.is_prefix_of(g) implies script(g)
                == rest(g, TerminalStatusUpdate::Changed, later.h.len() as int) by {
                assert(self.h.is_prefix_of(g));
                assert(g[at] == later.h[at] && g[at + 1] == later.h[at + 1] && g[at + 2]
                    == later.h[at + 2]);
            }
            later
        } else {
            assert forall|g: Seq<ReplyView>| #[trigger] one.h.is_prefix_of(g) implies script(g)
                == rest(g, TerminalStatusUpdate::Unchanged, one.h.len() as int) by {
                assert(self.h.is_prefix_of(g));
                assert(g[at] == one.h[at]);
            }
            one
        }
    }

    /// The part of a conversation that ends a request with an event, releases its leases,
    /// commits and answers.
    pub(crate) proof fn loses<T>(
        self,
        script: spec_fn(Seq<ReplyView>) -> StepView<T>,
        thread_id: Seq<char>,
        id: Seq<char>,
        status: RequestStatus,
        event_type: Seq<char>,
        payload_inline: Seq<char>,
        now_ms: i64,
        r: Result<T, ErrorView>,
    )
        requires
            self.fuel >= 7,
            self.db.tables.requests.dom().contains(id) ==> self.db.tables.events_counted(id),
            self.goes_on(
                script,
                |g: Seq<ReplyView>|
                    lose_steps(
                        thread_id,
                        id,
                        status,
                        event_type,
                        payload_inline,
                        now_ms,
                        r,
                        g,
                        self.h.len() as int,
                    ),
            ),
        ensures
            self.outcome(script) == Some(
                (
                    self.db.tables.ended_with_event(
                        id,
                        status,
                        event_type,
                        payload_inline,
                    ).released(thread_id, id),
                    r,
                ),
            ),
    {
        let commit = |g: Seq<ReplyView>, used: int|
            ask(
                g,
                used,
                StatementView::Commit,
                |reply: ReplyView| reply.done(),
                |_done: ()| StepView::Done(r),
            );
        let release = |g: Seq<ReplyView>, update: TerminalStatusUpdate, used: int|
            after(
                release_leases_steps(thread_id, id, now_ms, g, used),
                |_done: (), released: int| commit(g, released),
            );
        let ended = self.ends_request(
            script,
            release,
            id,
            status,
            event_type,
            payload_inline,
            now_ms,
        );
        let released = ended.releases(script, commit, thread_id, id, now_ms);
        assert(released.h.is_prefix_of(released.h));
        released.asks(script, StatementView::Commit);
        let done = released.next(StatementView::Commit);
        assert(released.h.is_prefix_of(done.h));
        done.ends(script, r);
    }

    /// The part of a conversation that commits and answers.
    pub(crate) proof fn commits<T>(
        self,
        script: spec_fn(Seq<ReplyView>) -> StepView<T>,
        r: Result<T, ErrorView>,
    )
        requires
            self.fuel >= 1,
            script(self.h) == StepView::<T>::Ask(StatementView::Commit),
            script(self.next(StatementView::Commit).h) == StepView::Done(r),
        ensures
            self.outcome(script) == Some((self.db.tables, r)),
    {
        self.asks(script, StatementView::Commit);
        self.next(StatementView::Commit).ends(script, r);
    }
}

/// Ends a request with an event, releases its leases, commits and answers.
pub open spec fn lose_steps<T>(
    thread_id: Seq<char>,
    id: Seq<char>,
    status: RequestStatus,
    event_type: Seq<char>,
    payload_inline: Seq<char>,
    now_ms: i64,
    r: Result<T, ErrorView>,
    h: Seq<ReplyView>,
    at: int,
) -> StepView<T> {
    after(
        end_with_event_steps(id, status, event_type, payload_inline, now_ms, h, at),
        |_update: TerminalStatusUpdate, ended: int|
            after(
                release_leases_steps(thread_id, id, now_ms, h, ended),
                |_done: (), released: int|
                    ask(
                        h,
                        released,
                        StatementView::Commit,
                        |reply: ReplyView| reply.done(),
                        |_done: ()| StepView::Done(r),
                    ),
            ),
    )
}

} // verus!
