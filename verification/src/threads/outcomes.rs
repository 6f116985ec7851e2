//! What the operations of a store of threads come to.
use vstd::prelude::*;

use crate::threads::errors::{no_writer_lease, ThreadErrorView};
use crate::threads::operations::{
    append_checked_steps, append_items_steps, archive_thread_steps, create_thread_steps,
    ensure_thread_exists_steps, insert_items_after_steps, insert_rollout_items_steps,
    load_history_steps, number_or_zero, read_thread_steps, replace_rollout_items_steps,
    resume_thread_steps, shown_row, unarchive_thread_steps, update_thread_metadata_steps,
};
use crate::threads::records::{StoredHistoryView, StoredThreadView};
use crate::threads::statements::{
    thread_after, ThreadReplyView, ThreadStatementView, ThreadStepView,
};
use crate::threads::tables::{ItemEntry, Surroundings, ThreadDatabase, ThreadEntry, ThreadTables};
use crate::threads::turn_ids::{one_turn, turns_of};

verus! {

/// How far a conversation has come: what surrounds it, the database, the answers so far, and
/// how many more statements it may put.
pub struct ThreadStage {
    pub around: Surroundings,
    pub db: ThreadDatabase,
    pub h: Seq<ThreadReplyView>,
    pub fuel: nat,
}

impl ThreadStage {
    /// What the rest of the conversation comes to.
    pub open spec fn outcome<T>(
        self,
        script: spec_fn(Seq<ThreadReplyView>) -> ThreadStepView<T>,
    ) -> Option<(ThreadTables, Result<T, ThreadErrorView>)> {
        self.db.run(self.around, script, self.h, self.fuel)
    }

    /// Whether a script goes on as `rest` from here, whatever is answered.
    pub open spec fn goes_on<T>(
        self,
        script: spec_fn(Seq<ThreadReplyView>) -> ThreadStepView<T>,
        rest: spec_fn(Seq<ThreadReplyView>) -> ThreadStepView<T>,
    ) -> bool {
        forall|g: Seq<ThreadReplyView>| #[trigger] self.h.is_prefix_of(g) ==> script(g) == rest(g)
    }

    /// The stage after one statement.
    pub open spec fn next(self, statement: ThreadStatementView) -> ThreadStage {
        let (db, reply) = self.db.execute(self.around, statement, self.h.len());
        ThreadStage {
            around: self.around,
            db,
            h: self.h.push(reply),
            fuel: (self.fuel - 1) as nat,
        }
    }

    /// One statement of a conversation.
    pub proof fn asks<T>(
        self,
        script: spec_fn(Seq<ThreadReplyView>) -> ThreadStepView<T>,
        statement: ThreadStatementView,
    )
        requires
            script(self.h) == ThreadStepView::<T>::Ask(statement),
            self.fuel > 0,
        ensures
            self.outcome(script) == self.next(statement).outcome(script),
            self.h.is_prefix_of(self.next(statement).h),
            self.next(statement).h.len() == self.h.len() + 1,
    {
    }

    /// The end of a conversation.
    pub proof fn ends<T>(
        self,
        script: spec_fn(Seq<ThreadReplyView>) -> ThreadStepView<T>,
        r: Result<T, ThreadErrorView>,
    )
        requires
            script(self.h) == ThreadStepView::Done(r),
        ensures
            self.outcome(script) == Some((self.db.closed(), r)),
    {
    }
}

impl ThreadTables {
    /// The tables with items recorded after those that a thread has, in order, under the
    /// numbers that follow.
    pub open spec fn appended(self, thread_id: Seq<char>, items: Seq<Seq<char>>) -> ThreadTables {
        if items.len() == 0 {
            self
        } else {
            let base = number_or_zero(self.last(thread_id));
            self.with_items(
                thread_id,
                self.items_of(thread_id) + numbered_items(base, items),
            )
        }
    }

    /// Whether the numbers leave room for `more` items of a thread.
    pub open spec fn room_for(self, thread_id: Seq<char>, more: nat) -> bool {
        number_or_zero(self.last(thread_id)) + more <= u64::MAX
    }
}

/// Items under the numbers that follow `base`.
pub open spec fn numbered_items(base: u64, items: Seq<Seq<char>>) -> Seq<ItemEntry> {
    Seq::new(
        items.len(),
        |i: int| ItemEntry { sequence: (base + i + 1) as u64, item_json: items[i] },
    )
}

impl ThreadStage {
    /// The part of a conversation that records the items from the `from`-th one on.
    proof fn inserts_from<T>(
        self,
        script: spec_fn(Seq<ThreadReplyView>) -> ThreadStepView<T>,
        rest: spec_fn(Seq<ThreadReplyView>, int) -> ThreadStepView<T>,
        thread_id: Seq<char>,
        base: u64,
        items: Seq<Seq<char>>,
        from: int,
        now_ms: i64,
    ) -> (later: ThreadStage)
        requires
            0 <= from <= items.len(),
            self.fuel >= items.len() - from,
            base + items.len() <= u64::MAX,
            number_or_zero(self.db.tables.last(thread_id)) == base + from,
            self.goes_on(
                script,
                |g: Seq<ThreadReplyView>|
                    thread_after(
                        insert_items_after_steps(
                            thread_id,
                            base,
                            items,
                            from,
                            now_ms,
                            g,
                            self.h.len() as int,
                        ),
                        |_done: (), used: int| rest(g, used),
                    ),
            ),
        ensures
            later.around == self.around,
            later.db == (ThreadDatabase {
                tables: if from < items.len() {
                    self.db.tables.with_items(
                        thread_id,
                        self.db.tables.items_of(thread_id) + numbered_items(base, items).skip(from),
                    )
                } else {
                    self.db.tables
                },
                saved: self.db.saved,
            }),
            self.h.is_prefix_of(later.h),
            later.h.len() == self.h.len() + items.len() - from,
            later.fuel == self.fuel - (items.len() - from),
            later.outcome(script) == self.outcome(script),
            later.goes_on(script, |g: Seq<ThreadReplyView>| rest(g, later.h.len() as int)),
        decreases items.len() - from,
    {
        let at = self.h.len() as int;
        if from >= items.len() {
            assert(self.h.is_prefix_of(self.h));
            self
        } else {
            let insert = ThreadStatementView::InsertItem {
                thread_id,
                sequence: (base + from + 1) as u64,
                item_json: items[from],
                now_ms,
            };
            assert(self.h.is_prefix_of(self.h));
            self.asks(script, insert);
            let one = self.next(insert);
            let entry = ItemEntry { sequence: (base + from + 1) as u64, item_json: items[from] };
            let before = self.db.tables.items_of(thread_id);
            assert(one.db.tables.items_of(thread_id) == before.push(entry));
            assert forall|g: Seq<ThreadReplyView>| #[trigger] one.h.is_prefix_of(g) implies script(g)
                == thread_after(
                insert_items_after_steps(
                    thread_id,
                    base,
                    items,
                    from + 1,
                    now_ms,
                    g,
                    one.h.len() as int,
                ),
                |_done: (), used: int| rest(g, used),
            ) by {
                assert(self.h.is_prefix_of(g));
                assert(g[at] == one.h[at]);
            }
            let later = one.inserts_from(script, rest, thread_id, base, items, from + 1, now_ms);
            let all = numbered_items(base, items);
            assert(all[from] == entry);
            if from + 1 < items.len() {
                assert(before.push(entry) + all.skip(from + 1) =~= before + all.skip(from));
                assert(later.db.tables.items =~= self.db.tables.with_items(
                    thread_id,
                    before + all.skip(from),
                ).items);
            } else {
                assert(before.push(entry) =~= before + all.skip(from));
            }
            assert(self.h.is_prefix_of(later.h));
            later
        }
    }

    /// The part of a conversation that records items after those that the thread has.
    proof fn inserts<T>(
        self,
        script: spec_fn(Seq<ThreadReplyView>) -> ThreadStepView<T>,
        rest: spec_fn(Seq<ThreadReplyView>, int) -> ThreadStepView<T>,
        thread_id: Seq<char>,
        items: Seq<Seq<char>>,
    ) -> (later: ThreadStage)
        requires
            self.fuel >= items.len() + 2,
            self.db.tables.room_for(thread_id, items.len()),
            self.goes_on(
                script,
                |g: Seq<ThreadReplyView>|
                    thread_after(
                        insert_rollout_items_steps(thread_id, items, g, self.h.len() as int),
                        |_done: (), used: int| rest(g, used),
                    ),
            ),
        ensures
            later.around == self.around,
            later.db == (ThreadDatabase {
                tables: self.db.tables.appended(thread_id, items),
                saved: self.db.saved,
            }),
            self.h.is_prefix_of(later.h),
            later.h.len() == self.h.len() + if items.len() == 0 {
                0
            } else {
                items.len() + 2
            },
            later.fuel == self.fuel - if items.len() == 0 {
                0
            } else {
                items.len() + 2
            },
            later.outcome(script) == self.outcome(script),
            later.goes_on(script, |g: Seq<ThreadReplyView>| rest(g, later.h.len() as int)),
    {
        let at = self.h.len() as int;
        assert(self.h.is_prefix_of(self.h));
        if items.len() == 0 {
            self
        } else {
            let select = ThreadStatementView::SelectLastItem { thread_id };
            let clock = ThreadStatementView::ReadClock;
            let base = number_or_zero(self.db.tables.last(thread_id));
            self.asks(script, select);
            let one = self.next(select);
            one.asks(script, clock);
            let two = one.next(clock);
            let now_ms = (self.around.clock)((at + 1) as nat);
            assert forall|g: Seq<ThreadReplyView>| #[trigger] two.h.is_prefix_of(g) implies script(g)
                == thread_after(
                insert_items_after_steps(
                    thread_id,
                    base,
                    items,
                    0,
                    now_ms,
                    g,
                    two.h.len() as int,
                ),
                |_done: (), used: int| rest(g, used),
            ) by {
                assert(self.h.is_prefix_of(g));
                assert(g[at] == two.h[at] && g[at + 1] == two.h[at + 1]);
            }
            let later = two.inserts_from(script, rest, thread_id, base, items, 0, now_ms);
            let all = numbered_items(base, items);
            assert(all.skip(0) =~= all);
            assert(self.h.is_prefix_of(later.h));
            later
        }
    }
}

impl ThreadTables {
    /// What asking for a thread comes to.
    pub open spec fn create(
        self,
        around: Surroundings,
        thread_id: Seq<char>,
        create_params_json: Seq<char>,
        session_meta_json: Seq<char>,
    ) -> ThreadTables {
        self.upserted(thread_id, create_params_json, (around.clock)(2)).appended(
            thread_id,
            seq![session_meta_json],
        )
    }

    /// Creating a thread records it, and its first item.
    pub proof fn create_carried_out(
        self,
        around: Surroundings,
        thread_id: Seq<char>,
        create_params_json: Seq<char>,
        session_meta_json: Seq<char>,
    )
        requires
            self.room_for(thread_id, 1),
        ensures
            self.carry_out(
                around,
                |h: Seq<ThreadReplyView>|
                    create_thread_steps(thread_id, create_params_json, session_meta_json, h),
                8,
            ) == Some(
                (
                    self.create(around, thread_id, create_params_json, session_meta_json),
                    Ok::<(), ThreadErrorView>(()),
                ),
            ),
    {
        let script = |h: Seq<ThreadReplyView>|
            create_thread_steps(thread_id, create_params_json, session_meta_json, h);
        let start = ThreadStage {
            around,
            db: ThreadDatabase::of(self),
            h: Seq::empty(),
            fuel: 8,
        };
        let schema = ThreadStatementView::CreateSchema;
        start.asks(script, schema);
        let one = start.next(schema);
        let begin = ThreadStatementView::Begin;
        one.asks(script, begin);
        let two = one.next(begin);
        let clock = ThreadStatementView::ReadClock;
        two.asks(script, clock);
        let three = two.next(clock);
        let now_ms = (around.clock)(2);
        let upsert = ThreadStatementView::UpsertThread { thread_id, create_params_json, now_ms };
        three.asks(script, upsert);
        let four = three.next(upsert);
        let rest = |g: Seq<ThreadReplyView>, used: int|
            commit_then_done(g, used);
        assert forall|g: Seq<ThreadReplyView>| #[trigger] four.h.is_prefix_of(g) implies script(g)
            == thread_after(
            insert_rollout_items_steps(thread_id, seq![session_meta_json], g, 4),
            |_done: (), used: int| rest(g, used),
        ) by {
            assert(g[0] == four.h[0] && g[1] == four.h[1] && g[2] == four.h[2] && g[3]
                == four.h[3]);
        }
        let five = four.inserts(script, rest, thread_id, seq![session_meta_json]);
        five.commits(script);
    }

    /// What appending items to a thread comes to.
    pub open spec fn append(
        self,
        around: Surroundings,
        thread_id: Seq<char>,
        items: Seq<Seq<char>>,
    ) -> (ThreadTables, Result<(), ThreadErrorView>) {
        if !self.has(thread_id) {
            (self, Err(ThreadErrorView::ThreadNotFound { thread_id }))
        } else {
            match one_turn(turns_of(items)) {
                Err(error) => (self, Err(error)),
                Ok(Some(turn_id)) => if (around.active)(thread_id, turn_id, (around.clock)(3)) {
                    (self.extended(around, thread_id, items, 5), Ok(()))
                } else {
                    (self, Err(no_writer_lease(thread_id, turn_id)))
                },
                Ok(None) => (self.extended(around, thread_id, items, 3), Ok(())),
            }
        }
    }

    /// The tables after items were recorded for a thread that is there, from the `at`-th
    /// statement on.
    pub open spec fn extended(
        self,
        around: Surroundings,
        thread_id: Seq<char>,
        items: Seq<Seq<char>>,
        at: nat,
    ) -> ThreadTables {
        let asked = if items.len() == 0 {
            0
        } else {
            items.len() + 2
        };
        self.appended(thread_id, items).touched(thread_id, (around.clock)(at + asked))
    }

    /// Appending items to a thread comes to what [`ThreadTables::append`] says.
    pub proof fn append_carried_out(
        self,
        around: Surroundings,
        thread_id: Seq<char>,
        items: Seq<Seq<char>>,
    )
        requires
            self.room_for(thread_id, items.len()),
        ensures
            self.carry_out(
                around,
                |h: Seq<ThreadReplyView>| append_items_steps(thread_id, items, h),
                items.len() + 10,
            ) == Some(self.append(around, thread_id, items)),
    {
        let script = |h: Seq<ThreadReplyView>| append_items_steps(thread_id, items, h);
        let start = ThreadStage {
            around,
            db: ThreadDatabase::of(self),
            h: Seq::empty(),
            fuel: items.len() + 10,
        };
        let schema = ThreadStatementView::CreateSchema;
        start.asks(script, schema);
        let one = start.next(schema);
        let begin = ThreadStatementView::Begin;
        one.asks(script, begin);
        let two = one.next(begin);
        let exists = ThreadStatementView::SelectThreadExists { thread_id };
        two.asks(script, exists);
        let three = two.next(exists);
        if !self.has(thread_id) {
            three.ends(script, Err(ThreadErrorView::ThreadNotFound { thread_id }));
        } else {
            match one_turn(turns_of(items)) {
                Err(error) => {
                    three.ends(script, Err(error));
                },
                Ok(Some(turn_id)) => {
                    let clock = ThreadStatementView::ReadClock;
                    three.asks(script, clock);
                    let four = three.next(clock);
                    let now_ms = (around.clock)(3);
                    let lock = ThreadStatementView::LockActiveTurn { thread_id, turn_id, now_ms };
                    four.asks(script, lock);
                    let five = four.next(lock);
                    if (around.active)(thread_id, turn_id, now_ms) {
                        assert forall|g: Seq<ThreadReplyView>| #[trigger]
                            five.h.is_prefix_of(g) implies script(g) == append_checked_steps(
                            thread_id,
                            items,
                            g,
                            5,
                        ) by {
                            assert(g[0] == five.h[0] && g[1] == five.h[1] && g[2] == five.h[2]);
                            assert(g[3] == five.h[3] && g[4] == five.h[4]);
                        }
                        five.appends(script, self, thread_id, items);
                    } else {
                        five.ends(script, Err(no_writer_lease(thread_id, turn_id)));
                    }
                },
                Ok(None) => {
                    assert forall|g: Seq<ThreadReplyView>| #[trigger]
                        three.h.is_prefix_of(g) implies script(g) == append_checked_steps(
                        thread_id,
                        items,
                        g,
                        3,
                    ) by {
                        assert(g[0] == three.h[0] && g[1] == three.h[1] && g[2] == three.h[2]);
                    }
                    three.appends(script, self, thread_id, items);
                },
            }
        }
    }

    /// What resuming a thread comes to.
    pub open spec fn resume(
        self,
        around: Surroundings,
        thread_id: Seq<char>,
        create_params_json: Seq<char>,
        history: Option<Seq<Seq<char>>>,
    ) -> (ThreadTables, Result<(), ThreadErrorView>) {
        match history {
            None => if self.has(thread_id) {
                (self, Ok(()))
            } else {
                (self, Err(ThreadErrorView::ThreadNotFound { thread_id }))
            },
            Some(items) => {
                let known = if self.has(thread_id) {
                    self
                } else {
                    self.with_thread(
                        thread_id,
                        ThreadTables::new_thread(create_params_json, (around.clock)(3)),
                    )
                };
                (known.with_items(thread_id, Seq::empty()).appended(thread_id, items), Ok(()))
            },
        }
    }

    /// Resuming a thread comes to what [`ThreadTables::resume`] says.
    pub proof fn resume_carried_out(
        self,
        around: Surroundings,
        thread_id: Seq<char>,
        create_params_json: Seq<char>,
        history: Option<Seq<Seq<char>>>,
        fuel: nat,
    )
        requires
            history matches Some(items) ==> items.len() <= u64::MAX && fuel >= items.len() + 9,
            fuel >= 2,
        ensures
            self.carry_out(
                around,
                |h: Seq<ThreadReplyView>|
                    resume_thread_steps(thread_id, create_params_json, history, h),
                fuel,
            ) == Some(self.resume(around, thread_id, create_params_json, history)),
    {
        let script = |h: Seq<ThreadReplyView>|
            resume_thread_steps(thread_id, create_params_json, history, h);
        let start = ThreadStage { around, db: ThreadDatabase::of(self), h: Seq::empty(), fuel };
        let schema = ThreadStatementView::CreateSchema;
        start.asks(script, schema);
        let one = start.next(schema);
        let exists = ThreadStatementView::SelectThreadExists { thread_id };
        match history {
            None => {
                one.asks(script, exists);
                let two = one.next(exists);
                if self.has(thread_id) {
                    two.ends(script, Ok(()));
                } else {
                    two.ends(script, Err(ThreadErrorView::ThreadNotFound { thread_id }));
                }
            },
            Some(items) => {
                let begin = ThreadStatementView::Begin;
                one.asks(script, begin);
                let two = one.next(begin);
                two.asks(script, exists);
                let three = two.next(exists);
                if self.has(thread_id) {
                    assert forall|g: Seq<ThreadReplyView>| #[trigger]
                        three.h.is_prefix_of(g) implies script(g) == replace_rollout_items_steps(
                        thread_id,
                        items,
                        g,
                        3,
                    ) by {
                        assert(g[0] == three.h[0] && g[1] == three.h[1] && g[2] == three.h[2]);
                    }
                    three.replaces(script, thread_id, items);
                } else {
                    let clock = ThreadStatementView::ReadClock;
                    three.asks(script, clock);
                    let four = three.next(clock);
                    let now_ms = (around.clock)(3);
                    let insert = ThreadStatementView::InsertThread {
                        thread_id,
                        create_params_json,
                        now_ms,
                    };
                    four.asks(script, insert);
                    let five = four.next(insert);
                    assert forall|g: Seq<ThreadReplyView>| #[trigger]
                        five.h.is_prefix_of(g) implies script(g) == replace_rollout_items_steps(
                        thread_id,
                        items,
                        g,
                        5,
                    ) by {
                        assert(g[0] == five.h[0] && g[1] == five.h[1] && g[2] == five.h[2]);
                        assert(g[3] == five.h[3] && g[4] == five.h[4]);
                    }
                    five.replaces(script, thread_id, items);
                }
            },
        }
    }
}

/// The end of a conversation that only has to be committed.
pub open spec fn commit_then_done(h: Seq<ThreadReplyView>, at: int) -> ThreadStepView<()> {
    crate::threads::statements::thread_ask(
        h,
        at,
        ThreadStatementView::Commit,
        |reply: ThreadReplyView| reply.done(),
        |_done: ()| ThreadStepView::Done(Ok(())),
    )
}

impl ThreadStage {
    /// The end of a conversation that only has to be committed.
    proof fn commits(self, script: spec_fn(Seq<ThreadReplyView>) -> ThreadStepView<()>)
        requires
            self.fuel > 0,
            self.goes_on(
                script,
                |g: Seq<ThreadReplyView>| commit_then_done(g, self.h.len() as int),
            ),
        ensures
            self.outcome(script) == Some((self.db.tables, Ok::<(), ThreadErrorView>(()))),
    {
        let commit = ThreadStatementView::Commit;
        assert(self.h.is_prefix_of(self.h));
        self.asks(script, commit);
        let done = self.next(commit);
        assert(done.h[self.h.len() as int] == ThreadReplyView::Done);
        done.ends(script, Ok(()));
    }

    /// The part of a conversation that appends to a thread that may be appended to.
    proof fn appends(
        self,
        script: spec_fn(Seq<ThreadReplyView>) -> ThreadStepView<()>,
        tables: ThreadTables,
        thread_id: Seq<char>,
        items: Seq<Seq<char>>,
    )
        requires
            self.db == (ThreadDatabase { tables, saved: Some(tables) }),
            self.fuel >= items.len() + 5,
            tables.room_for(thread_id, items.len()),
            self.goes_on(
                script,
                |g: Seq<ThreadReplyView>|
                    append_checked_steps(thread_id, items, g, self.h.len() as int),
            ),
        ensures
            self.outcome(script) == Some(
                (
                    tables.extended(self.around, thread_id, items, self.h.len()),
                    Ok::<(), ThreadErrorView>(()),
                ),
            ),
    {
        let rest = |g: Seq<ThreadReplyView>, used: int|
            crate::threads::statements::thread_ask(
                g,
                used,
                ThreadStatementView::ReadClock,
                |reply: ThreadReplyView| reply.clock(),
                |now_ms: i64|
                    crate::threads::statements::thread_ask(
                        g,
                        used + 1,
                        ThreadStatementView::TouchThread { thread_id, now_ms },
                        |reply: ThreadReplyView| reply.done(),
                        |_done: ()| commit_then_done(g, used + 2),
                    ),
            );
        assert forall|g: Seq<ThreadReplyView>| #[trigger] self.h.is_prefix_of(g) implies script(g)
            == thread_after(
            insert_rollout_items_steps(thread_id, items, g, self.h.len() as int),
            |_done: (), used: int| rest(g, used),
        ) by {
            let progress = insert_rollout_items_steps(thread_id, items, g, self.h.len() as int);
            if let crate::threads::statements::ThreadProgressView::Ready(_, used) = progress {
                assert(used + 1 + 1 == used + 2);
            }
        }
        let later = self.inserts(script, rest, thread_id, items);
        let at = later.h.len() as int;
        assert(later.h.is_prefix_of(later.h));
        let clock = ThreadStatementView::ReadClock;
        later.asks(script, clock);
        let one = later.next(clock);
        let now_ms = (self.around.clock)(at as nat);
        let touch = ThreadStatementView::TouchThread { thread_id, now_ms };
        assert(later.h.is_prefix_of(one.h));
        one.asks(script, touch);
        let two = one.next(touch);
        assert forall|g: Seq<ThreadReplyView>| #[trigger] two.h.is_prefix_of(g) implies script(g)
            == commit_then_done(g, two.h.len() as int) by {
            assert(later.h.is_prefix_of(g));
            assert(g[at] == two.h[at] && g[at + 1] == two.h[at + 1]);
        }
        two.commits(script);
    }

    /// The part of a conversation that puts items in the place of others.
    proof fn replaces(
        self,
        script: spec_fn(Seq<ThreadReplyView>) -> ThreadStepView<()>,
        thread_id: Seq<char>,
        items: Seq<Seq<char>>,
    )
        requires
            self.fuel >= items.len() + 4,
            items.len() <= u64::MAX,
            self.goes_on(
                script,
                |g: Seq<ThreadReplyView>|
                    replace_rollout_items_steps(thread_id, items, g, self.h.len() as int),
            ),
        ensures
            self.outcome(script) == Some(
                (
                    self.db.tables.with_items(thread_id, Seq::empty()).appended(thread_id, items),
                    Ok::<(), ThreadErrorView>(()),
                ),
            ),
    {
        let at = self.h.len() as int;
        assert(self.h.is_prefix_of(self.h));
        let delete = ThreadStatementView::DeleteItems { thread_id };
        self.asks(script, delete);
        let one = self.next(delete);
        let rest = |g: Seq<ThreadReplyView>, used: int| commit_then_done(g, used);
        assert forall|g: Seq<ThreadReplyView>| #[trigger] one.h.is_prefix_of(g) implies script(g)
            == thread_after(
            insert_rollout_items_steps(thread_id, items, g, one.h.len() as int),
            |_done: (), used: int| rest(g, used),
        ) by {
            assert(self.h.is_prefix_of(g));
            assert(g[at] == one.h[at]);
        }
        let later = one.inserts(script, rest, thread_id, items);
        later.commits(script);
    }
}

impl ThreadTables {
    /// The answer to reading the items of a thread.
    pub open spec fn load(
        self,
        around: Surroundings,
        thread_id: Seq<char>,
    ) -> Result<StoredHistoryView, ThreadErrorView> {
        if self.history(thread_id).len() == 0 && !self.has(thread_id) {
            Err(ThreadErrorView::ThreadNotFound { thread_id })
        } else {
            match around.reads(self.history(thread_id)) {
                Err(error) => Err(error),
                Ok(items) => Ok(StoredHistoryView { thread_id, items }),
            }
        }
    }

    /// Reading the items of a thread changes nothing.
    pub proof fn load_carried_out(self, around: Surroundings, thread_id: Seq<char>)
        ensures
            self.carry_out(
                around,
                |h: Seq<ThreadReplyView>| load_history_steps(thread_id, h),
                3,
            ) == Some((self, self.load(around, thread_id))),
    {
        reveal_with_fuel(ThreadDatabase::run, 4);
    }

    /// Finding out whether there is a thread changes nothing.
    pub proof fn existence_carried_out(self, around: Surroundings, thread_id: Seq<char>)
        ensures
            self.carry_out(
                around,
                |h: Seq<ThreadReplyView>| ensure_thread_exists_steps(thread_id, h),
                2,
            ) == Some(
                (
                    self,
                    if self.has(thread_id) {
                        Ok::<(), ThreadErrorView>(())
                    } else {
                        Err(ThreadErrorView::ThreadNotFound { thread_id })
                    },
                ),
            ),
    {
        reveal_with_fuel(ThreadDatabase::run, 3);
    }

    /// The answer to reading a thread: an archived one is only there for those who ask for
    /// it.
    pub open spec fn read(
        self,
        around: Surroundings,
        thread_id: Seq<char>,
        include_archived: bool,
        include_history: bool,
        cli_version: Seq<char>,
    ) -> Result<StoredThreadView, ThreadErrorView> {
        if !self.has(thread_id) || self.threads[thread_id].archived_at_ms is Some
            && !include_archived {
            Err(ThreadErrorView::ThreadNotFound { thread_id })
        } else {
            let row = around.row(self.threads[thread_id]);
            match row.create_params.value() {
                Err(error) => Err(error),
                Ok(created) => match row.metadata_patch.value() {
                    Err(error) => Err(error),
                    Ok(patch) => if !include_history {
                        Ok(shown_row(thread_id, created, patch, row, None, cli_version))
                    } else {
                        match around.reads(self.history(thread_id)) {
                            Err(error) => Err(error),
                            Ok(items) => Ok(
                                shown_row(
                                    thread_id,
                                    created,
                                    patch,
                                    row,
                                    Some(StoredHistoryView { thread_id, items }),
                                    cli_version,
                                ),
                            ),
                        }
                    },
                },
            }
        }
    }

    /// Reading a thread changes nothing.
    pub proof fn read_carried_out(
        self,
        around: Surroundings,
        thread_id: Seq<char>,
        include_archived: bool,
        include_history: bool,
        cli_version: Seq<char>,
    )
        ensures
            self.carry_out(
                around,
                |h: Seq<ThreadReplyView>|
                    read_thread_steps(thread_id, include_archived, include_history, cli_version, h),
                3,
            ) == Some(
                (
                    self,
                    self.read(around, thread_id, include_archived, include_history, cli_version),
                ),
            ),
    {
        reveal_with_fuel(ThreadDatabase::run, 4);
    }

    /// The tables after the patch of a thread was recorded.
    pub open spec fn with_patch(
        self,
        thread_id: Seq<char>,
        metadata_patch_json: Seq<char>,
        now_ms: i64,
    ) -> ThreadTables {
        self.with_thread(
            thread_id,
            ThreadEntry {
                metadata_patch_json: Some(metadata_patch_json),
                updated_at_ms: now_ms,
                ..self.threads[thread_id]
            },
        )
    }

    /// The tables after a thread was archived, or taken out of the archive.
    pub open spec fn with_archived(
        self,
        thread_id: Seq<char>,
        archived_at_ms: Option<i64>,
        now_ms: i64,
    ) -> ThreadTables {
        self.with_thread(
            thread_id,
            ThreadEntry { archived_at_ms, updated_at_ms: now_ms, ..self.threads[thread_id] },
        )
    }

    /// Changing a thread records the patch, and answers with the thread and its items.
    pub proof fn update_carried_out(
        self,
        around: Surroundings,
        thread_id: Seq<char>,
        metadata_patch_json: Seq<char>,
        include_archived: bool,
        cli_version: Seq<char>,
    )
        ensures
            self.carry_out(
                around,
                |h: Seq<ThreadReplyView>|
                    update_thread_metadata_steps(
                        thread_id,
                        metadata_patch_json,
                        include_archived,
                        cli_version,
                        h,
                    ),
                5,
            ) == Some(
                if self.has(thread_id) {
                    let changed = self.with_patch(
                        thread_id,
                        metadata_patch_json,
                        (around.clock)(1),
                    );
                    (changed, changed.read(around, thread_id, include_archived, true, cli_version))
                } else {
                    (self, Err(ThreadErrorView::ThreadNotFound { thread_id }))
                },
            ),
    {
        reveal_with_fuel(ThreadDatabase::run, 6);
    }

    /// Archiving a thread notes when that was done.
    pub proof fn archive_carried_out(self, around: Surroundings, thread_id: Seq<char>)
        ensures
            self.carry_out(
                around,
                |h: Seq<ThreadReplyView>| archive_thread_steps(thread_id, h),
                4,
            ) == Some(
                if self.has(thread_id) {
                    (
                        self.with_archived(
                            thread_id,
                            Some((around.clock)(1)),
                            (around.clock)(2),
                        ),
                        Ok::<(), ThreadErrorView>(()),
                    )
                } else {
                    (self, Err(ThreadErrorView::ThreadNotFound { thread_id }))
                },
            ),
    {
        reveal_with_fuel(ThreadDatabase::run, 5);
    }

    /// Taking a thread out of the archive answers with the thread.
    pub proof fn unarchive_carried_out(
        self,
        around: Surroundings,
        thread_id: Seq<char>,
        cli_version: Seq<char>,
    )
        ensures
            self.carry_out(
                around,
                |h: Seq<ThreadReplyView>| unarchive_thread_steps(thread_id, cli_version, h),
                5,
            ) == Some(
                if self.has(thread_id) {
                    let changed = self.with_archived(thread_id, None, (around.clock)(1));
                    (changed, changed.read(around, thread_id, true, false, cli_version))
                } else {
                    (self, Err(ThreadErrorView::ThreadNotFound { thread_id }))
                },
            ),
    {
        reveal_with_fuel(ThreadDatabase::run, 6);
    }
}

} // verus!
