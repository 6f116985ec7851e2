//! The tables of threads as mathematical values, and what each statement does to them.
use vstd::prelude::*;

use crate::threads::errors::ThreadErrorView;
use crate::threads::records::{CreateThreadView, ThreadPatchView};
use crate::threads::statements::{
    read_items, ListedThreadView, ParsedView, ThreadReplyView, ThreadRowView, ThreadStatementView,
    ThreadStepView,
};

verus! {

/// A row of the table of threads.
#[verifier::ext_equal]
pub struct ThreadEntry {
    pub create_params_json: Seq<char>,
    pub metadata_patch_json: Option<Seq<char>>,
    pub archived_at_ms: Option<i64>,
    pub created_at_ms: i64,
    pub updated_at_ms: i64,
}

/// A row of the table of items.
#[verifier::ext_equal]
pub struct ItemEntry {
    pub sequence: u64,
    pub item_json: Seq<char>,
}

/// The tables of threads. The items of a thread are listed in the order of their numbers.
#[verifier::ext_equal]
pub struct ThreadTables {
    pub threads: Map<Seq<char>, ThreadEntry>,
    pub items: Map<Seq<char>, Seq<ItemEntry>>,
}

/// What the answers depend on besides the tables of threads: what the clock shows at the
/// `n`-th statement, which turns hold the writer lease of their thread, which threads are
/// listed, what is read of the JSON of an item, and what is read from other JSON.
pub struct Surroundings {
    pub clock: spec_fn(nat) -> i64,
    pub active: spec_fn(Seq<char>, Seq<char>, i64) -> bool,
    pub listed: spec_fn(ThreadTables, u64) -> Seq<ListedThreadView>,
    pub item: spec_fn(Seq<char>) -> ParsedView<Seq<char>>,
    pub created: spec_fn(Seq<char>) -> ParsedView<CreateThreadView>,
    pub patch: spec_fn(Seq<char>) -> ParsedView<ThreadPatchView>,
}

/// The tables of threads and, in a transaction, what they were when it was opened.
#[verifier::ext_equal]
pub struct ThreadDatabase {
    pub tables: ThreadTables,
    pub saved: Option<ThreadTables>,
}

impl Surroundings {
    /// What items come to when they are read.
    pub open spec fn items(self, items: Seq<Seq<char>>) -> Seq<ParsedView<Seq<char>>> {
        items.map_values(self.item)
    }

    /// Items as they are read, if all of them can be.
    pub open spec fn reads(self, items: Seq<Seq<char>>) -> Result<
        Seq<Seq<char>>,
        ThreadErrorView,
    > {
        read_items(self.items(items))
    }

    /// A row of the table of threads, as it is read.
    pub open spec fn row(self, entry: ThreadEntry) -> ThreadRowView {
        ThreadRowView {
            create_params: (self.created)(entry.create_params_json),
            metadata_patch: match entry.metadata_patch_json {
                None => ParsedView::Value(None),
                Some(json) => match (self.patch)(json) {
                    ParsedView::Value(patch) => ParsedView::Value(Some(patch)),
                    ParsedView::Invalid(reason) => ParsedView::Invalid(reason),
                },
            },
            archived_at_ms: entry.archived_at_ms,
            created_at_ms: entry.created_at_ms,
            updated_at_ms: entry.updated_at_ms,
        }
    }
}

impl ThreadTables {
    /// The items of a thread.
    pub open spec fn items_of(self, thread_id: Seq<char>) -> Seq<ItemEntry> {
        if self.items.dom().contains(thread_id) {
            self.items[thread_id]
        } else {
            Seq::empty()
        }
    }

    /// The items of a thread as they were written.
    pub open spec fn history(self, thread_id: Seq<char>) -> Seq<Seq<char>> {
        self.items_of(thread_id).map_values(|item: ItemEntry| item.item_json)
    }

    /// The number of the last item of a thread.
    pub open spec fn last(self, thread_id: Seq<char>) -> Option<u64> {
        if self.items_of(thread_id).len() == 0 {
            None
        } else {
            Some(self.items_of(thread_id).last().sequence)
        }
    }

    /// Whether there is a thread.
    pub open spec fn has(self, thread_id: Seq<char>) -> bool {
        self.threads.dom().contains(thread_id)
    }

    /// The tables with another row for a thread.
    pub open spec fn with_thread(self, thread_id: Seq<char>, entry: ThreadEntry) -> ThreadTables {
        ThreadTables { threads: self.threads.insert(thread_id, entry), ..self }
    }

    /// The tables with other items for a thread.
    pub open spec fn with_items(self, thread_id: Seq<char>, items: Seq<ItemEntry>) -> ThreadTables {
        ThreadTables { items: self.items.insert(thread_id, items), ..self }
    }

    /// The row of a new thread.
    pub open spec fn new_thread(create_params_json: Seq<char>, now_ms: i64) -> ThreadEntry {
        ThreadEntry {
            create_params_json,
            metadata_patch_json: None,
            archived_at_ms: None,
            created_at_ms: now_ms,
            updated_at_ms: now_ms,
        }
    }

    /// The tables after a thread was recorded or, if it was there, updated.
    pub open spec fn upserted(
        self,
        thread_id: Seq<char>,
        create_params_json: Seq<char>,
        now_ms: i64,
    ) -> ThreadTables {
        if self.has(thread_id) {
            self.touched(thread_id, now_ms)
        } else {
            self.with_thread(thread_id, ThreadTables::new_thread(create_params_json, now_ms))
        }
    }

    /// The tables after a thread was updated, if it is there.
    pub open spec fn touched(self, thread_id: Seq<char>, now_ms: i64) -> ThreadTables {
        if self.has(thread_id) {
            self.with_thread(
                thread_id,
                ThreadEntry { updated_at_ms: now_ms, ..self.threads[thread_id] },
            )
        } else {
            self
        }
    }

    /// What a statement does, and what it answers, as the `n`-th one of a conversation.
    /// Items are only recorded after the last one.
    pub open spec fn execute(
        self,
        around: Surroundings,
        statement: ThreadStatementView,
        n: nat,
    ) -> (ThreadTables, ThreadReplyView) {
        match statement {
            ThreadStatementView::CreateSchema => (self, ThreadReplyView::Done),
            ThreadStatementView::Begin => (self, ThreadReplyView::Done),
            ThreadStatementView::Commit => (self, ThreadReplyView::Done),
            ThreadStatementView::ReadClock => (self, ThreadReplyView::Clock((around.clock)(n))),
            ThreadStatementView::UpsertThread { thread_id, create_params_json, now_ms } => (
                self.upserted(thread_id, create_params_json, now_ms),
                ThreadReplyView::Done,
            ),
            ThreadStatementView::InsertThread { thread_id, create_params_json, now_ms } => if self.has(
                thread_id,
            ) {
                (self, ThreadReplyView::Failed("refused"@))
            } else {
                (
                    self.with_thread(
                        thread_id,
                        ThreadTables::new_thread(create_params_json, now_ms),
                    ),
                    ThreadReplyView::Done,
                )
            },
            ThreadStatementView::SelectThreadExists { thread_id } => (
                self,
                ThreadReplyView::Found(self.has(thread_id)),
            ),
            ThreadStatementView::SelectThread { thread_id } => (
                self,
                ThreadReplyView::Thread(
                    if self.has(thread_id) {
                        Some(around.row(self.threads[thread_id]))
                    } else {
                        None
                    },
                ),
            ),
            ThreadStatementView::SelectThreads { count } => (
                self,
                ThreadReplyView::Threads((around.listed)(self, count)),
            ),
            ThreadStatementView::LockActiveTurn { thread_id, turn_id, now_ms } => (
                self,
                ThreadReplyView::Found((around.active)(thread_id, turn_id, now_ms)),
            ),
            ThreadStatementView::SelectLastItem { thread_id } => (
                self,
                ThreadReplyView::Last(self.last(thread_id)),
            ),
            ThreadStatementView::InsertItem { thread_id, sequence, item_json, now_ms: _ } => if self.last(
                thread_id,
            ) is Some && self.last(thread_id)->0 >= sequence {
                (self, ThreadReplyView::Failed("refused"@))
            } else {
                (
                    self.with_items(
                        thread_id,
                        self.items_of(thread_id).push(ItemEntry { sequence, item_json }),
                    ),
                    ThreadReplyView::Done,
                )
            },
            ThreadStatementView::DeleteItems { thread_id } => (
                self.with_items(thread_id, Seq::empty()),
                ThreadReplyView::Done,
            ),
            ThreadStatementView::TouchThread { thread_id, now_ms } => (
                self.touched(thread_id, now_ms),
                ThreadReplyView::Done,
            ),
            ThreadStatementView::SelectHistory { thread_id } => (
                self,
                ThreadReplyView::Items(around.items(self.history(thread_id))),
            ),
            ThreadStatementView::SetMetadata { thread_id, metadata_patch_json, now_ms } => if self.has(
                thread_id,
            ) {
                (
                    self.with_thread(
                        thread_id,
                        ThreadEntry {
                            metadata_patch_json: Some(metadata_patch_json),
                            updated_at_ms: now_ms,
                            ..self.threads[thread_id]
                        },
                    ),
                    ThreadReplyView::Affected(1),
                )
            } else {
                (self, ThreadReplyView::Affected(0))
            },
            ThreadStatementView::SetArchived { thread_id, archived_at_ms, now_ms } => if self.has(
                thread_id,
            ) {
                (
                    self.with_thread(
                        thread_id,
                        ThreadEntry {
                            archived_at_ms,
                            updated_at_ms: now_ms,
                            ..self.threads[thread_id]
                        },
                    ),
                    ThreadReplyView::Affected(1),
                )
            } else {
                (self, ThreadReplyView::Affected(0))
            },
        }
    }

    /// What an operation comes to on these tables, in at most `fuel` statements.
    pub open spec fn carry_out<T>(
        self,
        around: Surroundings,
        script: spec_fn(Seq<ThreadReplyView>) -> ThreadStepView<T>,
        fuel: nat,
    ) -> Option<(ThreadTables, Result<T, ThreadErrorView>)> {
        ThreadDatabase::of(self).run(around, script, Seq::empty(), fuel)
    }
}

impl ThreadDatabase {
    /// A database outside of any transaction.
    pub open spec fn of(tables: ThreadTables) -> ThreadDatabase {
        ThreadDatabase { tables, saved: None }
    }

    /// What a statement does, and what it answers, as the `n`-th one of a conversation.
    pub open spec fn execute(
        self,
        around: Surroundings,
        statement: ThreadStatementView,
        n: nat,
    ) -> (ThreadDatabase, ThreadReplyView) {
        let (tables, reply) = self.tables.execute(around, statement, n);
        match statement {
            ThreadStatementView::Begin => (
                ThreadDatabase { tables, saved: Some(self.tables) },
                reply,
            ),
            ThreadStatementView::Commit => (ThreadDatabase::of(tables), reply),
            _ => (ThreadDatabase { tables, saved: self.saved }, reply),
        }
    }

    /// The tables that stay when a transaction that is still open is dropped.
    pub open spec fn closed(self) -> ThreadTables {
        match self.saved {
            Some(saved) => saved,
            None => self.tables,
        }
    }

    /// The conversation of an operation with the database, in at most `fuel` statements: the
    /// tables that stay, and the answer.
    pub open spec fn run<T>(
        self,
        around: Surroundings,
        script: spec_fn(Seq<ThreadReplyView>) -> ThreadStepView<T>,
        h: Seq<ThreadReplyView>,
        fuel: nat,
    ) -> Option<(ThreadTables, Result<T, ThreadErrorView>)>
        decreases fuel,
    {
        match script(h) {
            ThreadStepView::Done(r) => Some((self.closed(), r)),
            ThreadStepView::Ask(statement) => if fuel == 0 {
                None
            } else {
                let (next, reply) = self.execute(around, statement, h.len());
                next.run(around, script, h.push(reply), (fuel - 1) as nat)
            },
        }
    }
}

} // verus!
