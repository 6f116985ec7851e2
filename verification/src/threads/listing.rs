//! Which threads are listed, and in which order.
use vstd::prelude::*;

use crate::threads::errors::ThreadErrorView;
use crate::threads::operations::{list_threads_steps, listed_id, read_listed_steps};
use crate::threads::outcomes::ThreadStage;
use crate::threads::records::{StoredThreadView, ThreadPageView};
use crate::threads::statements::{
    ListedThreadView, ParsedView, ThreadReplyView, ThreadStatementView, ThreadStepView,
};
use crate::threads::tables::{Surroundings, ThreadDatabase, ThreadTables};

verus! {

/// The identifiers of listed threads as they are kept.
pub open spec fn kept_ids(listed: Seq<ListedThreadView>) -> Seq<Seq<char>> {
    listed.map_values(|thread: ListedThreadView| thread.value)
}

/// The identifiers of threads that were read.
pub open spec fn shown_ids(threads: Seq<StoredThreadView>) -> Seq<Seq<char>> {
    threads.map_values(|thread: StoredThreadView| thread.thread_id)
}

/// Whether the identifiers of listed threads are read as they are kept.
pub open spec fn ids_read(listed: Seq<ListedThreadView>) -> bool {
    forall|i: int|
        0 <= i < listed.len() ==> (#[trigger] listed[i]).thread_id == ParsedView::Value(
            listed[i].value,
        )
}

impl ThreadTables {
    /// Whether there is a thread, and it is not archived.
    pub open spec fn shows(self, thread_id: Seq<char>) -> bool {
        self.has(thread_id) && self.threads[thread_id].archived_at_ms is None
    }

    /// Whether these are the threads that are not archived, each once, the last updated first:
    /// all of them or, if there are more than `count`, the `count` that were last updated.
    pub open spec fn last_updated(self, count: u64, ids: Seq<Seq<char>>) -> bool {
        &&& ids.no_duplicates()
        &&& ids.len() <= count
        &&& forall|i: int| 0 <= i < ids.len() ==> self.shows(#[trigger] ids[i])
        &&& forall|i: int, j: int|
            0 <= i < j < ids.len() ==> self.threads[#[trigger] ids[i]].updated_at_ms
                >= self.threads[#[trigger] ids[j]].updated_at_ms
        &&& forall|id: Seq<char>, i: int|
            self.shows(id) && !ids.contains(id) && 0 <= i < ids.len() ==> (
            #[trigger] self.threads[id]).updated_at_ms <= self.threads[
            #[trigger] ids[i]].updated_at_ms
        &&& forall|id: Seq<char>| #[trigger]
            self.shows(id) && !ids.contains(id) ==> ids.len() == count
    }

    /// What reading the listed threads comes to, from the `from`-th one on, after those that
    /// were read.
    pub open spec fn list_from(
        self,
        around: Surroundings,
        listed: Seq<ListedThreadView>,
        from: int,
        read: Seq<StoredThreadView>,
        cli_version: Seq<char>,
    ) -> Result<ThreadPageView, ThreadErrorView>
        decreases listed.len() - from,
    {
        if from >= listed.len() {
            Ok(ThreadPageView { items: read, next_cursor: None })
        } else {
            match listed_id(listed[from]) {
                Err(error) => Err(error),
                Ok(thread_id) => match self.read(around, thread_id, false, false, cli_version) {
                    Err(error) => Err(error),
                    Ok(thread) => self.list_from(
                        around,
                        listed,
                        from + 1,
                        read.push(thread),
                        cli_version,
                    ),
                },
            }
        }
    }

    /// The answer to listing threads: each thread that the database lists, as it is read.
    pub open spec fn list(
        self,
        around: Surroundings,
        page_size: u64,
        cli_version: Seq<char>,
    ) -> Result<ThreadPageView, ThreadErrorView> {
        self.list_from(around, (around.listed)(self, page_size), 0, Seq::empty(), cli_version)
    }

    /// Listing threads changes nothing.
    pub proof fn list_carried_out(
        self,
        around: Surroundings,
        page_size: u64,
        cli_version: Seq<char>,
    )
        ensures
            self.carry_out(
                around,
                |h: Seq<ThreadReplyView>| list_threads_steps(page_size, cli_version, h),
                (around.listed)(self, page_size).len() + 2,
            ) == Some((self, self.list(around, page_size, cli_version))),
    {
        let script = |h: Seq<ThreadReplyView>| list_threads_steps(page_size, cli_version, h);
        let listed = (around.listed)(self, page_size);
        let start = ThreadStage {
            around,
            db: ThreadDatabase::of(self),
            h: Seq::empty(),
            fuel: listed.len() + 2,
        };
        let schema = ThreadStatementView::CreateSchema;
        start.asks(script, schema);
        let one = start.next(schema);
        let select = ThreadStatementView::SelectThreads { count: page_size };
        one.asks(script, select);
        let two = one.next(select);
        assert forall|g: Seq<ThreadReplyView>| #[trigger] two.h.is_prefix_of(g) implies script(g)
            == read_listed_steps(listed, 0, Seq::empty(), cli_version, g, two.h.len() as int) by {
            assert(g[0] == two.h[0] && g[1] == two.h[1]);
        }
        two.reads_listed(script, self, listed, 0, Seq::empty(), cli_version);
    }

    /// The threads of a page are read in the order in which they are listed.
    proof fn listed_in_order(
        self,
        around: Surroundings,
        listed: Seq<ListedThreadView>,
        from: int,
        read: Seq<StoredThreadView>,
        cli_version: Seq<char>,
    )
        requires
            ids_read(listed),
            0 <= from <= listed.len(),
            read.len() == from,
            forall|i: int|
                0 <= i < from ==> self.read(
                    around,
                    (#[trigger] listed[i]).value,
                    false,
                    false,
                    cli_version,
                ) == Ok::<StoredThreadView, ThreadErrorView>(read[i]),
        ensures
            match self.list_from(around, listed, from, read, cli_version) {
                Ok(page) => {
                    &&& page.next_cursor is None
                    &&& page.items.len() == listed.len()
                    &&& forall|i: int|
                        0 <= i < listed.len() ==> self.read(
                            around,
                            (#[trigger] listed[i]).value,
                            false,
                            false,
                            cli_version,
                        ) == Ok::<StoredThreadView, ThreadErrorView>(page.items[i])
                },
                Err(error) => exists|i: int|
                    0 <= i < listed.len() && self.read(
                        around,
                        (#[trigger] listed[i]).value,
                        false,
                        false,
                        cli_version,
                    ) == Err::<StoredThreadView, ThreadErrorView>(error),
            },
        decreases listed.len() - from,
    {
        if from < listed.len() {
            let value = listed[from].value;
            assert(listed_id(listed[from]) == Ok::<Seq<char>, ThreadErrorView>(value));
            if let Ok(thread) = self.read(around, value, false, false, cli_version) {
                self.listed_in_order(around, listed, from + 1, read.push(thread), cli_version);
            }
        }
    }

    /// Listing threads shows those that are not archived, each once, the last updated first:
    /// at most as many as a page holds, and all of them if they fit. It fails only if one of
    /// them cannot be read.
    pub proof fn last_updated_threads_come_first(
        self,
        around: Surroundings,
        page_size: u64,
        cli_version: Seq<char>,
    )
        requires
            ids_read((around.listed)(self, page_size)),
            self.last_updated(page_size, kept_ids((around.listed)(self, page_size))),
        ensures
            match self.list(around, page_size, cli_version) {
                Ok(page) => {
                    &&& page.next_cursor is None
                    &&& self.last_updated(page_size, shown_ids(page.items))
                    &&& forall|i: int|
                        0 <= i < page.items.len() ==> self.read(
                            around,
                            (#[trigger] page.items[i]).thread_id,
                            false,
                            false,
                            cli_version,
                        ) == Ok::<StoredThreadView, ThreadErrorView>(page.items[i])
                },
                Err(error) => exists|thread_id: Seq<char>| #[trigger]
                    self.shows(thread_id) && self.read(
                        around,
                        thread_id,
                        false,
                        false,
                        cli_version,
                    ) == Err::<StoredThreadView, ThreadErrorView>(error),
            },
    {
        let listed = (around.listed)(self, page_size);
        self.listed_in_order(around, listed, 0, Seq::empty(), cli_version);
        match self.list(around, page_size, cli_version) {
            Ok(page) => {
                assert forall|i: int| 0 <= i < listed.len() implies (
                #[trigger] page.items[i]).thread_id == listed[i].value by {
                    assert(self.read(around, listed[i].value, false, false, cli_version) is Ok);
                }
                assert(shown_ids(page.items) =~= kept_ids(listed));
            },
            Err(error) => {
                let i = choose|i: int|
                    0 <= i < listed.len() && self.read(
                        around,
                        (#[trigger] listed[i]).value,
                        false,
                        false,
                        cli_version,
                    ) == Err::<StoredThreadView, ThreadErrorView>(error);
                assert(self.shows(kept_ids(listed)[i]));
            },
        }
    }
}

impl ThreadStage {
    /// The part of a conversation that reads listed threads.
    proof fn reads_listed(
        self,
        script: spec_fn(Seq<ThreadReplyView>) -> ThreadStepView<ThreadPageView>,
        tables: ThreadTables,
        listed: Seq<ListedThreadView>,
        from: int,
        read: Seq<StoredThreadView>,
        cli_version: Seq<char>,
    )
        requires
            self.db == ThreadDatabase::of(tables),
            0 <= from <= listed.len(),
            self.fuel >= listed.len() - from,
            self.goes_on(
                script,
                |g: Seq<ThreadReplyView>|
                    read_listed_steps(listed, from, read, cli_version, g, self.h.len() as int),
            ),
        ensures
            self.outcome(script) == Some(
                (tables, tables.list_from(self.around, listed, from, read, cli_version)),
            ),
        decreases listed.len() - from,
    {
        let at = self.h.len() as int;
        let r = tables.list_from(self.around, listed, from, read, cli_version);
        assert(self.h.is_prefix_of(self.h));
        if from >= listed.len() {
            self.ends(script, r);
        } else {
            match listed_id(listed[from]) {
                Err(error) => {
                    self.ends(script, r);
                },
                Ok(thread_id) => {
                    let select = ThreadStatementView::SelectThread { thread_id };
                    self.asks(script, select);
                    let one = self.next(select);
                    assert(one.h[at] == self.db.execute(self.around, select, self.h.len()).1);
                    match tables.read(self.around, thread_id, false, false, cli_version) {
                        Err(error) => {
                            one.ends(script, r);
                        },
                        Ok(thread) => {
                            assert forall|g: Seq<ThreadReplyView>| #[trigger]
                                one.h.is_prefix_of(g) implies script(g) == read_listed_steps(
                                listed,
                                from + 1,
                                read.push(thread),
                                cli_version,
                                g,
                                one.h.len() as int,
                            ) by {
                                assert(self.h.is_prefix_of(g));
                                assert(g[at] == one.h[at]);
                            }
                            one.reads_listed(
                                script,
                                tables,
                                listed,
                                from + 1,
                                read.push(thread),
                                cli_version,
                            );
                        },
                    }
                },
            }
        }
    }
}

} // verus!
