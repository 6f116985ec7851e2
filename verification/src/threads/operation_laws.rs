//! What each operation on threads does, in terms of what can be read of them.
use vstd::prelude::*;

use crate::threads::errors::ThreadErrorView;
use crate::threads::outcomes::numbered_items;
use crate::threads::records::{stored_time, StoredHistoryView, StoredThreadView};
use crate::threads::statements::{ParsedView, ThreadStatementView};
use crate::threads::tables::{ItemEntry, Surroundings, ThreadDatabase, ThreadTables};
use crate::threads::turn_ids::turns_of;

verus! {

impl Surroundings {
    /// Whether the clock stands still at a moment.
    pub open spec fn at_moment(self, now_ms: i64) -> bool {
        forall|n: nat| #[trigger] (self.clock)(n) == now_ms
    }
}

impl ThreadTables {
    /// A thread that is created is recorded with what it was created with, created and updated
    /// now, not archived and without a patch. One that was there before is only updated. Its
    /// first item comes after those that it had; no other thread is touched.
    pub proof fn created_thread_is_recorded(
        self,
        around: Surroundings,
        thread_id: Seq<char>,
        create_params_json: Seq<char>,
        session_meta_json: Seq<char>,
        now_ms: i64,
        other: Seq<char>,
    )
        requires
            around.at_moment(now_ms),
            self.room_for(thread_id, 1),
        ensures
            ({
                let after = self.create(around, thread_id, create_params_json, session_meta_json);
                let row = after.threads[thread_id];
                let old_row = self.threads[thread_id];
                let items = after.items_of(thread_id);
                let before = self.items_of(thread_id);
                &&& after.threads.dom() == self.threads.dom().insert(thread_id)
                &&& row.updated_at_ms == now_ms
                &&& !self.threads.dom().contains(thread_id) ==> row.create_params_json
                    == create_params_json && row.created_at_ms == now_ms && row.archived_at_ms
                    is None && row.metadata_patch_json is None
                &&& self.threads.dom().contains(thread_id) ==> row.create_params_json
                    == old_row.create_params_json && row.created_at_ms == old_row.created_at_ms
                    && row.archived_at_ms == old_row.archived_at_ms && row.metadata_patch_json
                    == old_row.metadata_patch_json
                &&& items.len() == before.len() + 1
                &&& items.drop_last() == before
                &&& items.last().item_json == session_meta_json
                &&& before.len() == 0 ==> items.last().sequence == 1
                &&& before.len() > 0 ==> items.last().sequence == before.last().sequence + 1
                &&& other != thread_id ==> after.items_of(other) == self.items_of(other)
                    && after.threads[other] == self.threads[other]
            }),
    {
        let after = self.create(around, thread_id, create_params_json, session_meta_json);
        let upserted = self.upserted(thread_id, create_params_json, (around.clock)(2));
        assert((around.clock)(2) == now_ms);
        assert(after.threads.dom() =~= self.threads.dom().insert(thread_id));
        assert(upserted.items_of(thread_id) == self.items_of(thread_id));
        assert(after.items_of(thread_id).drop_last() =~= self.items_of(thread_id));
    }

    /// An append to a thread is accepted exactly if the thread is there and its items name no
    /// turn, or one that holds the writer lease now. Then its items stand after those of the
    /// thread, in their order, numbered on from the last one; the thread is updated now, and
    /// nothing else of it or of others changes. Otherwise nothing changes at all.
    pub proof fn append_adds_the_items(
        self,
        around: Surroundings,
        thread_id: Seq<char>,
        items: Seq<Seq<char>>,
        now_ms: i64,
        other: Seq<char>,
    )
        requires
            around.at_moment(now_ms),
            self.room_for(thread_id, items.len()),
        ensures
            ({
                let (after, r) = self.append(around, thread_id, items);
                let turns = turns_of(items);
                let before = self.items_of(thread_id);
                let now_items = after.items_of(thread_id);
                let row = after.threads[thread_id];
                let old_row = self.threads[thread_id];
                let last: int = if before.len() == 0 {
                    0
                } else {
                    before.last().sequence as int
                };
                &&& r is Ok <==> self.threads.dom().contains(thread_id) && (turns.len() == 0
                    || turns.len() == 1 && (around.active)(thread_id, turns[0], now_ms))
                &&& r is Err ==> after == self
                &&& !self.threads.dom().contains(thread_id) ==> r == Err::<(), ThreadErrorView>(
                    ThreadErrorView::ThreadNotFound { thread_id },
                )
                &&& r is Ok ==> {
                    &&& now_items.len() == before.len() + items.len()
                    &&& before.is_prefix_of(now_items)
                    &&& forall|i: int|
                        0 <= i < items.len() ==> (#[trigger] now_items[before.len()
                            + i]).item_json == items[i] && now_items[before.len() + i].sequence
                            == last + i + 1
                    &&& row.updated_at_ms == now_ms
                    &&& row.created_at_ms == old_row.created_at_ms
                    &&& row.archived_at_ms == old_row.archived_at_ms
                    &&& row.create_params_json == old_row.create_params_json
                    &&& row.metadata_patch_json == old_row.metadata_patch_json
                    &&& after.threads.dom() == self.threads.dom()
                    &&& other != thread_id ==> after.items_of(other) == self.items_of(other)
                        && after.threads[other] == self.threads[other]
                }
            }),
    {
        let (after, r) = self.append(around, thread_id, items);
        assert((around.clock)(3) == now_ms);
        if r is Ok {
            let asked: nat = if items.len() == 0 {
                0
            } else {
                items.len() + 2
            };
            assert((around.clock)(3 + asked) == now_ms && (around.clock)(5 + asked) == now_ms);
            assert(after.threads.dom() =~= self.threads.dom());
            let base = crate::threads::operations::number_or_zero(self.last(thread_id));
            let new_items = numbered_items(base, items);
            let before = self.items_of(thread_id);
            if items.len() > 0 {
                assert(after.items_of(thread_id) == before + new_items);
                assert forall|i: int| 0 <= i < items.len() implies (
                #[trigger] after.items_of(thread_id)[before.len() + i]) == new_items[i] by {}
            }
        }
    }

    /// A thread that is resumed with a history has exactly that history, numbered from one;
    /// what is recorded of it stays. One that was never created is recorded with what it is
    /// resumed with, created and updated now. Without a history, nothing changes, and the
    /// thread has to be there.
    pub proof fn resumed_thread_has_its_history(
        self,
        around: Surroundings,
        thread_id: Seq<char>,
        create_params_json: Seq<char>,
        history: Option<Seq<Seq<char>>>,
        now_ms: i64,
        other: Seq<char>,
    )
        requires
            around.at_moment(now_ms),
            history matches Some(items) ==> items.len() <= u64::MAX,
        ensures
            ({
                let (after, r) = self.resume(around, thread_id, create_params_json, history);
                let row = after.threads[thread_id];
                let known = self.threads.dom().contains(thread_id);
                match history {
                    None => {
                        &&& after == self
                        &&& known ==> r is Ok
                        &&& !known ==> r == Err::<(), ThreadErrorView>(
                            ThreadErrorView::ThreadNotFound { thread_id },
                        )
                    },
                    Some(items) => {
                        &&& r is Ok
                        &&& after.items_of(thread_id).len() == items.len()
                        &&& forall|i: int|
                            0 <= i < items.len() ==> (#[trigger] after.items_of(
                                thread_id,
                            )[i]).item_json == items[i] && after.items_of(thread_id)[i].sequence
                                == i + 1
                        &&& known ==> row == self.threads[thread_id]
                        &&& !known ==> row.create_params_json == create_params_json
                            && row.created_at_ms == now_ms && row.updated_at_ms == now_ms
                            && row.archived_at_ms is None && row.metadata_patch_json is None
                        &&& other != thread_id ==> after.items_of(other) == self.items_of(other)
                            && after.threads[other] == self.threads[other]
                    },
                }
            }),
    {
        assert((around.clock)(3) == now_ms);
        if let Some(items) = history {
            let known = if self.has(thread_id) {
                self
            } else {
                self.with_thread(
                    thread_id,
                    ThreadTables::new_thread(create_params_json, (around.clock)(3)),
                )
            };
            let emptied = known.with_items(thread_id, Seq::empty());
            assert(emptied.items_of(thread_id) =~= Seq::<ItemEntry>::empty());
            let after = self.resume(around, thread_id, create_params_json, history).0;
            if items.len() > 0 {
                assert(after.items_of(thread_id) =~= numbered_items(0, items));
            }
        }
    }

    /// The items of a thread are read as they stand, oldest first. A thread without items is
    /// read as empty if it is there; one that is not is not found.
    pub proof fn history_is_read_in_order(self, around: Surroundings, thread_id: Seq<char>)
        ensures
            match self.load(around, thread_id) {
                Err(error) => if self.items_of(thread_id).len() == 0 {
                    error == (ThreadErrorView::ThreadNotFound { thread_id })
                        && !self.threads.dom().contains(thread_id)
                } else {
                    exists|i: int|
                        0 <= i < self.items_of(thread_id).len() && (around.item)(
                            (#[trigger] self.items_of(thread_id)[i]).item_json,
                        ) is Invalid
                },
                Ok(history) => {
                    &&& history.thread_id == thread_id
                    &&& history.items.len() == self.items_of(thread_id).len()
                    &&& forall|i: int|
                        0 <= i < history.items.len() ==> (around.item)(
                            (#[trigger] self.items_of(thread_id)[i]).item_json,
                        ) == ParsedView::Value(history.items[i])
                },
            },
    {
        around.reading_is_in_order(self.items_of(thread_id));
    }

    /// A thread is read exactly if it is there and, unless archived threads are asked for, not
    /// archived, and if what is kept of it can be read; it is read under its identifier, with
    /// its items exactly if they are asked for.
    pub proof fn threads_are_read_by_identifier(
        self,
        around: Surroundings,
        thread_id: Seq<char>,
        include_archived: bool,
        include_history: bool,
        cli_version: Seq<char>,
    )
        ensures
            ({
                let r = self.read(
                    around,
                    thread_id,
                    include_archived,
                    include_history,
                    cli_version,
                );
                let row = self.threads[thread_id];
                let hidden = row.archived_at_ms is Some && !include_archived;
                &&& !self.threads.dom().contains(thread_id) || hidden ==> r == Err::<
                    StoredThreadView,
                    ThreadErrorView,
                >(ThreadErrorView::ThreadNotFound { thread_id })
                &&& r matches Ok(thread) ==> {
                    &&& self.threads.dom().contains(thread_id)
                    &&& !hidden
                    &&& thread.thread_id == thread_id
                    &&& thread.cli_version == cli_version
                    &&& include_history <==> thread.history is Some
                    &&& thread.archived_at is Some <==> row.archived_at_ms is Some
                    &&& thread.created_at == stored_time(row.created_at_ms)
                    &&& thread.updated_at == stored_time(row.updated_at_ms)
                    &&& (around.created)(row.create_params_json) matches ParsedView::Value(created)
                    &&& thread.source == created.source
                    &&& thread.forked_from_id == created.forked_from_id
                    &&& thread.parent_thread_id == created.parent_thread_id
                    &&& row.metadata_patch_json is None ==> thread.model_provider
                        == created.metadata.model_provider && thread.name is None
                    &&& row.metadata_patch_json matches Some(json) ==> {
                        &&& (around.patch)(json) matches ParsedView::Value(patch)
                        &&& patch.name matches Some(name) ==> thread.name == name
                        &&& patch.name is None ==> thread.name is None
                        &&& patch.cwd matches Some(cwd) ==> thread.cwd == cwd
                        &&& patch.cwd is None && created.metadata.cwd is Some ==> thread.cwd
                            == created.metadata.cwd->0
                    }
                    &&& thread.history matches Some(history) ==> self.load(around, thread_id)
                        == Ok::<StoredHistoryView, ThreadErrorView>(history)
                }
                &&& self.threads.dom().contains(thread_id) && !hidden && (around.created)(
                    row.create_params_json,
                ) is Value && (row.metadata_patch_json matches Some(json) ==> (around.patch)(json)
                    is Value) && !include_history ==> r is Ok
            }),
    {
    }

    /// Archiving a thread, taking it out again and changing it note just that, and that it was
    /// updated now; its items and its creation stay, and so does every other thread.
    pub proof fn changed_thread_keeps_the_rest(
        self,
        thread_id: Seq<char>,
        archived_at_ms: Option<i64>,
        metadata_patch_json: Seq<char>,
        now_ms: i64,
        other: Seq<char>,
    )
        requires
            self.threads.dom().contains(thread_id),
        ensures
            ({
                let archived = self.with_archived(thread_id, archived_at_ms, now_ms);
                let changed = self.with_patch(thread_id, metadata_patch_json, now_ms);
                let row = self.threads[thread_id];
                &&& archived.threads[thread_id].archived_at_ms == archived_at_ms
                &&& archived.threads[thread_id].updated_at_ms == now_ms
                &&& archived.threads[thread_id].created_at_ms == row.created_at_ms
                &&& archived.threads[thread_id].create_params_json == row.create_params_json
                &&& archived.threads[thread_id].metadata_patch_json == row.metadata_patch_json
                &&& archived.items == self.items
                &&& changed.threads[thread_id].metadata_patch_json == Some(metadata_patch_json)
                &&& changed.threads[thread_id].updated_at_ms == now_ms
                &&& changed.threads[thread_id].archived_at_ms == row.archived_at_ms
                &&& changed.threads[thread_id].created_at_ms == row.created_at_ms
                &&& changed.threads[thread_id].create_params_json == row.create_params_json
                &&& changed.items == self.items
                &&& other != thread_id ==> archived.threads[other] == self.threads[other]
                    && changed.threads[other] == self.threads[other]
                &&& archived.threads.dom() == self.threads.dom()
                &&& changed.threads.dom() == self.threads.dom()
            }),
    {
        assert(self.with_archived(thread_id, archived_at_ms, now_ms).threads.dom()
            =~= self.threads.dom());
        assert(self.with_patch(thread_id, metadata_patch_json, now_ms).threads.dom()
            =~= self.threads.dom());
    }
}

impl Surroundings {
    /// Items are read in their order, each as it stands, if all of them can be.
    proof fn reading_is_in_order(self, items: Seq<ItemEntry>)
        ensures
            ({
                let texts = items.map_values(|item: ItemEntry| item.item_json);
                match self.reads(texts) {
                    Ok(read) => read.len() == items.len() && forall|i: int|
                        0 <= i < items.len() ==> (self.item)((#[trigger] items[i]).item_json)
                            == ParsedView::Value(read[i]),
                    Err(error) => exists|i: int|
                        0 <= i < items.len() && (self.item)((#[trigger] items[i]).item_json)
                            is Invalid,
                }
            }),
        decreases items.len(),
    {
        let texts = items.map_values(|item: ItemEntry| item.item_json);
        if items.len() > 0 {
            let fewer = items.drop_last();
            self.reading_is_in_order(fewer);
            assert(self.items(texts).drop_last() =~= self.items(
                fewer.map_values(|item: ItemEntry| item.item_json),
            ));
            assert(self.items(texts).last() == (self.item)(items.last().item_json));
            if self.reads(texts) is Err {
                if self.reads(fewer.map_values(|item: ItemEntry| item.item_json)) is Err {
                    let i = choose|i: int|
                        0 <= i < fewer.len() && (self.item)((#[trigger] fewer[i]).item_json)
                            is Invalid;
                    assert(items[i] == fewer[i]);
                } else {
                    assert((self.item)(items[items.len() - 1].item_json) is Invalid);
                }
            } else {
                assert forall|i: int| 0 <= i < items.len() implies (self.item)(
                    (#[trigger] items[i]).item_json,
                ) == ParsedView::Value(self.reads(texts)->Ok_0[i]) by {
                    if i < fewer.len() {
                        assert(fewer[i] == items[i]);
                    }
                }
            }
        }
    }
}

/// What is done in a transaction stays once it is committed; until then it leaves nothing.
/// Outside of a transaction each statement stays.
pub proof fn transactions_stay_when_committed(
    tables: ThreadTables,
    around: Surroundings,
    statement: ThreadStatementView,
    n: nat,
)
    requires
        !(statement is Begin),
        !(statement is Commit),
    ensures
        ({
            let alone = ThreadDatabase::of(tables).execute(around, statement, n).0;
            let begun = ThreadDatabase::of(tables).execute(
                around,
                ThreadStatementView::Begin,
                n,
            ).0;
            let done = begun.execute(around, statement, n).0;
            let kept = done.execute(around, ThreadStatementView::Commit, n).0.closed();
            &&& kept == alone.closed()
            &&& kept == tables.execute(around, statement, n).0
            &&& done.closed() == tables
        }),
{
}

} // verus!
