//! What holds of a store of threads.
use vstd::prelude::*;

use crate::mysql::tables::Tables;
use crate::protocol::RequestStatus;
use crate::threads::errors::ThreadErrorView;
use crate::threads::operations::{
    list_threads_steps, listed_id, number_or_zero, read_listed_steps, read_row_steps,
};
use crate::threads::outcomes::numbered_items;
use crate::threads::records::{StoredHistoryView, StoredThreadView};
use crate::threads::statements::{
    read_items, ListedThreadView, ParsedView, ThreadProgressView, ThreadReplyView, ThreadStepView,
};
use crate::threads::tables::{Surroundings, ThreadTables};
use crate::threads::turn_ids::turns_of;

verus! {

impl Surroundings {
    /// What stands one after the other is read one after the other.
    proof fn reads_joined(self, items: Seq<Seq<char>>, more: Seq<Seq<char>>)
        requires
            self.reads(items) is Ok,
            self.reads(more) is Ok,
        ensures
            self.reads(items + more) == Ok::<Seq<Seq<char>>, ThreadErrorView>(
                self.reads(items)->Ok_0 + self.reads(more)->Ok_0,
            ),
        decreases more.len(),
    {
        if more.len() == 0 {
            assert(items + more =~= items);
            assert(self.reads(items)->Ok_0 + self.reads(more)->Ok_0 =~= self.reads(items)->Ok_0);
        } else {
            let fewer = more.drop_last();
            assert(self.items(more).drop_last() =~= self.items(fewer));
            assert(self.items(items + more).drop_last() =~= self.items(items + fewer));
            assert(self.items(items + more).last() == self.items(more).last());
            self.reads_joined(items, fewer);
            assert(read_items(self.items(more)) is Ok);
            assert(self.reads(items)->Ok_0 + self.reads(more)->Ok_0 =~= (self.reads(items)->Ok_0
                + self.reads(fewer)->Ok_0).push(self.reads(more)->Ok_0.last()));
        }
    }
}

impl ThreadTables {
    /// Recorded items stand after those that a thread had, and no other thread is touched.
    proof fn appended_history(self, thread_id: Seq<char>, items: Seq<Seq<char>>, other: Seq<char>)
        ensures
            self.appended(thread_id, items).history(thread_id) == self.history(thread_id) + items,
            other != thread_id ==> self.appended(thread_id, items).history(other) == self.history(
                other,
            ),
            self.appended(thread_id, items).threads == self.threads,
    {
        let after = self.appended(thread_id, items);
        let base = number_or_zero(self.last(thread_id));
        if items.len() > 0 {
            assert(after.items_of(thread_id) =~= self.items_of(thread_id) + numbered_items(
                base,
                items,
            ));
        }
        assert(after.history(thread_id) =~= self.history(thread_id) + items);
    }

    /// Whether the numbers of the items of a thread rise.
    pub open spec fn numbers_rise(self, thread_id: Seq<char>) -> bool {
        let items = self.items_of(thread_id);
        forall|i: int, j: int|
            0 <= i < j < items.len() ==> (#[trigger] items[i]).sequence < (
            #[trigger] items[j]).sequence
    }

    /// Recording items keeps the numbers of the items of every thread rising.
    pub proof fn appending_keeps_numbers_rising(
        self,
        thread_id: Seq<char>,
        items: Seq<Seq<char>>,
        any: Seq<char>,
    )
        requires
            self.numbers_rise(thread_id),
            self.numbers_rise(any),
            self.room_for(thread_id, items.len()),
        ensures
            self.appended(thread_id, items).numbers_rise(any),
    {
        let after = self.appended(thread_id, items);
        if any == thread_id && items.len() > 0 {
            let old_items = self.items_of(thread_id);
            let base = number_or_zero(self.last(thread_id));
            let new_items = numbered_items(base, items);
            assert(after.items_of(any) == old_items + new_items);
            assert forall|i: int, j: int| 0 <= i < j < (old_items + new_items).len() implies (
            #[trigger] (old_items + new_items)[i]).sequence < (
            #[trigger] (old_items + new_items)[j]).sequence by {
                if i < old_items.len() && j >= old_items.len() {
                    assert(old_items[i].sequence <= old_items.last().sequence);
                }
            }
        } else {
            assert(after.items_of(any) == self.items_of(any));
        }
    }

    /// What was appended to a thread is read after what it had: nothing is lost or put
    /// elsewhere.
    pub proof fn appended_items_read_back(
        self,
        around: Surroundings,
        thread_id: Seq<char>,
        items: Seq<Seq<char>>,
        other: Seq<char>,
    )
        requires
            around.reads(self.history(thread_id)) is Ok,
            around.reads(items) is Ok,
        ensures
            ({
                let (after, r) = self.append(around, thread_id, items);
                r is Ok ==> after.load(around, thread_id) == Ok::<
                    StoredHistoryView,
                    ThreadErrorView,
                >(
                    StoredHistoryView {
                        thread_id,
                        items: around.reads(self.history(thread_id))->Ok_0 + around.reads(
                            items,
                        )->Ok_0,
                    },
                ) && (other != thread_id ==> after.load(around, other) == self.load(around, other))
            }),
    {
        self.appended_history(thread_id, items, other);
        around.reads_joined(self.history(thread_id), items);
        let (after, r) = self.append(around, thread_id, items);
        if r is Ok {
            assert(after.history(thread_id) == self.appended(thread_id, items).history(thread_id));
            assert(after.history(other) == self.appended(thread_id, items).history(other));
        }
    }

    /// An append that is refused changes nothing.
    pub proof fn refused_append_changes_nothing(
        self,
        around: Surroundings,
        thread_id: Seq<char>,
        items: Seq<Seq<char>>,
    )
        ensures
            ({
                let (after, r) = self.append(around, thread_id, items);
                r is Err ==> after == self
            }),
    {
    }

    /// Items that name several turns are never appended.
    pub proof fn one_turn_at_a_time(
        self,
        around: Surroundings,
        thread_id: Seq<char>,
        items: Seq<Seq<char>>,
    )
        requires
            turns_of(items).len() > 1,
        ensures
            self.append(around, thread_id, items).1 is Err,
    {
    }

    /// Items of a turn are only appended while a request of the turn holds the writer lease
    /// of the thread.
    pub proof fn turn_needs_the_lease(
        self,
        around: Surroundings,
        thread_id: Seq<char>,
        items: Seq<Seq<char>>,
    )
        requires
            turns_of(items).len() == 1,
            self.append(around, thread_id, items).1 is Ok,
        ensures
            (around.active)(thread_id, turns_of(items)[0], (around.clock)(3)),
    {
    }

    /// A thread that was created has its first item after those that it had before, and is
    /// there.
    pub proof fn created_thread_reads_back(
        self,
        around: Surroundings,
        thread_id: Seq<char>,
        create_params_json: Seq<char>,
        session_meta_json: Seq<char>,
    )
        ensures
            ({
                let after = self.create(around, thread_id, create_params_json, session_meta_json);
                &&& after.has(thread_id)
                &&& around.reads(self.history(thread_id)) matches Ok(items) ==> (
                (around.item)(session_meta_json) matches ParsedView::Value(item) ==> after.load(
                    around,
                    thread_id,
                ) == Ok::<StoredHistoryView, ThreadErrorView>(
                    StoredHistoryView { thread_id, items: items.push(item) },
                ))
                &&& after.threads[thread_id].create_params_json == if self.has(thread_id) {
                    self.threads[thread_id].create_params_json
                } else {
                    create_params_json
                }
            }),
    {
        let upserted = self.upserted(thread_id, create_params_json, (around.clock)(2));
        upserted.appended_history(thread_id, seq![session_meta_json], thread_id);
        assert(upserted.history(thread_id) == self.history(thread_id));
        let read = around.items(self.history(thread_id) + seq![session_meta_json]);
        assert(read.drop_last() =~= around.items(self.history(thread_id)));
        assert(read.last() == (around.item)(session_meta_json));
    }

    /// A thread that is resumed with a history has that history, and no other one.
    pub proof fn resumed_history_reads_back(
        self,
        around: Surroundings,
        thread_id: Seq<char>,
        create_params_json: Seq<char>,
        items: Seq<Seq<char>>,
    )
        ensures
            ({
                let (after, r) = self.resume(around, thread_id, create_params_json, Some(items));
                &&& r is Ok
                &&& after.has(thread_id)
                &&& around.reads(items) matches Ok(read) ==> after.load(around, thread_id) == Ok::<
                    StoredHistoryView,
                    ThreadErrorView,
                >(StoredHistoryView { thread_id, items: read })
            }),
    {
        let known = if self.has(thread_id) {
            self
        } else {
            self.with_thread(
                thread_id,
                ThreadTables::new_thread(create_params_json, (around.clock)(3)),
            )
        };
        let emptied = known.with_items(thread_id, Seq::empty());
        emptied.appended_history(thread_id, items, thread_id);
        assert(emptied.history(thread_id) =~= Seq::<Seq<char>>::empty());
        assert(Seq::<Seq<char>>::empty() + items =~= items);
    }

    /// An archived thread is not found by those who do not ask for archived threads; taken
    /// out of the archive it is found again, as it was but for the time of its last update.
    pub proof fn archive_hides_and_returns(
        self,
        around: Surroundings,
        thread_id: Seq<char>,
        include_history: bool,
        cli_version: Seq<char>,
        archived_at_ms: i64,
        now_ms: i64,
        later_ms: i64,
    )
        requires
            self.has(thread_id),
            self.threads[thread_id].archived_at_ms is None,
        ensures
            ({
                let archived = self.with_archived(thread_id, Some(archived_at_ms), now_ms);
                let returned = archived.with_archived(thread_id, None, later_ms);
                &&& archived.read(around, thread_id, false, include_history, cli_version) == Err::<
                    StoredThreadView,
                    ThreadErrorView,
                >(ThreadErrorView::ThreadNotFound { thread_id })
                &&& returned.read(around, thread_id, false, include_history, cli_version)
                    == self.touched(thread_id, later_ms).read(
                    around,
                    thread_id,
                    false,
                    include_history,
                    cli_version,
                )
            }),
    {
        let archived = self.with_archived(thread_id, Some(archived_at_ms), now_ms);
        let returned = archived.with_archived(thread_id, None, later_ms);
        let touched = self.touched(thread_id, later_ms);
        assert(returned.threads[thread_id] =~= touched.threads[thread_id]);
        assert(returned.history(thread_id) =~= touched.history(thread_id));
    }
}

/// A thread that is listed is not archived, and comes without its items.
proof fn row_is_not_archived(
    thread_id: Seq<char>,
    cli_version: Seq<char>,
    h: Seq<ThreadReplyView>,
    at: int,
)
    ensures
        read_row_steps(thread_id, false, false, cli_version, h, at)
            matches ThreadProgressView::Ready(thread, _) ==> thread.archived_at is None
            && thread.history is None,
{
}

proof fn listed_rows_are_not_archived(
    listed: Seq<ListedThreadView>,
    from: int,
    read: Seq<StoredThreadView>,
    cli_version: Seq<char>,
    h: Seq<ThreadReplyView>,
    at: int,
)
    requires
        forall|i: int|
            0 <= i < read.len() ==> (#[trigger] read[i]).archived_at is None && read[i].history
                is None,
    ensures
        read_listed_steps(listed, from, read, cli_version, h, at)
            matches ThreadStepView::Done(Ok(page)) ==> forall|i: int|
            0 <= i < page.items.len() ==> (#[trigger] page.items[i]).archived_at is None
                && page.items[i].history is None,
    decreases listed.len() - from,
{
    if from < listed.len() {
        if let Ok(thread_id) = listed_id(listed[from]) {
            row_is_not_archived(thread_id, cli_version, h, at);
            if let ThreadProgressView::Ready(thread, used) = read_row_steps(
                thread_id,
                false,
                false,
                cli_version,
                h,
                at,
            ) {
                listed_rows_are_not_archived(
                    listed,
                    from + 1,
                    read.push(thread),
                    cli_version,
                    h,
                    used,
                );
            }
        }
    }
}

/// Archived threads are never listed, whatever the database answers; the listed ones come
/// without their items.
pub proof fn archived_threads_are_not_listed(
    page_size: u64,
    cli_version: Seq<char>,
    h: Seq<ThreadReplyView>,
)
    ensures
        list_threads_steps(page_size, cli_version, h) matches ThreadStepView::Done(Ok(page))
            ==> forall|i: int|
            0 <= i < page.items.len() ==> (#[trigger] page.items[i]).archived_at is None
                && page.items[i].history is None,
{
    if h.len() > 1 {
        if let Ok(listed) = h[1].threads() {
            listed_rows_are_not_archived(listed, 0, Seq::empty(), cli_version, h, 2);
        }
    }
}

impl Tables {
    /// Whether request `id` runs in a turn of a thread and holds the writer lease of the thread,
    /// neither released nor expired.
    pub open spec fn writes_in_turn(
        self,
        id: Seq<char>,
        thread_id: Seq<char>,
        turn_id: Seq<char>,
        now_ms: i64,
    ) -> bool {
        &&& self.requests.dom().contains(id)
        &&& self.requests[id].thread_id == thread_id
        &&& self.requests[id].turn_id == Some(turn_id)
        &&& self.requests[id].status == RequestStatus::Running
        &&& self.lease_active(thread_id, id, now_ms)
    }

    /// Whether a request that runs in a turn of a thread holds the writer lease of the thread.
    pub open spec fn turn_active(
        self,
        thread_id: Seq<char>,
        turn_id: Seq<char>,
        now_ms: i64,
    ) -> bool {
        exists|id: Seq<char>| self.writes_in_turn(id, thread_id, turn_id, now_ms)
    }

    /// At any moment at most one turn of a thread may append to it.
    pub proof fn one_turn_writes(
        self,
        thread_id: Seq<char>,
        a: Seq<char>,
        b: Seq<char>,
        now_ms: i64,
    )
        requires
            self.turn_active(thread_id, a, now_ms),
            self.turn_active(thread_id, b, now_ms),
        ensures
            a == b,
    {
        let x = choose|id: Seq<char>| self.writes_in_turn(id, thread_id, a, now_ms);
        let y = choose|id: Seq<char>| self.writes_in_turn(id, thread_id, b, now_ms);
        assert(self.leases[thread_id].row.request_id == x);
        assert(self.leases[thread_id].row.request_id == y);
    }

    /// Two appends that are accepted at the same moment, each of items of a turn, are of the
    /// same turn.
    pub proof fn accepted_appends_share_their_turn(
        self,
        threads: ThreadTables,
        around: Surroundings,
        thread_id: Seq<char>,
        items: Seq<Seq<char>>,
        other_items: Seq<Seq<char>>,
    )
        requires
            forall|thread: Seq<char>, turn: Seq<char>, now_ms: i64| #[trigger]
                (around.active)(thread, turn, now_ms) == self.turn_active(thread, turn, now_ms),
            turns_of(items).len() == 1,
            turns_of(other_items).len() == 1,
            threads.append(around, thread_id, items).1 is Ok,
            threads.append(around, thread_id, other_items).1 is Ok,
        ensures
            turns_of(items) == turns_of(other_items),
    {
        let now_ms = (around.clock)(3);
        let a = turns_of(items)[0];
        let b = turns_of(other_items)[0];
        threads.turn_needs_the_lease(around, thread_id, items);
        threads.turn_needs_the_lease(around, thread_id, other_items);
        assert((around.active)(thread_id, a, now_ms));
        assert((around.active)(thread_id, b, now_ms));
        self.one_turn_writes(thread_id, a, b, now_ms);
        assert(turns_of(items) =~= turns_of(other_items));
    }
}

} // verus!
