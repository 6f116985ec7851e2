//! Reading a numbered list page by page.
use vstd::prelude::*;

use crate::invariants::{events_numbered, items_numbered};
use crate::model::StoreModel;
use crate::protocol::append::ThreadItemView;
use crate::records::EventView;

verus! {

/// How many of `len` entries numbered from one stand at or before a cursor.
pub open spec fn passed(cursor: Option<u64>, len: nat) -> nat {
    if StoreModel::start(cursor) < len {
        StoreModel::start(cursor) as nat
    } else {
        len
    }
}

/// Of entries numbered from one, those after a position are the rest of the list.
pub proof fn rest_after<T>(list: Seq<T>, keep: spec_fn(T) -> bool, after: nat)
    requires
        after <= list.len(),
        forall|i: int| 0 <= i < list.len() ==> keep(#[trigger] list[i]) == (i >= after),
    ensures
        list.filter(keep) == list.skip(after as int),
    decreases list.len(),
{
    reveal(Seq::filter);
    if list.len() > 0 {
        let front = list.drop_last();
        assert forall|i: int| 0 <= i < front.len() implies keep(#[trigger] front[i]) == (i
            >= after) by {
            assert(front[i] == list[i]);
        }
        if after == list.len() {
            rest_after(front, keep, (after - 1) as nat);
            assert(list.skip(after as int) =~= front.skip(after - 1));
        } else {
            rest_after(front, keep, after);
            assert(list.skip(after as int) =~= front.skip(after as int).push(list.last()));
        }
    }
}

impl StoreModel {
    /// The items after a cursor are the rest of the thread.
    pub proof fn items_after_are_the_rest(self, thread_id: Seq<char>, cursor: Option<u64>)
        requires
            self.items_ok(),
        ensures
            self.items_after(thread_id, cursor) == self.items_of(thread_id).skip(
                passed(cursor, self.version(thread_id)) as int,
            ),
    {
        let items = self.items_of(thread_id);
        assert(items_numbered(thread_id, items));
        rest_after(
            items,
            |item: ThreadItemView| item.sequence > StoreModel::start(cursor),
            passed(cursor, items.len()),
        );
    }

    /// The events after a cursor are the rest of the request's events.
    pub proof fn events_after_are_the_rest(self, id: Seq<char>, cursor: Option<u64>)
        requires
            self.events_ok(),
        ensures
            self.events_after(id, cursor) == self.events_of(id).skip(
                passed(cursor, self.events_of(id).len()) as int,
            ),
    {
        let events = self.events_of(id);
        assert(events_numbered(id, events));
        rest_after(
            events,
            |event: EventView| event.sequence > StoreModel::start(cursor),
            passed(cursor, events.len()),
        );
    }
}

/// A page, the rest after it, and the cursor between them: where there is a cursor, the
/// entries after it are those that the page left out; where there is none, the page left
/// nothing out.
pub open spec fn page_joins<T>(
    rest: Seq<T>,
    data: Seq<T>,
    next_cursor: Option<u64>,
    after_page: Seq<T>,
    limit: nat,
) -> bool {
    &&& data.len() <= limit
    &&& next_cursor is Some ==> data + after_page == rest && data.len() == limit
    &&& next_cursor is None ==> data == rest
}

/// What is read of a list in at most `count` pages, one after the other, from a cursor on. Each
/// page is read at the cursor that the one before it gave; one without a cursor is the last.
pub open spec fn read_pages<T>(
    list: spec_fn(Option<u64>) -> (Seq<T>, Option<u64>),
    cursor: Option<u64>,
    count: nat,
) -> Seq<T>
    decreases count,
{
    if count == 0 {
        Seq::empty()
    } else {
        let (data, next_cursor) = list(cursor);
        match next_cursor {
            None => data,
            Some(_) => data + read_pages(list, next_cursor, (count - 1) as nat),
        }
    }
}

/// Pages that join give the whole rest of the list.
pub proof fn joined_pages_give_the_rest<T>(
    list: spec_fn(Option<u64>) -> (Seq<T>, Option<u64>),
    rest: spec_fn(Option<u64>) -> Seq<T>,
    limit: nat,
    cursor: Option<u64>,
    count: nat,
)
    requires
        limit > 0,
        forall|c: Option<u64>|
            page_joins(rest(c), (#[trigger] list(c)).0, list(c).1, rest(list(c).1), limit),
        count >= rest(cursor).len(),
    ensures
        read_pages(list, cursor, count) == rest(cursor),
    decreases count,
{
    if count > 0 {
        let (data, next_cursor) = list(cursor);
        assert(page_joins(rest(cursor), data, next_cursor, rest(next_cursor), limit));
        if next_cursor is Some {
            joined_pages_give_the_rest(list, rest, limit, next_cursor, (count - 1) as nat);
        }
    }
}

impl StoreModel {
    /// A page of items and what comes after it are the items that were left to read.
    pub proof fn item_pages_join(self, thread_id: Seq<char>, cursor: Option<u64>, limit: nat)
        requires
            self.items_ok(),
            limit > 0,
        ensures
            ({
                let (data, next_cursor) = self.list_thread_items(thread_id, cursor, limit);
                page_joins(
                    self.items_after(thread_id, cursor),
                    data,
                    next_cursor,
                    self.items_after(thread_id, next_cursor),
                    limit,
                )
            }),
    {
        let items = self.items_of(thread_id);
        let rest = self.items_after(thread_id, cursor);
        let (data, next_cursor) = self.list_thread_items(thread_id, cursor, limit);
        assert(items_numbered(thread_id, items));
        self.items_after_are_the_rest(thread_id, cursor);
        self.items_after_are_the_rest(thread_id, next_cursor);
        if next_cursor is Some {
            let passed_before = passed(cursor, items.len());
            assert(rest[limit - 1] == items[passed_before + limit - 1]);
            assert(data + self.items_after(thread_id, next_cursor) =~= rest);
        }
    }

    /// A page of events and what comes after it are the events that were left to read.
    pub proof fn event_pages_join(self, id: Seq<char>, cursor: Option<u64>, limit: nat)
        requires
            self.events_ok(),
            self.requests.dom().contains(id),
            limit > 0,
        ensures
            self.list_request_events(id, cursor, limit) matches Ok(page) && page_joins(
                self.events_after(id, cursor),
                page.data,
                page.next_cursor,
                self.events_after(id, page.next_cursor),
                limit,
            ),
    {
        let events = self.events_of(id);
        let rest = self.events_after(id, cursor);
        let page = self.list_request_events(id, cursor, limit)->Ok_0;
        assert(events_numbered(id, events));
        self.events_after_are_the_rest(id, cursor);
        self.events_after_are_the_rest(id, page.next_cursor);
        if page.next_cursor is Some {
            let passed_before = passed(cursor, events.len());
            assert(rest[limit - 1] == events[passed_before + limit - 1]);
            assert(page.data + self.events_after(id, page.next_cursor) =~= rest);
        }
    }

    /// Reading from the beginning starts with everything.
    pub proof fn reading_starts_with_everything(self, id: Seq<char>)
        requires
            self.items_ok(),
            self.events_ok(),
        ensures
            self.items_after(id, None) == self.items_of(id),
            self.events_after(id, None) == self.events_of(id),
    {
        self.items_after_are_the_rest(id, None);
        self.events_after_are_the_rest(id, None);
        assert(self.items_of(id).skip(0) =~= self.items_of(id));
        assert(self.events_of(id).skip(0) =~= self.events_of(id));
    }

    /// Reading the items of a thread page by page from the start gives every item once, in
    /// order.
    pub proof fn item_pages_give_all_items(self, thread_id: Seq<char>, limit: nat, count: nat)
        requires
            self.items_ok(),
            self.events_ok(),
            limit > 0,
            count >= self.items_of(thread_id).len(),
        ensures
            read_pages(
                |cursor: Option<u64>| self.list_thread_items(thread_id, cursor, limit),
                None,
                count,
            ) == self.items_of(thread_id),
    {
        let list = |cursor: Option<u64>| self.list_thread_items(thread_id, cursor, limit);
        let rest = |cursor: Option<u64>| self.items_after(thread_id, cursor);
        assert forall|c: Option<u64>|
            page_joins(rest(c), (#[trigger] list(c)).0, list(c).1, rest(list(c).1), limit) by {
            self.item_pages_join(thread_id, c, limit);
        }
        self.reading_starts_with_everything(thread_id);
        joined_pages_give_the_rest(list, rest, limit, None, count);
    }

    /// A page of the events of a request.
    pub open spec fn event_page(self, id: Seq<char>, cursor: Option<u64>, limit: nat) -> (
        Seq<EventView>,
        Option<u64>,
    ) {
        let page = self.list_request_events(id, cursor, limit)->Ok_0;
        (page.data, page.next_cursor)
    }

    /// Reading the events of a request page by page from the start gives every event once, in
    /// order.
    pub proof fn event_pages_give_all_events(self, id: Seq<char>, limit: nat, count: nat)
        requires
            self.items_ok(),
            self.events_ok(),
            self.requests.dom().contains(id),
            limit > 0,
            count >= self.events_of(id).len(),
        ensures
            forall|cursor: Option<u64>| #[trigger]
                self.list_request_events(id, cursor, limit) is Ok,
            read_pages(
                |cursor: Option<u64>| self.event_page(id, cursor, limit),
                None,
                count,
            ) == self.events_of(id),
    {
        let list = |cursor: Option<u64>| self.event_page(id, cursor, limit);
        let rest = |cursor: Option<u64>| self.events_after(id, cursor);
        assert forall|c: Option<u64>|
            page_joins(rest(c), (#[trigger] list(c)).0, list(c).1, rest(list(c).1), limit) by {
            self.event_pages_join(id, c, limit);
        }
        self.reading_starts_with_everything(id);
        joined_pages_give_the_rest(list, rest, limit, None, count);
    }
}

} // verus!
