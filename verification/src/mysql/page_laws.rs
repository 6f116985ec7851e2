//! Reading the items and events in the database page by page.
use vstd::prelude::*;

use crate::model::{page, StoreModel};
use crate::mysql::events::event_page_of;
use crate::mysql::tables::Tables;
use crate::pages::{joined_pages_give_the_rest, page_joins, passed, read_pages, rest_after};
use crate::protocol::append::ThreadItemView;
use crate::records::EventView;

verus! {

/// Of entries numbered from one, a page and what comes after it are the entries that were
/// left to read.
proof fn numbered_pages_join<T>(
    list: Seq<T>,
    number: spec_fn(T) -> u64,
    rest: spec_fn(Option<u64>) -> Seq<T>,
    cursor: Option<u64>,
    limit: nat,
)
    requires
        limit > 0,
        list.len() <= u64::MAX,
        forall|i: int| 0 <= i < list.len() ==> number(#[trigger] list[i]) == i + 1,
        forall|c: Option<u64>| #[trigger]
            rest(c) == list.skip(passed(c, list.len()) as int),
    ensures
        ({
            let (data, next_cursor) = page(rest(cursor), limit, number);
            page_joins(rest(cursor), data, next_cursor, rest(next_cursor), limit)
        }),
{
    let (data, next_cursor) = page(rest(cursor), limit, number);
    if next_cursor is Some {
        let before = passed(cursor, list.len());
        assert(rest(cursor)[limit - 1] == list[before + limit - 1]);
        assert(data + rest(next_cursor) =~= rest(cursor));
    }
}

impl Tables {
    /// A page of the items of a thread.
    pub open spec fn item_page(self, thread_id: Seq<char>, cursor: Option<u64>, limit: nat) -> (
        Seq<ThreadItemView>,
        Option<u64>,
    ) {
        page(
            self.items_after(thread_id, cursor),
            limit,
            |item: ThreadItemView| item.sequence,
        )
    }

    /// A page of the events of a request.
    pub open spec fn event_page(self, id: Seq<char>, cursor: Option<u64>, limit: nat) -> (
        Seq<EventView>,
        Option<u64>,
    ) {
        let page = event_page_of(self.events_after(id, cursor), limit);
        (page.data, page.next_cursor)
    }

    /// Reading the items of a thread page by page from the start gives every item once, in
    /// order.
    pub proof fn item_pages_give_all_items(self, thread_id: Seq<char>, limit: nat, count: nat)
        requires
            self.wf(),
            limit > 0,
            count >= self.items_of(thread_id).len(),
        ensures
            read_pages(
                |cursor: Option<u64>| self.item_page(thread_id, cursor, limit),
                None,
                count,
            ) == self.items_of(thread_id),
    {
        let items = self.items_of(thread_id);
        let number = |item: ThreadItemView| item.sequence;
        let list = |cursor: Option<u64>| self.item_page(thread_id, cursor, limit);
        let rest = |cursor: Option<u64>| self.items_after(thread_id, cursor);
        assert(self.items_ok(thread_id));
        assert forall|c: Option<u64>| #[trigger] rest(c) == items.skip(
            passed(c, items.len()) as int,
        ) by {
            rest_after(
                items,
                |item: ThreadItemView| item.sequence > StoreModel::start(c),
                passed(c, items.len()),
            );
        }
        assert forall|c: Option<u64>|
            page_joins(rest(c), (#[trigger] list(c)).0, list(c).1, rest(list(c).1), limit) by {
            numbered_pages_join(items, number, rest, c, limit);
        }
        assert(rest(None) =~= items);
        joined_pages_give_the_rest(list, rest, limit, None, count);
    }

    /// Reading the events of a request page by page from the start gives every event once, in
    /// order.
    pub proof fn event_pages_give_all_events(self, id: Seq<char>, limit: nat, count: nat)
        requires
            self.wf(),
            self.requests.dom().contains(id),
            limit > 0,
            count >= self.events_of(id).len(),
        ensures
            read_pages(
                |cursor: Option<u64>| self.event_page(id, cursor, limit),
                None,
                count,
            ) == self.events_of(id),
    {
        let events = self.events_of(id);
        let number = |event: EventView| event.sequence;
        let list = |cursor: Option<u64>| self.event_page(id, cursor, limit);
        let rest = |cursor: Option<u64>| self.events_after(id, cursor);
        assert(self.events_ok(id));
        assert forall|c: Option<u64>| #[trigger] rest(c) == events.skip(
            passed(c, events.len()) as int,
        ) by {
            rest_after(
                events,
                |event: EventView| event.sequence > StoreModel::start(c),
                passed(c, events.len()),
            );
        }
        assert forall|c: Option<u64>|
            page_joins(rest(c), (#[trigger] list(c)).0, list(c).1, rest(list(c).1), limit) by {
            numbered_pages_join(events, number, rest, c, limit);
        }
        assert(rest(None) =~= events);
        joined_pages_give_the_rest(list, rest, limit, None, count);
    }
}

} // verus!
