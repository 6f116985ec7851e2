//! What reading from the database comes to.
use vstd::prelude::*;

use crate::model::{page, StoreModel};
use crate::mysql::appends::list_thread_items_steps;
use crate::mysql::events::{event_page_of, list_request_events_steps};
use crate::mysql::leases::{held_lease, read_thread_writer_lease_steps};
use crate::mysql::requests::{
    caller_can_access_thread_steps, read_request_by_turn_id_steps, read_request_steps,
    set_request_turn_id_steps,
};
use crate::mysql::statements::ReplyView;
use crate::mysql::tables::{first, Database, OwnerEntry, Tables};
use crate::protocol::append::ThreadItemView;
use crate::protocol::request::WriterLeaseView;
use crate::records::{ErrorView, EventView, EventsPageView, RequestView};

verus! {

/// A page that is cut from one row more than it may have is the page that is cut from all
/// rows.
proof fn one_more_is_enough<T>(rows: Seq<T>, limit: nat, position: spec_fn(T) -> u64)
    requires
        limit < u64::MAX,
    ensures
        page(first(rows, (limit + 1) as u64), limit, position) == page(rows, limit, position),
{
    let some = first(rows, (limit + 1) as u64);
    if rows.len() > limit {
        assert(some.take(limit as int) =~= rows.take(limit as int));
    }
}

impl Tables {
    /// The answer to reading a request.
    pub open spec fn read_request(self, id: Seq<char>) -> Result<RequestView, ErrorView> {
        if self.requests.dom().contains(id) {
            Ok(self.requests[id])
        } else {
            Err(ErrorView::RequestNotFound)
        }
    }

    /// Reading a request changes nothing.
    pub proof fn read_request_carried_out(self, id: Seq<char>)
        ensures
            self.carry_out(|h: Seq<ReplyView>| read_request_steps(id, h), 1) == Some(
                (self, self.read_request(id)),
            ),
    {
        reveal_with_fuel(Database::run, 2);
        if self.requests.dom().contains(id) {
            self.requests[id].row_reads_back();
        }
    }

    /// The tables after the turn of a request was noted.
    pub open spec fn with_turn(self, id: Seq<char>, turn_id: Seq<char>) -> Tables {
        Tables {
            requests: self.requests.insert(
                id,
                RequestView { turn_id: Some(turn_id), ..self.requests[id] },
            ),
            owners: if self.owners.dom().contains(id) {
                self.owners.insert(
                    id,
                    OwnerEntry { turn_id: Some(turn_id), ..self.owners[id] },
                )
            } else {
                self.owners
            },
            ..self
        }
    }

    /// Noting the turn of a request notes it with the request and with its owner lease.
    pub proof fn set_turn_carried_out(self, id: Seq<char>, turn_id: Seq<char>, now_ms: i64)
        ensures
            self.carry_out(
                |h: Seq<ReplyView>| set_request_turn_id_steps(id, turn_id, now_ms, h),
                3,
            ) == Some(
                if self.requests.dom().contains(id) {
                    let after = self.with_turn(id, turn_id);
                    (after, Ok::<RequestView, ErrorView>(after.requests[id]))
                } else {
                    (self, Err(ErrorView::RequestNotFound))
                },
            ),
    {
        reveal_with_fuel(Database::run, 4);
        if self.requests.dom().contains(id) {
            let noted = RequestView { turn_id: Some(turn_id), ..self.requests[id] };
            noted.row_reads_back();
        }
    }

    /// A turn that was noted for a request leads to a request that runs in it.
    pub proof fn turn_finds_a_request(self, id: Seq<char>, turn_id: Seq<char>)
        requires
            self.requests.dom().contains(id),
        ensures
            ({
                let after = self.with_turn(id, turn_id);
                after.carry_out(
                    |h: Seq<ReplyView>| read_request_by_turn_id_steps(turn_id, h),
                    1,
                ) matches Some((tables, Ok(request))) && tables == after && request.turn_id == Some(
                    turn_id,
                )
            }),
    {
        reveal_with_fuel(Database::run, 2);
        let after = self.with_turn(id, turn_id);
        assert(after.in_turn(id, turn_id));
        let found = choose|x: Seq<char>| after.in_turn(x, turn_id);
        after.requests[found].row_reads_back();
    }

    /// A caller has access to a thread if a request of the caller is on it.
    pub proof fn access_carried_out(self, caller_id: Seq<char>, thread_id: Seq<char>)
        ensures
            self.carry_out(
                |h: Seq<ReplyView>| caller_can_access_thread_steps(caller_id, thread_id, h),
                1,
            ) == Some((self, Ok::<bool, ErrorView>(self.has_access(caller_id, thread_id)))),
    {
        reveal_with_fuel(Database::run, 2);
    }

    /// A request reads the lease under which it writes as long as it has not expired.
    pub proof fn held_lease_is_read(self, id: Seq<char>, now_ms: i64)
        requires
            self.wf(),
            self.requests.dom().contains(id),
        ensures
            ({
                let thread_id = self.requests[id].thread_id;
                self.carry_out(
                    |h: Seq<ReplyView>| read_thread_writer_lease_steps(id, now_ms, h),
                    2,
                ) == Some(
                    (
                        self,
                        Ok::<Option<WriterLeaseView>, ErrorView>(
                            if self.lease_active(thread_id, id, now_ms) {
                                held_lease(Some(self.leases[thread_id].row))
                            } else {
                                None
                            },
                        ),
                    ),
                )
            }),
    {
        reveal_with_fuel(Database::run, 3);
        self.requests[id].row_reads_back();
        let thread_id = self.requests[id].thread_id;
        assert forall|t: Seq<char>| #[trigger] self.lease_active(t, id, now_ms) implies t
            == thread_id by {
            assert(self.lease_ok(t));
        }
    }

    /// The items of a thread after a cursor.
    pub open spec fn items_after(self, thread_id: Seq<char>, cursor: Option<u64>) -> Seq<
        ThreadItemView,
    > {
        self.items_of(thread_id).filter(
            |item: ThreadItemView| item.sequence > StoreModel::start(cursor),
        )
    }

    /// Listing items answers with a page of those after the cursor.
    pub proof fn list_items_carried_out(
        self,
        thread_id: Seq<char>,
        cursor: Option<u64>,
        limit: nat,
    )
        requires
            limit < u64::MAX,
        ensures
            self.carry_out(
                |h: Seq<ReplyView>| list_thread_items_steps(thread_id, cursor, limit, h),
                1,
            ) == Some(
                (
                    self,
                    Ok::<(Seq<ThreadItemView>, Option<u64>), ErrorView>(
                        page(
                            self.items_after(thread_id, cursor),
                            limit,
                            |item: ThreadItemView| item.sequence,
                        ),
                    ),
                ),
            ),
    {
        reveal_with_fuel(Database::run, 2);
        let position = |item: ThreadItemView| item.sequence;
        one_more_is_enough(self.items_after(thread_id, cursor), limit, position);
    }

    /// The events of a request after a cursor.
    pub open spec fn events_after(self, id: Seq<char>, cursor: Option<u64>) -> Seq<EventView> {
        self.events_of(id).filter(|event: EventView| event.sequence > StoreModel::start(cursor))
    }

    /// Listing events answers with a page of those after the cursor.
    pub proof fn list_events_carried_out(self, id: Seq<char>, cursor: Option<u64>, limit: nat)
        requires
            limit < u64::MAX,
        ensures
            self.carry_out(
                |h: Seq<ReplyView>| list_request_events_steps(id, cursor, limit, h),
                2,
            ) == Some(
                (
                    self,
                    if self.requests.dom().contains(id) {
                        Ok::<EventsPageView, ErrorView>(
                            event_page_of(self.events_after(id, cursor), limit),
                        )
                    } else {
                        Err(ErrorView::RequestNotFound)
                    },
                ),
            ),
    {
        reveal_with_fuel(Database::run, 3);
        if self.requests.dom().contains(id) {
            self.requests[id].row_reads_back();
        }
        let position = |event: EventView| event.sequence;
        one_more_is_enough(self.events_after(id, cursor), limit, position);
    }
}

} // verus!
