//! What adding events and keeping contexts comes to on the tables of the database.
use vstd::prelude::*;

use crate::mysql::context::{
    persist_config_snapshot_steps, read_config_snapshot_steps, read_state_metadata_steps,
    upsert_state_metadata_steps,
};
use crate::mysql::events::{
    append_request_event_if_latest_cursor_steps, append_request_event_steps, recorded_event,
};
use crate::mysql::statements::ReplyView;
use crate::mysql::tables::{Database, Tables};
use crate::records::{
    ConfigSnapshotView, ErrorView, EventAppendView, EventView, StateMetadataView,
};

verus! {

impl Tables {
    /// The number of the next event of request `id`.
    pub open spec fn next_sequence(self, id: Seq<char>) -> u64 {
        (self.requests[id].latest_event_cursor + 1) as u64
    }

    /// An event as it is kept.
    pub open spec fn kept_event(self, event: EventAppendView) -> EventView {
        EventView {
            payload_inline: (self.given_back)(event.payload_inline),
            ..recorded_event(event, self.next_sequence(event.request_id))
        }
    }

    /// The tables with one more event on a request.
    pub open spec fn with_event(self, event: EventAppendView) -> Tables {
        let id = event.request_id;
        let advanced = self.advanced(id);
        Tables {
            events: self.events.insert(
                id,
                self.events_of(id).push(self.kept_event(event)),
            ),
            ..advanced
        }
    }

    /// Adding an event to a request.
    pub open spec fn append_event(self, event: EventAppendView) -> (
        Tables,
        Result<EventView, ErrorView>,
    ) {
        if !crate::json::json_valid(event.payload_inline) {
            (self, Err(ErrorView::InvalidEventPayload))
        } else if !self.requests.dom().contains(event.request_id) {
            (self, Err(ErrorView::RequestNotFound))
        } else {
            (
                self.with_event(event),
                Ok(recorded_event(event, self.next_sequence(event.request_id))),
            )
        }
    }

    /// Adding an event to a request whose latest event is the expected one.
    pub open spec fn append_event_if(self, event: EventAppendView, expected: u64) -> (
        Tables,
        Result<Option<EventView>, ErrorView>,
    ) {
        if !crate::json::json_valid(event.payload_inline) {
            (self, Err(ErrorView::InvalidEventPayload))
        } else if !self.requests.dom().contains(event.request_id) {
            (self, Err(ErrorView::RequestNotFound))
        } else if self.requests[event.request_id].latest_event_cursor != expected {
            (self, Ok(None))
        } else {
            (
                self.with_event(event),
                Ok(Some(recorded_event(event, self.next_sequence(event.request_id)))),
            )
        }
    }

    /// Adding an event comes to what it should on the tables.
    pub proof fn append_event_carried_out(self, event: EventAppendView, now_ms: i64)
        requires
            self.requests.dom().contains(event.request_id) ==> self.events_counted(
                event.request_id,
            ),
        ensures
            self.carry_out(
                |h: Seq<ReplyView>| append_request_event_steps(event, now_ms, h),
                5,
            ) == Some(self.append_event(event)),
    {
        reveal_with_fuel(Database::run, 7);
    }

    /// Adding an event at an expected cursor comes to what it should on the tables.
    pub proof fn append_event_if_carried_out(
        self,
        event: EventAppendView,
        expected: u64,
        now_ms: i64,
    )
        requires
            self.requests.dom().contains(event.request_id) ==> self.events_counted(
                event.request_id,
            ),
        ensures
            self.carry_out(
                |h: Seq<ReplyView>|
                    append_request_event_if_latest_cursor_steps(event, expected, now_ms, h),
                4,
            ) == Some(self.append_event_if(event, expected)),
    {
        reveal_with_fuel(Database::run, 6);
        if self.requests.dom().contains(event.request_id) {
            self.requests[event.request_id].row_reads_back();
        }
    }

    /// What was kept as the configuration of a request is read as the database gives it back.
    pub proof fn config_reads_back(self, record: ConfigSnapshotView, now_ms: i64)
        requires
            self.requests.dom().contains(record.request_id),
            self.requests[record.request_id].thread_id == record.thread_id,
        ensures
            crate::json::json_valid(record.config_json) ==> {
                let kept = self.carry_out(
                    |h: Seq<ReplyView>| persist_config_snapshot_steps(record, now_ms, h),
                    2,
                );
                kept matches Some((tables, r)) && r == Ok::<(), ErrorView>(())
                    && tables.carry_out(
                    |h: Seq<ReplyView>| read_config_snapshot_steps(record.request_id, h),
                    2,
                ) == Some(
                    (
                        tables,
                        Ok::<ConfigSnapshotView, ErrorView>(
                            (ConfigSnapshotView {
                                config_json: (self.given_back)(record.config_json),
                                ..record
                            }),
                        ),
                    ),
                )
            },
    {
        reveal_with_fuel(Database::run, 4);
        self.requests[record.request_id].row_reads_back();
    }

    /// What was kept as metadata of a thread is read as the database gives it back.
    pub proof fn metadata_reads_back(self, record: StateMetadataView, now_ms: i64)
        ensures
            crate::json::json_valid(record.payload_json) ==> {
                let kept = self.carry_out(
                    |h: Seq<ReplyView>| upsert_state_metadata_steps(record, now_ms, h),
                    1,
                );
                kept matches Some((tables, r)) && r == Ok::<(), ErrorView>(())
                    && tables.carry_out(
                    |h: Seq<ReplyView>| read_state_metadata_steps(record.thread_id, record.kind, h),
                    1,
                ) == Some(
                    (
                        tables,
                        Ok::<StateMetadataView, ErrorView>(
                            (StateMetadataView {
                                payload_json: (self.given_back)(record.payload_json),
                                ..record
                            }),
                        ),
                    ),
                )
            },
    {
        reveal_with_fuel(Database::run, 3);
    }
}

} // verus!
