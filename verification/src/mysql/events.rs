//! Adding events to a request, and reading them.
use vstd::prelude::*;

use crate::json::validate_event_payload_inline;
use crate::model::StoreModel;
use crate::mysql::common::{start_of, valid_payload};
use crate::mysql::statements::{
    after, ask, Reply, ReplyView, Statement, StatementView, Step, StepView,
};
use crate::records::{
    CloudStateError, ErrorView, EventAppendParams, EventAppendView, EventRecord, EventView,
    EventsPage, EventsPageView, RequestView,
};

verus! {

/// The first `limit` of the events that were read, and the next cursor if there are more.
pub open spec fn event_page_of(rows: Seq<EventView>, limit: nat) -> EventsPageView {
    let (data, next_cursor) = crate::model::page(rows, limit, |event: EventView| event.sequence);
    EventsPageView { data, next_cursor }
}

fn event_page(rows: &Vec<EventRecord>, limit: usize) -> (r: EventsPage)
    ensures
        r.deep_view() == event_page_of(rows.deep_view(), limit as nat),
{
    let to: usize = if rows.len() > limit {
        limit
    } else {
        rows.len()
    };
    let mut data: Vec<EventRecord> = Vec::new();
    for i in 0..to
        invariant
            to <= rows@.len(),
            data.deep_view() == rows.deep_view().take(i as int),
    {
        let ghost so_far = data.deep_view();
        data.push(rows[i].clone());
        assert(data.deep_view() =~= so_far.push(rows@[i as int].deep_view()));
        assert(rows.deep_view().take(i + 1) =~= so_far.push(rows.deep_view()[i as int]));
    }
    let next_cursor: Option<u64> = if rows.len() > limit && limit > 0 {
        Some(rows[limit - 1].sequence)
    } else {
        None
    };
    assert(rows.deep_view().take(rows@.len() as int) =~= rows.deep_view());
    EventsPage { data, next_cursor }
}

/// An event as it is recorded.
pub open spec fn recorded_event(params: EventAppendView, sequence: u64) -> EventView {
    EventView {
        request_id: params.request_id,
        sequence,
        event_type: params.event_type,
        payload_inline: params.payload_inline,
    }
}

fn event_record(params: &EventAppendParams, sequence: u64) -> (r: EventRecord)
    ensures
        r.deep_view() == recorded_event(params.deep_view(), sequence),
{
    EventRecord {
        request_id: params.request_id.clone(),
        sequence,
        event_type: params.event_type.clone(),
        payload_inline: params.payload_inline.clone(),
    }
}

/// Adds an event to a request.
pub open spec fn append_request_event_steps(
    params: EventAppendView,
    now_ms: i64,
    h: Seq<ReplyView>,
) -> StepView<EventView> {
    match valid_payload(params.payload_inline) {
        Err(error) => StepView::Done(Err(error)),
        Ok(_) => ask(
            h,
            0,
            StatementView::Begin,
            |reply: ReplyView| reply.done(),
            |_done: ()|
                ask(
                    h,
                    1,
                    StatementView::AdvanceCursor {
                        request_id: params.request_id,
                        now_ms,
                    },
                    |reply: ReplyView| reply.affected(),
                    |changed: u64|
                        if changed == 0 {
                            StepView::Done(Err(ErrorView::RequestNotFound))
                        } else {
                            ask(
                                h,
                                2,
                                StatementView::SelectCursor {
                                    request_id: params.request_id,
                                },
                                |reply: ReplyView| reply.number(),
                                |sequence: u64|
                                    ask(
                                        h,
                                        3,
                                        StatementView::InsertEvent {
                                            request_id: params.request_id,
                                            sequence,
                                            event_type: params.event_type,
                                            payload_inline: params.payload_inline,
                                            now_ms,
                                        },
                                        |reply: ReplyView| reply.done(),
                                        |_done: ()|
                                            ask(
                                                h,
                                                4,
                                                StatementView::Commit,
                                                |reply: ReplyView| reply.done(),
                                                |_done: ()|
                                                    StepView::Done(
                                                        Ok(recorded_event(params, sequence)),
                                                    ),
                                            ),
                                    ),
                            )
                        },
                ),
        ),
    }
}

/// Adds an event to a request.
pub fn append_request_event(
    params: &EventAppendParams,
    now_ms: i64,
    replies: &Vec<Reply>,
) -> (r: Step<EventRecord>)
    ensures
        r.deep_view() == append_request_event_steps(
            params.deep_view(),
            now_ms,
            replies.deep_view(),
        ),
{
    if let Err(error) = validate_event_payload_inline(params.payload_inline.as_str()) {
        return Step::Done(Err(error));
    }
    if replies.len() <= 0 {
        return Step::Ask(Statement::Begin);
    }
    if let Err(error) = replies[0].done() {
        return Step::Done(Err(error));
    }
    if replies.len() <= 1 {
        return Step::Ask(Statement::AdvanceCursor {
            request_id: params.request_id.clone(),
            now_ms,
        });
    }
    let changed = match replies[1].affected() {
        Ok(changed) => changed,
        Err(error) => return Step::Done(Err(error)),
    };
    if changed == 0 {
        return Step::Done(Err(CloudStateError::RequestNotFound));
    }
    if replies.len() <= 2 {
        return Step::Ask(Statement::SelectCursor {
            request_id: params.request_id.clone(),
        });
    }
    let sequence = match replies[2].number() {
        Ok(sequence) => sequence,
        Err(error) => return Step::Done(Err(error)),
    };
    if replies.len() <= 3 {
        return Step::Ask(Statement::InsertEvent {
            request_id: params.request_id.clone(),
            sequence,
            event_type: params.event_type.clone(),
            payload_inline: params.payload_inline.clone(),
            now_ms,
        });
    }
    if let Err(error) = replies[3].done() {
        return Step::Done(Err(error));
    }
    if replies.len() <= 4 {
        return Step::Ask(Statement::Commit);
    }
    if let Err(error) = replies[4].done() {
        return Step::Done(Err(error));
    }
    Step::Done(Ok(event_record(params, sequence)))
}

/// Adds an event to a request whose latest event is the expected one.
pub open spec fn append_request_event_if_latest_cursor_steps(
    params: EventAppendView,
    expected: u64,
    now_ms: i64,
    h: Seq<ReplyView>,
) -> StepView<Option<EventView>> {
    match valid_payload(params.payload_inline) {
        Err(error) => StepView::Done(Err(error)),
        Ok(_) => ask(
            h,
            0,
            StatementView::Begin,
            |reply: ReplyView| reply.done(),
            |_done: ()|
                ask(
                    h,
                    1,
                    StatementView::AdvanceCursorFrom {
                        request_id: params.request_id,
                        expected,
                        now_ms,
                    },
                    |reply: ReplyView| reply.affected(),
                    |changed: u64|
                        if changed == 0 {
                            ask(
                                h,
                                2,
                                StatementView::SelectRequest {
                                    request_id: params.request_id,
                                },
                                |reply: ReplyView| reply.request(),
                                |found: Option<RequestView>|
                                    if found is None {
                                        StepView::Done(Err(ErrorView::RequestNotFound))
                                    } else {
                                        ask(
                                            h,
                                            3,
                                            StatementView::Commit,
                                            |reply: ReplyView| reply.done(),
                                            |_done: ()|
                                                StepView::Done(Ok(None)),
                                        )
                                    },
                            )
                        } else {
                            ask(
                                h,
                                2,
                                StatementView::InsertEvent {
                                    request_id: params.request_id,
                                    sequence: (expected + 1) as u64,
                                    event_type: params.event_type,
                                    payload_inline: params.payload_inline,
                                    now_ms,
                                },
                                |reply: ReplyView| reply.done(),
                                |_done: ()|
                                    ask(
                                        h,
                                        3,
                                        StatementView::Commit,
                                        |reply: ReplyView| reply.done(),
                                        |_done: ()|
                                            StepView::Done(
                                                Ok(
                                                    Some(
                                                        recorded_event(
                                                            params,
                                                            (expected + 1) as u64,
                                                        ),
                                                    ),
                                                ),
                                            ),
                                    ),
                            )
                        },
                ),
        ),
    }
}

/// Whether the cursor of the request was found to be the expected one, and was advanced.
pub open spec fn cursor_matched(h: Seq<ReplyView>) -> bool {
    h.len() > 1 && (h[1].affected() matches Ok(changed) && changed > 0)
}

/// Adds an event to a request whose latest event is the expected one.
pub fn append_request_event_if_latest_cursor(
    params: &EventAppendParams,
    expected: u64,
    now_ms: i64,
    replies: &Vec<Reply>,
) -> (r: Step<Option<EventRecord>>)
    requires
        cursor_matched(replies.deep_view()) ==> expected < u64::MAX,
    ensures
        r.deep_view() == append_request_event_if_latest_cursor_steps(
            params.deep_view(),
            expected,
            now_ms,
            replies.deep_view(),
        ),
{
    if let Err(error) = validate_event_payload_inline(params.payload_inline.as_str()) {
        return Step::Done(Err(error));
    }
    if replies.len() <= 0 {
        return Step::Ask(Statement::Begin);
    }
    if let Err(error) = replies[0].done() {
        return Step::Done(Err(error));
    }
    if replies.len() <= 1 {
        return Step::Ask(Statement::AdvanceCursorFrom {
            request_id: params.request_id.clone(),
            expected,
            now_ms,
        });
    }
    let changed = match replies[1].affected() {
        Ok(changed) => changed,
        Err(error) => return Step::Done(Err(error)),
    };
    if changed == 0 {
        if replies.len() <= 2 {
            return Step::Ask(Statement::SelectRequest {
                request_id: params.request_id.clone(),
            });
        }
        let found = match replies[2].request() {
            Ok(found) => found,
            Err(error) => return Step::Done(Err(error)),
        };
        if found.is_none() {
            return Step::Done(Err(CloudStateError::RequestNotFound));
        }
        if replies.len() <= 3 {
            return Step::Ask(Statement::Commit);
        }
        if let Err(error) = replies[3].done() {
            return Step::Done(Err(error));
        }
        return Step::Done(Ok(None));
    }
    let sequence: u64 = expected + 1;
    if replies.len() <= 2 {
        return Step::Ask(Statement::InsertEvent {
            request_id: params.request_id.clone(),
            sequence,
            event_type: params.event_type.clone(),
            payload_inline: params.payload_inline.clone(),
            now_ms,
        });
    }
    if let Err(error) = replies[2].done() {
        return Step::Done(Err(error));
    }
    if replies.len() <= 3 {
        return Step::Ask(Statement::Commit);
    }
    if let Err(error) = replies[3].done() {
        return Step::Done(Err(error));
    }
    Step::Done(Ok(Some(event_record(params, sequence))))
}

/// Reads events of a request after a cursor, and the next cursor.
pub open spec fn list_request_events_steps(
    request_id: Seq<char>,
    cursor: Option<u64>,
    limit: nat,
    h: Seq<ReplyView>,
) -> StepView<EventsPageView> {
    ask(
        h,
        0,
        StatementView::SelectRequest {
            request_id,
        },
        |reply: ReplyView| reply.request(),
        |found: Option<RequestView>|
            if found is None {
                StepView::Done(Err(ErrorView::RequestNotFound))
            } else {
                ask(
                    h,
                    1,
                    StatementView::SelectEvents {
                        request_id,
                        after: StoreModel::start(cursor),
                        count: (limit + 1) as u64,
                    },
                    |reply: ReplyView| reply.events(),
                    |rows: Seq<EventView>|
                        StepView::Done(Ok(event_page_of(rows, limit))),
                )
            },
    )
}

/// Reads events of a request after a cursor, and the next cursor.
pub fn list_request_events(
    request_id: &String,
    cursor: Option<u64>,
    limit: usize,
    replies: &Vec<Reply>,
) -> (r: Step<EventsPage>)
    requires
        limit < usize::MAX,
    ensures
        r.deep_view() == list_request_events_steps(
            request_id@,
            cursor,
            limit as nat,
            replies.deep_view(),
        ),
{
    if replies.len() <= 0 {
        return Step::Ask(Statement::SelectRequest {
            request_id: request_id.clone(),
        });
    }
    let found = match replies[0].request() {
        Ok(found) => found,
        Err(error) => return Step::Done(Err(error)),
    };
    if found.is_none() {
        return Step::Done(Err(CloudStateError::RequestNotFound));
    }
    if replies.len() <= 1 {
        return Step::Ask(Statement::SelectEvents {
            request_id: request_id.clone(),
            after: start_of(cursor),
            count: limit as u64 + 1,
        });
    }
    let rows = match replies[1].events() {
        Ok(rows) => rows,
        Err(error) => return Step::Done(Err(error)),
    };
    Step::Done(Ok(event_page(rows, limit)))
}

} // verus!
