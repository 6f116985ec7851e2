//! Ending requests.
use vstd::prelude::*;

use crate::json::validate_event_payload_inline;
use crate::mysql::common::{replies_fit, valid_payload};
use crate::mysql::leases::{
    end_with_event, end_with_event_steps, release_leases, release_leases_steps,
};
use crate::mysql::statements::{
    after, ask, Progress, Reply, ReplyView, Statement, StatementView, Step, StepView,
};
use crate::protocol::RequestStatus;
use crate::records::{
    CloudStateError, ErrorView, EventAppendParams, EventAppendView, RequestRecord, RequestView,
    TerminalStatusUpdate,
};

verus! {

/// The ends that only a request with a lease can come to.
pub open spec fn needs_lease(status: RequestStatus) -> bool {
    status == RequestStatus::Completed || status == RequestStatus::Failed || status
        == RequestStatus::Interrupted
}

/// Whether only a request with a lease can come to this end.
pub fn terminal_requires_active_lease(status: RequestStatus) -> (r: bool)
    ensures
        r == needs_lease(status),
{
    matches!(
        status,
        RequestStatus::Completed | RequestStatus::Failed | RequestStatus::Interrupted
    )
}

/// Ends a request at a status, and releases its leases.
pub open spec fn end_and_release_steps(
    request: RequestView,
    status: RequestStatus,
    now_ms: i64,
    h: Seq<ReplyView>,
    at: int,
) -> StepView<TerminalStatusUpdate> {
    ask(
        h,
        at,
        StatementView::EndRequest {
            request_id: request.request_id,
            status,
            now_ms,
        },
        |reply: ReplyView| reply.affected(),
        |changed: u64|
            after(
                release_leases_steps(request.thread_id, request.request_id, now_ms, h, at + 1),
                |_done: (), released: int|
                    ask(
                        h,
                        released,
                        StatementView::Commit,
                        |reply: ReplyView| reply.done(),
                        |_done: ()|
                            StepView::Done(
                                Ok(
                                    if changed == 0 { TerminalStatusUpdate::Unchanged } else { TerminalStatusUpdate::Changed },
                                ),
                            ),
                    ),
            ),
    )
}

/// Ends a request at a status, and releases its leases.
fn end_and_release(
    request: &RequestRecord,
    status: RequestStatus,
    now_ms: i64,
    replies: &Vec<Reply>,
    at: usize,
) -> (r: Step<TerminalStatusUpdate>)
    requires
        at <= replies@.len(),
    ensures
        r.deep_view() == end_and_release_steps(
            request.deep_view(),
            status,
            now_ms,
            replies.deep_view(),
            at as int,
        ),
{
    if replies.len() <= at {
        return Step::Ask(Statement::EndRequest {
            request_id: request.request_id.clone(),
            status,
            now_ms,
        });
    }
    let changed = match replies[at].affected() {
        Ok(changed) => changed,
        Err(error) => return Step::Done(Err(error)),
    };
    let (_, released) = match release_leases(
        &request.thread_id,
        &request.request_id,
        now_ms,
        replies,
        at + 1,
    ) {
        Progress::Ask(statement) => return Step::Ask(statement),
        Progress::Failed(error) => return Step::Done(Err(error)),
        Progress::Ready(value, used) => (value, used),
    };
    if replies.len() <= released {
        return Step::Ask(Statement::Commit);
    }
    if let Err(error) = replies[released].done() {
        return Step::Done(Err(error));
    }
    Step::Done(
        Ok(
            if changed == 0 { TerminalStatusUpdate::Unchanged } else { TerminalStatusUpdate::Changed },
        ),
    )
}

/// Ends a request at a status, unless it is over, and releases its leases; one that runs without a
/// lease cannot complete.
pub open spec fn mark_request_terminal_steps(
    request_id: Seq<char>,
    status: RequestStatus,
    now_ms: i64,
    h: Seq<ReplyView>,
) -> StepView<TerminalStatusUpdate> {
    ask(
        h,
        0,
        StatementView::Begin,
        |reply: ReplyView| reply.done(),
        |_done: ()|
            ask(
                h,
                1,
                StatementView::LockRequest {
                    request_id,
                },
                |reply: ReplyView| reply.request(),
                |found: Option<RequestView>|
                    match found {
                        None => StepView::Done(Err(ErrorView::RequestNotFound)),
                        Some(request) => if request.status.terminal() {
                            ask(
                                h,
                                2,
                                StatementView::Commit,
                                |reply: ReplyView| reply.done(),
                                |_done: ()|
                                    StepView::Done(Ok(TerminalStatusUpdate::Unchanged)),
                            )
                        } else if needs_lease(status) && request.status == RequestStatus::Running {
                            ask(
                                h,
                                2,
                                StatementView::LockActiveLease {
                                    thread_id: request.thread_id,
                                    request_id: request.request_id,
                                    now_ms,
                                },
                                |reply: ReplyView| reply.found(),
                                |active: bool|
                                    if !active {
                                        end_and_release_steps(
                                            request,
                                            RequestStatus::LeaseLost,
                                            now_ms,
                                            h,
                                            3,
                                        )
                                    } else {
                                        end_and_release_steps(request, status, now_ms, h, 3)
                                    },
                            )
                        } else {
                            end_and_release_steps(request, status, now_ms, h, 2)
                        },
                    },
            ),
    )
}

/// Ends a request at a status, unless it is over, and releases its leases; one that runs without a
/// lease cannot complete.
pub fn mark_request_terminal(
    request_id: &String,
    status: RequestStatus,
    now_ms: i64,
    replies: &Vec<Reply>,
) -> (r: Step<TerminalStatusUpdate>)
    ensures
        r.deep_view() == mark_request_terminal_steps(
            request_id@,
            status,
            now_ms,
            replies.deep_view(),
        ),
{
    if replies.len() <= 0 {
        return Step::Ask(Statement::Begin);
    }
    if let Err(error) = replies[0].done() {
        return Step::Done(Err(error));
    }
    if replies.len() <= 1 {
        return Step::Ask(Statement::LockRequest {
            request_id: request_id.clone(),
        });
    }
    let found = match replies[1].request() {
        Ok(found) => found,
        Err(error) => return Step::Done(Err(error)),
    };
    let request = match found {
        Some(request) => request,
        None => {
            return Step::Done(Err(CloudStateError::RequestNotFound));
        },
    };
    if request.status.is_terminal() {
        if replies.len() <= 2 {
            return Step::Ask(Statement::Commit);
        }
        if let Err(error) = replies[2].done() {
            return Step::Done(Err(error));
        }
        return Step::Done(Ok(TerminalStatusUpdate::Unchanged));
    }
    if terminal_requires_active_lease(status) && request.status == RequestStatus::Running {
        if replies.len() <= 2 {
            return Step::Ask(Statement::LockActiveLease {
                thread_id: request.thread_id.clone(),
                request_id: request.request_id.clone(),
                now_ms,
            });
        }
        let active = match replies[2].found() {
            Ok(active) => active,
            Err(error) => return Step::Done(Err(error)),
        };
        if !active {
            return end_and_release(&request, RequestStatus::LeaseLost, now_ms, replies, 3);
        }
        return end_and_release(&request, status, now_ms, replies, 3);
    }
    end_and_release(&request, status, now_ms, replies, 2)
}

/// Ends a request at a status, releases its leases, and records the given event.
pub open spec fn end_as_asked_steps(
    params: EventAppendView,
    status: RequestStatus,
    request: RequestView,
    now_ms: i64,
    h: Seq<ReplyView>,
    at: int,
) -> StepView<TerminalStatusUpdate> {
    ask(
        h,
        at,
        StatementView::EndRequestWithEvent {
            request_id: params.request_id,
            status,
            now_ms,
        },
        |reply: ReplyView| reply.affected(),
        |changed: u64|
            after(
                release_leases_steps(request.thread_id, params.request_id, now_ms, h, at + 1),
                |_done: (), released: int|
                    if changed == 0 {
                        ask(
                            h,
                            released,
                            StatementView::Commit,
                            |reply: ReplyView| reply.done(),
                            |_done: ()|
                                StepView::Done(Ok(TerminalStatusUpdate::Unchanged)),
                        )
                    } else {
                        ask(
                            h,
                            released,
                            StatementView::InsertEvent {
                                request_id: params.request_id,
                                sequence: (request.latest_event_cursor + 1) as u64,
                                event_type: params.event_type,
                                payload_inline: params.payload_inline,
                                now_ms,
                            },
                            |reply: ReplyView| reply.done(),
                            |_done: ()|
                                ask(
                                    h,
                                    released + 1,
                                    StatementView::Commit,
                                    |reply: ReplyView| reply.done(),
                                    |_done: ()|
                                        StepView::Done(Ok(TerminalStatusUpdate::Changed)),
                                ),
                        )
                    },
            ),
    )
}

/// Ends a request at a status, releases its leases, and records the given event.
fn end_as_asked(
    params: &EventAppendParams,
    status: RequestStatus,
    request: &RequestRecord,
    now_ms: i64,
    replies: &Vec<Reply>,
    at: usize,
) -> (r: Step<TerminalStatusUpdate>)
    requires
        request.latest_event_cursor < u64::MAX,
        at <= replies@.len(),
    ensures
        r.deep_view() == end_as_asked_steps(
            params.deep_view(),
            status,
            request.deep_view(),
            now_ms,
            replies.deep_view(),
            at as int,
        ),
{
    if replies.len() <= at {
        return Step::Ask(Statement::EndRequestWithEvent {
            request_id: params.request_id.clone(),
            status,
            now_ms,
        });
    }
    let changed = match replies[at].affected() {
        Ok(changed) => changed,
        Err(error) => return Step::Done(Err(error)),
    };
    let (_, released) = match release_leases(
        &request.thread_id,
        &params.request_id,
        now_ms,
        replies,
        at + 1,
    ) {
        Progress::Ask(statement) => return Step::Ask(statement),
        Progress::Failed(error) => return Step::Done(Err(error)),
        Progress::Ready(value, used) => (value, used),
    };
    if changed == 0 {
        if replies.len() <= released {
            return Step::Ask(Statement::Commit);
        }
        if let Err(error) = replies[released].done() {
            return Step::Done(Err(error));
        }
        return Step::Done(Ok(TerminalStatusUpdate::Unchanged));
    }
    if replies.len() <= released {
        return Step::Ask(Statement::InsertEvent {
            request_id: params.request_id.clone(),
            sequence: request.latest_event_cursor + 1,
            event_type: params.event_type.clone(),
            payload_inline: params.payload_inline.clone(),
            now_ms,
        });
    }
    if let Err(error) = replies[released].done() {
        return Step::Done(Err(error));
    }
    if replies.len() <= released + 1 {
        return Step::Ask(Statement::Commit);
    }
    if let Err(error) = replies[released + 1].done() {
        return Step::Done(Err(error));
    }
    Step::Done(Ok(TerminalStatusUpdate::Changed))
}

/// Ends a request at a status, unless it is over, and records that as an event; one that runs
/// without a lease cannot complete.
pub open spec fn mark_request_terminal_with_event_steps(
    params: EventAppendView,
    status: RequestStatus,
    now_ms: i64,
    h: Seq<ReplyView>,
) -> StepView<TerminalStatusUpdate> {
    match valid_payload(params.payload_inline) {
        Err(error) => StepView::Done(Err(error)),
        Ok(_) => ask(
            h,
            0,
            StatementView::Begin,
            |reply: ReplyView| reply.done(),
            |_done: ()|
                ask(
                    h,
                    1,
                    StatementView::LockRequest {
                        request_id: params.request_id,
                    },
                    |reply: ReplyView| reply.request(),
                    |found: Option<RequestView>|
                        match found {
                            None => StepView::Done(Err(ErrorView::RequestNotFound)),
                            Some(request) => if request.status.terminal() {
                                ask(
                                    h,
                                    2,
                                    StatementView::Commit,
                                    |reply: ReplyView| reply.done(),
                                    |_done: ()|
                                        StepView::Done(Ok(TerminalStatusUpdate::Unchanged)),
                                )
                            } else if needs_lease(status) && request.status == RequestStatus::Running {
                                ask(
                                    h,
                                    2,
                                    StatementView::LockActiveLease {
                                        thread_id: request.thread_id,
                                        request_id: request.request_id,
                                        now_ms,
                                    },
                                    |reply: ReplyView| reply.found(),
                                    |active: bool|
                                        if !active {
                                            after(
                                                end_with_event_steps(
                                                    params.request_id,
                                                    RequestStatus::LeaseLost,
                                                    "request/lease_lost"@,
                                                    "{\"reason\":\"thread_writer_lease_lost\"}"@,
                                                    now_ms,
                                                    h,
                                                    3,
                                                ),
                                                |_done: TerminalStatusUpdate, ended: int|
                                                    after(
                                                        release_leases_steps(
                                                            request.thread_id,
                                                            params.request_id,
                                                            now_ms,
                                                            h,
                                                            ended,
                                                        ),
                                                        |_done: (), released: int|
                                                            ask(
                                                                h,
                                                                released,
                                                                StatementView::Commit,
                                                                |reply: ReplyView| reply.done(),
                                                                |_done: ()|
                                                                    StepView::Done(
                                                                        Ok(
                                                                            TerminalStatusUpdate::Changed,
                                                                        ),
                                                                    ),
                                                            ),
                                                    ),
                                            )
                                        } else {
                                            end_as_asked_steps(
                                                params,
                                                status,
                                                request,
                                                now_ms,
                                                h,
                                                3,
                                            )
                                        },
                                )
                            } else {
                                end_as_asked_steps(params, status, request, now_ms, h, 2)
                            },
                        },
                ),
        ),
    }
}

/// Ends a request at a status, unless it is over, and records that as an event; one that runs
/// without a lease cannot complete.
pub fn mark_request_terminal_with_event(
    params: &EventAppendParams,
    status: RequestStatus,
    now_ms: i64,
    replies: &Vec<Reply>,
) -> (r: Step<TerminalStatusUpdate>)
    requires
        replies_fit(replies.deep_view(), 1),
    ensures
        r.deep_view() == mark_request_terminal_with_event_steps(
            params.deep_view(),
            status,
            now_ms,
            replies.deep_view(),
        ),
{
    if let Err(error) = validate_event_payload_inline(params.payload_inline.as_str()) {
        return Step::Done(Err(error));
    }
    if replies.len() <= 0 {
        return Step::Ask(Statement::Begin);
    }
    if let Err(error) = replies[0].done() {
        return Step::Done(Err(error));
    }
    if replies.len() <= 1 {
        return Step::Ask(Statement::LockRequest {
            request_id: params.request_id.clone(),
        });
    }
    let found = match replies[1].request() {
        Ok(found) => found,
        Err(error) => return Step::Done(Err(error)),
    };
    let request = match found {
        Some(request) => request,
        None => {
            return Step::Done(Err(CloudStateError::RequestNotFound));
        },
    };
    if request.status.is_terminal() {
        if replies.len() <= 2 {
            return Step::Ask(Statement::Commit);
        }
        if let Err(error) = replies[2].done() {
            return Step::Done(Err(error));
        }
        return Step::Done(Ok(TerminalStatusUpdate::Unchanged));
    }
    if terminal_requires_active_lease(status) && request.status == RequestStatus::Running {
        if replies.len() <= 2 {
            return Step::Ask(Statement::LockActiveLease {
                thread_id: request.thread_id.clone(),
                request_id: request.request_id.clone(),
                now_ms,
            });
        }
        let active = match replies[2].found() {
            Ok(active) => active,
            Err(error) => return Step::Done(Err(error)),
        };
        if !active {
            let (_, ended) = match end_with_event(
                &params.request_id,
                RequestStatus::LeaseLost,
                "request/lease_lost",
                "{\"reason\":\"thread_writer_lease_lost\"}",
                now_ms,
                replies,
                3,
            ) {
                Progress::Ask(statement) => return Step::Ask(statement),
                Progress::Failed(error) => return Step::Done(Err(error)),
                Progress::Ready(value, used) => (value, used),
            };
            let (_, released) = match release_leases(
                &request.thread_id,
                &params.request_id,
                now_ms,
                replies,
                ended,
            ) {
                Progress::Ask(statement) => return Step::Ask(statement),
                Progress::Failed(error) => return Step::Done(Err(error)),
                Progress::Ready(value, used) => (value, used),
            };
            if replies.len() <= released {
                return Step::Ask(Statement::Commit);
            }
            if let Err(error) = replies[released].done() {
                return Step::Done(Err(error));
            }
            return Step::Done(Ok(TerminalStatusUpdate::Changed));
        }
        return end_as_asked(params, status, &request, now_ms, replies, 3);
    }
    end_as_asked(params, status, &request, now_ms, replies, 2)
}

} // verus!
