//! Recording requests and finding them.
use vstd::prelude::*;

use crate::mysql::statements::{ask, Reply, ReplyView, Statement, StatementView, Step, StepView};
use crate::protocol::RequestStatus;
use crate::records::{
    CloudStateError, CreateRequestParams, CreateRequestView, ErrorView, RequestRecord, RequestView,
};

verus! {

/// A request as it is recorded.
pub open spec fn new_request(params: CreateRequestView, request_id: Seq<char>) -> RequestView {
    RequestView {
        request_id,
        caller_id: params.caller_id,
        thread_id: params.thread_id,
        idempotency_key: params.idempotency_key,
        input_hash: params.input_hash,
        turn_id: None,
        status: RequestStatus::Queued,
        latest_event_cursor: 0,
    }
}

fn new_request_record(params: &CreateRequestParams, request_id: &String) -> (r: RequestRecord)
    ensures
        r.deep_view() == new_request(params.deep_view(), request_id@),
{
    RequestRecord {
        request_id: request_id.clone(),
        caller_id: params.caller_id.clone(),
        thread_id: params.thread_id.clone(),
        idempotency_key: params.idempotency_key.clone(),
        input_hash: params.input_hash.clone(),
        turn_id: None,
        status: RequestStatus::Queued,
        latest_event_cursor: 0,
    }
}

/// Answers with the request that was recorded under the same key, if the input is the same.
pub open spec fn repeat_request_steps(
    params: CreateRequestView,
    existing: Option<RequestView>,
    h: Seq<ReplyView>,
    at: int,
) -> StepView<RequestView> {
    match existing {
        None => StepView::Done(Err(ErrorView::RequestNotFound)),
        Some(existing) => if existing.input_hash != params.input_hash {
            StepView::Done(Err(ErrorView::IdempotencyConflict))
        } else {
            ask(
                h,
                at,
                StatementView::Commit,
                |reply: ReplyView| reply.done(),
                |_done: ()|
                    StepView::Done(Ok(existing)),
            )
        },
    }
}

/// Answers with the request that was recorded under the same key, if the input is the same.
fn repeat_request(
    params: &CreateRequestParams,
    existing: &Option<RequestRecord>,
    replies: &Vec<Reply>,
    at: usize,
) -> (r: Step<RequestRecord>)
    requires
        at <= replies@.len(),
    ensures
        r.deep_view() == repeat_request_steps(
            params.deep_view(),
            existing.deep_view(),
            replies.deep_view(),
            at as int,
        ),
{
    let existing = match existing {
        Some(existing) => existing,
        None => {
            return Step::Done(Err(CloudStateError::RequestNotFound));
        },
    };
    if existing.input_hash != params.input_hash {
        return Step::Done(Err(CloudStateError::IdempotencyConflict));
    }
    if replies.len() <= at {
        return Step::Ask(Statement::Commit);
    }
    if let Err(error) = replies[at].done() {
        return Step::Done(Err(error));
    }
    Step::Done(Ok(existing.clone()))
}

/// Looks for the request that another writer recorded under the same key in the meantime.
pub open spec fn find_duplicate_request_steps(
    params: CreateRequestView,
    h: Seq<ReplyView>,
    at: int,
) -> StepView<RequestView> {
    ask(
        h,
        at,
        StatementView::Rollback,
        |reply: ReplyView| reply.done(),
        |_done: ()|
            ask(
                h,
                at + 1,
                StatementView::SelectRequestByKey {
                    caller_id: params.caller_id,
                    thread_id: params.thread_id,
                    idempotency_key: params.idempotency_key,
                },
                |reply: ReplyView| reply.request(),
                |existing: Option<RequestView>|
                    match existing {
                        None => StepView::Done(
                            Err(
                                ErrorView::Storage(
                                    "duplicate idempotency key was reported but existing request was not found"@,
                                ),
                            ),
                        ),
                        Some(existing) => if existing.input_hash != params.input_hash {
                            StepView::Done(Err(ErrorView::IdempotencyConflict))
                        } else {
                            StepView::Done(Ok(existing))
                        },
                    },
            ),
    )
}

/// Looks for the request that another writer recorded under the same key in the meantime.
fn find_duplicate_request(
    params: &CreateRequestParams,
    replies: &Vec<Reply>,
    at: usize,
) -> (r: Step<RequestRecord>)
    requires
        at <= replies@.len(),
    ensures
        r.deep_view() == find_duplicate_request_steps(
            params.deep_view(),
            replies.deep_view(),
            at as int,
        ),
{
    if replies.len() <= at {
        return Step::Ask(Statement::Rollback);
    }
    if let Err(error) = replies[at].done() {
        return Step::Done(Err(error));
    }
    if replies.len() <= at + 1 {
        return Step::Ask(Statement::SelectRequestByKey {
            caller_id: params.caller_id.clone(),
            thread_id: params.thread_id.clone(),
            idempotency_key: params.idempotency_key.clone(),
        });
    }
    let existing = match replies[at + 1].request() {
        Ok(existing) => existing,
        Err(error) => return Step::Done(Err(error)),
    };
    let existing = match existing {
        Some(existing) => existing,
        None => {
            return Step::Done(
                Err(
                    CloudStateError::Storage(
                        "duplicate idempotency key was reported but existing request was not found".to_owned(),
                    ),
                ),
            );
        },
    };
    if existing.input_hash != params.input_hash {
        return Step::Done(Err(CloudStateError::IdempotencyConflict));
    }
    Step::Done(Ok(existing))
}

/// Records a request under a new identifier, or finds the one that was recorded under the same key.
pub open spec fn create_request_steps(
    params: CreateRequestView,
    request_id: Seq<char>,
    now_ms: i64,
    h: Seq<ReplyView>,
) -> StepView<RequestView> {
    ask(
        h,
        0,
        StatementView::Begin,
        |reply: ReplyView| reply.done(),
        |_done: ()|
            ask(
                h,
                1,
                StatementView::SelectRequestByKey {
                    caller_id: params.caller_id,
                    thread_id: params.thread_id,
                    idempotency_key: params.idempotency_key,
                },
                |reply: ReplyView| reply.request(),
                |existing: Option<RequestView>|
                    if existing is Some {
                        repeat_request_steps(params, existing, h, 2)
                    } else {
                        ask(
                            h,
                            2,
                            StatementView::InsertRequest {
                                request_id,
                                caller_id: params.caller_id,
                                thread_id: params.thread_id,
                                idempotency_key: params.idempotency_key,
                                input_hash: params.input_hash,
                                now_ms,
                            },
                            |reply: ReplyView| reply.inserted(),
                            |recorded: bool|
                                if !recorded {
                                    find_duplicate_request_steps(params, h, 3)
                                } else {
                                    ask(
                                        h,
                                        3,
                                        StatementView::Commit,
                                        |reply: ReplyView| reply.done(),
                                        |_done: ()|
                                            StepView::Done(Ok(new_request(params, request_id))),
                                    )
                                },
                        )
                    },
            ),
    )
}

/// Records a request under a new identifier, or finds the one that was recorded under the same key.
pub fn create_request(
    params: &CreateRequestParams,
    request_id: &String,
    now_ms: i64,
    replies: &Vec<Reply>,
) -> (r: Step<RequestRecord>)
    ensures
        r.deep_view() == create_request_steps(
            params.deep_view(),
            request_id@,
            now_ms,
            replies.deep_view(),
        ),
{
    if replies.len() <= 0 {
        return Step::Ask(Statement::Begin);
    }
    if let Err(error) = replies[0].done() {
        return Step::Done(Err(error));
    }
    if replies.len() <= 1 {
        return Step::Ask(Statement::SelectRequestByKey {
            caller_id: params.caller_id.clone(),
            thread_id: params.thread_id.clone(),
            idempotency_key: params.idempotency_key.clone(),
        });
    }
    let existing = match replies[1].request() {
        Ok(existing) => existing,
        Err(error) => return Step::Done(Err(error)),
    };
    if existing.is_some() {
        return repeat_request(params, &existing, replies, 2);
    }
    if replies.len() <= 2 {
        return Step::Ask(Statement::InsertRequest {
            request_id: request_id.clone(),
            caller_id: params.caller_id.clone(),
            thread_id: params.thread_id.clone(),
            idempotency_key: params.idempotency_key.clone(),
            input_hash: params.input_hash.clone(),
            now_ms,
        });
    }
    let recorded = match replies[2].inserted() {
        Ok(recorded) => recorded,
        Err(error) => return Step::Done(Err(error)),
    };
    if !recorded {
        return find_duplicate_request(params, replies, 3);
    }
    if replies.len() <= 3 {
        return Step::Ask(Statement::Commit);
    }
    if let Err(error) = replies[3].done() {
        return Step::Done(Err(error));
    }
    Step::Done(Ok(new_request_record(params, request_id)))
}

/// Reads a request.
pub open spec fn read_request_steps(
    request_id: Seq<char>,
    h: Seq<ReplyView>,
) -> StepView<RequestView> {
    ask(
        h,
        0,
        StatementView::SelectRequest {
            request_id,
        },
        |reply: ReplyView| reply.request(),
        |found: Option<RequestView>|
            match found {
                None => StepView::Done(Err(ErrorView::RequestNotFound)),
                Some(request) => StepView::Done(Ok(request)),
            },
    )
}

/// Reads a request.
pub fn read_request(
    request_id: &String,
    replies: &Vec<Reply>,
) -> (r: Step<RequestRecord>)
    ensures
        r.deep_view() == read_request_steps(request_id@, replies.deep_view()),
{
    if replies.len() <= 0 {
        return Step::Ask(Statement::SelectRequest {
            request_id: request_id.clone(),
        });
    }
    let found = match replies[0].request() {
        Ok(found) => found,
        Err(error) => return Step::Done(Err(error)),
    };
    let request = match found {
        Some(request) => request,
        None => {
            return Step::Done(Err(CloudStateError::RequestNotFound));
        },
    };
    Step::Done(Ok(request))
}

/// Reads a request that runs in a turn.
pub open spec fn read_request_by_turn_id_steps(
    turn_id: Seq<char>,
    h: Seq<ReplyView>,
) -> StepView<RequestView> {
    ask(
        h,
        0,
        StatementView::SelectRequestByTurn {
            turn_id,
        },
        |reply: ReplyView| reply.request(),
        |found: Option<RequestView>|
            match found {
                None => StepView::Done(Err(ErrorView::RequestNotFound)),
                Some(request) => StepView::Done(Ok(request)),
            },
    )
}

/// Reads a request that runs in a turn.
pub fn read_request_by_turn_id(
    turn_id: &String,
    replies: &Vec<Reply>,
) -> (r: Step<RequestRecord>)
    ensures
        r.deep_view() == read_request_by_turn_id_steps(turn_id@, replies.deep_view()),
{
    if replies.len() <= 0 {
        return Step::Ask(Statement::SelectRequestByTurn {
            turn_id: turn_id.clone(),
        });
    }
    let found = match replies[0].request() {
        Ok(found) => found,
        Err(error) => return Step::Done(Err(error)),
    };
    let request = match found {
        Some(request) => request,
        None => {
            return Step::Done(Err(CloudStateError::RequestNotFound));
        },
    };
    Step::Done(Ok(request))
}

/// Notes the turn in which a request runs.
pub open spec fn set_request_turn_id_steps(
    request_id: Seq<char>,
    turn_id: Seq<char>,
    now_ms: i64,
    h: Seq<ReplyView>,
) -> StepView<RequestView> {
    ask(
        h,
        0,
        StatementView::SetTurn {
            request_id,
            turn_id,
            now_ms,
        },
        |reply: ReplyView| reply.affected(),
        |changed: u64|
            if changed == 0 {
                StepView::Done(Err(ErrorView::RequestNotFound))
            } else {
                ask(
                    h,
                    1,
                    StatementView::SetOwnerTurn {
                        request_id,
                        turn_id,
                    },
                    |reply: ReplyView| reply.done(),
                    |_done: ()|
                        ask(
                            h,
                            2,
                            StatementView::SelectRequest {
                                request_id,
                            },
                            |reply: ReplyView| reply.request(),
                            |found: Option<RequestView>|
                                match found {
                                    None => StepView::Done(Err(ErrorView::RequestNotFound)),
                                    Some(request) => StepView::Done(Ok(request)),
                                },
                        ),
                )
            },
    )
}

/// Notes the turn in which a request runs.
pub fn set_request_turn_id(
    request_id: &String,
    turn_id: &String,
    now_ms: i64,
    replies: &Vec<Reply>,
) -> (r: Step<RequestRecord>)
    ensures
        r.deep_view() == set_request_turn_id_steps(
            request_id@,
            turn_id@,
            now_ms,
            replies.deep_view(),
        ),
{
    if replies.len() <= 0 {
        return Step::Ask(Statement::SetTurn {
            request_id: request_id.clone(),
            turn_id: turn_id.clone(),
            now_ms,
        });
    }
    let changed = match replies[0].affected() {
        Ok(changed) => changed,
        Err(error) => return Step::Done(Err(error)),
    };
    if changed == 0 {
        return Step::Done(Err(CloudStateError::RequestNotFound));
    }
    if replies.len() <= 1 {
        return Step::Ask(Statement::SetOwnerTurn {
            request_id: request_id.clone(),
            turn_id: turn_id.clone(),
        });
    }
    if let Err(error) = replies[1].done() {
        return Step::Done(Err(error));
    }
    if replies.len() <= 2 {
        return Step::Ask(Statement::SelectRequest {
            request_id: request_id.clone(),
        });
    }
    let found = match replies[2].request() {
        Ok(found) => found,
        Err(error) => return Step::Done(Err(error)),
    };
    let request = match found {
        Some(request) => request,
        None => {
            return Step::Done(Err(CloudStateError::RequestNotFound));
        },
    };
    Step::Done(Ok(request))
}

/// Whether a caller has a request on a thread.
pub open spec fn caller_can_access_thread_steps(
    caller_id: Seq<char>,
    thread_id: Seq<char>,
    h: Seq<ReplyView>,
) -> StepView<bool> {
    ask(
        h,
        0,
        StatementView::SelectThreadAccess {
            caller_id,
            thread_id,
        },
        |reply: ReplyView| reply.found(),
        |access: bool|
            StepView::Done(Ok(access)),
    )
}

/// Whether a caller has a request on a thread.
pub fn caller_can_access_thread(
    caller_id: &String,
    thread_id: &String,
    replies: &Vec<Reply>,
) -> (r: Step<bool>)
    ensures
        r.deep_view() == caller_can_access_thread_steps(
            caller_id@,
            thread_id@,
            replies.deep_view(),
        ),
{
    if replies.len() <= 0 {
        return Step::Ask(Statement::SelectThreadAccess {
            caller_id: caller_id.clone(),
            thread_id: thread_id.clone(),
        });
    }
    let access = match replies[0].found() {
        Ok(access) => access,
        Err(error) => return Step::Done(Err(error)),
    };
    Step::Done(Ok(access))
}

} // verus!
