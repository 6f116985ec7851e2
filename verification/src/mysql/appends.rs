//! Appending items to a thread, and reading them.
use vstd::prelude::*;

use crate::json::{append_payload_refs_fingerprint, append_payload_refs_match};
use crate::model::StoreModel;
use crate::mysql::common::{replies_fit, start_of};
use crate::mysql::leases::{
    end_with_event, end_with_event_steps, release_leases, release_leases_steps,
};
use crate::mysql::statements::{
    after, ask, AppendRow, AppendRowView, LeaseRow, LeaseRowView, Progress, ProgressView, Reply,
    ReplyView, Statement, StatementView, Step, StepView,
};
use crate::protocol::{AppendThreadItemsWithLeaseResponse, RequestStatus, ThreadItemRecord};
use crate::protocol::append::ThreadItemView;
use crate::records::{
    CloudStateError, ErrorView, LeaseAppendParams, LeaseAppendView, RequestView,
    TerminalStatusUpdate,
};

verus! {

/// Whether an append may be made under the lease that is held: it names that lease, its
/// owner and its fencing token, and the lease has not expired.
pub open spec fn lease_allows(
    held: Option<LeaseRowView>,
    params: LeaseAppendView,
    now_ms: i64,
) -> bool {
    &&& held is Some
    &&& held->0.request_id == params.request_id
    &&& held->0.lease_id == params.lease_id
    &&& held->0.owner_instance_id == params.writer_owner_token
    &&& held->0.fencing_token == params.fencing_token
    &&& held->0.expires_at_ms > now_ms
}

fn is_allowed(held: &Option<LeaseRow>, params: &LeaseAppendParams, now_ms: i64) -> (r: bool)
    ensures
        r == lease_allows(held.deep_view(), params.deep_view(), now_ms),
{
    match held {
        Some(held) => held.request_id == params.request_id && held.lease_id == params.lease_id
            && held.owner_instance_id == params.writer_owner_token && held.fencing_token
            == params.fencing_token && held.expires_at_ms > now_ms,
        None => false,
    }
}

fn is_held_by(held: &Option<LeaseRow>, request_id: &String) -> (r: bool)
    ensures
        r == (held.deep_view() is Some && held.deep_view()->0.request_id == request_id@),
{
    match held {
        Some(held) => held.request_id == *request_id,
        None => false,
    }
}

/// Whether an append repeats one that was made: by the same request, of the same payloads.
pub open spec fn repeats(existing: AppendRowView, params: LeaseAppendView) -> bool {
    existing.request_id == params.request_id && crate::json::json_texts(existing.payload_refs_json)
        == Some(params.payload_refs)
}

fn is_repetition(existing: &AppendRow, params: &LeaseAppendParams) -> (r: bool)
    ensures
        r == repeats(existing.deep_view(), params.deep_view()),
{
    existing.request_id == params.request_id && append_payload_refs_match(
        existing.payload_refs_json.as_str(),
        &params.payload_refs,
    )
}

/// The answer to an append that repeats one that was made.
pub open spec fn repeated_response(existing: AppendRowView) -> AppendThreadItemsWithLeaseResponse {
    AppendThreadItemsWithLeaseResponse {
        thread_version: existing.thread_version,
        first_append_sequence: existing.first_append_sequence,
        last_append_sequence: existing.last_append_sequence,
        deduplicated: true,
    }
}

fn repeated_response_of(existing: &AppendRow) -> (r: AppendThreadItemsWithLeaseResponse)
    ensures
        r == repeated_response(existing.deep_view()),
{
    AppendThreadItemsWithLeaseResponse {
        thread_version: existing.thread_version,
        first_append_sequence: existing.first_append_sequence,
        last_append_sequence: existing.last_append_sequence,
        deduplicated: true,
    }
}

/// The answer to an append of `count` items to a thread at `version`.
pub open spec fn append_response(version: u64, count: nat) -> AppendThreadItemsWithLeaseResponse {
    AppendThreadItemsWithLeaseResponse {
        thread_version: (version + count) as u64,
        first_append_sequence: (version + 1) as u64,
        last_append_sequence: (version + count) as u64,
        deduplicated: false,
    }
}

fn append_response_of(version: u64, count: usize) -> (r: AppendThreadItemsWithLeaseResponse)
    requires
        version + count <= u64::MAX,
        count > 0,
    ensures
        r == append_response(version, count as nat),
{
    AppendThreadItemsWithLeaseResponse {
        thread_version: version + count as u64,
        first_append_sequence: version + 1,
        last_append_sequence: version + count as u64,
        deduplicated: false,
    }
}

fn is_other_version(expected: Option<u64>, version: u64) -> (r: bool)
    ensures
        r == (expected is Some && expected->0 != version),
{
    match expected {
        Some(expected) => expected != version,
        None => false,
    }
}

/// The first `limit` of the items that were read, and the next cursor if there are more.
fn item_page(rows: &Vec<ThreadItemRecord>, limit: usize) -> (r: (
    Vec<ThreadItemRecord>,
    Option<u64>,
))
    ensures
        r.deep_view() == crate::model::page(
            rows.deep_view(),
            limit as nat,
            |item: ThreadItemView| item.sequence,
        ),
{
    let to: usize = if rows.len() > limit {
        limit
    } else {
        rows.len()
    };
    let mut data: Vec<ThreadItemRecord> = Vec::new();
    for i in 0..to
        invariant
            to <= rows@.len(),
            data.deep_view() == rows.deep_view().take(i as int),
    {
        let ghost so_far = data.deep_view();
        data.push(rows[i].clone());
        assert(data.deep_view() =~= so_far.push(rows@[i as int].deep_view()));
        assert(rows.deep_view().take(i + 1) =~= so_far.push(rows.deep_view()[i as int]));
    }
    let next_cursor: Option<u64> = if rows.len() > limit && limit > 0 {
        Some(rows[limit - 1].sequence)
    } else {
        None
    };
    assert(rows.deep_view().take(rows@.len() as int) =~= rows.deep_view());
    (data, next_cursor)
}

/// Records the items from the `from`-th one on, after those that the thread has.
pub open spec fn insert_items_steps(
    thread_id: Seq<char>,
    version: u64,
    payload_refs: Seq<Seq<char>>,
    from: int,
    h: Seq<ReplyView>,
    at: int,
) -> ProgressView<()>
    decreases payload_refs.len() - from,
{
    if from >= payload_refs.len() {
        ProgressView::Ready((), at)
    } else if h.len() <= at {
        ProgressView::Ask(
            StatementView::InsertItem {
                thread_id,
                sequence: (version + from + 1) as u64,
                payload_ref: payload_refs[from],
            },
        )
    } else {
        match h[at].done() {
            Err(error) => ProgressView::Failed(error),
            Ok(_) => insert_items_steps(thread_id, version, payload_refs, from + 1, h, at + 1),
        }
    }
}

/// Records items after those that the thread has.
fn insert_items(
    thread_id: &String,
    version: u64,
    payload_refs: &Vec<String>,
    replies: &Vec<Reply>,
    at: usize,
) -> (r: Progress<()>)
    requires
        version + payload_refs@.len() <= u64::MAX,
        at <= replies@.len(),
    ensures
        r.deep_view() == insert_items_steps(
            thread_id@,
            version,
            payload_refs.deep_view(),
            0,
            replies.deep_view(),
            at as int,
        ),
        r matches Progress::Ready(_, used) ==> used == at + payload_refs@.len() && used
            <= replies@.len(),
{
    let count: usize = payload_refs.len();
    let answered: usize = replies.len();
    for i in 0..count
        invariant
            count == payload_refs@.len(),
            answered == replies@.len(),
            version + count <= u64::MAX,
            at + i <= answered,
            insert_items_steps(
                thread_id@,
                version,
                payload_refs.deep_view(),
                0,
                replies.deep_view(),
                at as int,
            ) == insert_items_steps(
                thread_id@,
                version,
                payload_refs.deep_view(),
                i as int,
                replies.deep_view(),
                at + i,
            ),
    {
        if answered - at <= i {
            return Progress::Ask(
                Statement::InsertItem {
                    thread_id: thread_id.clone(),
                    sequence: version + i as u64 + 1,
                    payload_ref: payload_refs[i].clone(),
                },
            );
        }
        if let Err(error) = replies[at + i].done() {
            return Progress::Failed(error);
        }
    }
    Progress::Ready((), at + count)
}

/// Looks for the append that another writer recorded under the same key in the meantime.
pub open spec fn find_duplicate_append_steps(
    params: LeaseAppendView,
    thread_id: Seq<char>,
    h: Seq<ReplyView>,
    at: int,
) -> StepView<AppendThreadItemsWithLeaseResponse> {
    ask(
        h,
        at,
        StatementView::Rollback,
        |reply: ReplyView| reply.done(),
        |_done: ()|
            ask(
                h,
                at + 1,
                StatementView::SelectAppend {
                    thread_id,
                    append_idempotency_key: params.append_idempotency_key,
                },
                |reply: ReplyView| reply.append_row(),
                |existing: Option<AppendRowView>|
                    match existing {
                        None => StepView::Done(
                            Err(
                                ErrorView::Storage(
                                    "duplicate append key was reported but existing append result was not found"@,
                                ),
                            ),
                        ),
                        Some(existing) => if !repeats(existing, params) {
                            StepView::Done(Err(ErrorView::IdempotencyConflict))
                        } else {
                            StepView::Done(Ok(repeated_response(existing)))
                        },
                    },
            ),
    )
}

/// Looks for the append that another writer recorded under the same key in the meantime.
fn find_duplicate_append(
    params: &LeaseAppendParams,
    thread_id: &String,
    replies: &Vec<Reply>,
    at: usize,
) -> (r: Step<AppendThreadItemsWithLeaseResponse>)
    requires
        at <= replies@.len(),
    ensures
        r.deep_view() == find_duplicate_append_steps(
            params.deep_view(),
            thread_id@,
            replies.deep_view(),
            at as int,
        ),
{
    if replies.len() <= at {
        return Step::Ask(Statement::Rollback);
    }
    if let Err(error) = replies[at].done() {
        return Step::Done(Err(error));
    }
    if replies.len() <= at + 1 {
        return Step::Ask(Statement::SelectAppend {
            thread_id: thread_id.clone(),
            append_idempotency_key: params.append_idempotency_key.clone(),
        });
    }
    let existing = match replies[at + 1].append_row() {
        Ok(existing) => existing,
        Err(error) => return Step::Done(Err(error)),
    };
    let existing = match existing {
        Some(existing) => existing,
        None => {
            return Step::Done(
                Err(
                    CloudStateError::Storage(
                        "duplicate append key was reported but existing append result was not found".to_owned(),
                    ),
                ),
            );
        },
    };
    if !is_repetition(existing, params) {
        return Step::Done(Err(CloudStateError::IdempotencyConflict));
    }
    Step::Done(Ok(repeated_response_of(existing)))
}

/// Appends items that were not appended before.
pub open spec fn append_new_items_steps(
    params: LeaseAppendView,
    thread_id: Seq<char>,
    h: Seq<ReplyView>,
    at: int,
) -> StepView<AppendThreadItemsWithLeaseResponse> {
    ask(
        h,
        at,
        StatementView::SelectVersion {
            thread_id,
        },
        |reply: ReplyView| reply.number(),
        |version: u64|
            if params.expected_thread_version is Some && params.expected_thread_version->0 != version {
                ask(
                    h,
                    at + 1,
                    StatementView::Rollback,
                    |reply: ReplyView| reply.done(),
                    |_done: ()|
                        StepView::Done(Err(ErrorView::ThreadVersionConflict)),
                )
            } else {
                {
                    let response = append_response(version, params.payload_refs.len());
                    after(
                        insert_items_steps(thread_id, version, params.payload_refs, 0, h, at + 1),
                        |_done: (), listed: int|
                            ask(
                                h,
                                listed,
                                StatementView::InsertAppend {
                                    thread_id,
                                    request_id: params.request_id,
                                    append_idempotency_key: params.append_idempotency_key,
                                    payload_refs_json: crate::json::texts_json(params.payload_refs),
                                    response,
                                },
                                |reply: ReplyView| reply.inserted(),
                                |recorded: bool|
                                    if !recorded {
                                        find_duplicate_append_steps(
                                            params,
                                            thread_id,
                                            h,
                                            listed + 1,
                                        )
                                    } else {
                                        ask(
                                            h,
                                            listed + 1,
                                            StatementView::Commit,
                                            |reply: ReplyView| reply.done(),
                                            |_done: ()|
                                                StepView::Done(Ok(response)),
                                        )
                                    },
                            ),
                    )
                }
            },
    )
}

/// Appends items that were not appended before.
fn append_new_items(
    params: &LeaseAppendParams,
    thread_id: &String,
    replies: &Vec<Reply>,
    at: usize,
) -> (r: Step<AppendThreadItemsWithLeaseResponse>)
    requires
        replies_fit(replies.deep_view(), params.payload_refs@.len()),
        params.payload_refs@.len() > 0,
        at <= replies@.len(),
    ensures
        r.deep_view() == append_new_items_steps(
            params.deep_view(),
            thread_id@,
            replies.deep_view(),
            at as int,
        ),
{
    if replies.len() <= at {
        return Step::Ask(Statement::SelectVersion {
            thread_id: thread_id.clone(),
        });
    }
    let version = match replies[at].number() {
        Ok(version) => version,
        Err(error) => return Step::Done(Err(error)),
    };
    if is_other_version(params.expected_thread_version, version) {
        if replies.len() <= at + 1 {
            return Step::Ask(Statement::Rollback);
        }
        if let Err(error) = replies[at + 1].done() {
            return Step::Done(Err(error));
        }
        return Step::Done(Err(CloudStateError::ThreadVersionConflict));
    }
    let fingerprint = match append_payload_refs_fingerprint(&params.payload_refs) {
        Ok(fingerprint) => fingerprint,
        Err(error) => return Step::Done(Err(error)),
    };
    let response = append_response_of(version, params.payload_refs.len());
    let (_, listed) = match insert_items(
        thread_id,
        version,
        &params.payload_refs,
        replies,
        at + 1,
    ) {
        Progress::Ask(statement) => return Step::Ask(statement),
        Progress::Failed(error) => return Step::Done(Err(error)),
        Progress::Ready(value, used) => (value, used),
    };
    if replies.len() <= listed {
        return Step::Ask(Statement::InsertAppend {
            thread_id: thread_id.clone(),
            request_id: params.request_id.clone(),
            append_idempotency_key: params.append_idempotency_key.clone(),
            payload_refs_json: fingerprint,
            response,
        });
    }
    let recorded = match replies[listed].inserted() {
        Ok(recorded) => recorded,
        Err(error) => return Step::Done(Err(error)),
    };
    if !recorded {
        return find_duplicate_append(params, thread_id, replies, listed + 1);
    }
    if replies.len() <= listed + 1 {
        return Step::Ask(Statement::Commit);
    }
    if let Err(error) = replies[listed + 1].done() {
        return Step::Done(Err(error));
    }
    Step::Done(Ok(response))
}

/// Appends under a lease that was read: a wrong or expired one is lost, a repeated append is
/// answered as before.
pub open spec fn append_under_lease_steps(
    params: LeaseAppendView,
    thread_id: Seq<char>,
    now_ms: i64,
    h: Seq<ReplyView>,
    at: int,
) -> StepView<AppendThreadItemsWithLeaseResponse> {
    ask(
        h,
        at,
        StatementView::LockHeldThreadLease {
            thread_id,
        },
        |reply: ReplyView| reply.lease_row(),
        |held: Option<LeaseRowView>|
            if !lease_allows(held, params, now_ms) {
                if held is Some && held->0.request_id == params.request_id {
                    after(
                        end_with_event_steps(
                            params.request_id,
                            RequestStatus::LeaseLost,
                            "request/lease_lost"@,
                            "{\"reason\":\"thread_writer_lease_lost\"}"@,
                            now_ms,
                            h,
                            at + 1,
                        ),
                        |_done: TerminalStatusUpdate, ended: int|
                            after(
                                release_leases_steps(
                                    thread_id,
                                    params.request_id,
                                    now_ms,
                                    h,
                                    ended,
                                ),
                                |_done: (), released: int|
                                    ask(
                                        h,
                                        released,
                                        StatementView::Commit,
                                        |reply: ReplyView| reply.done(),
                                        |_done: ()|
                                            StepView::Done(Err(ErrorView::LeaseLost)),
                                    ),
                            ),
                    )
                } else {
                    ask(
                        h,
                        at + 1,
                        StatementView::Commit,
                        |reply: ReplyView| reply.done(),
                        |_done: ()|
                            StepView::Done(Err(ErrorView::LeaseLost)),
                    )
                }
            } else {
                ask(
                    h,
                    at + 1,
                    StatementView::SelectAppend {
                        thread_id,
                        append_idempotency_key: params.append_idempotency_key,
                    },
                    |reply: ReplyView| reply.append_row(),
                    |existing: Option<AppendRowView>|
                        match existing {
                            None => append_new_items_steps(params, thread_id, h, at + 2),
                            Some(existing) => if !repeats(existing, params) {
                                ask(
                                    h,
                                    at + 2,
                                    StatementView::Rollback,
                                    |reply: ReplyView| reply.done(),
                                    |_done: ()|
                                        StepView::Done(Err(ErrorView::IdempotencyConflict)),
                                )
                            } else {
                                ask(
                                    h,
                                    at + 2,
                                    StatementView::Commit,
                                    |reply: ReplyView| reply.done(),
                                    |_done: ()|
                                        StepView::Done(Ok(repeated_response(existing))),
                                )
                            },
                        },
                )
            },
    )
}

/// Appends under a lease that was read: a wrong or expired one is lost, a repeated append is
/// answered as before.
fn append_under_lease(
    params: &LeaseAppendParams,
    thread_id: &String,
    now_ms: i64,
    replies: &Vec<Reply>,
    at: usize,
) -> (r: Step<AppendThreadItemsWithLeaseResponse>)
    requires
        replies_fit(replies.deep_view(), params.payload_refs@.len()),
        params.payload_refs@.len() > 0,
        at <= replies@.len(),
    ensures
        r.deep_view() == append_under_lease_steps(
            params.deep_view(),
            thread_id@,
            now_ms,
            replies.deep_view(),
            at as int,
        ),
{
    if replies.len() <= at {
        return Step::Ask(Statement::LockHeldThreadLease {
            thread_id: thread_id.clone(),
        });
    }
    let held = match replies[at].lease_row() {
        Ok(held) => held,
        Err(error) => return Step::Done(Err(error)),
    };
    if !is_allowed(held, params, now_ms) {
        if is_held_by(held, &params.request_id) {
            let (_, ended) = match end_with_event(
                &params.request_id,
                RequestStatus::LeaseLost,
                "request/lease_lost",
                "{\"reason\":\"thread_writer_lease_lost\"}",
                now_ms,
                replies,
                at + 1,
            ) {
                Progress::Ask(statement) => return Step::Ask(statement),
                Progress::Failed(error) => return Step::Done(Err(error)),
                Progress::Ready(value, used) => (value, used),
            };
            let (_, released) = match release_leases(
                thread_id,
                &params.request_id,
                now_ms,
                replies,
                ended,
            ) {
                Progress::Ask(statement) => return Step::Ask(statement),
                Progress::Failed(error) => return Step::Done(Err(error)),
                Progress::Ready(value, used) => (value, used),
            };
            if replies.len() <= released {
                return Step::Ask(Statement::Commit);
            }
            if let Err(error) = replies[released].done() {
                return Step::Done(Err(error));
            }
            return Step::Done(Err(CloudStateError::LeaseLost));
        }
        if replies.len() <= at + 1 {
            return Step::Ask(Statement::Commit);
        }
        if let Err(error) = replies[at + 1].done() {
            return Step::Done(Err(error));
        }
        return Step::Done(Err(CloudStateError::LeaseLost));
    }
    if replies.len() <= at + 1 {
        return Step::Ask(Statement::SelectAppend {
            thread_id: thread_id.clone(),
            append_idempotency_key: params.append_idempotency_key.clone(),
        });
    }
    let existing = match replies[at + 1].append_row() {
        Ok(existing) => existing,
        Err(error) => return Step::Done(Err(error)),
    };
    let existing = match existing {
        Some(existing) => existing,
        None => {
            return append_new_items(params, thread_id, replies, at + 2);
        },
    };
    if !is_repetition(existing, params) {
        if replies.len() <= at + 2 {
            return Step::Ask(Statement::Rollback);
        }
        if let Err(error) = replies[at + 2].done() {
            return Step::Done(Err(error));
        }
        return Step::Done(Err(CloudStateError::IdempotencyConflict));
    }
    if replies.len() <= at + 2 {
        return Step::Ask(Statement::Commit);
    }
    if let Err(error) = replies[at + 2].done() {
        return Step::Done(Err(error));
    }
    Step::Done(Ok(repeated_response_of(existing)))
}

/// Appends items to the thread of a request, under its lease.
pub open spec fn append_thread_items_with_lease_steps(
    params: LeaseAppendView,
    now_ms: i64,
    h: Seq<ReplyView>,
) -> StepView<AppendThreadItemsWithLeaseResponse> {
    if params.payload_refs.len() == 0 {
        StepView::Done(Err(ErrorView::EmptyAppend))
    } else {
        ask(
            h,
            0,
            StatementView::SelectRequest {
                request_id: params.request_id,
            },
            |reply: ReplyView| reply.request(),
            |found: Option<RequestView>|
                match found {
                    None => StepView::Done(Err(ErrorView::RequestNotFound)),
                    Some(request) => ask(
                        h,
                        1,
                        StatementView::Begin,
                        |reply: ReplyView| reply.done(),
                        |_done: ()|
                            append_under_lease_steps(params, request.thread_id, now_ms, h, 2),
                    ),
                },
        )
    }
}

/// Appends items to the thread of a request, under its lease.
pub fn append_thread_items_with_lease(
    params: &LeaseAppendParams,
    now_ms: i64,
    replies: &Vec<Reply>,
) -> (r: Step<AppendThreadItemsWithLeaseResponse>)
    requires
        replies_fit(replies.deep_view(), params.payload_refs@.len()),
    ensures
        r.deep_view() == append_thread_items_with_lease_steps(
            params.deep_view(),
            now_ms,
            replies.deep_view(),
        ),
{
    if params.payload_refs.len() == 0 {
        return Step::Done(Err(CloudStateError::EmptyAppend));
    }
    if replies.len() <= 0 {
        return Step::Ask(Statement::SelectRequest {
            request_id: params.request_id.clone(),
        });
    }
    let found = match replies[0].request() {
        Ok(found) => found,
        Err(error) => return Step::Done(Err(error)),
    };
    let request = match found {
        Some(request) => request,
        None => {
            return Step::Done(Err(CloudStateError::RequestNotFound));
        },
    };
    if replies.len() <= 1 {
        return Step::Ask(Statement::Begin);
    }
    if let Err(error) = replies[1].done() {
        return Step::Done(Err(error));
    }
    append_under_lease(params, &request.thread_id, now_ms, replies, 2)
}

/// Reads items of a thread after a cursor, and the next cursor.
pub open spec fn list_thread_items_steps(
    thread_id: Seq<char>,
    cursor: Option<u64>,
    limit: nat,
    h: Seq<ReplyView>,
) -> StepView<(Seq<ThreadItemView>, Option<u64>)> {
    ask(
        h,
        0,
        StatementView::SelectItems {
            thread_id,
            after: StoreModel::start(cursor),
            count: (limit + 1) as u64,
        },
        |reply: ReplyView| reply.items(),
        |rows: Seq<ThreadItemView>|
            StepView::Done(
                Ok(crate::model::page(rows, limit, |item: ThreadItemView| item.sequence)),
            ),
    )
}

/// Reads items of a thread after a cursor, and the next cursor.
pub fn list_thread_items(
    thread_id: &String,
    cursor: Option<u64>,
    limit: usize,
    replies: &Vec<Reply>,
) -> (r: Step<(Vec<ThreadItemRecord>, Option<u64>)>)
    requires
        limit < usize::MAX,
    ensures
        r.deep_view() == list_thread_items_steps(
            thread_id@,
            cursor,
            limit as nat,
            replies.deep_view(),
        ),
{
    if replies.len() <= 0 {
        return Step::Ask(Statement::SelectItems {
            thread_id: thread_id.clone(),
            after: start_of(cursor),
            count: limit as u64 + 1,
        });
    }
    let rows = match replies[0].items() {
        Ok(rows) => rows,
        Err(error) => return Step::Done(Err(error)),
    };
    Step::Done(Ok(item_page(rows, limit)))
}

} // verus!
