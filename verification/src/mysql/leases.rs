//! Taking, renewing and losing leases.
use vstd::prelude::*;

use crate::mysql::statements::{
    after, ask, part, LeaseRow, LeaseRowView, OwnedRequestView, Progress, ProgressView, Reply,
    ReplyView, Statement, StatementView, Step, StepView,
};
use crate::protocol::{RequestStatus, WriterLeaseRecord};
use crate::protocol::request::WriterLeaseView;
use crate::records::{
    CloudStateError, ErrorView, LeaseAcquireOutcome, LeaseAcquireView, RequestView,
    TerminalStatusUpdate,
};
use crate::text::copy_optional;

verus! {

/// How long a writer lease lasts, in milliseconds.
pub const THREAD_WRITER_LEASE_TTL_MS: i64 = 30_000;

/// How long an owner lease lasts, in milliseconds.
pub const OWNER_LEASE_TTL_MS: i64 = 180_000;

/// Whether leases that start now end at a time that can be written down.
pub open spec fn clock_fits(now_ms: i64) -> bool {
    now_ms + OWNER_LEASE_TTL_MS <= i64::MAX
}

/// The lease of a row, as clients see it.
pub open spec fn held_lease(row: Option<LeaseRowView>) -> Option<WriterLeaseView> {
    match row {
        Some(row) => Some(
            WriterLeaseView {
                lease_id: row.lease_id,
                writer_owner_token: row.owner_instance_id,
                fencing_token: row.fencing_token,
            },
        ),
        None => None,
    }
}

fn writer_lease(row: &Option<LeaseRow>) -> (r: Option<WriterLeaseRecord>)
    ensures
        r.deep_view() == held_lease(row.deep_view()),
{
    match row {
        Some(row) => Some(
            WriterLeaseRecord {
                lease_id: row.lease_id.clone(),
                writer_owner_token: row.owner_instance_id.clone(),
                fencing_token: row.fencing_token,
            },
        ),
        None => None,
    }
}

/// Ends, from the `from`-th one on, the requests whose owners have timed out.
pub open spec fn expire_each_steps(
    expired: Seq<OwnedRequestView>,
    from: int,
    ended_so_far: usize,
    now_ms: i64,
    h: Seq<ReplyView>,
    at: int,
) -> StepView<usize>
    decreases expired.len() - from,
{
    if from >= expired.len() {
        ask(
            h,
            at,
            StatementView::Commit,
            |reply: ReplyView| reply.done(),
            |_done: ()| StepView::Done(Ok(ended_so_far)),
        )
    } else {
        match end_with_event_steps(
            expired[from].request_id,
            RequestStatus::OwnerTimedOut,
            "request/owner_timed_out"@,
            "{\"reason\":\"owner_lease_expired\"}"@,
            now_ms,
            h,
            at,
        ) {
            ProgressView::Ask(statement) => StepView::Ask(statement),
            ProgressView::Failed(error) => StepView::Done(Err(error)),
            ProgressView::Ready(update, ended) => match release_leases_steps(
                expired[from].thread_id,
                expired[from].request_id,
                now_ms,
                h,
                ended,
            ) {
                ProgressView::Ask(statement) => StepView::Ask(statement),
                ProgressView::Failed(error) => StepView::Done(Err(error)),
                ProgressView::Ready(_, released) => expire_each_steps(
                    expired,
                    from + 1,
                    if update == TerminalStatusUpdate::Changed {
                        (ended_so_far + 1) as usize
                    } else {
                        ended_so_far
                    },
                    now_ms,
                    h,
                    released,
                ),
            },
        }
    }
}

/// Ends the requests whose owners have timed out, and tells how many they were.
pub open spec fn expire_owner_leases_steps(now_ms: i64, h: Seq<ReplyView>) -> StepView<usize> {
    ask(
        h,
        0,
        StatementView::Begin,
        |reply: ReplyView| reply.done(),
        |_done: ()|
            ask(
                h,
                1,
                StatementView::LockExpiredOwners { now_ms },
                |reply: ReplyView| reply.owners(),
                |expired: Seq<OwnedRequestView>| expire_each_steps(expired, 0, 0, now_ms, h, 2),
            ),
    )
}

/// Ends the requests whose owners have timed out, and tells how many they were.
pub fn expire_owner_leases(now_ms: i64, replies: &Vec<Reply>) -> (r: Step<usize>)
    ensures
        r.deep_view() == expire_owner_leases_steps(now_ms, replies.deep_view()),
{
    if replies.len() <= 0 {
        return Step::Ask(Statement::Begin);
    }
    if let Err(error) = replies[0].done() {
        return Step::Done(Err(error));
    }
    if replies.len() <= 1 {
        return Step::Ask(Statement::LockExpiredOwners { now_ms });
    }
    let expired = match replies[1].owners() {
        Ok(expired) => expired,
        Err(error) => return Step::Done(Err(error)),
    };
    let mut at: usize = 2;
    let mut ended_so_far: usize = 0;
    let count: usize = expired.len();
    for i in 0..count
        invariant
            count == expired@.len(),
            ended_so_far <= i,
            at <= replies@.len(),
            expire_owner_leases_steps(now_ms, replies.deep_view()) == expire_each_steps(
                expired.deep_view(),
                i as int,
                ended_so_far,
                now_ms,
                replies.deep_view(),
                at as int,
            ),
    {
        let (update, ended) = match end_with_event(
            &expired[i].request_id,
            RequestStatus::OwnerTimedOut,
            "request/owner_timed_out",
            "{\"reason\":\"owner_lease_expired\"}",
            now_ms,
            replies,
            at,
        ) {
            Progress::Ask(statement) => return Step::Ask(statement),
            Progress::Failed(error) => return Step::Done(Err(error)),
            Progress::Ready(value, used) => (value, used),
        };
        let (_, released) = match release_leases(
            &expired[i].thread_id,
            &expired[i].request_id,
            now_ms,
            replies,
            ended,
        ) {
            Progress::Ask(statement) => return Step::Ask(statement),
            Progress::Failed(error) => return Step::Done(Err(error)),
            Progress::Ready(value, used) => (value, used),
        };
        at = released;
        if update == TerminalStatusUpdate::Changed {
            ended_so_far = ended_so_far + 1;
        }
    }
    if replies.len() <= at {
        return Step::Ask(Statement::Commit);
    }
    if let Err(error) = replies[at].done() {
        return Step::Done(Err(error));
    }
    Step::Done(Ok(ended_so_far))
}

/// Ends a request that is not over, and records that as its next event.
pub open spec fn end_with_event_steps(
    request_id: Seq<char>,
    status: RequestStatus,
    event_type: Seq<char>,
    payload_inline: Seq<char>,
    now_ms: i64,
    h: Seq<ReplyView>,
    at: int,
) -> ProgressView<TerminalStatusUpdate> {
    part(
        h,
        at,
        StatementView::EndRequestWithEvent {
            request_id,
            status,
            now_ms,
        },
        |reply: ReplyView| reply.affected(),
        |changed: u64|
            if changed == 0 {
                ProgressView::Ready(TerminalStatusUpdate::Unchanged, at + 1)
            } else {
                part(
                    h,
                    at + 1,
                    StatementView::SelectCursor {
                        request_id,
                    },
                    |reply: ReplyView| reply.number(),
                    |sequence: u64|
                        part(
                            h,
                            at + 2,
                            StatementView::InsertEvent {
                                request_id,
                                sequence,
                                event_type,
                                payload_inline,
                                now_ms,
                            },
                            |reply: ReplyView| reply.done(),
                            |_done: ()|
                                ProgressView::Ready(TerminalStatusUpdate::Changed, at + 3),
                        ),
                )
            },
    )
}

/// Ends a request that is not over, and records that as its next event.
pub(crate) fn end_with_event(
    request_id: &String,
    status: RequestStatus,
    event_type: &'static str,
    payload_inline: &'static str,
    now_ms: i64,
    replies: &Vec<Reply>,
    at: usize,
) -> (r: Progress<TerminalStatusUpdate>)
    requires
        at <= replies@.len(),
    ensures
        r.deep_view() == end_with_event_steps(
            request_id@,
            status,
            event_type@,
            payload_inline@,
            now_ms,
            replies.deep_view(),
            at as int,
        ),
        r matches Progress::Ready(_, used) ==> at <= used <= replies@.len(),
{
    if replies.len() <= at {
        return Progress::Ask(Statement::EndRequestWithEvent {
            request_id: request_id.clone(),
            status,
            now_ms,
        });
    }
    let changed = match replies[at].affected() {
        Ok(changed) => changed,
        Err(error) => return Progress::Failed(error),
    };
    if changed == 0 {
        return Progress::Ready(TerminalStatusUpdate::Unchanged, at + 1);
    }
    if replies.len() <= at + 1 {
        return Progress::Ask(Statement::SelectCursor {
            request_id: request_id.clone(),
        });
    }
    let sequence = match replies[at + 1].number() {
        Ok(sequence) => sequence,
        Err(error) => return Progress::Failed(error),
    };
    if replies.len() <= at + 2 {
        return Progress::Ask(Statement::InsertEvent {
            request_id: request_id.clone(),
            sequence,
            event_type: event_type.to_owned(),
            payload_inline: payload_inline.to_owned(),
            now_ms,
        });
    }
    if let Err(error) = replies[at + 2].done() {
        return Progress::Failed(error);
    }
    Progress::Ready(TerminalStatusUpdate::Changed, at + 3)
}

/// Releases the writer lease and the owner lease of a request.
pub open spec fn release_leases_steps(
    thread_id: Seq<char>,
    request_id: Seq<char>,
    now_ms: i64,
    h: Seq<ReplyView>,
    at: int,
) -> ProgressView<()> {
    part(
        h,
        at,
        StatementView::ReleaseThreadLease {
            thread_id,
            request_id,
            now_ms,
        },
        |reply: ReplyView| reply.done(),
        |_done: ()|
            part(
                h,
                at + 1,
                StatementView::DeleteThreadLease {
                    thread_id,
                    request_id,
                },
                |reply: ReplyView| reply.done(),
                |_done: ()|
                    part(
                        h,
                        at + 2,
                        StatementView::ReleaseOwnerLease {
                            request_id,
                            now_ms,
                        },
                        |reply: ReplyView| reply.done(),
                        |_done: ()|
                            ProgressView::Ready((), at + 3),
                    ),
            ),
    )
}

/// Releases the writer lease and the owner lease of a request.
pub(crate) fn release_leases(
    thread_id: &String,
    request_id: &String,
    now_ms: i64,
    replies: &Vec<Reply>,
    at: usize,
) -> (r: Progress<()>)
    requires
        at <= replies@.len(),
    ensures
        r.deep_view() == release_leases_steps(
            thread_id@,
            request_id@,
            now_ms,
            replies.deep_view(),
            at as int,
        ),
        r matches Progress::Ready(_, used) ==> at <= used <= replies@.len(),
{
    if replies.len() <= at {
        return Progress::Ask(Statement::ReleaseThreadLease {
            thread_id: thread_id.clone(),
            request_id: request_id.clone(),
            now_ms,
        });
    }
    if let Err(error) = replies[at].done() {
        return Progress::Failed(error);
    }
    if replies.len() <= at + 1 {
        return Progress::Ask(Statement::DeleteThreadLease {
            thread_id: thread_id.clone(),
            request_id: request_id.clone(),
        });
    }
    if let Err(error) = replies[at + 1].done() {
        return Progress::Failed(error);
    }
    if replies.len() <= at + 2 {
        return Progress::Ask(Statement::ReleaseOwnerLease {
            request_id: request_id.clone(),
            now_ms,
        });
    }
    if let Err(error) = replies[at + 2].done() {
        return Progress::Failed(error);
    }
    Progress::Ready((), at + 3)
}

/// Takes the writer lease of a thread on which none is held.
pub open spec fn acquire_free_lease_steps(
    request_id: Seq<char>,
    owner_instance_id: Seq<char>,
    lease_id: Seq<char>,
    now_ms: i64,
    h: Seq<ReplyView>,
    at: int,
) -> StepView<LeaseAcquireView> {
    ask(
        h,
        at,
        StatementView::LockRequest {
            request_id,
        },
        |reply: ReplyView| reply.request(),
        |found: Option<RequestView>|
            match found {
                None => StepView::Done(Err(ErrorView::RequestNotFound)),
                Some(request) => if request.status != RequestStatus::Queued {
                    ask(
                        h,
                        at + 1,
                        StatementView::Commit,
                        |reply: ReplyView| reply.done(),
                        |_done: ()|
                            StepView::Done(Err(ErrorView::RequestNotQueued)),
                    )
                } else {
                    ask(
                        h,
                        at + 1,
                        StatementView::InsertFencingToken {
                            request_id: request.request_id,
                            now_ms,
                        },
                        |reply: ReplyView| reply.done(),
                        |_done: ()|
                            ask(
                                h,
                                at + 2,
                                StatementView::SelectFencingToken,
                                |reply: ReplyView| reply.number(),
                                |fencing_token: u64|
                                    ask(
                                        h,
                                        at + 3,
                                        StatementView::InsertThreadLease {
                                            thread_id: request.thread_id,
                                            request_id: request.request_id,
                                            lease_id,
                                            owner_instance_id,
                                            fencing_token,
                                            now_ms,
                                            expires_at_ms: (
                                                now_ms + THREAD_WRITER_LEASE_TTL_MS
                                            ) as i64,
                                        },
                                        |reply: ReplyView| reply.inserted(),
                                        |taken: bool|
                                            if !taken {
                                                ask(
                                                    h,
                                                    at + 4,
                                                    StatementView::Rollback,
                                                    |reply: ReplyView| reply.done(),
                                                    |_done: ()|
                                                        StepView::Done(
                                                            Ok(LeaseAcquireView::Queued),
                                                        ),
                                                )
                                            } else {
                                                ask(
                                                    h,
                                                    at + 4,
                                                    StatementView::UpsertOwnerLease {
                                                        request_id: request.request_id,
                                                        turn_id: request.turn_id,
                                                        owner_instance_id,
                                                        now_ms,
                                                        expires_at_ms: (
                                                            now_ms + OWNER_LEASE_TTL_MS
                                                        ) as i64,
                                                    },
                                                    |reply: ReplyView| reply.done(),
                                                    |_done: ()|
                                                        ask(
                                                            h,
                                                            at + 5,
                                                            StatementView::SetStatus {
                                                                request_id: request.request_id,
                                                                status: RequestStatus::Running,
                                                            },
                                                            |reply: ReplyView| reply.affected(),
                                                            |started: u64|
                                                                if started == 0 {
                                                                    StepView::Done(
                                                                        Err(
                                                                            ErrorView::RequestNotFound,
                                                                        ),
                                                                    )
                                                                } else {
                                                                    ask(
                                                                        h,
                                                                        at + 6,
                                                                        StatementView::Commit,
                                                                        |reply: ReplyView| reply.done(),
                                                                        |_done: ()|
                                                                            StepView::Done(
                                                                                Ok(
                                                                                    LeaseAcquireView::Acquired {
                                                                                        lease_id,
                                                                                        fencing_token,
                                                                                    },
                                                                                ),
                                                                            ),
                                                                    )
                                                                },
                                                        ),
                                                )
                                            },
                                    ),
                            ),
                    )
                },
            },
    )
}

/// Takes the writer lease of a thread on which none is held.
fn acquire_free_lease(
    request_id: &String,
    owner_instance_id: &String,
    lease_id: &String,
    now_ms: i64,
    replies: &Vec<Reply>,
    at: usize,
) -> (r: Step<LeaseAcquireOutcome>)
    requires
        clock_fits(now_ms),
        at <= replies@.len(),
    ensures
        r.deep_view() == acquire_free_lease_steps(
            request_id@,
            owner_instance_id@,
            lease_id@,
            now_ms,
            replies.deep_view(),
            at as int,
        ),
{
    if replies.len() <= at {
        return Step::Ask(Statement::LockRequest {
            request_id: request_id.clone(),
        });
    }
    let found = match replies[at].request() {
        Ok(found) => found,
        Err(error) => return Step::Done(Err(error)),
    };
    let request = match found {
        Some(request) => request,
        None => {
            return Step::Done(Err(CloudStateError::RequestNotFound));
        },
    };
    if request.status != RequestStatus::Queued {
        if replies.len() <= at + 1 {
            return Step::Ask(Statement::Commit);
        }
        if let Err(error) = replies[at + 1].done() {
            return Step::Done(Err(error));
        }
        return Step::Done(Err(CloudStateError::RequestNotQueued));
    }
    if replies.len() <= at + 1 {
        return Step::Ask(Statement::InsertFencingToken {
            request_id: request.request_id.clone(),
            now_ms,
        });
    }
    if let Err(error) = replies[at + 1].done() {
        return Step::Done(Err(error));
    }
    if replies.len() <= at + 2 {
        return Step::Ask(Statement::SelectFencingToken);
    }
    let fencing_token = match replies[at + 2].number() {
        Ok(fencing_token) => fencing_token,
        Err(error) => return Step::Done(Err(error)),
    };
    if replies.len() <= at + 3 {
        return Step::Ask(Statement::InsertThreadLease {
            thread_id: request.thread_id.clone(),
            request_id: request.request_id.clone(),
            lease_id: lease_id.clone(),
            owner_instance_id: owner_instance_id.clone(),
            fencing_token,
            now_ms,
            expires_at_ms: now_ms + THREAD_WRITER_LEASE_TTL_MS,
        });
    }
    let taken = match replies[at + 3].inserted() {
        Ok(taken) => taken,
        Err(error) => return Step::Done(Err(error)),
    };
    if !taken {
        if replies.len() <= at + 4 {
            return Step::Ask(Statement::Rollback);
        }
        if let Err(error) = replies[at + 4].done() {
            return Step::Done(Err(error));
        }
        return Step::Done(Ok(LeaseAcquireOutcome::Queued));
    }
    if replies.len() <= at + 4 {
        return Step::Ask(Statement::UpsertOwnerLease {
            request_id: request.request_id.clone(),
            turn_id: copy_optional(&request.turn_id),
            owner_instance_id: owner_instance_id.clone(),
            now_ms,
            expires_at_ms: now_ms + OWNER_LEASE_TTL_MS,
        });
    }
    if let Err(error) = replies[at + 4].done() {
        return Step::Done(Err(error));
    }
    if replies.len() <= at + 5 {
        return Step::Ask(Statement::SetStatus {
            request_id: request.request_id.clone(),
            status: RequestStatus::Running,
        });
    }
    let started = match replies[at + 5].affected() {
        Ok(started) => started,
        Err(error) => return Step::Done(Err(error)),
    };
    if started == 0 {
        return Step::Done(Err(CloudStateError::RequestNotFound));
    }
    if replies.len() <= at + 6 {
        return Step::Ask(Statement::Commit);
    }
    if let Err(error) = replies[at + 6].done() {
        return Step::Done(Err(error));
    }
    Step::Done(Ok(LeaseAcquireOutcome::Acquired { lease_id: lease_id.clone(), fencing_token }))
}

/// Takes the writer lease of the request's thread for an owner; a lease that has expired is lost to
/// the request that held it.
pub open spec fn acquire_thread_writer_lease_steps(
    request_id: Seq<char>,
    owner_instance_id: Seq<char>,
    lease_id: Seq<char>,
    now_ms: i64,
    h: Seq<ReplyView>,
) -> StepView<LeaseAcquireView> {
    ask(
        h,
        0,
        StatementView::Begin,
        |reply: ReplyView| reply.done(),
        |_done: ()|
            ask(
                h,
                1,
                StatementView::LockRequest {
                    request_id,
                },
                |reply: ReplyView| reply.request(),
                |found: Option<RequestView>|
                    match found {
                        None => StepView::Done(Err(ErrorView::RequestNotFound)),
                        Some(request) => ask(
                            h,
                            2,
                            StatementView::LockThreadLease {
                                thread_id: request.thread_id,
                            },
                            |reply: ReplyView| reply.lease_row(),
                            |held: Option<LeaseRowView>|
                                match held {
                                    None => acquire_free_lease_steps(
                                        request_id,
                                        owner_instance_id,
                                        lease_id,
                                        now_ms,
                                        h,
                                        3,
                                    ),
                                    Some(held) => if held.expires_at_ms > now_ms {
                                        ask(
                                            h,
                                            3,
                                            StatementView::Commit,
                                            |reply: ReplyView| reply.done(),
                                            |_done: ()|
                                                StepView::Done(Ok(LeaseAcquireView::Queued)),
                                        )
                                    } else {
                                        after(
                                            end_with_event_steps(
                                                held.request_id,
                                                RequestStatus::LeaseLost,
                                                "request/lease_lost"@,
                                                "{\"reason\":\"thread_writer_lease_expired\"}"@,
                                                now_ms,
                                                h,
                                                3,
                                            ),
                                            |_done: TerminalStatusUpdate, ended: int|
                                                after(
                                                    release_leases_steps(
                                                        request.thread_id,
                                                        held.request_id,
                                                        now_ms,
                                                        h,
                                                        ended,
                                                    ),
                                                    |_done: (), released: int|
                                                        acquire_free_lease_steps(
                                                            request_id,
                                                            owner_instance_id,
                                                            lease_id,
                                                            now_ms,
                                                            h,
                                                            released,
                                                        ),
                                                ),
                                        )
                                    },
                                },
                        ),
                    },
            ),
    )
}

/// Takes the writer lease of the request's thread for an owner; a lease that has expired is lost to
/// the request that held it.
pub fn acquire_thread_writer_lease(
    request_id: &String,
    owner_instance_id: &String,
    lease_id: &String,
    now_ms: i64,
    replies: &Vec<Reply>,
) -> (r: Step<LeaseAcquireOutcome>)
    requires
        clock_fits(now_ms),
    ensures
        r.deep_view() == acquire_thread_writer_lease_steps(
            request_id@,
            owner_instance_id@,
            lease_id@,
            now_ms,
            replies.deep_view(),
        ),
{
    if replies.len() <= 0 {
        return Step::Ask(Statement::Begin);
    }
    if let Err(error) = replies[0].done() {
        return Step::Done(Err(error));
    }
    if replies.len() <= 1 {
        return Step::Ask(Statement::LockRequest {
            request_id: request_id.clone(),
        });
    }
    let found = match replies[1].request() {
        Ok(found) => found,
        Err(error) => return Step::Done(Err(error)),
    };
    let request = match found {
        Some(request) => request,
        None => {
            return Step::Done(Err(CloudStateError::RequestNotFound));
        },
    };
    if replies.len() <= 2 {
        return Step::Ask(Statement::LockThreadLease {
            thread_id: request.thread_id.clone(),
        });
    }
    let held = match replies[2].lease_row() {
        Ok(held) => held,
        Err(error) => return Step::Done(Err(error)),
    };
    let held = match held {
        Some(held) => held,
        None => {
            return acquire_free_lease(request_id, owner_instance_id, lease_id, now_ms, replies, 3);
        },
    };
    if held.expires_at_ms > now_ms {
        if replies.len() <= 3 {
            return Step::Ask(Statement::Commit);
        }
        if let Err(error) = replies[3].done() {
            return Step::Done(Err(error));
        }
        return Step::Done(Ok(LeaseAcquireOutcome::Queued));
    }
    let (_, ended) = match end_with_event(
        &held.request_id,
        RequestStatus::LeaseLost,
        "request/lease_lost",
        "{\"reason\":\"thread_writer_lease_expired\"}",
        now_ms,
        replies,
        3,
    ) {
        Progress::Ask(statement) => return Step::Ask(statement),
        Progress::Failed(error) => return Step::Done(Err(error)),
        Progress::Ready(value, used) => (value, used),
    };
    let (_, released) = match release_leases(
        &request.thread_id,
        &held.request_id,
        now_ms,
        replies,
        ended,
    ) {
        Progress::Ask(statement) => return Step::Ask(statement),
        Progress::Failed(error) => return Step::Done(Err(error)),
        Progress::Ready(value, used) => (value, used),
    };
    acquire_free_lease(request_id, owner_instance_id, lease_id, now_ms, replies, released)
}

/// Reads the lease under which a request writes.
pub open spec fn read_thread_writer_lease_steps(
    request_id: Seq<char>,
    now_ms: i64,
    h: Seq<ReplyView>,
) -> StepView<Option<WriterLeaseView>> {
    ask(
        h,
        0,
        StatementView::SelectRequest {
            request_id,
        },
        |reply: ReplyView| reply.request(),
        |found: Option<RequestView>|
            if found is None {
                StepView::Done(Err(ErrorView::RequestNotFound))
            } else {
                ask(
                    h,
                    1,
                    StatementView::SelectRequestLease {
                        request_id,
                        now_ms,
                    },
                    |reply: ReplyView| reply.lease_row(),
                    |held: Option<LeaseRowView>|
                        StepView::Done(Ok(held_lease(held))),
                )
            },
    )
}

/// Reads the lease under which a request writes.
pub fn read_thread_writer_lease(
    request_id: &String,
    now_ms: i64,
    replies: &Vec<Reply>,
) -> (r: Step<Option<WriterLeaseRecord>>)
    ensures
        r.deep_view() == read_thread_writer_lease_steps(request_id@, now_ms, replies.deep_view()),
{
    if replies.len() <= 0 {
        return Step::Ask(Statement::SelectRequest {
            request_id: request_id.clone(),
        });
    }
    let found = match replies[0].request() {
        Ok(found) => found,
        Err(error) => return Step::Done(Err(error)),
    };
    if found.is_none() {
        return Step::Done(Err(CloudStateError::RequestNotFound));
    }
    if replies.len() <= 1 {
        return Step::Ask(Statement::SelectRequestLease {
            request_id: request_id.clone(),
            now_ms,
        });
    }
    let held = match replies[1].lease_row() {
        Ok(held) => held,
        Err(error) => return Step::Done(Err(error)),
    };
    Step::Done(Ok(writer_lease(held)))
}

/// Renews the leases of a request for an owner; if one of them is lost, so is the request.
pub open spec fn renew_request_leases_steps(
    request_id: Seq<char>,
    owner_instance_id: Seq<char>,
    now_ms: i64,
    h: Seq<ReplyView>,
) -> StepView<bool> {
    ask(
        h,
        0,
        StatementView::Begin,
        |reply: ReplyView| reply.done(),
        |_done: ()|
            ask(
                h,
                1,
                StatementView::LockRequest {
                    request_id,
                },
                |reply: ReplyView| reply.request(),
                |found: Option<RequestView>|
                    match found {
                        None => StepView::Done(Err(ErrorView::RequestNotFound)),
                        Some(request) => if request.status.terminal() {
                            ask(
                                h,
                                2,
                                StatementView::Commit,
                                |reply: ReplyView| reply.done(),
                                |_done: ()|
                                    StepView::Done(Ok(false)),
                            )
                        } else {
                            ask(
                                h,
                                2,
                                StatementView::RenewThreadLease {
                                    thread_id: request.thread_id,
                                    request_id: request.request_id,
                                    owner_instance_id,
                                    now_ms,
                                    expires_at_ms: (now_ms + THREAD_WRITER_LEASE_TTL_MS) as i64,
                                },
                                |reply: ReplyView| reply.affected(),
                                |renewed: u64|
                                    if renewed == 0 {
                                        after(
                                            end_with_event_steps(
                                                request.request_id,
                                                RequestStatus::LeaseLost,
                                                "request/lease_lost"@,
                                                "{\"reason\":\"thread_writer_lease_lost\"}"@,
                                                now_ms,
                                                h,
                                                3,
                                            ),
                                            |_done: TerminalStatusUpdate, ended: int|
                                                after(
                                                    release_leases_steps(
                                                        request.thread_id,
                                                        request.request_id,
                                                        now_ms,
                                                        h,
                                                        ended,
                                                    ),
                                                    |_done: (), released: int|
                                                        ask(
                                                            h,
                                                            released,
                                                            StatementView::Commit,
                                                            |reply: ReplyView| reply.done(),
                                                            |_done: ()|
                                                                StepView::Done(Ok(false)),
                                                        ),
                                                ),
                                        )
                                    } else {
                                        ask(
                                            h,
                                            3,
                                            StatementView::RenewOwnerLease {
                                                request_id: request.request_id,
                                                owner_instance_id,
                                                now_ms,
                                                expires_at_ms: (now_ms + OWNER_LEASE_TTL_MS) as i64,
                                            },
                                            |reply: ReplyView| reply.affected(),
                                            |owned: u64|
                                                if owned == 0 {
                                                    after(
                                                        end_with_event_steps(
                                                            request.request_id,
                                                            RequestStatus::OwnerTimedOut,
                                                            "request/owner_timed_out"@,
                                                            "{\"reason\":\"owner_lease_lost\"}"@,
                                                            now_ms,
                                                            h,
                                                            4,
                                                        ),
                                                        |_done: TerminalStatusUpdate, ended: int|
                                                            after(
                                                                release_leases_steps(
                                                                    request.thread_id,
                                                                    request.request_id,
                                                                    now_ms,
                                                                    h,
                                                                    ended,
                                                                ),
                                                                |_done: (), released: int|
                                                                    ask(
                                                                        h,
                                                                        released,
                                                                        StatementView::Commit,
                                                                        |reply: ReplyView| reply.done(),
                                                                        |_done: ()|
                                                                            StepView::Done(
                                                                                Ok(false),
                                                                            ),
                                                                    ),
                                                            ),
                                                    )
                                                } else {
                                                    ask(
                                                        h,
                                                        4,
                                                        StatementView::Commit,
                                                        |reply: ReplyView| reply.done(),
                                                        |_done: ()|
                                                            StepView::Done(Ok(true)),
                                                    )
                                                },
                                        )
                                    },
                            )
                        },
                    },
            ),
    )
}

/// Renews the leases of a request for an owner; if one of them is lost, so is the request.
pub fn renew_request_leases(
    request_id: &String,
    owner_instance_id: &String,
    now_ms: i64,
    replies: &Vec<Reply>,
) -> (r: Step<bool>)
    requires
        clock_fits(now_ms),
    ensures
        r.deep_view() == renew_request_leases_steps(
            request_id@,
            owner_instance_id@,
            now_ms,
            replies.deep_view(),
        ),
{
    if replies.len() <= 0 {
        return Step::Ask(Statement::Begin);
    }
    if let Err(error) = replies[0].done() {
        return Step::Done(Err(error));
    }
    if replies.len() <= 1 {
        return Step::Ask(Statement::LockRequest {
            request_id: request_id.clone(),
        });
    }
    let found = match replies[1].request() {
        Ok(found) => found,
        Err(error) => return Step::Done(Err(error)),
    };
    let request = match found {
        Some(request) => request,
        None => {
            return Step::Done(Err(CloudStateError::RequestNotFound));
        },
    };
    if request.status.is_terminal() {
        if replies.len() <= 2 {
            return Step::Ask(Statement::Commit);
        }
        if let Err(error) = replies[2].done() {
            return Step::Done(Err(error));
        }
        return Step::Done(Ok(false));
    }
    if replies.len() <= 2 {
        return Step::Ask(Statement::RenewThreadLease {
            thread_id: request.thread_id.clone(),
            request_id: request.request_id.clone(),
            owner_instance_id: owner_instance_id.clone(),
            now_ms,
            expires_at_ms: now_ms + THREAD_WRITER_LEASE_TTL_MS,
        });
    }
    let renewed = match replies[2].affected() {
        Ok(renewed) => renewed,
        Err(error) => return Step::Done(Err(error)),
    };
    if renewed == 0 {
        let (_, ended) = match end_with_event(
            &request.request_id,
            RequestStatus::LeaseLost,
            "request/lease_lost",
            "{\"reason\":\"thread_writer_lease_lost\"}",
            now_ms,
            replies,
            3,
        ) {
            Progress::Ask(statement) => return Step::Ask(statement),
            Progress::Failed(error) => return Step::Done(Err(error)),
            Progress::Ready(value, used) => (value, used),
        };
        let (_, released) = match release_leases(
            &request.thread_id,
            &request.request_id,
            now_ms,
            replies,
            ended,
        ) {
            Progress::Ask(statement) => return Step::Ask(statement),
            Progress::Failed(error) => return Step::Done(Err(error)),
            Progress::Ready(value, used) => (value, used),
        };
        if replies.len() <= released {
            return Step::Ask(Statement::Commit);
        }
        if let Err(error) = replies[released].done() {
            return Step::Done(Err(error));
        }
        return Step::Done(Ok(false));
    }
    if replies.len() <= 3 {
        return Step::Ask(Statement::RenewOwnerLease {
            request_id: request.request_id.clone(),
            owner_instance_id: owner_instance_id.clone(),
            now_ms,
            expires_at_ms: now_ms + OWNER_LEASE_TTL_MS,
        });
    }
    let owned = match replies[3].affected() {
        Ok(owned) => owned,
        Err(error) => return Step::Done(Err(error)),
    };
    if owned == 0 {
        let (_, ended) = match end_with_event(
            &request.request_id,
            RequestStatus::OwnerTimedOut,
            "request/owner_timed_out",
            "{\"reason\":\"owner_lease_lost\"}",
            now_ms,
            replies,
            4,
        ) {
            Progress::Ask(statement) => return Step::Ask(statement),
            Progress::Failed(error) => return Step::Done(Err(error)),
            Progress::Ready(value, used) => (value, used),
        };
        let (_, released) = match release_leases(
            &request.thread_id,
            &request.request_id,
            now_ms,
            replies,
            ended,
        ) {
            Progress::Ask(statement) => return Step::Ask(statement),
            Progress::Failed(error) => return Step::Done(Err(error)),
            Progress::Ready(value, used) => (value, used),
        };
        if replies.len() <= released {
            return Step::Ask(Statement::Commit);
        }
        if let Err(error) = replies[released].done() {
            return Step::Done(Err(error));
        }
        return Step::Done(Ok(false));
    }
    if replies.len() <= 4 {
        return Step::Ask(Statement::Commit);
    }
    if let Err(error) = replies[4].done() {
        return Step::Done(Err(error));
    }
    Step::Done(Ok(true))
}

} // verus!
