//! The operations of a store of threads, as conversations with a MySQL database.
use vstd::prelude::*;

use crate::threads::errors::{
    broken_thread_id, invalid_thread_id, no_writer_lease, writer_lease_missing, ThreadErrorView,
    ThreadStoreError,
};
use crate::threads::records::{
    shown_thread, stored_thread_from_row, CreateThreadParams, CreateThreadView, StoredHistoryView,
    StoredThread, StoredThreadHistory, StoredThreadView, ThreadMetadataPatch, ThreadPage,
    ThreadPageView, ThreadPatchView,
};
use crate::threads::statements::{
    thread_after, thread_ask, thread_part, ListedThread, ListedThreadView, Parsed, ParsedView,
    ThreadProgress, ThreadProgressView, ThreadReply, ThreadReplyView, ThreadRow, ThreadRowView,
    ThreadStatement, ThreadStatementView, ThreadStep, ThreadStepView,
};
use crate::threads::turn_ids::{one_turn, rollout_item_turn_ids, single_turn_id, turns_of};

verus! {

/// Whether the numbers that were read leave room for `more` numbers after them.
pub open spec fn numbers_fit(h: Seq<ThreadReplyView>, more: nat) -> bool {
    forall|i: int|
        0 <= i < h.len() ==> match #[trigger] h[i] {
            ThreadReplyView::Last(Some(n)) => n + more <= u64::MAX,
            _ => true,
        }
}

/// The number of the last item, or zero if there is none.
pub open spec fn number_or_zero(last: Option<u64>) -> u64 {
    match last {
        Some(n) => n,
        None => 0,
    }
}

fn last_number(last: Option<u64>) -> (r: u64)
    ensures
        r == number_or_zero(last),
{
    match last {
        Some(n) => n,
        None => 0,
    }
}

/// The thread that a row shows.
pub open spec fn shown_row(
    thread_id: Seq<char>,
    created: CreateThreadView,
    patch: Option<ThreadPatchView>,
    row: ThreadRowView,
    history: Option<StoredHistoryView>,
    cli_version: Seq<char>,
) -> StoredThreadView {
    shown_thread(
        thread_id,
        created,
        patch,
        row.created_at_ms,
        row.updated_at_ms,
        row.archived_at_ms,
        history,
        cli_version,
    )
}

fn show_row(
    thread_id: &String,
    created: &CreateThreadParams,
    patch: &Option<ThreadMetadataPatch>,
    row: &ThreadRow,
    history: Option<StoredThreadHistory>,
    cli_version: &String,
) -> (r: StoredThread)
    ensures
        r.deep_view() == shown_row(
            thread_id@,
            created.deep_view(),
            patch.deep_view(),
            row.deep_view(),
            history.deep_view(),
            cli_version@,
        ),
{
    stored_thread_from_row(
        thread_id,
        created,
        patch,
        row.created_at_ms,
        row.updated_at_ms,
        row.archived_at_ms,
        history,
        cli_version,
    )
}

/// Records the items from the `from`-th one on, the first of all under the number after
/// `base`.
pub open spec fn insert_items_after_steps(
    thread_id: Seq<char>,
    base: u64,
    items: Seq<Seq<char>>,
    from: int,
    now_ms: i64,
    h: Seq<ThreadReplyView>,
    at: int,
) -> ThreadProgressView<()>
    decreases items.len() - from,
{
    if from >= items.len() {
        ThreadProgressView::Ready((), at)
    } else if h.len() <= at {
        ThreadProgressView::Ask(
            ThreadStatementView::InsertItem {
                thread_id,
                sequence: (base + from + 1) as u64,
                item_json: items[from],
                now_ms,
            },
        )
    } else {
        match h[at].done() {
            Err(error) => ThreadProgressView::Failed(error),
            Ok(_) => insert_items_after_steps(thread_id, base, items, from + 1, now_ms, h, at + 1),
        }
    }
}

/// Records items, the first of them under the number after `base`.
fn insert_items_after(
    thread_id: &String,
    base: u64,
    items: &Vec<String>,
    now_ms: i64,
    replies: &Vec<ThreadReply>,
    at: usize,
) -> (r: ThreadProgress<()>)
    requires
        base + items@.len() <= u64::MAX,
        at <= replies@.len(),
    ensures
        r.deep_view() == insert_items_after_steps(
            thread_id@,
            base,
            items.deep_view(),
            0,
            now_ms,
            replies.deep_view(),
            at as int,
        ),
        r matches ThreadProgress::Ready(_, used) ==> at <= used <= replies@.len(),
{
    let count: usize = items.len();
    let answered: usize = replies.len();
    for i in 0..count
        invariant
            count == items@.len(),
            answered == replies@.len(),
            base + count <= u64::MAX,
            at + i <= answered,
            insert_items_after_steps(
                thread_id@,
                base,
                items.deep_view(),
                0,
                now_ms,
                replies.deep_view(),
                at as int,
            ) == insert_items_after_steps(
                thread_id@,
                base,
                items.deep_view(),
                i as int,
                now_ms,
                replies.deep_view(),
                at + i,
            ),
    {
        if answered - at <= i {
            return ThreadProgress::Ask(
                ThreadStatement::InsertItem {
                    thread_id: thread_id.clone(),
                    sequence: base + i as u64 + 1,
                    item_json: items[i].clone(),
                    now_ms,
                },
            );
        }
        if let Err(error) = replies[at + i].done() {
            return ThreadProgress::Failed(error);
        }
    }
    ThreadProgress::Ready((), at + count)
}

/// Records items after those that the thread has.
pub open spec fn insert_rollout_items_steps(
    thread_id: Seq<char>,
    items: Seq<Seq<char>>,
    h: Seq<ThreadReplyView>,
    at: int,
) -> ThreadProgressView<()> {
    if items.len() == 0 {
        ThreadProgressView::Ready((), at)
    } else {
        thread_part(
            h,
            at,
            ThreadStatementView::SelectLastItem {
                thread_id,
            },
            |reply: ThreadReplyView| reply.last(),
            |last: Option<u64>|
                thread_part(
                    h,
                    at + 1,
                    ThreadStatementView::ReadClock,
                    |reply: ThreadReplyView| reply.clock(),
                    |now_ms: i64|
                        insert_items_after_steps(
                            thread_id,
                            number_or_zero(last),
                            items,
                            0,
                            now_ms,
                            h,
                            at + 2,
                        ),
                ),
        )
    }
}

/// Records items after those that the thread has.
fn insert_rollout_items(
    thread_id: &String,
    items: &Vec<String>,
    replies: &Vec<ThreadReply>,
    at: usize,
) -> (r: ThreadProgress<()>)
    requires
        numbers_fit(replies.deep_view(), items@.len()),
        at <= replies@.len(),
    ensures
        r.deep_view() == insert_rollout_items_steps(
            thread_id@,
            items.deep_view(),
            replies.deep_view(),
            at as int,
        ),
        r matches ThreadProgress::Ready(_, used) ==> at <= used <= replies@.len(),
{
    if items.len() == 0 {
        return ThreadProgress::Ready((), at);
    }
    if replies.len() <= at {
        return ThreadProgress::Ask(ThreadStatement::SelectLastItem {
            thread_id: thread_id.clone(),
        });
    }
    let last = match replies[at].last() {
        Ok(last) => last,
        Err(error) => return ThreadProgress::Failed(error),
    };
    if replies.len() <= at + 1 {
        return ThreadProgress::Ask(ThreadStatement::ReadClock);
    }
    let now_ms = match replies[at + 1].clock() {
        Ok(now_ms) => now_ms,
        Err(error) => return ThreadProgress::Failed(error),
    };
    insert_items_after(thread_id, last_number(last), items, now_ms, replies, at + 2)
}

/// Records a thread, and its first item.
pub open spec fn create_thread_steps(
    thread_id: Seq<char>,
    create_params_json: Seq<char>,
    session_meta_json: Seq<char>,
    h: Seq<ThreadReplyView>,
) -> ThreadStepView<()> {
    thread_ask(
        h,
        0,
        ThreadStatementView::CreateSchema,
        |reply: ThreadReplyView| reply.done(),
        |_done: ()|
            thread_ask(
                h,
                1,
                ThreadStatementView::Begin,
                |reply: ThreadReplyView| reply.done(),
                |_done: ()|
                    thread_ask(
                        h,
                        2,
                        ThreadStatementView::ReadClock,
                        |reply: ThreadReplyView| reply.clock(),
                        |now_ms: i64|
                            thread_ask(
                                h,
                                3,
                                ThreadStatementView::UpsertThread {
                                    thread_id,
                                    create_params_json,
                                    now_ms,
                                },
                                |reply: ThreadReplyView| reply.done(),
                                |_done: ()|
                                    thread_after(
                                        insert_rollout_items_steps(
                                            thread_id,
                                            seq![session_meta_json],
                                            h,
                                            4,
                                        ),
                                        |_done: (), listed: int|
                                            thread_ask(
                                                h,
                                                listed,
                                                ThreadStatementView::Commit,
                                                |reply: ThreadReplyView| reply.done(),
                                                |_done: ()|
                                                    ThreadStepView::Done(Ok(())),
                                            ),
                                    ),
                            ),
                    ),
            ),
    )
}

/// Records a thread, and its first item.
pub fn create_thread(
    thread_id: &String,
    create_params_json: &String,
    session_meta_json: &String,
    replies: &Vec<ThreadReply>,
) -> (r: ThreadStep<()>)
    requires
        numbers_fit(replies.deep_view(), 1),
    ensures
        r.deep_view() == create_thread_steps(
            thread_id@,
            create_params_json@,
            session_meta_json@,
            replies.deep_view(),
        ),
{
    if replies.len() <= 0 {
        return ThreadStep::Ask(ThreadStatement::CreateSchema);
    }
    if let Err(error) = replies[0].done() {
        return ThreadStep::Done(Err(error));
    }
    if replies.len() <= 1 {
        return ThreadStep::Ask(ThreadStatement::Begin);
    }
    if let Err(error) = replies[1].done() {
        return ThreadStep::Done(Err(error));
    }
    if replies.len() <= 2 {
        return ThreadStep::Ask(ThreadStatement::ReadClock);
    }
    let now_ms = match replies[2].clock() {
        Ok(now_ms) => now_ms,
        Err(error) => return ThreadStep::Done(Err(error)),
    };
    if replies.len() <= 3 {
        return ThreadStep::Ask(ThreadStatement::UpsertThread {
            thread_id: thread_id.clone(),
            create_params_json: create_params_json.clone(),
            now_ms,
        });
    }
    if let Err(error) = replies[3].done() {
        return ThreadStep::Done(Err(error));
    }
    let items = vec![session_meta_json.clone()];
    assert(items.deep_view() =~= seq![session_meta_json@]);
    let (_, listed) = match insert_rollout_items(thread_id, &items, replies, 4) {
        ThreadProgress::Ask(statement) => return ThreadStep::Ask(statement),
        ThreadProgress::Failed(error) => return ThreadStep::Done(Err(error)),
        ThreadProgress::Ready(value, used) => (value, used),
    };
    if replies.len() <= listed {
        return ThreadStep::Ask(ThreadStatement::Commit);
    }
    if let Err(error) = replies[listed].done() {
        return ThreadStep::Done(Err(error));
    }
    ThreadStep::Done(Ok(()))
}

/// Finds out whether there is a thread.
pub open spec fn ensure_thread_exists_steps(
    thread_id: Seq<char>,
    h: Seq<ThreadReplyView>,
) -> ThreadStepView<()> {
    thread_ask(
        h,
        0,
        ThreadStatementView::CreateSchema,
        |reply: ThreadReplyView| reply.done(),
        |_done: ()|
            thread_ask(
                h,
                1,
                ThreadStatementView::SelectThreadExists {
                    thread_id,
                },
                |reply: ThreadReplyView| reply.found(),
                |known: bool|
                    if !known {
                        ThreadStepView::Done(Err(ThreadErrorView::ThreadNotFound { thread_id }))
                    } else {
                        ThreadStepView::Done(Ok(()))
                    },
            ),
    )
}

/// Finds out whether there is a thread.
pub fn ensure_thread_exists(
    thread_id: &String,
    replies: &Vec<ThreadReply>,
) -> (r: ThreadStep<()>)
    ensures
        r.deep_view() == ensure_thread_exists_steps(thread_id@, replies.deep_view()),
{
    if replies.len() <= 0 {
        return ThreadStep::Ask(ThreadStatement::CreateSchema);
    }
    if let Err(error) = replies[0].done() {
        return ThreadStep::Done(Err(error));
    }
    if replies.len() <= 1 {
        return ThreadStep::Ask(ThreadStatement::SelectThreadExists {
            thread_id: thread_id.clone(),
        });
    }
    let known = match replies[1].found() {
        Ok(known) => known,
        Err(error) => return ThreadStep::Done(Err(error)),
    };
    if !known {
        return ThreadStep::Done(
            Err(ThreadStoreError::ThreadNotFound { thread_id: thread_id.clone() }),
        );
    }
    ThreadStep::Done(Ok(()))
}

/// Puts items in the place of those that the thread has.
pub open spec fn replace_rollout_items_steps(
    thread_id: Seq<char>,
    items: Seq<Seq<char>>,
    h: Seq<ThreadReplyView>,
    at: int,
) -> ThreadStepView<()> {
    thread_ask(
        h,
        at,
        ThreadStatementView::DeleteItems {
            thread_id,
        },
        |reply: ThreadReplyView| reply.done(),
        |_done: ()|
            thread_after(
                insert_rollout_items_steps(thread_id, items, h, at + 1),
                |_done: (), listed: int|
                    thread_ask(
                        h,
                        listed,
                        ThreadStatementView::Commit,
                        |reply: ThreadReplyView| reply.done(),
                        |_done: ()|
                            ThreadStepView::Done(Ok(())),
                    ),
            ),
    )
}

/// Puts items in the place of those that the thread has.
fn replace_rollout_items(
    thread_id: &String,
    items: &Vec<String>,
    replies: &Vec<ThreadReply>,
    at: usize,
) -> (r: ThreadStep<()>)
    requires
        numbers_fit(replies.deep_view(), items@.len()),
        at <= replies@.len(),
    ensures
        r.deep_view() == replace_rollout_items_steps(
            thread_id@,
            items.deep_view(),
            replies.deep_view(),
            at as int,
        ),
{
    if replies.len() <= at {
        return ThreadStep::Ask(ThreadStatement::DeleteItems {
            thread_id: thread_id.clone(),
        });
    }
    if let Err(error) = replies[at].done() {
        return ThreadStep::Done(Err(error));
    }
    let (_, listed) = match insert_rollout_items(thread_id, items, replies, at + 1) {
        ThreadProgress::Ask(statement) => return ThreadStep::Ask(statement),
        ThreadProgress::Failed(error) => return ThreadStep::Done(Err(error)),
        ThreadProgress::Ready(value, used) => (value, used),
    };
    if replies.len() <= listed {
        return ThreadStep::Ask(ThreadStatement::Commit);
    }
    if let Err(error) = replies[listed].done() {
        return ThreadStep::Done(Err(error));
    }
    ThreadStep::Done(Ok(()))
}

/// Resumes a thread with the items of another place; a thread that is not there is recorded.
pub open spec fn resume_with_history_steps(
    thread_id: Seq<char>,
    create_params_json: Seq<char>,
    items: Seq<Seq<char>>,
    h: Seq<ThreadReplyView>,
    at: int,
) -> ThreadStepView<()> {
    thread_ask(
        h,
        at,
        ThreadStatementView::Begin,
        |reply: ThreadReplyView| reply.done(),
        |_done: ()|
            thread_ask(
                h,
                at + 1,
                ThreadStatementView::SelectThreadExists {
                    thread_id,
                },
                |reply: ThreadReplyView| reply.found(),
                |known: bool|
                    if known {
                        replace_rollout_items_steps(thread_id, items, h, at + 2)
                    } else {
                        thread_ask(
                            h,
                            at + 2,
                            ThreadStatementView::ReadClock,
                            |reply: ThreadReplyView| reply.clock(),
                            |now_ms: i64|
                                thread_ask(
                                    h,
                                    at + 3,
                                    ThreadStatementView::InsertThread {
                                        thread_id,
                                        create_params_json,
                                        now_ms,
                                    },
                                    |reply: ThreadReplyView| reply.done(),
                                    |_done: ()|
                                        replace_rollout_items_steps(thread_id, items, h, at + 4),
                                ),
                        )
                    },
            ),
    )
}

/// Resumes a thread with the items of another place; a thread that is not there is recorded.
fn resume_with_history(
    thread_id: &String,
    create_params_json: &String,
    items: &Vec<String>,
    replies: &Vec<ThreadReply>,
    at: usize,
) -> (r: ThreadStep<()>)
    requires
        numbers_fit(replies.deep_view(), items@.len()),
        at <= replies@.len(),
    ensures
        r.deep_view() == resume_with_history_steps(
            thread_id@,
            create_params_json@,
            items.deep_view(),
            replies.deep_view(),
            at as int,
        ),
{
    if replies.len() <= at {
        return ThreadStep::Ask(ThreadStatement::Begin);
    }
    if let Err(error) = replies[at].done() {
        return ThreadStep::Done(Err(error));
    }
    if replies.len() <= at + 1 {
        return ThreadStep::Ask(ThreadStatement::SelectThreadExists {
            thread_id: thread_id.clone(),
        });
    }
    let known = match replies[at + 1].found() {
        Ok(known) => known,
        Err(error) => return ThreadStep::Done(Err(error)),
    };
    if known {
        return replace_rollout_items(thread_id, items, replies, at + 2);
    }
    if replies.len() <= at + 2 {
        return ThreadStep::Ask(ThreadStatement::ReadClock);
    }
    let now_ms = match replies[at + 2].clock() {
        Ok(now_ms) => now_ms,
        Err(error) => return ThreadStep::Done(Err(error)),
    };
    if replies.len() <= at + 3 {
        return ThreadStep::Ask(ThreadStatement::InsertThread {
            thread_id: thread_id.clone(),
            create_params_json: create_params_json.clone(),
            now_ms,
        });
    }
    if let Err(error) = replies[at + 3].done() {
        return ThreadStep::Done(Err(error));
    }
    replace_rollout_items(thread_id, items, replies, at + 4)
}

/// Resumes a thread, with the items of another place if there are any.
pub open spec fn resume_thread_steps(
    thread_id: Seq<char>,
    create_params_json: Seq<char>,
    history: Option<Seq<Seq<char>>>,
    h: Seq<ThreadReplyView>,
) -> ThreadStepView<()> {
    thread_ask(
        h,
        0,
        ThreadStatementView::CreateSchema,
        |reply: ThreadReplyView| reply.done(),
        |_done: ()|
            match history {
                None => thread_ask(
                    h,
                    1,
                    ThreadStatementView::SelectThreadExists {
                        thread_id,
                    },
                    |reply: ThreadReplyView| reply.found(),
                    |known: bool|
                        if !known {
                            ThreadStepView::Done(Err(ThreadErrorView::ThreadNotFound { thread_id }))
                        } else {
                            ThreadStepView::Done(Ok(()))
                        },
                ),
                Some(history) => resume_with_history_steps(
                    thread_id,
                    create_params_json,
                    history,
                    h,
                    1,
                ),
            },
    )
}

/// Resumes a thread, with the items of another place if there are any.
pub fn resume_thread(
    thread_id: &String,
    create_params_json: &String,
    history: &Option<Vec<String>>,
    replies: &Vec<ThreadReply>,
) -> (r: ThreadStep<()>)
    requires
        history matches Some(items) ==> numbers_fit(replies.deep_view(), items@.len()),
    ensures
        r.deep_view() == resume_thread_steps(
            thread_id@,
            create_params_json@,
            history.deep_view(),
            replies.deep_view(),
        ),
{
    if replies.len() <= 0 {
        return ThreadStep::Ask(ThreadStatement::CreateSchema);
    }
    if let Err(error) = replies[0].done() {
        return ThreadStep::Done(Err(error));
    }
    let history = match history {
        Some(history) => history,
        None => {
            if replies.len() <= 1 {
                return ThreadStep::Ask(ThreadStatement::SelectThreadExists {
                    thread_id: thread_id.clone(),
                });
            }
            let known = match replies[1].found() {
                Ok(known) => known,
                Err(error) => return ThreadStep::Done(Err(error)),
            };
            if !known {
                return ThreadStep::Done(
                    Err(ThreadStoreError::ThreadNotFound { thread_id: thread_id.clone() }),
                );
            }
            return ThreadStep::Done(Ok(()));
        },
    };
    resume_with_history(thread_id, create_params_json, history, replies, 1)
}

/// Appends items to a thread that may be appended to.
pub open spec fn append_checked_steps(
    thread_id: Seq<char>,
    items: Seq<Seq<char>>,
    h: Seq<ThreadReplyView>,
    at: int,
) -> ThreadStepView<()> {
    thread_after(
        insert_rollout_items_steps(thread_id, items, h, at),
        |_done: (), listed: int|
            thread_ask(
                h,
                listed,
                ThreadStatementView::ReadClock,
                |reply: ThreadReplyView| reply.clock(),
                |now_ms: i64|
                    thread_ask(
                        h,
                        listed + 1,
                        ThreadStatementView::TouchThread {
                            thread_id,
                            now_ms,
                        },
                        |reply: ThreadReplyView| reply.done(),
                        |_done: ()|
                            thread_ask(
                                h,
                                listed + 2,
                                ThreadStatementView::Commit,
                                |reply: ThreadReplyView| reply.done(),
                                |_done: ()|
                                    ThreadStepView::Done(Ok(())),
                            ),
                    ),
            ),
    )
}

/// Appends items to a thread that may be appended to.
fn append_checked(
    thread_id: &String,
    items: &Vec<String>,
    replies: &Vec<ThreadReply>,
    at: usize,
) -> (r: ThreadStep<()>)
    requires
        numbers_fit(replies.deep_view(), items@.len()),
        at <= replies@.len(),
    ensures
        r.deep_view() == append_checked_steps(
            thread_id@,
            items.deep_view(),
            replies.deep_view(),
            at as int,
        ),
{
    let (_, listed) = match insert_rollout_items(thread_id, items, replies, at) {
        ThreadProgress::Ask(statement) => return ThreadStep::Ask(statement),
        ThreadProgress::Failed(error) => return ThreadStep::Done(Err(error)),
        ThreadProgress::Ready(value, used) => (value, used),
    };
    if replies.len() <= listed {
        return ThreadStep::Ask(ThreadStatement::ReadClock);
    }
    let now_ms = match replies[listed].clock() {
        Ok(now_ms) => now_ms,
        Err(error) => return ThreadStep::Done(Err(error)),
    };
    if replies.len() <= listed + 1 {
        return ThreadStep::Ask(ThreadStatement::TouchThread {
            thread_id: thread_id.clone(),
            now_ms,
        });
    }
    if let Err(error) = replies[listed + 1].done() {
        return ThreadStep::Done(Err(error));
    }
    if replies.len() <= listed + 2 {
        return ThreadStep::Ask(ThreadStatement::Commit);
    }
    if let Err(error) = replies[listed + 2].done() {
        return ThreadStep::Done(Err(error));
    }
    ThreadStep::Done(Ok(()))
}

/// Appends items to a thread that is there, under the turn that they belong to.
pub open spec fn append_under_turn_steps(
    thread_id: Seq<char>,
    turn_id: Option<Seq<char>>,
    items: Seq<Seq<char>>,
    h: Seq<ThreadReplyView>,
    at: int,
) -> ThreadStepView<()> {
    match turn_id {
        None => append_checked_steps(thread_id, items, h, at),
        Some(turn_id) => thread_ask(
            h,
            at,
            ThreadStatementView::ReadClock,
            |reply: ThreadReplyView| reply.clock(),
            |now_ms: i64|
                thread_ask(
                    h,
                    at + 1,
                    ThreadStatementView::LockActiveTurn {
                        thread_id,
                        turn_id,
                        now_ms,
                    },
                    |reply: ThreadReplyView| reply.found(),
                    |active: bool|
                        if !active {
                            ThreadStepView::Done(Err(no_writer_lease(thread_id, turn_id)))
                        } else {
                            append_checked_steps(thread_id, items, h, at + 2)
                        },
                ),
        ),
    }
}

/// Appends items to a thread that is there, under the turn that they belong to.
fn append_under_turn(
    thread_id: &String,
    turn_id: &Option<String>,
    items: &Vec<String>,
    replies: &Vec<ThreadReply>,
    at: usize,
) -> (r: ThreadStep<()>)
    requires
        numbers_fit(replies.deep_view(), items@.len()),
        at <= replies@.len(),
    ensures
        r.deep_view() == append_under_turn_steps(
            thread_id@,
            turn_id.deep_view(),
            items.deep_view(),
            replies.deep_view(),
            at as int,
        ),
{
    let turn_id = match turn_id {
        Some(turn_id) => turn_id,
        None => return append_checked(thread_id, items, replies, at),
    };
    if replies.len() <= at {
        return ThreadStep::Ask(ThreadStatement::ReadClock);
    }
    let now_ms = match replies[at].clock() {
        Ok(now_ms) => now_ms,
        Err(error) => return ThreadStep::Done(Err(error)),
    };
    if replies.len() <= at + 1 {
        return ThreadStep::Ask(ThreadStatement::LockActiveTurn {
            thread_id: thread_id.clone(),
            turn_id: turn_id.clone(),
            now_ms,
        });
    }
    let active = match replies[at + 1].found() {
        Ok(active) => active,
        Err(error) => return ThreadStep::Done(Err(error)),
    };
    if !active {
        return ThreadStep::Done(Err(writer_lease_missing(thread_id, turn_id)));
    }
    append_checked(thread_id, items, replies, at + 2)
}

/// Appends items, given as JSON, to a thread. If they belong to a turn, it has to hold the
/// writer lease.
pub open spec fn append_items_steps(
    thread_id: Seq<char>,
    items: Seq<Seq<char>>,
    h: Seq<ThreadReplyView>,
) -> ThreadStepView<()> {
    thread_ask(
        h,
        0,
        ThreadStatementView::CreateSchema,
        |reply: ThreadReplyView| reply.done(),
        |_done: ()|
            thread_ask(
                h,
                1,
                ThreadStatementView::Begin,
                |reply: ThreadReplyView| reply.done(),
                |_done: ()|
                    thread_ask(
                        h,
                        2,
                        ThreadStatementView::SelectThreadExists {
                            thread_id,
                        },
                        |reply: ThreadReplyView| reply.found(),
                        |known: bool|
                            if !known {
                                ThreadStepView::Done(
                                    Err(ThreadErrorView::ThreadNotFound { thread_id }),
                                )
                            } else {
                                match one_turn(turns_of(items)) {
                                    Err(error) => ThreadStepView::Done(Err(error)),
                                    Ok(turn_id) => append_under_turn_steps(
                                        thread_id,
                                        turn_id,
                                        items,
                                        h,
                                        3,
                                    ),
                                }
                            },
                    ),
            ),
    )
}

/// Appends items, given as JSON, to a thread. If they belong to a turn, it has to hold the
/// writer lease.
pub fn append_items(
    thread_id: &String,
    items: &Vec<String>,
    replies: &Vec<ThreadReply>,
) -> (r: ThreadStep<()>)
    requires
        numbers_fit(replies.deep_view(), items@.len()),
    ensures
        r.deep_view() == append_items_steps(
            thread_id@,
            items.deep_view(),
            replies.deep_view(),
        ),
{
    if replies.len() <= 0 {
        return ThreadStep::Ask(ThreadStatement::CreateSchema);
    }
    if let Err(error) = replies[0].done() {
        return ThreadStep::Done(Err(error));
    }
    if replies.len() <= 1 {
        return ThreadStep::Ask(ThreadStatement::Begin);
    }
    if let Err(error) = replies[1].done() {
        return ThreadStep::Done(Err(error));
    }
    if replies.len() <= 2 {
        return ThreadStep::Ask(ThreadStatement::SelectThreadExists {
            thread_id: thread_id.clone(),
        });
    }
    let known = match replies[2].found() {
        Ok(known) => known,
        Err(error) => return ThreadStep::Done(Err(error)),
    };
    if !known {
        return ThreadStep::Done(
            Err(ThreadStoreError::ThreadNotFound { thread_id: thread_id.clone() }),
        );
    }
    let turn_id = match single_turn_id(rollout_item_turn_ids(items)) {
        Ok(turn_id) => turn_id,
        Err(error) => return ThreadStep::Done(Err(error)),
    };
    append_under_turn(thread_id, &turn_id, items, replies, 3)
}

/// Reads the items of a thread.
pub open spec fn load_history_steps(
    thread_id: Seq<char>,
    h: Seq<ThreadReplyView>,
) -> ThreadStepView<StoredHistoryView> {
    thread_ask(
        h,
        0,
        ThreadStatementView::CreateSchema,
        |reply: ThreadReplyView| reply.done(),
        |_done: ()|
            thread_ask(
                h,
                1,
                ThreadStatementView::SelectHistory {
                    thread_id,
                },
                |reply: ThreadReplyView| reply.items(),
                |items: Seq<Seq<char>>|
                    if items.len() > 0 {
                        ThreadStepView::Done(Ok(StoredHistoryView { thread_id, items }))
                    } else {
                        thread_ask(
                            h,
                            2,
                            ThreadStatementView::SelectThreadExists {
                                thread_id,
                            },
                            |reply: ThreadReplyView| reply.found(),
                            |known: bool|
                                if !known {
                                    ThreadStepView::Done(
                                        Err(ThreadErrorView::ThreadNotFound { thread_id }),
                                    )
                                } else {
                                    ThreadStepView::Done(Ok(StoredHistoryView { thread_id, items }))
                                },
                        )
                    },
            ),
    )
}

/// Reads the items of a thread.
pub fn load_history(
    thread_id: &String,
    replies: &Vec<ThreadReply>,
) -> (r: ThreadStep<StoredThreadHistory>)
    ensures
        r.deep_view() == load_history_steps(thread_id@, replies.deep_view()),
{
    if replies.len() <= 0 {
        return ThreadStep::Ask(ThreadStatement::CreateSchema);
    }
    if let Err(error) = replies[0].done() {
        return ThreadStep::Done(Err(error));
    }
    if replies.len() <= 1 {
        return ThreadStep::Ask(ThreadStatement::SelectHistory {
            thread_id: thread_id.clone(),
        });
    }
    let items = match replies[1].items() {
        Ok(items) => items,
        Err(error) => return ThreadStep::Done(Err(error)),
    };
    if items.len() > 0 {
        return ThreadStep::Done(
            Ok(StoredThreadHistory { thread_id: thread_id.clone(), items }),
        );
    }
    if replies.len() <= 2 {
        return ThreadStep::Ask(ThreadStatement::SelectThreadExists {
            thread_id: thread_id.clone(),
        });
    }
    let known = match replies[2].found() {
        Ok(known) => known,
        Err(error) => return ThreadStep::Done(Err(error)),
    };
    if !known {
        return ThreadStep::Done(
            Err(ThreadStoreError::ThreadNotFound { thread_id: thread_id.clone() }),
        );
    }
    ThreadStep::Done(
        Ok(StoredThreadHistory { thread_id: thread_id.clone(), items }),
    )
}

/// Reads a thread that is not archived, or also one that is.
pub open spec fn read_row_steps(
    thread_id: Seq<char>,
    include_archived: bool,
    include_history: bool,
    cli_version: Seq<char>,
    h: Seq<ThreadReplyView>,
    at: int,
) -> ThreadProgressView<StoredThreadView> {
    thread_part(
        h,
        at,
        ThreadStatementView::SelectThread {
            thread_id,
        },
        |reply: ThreadReplyView| reply.thread(),
        |found: Option<ThreadRowView>|
            match found {
                None => ThreadProgressView::Failed(ThreadErrorView::ThreadNotFound { thread_id }),
                Some(row) => if row.archived_at_ms is Some && !include_archived {
                    ThreadProgressView::Failed(ThreadErrorView::ThreadNotFound { thread_id })
                } else {
                    match row.create_params.value() {
                        Err(error) => ThreadProgressView::Failed(error),
                        Ok(created) => match row.metadata_patch.value() {
                            Err(error) => ThreadProgressView::Failed(error),
                            Ok(patch) => if !include_history {
                                ThreadProgressView::Ready(
                                    shown_row(thread_id, created, patch, row, None, cli_version),
                                    at + 1,
                                )
                            } else {
                                thread_part(
                                    h,
                                    at + 1,
                                    ThreadStatementView::SelectHistory {
                                        thread_id,
                                    },
                                    |reply: ThreadReplyView| reply.items(),
                                    |items: Seq<Seq<char>>|
                                        ThreadProgressView::Ready(
                                            shown_row(
                                                thread_id,
                                                created,
                                                patch,
                                                row,
                                                Some(StoredHistoryView { thread_id, items }),
                                                cli_version,
                                            ),
                                            at + 2,
                                        ),
                                )
                            },
                        },
                    }
                },
            },
    )
}

/// Reads a thread that is not archived, or also one that is.
fn read_row(
    thread_id: &String,
    include_archived: bool,
    include_history: bool,
    cli_version: &String,
    replies: &Vec<ThreadReply>,
    at: usize,
) -> (r: ThreadProgress<StoredThread>)
    requires
        at <= replies@.len(),
    ensures
        r.deep_view() == read_row_steps(
            thread_id@,
            include_archived,
            include_history,
            cli_version@,
            replies.deep_view(),
            at as int,
        ),
        r matches ThreadProgress::Ready(_, used) ==> at <= used <= replies@.len(),
{
    if replies.len() <= at {
        return ThreadProgress::Ask(ThreadStatement::SelectThread {
            thread_id: thread_id.clone(),
        });
    }
    let found = match replies[at].thread() {
        Ok(found) => found,
        Err(error) => return ThreadProgress::Failed(error),
    };
    let row = match found {
        Some(row) => row,
        None => {
            return ThreadProgress::Failed(
                ThreadStoreError::ThreadNotFound { thread_id: thread_id.clone() },
            );
        },
    };
    if row.archived_at_ms.is_some() && !include_archived {
        return ThreadProgress::Failed(
            ThreadStoreError::ThreadNotFound { thread_id: thread_id.clone() },
        );
    }
    let created = match row.create_params.value() {
        Ok(created) => created,
        Err(error) => return ThreadProgress::Failed(error),
    };
    let patch = match row.metadata_patch.value() {
        Ok(patch) => patch,
        Err(error) => return ThreadProgress::Failed(error),
    };
    if !include_history {
        return ThreadProgress::Ready(
            show_row(thread_id, created, patch, row, None, cli_version),
            at + 1,
        );
    }
    if replies.len() <= at + 1 {
        return ThreadProgress::Ask(ThreadStatement::SelectHistory {
            thread_id: thread_id.clone(),
        });
    }
    let items = match replies[at + 1].items() {
        Ok(items) => items,
        Err(error) => return ThreadProgress::Failed(error),
    };
    let history = Some(
        StoredThreadHistory { thread_id: thread_id.clone(), items },
    );
    ThreadProgress::Ready(show_row(thread_id, created, patch, row, history, cli_version), at + 2)
}

/// Reads a thread.
pub open spec fn read_thread_steps(
    thread_id: Seq<char>,
    include_archived: bool,
    include_history: bool,
    cli_version: Seq<char>,
    h: Seq<ThreadReplyView>,
) -> ThreadStepView<StoredThreadView> {
    thread_ask(
        h,
        0,
        ThreadStatementView::CreateSchema,
        |reply: ThreadReplyView| reply.done(),
        |_done: ()|
            thread_after(
                read_row_steps(thread_id, include_archived, include_history, cli_version, h, 1),
                |thread: StoredThreadView, read: int|
                    ThreadStepView::Done(Ok(thread)),
            ),
    )
}

/// Reads a thread.
pub fn read_thread(
    thread_id: &String,
    include_archived: bool,
    include_history: bool,
    cli_version: &String,
    replies: &Vec<ThreadReply>,
) -> (r: ThreadStep<StoredThread>)
    ensures
        r.deep_view() == read_thread_steps(
            thread_id@,
            include_archived,
            include_history,
            cli_version@,
            replies.deep_view(),
        ),
{
    if replies.len() <= 0 {
        return ThreadStep::Ask(ThreadStatement::CreateSchema);
    }
    if let Err(error) = replies[0].done() {
        return ThreadStep::Done(Err(error));
    }
    let (thread, read) = match read_row(
        thread_id,
        include_archived,
        include_history,
        cli_version,
        replies,
        1,
    ) {
        ThreadProgress::Ask(statement) => return ThreadStep::Ask(statement),
        ThreadProgress::Failed(error) => return ThreadStep::Done(Err(error)),
        ThreadProgress::Ready(value, used) => (value, used),
    };
    ThreadStep::Done(Ok(thread))
}

/// Changes a thread, and reads it.
pub open spec fn update_thread_metadata_steps(
    thread_id: Seq<char>,
    metadata_patch_json: Seq<char>,
    include_archived: bool,
    cli_version: Seq<char>,
    h: Seq<ThreadReplyView>,
) -> ThreadStepView<StoredThreadView> {
    thread_ask(
        h,
        0,
        ThreadStatementView::CreateSchema,
        |reply: ThreadReplyView| reply.done(),
        |_done: ()|
            thread_ask(
                h,
                1,
                ThreadStatementView::ReadClock,
                |reply: ThreadReplyView| reply.clock(),
                |now_ms: i64|
                    thread_ask(
                        h,
                        2,
                        ThreadStatementView::SetMetadata {
                            thread_id,
                            metadata_patch_json,
                            now_ms,
                        },
                        |reply: ThreadReplyView| reply.affected(),
                        |changed: u64|
                            if changed == 0 {
                                ThreadStepView::Done(
                                    Err(ThreadErrorView::ThreadNotFound { thread_id }),
                                )
                            } else {
                                thread_after(
                                    read_row_steps(
                                        thread_id,
                                        include_archived,
                                        true,
                                        cli_version,
                                        h,
                                        3,
                                    ),
                                    |thread: StoredThreadView, read: int|
                                        ThreadStepView::Done(Ok(thread)),
                                )
                            },
                    ),
            ),
    )
}

/// Changes a thread, and reads it.
pub fn update_thread_metadata(
    thread_id: &String,
    metadata_patch_json: &String,
    include_archived: bool,
    cli_version: &String,
    replies: &Vec<ThreadReply>,
) -> (r: ThreadStep<StoredThread>)
    ensures
        r.deep_view() == update_thread_metadata_steps(
            thread_id@,
            metadata_patch_json@,
            include_archived,
            cli_version@,
            replies.deep_view(),
        ),
{
    if replies.len() <= 0 {
        return ThreadStep::Ask(ThreadStatement::CreateSchema);
    }
    if let Err(error) = replies[0].done() {
        return ThreadStep::Done(Err(error));
    }
    if replies.len() <= 1 {
        return ThreadStep::Ask(ThreadStatement::ReadClock);
    }
    let now_ms = match replies[1].clock() {
        Ok(now_ms) => now_ms,
        Err(error) => return ThreadStep::Done(Err(error)),
    };
    if replies.len() <= 2 {
        return ThreadStep::Ask(ThreadStatement::SetMetadata {
            thread_id: thread_id.clone(),
            metadata_patch_json: metadata_patch_json.clone(),
            now_ms,
        });
    }
    let changed = match replies[2].affected() {
        Ok(changed) => changed,
        Err(error) => return ThreadStep::Done(Err(error)),
    };
    if changed == 0 {
        return ThreadStep::Done(
            Err(ThreadStoreError::ThreadNotFound { thread_id: thread_id.clone() }),
        );
    }
    let (thread, read) = match read_row(
        thread_id,
        include_archived,
        true,
        cli_version,
        replies,
        3,
    ) {
        ThreadProgress::Ask(statement) => return ThreadStep::Ask(statement),
        ThreadProgress::Failed(error) => return ThreadStep::Done(Err(error)),
        ThreadProgress::Ready(value, used) => (value, used),
    };
    ThreadStep::Done(Ok(thread))
}

/// Archives a thread.
pub open spec fn archive_thread_steps(
    thread_id: Seq<char>,
    h: Seq<ThreadReplyView>,
) -> ThreadStepView<()> {
    thread_ask(
        h,
        0,
        ThreadStatementView::CreateSchema,
        |reply: ThreadReplyView| reply.done(),
        |_done: ()|
            thread_ask(
                h,
                1,
                ThreadStatementView::ReadClock,
                |reply: ThreadReplyView| reply.clock(),
                |archived_at_ms: i64|
                    thread_ask(
                        h,
                        2,
                        ThreadStatementView::ReadClock,
                        |reply: ThreadReplyView| reply.clock(),
                        |now_ms: i64|
                            thread_ask(
                                h,
                                3,
                                ThreadStatementView::SetArchived {
                                    thread_id,
                                    archived_at_ms: Some(archived_at_ms),
                                    now_ms,
                                },
                                |reply: ThreadReplyView| reply.affected(),
                                |changed: u64|
                                    if changed == 0 {
                                        ThreadStepView::Done(
                                            Err(ThreadErrorView::ThreadNotFound { thread_id }),
                                        )
                                    } else {
                                        ThreadStepView::Done(Ok(()))
                                    },
                            ),
                    ),
            ),
    )
}

/// Archives a thread.
pub fn archive_thread(
    thread_id: &String,
    replies: &Vec<ThreadReply>,
) -> (r: ThreadStep<()>)
    ensures
        r.deep_view() == archive_thread_steps(thread_id@, replies.deep_view()),
{
    if replies.len() <= 0 {
        return ThreadStep::Ask(ThreadStatement::CreateSchema);
    }
    if let Err(error) = replies[0].done() {
        return ThreadStep::Done(Err(error));
    }
    if replies.len() <= 1 {
        return ThreadStep::Ask(ThreadStatement::ReadClock);
    }
    let archived_at_ms = match replies[1].clock() {
        Ok(archived_at_ms) => archived_at_ms,
        Err(error) => return ThreadStep::Done(Err(error)),
    };
    if replies.len() <= 2 {
        return ThreadStep::Ask(ThreadStatement::ReadClock);
    }
    let now_ms = match replies[2].clock() {
        Ok(now_ms) => now_ms,
        Err(error) => return ThreadStep::Done(Err(error)),
    };
    if replies.len() <= 3 {
        return ThreadStep::Ask(ThreadStatement::SetArchived {
            thread_id: thread_id.clone(),
            archived_at_ms: Some(archived_at_ms),
            now_ms,
        });
    }
    let changed = match replies[3].affected() {
        Ok(changed) => changed,
        Err(error) => return ThreadStep::Done(Err(error)),
    };
    if changed == 0 {
        return ThreadStep::Done(
            Err(ThreadStoreError::ThreadNotFound { thread_id: thread_id.clone() }),
        );
    }
    ThreadStep::Done(Ok(()))
}

/// Takes a thread out of the archive, and reads it.
pub open spec fn unarchive_thread_steps(
    thread_id: Seq<char>,
    cli_version: Seq<char>,
    h: Seq<ThreadReplyView>,
) -> ThreadStepView<StoredThreadView> {
    thread_ask(
        h,
        0,
        ThreadStatementView::CreateSchema,
        |reply: ThreadReplyView| reply.done(),
        |_done: ()|
            thread_ask(
                h,
                1,
                ThreadStatementView::ReadClock,
                |reply: ThreadReplyView| reply.clock(),
                |now_ms: i64|
                    thread_ask(
                        h,
                        2,
                        ThreadStatementView::SetArchived {
                            thread_id,
                            archived_at_ms: None,
                            now_ms,
                        },
                        |reply: ThreadReplyView| reply.affected(),
                        |changed: u64|
                            if changed == 0 {
                                ThreadStepView::Done(
                                    Err(ThreadErrorView::ThreadNotFound { thread_id }),
                                )
                            } else {
                                thread_after(
                                    read_row_steps(thread_id, true, false, cli_version, h, 3),
                                    |thread: StoredThreadView, read: int|
                                        ThreadStepView::Done(Ok(thread)),
                                )
                            },
                    ),
            ),
    )
}

/// Takes a thread out of the archive, and reads it.
pub fn unarchive_thread(
    thread_id: &String,
    cli_version: &String,
    replies: &Vec<ThreadReply>,
) -> (r: ThreadStep<StoredThread>)
    ensures
        r.deep_view() == unarchive_thread_steps(thread_id@, cli_version@, replies.deep_view()),
{
    if replies.len() <= 0 {
        return ThreadStep::Ask(ThreadStatement::CreateSchema);
    }
    if let Err(error) = replies[0].done() {
        return ThreadStep::Done(Err(error));
    }
    if replies.len() <= 1 {
        return ThreadStep::Ask(ThreadStatement::ReadClock);
    }
    let now_ms = match replies[1].clock() {
        Ok(now_ms) => now_ms,
        Err(error) => return ThreadStep::Done(Err(error)),
    };
    if replies.len() <= 2 {
        return ThreadStep::Ask(ThreadStatement::SetArchived {
            thread_id: thread_id.clone(),
            archived_at_ms: None,
            now_ms,
        });
    }
    let changed = match replies[2].affected() {
        Ok(changed) => changed,
        Err(error) => return ThreadStep::Done(Err(error)),
    };
    if changed == 0 {
        return ThreadStep::Done(
            Err(ThreadStoreError::ThreadNotFound { thread_id: thread_id.clone() }),
        );
    }
    let (thread, read) = match read_row(thread_id, true, false, cli_version, replies, 3) {
        ThreadProgress::Ask(statement) => return ThreadStep::Ask(statement),
        ThreadProgress::Failed(error) => return ThreadStep::Done(Err(error)),
        ThreadProgress::Ready(value, used) => (value, used),
    };
    ThreadStep::Done(Ok(thread))
}

/// The identifier of a thread that is kept.
pub open spec fn listed_id(listed: ListedThreadView) -> Result<Seq<char>, ThreadErrorView> {
    match listed.thread_id {
        ParsedView::Value(thread_id) => Ok(thread_id),
        ParsedView::Invalid(reason) => Err(broken_thread_id(listed.value, reason)),
    }
}

/// The identifier of a thread that is kept.
pub fn thread_id_from_string(listed: &ListedThread) -> (r: Result<String, ThreadStoreError>)
    ensures
        crate::threads::errors::thread_outcome(r) == listed_id(listed.deep_view()),
{
    match &listed.thread_id {
        Parsed::Value(thread_id) => Ok(thread_id.clone()),
        Parsed::Invalid(reason) => Err(invalid_thread_id(&listed.value, reason)),
    }
}

/// Reads the threads from the `from`-th one on, after those that were read.
pub open spec fn read_listed_steps(
    listed: Seq<ListedThreadView>,
    from: int,
    read: Seq<StoredThreadView>,
    cli_version: Seq<char>,
    h: Seq<ThreadReplyView>,
    at: int,
) -> ThreadStepView<ThreadPageView>
    decreases listed.len() - from,
{
    if from >= listed.len() {
        ThreadStepView::Done(Ok(ThreadPageView { items: read, next_cursor: None }))
    } else {
        match listed_id(listed[from]) {
            Err(error) => ThreadStepView::Done(Err(error)),
            Ok(thread_id) => match read_row_steps(thread_id, false, false, cli_version, h, at) {
                ThreadProgressView::Ask(statement) => ThreadStepView::Ask(statement),
                ThreadProgressView::Failed(error) => ThreadStepView::Done(Err(error)),
                ThreadProgressView::Ready(thread, used) => read_listed_steps(
                    listed,
                    from + 1,
                    read.push(thread),
                    cli_version,
                    h,
                    used,
                ),
            },
        }
    }
}

/// Lists threads that are not archived, the last updated first.
pub open spec fn list_threads_steps(
    page_size: u64,
    cli_version: Seq<char>,
    h: Seq<ThreadReplyView>,
) -> ThreadStepView<ThreadPageView> {
    thread_ask(
        h,
        0,
        ThreadStatementView::CreateSchema,
        |reply: ThreadReplyView| reply.done(),
        |_done: ()|
            thread_ask(
                h,
                1,
                ThreadStatementView::SelectThreads { count: page_size },
                |reply: ThreadReplyView| reply.threads(),
                |listed: Seq<ListedThreadView>|
                    read_listed_steps(listed, 0, Seq::empty(), cli_version, h, 2),
            ),
    )
}

/// Lists threads that are not archived, the last updated first.
pub fn list_threads(
    page_size: usize,
    cli_version: &String,
    replies: &Vec<ThreadReply>,
) -> (r: ThreadStep<ThreadPage>)
    ensures
        r.deep_view() == list_threads_steps(
            page_size as u64,
            cli_version@,
            replies.deep_view(),
        ),
{
    if replies.len() <= 0 {
        return ThreadStep::Ask(ThreadStatement::CreateSchema);
    }
    if let Err(error) = replies[0].done() {
        return ThreadStep::Done(Err(error));
    }
    if replies.len() <= 1 {
        return ThreadStep::Ask(ThreadStatement::SelectThreads { count: page_size as u64 });
    }
    let listed = match replies[1].threads() {
        Ok(listed) => listed,
        Err(error) => return ThreadStep::Done(Err(error)),
    };
    let mut items: Vec<StoredThread> = Vec::new();
    let mut at: usize = 2;
    let count: usize = listed.len();
    let ghost h = replies.deep_view();
    assert(items.deep_view() =~= Seq::<StoredThreadView>::empty());
    for i in 0..count
        invariant
            count == listed@.len(),
            h == replies.deep_view(),
            at <= replies@.len(),
            read_listed_steps(listed.deep_view(), 0, Seq::empty(), cli_version@, h, 2)
                == read_listed_steps(
                listed.deep_view(),
                i as int,
                items.deep_view(),
                cli_version@,
                h,
                at as int,
            ),
            list_threads_steps(page_size as u64, cli_version@, h) == read_listed_steps(
                listed.deep_view(),
                0,
                Seq::empty(),
                cli_version@,
                h,
                2,
            ),
    {
        let thread_id = match thread_id_from_string(&listed[i]) {
            Ok(thread_id) => thread_id,
            Err(error) => return ThreadStep::Done(Err(error)),
        };
        let (thread, used) = match read_row(&thread_id, false, false, cli_version, replies, at) {
            ThreadProgress::Ask(statement) => return ThreadStep::Ask(statement),
            ThreadProgress::Failed(error) => return ThreadStep::Done(Err(error)),
            ThreadProgress::Ready(value, used) => (value, used),
        };
        let ghost so_far = items.deep_view();
        let ghost shown = thread.deep_view();
        items.push(thread);
        assert(items.deep_view() =~= so_far.push(shown));
        at = used;
    }
    ThreadStep::Done(Ok(ThreadPage { items, next_cursor: None }))
}

} // verus!
