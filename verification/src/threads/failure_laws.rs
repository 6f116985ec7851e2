//! What failing statements of a store of threads come to.
use vstd::prelude::*;

use crate::threads::errors::ThreadErrorView;
use crate::threads::operations::{
    append_items_steps, archive_thread_steps, create_thread_steps, ensure_thread_exists_steps,
    insert_items_after_steps, insert_rollout_items_steps, list_threads_steps, listed_id,
    load_history_steps, number_or_zero, read_listed_steps, read_row_steps, read_thread_steps,
    resume_thread_steps, unarchive_thread_steps, update_thread_metadata_steps,
};
use crate::threads::records::StoredThreadView;
use crate::threads::statements::{
    ListedThreadView, ThreadProgressView, ThreadReplyView, ThreadStepView,
};

verus! {

/// Whether a statement of an operation that fails ends the operation with that failure, in the
/// words of the database.
pub open spec fn failure_ends<T>(
    script: spec_fn(Seq<ThreadReplyView>) -> ThreadStepView<T>,
    h: Seq<ThreadReplyView>,
    text: Seq<char>,
) -> bool {
    script(h) is Ask ==> script(h.push(ThreadReplyView::Failed(text))) == ThreadStepView::<T>::Done(
        Err(ThreadErrorView::Internal { message: "cloud state storage error: "@ + text }),
    )
}

/// One more answer does not change what came of items that were recorded before; a failing
/// statement ends the recording.
proof fn inserting_fails_with_the_database(
    thread_id: Seq<char>,
    base: u64,
    items: Seq<Seq<char>>,
    from: int,
    now_ms: i64,
    h: Seq<ThreadReplyView>,
    at: int,
    text: Seq<char>,
)
    requires
        0 <= at <= h.len(),
    ensures
        ({
            let g = h.push(ThreadReplyView::Failed(text));
            let before = insert_items_after_steps(thread_id, base, items, from, now_ms, h, at);
            let after = insert_items_after_steps(thread_id, base, items, from, now_ms, g, at);
            match before {
                ThreadProgressView::Ask(_) => after == ThreadProgressView::<()>::Failed(
                    ThreadErrorView::Internal { message: "cloud state storage error: "@ + text },
                ),
                ThreadProgressView::Failed(_) => true,
                ThreadProgressView::Ready(_, used) => after == before && at <= used <= h.len(),
            }
        }),
    decreases items.len() - from,
{
    let g = h.push(ThreadReplyView::Failed(text));
    if from < items.len() {
        if h.len() <= at {
            assert(g[at] == ThreadReplyView::Failed(text));
        } else {
            assert(g[at] == h[at]);
            if h[at].done() is Ok {
                inserting_fails_with_the_database(
                    thread_id,
                    base,
                    items,
                    from + 1,
                    now_ms,
                    h,
                    at + 1,
                    text,
                );
            }
        }
    }
}

proof fn recording_fails_with_the_database(
    thread_id: Seq<char>,
    items: Seq<Seq<char>>,
    h: Seq<ThreadReplyView>,
    at: int,
    text: Seq<char>,
)
    requires
        0 <= at,
    ensures
        at <= h.len() ==> {
            let g = h.push(ThreadReplyView::Failed(text));
            let before = insert_rollout_items_steps(thread_id, items, h, at);
            let after = insert_rollout_items_steps(thread_id, items, g, at);
            match before {
                ThreadProgressView::Ask(_) => after == ThreadProgressView::<()>::Failed(
                    ThreadErrorView::Internal { message: "cloud state storage error: "@ + text },
                ),
                ThreadProgressView::Failed(_) => true,
                ThreadProgressView::Ready(_, used) => after == before && at <= used <= h.len(),
            }
        },
{
    let g = h.push(ThreadReplyView::Failed(text));
    assert(forall|i: int| 0 <= i < h.len() ==> #[trigger] g[i] == h[i]);
    assert(g[h.len() as int] == ThreadReplyView::Failed(text));
    if items.len() > 0 && at + 1 < h.len() {
        if let Ok(last) = h[at].last() {
            if let Ok(now_ms) = h[at + 1].clock() {
                inserting_fails_with_the_database(
                    thread_id,
                    number_or_zero(last),
                    items,
                    0,
                    now_ms,
                    h,
                    at + 2,
                    text,
                );
            }
        }
    }
}

/// A failing statement ends `ensure_thread_exists` with its failure.
pub proof fn ensure_thread_exists_fails_with_the_database(
    thread_id: Seq<char>,
    h: Seq<ThreadReplyView>,
    text: Seq<char>,
)
    ensures
        failure_ends(
            |g: Seq<ThreadReplyView>| ensure_thread_exists_steps(thread_id, g),
            h,
            text,
        ),
{
    let g = h.push(ThreadReplyView::Failed(text));
    assert(forall|i: int| 0 <= i < h.len() ==> #[trigger] g[i] == h[i]);
    assert(g[h.len() as int] == ThreadReplyView::Failed(text));
}

/// A failing statement ends `load_history` with its failure.
pub proof fn load_history_fails_with_the_database(
    thread_id: Seq<char>,
    h: Seq<ThreadReplyView>,
    text: Seq<char>,
)
    ensures
        failure_ends(
            |g: Seq<ThreadReplyView>| load_history_steps(thread_id, g),
            h,
            text,
        ),
{
    let g = h.push(ThreadReplyView::Failed(text));
    assert(forall|i: int| 0 <= i < h.len() ==> #[trigger] g[i] == h[i]);
    assert(g[h.len() as int] == ThreadReplyView::Failed(text));
}

/// A failing statement ends `read_thread` with its failure.
pub proof fn read_thread_fails_with_the_database(
    thread_id: Seq<char>,
    include_archived: bool,
    include_history: bool,
    cli_version: Seq<char>,
    h: Seq<ThreadReplyView>,
    text: Seq<char>,
)
    ensures
        failure_ends(
            |g: Seq<ThreadReplyView>| read_thread_steps(thread_id, include_archived, include_history, cli_version, g),
            h,
            text,
        ),
{
    let g = h.push(ThreadReplyView::Failed(text));
    assert(forall|i: int| 0 <= i < h.len() ==> #[trigger] g[i] == h[i]);
    assert(g[h.len() as int] == ThreadReplyView::Failed(text));
}

/// A failing statement ends `update_thread_metadata` with its failure.
pub proof fn update_thread_metadata_fails_with_the_database(
    thread_id: Seq<char>,
    metadata_patch_json: Seq<char>,
    include_archived: bool,
    cli_version: Seq<char>,
    h: Seq<ThreadReplyView>,
    text: Seq<char>,
)
    ensures
        failure_ends(
            |g: Seq<ThreadReplyView>| update_thread_metadata_steps(thread_id, metadata_patch_json, include_archived, cli_version, g),
            h,
            text,
        ),
{
    let g = h.push(ThreadReplyView::Failed(text));
    assert(forall|i: int| 0 <= i < h.len() ==> #[trigger] g[i] == h[i]);
    assert(g[h.len() as int] == ThreadReplyView::Failed(text));
}

/// A failing statement ends `archive_thread` with its failure.
pub proof fn archive_thread_fails_with_the_database(
    thread_id: Seq<char>,
    h: Seq<ThreadReplyView>,
    text: Seq<char>,
)
    ensures
        failure_ends(
            |g: Seq<ThreadReplyView>| archive_thread_steps(thread_id, g),
            h,
            text,
        ),
{
    let g = h.push(ThreadReplyView::Failed(text));
    assert(forall|i: int| 0 <= i < h.len() ==> #[trigger] g[i] == h[i]);
    assert(g[h.len() as int] == ThreadReplyView::Failed(text));
}

/// A failing statement ends `unarchive_thread` with its failure.
pub proof fn unarchive_thread_fails_with_the_database(
    thread_id: Seq<char>,
    cli_version: Seq<char>,
    h: Seq<ThreadReplyView>,
    text: Seq<char>,
)
    ensures
        failure_ends(
            |g: Seq<ThreadReplyView>| unarchive_thread_steps(thread_id, cli_version, g),
            h,
            text,
        ),
{
    let g = h.push(ThreadReplyView::Failed(text));
    assert(forall|i: int| 0 <= i < h.len() ==> #[trigger] g[i] == h[i]);
    assert(g[h.len() as int] == ThreadReplyView::Failed(text));
}

/// A failing statement ends `create_thread` with its failure.
pub proof fn create_thread_fails_with_the_database(
    thread_id: Seq<char>,
    create_params_json: Seq<char>,
    session_meta_json: Seq<char>,
    h: Seq<ThreadReplyView>,
    text: Seq<char>,
)
    ensures
        failure_ends(
            |g: Seq<ThreadReplyView>| create_thread_steps(thread_id, create_params_json, session_meta_json, g),
            h,
            text,
        ),
{
    let g = h.push(ThreadReplyView::Failed(text));
    assert(forall|i: int| 0 <= i < h.len() ==> #[trigger] g[i] == h[i]);
    assert(g[h.len() as int] == ThreadReplyView::Failed(text));
    recording_fails_with_the_database(thread_id, seq![session_meta_json], h, 4, text);
}

/// A failing statement ends `resume_thread` with its failure.
pub proof fn resume_thread_fails_with_the_database(
    thread_id: Seq<char>,
    create_params_json: Seq<char>,
    history: Option<Seq<Seq<char>>>,
    h: Seq<ThreadReplyView>,
    text: Seq<char>,
)
    ensures
        failure_ends(
            |g: Seq<ThreadReplyView>| resume_thread_steps(thread_id, create_params_json, history, g),
            h,
            text,
        ),
{
    let g = h.push(ThreadReplyView::Failed(text));
    assert(forall|i: int| 0 <= i < h.len() ==> #[trigger] g[i] == h[i]);
    assert(g[h.len() as int] == ThreadReplyView::Failed(text));
    if let Some(items) = history {
        recording_fails_with_the_database(thread_id, items, h, 4, text);
        recording_fails_with_the_database(thread_id, items, h, 6, text);
    }
}

/// A failing statement ends `append_items` with its failure.
pub proof fn append_items_fails_with_the_database(
    thread_id: Seq<char>,
    items: Seq<Seq<char>>,
    h: Seq<ThreadReplyView>,
    text: Seq<char>,
)
    ensures
        failure_ends(
            |g: Seq<ThreadReplyView>| append_items_steps(thread_id, items, g),
            h,
            text,
        ),
{
    let g = h.push(ThreadReplyView::Failed(text));
    assert(forall|i: int| 0 <= i < h.len() ==> #[trigger] g[i] == h[i]);
    assert(g[h.len() as int] == ThreadReplyView::Failed(text));
    recording_fails_with_the_database(thread_id, items, h, 3, text);
    recording_fails_with_the_database(thread_id, items, h, 5, text);
}

/// A failing statement ends `list_threads` with its failure.
pub proof fn list_threads_fails_with_the_database(
    page_size: u64,
    cli_version: Seq<char>,
    h: Seq<ThreadReplyView>,
    text: Seq<char>,
)
    ensures
        failure_ends(
            |g: Seq<ThreadReplyView>| list_threads_steps(page_size, cli_version, g),
            h,
            text,
        ),
{
    let g = h.push(ThreadReplyView::Failed(text));
    assert(forall|i: int| 0 <= i < h.len() ==> #[trigger] g[i] == h[i]);
    assert(g[h.len() as int] == ThreadReplyView::Failed(text));
    if h.len() > 1 {
        if let Ok(listed) = h[1].threads() {
            listing_fails_with_the_database(listed, 0, Seq::empty(), cli_version, h, 2, text);
        }
    }
}

proof fn listing_fails_with_the_database(
    listed: Seq<ListedThreadView>,
    from: int,
    read: Seq<StoredThreadView>,
    cli_version: Seq<char>,
    h: Seq<ThreadReplyView>,
    at: int,
    text: Seq<char>,
)
    requires
        0 <= at <= h.len(),
    ensures
        failure_ends(
            |g: Seq<ThreadReplyView>| read_listed_steps(listed, from, read, cli_version, g, at),
            h,
            text,
        ),
    decreases listed.len() - from,
{
    let g = h.push(ThreadReplyView::Failed(text));
    assert(forall|i: int| 0 <= i < h.len() ==> #[trigger] g[i] == h[i]);
    assert(g[h.len() as int] == ThreadReplyView::Failed(text));
    if from < listed.len() {
        if let Ok(thread_id) = listed_id(listed[from]) {
            if let ThreadProgressView::Ready(thread, used) = read_row_steps(
                thread_id,
                false,
                false,
                cli_version,
                h,
                at,
            ) {
                listing_fails_with_the_database(
                    listed,
                    from + 1,
                    read.push(thread),
                    cli_version,
                    h,
                    used,
                    text,
                );
            }
        }
    }
}

} // verus!
