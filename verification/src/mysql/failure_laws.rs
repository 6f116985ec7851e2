//! What failing statements come to, and when statements say that they are put.
use vstd::prelude::*;

use crate::mysql::appends::{
    append_thread_items_with_lease_steps, find_duplicate_append_steps, insert_items_steps,
    list_thread_items_steps,
};
use crate::mysql::context::{
    persist_config_snapshot_steps, read_config_snapshot_steps, read_state_metadata_steps,
    upsert_state_metadata_steps,
};
use crate::mysql::endings::{mark_request_terminal_steps, mark_request_terminal_with_event_steps};
use crate::mysql::events::{
    append_request_event_if_latest_cursor_steps, append_request_event_steps,
    list_request_events_steps,
};
use crate::mysql::leases::{
    end_with_event_steps, expire_each_steps, expire_owner_leases_steps, release_leases_steps,
    acquire_thread_writer_lease_steps, read_thread_writer_lease_steps, renew_request_leases_steps,
};
use crate::mysql::requests::{
    caller_can_access_thread_steps, create_request_steps, read_request_by_turn_id_steps,
    read_request_steps, set_request_turn_id_steps,
};
use crate::mysql::statements::{
    AppendRowView, OwnedRequestView, ProgressView, ReplyView, StatementView, StepView,
};
use crate::protocol::{AppendThreadItemsWithLeaseResponse, RequestStatus};
use crate::records::{
    ConfigSnapshotView, CreateRequestView, ErrorView, EventAppendView, LeaseAppendView, RequestView,
    StateMetadataView, TerminalStatusUpdate,
};

verus! {

impl StatementView {
    /// The moment at which a statement says that it is put, if it says so.
    pub open spec fn moment(self) -> Option<i64> {
        match self {
            StatementView::InsertRequest { now_ms, .. } => Some(now_ms),
            StatementView::SetTurn { now_ms, .. } => Some(now_ms),
            StatementView::SelectRequestLease { now_ms, .. } => Some(now_ms),
            StatementView::LockActiveLease { now_ms, .. } => Some(now_ms),
            StatementView::EndRequestWithEvent { now_ms, .. } => Some(now_ms),
            StatementView::EndRequest { now_ms, .. } => Some(now_ms),
            StatementView::InsertEvent { now_ms, .. } => Some(now_ms),
            StatementView::ReleaseThreadLease { now_ms, .. } => Some(now_ms),
            StatementView::ReleaseOwnerLease { now_ms, .. } => Some(now_ms),
            StatementView::InsertFencingToken { now_ms, .. } => Some(now_ms),
            StatementView::InsertThreadLease { now_ms, .. } => Some(now_ms),
            StatementView::UpsertOwnerLease { now_ms, .. } => Some(now_ms),
            StatementView::RenewThreadLease { now_ms, .. } => Some(now_ms),
            StatementView::RenewOwnerLease { now_ms, .. } => Some(now_ms),
            StatementView::LockExpiredOwners { now_ms } => Some(now_ms),
            StatementView::AdvanceCursor { now_ms, .. } => Some(now_ms),
            StatementView::AdvanceCursorFrom { now_ms, .. } => Some(now_ms),
            StatementView::UpsertConfig { now_ms, .. } => Some(now_ms),
            StatementView::UpsertMetadata { now_ms, .. } => Some(now_ms),
            _ => None,
        }
    }
}

/// Whether a statement of an operation that fails ends the operation with that failure, in the
/// words of the database.
pub open spec fn failure_ends<T>(
    script: spec_fn(Seq<ReplyView>) -> StepView<T>,
    h: Seq<ReplyView>,
    text: Seq<char>,
) -> bool {
    script(h) is Ask ==> script(h.push(ReplyView::Failed(text))) == StepView::<T>::Done(
        Err(ErrorView::Storage(text)),
    )
}

/// A failing statement ends `create_request` with its failure; its statements
/// say that they are put at the moment that is given.
pub proof fn create_request_fails_with_the_database(
    params: CreateRequestView,
    request_id: Seq<char>,
    now_ms: i64,
    h: Seq<ReplyView>,
    text: Seq<char>,
)
    ensures
        failure_ends(|g: Seq<ReplyView>| create_request_steps(params, request_id, now_ms, g), h, text),
        create_request_steps(params, request_id, now_ms, h) matches StepView::Ask(statement) ==> (statement.moment()
            matches Some(ms) ==> ms == now_ms),
{
    let g = h.push(ReplyView::Failed(text));
    assert(forall|i: int| 0 <= i < h.len() ==> #[trigger] g[i] == h[i]);
    assert(g[h.len() as int] == ReplyView::Failed(text));
}

/// A failing statement ends `read_request` with its failure.
pub proof fn read_request_fails_with_the_database(
    request_id: Seq<char>,
    h: Seq<ReplyView>,
    text: Seq<char>,
)
    ensures
        failure_ends(|g: Seq<ReplyView>| read_request_steps(request_id, g), h, text),
{
    let g = h.push(ReplyView::Failed(text));
    assert(forall|i: int| 0 <= i < h.len() ==> #[trigger] g[i] == h[i]);
    assert(g[h.len() as int] == ReplyView::Failed(text));
}

/// A failing statement ends `read_request_by_turn_id` with its failure.
pub proof fn read_request_by_turn_id_fails_with_the_database(
    turn_id: Seq<char>,
    h: Seq<ReplyView>,
    text: Seq<char>,
)
    ensures
        failure_ends(|g: Seq<ReplyView>| read_request_by_turn_id_steps(turn_id, g), h, text),
{
    let g = h.push(ReplyView::Failed(text));
    assert(forall|i: int| 0 <= i < h.len() ==> #[trigger] g[i] == h[i]);
    assert(g[h.len() as int] == ReplyView::Failed(text));
}

/// A failing statement ends `set_request_turn_id` with its failure; its statements
/// say that they are put at the moment that is given.
pub proof fn set_request_turn_id_fails_with_the_database(
    request_id: Seq<char>,
    turn_id: Seq<char>,
    now_ms: i64,
    h: Seq<ReplyView>,
    text: Seq<char>,
)
    ensures
        failure_ends(|g: Seq<ReplyView>| set_request_turn_id_steps(request_id, turn_id, now_ms, g), h, text),
        set_request_turn_id_steps(request_id, turn_id, now_ms, h) matches StepView::Ask(statement) ==> (statement.moment()
            matches Some(ms) ==> ms == now_ms),
{
    let g = h.push(ReplyView::Failed(text));
    assert(forall|i: int| 0 <= i < h.len() ==> #[trigger] g[i] == h[i]);
    assert(g[h.len() as int] == ReplyView::Failed(text));
}

/// A failing statement ends `caller_can_access_thread` with its failure.
pub proof fn caller_can_access_thread_fails_with_the_database(
    caller_id: Seq<char>,
    thread_id: Seq<char>,
    h: Seq<ReplyView>,
    text: Seq<char>,
)
    ensures
        failure_ends(|g: Seq<ReplyView>| caller_can_access_thread_steps(caller_id, thread_id, g), h, text),
{
    let g = h.push(ReplyView::Failed(text));
    assert(forall|i: int| 0 <= i < h.len() ==> #[trigger] g[i] == h[i]);
    assert(g[h.len() as int] == ReplyView::Failed(text));
}

/// A failing statement ends `acquire_thread_writer_lease` with its failure; its statements
/// say that they are put at the moment that is given.
pub proof fn acquire_thread_writer_lease_fails_with_the_database(
    request_id: Seq<char>,
    owner: Seq<char>,
    lease_id: Seq<char>,
    now_ms: i64,
    h: Seq<ReplyView>,
    text: Seq<char>,
)
    ensures
        failure_ends(|g: Seq<ReplyView>| acquire_thread_writer_lease_steps(request_id, owner, lease_id, now_ms, g), h, text),
        acquire_thread_writer_lease_steps(request_id, owner, lease_id, now_ms, h) matches StepView::Ask(statement) ==> (statement.moment()
            matches Some(ms) ==> ms == now_ms),
{
    let g = h.push(ReplyView::Failed(text));
    assert(forall|i: int| 0 <= i < h.len() ==> #[trigger] g[i] == h[i]);
    assert(g[h.len() as int] == ReplyView::Failed(text));
}

/// A failing statement ends `read_thread_writer_lease` with its failure; its statements
/// say that they are put at the moment that is given.
pub proof fn read_thread_writer_lease_fails_with_the_database(
    request_id: Seq<char>,
    now_ms: i64,
    h: Seq<ReplyView>,
    text: Seq<char>,
)
    ensures
        failure_ends(|g: Seq<ReplyView>| read_thread_writer_lease_steps(request_id, now_ms, g), h, text),
        read_thread_writer_lease_steps(request_id, now_ms, h) matches StepView::Ask(statement) ==> (statement.moment()
            matches Some(ms) ==> ms == now_ms),
{
    let g = h.push(ReplyView::Failed(text));
    assert(forall|i: int| 0 <= i < h.len() ==> #[trigger] g[i] == h[i]);
    assert(g[h.len() as int] == ReplyView::Failed(text));
}

/// A failing statement ends `renew_request_leases` with its failure; its statements
/// say that they are put at the moment that is given.
pub proof fn renew_request_leases_fails_with_the_database(
    request_id: Seq<char>,
    owner: Seq<char>,
    now_ms: i64,
    h: Seq<ReplyView>,
    text: Seq<char>,
)
    ensures
        failure_ends(|g: Seq<ReplyView>| renew_request_leases_steps(request_id, owner, now_ms, g), h, text),
        renew_request_leases_steps(request_id, owner, now_ms, h) matches StepView::Ask(statement) ==> (statement.moment()
            matches Some(ms) ==> ms == now_ms),
{
    let g = h.push(ReplyView::Failed(text));
    assert(forall|i: int| 0 <= i < h.len() ==> #[trigger] g[i] == h[i]);
    assert(g[h.len() as int] == ReplyView::Failed(text));
}

/// A failing statement ends `mark_request_terminal` with its failure; its statements
/// say that they are put at the moment that is given.
pub proof fn mark_request_terminal_fails_with_the_database(
    request_id: Seq<char>,
    status: RequestStatus,
    now_ms: i64,
    h: Seq<ReplyView>,
    text: Seq<char>,
)
    ensures
        failure_ends(|g: Seq<ReplyView>| mark_request_terminal_steps(request_id, status, now_ms, g), h, text),
        mark_request_terminal_steps(request_id, status, now_ms, h) matches StepView::Ask(statement) ==> (statement.moment()
            matches Some(ms) ==> ms == now_ms),
{
    let g = h.push(ReplyView::Failed(text));
    assert(forall|i: int| 0 <= i < h.len() ==> #[trigger] g[i] == h[i]);
    assert(g[h.len() as int] == ReplyView::Failed(text));
}

/// A failing statement ends `mark_request_terminal_with_event` with its failure; its statements
/// say that they are put at the moment that is given.
pub proof fn mark_request_terminal_with_event_fails_with_the_database(
    event: EventAppendView,
    status: RequestStatus,
    now_ms: i64,
    h: Seq<ReplyView>,
    text: Seq<char>,
)
    ensures
        failure_ends(|g: Seq<ReplyView>| mark_request_terminal_with_event_steps(event, status, now_ms, g), h, text),
        mark_request_terminal_with_event_steps(event, status, now_ms, h) matches StepView::Ask(statement) ==> (statement.moment()
            matches Some(ms) ==> ms == now_ms),
{
    let g = h.push(ReplyView::Failed(text));
    assert(forall|i: int| 0 <= i < h.len() ==> #[trigger] g[i] == h[i]);
    assert(g[h.len() as int] == ReplyView::Failed(text));
}

/// A failing statement ends `append_request_event` with its failure; its statements
/// say that they are put at the moment that is given.
pub proof fn append_request_event_fails_with_the_database(
    event: EventAppendView,
    now_ms: i64,
    h: Seq<ReplyView>,
    text: Seq<char>,
)
    ensures
        failure_ends(|g: Seq<ReplyView>| append_request_event_steps(event, now_ms, g), h, text),
        append_request_event_steps(event, now_ms, h) matches StepView::Ask(statement) ==> (statement.moment()
            matches Some(ms) ==> ms == now_ms),
{
    let g = h.push(ReplyView::Failed(text));
    assert(forall|i: int| 0 <= i < h.len() ==> #[trigger] g[i] == h[i]);
    assert(g[h.len() as int] == ReplyView::Failed(text));
}

/// A failing statement ends `append_request_event_if_latest_cursor` with its failure; its statements
/// say that they are put at the moment that is given.
pub proof fn append_request_event_if_latest_cursor_fails_with_the_database(
    event: EventAppendView,
    expected: u64,
    now_ms: i64,
    h: Seq<ReplyView>,
    text: Seq<char>,
)
    ensures
        failure_ends(|g: Seq<ReplyView>| append_request_event_if_latest_cursor_steps(event, expected, now_ms, g), h, text),
        append_request_event_if_latest_cursor_steps(event, expected, now_ms, h) matches StepView::Ask(statement) ==> (statement.moment()
            matches Some(ms) ==> ms == now_ms),
{
    let g = h.push(ReplyView::Failed(text));
    assert(forall|i: int| 0 <= i < h.len() ==> #[trigger] g[i] == h[i]);
    assert(g[h.len() as int] == ReplyView::Failed(text));
}

/// A failing statement ends `list_request_events` with its failure.
pub proof fn list_request_events_fails_with_the_database(
    request_id: Seq<char>,
    cursor: Option<u64>,
    limit: nat,
    h: Seq<ReplyView>,
    text: Seq<char>,
)
    ensures
        failure_ends(|g: Seq<ReplyView>| list_request_events_steps(request_id, cursor, limit, g), h, text),
{
    let g = h.push(ReplyView::Failed(text));
    assert(forall|i: int| 0 <= i < h.len() ==> #[trigger] g[i] == h[i]);
    assert(g[h.len() as int] == ReplyView::Failed(text));
}

/// A failing statement ends `list_thread_items` with its failure.
pub proof fn list_thread_items_fails_with_the_database(
    thread_id: Seq<char>,
    cursor: Option<u64>,
    limit: nat,
    h: Seq<ReplyView>,
    text: Seq<char>,
)
    ensures
        failure_ends(|g: Seq<ReplyView>| list_thread_items_steps(thread_id, cursor, limit, g), h, text),
{
    let g = h.push(ReplyView::Failed(text));
    assert(forall|i: int| 0 <= i < h.len() ==> #[trigger] g[i] == h[i]);
    assert(g[h.len() as int] == ReplyView::Failed(text));
}

/// A failing statement ends `persist_config_snapshot` with its failure; its statements
/// say that they are put at the moment that is given.
pub proof fn persist_config_snapshot_fails_with_the_database(
    record: ConfigSnapshotView,
    now_ms: i64,
    h: Seq<ReplyView>,
    text: Seq<char>,
)
    ensures
        failure_ends(|g: Seq<ReplyView>| persist_config_snapshot_steps(record, now_ms, g), h, text),
        persist_config_snapshot_steps(record, now_ms, h) matches StepView::Ask(statement) ==> (statement.moment()
            matches Some(ms) ==> ms == now_ms),
{
    let g = h.push(ReplyView::Failed(text));
    assert(forall|i: int| 0 <= i < h.len() ==> #[trigger] g[i] == h[i]);
    assert(g[h.len() as int] == ReplyView::Failed(text));
}

/// A failing statement ends `read_config_snapshot` with its failure.
pub proof fn read_config_snapshot_fails_with_the_database(
    request_id: Seq<char>,
    h: Seq<ReplyView>,
    text: Seq<char>,
)
    ensures
        failure_ends(|g: Seq<ReplyView>| read_config_snapshot_steps(request_id, g), h, text),
{
    let g = h.push(ReplyView::Failed(text));
    assert(forall|i: int| 0 <= i < h.len() ==> #[trigger] g[i] == h[i]);
    assert(g[h.len() as int] == ReplyView::Failed(text));
}

/// A failing statement ends `upsert_state_metadata` with its failure; its statements
/// say that they are put at the moment that is given.
pub proof fn upsert_state_metadata_fails_with_the_database(
    record: StateMetadataView,
    now_ms: i64,
    h: Seq<ReplyView>,
    text: Seq<char>,
)
    ensures
        failure_ends(|g: Seq<ReplyView>| upsert_state_metadata_steps(record, now_ms, g), h, text),
        upsert_state_metadata_steps(record, now_ms, h) matches StepView::Ask(statement) ==> (statement.moment()
            matches Some(ms) ==> ms == now_ms),
{
    let g = h.push(ReplyView::Failed(text));
    assert(forall|i: int| 0 <= i < h.len() ==> #[trigger] g[i] == h[i]);
    assert(g[h.len() as int] == ReplyView::Failed(text));
}

/// A failing statement ends `read_state_metadata` with its failure.
pub proof fn read_state_metadata_fails_with_the_database(
    thread_id: Seq<char>,
    kind: Seq<char>,
    h: Seq<ReplyView>,
    text: Seq<char>,
)
    ensures
        failure_ends(|g: Seq<ReplyView>| read_state_metadata_steps(thread_id, kind, g), h, text),
{
    let g = h.push(ReplyView::Failed(text));
    assert(forall|i: int| 0 <= i < h.len() ==> #[trigger] g[i] == h[i]);
    assert(g[h.len() as int] == ReplyView::Failed(text));
}

/// One more answer does not change what came of items that were recorded before; a failing
/// statement ends the recording.
proof fn inserting_fails_with_the_database(
    thread_id: Seq<char>,
    version: u64,
    payload_refs: Seq<Seq<char>>,
    from: int,
    h: Seq<ReplyView>,
    at: int,
    text: Seq<char>,
)
    requires
        0 <= at <= h.len(),
    ensures
        ({
            let g = h.push(ReplyView::Failed(text));
            let before = insert_items_steps(thread_id, version, payload_refs, from, h, at);
            let after = insert_items_steps(thread_id, version, payload_refs, from, g, at);
            match before {
                ProgressView::Ask(statement) => after == ProgressView::<()>::Failed(
                    ErrorView::Storage(text),
                ) && statement.moment() is None,
                ProgressView::Failed(_) => true,
                ProgressView::Ready(_, used) => after == before && at <= used <= h.len(),
            }
        }),
    decreases payload_refs.len() - from,
{
    let g = h.push(ReplyView::Failed(text));
    if from < payload_refs.len() {
        if h.len() <= at {
            assert(g[at] == ReplyView::Failed(text));
        } else {
            assert(g[at] == h[at]);
            if h[at].done() is Ok {
                inserting_fails_with_the_database(
                    thread_id,
                    version,
                    payload_refs,
                    from + 1,
                    h,
                    at + 1,
                    text,
                );
            }
        }
    }
}

/// A failing statement ends an append with its failure; its statements say that they are put
/// at the moment that is given.
pub proof fn append_thread_items_with_lease_fails_with_the_database(
    params: LeaseAppendView,
    now_ms: i64,
    h: Seq<ReplyView>,
    text: Seq<char>,
)
    ensures
        failure_ends(
            |g: Seq<ReplyView>| append_thread_items_with_lease_steps(params, now_ms, g),
            h,
            text,
        ),
        append_thread_items_with_lease_steps(params, now_ms, h) matches StepView::Ask(statement)
            ==> (statement.moment() matches Some(ms) ==> ms == now_ms),
{
    let g = h.push(ReplyView::Failed(text));
    assert(forall|i: int| 0 <= i < h.len() ==> #[trigger] g[i] == h[i]);
    assert(g[h.len() as int] == ReplyView::Failed(text));
    if h.len() > 4 {
        if let Ok(Some(request)) = h[0].request() {
            if let Ok(version) = h[4].number() {
                inserting_fails_with_the_database(
                    request.thread_id,
                    version,
                    params.payload_refs,
                    0,
                    h,
                    5,
                    text,
                );
            }
        }
    }
}

/// A failing statement ends the expiry of owners with its failure; its statements say that
/// they are put at the moment that is given.
pub proof fn expire_owner_leases_fails_with_the_database(
    now_ms: i64,
    h: Seq<ReplyView>,
    text: Seq<char>,
)
    ensures
        failure_ends(|g: Seq<ReplyView>| expire_owner_leases_steps(now_ms, g), h, text),
        expire_owner_leases_steps(now_ms, h) matches StepView::Ask(statement) ==> (
        statement.moment() matches Some(ms) ==> ms == now_ms),
{
    let g = h.push(ReplyView::Failed(text));
    assert(forall|i: int| 0 <= i < h.len() ==> #[trigger] g[i] == h[i]);
    assert(g[h.len() as int] == ReplyView::Failed(text));
    if h.len() > 1 {
        if let Ok(expired) = h[1].owners() {
            expiring_fails_with_the_database(expired, 0, 0, now_ms, h, 2, text);
        }
    }
}

proof fn expiring_fails_with_the_database(
    expired: Seq<OwnedRequestView>,
    from: int,
    ended: usize,
    now_ms: i64,
    h: Seq<ReplyView>,
    at: int,
    text: Seq<char>,
)
    requires
        0 <= at <= h.len(),
    ensures
        failure_ends(
            |g: Seq<ReplyView>| expire_each_steps(expired, from, ended, now_ms, g, at),
            h,
            text,
        ),
        expire_each_steps(expired, from, ended, now_ms, h, at) matches StepView::Ask(statement)
            ==> (statement.moment() matches Some(ms) ==> ms == now_ms),
    decreases expired.len() - from,
{
    let g = h.push(ReplyView::Failed(text));
    assert(forall|i: int| 0 <= i < h.len() ==> #[trigger] g[i] == h[i]);
    assert(g[h.len() as int] == ReplyView::Failed(text));
    if from < expired.len() {
        let told = end_with_event_steps(
            expired[from].request_id,
            RequestStatus::OwnerTimedOut,
            "request/owner_timed_out"@,
            "{\"reason\":\"owner_lease_expired\"}"@,
            now_ms,
            h,
            at,
        );
        if let ProgressView::Ready(update, used) = told {
            assert(used <= h.len());
            let released = release_leases_steps(
                expired[from].thread_id,
                expired[from].request_id,
                now_ms,
                h,
                used,
            );
            if let ProgressView::Ready(_, later) = released {
                expiring_fails_with_the_database(
                    expired,
                    from + 1,
                    if update == TerminalStatusUpdate::Changed {
                        (ended + 1) as usize
                    } else {
                        ended
                    },
                    now_ms,
                    h,
                    later,
                    text,
                );
            }
        }
    }
}

/// A request that another writer recorded under the same key in the meantime is the answer if
/// its input is the same, and a conflict if it is not.
pub proof fn request_of_another_writer_is_found(
    params: CreateRequestView,
    request_id: Seq<char>,
    now_ms: i64,
    other: RequestView,
)
    ensures
        ({
            let h = seq![
                ReplyView::Done,
                ReplyView::Request(None),
                ReplyView::Duplicate,
                ReplyView::Done,
                ReplyView::Request(Some(other.row())),
            ];
            create_request_steps(params, request_id, now_ms, h) == StepView::Done(
                if other.input_hash == params.input_hash {
                    Ok::<RequestView, ErrorView>(other)
                } else {
                    Err(ErrorView::IdempotencyConflict)
                },
            )
        }),
        create_request_steps(
            params,
            request_id,
            now_ms,
            seq![ReplyView::Done, ReplyView::Request(None), ReplyView::Duplicate],
        ) == StepView::<RequestView>::Ask(StatementView::Rollback),
        create_request_steps(
            params,
            request_id,
            now_ms,
            seq![
                ReplyView::Done,
                ReplyView::Request(None),
                ReplyView::Duplicate,
                ReplyView::Done,
            ],
        ) == StepView::<RequestView>::Ask(
            StatementView::SelectRequestByKey {
                caller_id: params.caller_id,
                thread_id: params.thread_id,
                idempotency_key: params.idempotency_key,
            },
        ),
{
    other.row_reads_back();
}

/// An append that another writer recorded under the same key in the meantime is undone here;
/// it is answered with what the other one was answered with, marked as a repetition, if it is
/// by the same request and of the same payloads, and is a conflict if not.
pub proof fn append_of_another_writer_is_found(
    params: LeaseAppendView,
    thread_id: Seq<char>,
    other: AppendRowView,
    h: Seq<ReplyView>,
)
    requires
        h.len() == 2,
        h[0] == ReplyView::Done,
        h[1] == ReplyView::Append(Some(other)),
    ensures
        match find_duplicate_append_steps(params, thread_id, h, 0) {
            StepView::Ask(_) => false,
            StepView::Done(r) => if other.request_id == params.request_id
                && crate::json::json_texts(other.payload_refs_json) == Some(params.payload_refs) {
                &&& r matches Ok(answer)
                &&& answer.deduplicated
                &&& answer.thread_version == other.thread_version
                &&& answer.first_append_sequence == other.first_append_sequence
                &&& answer.last_append_sequence == other.last_append_sequence
            } else {
                r == Err::<AppendThreadItemsWithLeaseResponse, ErrorView>(
                    ErrorView::IdempotencyConflict,
                )
            },
        },
        find_duplicate_append_steps(params, thread_id, Seq::empty(), 0) == StepView::<
            AppendThreadItemsWithLeaseResponse,
        >::Ask(StatementView::Rollback),
{
}

} // verus!
