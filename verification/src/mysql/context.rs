//! Keeping configurations and metadata.
use vstd::prelude::*;

use crate::json::validate_event_payload_inline;
use crate::mysql::common::valid_payload;
use crate::mysql::statements::{ask, Reply, ReplyView, Statement, StatementView, Step, StepView};
use crate::records::{
    CloudStateError, ConfigSnapshotRecord, ConfigSnapshotView, ErrorView, RequestView,
    StateMetadataRecord, StateMetadataView,
};

verus! {

/// Keeps the configuration under which a request runs.
pub open spec fn persist_config_snapshot_steps(
    record: ConfigSnapshotView,
    now_ms: i64,
    h: Seq<ReplyView>,
) -> StepView<()> {
    match valid_payload(record.config_json) {
        Err(error) => StepView::Done(Err(error)),
        Ok(_) => ask(
            h,
            0,
            StatementView::SelectRequest {
                request_id: record.request_id,
            },
            |reply: ReplyView| reply.request(),
            |found: Option<RequestView>|
                match found {
                    None => StepView::Done(Err(ErrorView::RequestNotFound)),
                    Some(request) => if request.thread_id != record.thread_id {
                        StepView::Done(Err(ErrorView::ThreadMismatch))
                    } else {
                        ask(
                            h,
                            1,
                            StatementView::UpsertConfig {
                                request_id: record.request_id,
                                thread_id: record.thread_id,
                                config_json: record.config_json,
                                now_ms,
                            },
                            |reply: ReplyView| reply.done(),
                            |_done: ()|
                                StepView::Done(Ok(())),
                        )
                    },
                },
        ),
    }
}

/// Keeps the configuration under which a request runs.
pub fn persist_config_snapshot(
    record: &ConfigSnapshotRecord,
    now_ms: i64,
    replies: &Vec<Reply>,
) -> (r: Step<()>)
    ensures
        r.deep_view() == persist_config_snapshot_steps(
            record.deep_view(),
            now_ms,
            replies.deep_view(),
        ),
{
    if let Err(error) = validate_event_payload_inline(record.config_json.as_str()) {
        return Step::Done(Err(error));
    }
    if replies.len() <= 0 {
        return Step::Ask(Statement::SelectRequest {
            request_id: record.request_id.clone(),
        });
    }
    let found = match replies[0].request() {
        Ok(found) => found,
        Err(error) => return Step::Done(Err(error)),
    };
    let request = match found {
        Some(request) => request,
        None => {
            return Step::Done(Err(CloudStateError::RequestNotFound));
        },
    };
    if request.thread_id != record.thread_id {
        return Step::Done(Err(CloudStateError::ThreadMismatch));
    }
    if replies.len() <= 1 {
        return Step::Ask(Statement::UpsertConfig {
            request_id: record.request_id.clone(),
            thread_id: record.thread_id.clone(),
            config_json: record.config_json.clone(),
            now_ms,
        });
    }
    if let Err(error) = replies[1].done() {
        return Step::Done(Err(error));
    }
    Step::Done(Ok(()))
}

/// Reads the configuration under which a request runs.
pub open spec fn read_config_snapshot_steps(
    request_id: Seq<char>,
    h: Seq<ReplyView>,
) -> StepView<ConfigSnapshotView> {
    ask(
        h,
        0,
        StatementView::SelectRequest {
            request_id,
        },
        |reply: ReplyView| reply.request(),
        |found: Option<RequestView>|
            if found is None {
                StepView::Done(Err(ErrorView::RequestNotFound))
            } else {
                ask(
                    h,
                    1,
                    StatementView::SelectConfig {
                        request_id,
                    },
                    |reply: ReplyView| reply.config(),
                    |kept: Option<ConfigSnapshotView>|
                        match kept {
                            None => StepView::Done(Err(ErrorView::RequestNotFound)),
                            Some(record) => StepView::Done(Ok(record)),
                        },
                )
            },
    )
}

/// Reads the configuration under which a request runs.
pub fn read_config_snapshot(
    request_id: &String,
    replies: &Vec<Reply>,
) -> (r: Step<ConfigSnapshotRecord>)
    ensures
        r.deep_view() == read_config_snapshot_steps(request_id@, replies.deep_view()),
{
    if replies.len() <= 0 {
        return Step::Ask(Statement::SelectRequest {
            request_id: request_id.clone(),
        });
    }
    let found = match replies[0].request() {
        Ok(found) => found,
        Err(error) => return Step::Done(Err(error)),
    };
    if found.is_none() {
        return Step::Done(Err(CloudStateError::RequestNotFound));
    }
    if replies.len() <= 1 {
        return Step::Ask(Statement::SelectConfig {
            request_id: request_id.clone(),
        });
    }
    let kept = match replies[1].config() {
        Ok(kept) => kept,
        Err(error) => return Step::Done(Err(error)),
    };
    let record = match kept {
        Some(record) => record,
        None => {
            return Step::Done(Err(CloudStateError::RequestNotFound));
        },
    };
    Step::Done(Ok(record.clone()))
}

/// Keeps metadata of one kind for a thread.
pub open spec fn upsert_state_metadata_steps(
    record: StateMetadataView,
    now_ms: i64,
    h: Seq<ReplyView>,
) -> StepView<()> {
    match valid_payload(record.payload_json) {
        Err(error) => StepView::Done(Err(error)),
        Ok(_) => ask(
            h,
            0,
            StatementView::UpsertMetadata {
                thread_id: record.thread_id,
                kind: record.kind,
                payload_json: record.payload_json,
                now_ms,
            },
            |reply: ReplyView| reply.done(),
            |_done: ()|
                StepView::Done(Ok(())),
        ),
    }
}

/// Keeps metadata of one kind for a thread.
pub fn upsert_state_metadata(
    record: &StateMetadataRecord,
    now_ms: i64,
    replies: &Vec<Reply>,
) -> (r: Step<()>)
    ensures
        r.deep_view() == upsert_state_metadata_steps(
            record.deep_view(),
            now_ms,
            replies.deep_view(),
        ),
{
    if let Err(error) = validate_event_payload_inline(record.payload_json.as_str()) {
        return Step::Done(Err(error));
    }
    if replies.len() <= 0 {
        return Step::Ask(Statement::UpsertMetadata {
            thread_id: record.thread_id.clone(),
            kind: record.kind.clone(),
            payload_json: record.payload_json.clone(),
            now_ms,
        });
    }
    if let Err(error) = replies[0].done() {
        return Step::Done(Err(error));
    }
    Step::Done(Ok(()))
}

/// Reads the metadata of one kind kept for a thread.
pub open spec fn read_state_metadata_steps(
    thread_id: Seq<char>,
    kind: Seq<char>,
    h: Seq<ReplyView>,
) -> StepView<StateMetadataView> {
    ask(
        h,
        0,
        StatementView::SelectMetadata {
            thread_id,
            kind,
        },
        |reply: ReplyView| reply.metadata(),
        |kept: Option<StateMetadataView>|
            match kept {
                None => StepView::Done(Err(ErrorView::RequestNotFound)),
                Some(record) => StepView::Done(Ok(record)),
            },
    )
}

/// Reads the metadata of one kind kept for a thread.
pub fn read_state_metadata(
    thread_id: &String,
    kind: &String,
    replies: &Vec<Reply>,
) -> (r: Step<StateMetadataRecord>)
    ensures
        r.deep_view() == read_state_metadata_steps(thread_id@, kind@, replies.deep_view()),
{
    if replies.len() <= 0 {
        return Step::Ask(Statement::SelectMetadata {
            thread_id: thread_id.clone(),
            kind: kind.clone(),
        });
    }
    let kept = match replies[0].metadata() {
        Ok(kept) => kept,
        Err(error) => return Step::Done(Err(error)),
    };
    let record = match kept {
        Some(record) => record,
        None => {
            return Step::Done(Err(CloudStateError::RequestNotFound));
        },
    };
    Step::Done(Ok(record.clone()))
}

} // verus!
