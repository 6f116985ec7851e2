//! Models of threads say what the values that they stand for say.
use vstd::prelude::*;

use crate::threads::errors::{thread_outcome, ThreadErrorView, ThreadStoreError};
use crate::threads::records::{
    CreateThreadParams, SessionMeta, SessionMetaLine, StoredThread, StoredThreadHistory,
    ThreadMetadataPatch, ThreadPage, ThreadPersistenceMetadata,
};

verus! {

/// What is asked for a new thread is modelled by what its fields say.
pub proof fn created_threads_are_modelled_by_their_fields(
    created: CreateThreadParams,
    metadata: ThreadPersistenceMetadata,
    patch: ThreadMetadataPatch,
)
    ensures
        created.deep_view().thread_id == created.thread_id@,
        created.deep_view().forked_from_id == created.forked_from_id.deep_view(),
        created.deep_view().parent_thread_id == created.parent_thread_id.deep_view(),
        created.deep_view().source == created.source@,
        created.deep_view().thread_source == created.thread_source.deep_view(),
        created.deep_view().base_instructions == created.base_instructions@,
        created.deep_view().dynamic_tools == created.dynamic_tools.deep_view(),
        created.deep_view().multi_agent_version == created.multi_agent_version.deep_view(),
        created.deep_view().metadata == created.metadata.deep_view(),
        metadata.deep_view().cwd == metadata.cwd.deep_view(),
        metadata.deep_view().model_provider == metadata.model_provider@,
        metadata.deep_view().memory_mode == metadata.memory_mode,
        patch.deep_view().preview == patch.preview.deep_view(),
        patch.deep_view().name == patch.name.deep_view(),
        patch.deep_view().model_provider == patch.model_provider.deep_view(),
        patch.deep_view().model == patch.model.deep_view(),
        patch.deep_view().reasoning_effort == patch.reasoning_effort.deep_view(),
        patch.deep_view().cwd == patch.cwd.deep_view(),
        patch.deep_view().thread_source == patch.thread_source.deep_view(),
        patch.deep_view().approval_mode == patch.approval_mode.deep_view(),
        patch.deep_view().permission_profile == patch.permission_profile.deep_view(),
        patch.deep_view().token_usage == patch.token_usage.deep_view(),
        patch.deep_view().first_user_message == patch.first_user_message.deep_view(),
{
}

/// What is shown of a thread is modelled by what its fields say.
pub proof fn shown_threads_are_modelled_by_their_fields(
    thread: StoredThread,
    history: StoredThreadHistory,
    page: ThreadPage,
    meta: SessionMeta,
    line: SessionMetaLine,
)
    ensures
        thread.deep_view().thread_id == thread.thread_id@,
        thread.deep_view().rollout_path == thread.rollout_path.deep_view(),
        thread.deep_view().forked_from_id == thread.forked_from_id.deep_view(),
        thread.deep_view().parent_thread_id == thread.parent_thread_id.deep_view(),
        thread.deep_view().preview == thread.preview@,
        thread.deep_view().name == thread.name.deep_view(),
        thread.deep_view().model_provider == thread.model_provider@,
        thread.deep_view().model == thread.model.deep_view(),
        thread.deep_view().reasoning_effort == thread.reasoning_effort.deep_view(),
        thread.deep_view().created_at == thread.created_at,
        thread.deep_view().updated_at == thread.updated_at,
        thread.deep_view().archived_at == thread.archived_at,
        thread.deep_view().cwd == thread.cwd@,
        thread.deep_view().cli_version == thread.cli_version@,
        thread.deep_view().source == thread.source@,
        thread.deep_view().thread_source == thread.thread_source.deep_view(),
        thread.deep_view().agent_nickname == thread.agent_nickname.deep_view(),
        thread.deep_view().agent_role == thread.agent_role.deep_view(),
        thread.deep_view().agent_path == thread.agent_path.deep_view(),
        thread.deep_view().git_info == thread.git_info.deep_view(),
        thread.deep_view().approval_mode == thread.approval_mode.deep_view(),
        thread.deep_view().permission_profile == thread.permission_profile.deep_view(),
        thread.deep_view().token_usage == thread.token_usage.deep_view(),
        thread.deep_view().first_user_message == thread.first_user_message.deep_view(),
        thread.deep_view().history == thread.history.deep_view(),
        history.deep_view().thread_id == history.thread_id@,
        history.deep_view().items == history.items.deep_view(),
        page.deep_view().items == page.items.deep_view(),
        page.deep_view().next_cursor == page.next_cursor.deep_view(),
        meta.deep_view().id == meta.id@,
        meta.deep_view().forked_from_id == meta.forked_from_id.deep_view(),
        meta.deep_view().parent_thread_id == meta.parent_thread_id.deep_view(),
        meta.deep_view().cwd == meta.cwd@,
        meta.deep_view().source == meta.source@,
        meta.deep_view().thread_source == meta.thread_source.deep_view(),
        meta.deep_view().model_provider == meta.model_provider.deep_view(),
        meta.deep_view().base_instructions == meta.base_instructions.deep_view(),
        meta.deep_view().dynamic_tools == meta.dynamic_tools.deep_view(),
        meta.deep_view().memory_mode == meta.memory_mode.deep_view(),
        meta.deep_view().multi_agent_version == meta.multi_agent_version.deep_view(),
        meta.deep_view().cli_version == meta.cli_version@,
        line.deep_view().meta == line.meta.deep_view(),
        line.deep_view().git == line.git.deep_view(),
{
}

/// Errors are modelled by what they are, and results by what they hold.
pub proof fn thread_errors_are_modelled_as_they_are<T: DeepView>(
    error: ThreadStoreError,
    r: Result<T, ThreadStoreError>,
)
    ensures
        error matches ThreadStoreError::ThreadNotFound { thread_id } ==> error.deep_view() == (
        ThreadErrorView::ThreadNotFound { thread_id: thread_id@ }),
        error matches ThreadStoreError::Conflict { message } ==> error.deep_view() == (
        ThreadErrorView::Conflict { message: message@ }),
        error matches ThreadStoreError::Unsupported { operation } ==> error.deep_view() == (
        ThreadErrorView::Unsupported { operation: operation@ }),
        error matches ThreadStoreError::Internal { message } ==> error.deep_view() == (
        ThreadErrorView::Internal { message: message@ }),
        r matches Ok(value) ==> thread_outcome(r) == Ok::<T::V, ThreadErrorView>(
            value.deep_view(),
        ),
        r matches Err(failure) ==> thread_outcome(r) == Err::<T::V, ThreadErrorView>(
            failure.deep_view(),
        ),
{
}

} // verus!
