//! What is kept of a thread, and how it is shown.
use vstd::prelude::*;

use crate::text::{copy_optional, copy_texts};

verus! {

/// Whether memories are made of a thread.
#[derive(Debug, Clone, Copy, PartialEq, Eq, Structural)]
pub enum ThreadMemoryMode {
    Enabled,
    Disabled,
}

/// When approval is asked for.
#[derive(Debug, PartialEq, Eq)]
pub enum ApprovalMode {
    Never,
    /// Another mode, by its name.
    Other(String),
}

/// What an [`ApprovalMode`] says.
#[verifier::ext_equal]
pub enum ApprovalModeView {
    Never,
    Other(Seq<char>),
}

impl DeepView for ApprovalMode {
    type V = ApprovalModeView;

    open spec fn deep_view(&self) -> ApprovalModeView {
        match self {
            ApprovalMode::Never => ApprovalModeView::Never,
            ApprovalMode::Other(name) => ApprovalModeView::Other(name@),
        }
    }
}

impl Clone for ApprovalMode {
    fn clone(&self) -> (r: Self)
        ensures
            r == *self,
    {
        match self {
            ApprovalMode::Never => ApprovalMode::Never,
            ApprovalMode::Other(name) => ApprovalMode::Other(name.clone()),
        }
    }
}

/// What a thread may do.
#[derive(Debug, PartialEq, Eq)]
pub enum PermissionProfile {
    ReadOnly,
    /// Another profile, as it is kept.
    Other(String),
}

/// What a [`PermissionProfile`] says.
#[verifier::ext_equal]
pub enum PermissionProfileView {
    ReadOnly,
    Other(Seq<char>),
}

impl DeepView for PermissionProfile {
    type V = PermissionProfileView;

    open spec fn deep_view(&self) -> PermissionProfileView {
        match self {
            PermissionProfile::ReadOnly => PermissionProfileView::ReadOnly,
            PermissionProfile::Other(kept) => PermissionProfileView::Other(kept@),
        }
    }
}

impl Clone for PermissionProfile {
    fn clone(&self) -> (r: Self)
        ensures
            r == *self,
    {
        match self {
            PermissionProfile::ReadOnly => PermissionProfile::ReadOnly,
            PermissionProfile::Other(kept) => PermissionProfile::Other(kept.clone()),
        }
    }
}

/// A moment: one that is kept, in milliseconds, or the present one.
#[derive(Debug, Clone, Copy, PartialEq, Eq, Structural)]
pub enum StoredTime {
    Millis(i64),
    Now,
}

/// How a thread is set up.
#[derive(Debug, PartialEq, Eq)]
pub struct ThreadPersistenceMetadata {
    pub cwd: Option<String>,
    pub model_provider: String,
    pub memory_mode: ThreadMemoryMode,
}

/// What a [`ThreadPersistenceMetadata`] says.
#[verifier::ext_equal]
pub struct ThreadPersistenceView {
    pub cwd: Option<Seq<char>>,
    pub model_provider: Seq<char>,
    pub memory_mode: ThreadMemoryMode,
}

impl DeepView for ThreadPersistenceMetadata {
    type V = ThreadPersistenceView;

    open spec fn deep_view(&self) -> ThreadPersistenceView {
        ThreadPersistenceView {
            cwd: self.cwd.deep_view(),
            model_provider: self.model_provider@,
            memory_mode: self.memory_mode,
        }
    }
}

impl Clone for ThreadPersistenceMetadata {
    fn clone(&self) -> (r: Self)
        ensures
            r == *self,
    {
        ThreadPersistenceMetadata {
            cwd: copy_optional(&self.cwd),
            model_provider: self.model_provider.clone(),
            memory_mode: self.memory_mode,
        }
    }
}

/// Asks for a thread. What only clients read stands in it as they wrote it.
#[derive(Debug, Clone, PartialEq, Eq)]
pub struct CreateThreadParams {
    pub thread_id: String,
    pub forked_from_id: Option<String>,
    pub parent_thread_id: Option<String>,
    pub source: String,
    pub thread_source: Option<String>,
    pub base_instructions: String,
    pub dynamic_tools: Vec<String>,
    pub multi_agent_version: Option<String>,
    pub metadata: ThreadPersistenceMetadata,
}

/// What a [`CreateThreadParams`] says.
#[verifier::ext_equal]
pub struct CreateThreadView {
    pub thread_id: Seq<char>,
    pub forked_from_id: Option<Seq<char>>,
    pub parent_thread_id: Option<Seq<char>>,
    pub source: Seq<char>,
    pub thread_source: Option<Seq<char>>,
    pub base_instructions: Seq<char>,
    pub dynamic_tools: Seq<Seq<char>>,
    pub multi_agent_version: Option<Seq<char>>,
    pub metadata: ThreadPersistenceView,
}

impl DeepView for CreateThreadParams {
    type V = CreateThreadView;

    open spec fn deep_view(&self) -> CreateThreadView {
        CreateThreadView {
            thread_id: self.thread_id@,
            forked_from_id: self.forked_from_id.deep_view(),
            parent_thread_id: self.parent_thread_id.deep_view(),
            source: self.source@,
            thread_source: self.thread_source.deep_view(),
            base_instructions: self.base_instructions@,
            dynamic_tools: self.dynamic_tools.deep_view(),
            multi_agent_version: self.multi_agent_version.deep_view(),
            metadata: self.metadata.deep_view(),
        }
    }
}

/// What was changed of a thread since it was created.
#[derive(Debug, Clone, PartialEq, Eq)]
pub struct ThreadMetadataPatch {
    pub preview: Option<String>,
    pub name: Option<Option<String>>,
    pub model_provider: Option<String>,
    pub model: Option<String>,
    pub reasoning_effort: Option<String>,
    pub cwd: Option<String>,
    pub thread_source: Option<Option<String>>,
    pub approval_mode: Option<ApprovalMode>,
    pub permission_profile: Option<PermissionProfile>,
    pub token_usage: Option<String>,
    pub first_user_message: Option<String>,
}

/// What a [`ThreadMetadataPatch`] says.
#[verifier::ext_equal]
pub struct ThreadPatchView {
    pub preview: Option<Seq<char>>,
    pub name: Option<Option<Seq<char>>>,
    pub model_provider: Option<Seq<char>>,
    pub model: Option<Seq<char>>,
    pub reasoning_effort: Option<Seq<char>>,
    pub cwd: Option<Seq<char>>,
    pub thread_source: Option<Option<Seq<char>>>,
    pub approval_mode: Option<ApprovalModeView>,
    pub permission_profile: Option<PermissionProfileView>,
    pub token_usage: Option<Seq<char>>,
    pub first_user_message: Option<Seq<char>>,
}

impl DeepView for ThreadMetadataPatch {
    type V = ThreadPatchView;

    open spec fn deep_view(&self) -> ThreadPatchView {
        ThreadPatchView {
            preview: self.preview.deep_view(),
            name: self.name.deep_view(),
            model_provider: self.model_provider.deep_view(),
            model: self.model.deep_view(),
            reasoning_effort: self.reasoning_effort.deep_view(),
            cwd: self.cwd.deep_view(),
            thread_source: self.thread_source.deep_view(),
            approval_mode: self.approval_mode.deep_view(),
            permission_profile: self.permission_profile.deep_view(),
            token_usage: self.token_usage.deep_view(),
            first_user_message: self.first_user_message.deep_view(),
        }
    }
}

/// The items of a thread, each as JSON.
#[derive(Debug, Clone, PartialEq, Eq)]
pub struct StoredThreadHistory {
    pub thread_id: String,
    pub items: Vec<String>,
}

/// What a [`StoredThreadHistory`] says.
#[verifier::ext_equal]
pub struct StoredHistoryView {
    pub thread_id: Seq<char>,
    pub items: Seq<Seq<char>>,
}

impl DeepView for StoredThreadHistory {
    type V = StoredHistoryView;

    open spec fn deep_view(&self) -> StoredHistoryView {
        StoredHistoryView {
            thread_id: self.thread_id@,
            items: self.items.deep_view(),
        }
    }
}

/// A thread as it is shown.
#[derive(Debug, Clone, PartialEq, Eq)]
pub struct StoredThread {
    pub thread_id: String,
    pub rollout_path: Option<String>,
    pub forked_from_id: Option<String>,
    pub parent_thread_id: Option<String>,
    pub preview: String,
    pub name: Option<String>,
    pub model_provider: String,
    pub model: Option<String>,
    pub reasoning_effort: Option<String>,
    pub created_at: StoredTime,
    pub updated_at: StoredTime,
    pub archived_at: Option<StoredTime>,
    pub cwd: String,
    pub cli_version: String,
    pub source: String,
    pub thread_source: Option<String>,
    pub agent_nickname: Option<String>,
    pub agent_role: Option<String>,
    pub agent_path: Option<String>,
    pub git_info: Option<String>,
    pub approval_mode: ApprovalMode,
    pub permission_profile: PermissionProfile,
    pub token_usage: Option<String>,
    pub first_user_message: Option<String>,
    pub history: Option<StoredThreadHistory>,
}

/// What a [`StoredThread`] says.
#[verifier::ext_equal]
pub struct StoredThreadView {
    pub thread_id: Seq<char>,
    pub rollout_path: Option<Seq<char>>,
    pub forked_from_id: Option<Seq<char>>,
    pub parent_thread_id: Option<Seq<char>>,
    pub preview: Seq<char>,
    pub name: Option<Seq<char>>,
    pub model_provider: Seq<char>,
    pub model: Option<Seq<char>>,
    pub reasoning_effort: Option<Seq<char>>,
    pub created_at: StoredTime,
    pub updated_at: StoredTime,
    pub archived_at: Option<StoredTime>,
    pub cwd: Seq<char>,
    pub cli_version: Seq<char>,
    pub source: Seq<char>,
    pub thread_source: Option<Seq<char>>,
    pub agent_nickname: Option<Seq<char>>,
    pub agent_role: Option<Seq<char>>,
    pub agent_path: Option<Seq<char>>,
    pub git_info: Option<Seq<char>>,
    pub approval_mode: ApprovalModeView,
    pub permission_profile: PermissionProfileView,
    pub token_usage: Option<Seq<char>>,
    pub first_user_message: Option<Seq<char>>,
    pub history: Option<StoredHistoryView>,
}

impl DeepView for StoredThread {
    type V = StoredThreadView;

    open spec fn deep_view(&self) -> StoredThreadView {
        StoredThreadView {
            thread_id: self.thread_id@,
            rollout_path: self.rollout_path.deep_view(),
            forked_from_id: self.forked_from_id.deep_view(),
            parent_thread_id: self.parent_thread_id.deep_view(),
            preview: self.preview@,
            name: self.name.deep_view(),
            model_provider: self.model_provider@,
            model: self.model.deep_view(),
            reasoning_effort: self.reasoning_effort.deep_view(),
            created_at: self.created_at,
            updated_at: self.updated_at,
            archived_at: self.archived_at,
            cwd: self.cwd@,
            cli_version: self.cli_version@,
            source: self.source@,
            thread_source: self.thread_source.deep_view(),
            agent_nickname: self.agent_nickname.deep_view(),
            agent_role: self.agent_role.deep_view(),
            agent_path: self.agent_path.deep_view(),
            git_info: self.git_info.deep_view(),
            approval_mode: self.approval_mode.deep_view(),
            permission_profile: self.permission_profile.deep_view(),
            token_usage: self.token_usage.deep_view(),
            first_user_message: self.first_user_message.deep_view(),
            history: self.history.deep_view(),
        }
    }
}

/// Some threads.
#[derive(Debug, Clone, PartialEq, Eq)]
pub struct ThreadPage {
    pub items: Vec<StoredThread>,
    pub next_cursor: Option<String>,
}

/// What a [`ThreadPage`] says.
#[verifier::ext_equal]
pub struct ThreadPageView {
    pub items: Seq<StoredThreadView>,
    pub next_cursor: Option<Seq<char>>,
}

impl DeepView for ThreadPage {
    type V = ThreadPageView;

    open spec fn deep_view(&self) -> ThreadPageView {
        ThreadPageView {
            items: self.items.deep_view(),
            next_cursor: self.next_cursor.deep_view(),
        }
    }
}

/// What the first item of a thread says about it.
#[derive(Debug, Clone, PartialEq, Eq)]
pub struct SessionMeta {
    pub id: String,
    pub forked_from_id: Option<String>,
    pub parent_thread_id: Option<String>,
    pub cwd: String,
    pub source: String,
    pub thread_source: Option<String>,
    pub model_provider: Option<String>,
    pub base_instructions: Option<String>,
    pub dynamic_tools: Option<Vec<String>>,
    pub memory_mode: Option<String>,
    pub multi_agent_version: Option<String>,
    pub cli_version: String,
}

/// What a [`SessionMeta`] says.
#[verifier::ext_equal]
pub struct SessionMetaView {
    pub id: Seq<char>,
    pub forked_from_id: Option<Seq<char>>,
    pub parent_thread_id: Option<Seq<char>>,
    pub cwd: Seq<char>,
    pub source: Seq<char>,
    pub thread_source: Option<Seq<char>>,
    pub model_provider: Option<Seq<char>>,
    pub base_instructions: Option<Seq<char>>,
    pub dynamic_tools: Option<Seq<Seq<char>>>,
    pub memory_mode: Option<Seq<char>>,
    pub multi_agent_version: Option<Seq<char>>,
    pub cli_version: Seq<char>,
}

impl DeepView for SessionMeta {
    type V = SessionMetaView;

    open spec fn deep_view(&self) -> SessionMetaView {
        SessionMetaView {
            id: self.id@,
            forked_from_id: self.forked_from_id.deep_view(),
            parent_thread_id: self.parent_thread_id.deep_view(),
            cwd: self.cwd@,
            source: self.source@,
            thread_source: self.thread_source.deep_view(),
            model_provider: self.model_provider.deep_view(),
            base_instructions: self.base_instructions.deep_view(),
            dynamic_tools: self.dynamic_tools.deep_view(),
            memory_mode: self.memory_mode.deep_view(),
            multi_agent_version: self.multi_agent_version.deep_view(),
            cli_version: self.cli_version@,
        }
    }
}

/// The first item of a thread.
#[derive(Debug, Clone, PartialEq, Eq)]
pub struct SessionMetaLine {
    pub meta: SessionMeta,
    pub git: Option<String>,
}

/// What a [`SessionMetaLine`] says.
#[verifier::ext_equal]
pub struct SessionMetaLineView {
    pub meta: SessionMetaView,
    pub git: Option<Seq<char>>,
}

impl DeepView for SessionMetaLine {
    type V = SessionMetaLineView;

    open spec fn deep_view(&self) -> SessionMetaLineView {
        SessionMetaLineView {
            meta: self.meta.deep_view(),
            git: self.git.deep_view(),
        }
    }
}

/// The text that a patch gives, or else what the thread was created with.
pub open spec fn patched(patch: Option<Seq<char>>, created: Seq<char>) -> Seq<char> {
    match patch {
        Some(text) => text,
        None => created,
    }
}

fn patch_or(patch: &Option<String>, created: &str) -> (r: String)
    ensures
        r@ == patched(patch.deep_view(), created@),
{
    match patch {
        Some(text) => text.clone(),
        None => created.to_owned(),
    }
}

/// The earliest moment that the calendar has, in milliseconds.
pub const EARLIEST_MILLIS: i64 = -8_334_601_228_800_000;

/// The latest moment that the calendar has, in milliseconds.
pub const LATEST_MILLIS: i64 = 8_210_266_876_799_999;

/// The moment at `ms` milliseconds, by `chrono::DateTime::<Utc>::from_timestamp_millis`: there
/// is one from the beginning of the year -262143 to the end of the year 262142, and it is the
/// one at those milliseconds.
#[verifier::external_body]
fn calendar_moment(ms: i64) -> (r: Option<i64>)
    ensures
        r == (if EARLIEST_MILLIS <= ms <= LATEST_MILLIS {
            Some(ms)
        } else {
            None
        }),
{
    chrono::DateTime::<chrono::Utc>::from_timestamp_millis(ms).map(
        |moment| moment.timestamp_millis(),
    )
}

/// The moment that is kept as milliseconds, or the present one if the calendar does not have
/// it.
pub open spec fn stored_time(ms: i64) -> StoredTime {
    if EARLIEST_MILLIS <= ms <= LATEST_MILLIS {
        StoredTime::Millis(ms)
    } else {
        StoredTime::Now
    }
}

/// The moment that is kept as milliseconds, or the present one if the calendar does not have
/// it.
pub fn datetime_from_millis(ms: i64) -> (r: StoredTime)
    ensures
        r == stored_time(ms),
{
    match calendar_moment(ms) {
        Some(moment) => StoredTime::Millis(moment),
        None => StoredTime::Now,
    }
}

/// The thread that a row shows: what it was created with, changed by the patch.
pub open spec fn shown_thread(
    thread_id: Seq<char>,
    created: CreateThreadView,
    patch: Option<ThreadPatchView>,
    created_at_ms: i64,
    updated_at_ms: i64,
    archived_at_ms: Option<i64>,
    history: Option<StoredHistoryView>,
    cli_version: Seq<char>,
) -> StoredThreadView {
    let patch = match patch {
        Some(patch) => patch,
        None => no_patch(),
    };
    StoredThreadView {
        thread_id,
        rollout_path: None,
        forked_from_id: created.forked_from_id,
        parent_thread_id: created.parent_thread_id,
        preview: patched(patch.preview, Seq::empty()),
        name: match patch.name {
            Some(name) => name,
            None => None,
        },
        model_provider: patched(patch.model_provider, created.metadata.model_provider),
        model: patch.model,
        reasoning_effort: patch.reasoning_effort,
        created_at: stored_time(created_at_ms),
        updated_at: stored_time(updated_at_ms),
        archived_at: match archived_at_ms {
            Some(ms) => Some(stored_time(ms)),
            None => None,
        },
        cwd: patched(patch.cwd, patched(created.metadata.cwd, Seq::empty())),
        cli_version,
        source: created.source,
        thread_source: match patch.thread_source {
            Some(thread_source) => thread_source,
            None => created.thread_source,
        },
        agent_nickname: None,
        agent_role: None,
        agent_path: None,
        git_info: None,
        approval_mode: match patch.approval_mode {
            Some(mode) => mode,
            None => ApprovalModeView::Never,
        },
        permission_profile: match patch.permission_profile {
            Some(profile) => profile,
            None => PermissionProfileView::ReadOnly,
        },
        token_usage: patch.token_usage,
        first_user_message: patch.first_user_message,
        history,
    }
}

/// The patch that changes nothing.
pub open spec fn no_patch() -> ThreadPatchView {
    ThreadPatchView {
        preview: None,
        name: None,
        model_provider: None,
        model: None,
        reasoning_effort: None,
        cwd: None,
        thread_source: None,
        approval_mode: None,
        permission_profile: None,
        token_usage: None,
        first_user_message: None,
    }
}

fn empty_patch() -> (r: ThreadMetadataPatch)
    ensures
        r.deep_view() == no_patch(),
{
    ThreadMetadataPatch {
        preview: None,
        name: None,
        model_provider: None,
        model: None,
        reasoning_effort: None,
        cwd: None,
        thread_source: None,
        approval_mode: None,
        permission_profile: None,
        token_usage: None,
        first_user_message: None,
    }
}

/// The thread that a row shows: what it was created with, changed by the patch.
pub fn stored_thread_from_row(
    thread_id: &String,
    create_params: &CreateThreadParams,
    metadata_patch: &Option<ThreadMetadataPatch>,
    created_at_ms: i64,
    updated_at_ms: i64,
    archived_at_ms: Option<i64>,
    history: Option<StoredThreadHistory>,
    cli_version: &String,
) -> (r: StoredThread)
    ensures
        r.deep_view() == shown_thread(
            thread_id@,
            create_params.deep_view(),
            metadata_patch.deep_view(),
            created_at_ms,
            updated_at_ms,
            archived_at_ms,
            history.deep_view(),
            cli_version@,
        ),
{
    proof {
        reveal_strlit("");
    }
    assert(""@ =~= Seq::<char>::empty());
    let nothing = empty_patch();
    let patch = match metadata_patch {
        Some(patch) => patch,
        None => &nothing,
    };
    let created_cwd = patch_or(&create_params.metadata.cwd, "");
    StoredThread {
        thread_id: thread_id.clone(),
        rollout_path: None,
        forked_from_id: copy_optional(&create_params.forked_from_id),
        parent_thread_id: copy_optional(&create_params.parent_thread_id),
        preview: patch_or(&patch.preview, ""),
        name: match &patch.name {
            Some(name) => copy_optional(name),
            None => None,
        },
        model_provider: patch_or(
            &patch.model_provider,
            create_params.metadata.model_provider.as_str(),
        ),
        model: copy_optional(&patch.model),
        reasoning_effort: copy_optional(&patch.reasoning_effort),
        created_at: datetime_from_millis(created_at_ms),
        updated_at: datetime_from_millis(updated_at_ms),
        archived_at: match archived_at_ms {
            Some(ms) => Some(datetime_from_millis(ms)),
            None => None,
        },
        cwd: patch_or(&patch.cwd, created_cwd.as_str()),
        cli_version: cli_version.clone(),
        source: create_params.source.clone(),
        thread_source: match &patch.thread_source {
            Some(thread_source) => copy_optional(thread_source),
            None => copy_optional(&create_params.thread_source),
        },
        agent_nickname: None,
        agent_role: None,
        agent_path: None,
        git_info: None,
        approval_mode: match &patch.approval_mode {
            Some(mode) => mode.clone(),
            None => ApprovalMode::Never,
        },
        permission_profile: match &patch.permission_profile {
            Some(profile) => profile.clone(),
            None => PermissionProfile::ReadOnly,
        },
        token_usage: copy_optional(&patch.token_usage),
        first_user_message: copy_optional(&patch.first_user_message),
        history,
    }
}

/// What the first item of a new thread says.
pub open spec fn first_line(
    created: CreateThreadView,
    cli_version: Seq<char>,
) -> SessionMetaLineView {
    SessionMetaLineView {
        meta: SessionMetaView {
            id: created.thread_id,
            forked_from_id: created.forked_from_id,
            parent_thread_id: created.parent_thread_id,
            cwd: patched(created.metadata.cwd, Seq::empty()),
            source: created.source,
            thread_source: created.thread_source,
            model_provider: Some(created.metadata.model_provider),
            base_instructions: Some(created.base_instructions),
            dynamic_tools: if created.dynamic_tools.len() > 0 {
                Some(created.dynamic_tools)
            } else {
                None
            },
            memory_mode: if created.metadata.memory_mode == ThreadMemoryMode::Disabled {
                Some("disabled"@)
            } else {
                None
            },
            multi_agent_version: created.multi_agent_version,
            cli_version,
        },
        git: None,
    }
}

/// What the first item of a new thread says.
pub fn session_meta_line(params: &CreateThreadParams, cli_version: &String) -> (r: SessionMetaLine)
    ensures
        r.deep_view() == first_line(params.deep_view(), cli_version@),
{
    proof {
        reveal_strlit("");
    }
    assert(""@ =~= Seq::<char>::empty());
    let dynamic_tools: Option<Vec<String>> = if params.dynamic_tools.len() > 0 {
        Some(copy_texts(&params.dynamic_tools))
    } else {
        None
    };
    let memory_mode: Option<String> = match params.metadata.memory_mode {
        ThreadMemoryMode::Disabled => Some("disabled".to_owned()),
        ThreadMemoryMode::Enabled => None,
    };
    SessionMetaLine {
        meta: SessionMeta {
            id: params.thread_id.clone(),
            forked_from_id: copy_optional(&params.forked_from_id),
            parent_thread_id: copy_optional(&params.parent_thread_id),
            cwd: patch_or(&params.metadata.cwd, ""),
            source: params.source.clone(),
            thread_source: copy_optional(&params.thread_source),
            model_provider: Some(params.metadata.model_provider.clone()),
            base_instructions: Some(params.base_instructions.clone()),
            dynamic_tools,
            memory_mode,
            multi_agent_version: copy_optional(&params.multi_agent_version),
            cli_version: cli_version.clone(),
        },
        git: None,
    }
}

/// What a thread is taken to be created with if it is resumed and was never created.
pub open spec fn resumed(
    thread_id: Seq<char>,
    metadata: ThreadPersistenceView,
    source: Seq<char>,
    base_instructions: Seq<char>,
) -> CreateThreadView {
    CreateThreadView {
        thread_id,
        forked_from_id: None,
        parent_thread_id: None,
        source,
        thread_source: None,
        base_instructions,
        dynamic_tools: Seq::empty(),
        multi_agent_version: None,
        metadata,
    }
}

/// What a thread is taken to be created with if it is resumed and was never created: the
/// source and the base instructions are the ones that stand where none are given.
pub fn resumed_thread_params(
    thread_id: &String,
    metadata: &ThreadPersistenceMetadata,
    source: &String,
    base_instructions: &String,
) -> (r: CreateThreadParams)
    ensures
        r.deep_view() == resumed(thread_id@, metadata.deep_view(), source@, base_instructions@),
{
    let dynamic_tools: Vec<String> = Vec::new();
    assert(dynamic_tools.deep_view() =~= Seq::<Seq<char>>::empty());
    CreateThreadParams {
        thread_id: thread_id.clone(),
        forked_from_id: None,
        parent_thread_id: None,
        source: source.clone(),
        thread_source: None,
        base_instructions: base_instructions.clone(),
        dynamic_tools,
        multi_agent_version: None,
        metadata: metadata.clone(),
    }
}

} // verus!
