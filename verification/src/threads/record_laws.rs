//! What threads show of what they were created with and changed to, field by field.
use vstd::prelude::*;

use crate::threads::errors::{
    broken_data, broken_thread_id, no_writer_lease, storage_failure, ThreadErrorView,
};
use crate::threads::records::{
    first_line, no_patch, resumed, shown_thread, stored_time, ApprovalModeView, CreateThreadView,
    PermissionProfileView, StoredHistoryView, StoredTime, ThreadMemoryMode, ThreadPatchView,
    ThreadPersistenceView,
};
use crate::threads::turn_ids::{joined, one_turn, text_before};

verus! {

/// A moment that the calendar has is shown as it is kept: different moments differ, and only
/// those before the year -262143 or after the year 262142 are taken to be the present one.
pub proof fn kept_moments_are_shown(ms: i64, other: i64)
    ensures
        -8_334_601_228_800_000 <= ms <= 8_210_266_876_799_999 ==> stored_time(ms)
            == StoredTime::Millis(ms),
        ms < -8_334_601_228_800_000 || ms > 8_210_266_876_799_999 ==> stored_time(ms)
            == StoredTime::Now,
        stored_time(ms) == stored_time(other) && stored_time(ms) != StoredTime::Now ==> ms == other,
{
}

/// A patch that leaves every field out shows the same thread as no patch.
pub proof fn empty_patch_changes_nothing(
    thread_id: Seq<char>,
    created: CreateThreadView,
    patch: ThreadPatchView,
    created_at_ms: i64,
    updated_at_ms: i64,
    archived_at_ms: Option<i64>,
    history: Option<StoredHistoryView>,
    cli_version: Seq<char>,
)
    requires
        patch.preview is None,
        patch.name is None,
        patch.model_provider is None,
        patch.model is None,
        patch.reasoning_effort is None,
        patch.cwd is None,
        patch.thread_source is None,
        patch.approval_mode is None,
        patch.permission_profile is None,
        patch.token_usage is None,
        patch.first_user_message is None,
    ensures
        shown_thread(
            thread_id,
            created,
            Some(patch),
            created_at_ms,
            updated_at_ms,
            archived_at_ms,
            history,
            cli_version,
        ) == shown_thread(
            thread_id,
            created,
            None,
            created_at_ms,
            updated_at_ms,
            archived_at_ms,
            history,
            cli_version,
        ),
        patch == no_patch(),
{
}

/// A thread without a patch is shown as it was created: with its directory, provider, source
/// and origin; without a preview, a name, a model, a usage or a message; never asking, and
/// only reading.
pub proof fn unpatched_thread_is_as_created(
    thread_id: Seq<char>,
    created: CreateThreadView,
    created_at_ms: i64,
    updated_at_ms: i64,
    archived_at_ms: Option<i64>,
    history: Option<StoredHistoryView>,
    cli_version: Seq<char>,
)
    ensures
        ({
            let shown = shown_thread(
                thread_id,
                created,
                None,
                created_at_ms,
                updated_at_ms,
                archived_at_ms,
                history,
                cli_version,
            );
            &&& created.metadata.cwd matches Some(cwd) ==> shown.cwd == cwd
            &&& created.metadata.cwd is None ==> shown.cwd.len() == 0
            &&& shown.model_provider == created.metadata.model_provider
            &&& shown.thread_source == created.thread_source
            &&& shown.preview.len() == 0
            &&& shown.name is None
            &&& shown.model is None
            &&& shown.reasoning_effort is None
            &&& shown.approval_mode == ApprovalModeView::Never
            &&& shown.permission_profile == PermissionProfileView::ReadOnly
            &&& shown.token_usage is None
            &&& shown.first_user_message is None
        }),
{
}

/// What a patch does not speak of is shown as the thread was created and is kept, whatever
/// the patch: its identifier, origin and source, its times and its history.
pub proof fn patch_leaves_the_rest(
    thread_id: Seq<char>,
    created: CreateThreadView,
    patch: Option<ThreadPatchView>,
    created_at_ms: i64,
    updated_at_ms: i64,
    archived_at_ms: Option<i64>,
    history: Option<StoredHistoryView>,
    cli_version: Seq<char>,
)
    ensures
        ({
            let shown = shown_thread(
                thread_id,
                created,
                patch,
                created_at_ms,
                updated_at_ms,
                archived_at_ms,
                history,
                cli_version,
            );
            &&& shown.thread_id == thread_id
            &&& shown.forked_from_id == created.forked_from_id
            &&& shown.parent_thread_id == created.parent_thread_id
            &&& shown.source == created.source
            &&& shown.cli_version == cli_version
            &&& shown.created_at == stored_time(created_at_ms)
            &&& shown.updated_at == stored_time(updated_at_ms)
            &&& archived_at_ms is None <==> shown.archived_at is None
            &&& archived_at_ms matches Some(ms) ==> shown.archived_at == Some(stored_time(ms))
            &&& shown.history == history
            &&& shown.rollout_path is None
            &&& shown.agent_nickname is None
            &&& shown.agent_role is None
            &&& shown.agent_path is None
            &&& shown.git_info is None
        }),
{
}

/// Each field of a patch shows alone: a field that the patch gives is shown as it is given,
/// and one that it leaves out is shown as it is shown without a patch.
pub proof fn each_patched_field_shows_alone(
    thread_id: Seq<char>,
    created: CreateThreadView,
    patch: ThreadPatchView,
    created_at_ms: i64,
    updated_at_ms: i64,
    archived_at_ms: Option<i64>,
    history: Option<StoredHistoryView>,
    cli_version: Seq<char>,
)
    ensures
        ({
            let shown = shown_thread(
                thread_id,
                created,
                Some(patch),
                created_at_ms,
                updated_at_ms,
                archived_at_ms,
                history,
                cli_version,
            );
            let plain = shown_thread(
                thread_id,
                created,
                None,
                created_at_ms,
                updated_at_ms,
                archived_at_ms,
                history,
                cli_version,
            );
            &&& patch.preview matches Some(preview) ==> shown.preview == preview
            &&& patch.preview is None ==> shown.preview == plain.preview
            &&& patch.name matches Some(name) ==> shown.name == name
            &&& patch.name is None ==> shown.name == plain.name
            &&& patch.model_provider matches Some(provider) ==> shown.model_provider == provider
            &&& patch.model_provider is None ==> shown.model_provider == plain.model_provider
                && shown.model_provider == created.metadata.model_provider
            &&& patch.model matches Some(model) ==> shown.model == Some(model)
            &&& patch.model is None ==> shown.model == plain.model
            &&& patch.reasoning_effort matches Some(effort) ==> shown.reasoning_effort == Some(
                effort,
            )
            &&& patch.reasoning_effort is None ==> shown.reasoning_effort == plain.reasoning_effort
            &&& patch.cwd matches Some(cwd) ==> shown.cwd == cwd
            &&& patch.cwd is None ==> shown.cwd == plain.cwd && (
            created.metadata.cwd matches Some(cwd) ==> shown.cwd == cwd) && (created.metadata.cwd
                is None ==> shown.cwd.len() == 0)
            &&& patch.thread_source matches Some(source) ==> shown.thread_source == source
            &&& patch.thread_source is None ==> shown.thread_source == plain.thread_source
                && shown.thread_source == created.thread_source
            &&& patch.approval_mode matches Some(mode) ==> shown.approval_mode == mode
            &&& patch.approval_mode is None ==> shown.approval_mode == plain.approval_mode
            &&& patch.permission_profile matches Some(profile) ==> shown.permission_profile
                == profile
            &&& patch.permission_profile is None ==> shown.permission_profile
                == plain.permission_profile
            &&& patch.token_usage matches Some(usage) ==> shown.token_usage == Some(usage)
            &&& patch.token_usage is None ==> shown.token_usage == plain.token_usage
            &&& patch.first_user_message matches Some(message) ==> shown.first_user_message
                == Some(message)
            &&& patch.first_user_message is None ==> shown.first_user_message
                == plain.first_user_message
        }),
{
}

/// The first item of a new thread says what the thread was created with. Tools are named if
/// there are any, and a memory that is switched off is.
pub proof fn first_item_tells_the_creation(created: CreateThreadView, cli_version: Seq<char>)
    ensures
        ({
            let line = first_line(created, cli_version);
            &&& line.meta.id == created.thread_id
            &&& line.meta.forked_from_id == created.forked_from_id
            &&& line.meta.parent_thread_id == created.parent_thread_id
            &&& created.metadata.cwd matches Some(cwd) ==> line.meta.cwd == cwd
            &&& created.metadata.cwd is None ==> line.meta.cwd.len() == 0
            &&& line.meta.source == created.source
            &&& line.meta.thread_source == created.thread_source
            &&& line.meta.model_provider == Some(created.metadata.model_provider)
            &&& line.meta.base_instructions == Some(created.base_instructions)
            &&& created.dynamic_tools.len() == 0 <==> line.meta.dynamic_tools is None
            &&& line.meta.dynamic_tools matches Some(tools) ==> tools == created.dynamic_tools
            &&& created.metadata.memory_mode == ThreadMemoryMode::Disabled
                ==> line.meta.memory_mode == Some("disabled"@)
            &&& created.metadata.memory_mode == ThreadMemoryMode::Enabled
                ==> line.meta.memory_mode is None
            &&& line.meta.multi_agent_version == created.multi_agent_version
            &&& line.meta.cli_version == cli_version
            &&& line.git is None
        }),
{
}

/// A thread that is resumed and was never created is taken to be created with what it is
/// resumed with, and with nothing else.
pub proof fn resumed_thread_has_what_it_is_resumed_with(
    thread_id: Seq<char>,
    metadata: ThreadPersistenceView,
    source: Seq<char>,
    base_instructions: Seq<char>,
)
    ensures
        ({
            let created = resumed(thread_id, metadata, source, base_instructions);
            &&& created.thread_id == thread_id
            &&& created.metadata == metadata
            &&& created.source == source
            &&& created.base_instructions == base_instructions
            &&& created.forked_from_id is None
            &&& created.parent_thread_id is None
            &&& created.thread_source is None
            &&& created.dynamic_tools.len() == 0
            &&& created.multi_agent_version is None
        }),
{
}

/// What a refusal or a failure reads as.
pub proof fn thread_errors_read_as_they_should(
    thread_id: Seq<char>,
    turn_id: Seq<char>,
    text: Seq<char>,
)
    ensures
        no_writer_lease(thread_id, turn_id) == (ThreadErrorView::Conflict {
            message: "thread "@ + thread_id + " turn "@ + turn_id
                + " does not hold an active writer lease"@,
        }),
        broken_thread_id(thread_id, text) == (ThreadErrorView::Internal {
            message: "invalid stored thread id "@ + thread_id + ": "@ + text,
        }),
        broken_data(text) == (ThreadErrorView::Internal {
            message: "failed to serialize cloud thread store data: "@ + text,
        }),
        storage_failure(text) == (ThreadErrorView::Internal {
            message: "cloud state storage error: "@ + text,
        }),
{
}

/// Texts are compared where they first differ, by the number of the character there; one that
/// goes on comes after one that stops.
pub proof fn texts_compare_where_they_differ(
    common: Seq<char>,
    a: Seq<char>,
    b: Seq<char>,
    x: char,
    y: char,
)
    requires
        x != y,
    ensures
        text_before(common + seq![x] + a, common + seq![y] + b) <==> (x as int) < (y as int),
        text_before(common, common + seq![y] + b),
        !text_before(common + seq![y] + b, common),
        !text_before(common, common),
    decreases common.len(),
{
    let p = common + seq![x] + a;
    let q = common + seq![y] + b;
    if common.len() == 0 {
        assert(p[0] == x && q[0] == y);
    } else {
        let rest = common.drop_first();
        assert(p[0] == common[0] && q[0] == common[0]);
        assert(p.drop_first() =~= rest + seq![x] + a);
        assert(q.drop_first() =~= rest + seq![y] + b);
        texts_compare_where_they_differ(rest, a, b, x, y);
    }
}

/// Several turns are listed with a comma and a space between them.
pub proof fn listed_turns_are_joined(first: Seq<Seq<char>>, more: Seq<Seq<char>>, turn: Seq<char>)
    ensures
        joined(seq![turn]) == turn,
        first.len() > 0 && more.len() > 0 ==> joined(first + more) == joined(first) + ", "@
            + joined(more),
    decreases more.len(),
{
    if first.len() > 0 && more.len() > 0 {
        let all = first + more;
        assert(all.last() == more.last());
        assert(all.drop_last() =~= first + more.drop_last());
        if more.len() == 1 {
            assert(first + more.drop_last() =~= first);
            assert(more[0] == more.last());
        } else {
            listed_turns_are_joined(first, more.drop_last(), turn);
            assert(joined(all) =~= joined(first) + ", "@ + joined(more));
        }
    }
}

/// Items belong to the one turn that they name, if they name any; several are a conflict that
/// lists them.
pub proof fn items_belong_to_one_turn(turn_ids: Seq<Seq<char>>)
    ensures
        turn_ids.len() == 0 ==> one_turn(turn_ids) == Ok::<Option<Seq<char>>, ThreadErrorView>(
            None,
        ),
        turn_ids.len() == 1 ==> one_turn(turn_ids) == Ok::<Option<Seq<char>>, ThreadErrorView>(
            Some(turn_ids[0]),
        ),
        turn_ids.len() > 1 ==> one_turn(turn_ids) == Err::<Option<Seq<char>>, ThreadErrorView>(
            ThreadErrorView::Conflict {
                message: "append contains multiple turn ids: "@ + joined(turn_ids),
            },
        ),
{
}

} // verus!
