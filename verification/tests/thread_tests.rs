use std::collections::BTreeMap;

use cloud_state::threads::errors::{
    list_items, list_turns, read_thread_by_rollout_path, search_threads, ThreadStoreError,
};
use cloud_state::threads::operations::{
    append_items, archive_thread, create_thread, ensure_thread_exists, list_threads, load_history,
    read_thread, resume_thread, unarchive_thread, update_thread_metadata,
};
use cloud_state::threads::records::{
    datetime_from_millis, resumed_thread_params, session_meta_line, stored_thread_from_row,
    ApprovalMode, CreateThreadParams, PermissionProfile, StoredThread, StoredTime,
    ThreadMemoryMode, ThreadMetadataPatch, ThreadPersistenceMetadata, EARLIEST_MILLIS,
    LATEST_MILLIS,
};
use cloud_state::threads::statements::{
    ListedThread, Parsed, ThreadReply, ThreadRow, ThreadStatement, ThreadStep,
};
use cloud_state::threads::turn_ids::{rollout_item_turn_ids, single_turn_id};

struct Entry {
    patched: bool,
    archived_at_ms: Option<i64>,
    created_at_ms: i64,
    updated_at_ms: i64,
}

/// The tables of threads, kept in memory. The clock advances by one whenever it is read.
#[derive(Default)]
struct Database {
    threads: BTreeMap<String, Entry>,
    items: Vec<(String, u64, String)>,
    active_turns: Vec<(String, String)>,
    broken_json: bool,
    clock: i64,
}

impl Database {
    fn carry_out<T>(
        &mut self,
        operation: impl Fn(&Vec<ThreadReply>) -> ThreadStep<T>,
    ) -> Result<T, ThreadStoreError> {
        let mut replies = Vec::new();
        let saved = self.items.clone();
        let mut open = false;
        loop {
            match operation(&replies) {
                ThreadStep::Done(result) => {
                    if open {
                        self.items = saved;
                    }
                    return result;
                }
                ThreadStep::Ask(statement) => {
                    match statement {
                        ThreadStatement::Begin => open = true,
                        ThreadStatement::Commit => open = false,
                        _ => {}
                    }
                    let reply = self.execute(statement);
                    replies.push(reply);
                }
            }
        }
    }

    fn execute(&mut self, statement: ThreadStatement) -> ThreadReply {
        match statement {
            ThreadStatement::CreateSchema | ThreadStatement::Begin | ThreadStatement::Commit => {
                ThreadReply::Done
            }
            ThreadStatement::ReadClock => {
                self.clock += 1;
                ThreadReply::Clock(self.clock)
            }
            ThreadStatement::UpsertThread {
                thread_id, now_ms, ..
            }
            | ThreadStatement::InsertThread {
                thread_id, now_ms, ..
            } => {
                self.threads
                    .entry(thread_id)
                    .or_insert(Entry {
                        patched: false,
                        archived_at_ms: None,
                        created_at_ms: now_ms,
                        updated_at_ms: now_ms,
                    })
                    .updated_at_ms = now_ms;
                ThreadReply::Done
            }
            ThreadStatement::SelectThreadExists { thread_id } => {
                ThreadReply::Found(self.threads.contains_key(&thread_id))
            }
            ThreadStatement::SelectThread { thread_id } => {
                let broken = self.broken_json;
                ThreadReply::Thread(self.threads.get(&thread_id).map(|entry| ThreadRow {
                    create_params: if broken {
                        Parsed::Invalid("missing field".to_string())
                    } else {
                        Parsed::Value(params(&thread_id))
                    },
                    metadata_patch: Parsed::Value(if entry.patched { Some(patch()) } else { None }),
                    archived_at_ms: entry.archived_at_ms,
                    created_at_ms: entry.created_at_ms,
                    updated_at_ms: entry.updated_at_ms,
                }))
            }
            ThreadStatement::SelectThreads { count } => {
                let mut listed: Vec<_> = self
                    .threads
                    .iter()
                    .filter(|(_, entry)| entry.archived_at_ms.is_none())
                    .collect();
                listed.sort_by_key(|(_, entry)| -entry.updated_at_ms);
                ThreadReply::Threads(
                    listed
                        .into_iter()
                        .take(count as usize)
                        .map(|(id, _)| ListedThread {
                            value: id.clone(),
                            thread_id: if id.starts_with("thread") {
                                Parsed::Value(id.clone())
                            } else {
                                Parsed::Invalid("no identifier".to_string())
                            },
                        })
                        .collect(),
                )
            }
            ThreadStatement::LockActiveTurn {
                thread_id, turn_id, ..
            } => ThreadReply::Found(self.active_turns.contains(&(thread_id, turn_id))),
            ThreadStatement::SelectLastItem { thread_id } => ThreadReply::Last(
                self.items
                    .iter()
                    .filter(|(thread, _, _)| *thread == thread_id)
                    .map(|(_, sequence, _)| *sequence)
                    .max(),
            ),
            ThreadStatement::InsertItem {
                thread_id,
                sequence,
                item_json,
                ..
            } => {
                self.items.push((thread_id, sequence, item_json));
                ThreadReply::Done
            }
            ThreadStatement::DeleteItems { thread_id } => {
                self.items.retain(|(thread, _, _)| *thread != thread_id);
                ThreadReply::Done
            }
            ThreadStatement::TouchThread { thread_id, now_ms } => {
                self.threads.get_mut(&thread_id).unwrap().updated_at_ms = now_ms;
                ThreadReply::Done
            }
            ThreadStatement::SelectHistory { thread_id } => ThreadReply::Items(
                self.items
                    .iter()
                    .filter(|(thread, _, _)| *thread == thread_id)
                    .map(|(_, _, json)| {
                        if json == "broken" {
                            Parsed::Invalid("unknown variant".to_string())
                        } else {
                            Parsed::Value(json.clone())
                        }
                    })
                    .collect(),
            ),
            ThreadStatement::SetMetadata {
                thread_id, now_ms, ..
            } => match self.threads.get_mut(&thread_id) {
                Some(entry) => {
                    entry.patched = true;
                    entry.updated_at_ms = now_ms;
                    ThreadReply::Affected(1)
                }
                None => ThreadReply::Affected(0),
            },
            ThreadStatement::SetArchived {
                thread_id,
                archived_at_ms,
                now_ms,
            } => match self.threads.get_mut(&thread_id) {
                Some(entry) => {
                    entry.archived_at_ms = archived_at_ms;
                    entry.updated_at_ms = now_ms;
                    ThreadReply::Affected(1)
                }
                None => ThreadReply::Affected(0),
            },
        }
    }

    fn create(&mut self, id: &str) {
        let (id, params, meta) = (id.to_string(), "{}".to_string(), "meta".to_string());
        self.carry_out(|replies| create_thread(&id, &params, &meta, replies))
            .unwrap();
    }

    fn append(
        &mut self,
        id: &str,
        items: &[&str],
    ) -> Result<(), ThreadStoreError> {
        let id = id.to_string();
        let items = items.iter().map(|item| item.to_string()).collect();
        self.carry_out(|replies| append_items(&id, &items, replies))
    }

    fn history(&mut self, id: &str) -> Result<Vec<String>, ThreadStoreError> {
        let id = id.to_string();
        self.carry_out(|replies| load_history(&id, replies))
            .map(|history| history.items)
    }

    fn read(&mut self, id: &str, archived: bool) -> Result<StoredThread, ThreadStoreError> {
        let (id, version) = (id.to_string(), "1.2.3".to_string());
        self.carry_out(|replies| read_thread(&id, archived, true, &version, replies))
    }
}

fn params(id: &str) -> CreateThreadParams {
    CreateThreadParams {
        thread_id: id.to_string(),
        forked_from_id: None,
        parent_thread_id: Some("thread-0".to_string()),
        source: "\"cli\"".to_string(),
        thread_source: Some("\"user\"".to_string()),
        base_instructions: "{}".to_string(),
        dynamic_tools: vec!["{\"name\":\"a\"}".to_string()],
        multi_agent_version: None,
        metadata: ThreadPersistenceMetadata {
            cwd: Some("/work".to_string()),
            model_provider: "provider".to_string(),
            memory_mode: ThreadMemoryMode::Disabled,
        },
    }
}

fn patch() -> ThreadMetadataPatch {
    ThreadMetadataPatch {
        preview: Some("hello".to_string()),
        name: Some(Some("named".to_string())),
        model_provider: Some("other".to_string()),
        model: Some("model".to_string()),
        reasoning_effort: Some("\"high\"".to_string()),
        cwd: Some("/else".to_string()),
        thread_source: Some(None),
        approval_mode: Some(ApprovalMode::Other("on-request".to_string())),
        permission_profile: Some(PermissionProfile::Other("{}".to_string())),
        token_usage: Some("{}".to_string()),
        first_user_message: Some("hello there".to_string()),
    }
}

fn turn_item(turn_id: &str) -> String {
    format!("{{\"type\":\"event\",\"payload\":{{\"turn_id\":\"{turn_id}\"}}}}")
}

#[test]
fn turn_ids_are_sorted_and_listed_once() {
    let items = vec![
        turn_item("turn-b"),
        format!("[{}, null]", turn_item("turn-a")),
        turn_item("turn-b"),
        turn_item("turn-"),
        "{\"turn_id\":7,\"turn\":\"turn-z\"}".to_string(),
        format!(
            "{{\"turn_id\":\"turn-B\",\"inner\":{}}}",
            turn_item("turn-é")
        ),
        "{\"turn\\u005fid\":\"turn-\\u0041\"}".to_string(),
    ];
    let mut expected = vec!["turn-b", "turn-a", "turn-", "turn-B", "turn-é", "turn-A"];
    expected.sort();
    assert_eq!(rollout_item_turn_ids(&items), expected);
    assert_eq!(rollout_item_turn_ids(&Vec::new()), Vec::<String>::new());
    let without = ["\"turn_id\"", "true", "1e3", "{}", "[]", "no JSON"];
    assert_eq!(
        rollout_item_turn_ids(&without.iter().map(|item| item.to_string()).collect()),
        Vec::<String>::new()
    );
}

#[test]
fn turn_ids_are_found_however_deep_they_stand() {
    let mut item = turn_item("turn-a");
    for _ in 0..200 {
        item = format!("[{{\"$serde_json::private::RawValue\": {item}}}]");
    }
    assert_eq!(rollout_item_turn_ids(&vec![item]), vec!["turn-a"]);
}

#[test]
fn only_one_turn_may_be_named() {
    assert_eq!(single_turn_id(Vec::new()), Ok(None));
    assert_eq!(
        single_turn_id(vec!["turn-a".to_string()]),
        Ok(Some("turn-a".to_string()))
    );
    assert_eq!(
        single_turn_id(vec![
            "turn-a".to_string(),
            "turn-b".to_string(),
            "turn-c".to_string()
        ]),
        Err(ThreadStoreError::Conflict {
            message: "append contains multiple turn ids: turn-a, turn-b, turn-c".to_string()
        })
    );
}

#[test]
fn created_thread_has_its_first_item() {
    let mut database = Database::default();
    database.create("thread-1");
    assert_eq!(database.history("thread-1"), Ok(vec!["meta".to_string()]));
    assert_eq!(database.items[0].1, 1);
    database.create("thread-1");
    assert_eq!(database.items[1].1, 2);
    assert_eq!(database.threads["thread-1"].created_at_ms, 1);
    assert_eq!(database.threads["thread-1"].updated_at_ms, 3);
}

#[test]
fn appended_items_are_read_after_the_others() {
    let mut database = Database::default();
    database.create("thread-1");
    database
        .append("thread-1", &["\"a\"", "\"b\""])
        .unwrap();
    assert_eq!(
        database.history("thread-1"),
        Ok(vec![
            "meta".to_string(),
            "\"a\"".to_string(),
            "\"b\"".to_string()
        ])
    );
    assert_eq!(database.items[2].1, 3);
    database.append("thread-1", &[]).unwrap();
    assert_eq!(database.items.len(), 3);
}

#[test]
fn append_to_a_missing_thread_is_refused() {
    let mut database = Database::default();
    let missing = ThreadStoreError::ThreadNotFound {
        thread_id: "thread-9".to_string(),
    };
    assert_eq!(
        database.append("thread-9", &["\"a\""]),
        Err(missing.clone())
    );
    assert_eq!(database.history("thread-9"), Err(missing.clone()));
    let id = "thread-9".to_string();
    assert_eq!(
        database.carry_out(|replies| ensure_thread_exists(&id, replies)),
        Err(missing)
    );
}

#[test]
fn items_of_a_turn_need_its_writer_lease() {
    let mut database = Database::default();
    database.create("thread-1");
    assert_eq!(
        database.append("thread-1", &[&turn_item("turn-a")]),
        Err(ThreadStoreError::Conflict {
            message: "thread thread-1 turn turn-a does not hold an active writer lease".to_string()
        })
    );
    assert_eq!(
        database.append(
            "thread-1",
            &[&turn_item("turn-b"), &turn_item("turn-a")]
        ),
        Err(ThreadStoreError::Conflict {
            message: "append contains multiple turn ids: turn-a, turn-b".to_string()
        })
    );
    assert_eq!(database.history("thread-1"), Ok(vec!["meta".to_string()]));
    database
        .active_turns
        .push(("thread-1".to_string(), "turn-a".to_string()));
    database
        .append("thread-1", &[&turn_item("turn-a")])
        .unwrap();
    assert_eq!(database.items.len(), 2);
}

#[test]
fn resumed_history_replaces_the_items() {
    let mut database = Database::default();
    let id = "thread-1".to_string();
    let params_json = "{}".to_string();
    let none: Option<Vec<String>> = None;
    assert_eq!(
        database.carry_out(|replies| resume_thread(&id, &params_json, &none, replies)),
        Err(ThreadStoreError::ThreadNotFound {
            thread_id: id.clone()
        })
    );
    let history = Some(vec!["x".to_string(), "y".to_string()]);
    database
        .carry_out(|replies| resume_thread(&id, &params_json, &history, replies))
        .unwrap();
    assert_eq!(
        database.history("thread-1"),
        Ok(vec!["x".to_string(), "y".to_string()])
    );
    let shorter = Some(vec!["z".to_string()]);
    database
        .carry_out(|replies| resume_thread(&id, &params_json, &shorter, replies))
        .unwrap();
    assert_eq!(database.history("thread-1"), Ok(vec!["z".to_string()]));
    assert_eq!(database.items[0].1, 1);
    database
        .carry_out(|replies| resume_thread(&id, &params_json, &none, replies))
        .unwrap();
}

#[test]
fn archived_thread_is_hidden_until_it_returns() {
    let mut database = Database::default();
    database.create("thread-1");
    database.create("thread-2");
    let id = "thread-1".to_string();
    let version = "1.2.3".to_string();
    let list = |database: &mut Database| {
        let version = "1.2.3".to_string();
        database
            .carry_out(|replies| list_threads(10, &version, replies))
            .unwrap()
            .items
            .into_iter()
            .map(|thread| thread.thread_id)
            .collect::<Vec<_>>()
    };
    assert_eq!(list(&mut database), vec!["thread-2", "thread-1"]);
    database
        .carry_out(|replies| archive_thread(&id, replies))
        .unwrap();
    assert_eq!(list(&mut database), vec!["thread-2"]);
    assert_eq!(
        database.read("thread-1", false),
        Err(ThreadStoreError::ThreadNotFound {
            thread_id: id.clone()
        })
    );
    let archived = database.read("thread-1", true).unwrap();
    assert_eq!(archived.archived_at, Some(StoredTime::Millis(5)));
    let returned = database
        .carry_out(|replies| unarchive_thread(&id, &version, replies))
        .unwrap();
    assert_eq!(returned.archived_at, None);
    assert_eq!(returned.history, None);
    assert_eq!(list(&mut database), vec!["thread-1", "thread-2"]);
}

#[test]
fn page_holds_the_last_updated_threads() {
    let mut database = Database::default();
    for id in ["thread-1", "thread-2", "thread-3"] {
        database.create(id);
    }
    database
        .append("thread-1", &["\"a\""])
        .unwrap();
    let version = "1.2.3".to_string();
    for (page_size, expected) in [
        (0, vec![]),
        (2, vec!["thread-1", "thread-3"]),
        (3, vec!["thread-1", "thread-3", "thread-2"]),
        (9, vec!["thread-1", "thread-3", "thread-2"]),
    ] {
        let page = database
            .carry_out(|replies| list_threads(page_size, &version, replies))
            .unwrap();
        let listed: Vec<_> = page.items.iter().map(|thread| &thread.thread_id).collect();
        assert_eq!(listed, expected);
        assert_eq!(page.next_cursor, None);
    }
}

#[test]
fn unreadable_data_is_an_internal_error() {
    let mut database = Database::default();
    database.create("thread-1");
    database.broken_json = true;
    assert_eq!(
        database.read("thread-1", false),
        Err(ThreadStoreError::Internal {
            message: "failed to serialize cloud thread store data: missing field".to_string()
        })
    );
    database.broken_json = false;
    database.create("other");
    let version = "1.2.3".to_string();
    assert_eq!(
        database
            .carry_out(|replies| list_threads(10, &version, replies))
            .unwrap_err(),
        ThreadStoreError::Internal {
            message: "invalid stored thread id other: no identifier".to_string()
        }
    );
    let id = "thread-1".to_string();
    let failed = vec![
        ThreadReply::Done,
        ThreadReply::Failed("connection lost".to_string()),
    ];
    let ThreadStep::Done(Err(error)) = load_history(&id, &failed) else {
        panic!("a failed statement should end the operation");
    };
    assert_eq!(
        error,
        ThreadStoreError::Internal {
            message: "cloud state storage error: connection lost".to_string()
        }
    );
}

#[test]
fn unreadable_item_is_an_internal_error() {
    let mut database = Database::default();
    database.create("thread-1");
    database
        .append("thread-1", &["broken", "\"b\""])
        .unwrap();
    let unreadable = ThreadStoreError::Internal {
        message: "failed to serialize cloud thread store data: unknown variant".to_string(),
    };
    assert_eq!(database.history("thread-1"), Err(unreadable.clone()));
    assert_eq!(database.read("thread-1", false), Err(unreadable));
    let (id, version) = ("thread-1".to_string(), "1.2.3".to_string());
    assert!(database
        .carry_out(|replies| read_thread(&id, false, false, &version, replies))
        .is_ok());
}

#[test]
fn changed_thread_shows_the_patch() {
    let mut database = Database::default();
    database.create("thread-1");
    let plain = database.read("thread-1", false).unwrap();
    assert_eq!(plain.preview, "");
    assert_eq!(plain.name, None);
    assert_eq!(plain.model_provider, "provider");
    assert_eq!(plain.cwd, "/work");
    assert_eq!(plain.thread_source, Some("\"user\"".to_string()));
    assert_eq!(plain.approval_mode, ApprovalMode::Never);
    assert_eq!(plain.permission_profile, PermissionProfile::ReadOnly);
    assert_eq!(plain.cli_version, "1.2.3");
    assert_eq!(plain.parent_thread_id, Some("thread-0".to_string()));
    assert_eq!(plain.created_at, StoredTime::Millis(1));

    let id = "thread-1".to_string();
    let json = "{}".to_string();
    let version = "1.2.3".to_string();
    let changed = database
        .carry_out(|replies| update_thread_metadata(&id, &json, false, &version, replies))
        .unwrap();
    assert_eq!(changed.preview, "hello");
    assert_eq!(changed.name, Some("named".to_string()));
    assert_eq!(changed.model_provider, "other");
    assert_eq!(changed.model, Some("model".to_string()));
    assert_eq!(changed.cwd, "/else");
    assert_eq!(changed.thread_source, None);
    assert_eq!(
        changed.approval_mode,
        ApprovalMode::Other("on-request".to_string())
    );
    assert_eq!(
        changed.history.map(|history| history.items),
        Some(vec!["meta".to_string()])
    );
    let missing = "thread-9".to_string();
    assert_eq!(
        database
            .carry_out(|replies| update_thread_metadata(
                &missing, &json, false, &version, replies
            ))
            .unwrap_err(),
        ThreadStoreError::ThreadNotFound { thread_id: missing }
    );
}

#[test]
fn session_meta_says_what_the_thread_was_created_with() {
    let version = "1.2.3".to_string();
    let line = session_meta_line(&params("thread-1"), &version);
    assert_eq!(line.git, None);
    assert_eq!(line.meta.id, "thread-1");
    assert_eq!(line.meta.cwd, "/work");
    assert_eq!(line.meta.model_provider, Some("provider".to_string()));
    assert_eq!(line.meta.memory_mode, Some("disabled".to_string()));
    assert_eq!(
        line.meta.dynamic_tools,
        Some(vec!["{\"name\":\"a\"}".to_string()])
    );
    assert_eq!(line.meta.cli_version, "1.2.3");

    let metadata = ThreadPersistenceMetadata {
        cwd: None,
        model_provider: "provider".to_string(),
        memory_mode: ThreadMemoryMode::Enabled,
    };
    let resumed = resumed_thread_params(
        &"thread-2".to_string(),
        &metadata,
        &"\"vscode\"".to_string(),
        &"{}".to_string(),
    );
    let line = session_meta_line(&resumed, &version);
    assert_eq!(line.meta.cwd, "");
    assert_eq!(line.meta.memory_mode, None);
    assert_eq!(line.meta.dynamic_tools, None);
    assert_eq!(line.meta.source, "\"vscode\"");
}

#[test]
fn moments_outside_the_calendar_are_the_present_one() {
    assert_eq!(datetime_from_millis(0), StoredTime::Millis(0));
    assert_eq!(
        datetime_from_millis(EARLIEST_MILLIS),
        StoredTime::Millis(EARLIEST_MILLIS)
    );
    assert_eq!(datetime_from_millis(EARLIEST_MILLIS - 1), StoredTime::Now);
    assert_eq!(
        datetime_from_millis(LATEST_MILLIS),
        StoredTime::Millis(LATEST_MILLIS)
    );
    assert_eq!(datetime_from_millis(LATEST_MILLIS + 1), StoredTime::Now);
    assert_eq!(datetime_from_millis(i64::MAX), StoredTime::Now);
    assert_eq!(datetime_from_millis(i64::MIN), StoredTime::Now);
    let thread = stored_thread_from_row(
        &"thread-1".to_string(),
        &params("thread-1"),
        &None,
        5,
        i64::MAX,
        Some(7),
        None,
        &"1".to_string(),
    );
    assert_eq!(thread.updated_at, StoredTime::Now);
    assert_eq!(thread.archived_at, Some(StoredTime::Millis(7)));
}

#[test]
fn unsupported_operations_say_their_names() {
    for (error, name) in [
        (read_thread_by_rollout_path(), "read_thread_by_rollout_path"),
        (search_threads(), "thread/search"),
        (list_turns(), "list_turns"),
        (list_items(), "list_items"),
    ] {
        assert_eq!(
            error,
            ThreadStoreError::Unsupported {
                operation: name.to_string()
            }
        );
    }
}
