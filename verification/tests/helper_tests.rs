use cloud_state::clock::{request_millis, thread_millis};
use cloud_state::ids::{lease_id_of, new_lease_id, new_request_id, request_id_of};
use cloud_state::json::{
    append_payload_refs_fingerprint, append_payload_refs_match, cancel_payload, cancel_reason,
    validate_event_payload_inline, validate_json_payload,
};
use cloud_state::mysql::schema::Migration;
use cloud_state::processor::{
    cloud_state_error, database_url_missing, CloudRuntimeConfig, CloudRuntimeStateStore,
    CloudWrapperRequestProcessor, RpcError,
};
use cloud_state::scratch::{
    sanitize_path_segment, ReadOnlyScratchConfig, ReadOnlyScratchManager, ReadOnlyScratchScope,
    READ_ONLY_SCRATCH_DIR_ENV_VAR,
};
use cloud_state::text::{decimal_text, numbered};
use cloud_state::{CloudStateError, InMemoryCloudStateStore};

fn is_uuid(text: &str) -> bool {
    text.len() == 36
        && text.char_indices().all(|(at, c)| match at {
            8 | 13 | 18 | 23 => c == '-',
            14 => c == '7',
            19 => "89ab".contains(c),
            _ => c.is_ascii_digit() || ('a'..='f').contains(&c),
        })
}

#[test]
fn new_identifiers_are_prefixed_uuids() {
    let request = new_request_id();
    let lease = new_lease_id();
    assert!(is_uuid(request.strip_prefix("request-").unwrap()));
    assert!(is_uuid(lease.strip_prefix("lease-").unwrap()));
    assert_ne!(new_request_id(), request);
    assert_eq!(request_id_of("x"), "request-x");
    assert_eq!(lease_id_of("x"), "lease-x");
}

#[test]
fn clock_values_fit_what_is_kept() {
    assert_eq!(request_millis(None), 0);
    assert_eq!(request_millis(Some(1_700_000_000_000)), 1_700_000_000_000);
    assert_eq!(request_millis(Some(u64::MAX as u128)), -1);
    assert_eq!(thread_millis(None), 0);
    assert_eq!(thread_millis(Some(1_700_000_000_000)), 1_700_000_000_000);
    assert_eq!(thread_millis(Some(u64::MAX as u128)), i64::MAX);
}

#[test]
fn json_is_checked() {
    for text in [
        "{}",
        "[1, 2]",
        "null",
        "\"a\"",
        " 1.5e3 ",
        "true",
        "{\"reason\":\"thread_writer_lease_lost\"}",
        "{\"reason\":\"thread_writer_lease_expired\"}",
        "{\"reason\":\"owner_lease_lost\"}",
        "{\"reason\":\"owner_lease_expired\"}",
    ] {
        assert_eq!(validate_event_payload_inline(text), Ok(()));
        assert_eq!(validate_json_payload(text), Ok(()));
    }
    for text in ["", "not-json", "{", "{}{}", "01"] {
        assert_eq!(
            validate_event_payload_inline(text),
            Err(CloudStateError::InvalidEventPayload)
        );
        assert_eq!(
            validate_json_payload(text),
            Err(CloudStateError::Storage(
                "payload must be valid JSON".to_string()
            ))
        );
    }
}

#[test]
fn payload_refs_match_their_own_fingerprint_only() {
    let refs = vec!["a\"b".to_string(), "é".to_string()];
    let fingerprint = append_payload_refs_fingerprint(&refs).unwrap();
    assert_eq!(fingerprint, "[\"a\\\"b\",\"é\"]");
    assert!(append_payload_refs_match(&fingerprint, &refs));
    assert!(append_payload_refs_match("[ \"a\\\"b\", \"\\u00e9\" ]", &refs));
    assert!(!append_payload_refs_match(
        &fingerprint,
        &vec!["é".to_string(), "a\"b".to_string()]
    ));
    assert!(!append_payload_refs_match("", &Vec::new()));
    assert!(append_payload_refs_match("[]", &Vec::new()));
}

#[test]
fn cancel_reason_is_written_as_json() {
    assert_eq!(
        cancel_payload(Some("say \"no\"".to_string())),
        "{\"reason\":\"say \\\"no\\\"\"}"
    );
    assert_eq!(cancel_payload(None), "{}");
}

#[test]
fn cancel_reason_reads_back() {
    for reason in ["", "say \"no\"", "\\ \n\u{1} é", "{\"reason\":1}"] {
        let payload = cancel_payload(Some(reason.to_string()));
        assert_eq!(cancel_reason(&payload), Some(reason.to_string()));
    }
    assert_eq!(cancel_reason(&cancel_payload(None)), None);
    assert_eq!(cancel_reason("{\"reason\":1}"), None);
    assert_eq!(cancel_reason("[\"reason\"]"), None);
    assert_eq!(cancel_reason("reason"), None);
}

#[test]
fn numerals_are_decimal() {
    assert_eq!(decimal_text(0), "0");
    assert_eq!(decimal_text(1_009), "1009");
    assert_eq!(
        decimal_text(u128::MAX),
        "340282366920938463463374607431768211455"
    );
    assert_eq!(numbered("thread-", 12), "thread-12");
}

#[test]
fn migrations_add_only_missing_columns() {
    let all = Migration::all();
    assert_eq!(all.len(), 7);
    for migration in all {
        assert!(migration.statements(true).is_empty());
        let added = migration.statements(false);
        assert!(added[0].starts_with(&format!(
            "ALTER TABLE {} ADD COLUMN {} ",
            migration.table(),
            migration.column()
        )));
    }
    assert_eq!(
        Migration::RequestsTurnId.statements(false),
        vec![
            "ALTER TABLE cloud_requests ADD COLUMN turn_id VARCHAR(255) NULL",
            "CREATE INDEX cloud_requests_turn_id ON cloud_requests (turn_id)",
        ]
    );
}

#[test]
fn scratch_directory_stays_right_under_the_root() {
    let manager = ReadOnlyScratchManager::new(ReadOnlyScratchConfig {
        root: "/tmp/scratch".to_string(),
        max_bytes: 1024,
        max_files: 8,
    });
    let scratch = manager.create(ReadOnlyScratchScope {
        caller_id: "caller/../raw user input".to_string(),
        thread_id: "thread-1".to_string(),
        request_id: "request-1".to_string(),
        exec_id: "exec-1".to_string(),
    });
    let (root, dir_name) = scratch.path();
    assert_eq!(root, "/tmp/scratch");
    assert_eq!(
        dir_name,
        "caller____raw_user_input__thread-1__request-1__exec-1"
    );
    assert!(!dir_name.contains(".."));
    assert!(!dir_name.contains('/'));
    assert_eq!(scratch.max_bytes(), 1024);
    assert_eq!(scratch.max_files(), 8);
    assert_eq!(sanitize_path_segment(&"".to_string()), "_");
    assert_eq!(sanitize_path_segment(&"aZ09-_".to_string()), "aZ09-_");
    assert_eq!(sanitize_path_segment(&"é.".to_string()), "__");
    assert_eq!(
        READ_ONLY_SCRATCH_DIR_ENV_VAR,
        "CODEX_READ_ONLY_SCRATCH_DIR"
    );
}

#[test]
fn errors_read_as_they_should() {
    let theirs = [
        (
            CloudStateError::IdempotencyConflict,
            "idempotency key was reused with different input",
        ),
        (CloudStateError::RequestNotFound, "request was not found"),
        (CloudStateError::LeaseLost, "request lost its writer lease"),
        (
            CloudStateError::RequestNotQueued,
            "request is not queued and cannot acquire a writer lease",
        ),
        (
            CloudStateError::InvalidEventPayload,
            "request event payload must be valid JSON",
        ),
        (
            CloudStateError::ThreadMismatch,
            "append thread_id does not match request thread_id",
        ),
        (
            CloudStateError::ThreadVersionConflict,
            "expected thread version does not match current thread version",
        ),
        (
            CloudStateError::EmptyAppend,
            "append must include at least one thread item",
        ),
    ];
    for (error, message) in theirs {
        assert_eq!(error.message(), message);
        assert_eq!(
            cloud_state_error(error),
            RpcError::InvalidParams(message.to_string())
        );
    }
    assert_eq!(
        cloud_state_error(CloudStateError::Storage("gone".to_string())),
        RpcError::Internal("cloud state storage error: gone".to_string())
    );
}

#[test]
fn processor_asks_for_its_database() {
    let memory = CloudWrapperRequestProcessor::<InMemoryCloudStateStore>::new(&CloudRuntimeConfig {
        state_store: CloudRuntimeStateStore::InMemory,
        mysql_url_env_var: None,
        mysql_max_connections: 20,
    });
    assert_eq!(memory.missing_database(), None);
    assert!(memory.can_name_thread());

    let mut config = CloudRuntimeConfig {
        state_store: CloudRuntimeStateStore::Mysql,
        mysql_url_env_var: None,
        mysql_max_connections: 5,
    };
    let mut processor = CloudWrapperRequestProcessor::<InMemoryCloudStateStore>::new(&config);
    assert_eq!(
        processor.missing_database(),
        Some(("CODEX_CLOUD_STATE_MYSQL_URL".to_string(), 5))
    );
    assert!(!processor.can_name_thread());
    processor.connect(InMemoryCloudStateStore::default());
    assert_eq!(processor.missing_database(), None);
    assert!(processor.can_name_thread());

    config.mysql_url_env_var = Some("OTHER_URL".to_string());
    let processor = CloudWrapperRequestProcessor::<InMemoryCloudStateStore>::new(&config);
    let (name, _) = processor.missing_database().unwrap();
    assert_eq!(
        database_url_missing(&name),
        RpcError::Internal(
            "cloud runtime MySQL state store requires OTHER_URL to be set".to_string()
        )
    );
}
