use cloud_state::protocol::{
    AppendThreadItem, AppendThreadItemsWithLeaseParams, RequestCancelParams,
    RequestEventsListParams, RequestReadParams, RequestRunParams, RequestRunResponse,
    RequestStatus, TerminalSignal, ThreadItemsListParams,
};
use cloud_state::{
    CloudRequestService, CloudRequestServiceRuntime, CloudStateError, ConfigSnapshotRecord,
    CreateRequestParams, EventAppendParams, InMemoryCloudStateStore, LeaseAcquireOutcome,
    LeaseAppendParams, StateMetadataRecord, TerminalStatusUpdate,
};

fn create(store: &mut InMemoryCloudStateStore, thread: &str, key: &str) -> String {
    store
        .create_request(CreateRequestParams {
            caller_id: "caller-1".to_string(),
            thread_id: thread.to_string(),
            idempotency_key: key.to_string(),
            input_hash: "hash".to_string(),
        })
        .unwrap()
        .request_id
}

fn token(store: &mut InMemoryCloudStateStore, id: &str) -> u64 {
    match store.acquire_thread_writer_lease(id, "owner-1").unwrap() {
        LeaseAcquireOutcome::Acquired { fencing_token, .. } => fencing_token,
        LeaseAcquireOutcome::Queued => panic!("the thread should be free"),
    }
}

fn event(id: &str, payload: &str) -> EventAppendParams {
    EventAppendParams {
        request_id: id.to_string(),
        event_type: "turn/delta".to_string(),
        payload_inline: payload.to_string(),
    }
}

fn run(service: &mut CloudRequestService, caller: &str, key: &str) -> RequestRunResponse {
    service
        .run(
            caller,
            RequestRunParams {
                thread_id: Some("thread-1".to_string()),
                create_thread: None,
                input: "input".to_string(),
                idempotency_key: key.to_string(),
                cwd: None,
                client_info: None,
            },
        )
        .unwrap()
}

#[test]
fn fencing_tokens_rise_over_all_threads() {
    let mut store = InMemoryCloudStateStore::default();
    let first = create(&mut store, "thread-1", "a");
    let second = create(&mut store, "thread-2", "b");
    let third = create(&mut store, "thread-1", "c");
    assert_eq!(token(&mut store, &first), 1);
    assert_eq!(token(&mut store, &second), 2);
    store
        .mark_request_terminal(&first, RequestStatus::Failed)
        .unwrap();
    assert_eq!(token(&mut store, &third), 3);
}

#[test]
fn new_requests_get_new_identifiers() {
    let mut store = InMemoryCloudStateStore::default();
    assert_eq!(create(&mut store, "thread-1", "a"), "request-1");
    assert_eq!(create(&mut store, "thread-1", "b"), "request-2");
    assert_eq!(create(&mut store, "thread-1", "a"), "request-1");
}

#[test]
fn append_is_a_repetition_however_much_was_appended_since() {
    let mut store = InMemoryCloudStateStore::default();
    let id = create(&mut store, "thread-1", "a");
    let fencing_token = token(&mut store, &id);
    let params = |key: &str, expected| LeaseAppendParams {
        request_id: id.clone(),
        lease_id: "lease-1".to_string(),
        writer_owner_token: "owner-1".to_string(),
        fencing_token,
        append_idempotency_key: key.to_string(),
        expected_thread_version: expected,
        payload_refs: vec![format!("object://{key}")],
    };
    let made = store
        .append_thread_items_with_lease(params("x", None))
        .unwrap();
    store
        .append_thread_items_with_lease(params("y", Some(1)))
        .unwrap();
    let repeated = store
        .append_thread_items_with_lease(params("x", Some(9)))
        .unwrap();
    assert!(repeated.deduplicated);
    assert_eq!(repeated.thread_version, made.thread_version);
    assert_eq!(repeated.first_append_sequence, made.first_append_sequence);
    assert_eq!(store.list_thread_items("thread-1", None, 9).unwrap().0.len(), 2);
}

#[test]
fn pages_of_items_join() {
    let mut store = InMemoryCloudStateStore::default();
    let id = create(&mut store, "thread-1", "a");
    let fencing_token = token(&mut store, &id);
    let payload_refs: Vec<String> = (0..7).map(|n| format!("object://{n}")).collect();
    store
        .append_thread_items_with_lease(LeaseAppendParams {
            request_id: id,
            lease_id: "lease-1".to_string(),
            writer_owner_token: "owner-1".to_string(),
            fencing_token,
            append_idempotency_key: "append-1".to_string(),
            expected_thread_version: None,
            payload_refs: payload_refs.clone(),
        })
        .unwrap();
    let mut read = Vec::new();
    let mut cursor = None;
    loop {
        let (page, next) = store.list_thread_items("thread-1", cursor, 3).unwrap();
        read.extend(page.into_iter().map(|item| item.payload_ref));
        if next.is_none() {
            break;
        }
        cursor = next;
    }
    assert_eq!(read, payload_refs);
}

#[test]
fn pages_of_events_join() {
    let mut store = InMemoryCloudStateStore::default();
    let id = create(&mut store, "thread-1", "a");
    for n in 0..5 {
        store.append_request_event(event(&id, &format!("{n}"))).unwrap();
    }
    let first = store.list_request_events(&id, None, 2).unwrap();
    let second = store.list_request_events(&id, first.next_cursor, 2).unwrap();
    let third = store.list_request_events(&id, second.next_cursor, 2).unwrap();
    let all = store.list_request_events(&id, None, 100).unwrap();
    let joined: Vec<_> = [first.data, second.data, third.data].concat();
    assert_eq!(joined, all.data);
    assert_eq!(third.next_cursor, None);
    assert_eq!(all.next_cursor, None);
}

#[test]
fn cursor_is_taken_by_one_writer() {
    let mut store = InMemoryCloudStateStore::default();
    let id = create(&mut store, "thread-1", "a");
    let taken = store
        .append_request_event_if_latest_cursor(event(&id, "1"), 0)
        .unwrap();
    assert_eq!(taken.map(|event| event.sequence), Some(1));
    assert_eq!(
        store
            .append_request_event_if_latest_cursor(event(&id, "2"), 0)
            .unwrap(),
        None
    );
    assert_eq!(
        store
            .append_request_event_if_latest_cursor(event(&id, "nope"), 1)
            .unwrap_err(),
        CloudStateError::InvalidEventPayload
    );
    assert_eq!(
        store
            .append_request_event_if_latest_cursor(event("request-9", "2"), 0)
            .unwrap_err(),
        CloudStateError::RequestNotFound
    );
}

#[test]
fn context_reads_back_from_memory() {
    let mut store = InMemoryCloudStateStore::default();
    let id = create(&mut store, "thread-1", "a");
    let config = ConfigSnapshotRecord {
        request_id: id.clone(),
        thread_id: "thread-1".to_string(),
        config_json: "{\"a\":1}".to_string(),
    };
    store.persist_config_snapshot(config.clone()).unwrap();
    assert_eq!(store.read_config_snapshot(&id).unwrap(), config);
    assert_eq!(
        store
            .persist_config_snapshot(ConfigSnapshotRecord {
                thread_id: "thread-2".to_string(),
                ..config.clone()
            })
            .unwrap_err(),
        CloudStateError::ThreadMismatch
    );
    assert_eq!(
        store
            .persist_config_snapshot(ConfigSnapshotRecord {
                config_json: "{".to_string(),
                ..config
            })
            .unwrap_err(),
        CloudStateError::Storage("payload must be valid JSON".to_string())
    );
    let metadata = StateMetadataRecord {
        thread_id: "thread-1".to_string(),
        kind: "state".to_string(),
        payload_json: "[]".to_string(),
    };
    store.upsert_state_metadata(metadata.clone()).unwrap();
    assert_eq!(
        store.read_state_metadata("thread-1", "state").unwrap(),
        metadata
    );
    assert_eq!(
        store.read_state_metadata("thread-1", "other").unwrap_err(),
        CloudStateError::RequestNotFound
    );
}

#[test]
fn turn_finds_its_request_in_memory() {
    let mut store = InMemoryCloudStateStore::default();
    let id = create(&mut store, "thread-1", "a");
    store.set_request_turn_id(&id, "turn-1").unwrap();
    let found = store.read_request_by_turn_id("turn-1").unwrap();
    assert_eq!(found.request_id, id);
    assert_eq!(found.turn_id, Some("turn-1".to_string()));
    assert_eq!(
        store.read_request_by_turn_id("turn-2").unwrap_err(),
        CloudStateError::RequestNotFound
    );
}

#[test]
fn only_the_owner_renews_in_memory() {
    let mut store = InMemoryCloudStateStore::default();
    let id = create(&mut store, "thread-1", "a");
    token(&mut store, &id);
    assert!(store.renew_request_leases(&id, "owner-1").unwrap());
    assert!(!store.renew_request_leases(&id, "owner-2").unwrap());
    assert_eq!(store.expire_owner_leases().unwrap(), 0);
}

#[test]
fn first_end_stands_in_memory() {
    let mut store = InMemoryCloudStateStore::default();
    let id = create(&mut store, "thread-1", "a");
    assert_eq!(
        store
            .mark_request_terminal(&id, RequestStatus::Cancelled)
            .unwrap(),
        TerminalStatusUpdate::Changed
    );
    assert_eq!(
        store
            .mark_request_terminal_with_event(event(&id, "{}"), RequestStatus::Completed)
            .unwrap(),
        TerminalStatusUpdate::Unchanged
    );
    let request = store.read_request(&id).unwrap();
    assert_eq!(request.status, RequestStatus::Cancelled);
    assert_eq!(request.latest_event_cursor, 0);
}

#[test]
fn busy_thread_keeps_the_next_request_waiting() {
    let mut service = CloudRequestService::default();
    let first = run(&mut service, "caller-1", "a");
    let second = run(&mut service, "caller-1", "b");
    assert_eq!(first.request.status, RequestStatus::Running);
    assert!(first.writer_lease.is_some());
    assert_eq!(second.request.status, RequestStatus::Queued);
    assert_eq!(second.writer_lease, None);
    service
        .terminal_signal(
            "caller-1",
            &first.request.request_id,
            TerminalSignal::Completed,
            None,
        )
        .unwrap();
    let resumed = run(&mut service, "caller-1", "b");
    assert_eq!(resumed.request.request_id, second.request.request_id);
    assert_eq!(resumed.request.status, RequestStatus::Running);
}

#[test]
fn threads_without_a_name_are_numbered() {
    let mut service = CloudRequestService::default();
    let params = |key: &str| RequestRunParams {
        thread_id: None,
        create_thread: Some(true),
        input: "input".to_string(),
        idempotency_key: key.to_string(),
        cwd: None,
        client_info: None,
    };
    assert_eq!(
        service.run("caller-1", params("a")).unwrap().thread_id,
        "thread-1"
    );
    assert_eq!(
        service.run("caller-1", params("b")).unwrap().thread_id,
        "thread-2"
    );
}

#[test]
fn append_to_the_thread_of_another_request_is_refused() {
    let mut service = CloudRequestService::default();
    let running = run(&mut service, "caller-1", "a");
    let lease = running.writer_lease.unwrap();
    let error = service
        .append_thread_items_with_lease(
            "caller-1",
            AppendThreadItemsWithLeaseParams {
                thread_id: "thread-2".to_string(),
                request_id: running.request.request_id,
                lease_id: lease.lease_id,
                writer_owner_token: lease.writer_owner_token,
                fencing_token: lease.fencing_token,
                append_idempotency_key: "append-1".to_string(),
                expected_thread_version: None,
                items: vec![AppendThreadItem {
                    payload_ref: "object://1".to_string(),
                }],
            },
        )
        .unwrap_err();
    assert_eq!(error, CloudStateError::ThreadMismatch);
}

#[test]
fn runtime_in_memory_answers_like_the_service() {
    let mut runtime = CloudRequestServiceRuntime::<InMemoryCloudStateStore>::default();
    let running = runtime
        .run(
            "caller-1",
            RequestRunParams {
                thread_id: Some("thread-1".to_string()),
                create_thread: None,
                input: "input".to_string(),
                idempotency_key: "a".to_string(),
                cwd: None,
                client_info: None,
            },
        )
        .unwrap();
    let id = running.request.request_id.clone();
    runtime.set_turn_id("caller-1", &id, "turn-1").unwrap();
    let added = runtime
        .append_event_for_turn_id("turn-1", "turn/delta".to_string(), "{}".to_string())
        .unwrap();
    assert_eq!(added.sequence, 3);
    assert!(runtime.renew_request_leases(&id, "caller-1").is_ok());
    let cancelled = runtime
        .cancel(
            "caller-1",
            RequestCancelParams {
                request_id: id.clone(),
                reason: None,
            },
        )
        .unwrap();
    assert_eq!(cancelled.request.status, RequestStatus::Cancelled);
    let late = runtime
        .terminal_for_turn_id("turn-1", TerminalSignal::Completed, None)
        .unwrap();
    assert_eq!(late.request.status, RequestStatus::Cancelled);
    let read = runtime
        .read(
            "caller-1",
            RequestReadParams {
                request_id: id.clone(),
            },
        )
        .unwrap();
    assert_eq!(read.request.turn_id, Some("turn-1".to_string()));
    let events = runtime
        .events_list(
            "caller-1",
            RequestEventsListParams {
                request_id: id,
                cursor: Some(2),
                limit: None,
            },
        )
        .unwrap();
    assert_eq!(
        events
            .data
            .iter()
            .map(|event| event.event_type.as_str())
            .collect::<Vec<_>>(),
        vec!["turn/delta", "request/cancelled"]
    );
    let items = runtime
        .thread_items_list(
            "caller-1",
            ThreadItemsListParams {
                thread_id: "thread-1".to_string(),
                cursor: None,
                limit: None,
            },
        )
        .unwrap();
    assert!(items.data.is_empty());
    assert_eq!(runtime.expire_owner_leases().unwrap(), 0);
}

#[test]
fn context_is_kept_for_the_callers_own_request() {
    let mut service = CloudRequestService::default();
    let running = run(&mut service, "caller-1", "a");
    let config = ConfigSnapshotRecord {
        request_id: running.request.request_id.clone(),
        thread_id: "thread-1".to_string(),
        config_json: "{}".to_string(),
    };
    let metadata = StateMetadataRecord {
        thread_id: "thread-1".to_string(),
        kind: "state".to_string(),
        payload_json: "{}".to_string(),
    };
    assert_eq!(
        service
            .persist_request_context("caller-2", config.clone(), metadata.clone())
            .unwrap_err(),
        CloudStateError::RequestNotFound
    );
    service
        .persist_request_context("caller-1", config, metadata)
        .unwrap();
}
