use std::cell::RefCell;
use std::collections::BTreeMap;

use cloud_state::json::cancel_reason;
use cloud_state::mysql::appends::{append_thread_items_with_lease, list_thread_items};
use cloud_state::mysql::context::{
    persist_config_snapshot, read_config_snapshot, read_state_metadata, upsert_state_metadata,
};
use cloud_state::mysql::endings::{
    mark_request_terminal, mark_request_terminal_with_event, terminal_requires_active_lease,
};
use cloud_state::mysql::events::{
    append_request_event, append_request_event_if_latest_cursor, list_request_events,
};
use cloud_state::mysql::leases::{
    acquire_thread_writer_lease, expire_owner_leases, read_thread_writer_lease,
    renew_request_leases,
};
use cloud_state::mysql::requests::{
    caller_can_access_thread, create_request, read_request, read_request_by_turn_id,
    set_request_turn_id,
};
use cloud_state::mysql::rows::{is_duplicate_entry, status_from_str, status_to_str};
use cloud_state::mysql::statements::{
    AppendRow, LeaseRow, OwnedRequest, Reply, RequestRow, Statement, Step,
};
use cloud_state::protocol::{
    AppendThreadItemsWithLeaseResponse, RequestCancelParams, RequestEventsListParams,
    RequestReadParams, RequestRunParams, RequestRunResponse, RequestStatus, TerminalSignal, ThreadItemRecord, ThreadItemsListParams,
    WriterLeaseRecord,
};
use cloud_state::{
    CloudRequestService, CloudStateError, CloudStateStore, ConfigSnapshotRecord,
    CreateRequestParams, EventAppendParams, EventRecord, EventsPage, LeaseAcquireOutcome,
    LeaseAppendParams, RequestRecord, StateMetadataRecord, TerminalStatusUpdate,
};
use serde_json::Value;

/// The tables of the database, kept in memory.
#[derive(Clone, Default)]
struct Tables {
    requests: BTreeMap<String, RequestRow>,
    leases: BTreeMap<String, (LeaseRow, bool)>,
    owners: BTreeMap<String, (String, i64, bool)>,
    tokens: u64,
    appends: BTreeMap<(String, String), AppendRow>,
    items: Vec<ThreadItemRecord>,
    events: Vec<EventRecord>,
    configs: BTreeMap<String, ConfigSnapshotRecord>,
    metadata: BTreeMap<(String, String), StateMetadataRecord>,
}

#[derive(Default)]
struct Database {
    tables: Tables,
    saved: Option<Tables>,
    /// How many statements succeed before the connection breaks.
    statements_left: Option<usize>,
}

/// The text of a value as the database lays it out.
fn laid_out(value: &Value) -> String {
    match value {
        Value::Array(values) => {
            let values: Vec<String> = values.iter().map(laid_out).collect();
            format!("[{}]", values.join(", "))
        }
        Value::Object(members) => {
            let members: Vec<String> = members
                .iter()
                .map(|(name, value)| {
                    format!("{}: {}", Value::String(name.clone()), laid_out(value))
                })
                .collect();
            format!("{{{}}}", members.join(", "))
        }
        other => other.to_string(),
    }
}

/// What a query gives back for a JSON text that was written.
fn given_back(json: &str) -> String {
    match serde_json::from_str(json).unwrap() {
        Value::String(text) => text,
        value => laid_out(&value),
    }
}

fn active(status: &str) -> bool {
    ["queued", "running", "cancelling"].contains(&status)
}

impl Database {
    fn carry_out<T>(
        &mut self,
        operation: impl Fn(&Vec<Reply>) -> Step<T>,
    ) -> Result<T, CloudStateError> {
        let mut replies = Vec::new();
        loop {
            match operation(&replies) {
                Step::Done(result) => {
                    self.close();
                    return result;
                }
                Step::Ask(statement) => {
                    let reply = self.execute(statement);
                    replies.push(reply);
                }
            }
        }
    }

    /// Drops an open transaction. A number that was drawn is not drawn again.
    fn close(&mut self) {
        if let Some(saved) = self.saved.take() {
            let tokens = self.tables.tokens;
            self.tables = Tables { tokens, ..saved };
        }
    }

    fn held(&self, thread_id: &str, request_id: &str, now_ms: i64) -> bool {
        self.tables.leases.get(thread_id).is_some_and(|(row, released)| {
            row.request_id == request_id && !released && row.expires_at_ms > now_ms
        })
    }

    fn execute(&mut self, statement: Statement) -> Reply {
        if let Some(left) = &mut self.statements_left {
            if *left == 0 {
                return Reply::Failed("connection lost".to_string());
            }
            *left -= 1;
        }
        match statement {
            Statement::Begin => {
                self.saved = Some(self.tables.clone());
                Reply::Done
            }
            Statement::Commit => {
                self.saved = None;
                Reply::Done
            }
            Statement::Rollback => {
                self.close();
                Reply::Done
            }
            statement => self.execute_on_tables(statement),
        }
    }

    fn execute_on_tables(&mut self, statement: Statement) -> Reply {
        match statement {
            Statement::Begin | Statement::Commit | Statement::Rollback => unreachable!(),
            Statement::SelectRequest { request_id } | Statement::LockRequest { request_id } => {
                Reply::Request(self.tables.requests.get(&request_id).cloned())
            }
            Statement::SelectRequestByKey {
                caller_id,
                thread_id,
                idempotency_key,
            } => Reply::Request(
                self.tables
                    .requests
                    .values()
                    .find(|row| {
                        row.caller_id == caller_id
                            && row.thread_id == thread_id
                            && row.idempotency_key == idempotency_key
                    })
                    .cloned(),
            ),
            Statement::SelectRequestByTurn { turn_id } => Reply::Request(
                self.tables
                    .requests
                    .values()
                    .find(|row| row.turn_id.as_ref() == Some(&turn_id))
                    .cloned(),
            ),
            Statement::InsertRequest {
                request_id,
                caller_id,
                thread_id,
                idempotency_key,
                input_hash,
                ..
            } => {
                self.tables.requests.insert(
                    request_id.clone(),
                    RequestRow {
                        request_id,
                        caller_id,
                        thread_id,
                        idempotency_key,
                        input_hash,
                        turn_id: None,
                        status: "queued".to_string(),
                        latest_event_cursor: 0,
                    },
                );
                Reply::Done
            }
            Statement::SetTurn {
                request_id,
                turn_id,
                ..
            } => match self.tables.requests.get_mut(&request_id) {
                Some(row) => {
                    row.turn_id = Some(turn_id);
                    Reply::Affected(1)
                }
                None => Reply::Affected(0),
            },
            Statement::SetOwnerTurn { .. } => Reply::Done,
            Statement::SelectThreadAccess {
                caller_id,
                thread_id,
            } => Reply::Found(
                self.tables
                    .requests
                    .values()
                    .any(|row| row.caller_id == caller_id && row.thread_id == thread_id),
            ),
            Statement::LockThreadLease { thread_id } => {
                Reply::Lease(self.tables.leases.get(&thread_id).map(|(row, _)| row.clone()))
            }
            Statement::LockHeldThreadLease { thread_id } => Reply::Lease(
                self.tables
                    .leases
                    .get(&thread_id)
                    .filter(|(_, released)| !released)
                    .map(|(row, _)| row.clone()),
            ),
            Statement::SelectRequestLease { request_id, now_ms } => Reply::Lease(
                self.tables
                    .leases
                    .values()
                    .find(|(row, released)| {
                        row.request_id == request_id && !released && row.expires_at_ms > now_ms
                    })
                    .map(|(row, _)| row.clone()),
            ),
            Statement::LockActiveLease {
                thread_id,
                request_id,
                now_ms,
            } => Reply::Found(self.held(&thread_id, &request_id, now_ms)),
            Statement::EndRequestWithEvent {
                request_id, status, ..
            } => match self.tables.requests.get_mut(&request_id) {
                Some(row) if active(&row.status) => {
                    row.status = status_to_str(status).to_string();
                    row.latest_event_cursor += 1;
                    Reply::Affected(1)
                }
                _ => Reply::Affected(0),
            },
            Statement::EndRequest {
                request_id, status, ..
            } => match self.tables.requests.get_mut(&request_id) {
                Some(row) if active(&row.status) => {
                    row.status = status_to_str(status).to_string();
                    Reply::Affected(1)
                }
                _ => Reply::Affected(0),
            },
            Statement::SelectCursor { request_id } => {
                Reply::Number(self.tables.requests[&request_id].latest_event_cursor)
            }
            Statement::InsertEvent {
                request_id,
                sequence,
                event_type,
                payload_inline,
                ..
            } => {
                self.tables.events.push(EventRecord {
                    request_id,
                    sequence,
                    event_type,
                    payload_inline: given_back(&payload_inline),
                });
                Reply::Done
            }
            Statement::ReleaseThreadLease {
                thread_id,
                request_id,
                ..
            } => {
                if let Some((row, released)) = self.tables.leases.get_mut(&thread_id) {
                    if row.request_id == request_id {
                        *released = true;
                    }
                }
                Reply::Done
            }
            Statement::DeleteThreadLease {
                thread_id,
                request_id,
            } => {
                if self
                    .tables
                    .leases
                    .get(&thread_id)
                    .is_some_and(|(row, _)| row.request_id == request_id)
                {
                    self.tables.leases.remove(&thread_id);
                }
                Reply::Done
            }
            Statement::ReleaseOwnerLease { request_id, .. } => {
                if let Some((_, _, released)) = self.tables.owners.get_mut(&request_id) {
                    *released = true;
                }
                Reply::Done
            }
            Statement::InsertFencingToken { .. } => {
                self.tables.tokens += 1;
                Reply::Done
            }
            Statement::SelectFencingToken => Reply::Number(self.tables.tokens),
            Statement::InsertThreadLease {
                thread_id,
                request_id,
                lease_id,
                owner_instance_id,
                fencing_token,
                expires_at_ms,
                ..
            } => {
                let mut leases = self.tables.leases.iter();
                if leases.any(|(thread, (row, _))| *thread == thread_id || row.lease_id == lease_id)
                {
                    return Reply::Duplicate;
                }
                self.tables.leases.insert(
                    thread_id,
                    (
                        LeaseRow {
                            request_id,
                            lease_id,
                            owner_instance_id,
                            fencing_token,
                            expires_at_ms,
                        },
                        false,
                    ),
                );
                Reply::Done
            }
            Statement::UpsertOwnerLease {
                request_id,
                owner_instance_id,
                expires_at_ms,
                ..
            } => {
                self.tables
                    .owners
                    .insert(request_id, (owner_instance_id, expires_at_ms, false));
                Reply::Done
            }
            Statement::SetStatus { request_id, status } => {
                match self.tables.requests.get_mut(&request_id) {
                    Some(row) => {
                        if active(&row.status) {
                            row.status = status_to_str(status).to_string();
                        }
                        Reply::Affected(1)
                    }
                    None => Reply::Affected(0),
                }
            }
            Statement::RenewThreadLease {
                thread_id,
                request_id,
                owner_instance_id,
                now_ms,
                expires_at_ms,
            } => {
                if !self.held(&thread_id, &request_id, now_ms) {
                    return Reply::Affected(0);
                }
                let (row, _) = self.tables.leases.get_mut(&thread_id).unwrap();
                if row.owner_instance_id != owner_instance_id {
                    return Reply::Affected(0);
                }
                row.expires_at_ms = expires_at_ms;
                Reply::Affected(1)
            }
            Statement::RenewOwnerLease {
                request_id,
                owner_instance_id,
                now_ms,
                expires_at_ms,
            } => match self.tables.owners.get_mut(&request_id) {
                Some((owner, expires, released))
                    if *owner == owner_instance_id && !*released && *expires > now_ms =>
                {
                    *expires = expires_at_ms;
                    Reply::Affected(1)
                }
                _ => Reply::Affected(0),
            },
            Statement::LockExpiredOwners { now_ms } => Reply::Owners(
                self.tables
                    .requests
                    .values()
                    .filter(|row| {
                        row.status == "running"
                            && self
                                .tables
                                .owners
                                .get(&row.request_id)
                                .is_some_and(|(_, expires, released)| {
                                    !released && *expires <= now_ms
                                })
                    })
                    .map(|row| OwnedRequest {
                        request_id: row.request_id.clone(),
                        thread_id: row.thread_id.clone(),
                    })
                    .collect(),
            ),
            Statement::SelectAppend {
                thread_id,
                append_idempotency_key,
            } => Reply::Append(
                self.tables
                    .appends
                    .get(&(thread_id, append_idempotency_key))
                    .cloned(),
            ),
            Statement::SelectVersion { thread_id } => Reply::Number(
                self.tables
                    .appends
                    .iter()
                    .filter(|((thread, _), _)| *thread == thread_id)
                    .map(|(_, row)| row.last_append_sequence)
                    .max()
                    .unwrap_or(0),
            ),
            Statement::InsertItem {
                thread_id,
                sequence,
                payload_ref,
            } => {
                self.tables.items.push(ThreadItemRecord {
                    thread_id,
                    sequence,
                    payload_ref,
                });
                Reply::Done
            }
            Statement::InsertAppend {
                thread_id,
                request_id,
                append_idempotency_key,
                payload_refs_json,
                response,
            } => {
                let key = (thread_id, append_idempotency_key);
                if self.tables.appends.contains_key(&key) {
                    return Reply::Duplicate;
                }
                self.tables.appends.insert(
                    key,
                    AppendRow {
                        request_id,
                        payload_refs_json: given_back(&payload_refs_json),
                        thread_version: response.thread_version,
                        first_append_sequence: response.first_append_sequence,
                        last_append_sequence: response.last_append_sequence,
                    },
                );
                Reply::Done
            }
            Statement::SelectItems {
                thread_id,
                after,
                count,
            } => Reply::Items(
                self.tables
                    .items
                    .iter()
                    .filter(|item| item.thread_id == thread_id && item.sequence > after)
                    .take(count as usize)
                    .cloned()
                    .collect(),
            ),
            Statement::AdvanceCursor { request_id, .. } => {
                match self.tables.requests.get_mut(&request_id) {
                    Some(row) => {
                        row.latest_event_cursor += 1;
                        Reply::Affected(1)
                    }
                    None => Reply::Affected(0),
                }
            }
            Statement::AdvanceCursorFrom {
                request_id,
                expected,
                ..
            } => match self.tables.requests.get_mut(&request_id) {
                Some(row) if row.latest_event_cursor == expected => {
                    row.latest_event_cursor += 1;
                    Reply::Affected(1)
                }
                _ => Reply::Affected(0),
            },
            Statement::SelectEvents {
                request_id,
                after,
                count,
            } => Reply::Events(
                self.tables
                    .events
                    .iter()
                    .filter(|event| event.request_id == request_id && event.sequence > after)
                    .take(count as usize)
                    .cloned()
                    .collect(),
            ),
            Statement::UpsertConfig {
                request_id,
                thread_id,
                config_json,
                ..
            } => {
                self.tables.configs.insert(
                    request_id.clone(),
                    ConfigSnapshotRecord {
                        request_id,
                        thread_id,
                        config_json: given_back(&config_json),
                    },
                );
                Reply::Done
            }
            Statement::SelectConfig { request_id } => {
                Reply::Config(self.tables.configs.get(&request_id).cloned())
            }
            Statement::UpsertMetadata {
                thread_id,
                kind,
                payload_json,
                ..
            } => {
                self.tables.metadata.insert(
                    (thread_id.clone(), kind.clone()),
                    StateMetadataRecord {
                        thread_id,
                        kind,
                        payload_json: given_back(&payload_json),
                    },
                );
                Reply::Done
            }
            Statement::SelectMetadata { thread_id, kind } => {
                Reply::Metadata(self.tables.metadata.get(&(thread_id, kind)).cloned())
            }
        }
    }

    fn create(&mut self, id: &str, key: &str) -> String {
        let params = create_params(key, "hash-a");
        let request_id = id.to_string();
        self.carry_out(|replies| create_request(&params, &request_id, 1_000, replies))
            .unwrap()
            .request_id
    }

    fn acquire(
        &mut self,
        id: &str,
        lease: &str,
        now_ms: i64,
    ) -> Result<LeaseAcquireOutcome, CloudStateError> {
        let (id, owner, lease) = (id.to_string(), "owner-1".to_string(), lease.to_string());
        self.carry_out(|replies| acquire_thread_writer_lease(&id, &owner, &lease, now_ms, replies))
    }

    fn status(&mut self, id: &str) -> RequestStatus {
        let id = id.to_string();
        self.carry_out(|replies| read_request(&id, replies))
            .unwrap()
            .status
    }

    fn event_types(&mut self, id: &str) -> Vec<String> {
        let id = id.to_string();
        self.carry_out(|replies| list_request_events(&id, None, 100, replies))
            .unwrap()
            .data
            .into_iter()
            .map(|event| event.event_type)
            .collect()
    }
}

fn create_params(key: &str, hash: &str) -> CreateRequestParams {
    CreateRequestParams {
        caller_id: "caller-1".to_string(),
        thread_id: "thread-1".to_string(),
        idempotency_key: key.to_string(),
        input_hash: hash.to_string(),
    }
}

fn append_params(id: &str, key: &str, items: &[&str]) -> LeaseAppendParams {
    LeaseAppendParams {
        request_id: id.to_string(),
        lease_id: "lease-1".to_string(),
        writer_owner_token: "owner-1".to_string(),
        fencing_token: 1,
        append_idempotency_key: key.to_string(),
        expected_thread_version: None,
        payload_refs: items.iter().map(|item| item.to_string()).collect(),
    }
}

fn event(id: &str, event_type: &str, payload: &str) -> EventAppendParams {
    EventAppendParams {
        request_id: id.to_string(),
        event_type: event_type.to_string(),
        payload_inline: payload.to_string(),
    }
}

#[test]
fn database_request_is_created_once_per_key() {
    let mut database = Database::default();
    let params = create_params("idem-1", "hash-a");
    let first_id = "request-a".to_string();
    let second_id = "request-b".to_string();
    let first = database
        .carry_out(|replies| create_request(&params, &first_id, 1, replies))
        .unwrap();
    let second = database
        .carry_out(|replies| create_request(&params, &second_id, 2, replies))
        .unwrap();
    assert_eq!(first.request_id, "request-a");
    assert_eq!(first.status, RequestStatus::Queued);
    assert_eq!(first.turn_id, None);
    assert_eq!(second, first);

    let other = create_params("idem-1", "hash-b");
    let error = database
        .carry_out(|replies| create_request(&other, &second_id, 3, replies))
        .unwrap_err();
    assert_eq!(error, CloudStateError::IdempotencyConflict);
    assert_eq!(database.tables.requests.len(), 1);
}

#[test]
fn database_request_recorded_by_another_writer_is_found() {
    let params = create_params("idem-1", "hash-a");
    let id = "request-a".to_string();
    let row = RequestRow {
        request_id: "request-b".to_string(),
        caller_id: "caller-1".to_string(),
        thread_id: "thread-1".to_string(),
        idempotency_key: "idem-1".to_string(),
        input_hash: "hash-a".to_string(),
        turn_id: Some("turn-1".to_string()),
        status: "running".to_string(),
        latest_event_cursor: 2,
    };
    let mut replies = vec![Reply::Done, Reply::Request(None), Reply::Duplicate];
    assert!(matches!(
        create_request(&params, &id, 1, &replies),
        Step::Ask(Statement::Rollback)
    ));
    replies.push(Reply::Done);
    assert!(matches!(
        create_request(&params, &id, 1, &replies),
        Step::Ask(Statement::SelectRequestByKey { .. })
    ));
    replies.push(Reply::Request(Some(row)));
    let Step::Done(Ok(found)) = create_request(&params, &id, 1, &replies) else {
        panic!("the request of the other writer should be found");
    };
    assert_eq!(found.request_id, "request-b");
    assert_eq!(found.status, RequestStatus::Running);
    assert_eq!(found.turn_id, Some("turn-1".to_string()));

    replies[4] = Reply::Request(None);
    let Step::Done(Err(error)) = create_request(&params, &id, 1, &replies) else {
        panic!("a request that is not found should be an error");
    };
    assert_eq!(
        error,
        CloudStateError::Storage(
            "duplicate idempotency key was reported but existing request was not found".to_string()
        )
    );
}

#[test]
fn database_failure_is_a_storage_error_and_changes_nothing() {
    let mut database = Database {
        statements_left: Some(2),
        ..Database::default()
    };
    let params = create_params("idem-1", "hash-a");
    let id = "request-a".to_string();
    let error = database
        .carry_out(|replies| create_request(&params, &id, 1, replies))
        .unwrap_err();
    assert_eq!(
        error,
        CloudStateError::Storage("connection lost".to_string())
    );
    assert!(database.tables.requests.is_empty());
}

#[test]
fn database_request_with_an_unknown_status_is_a_storage_error() {
    let mut database = Database::default();
    let id = database.create("request-a", "idem-1");
    database.tables.requests.get_mut(&id).unwrap().status = "asleep".to_string();
    let error = database
        .carry_out(|replies| read_request(&id, replies))
        .unwrap_err();
    assert_eq!(
        error,
        CloudStateError::Storage("unknown request status: asleep".to_string())
    );
}

#[test]
fn database_thread_has_one_writer_until_the_lease_expires() {
    let mut database = Database::default();
    let first = database.create("request-a", "idem-1");
    let second = database.create("request-b", "idem-2");
    assert_eq!(
        database.acquire(&first, "lease-1", 1_000).unwrap(),
        LeaseAcquireOutcome::Acquired {
            lease_id: "lease-1".to_string(),
            fencing_token: 1,
        }
    );
    assert_eq!(
        database.acquire(&second, "lease-2", 30_999).unwrap(),
        LeaseAcquireOutcome::Queued
    );
    assert_eq!(
        database.acquire(&second, "lease-2", 31_000).unwrap(),
        LeaseAcquireOutcome::Acquired {
            lease_id: "lease-2".to_string(),
            fencing_token: 2,
        }
    );
    assert_eq!(database.status(&first), RequestStatus::LeaseLost);
    assert_eq!(database.status(&second), RequestStatus::Running);
    assert_eq!(database.event_types(&first), vec!["request/lease_lost"]);
    assert_eq!(
        database.acquire(&first, "lease-3", 31_001).unwrap(),
        LeaseAcquireOutcome::Queued
    );
}

#[test]
fn database_lease_identifier_in_use_leaves_the_request_queued() {
    let mut database = Database::default();
    let first = database.create("request-a", "idem-1");
    database.acquire(&first, "lease-1", 1_000).unwrap();
    let params = CreateRequestParams {
        thread_id: "thread-2".to_string(),
        ..create_params("idem-2", "hash-a")
    };
    let second = "request-b".to_string();
    database
        .carry_out(|replies| create_request(&params, &second, 1_000, replies))
        .unwrap();
    assert_eq!(
        database.acquire(&second, "lease-1", 2_000).unwrap(),
        LeaseAcquireOutcome::Queued
    );
    assert_eq!(database.status(&second), RequestStatus::Queued);
    assert_eq!(database.tables.tokens, 2);
    assert_eq!(
        database.acquire(&second, "lease-2", 2_000).unwrap(),
        LeaseAcquireOutcome::Acquired {
            lease_id: "lease-2".to_string(),
            fencing_token: 3,
        }
    );
}

#[test]
fn database_request_that_is_over_cannot_take_the_lease() {
    let mut database = Database::default();
    let id = database.create("request-a", "idem-1");
    let update = database
        .carry_out(|replies| mark_request_terminal(&id, RequestStatus::Cancelled, 5, replies))
        .unwrap();
    assert_eq!(update, TerminalStatusUpdate::Changed);
    assert_eq!(
        database.acquire(&id, "lease-1", 10).unwrap_err(),
        CloudStateError::RequestNotQueued
    );
    let again = database
        .carry_out(|replies| mark_request_terminal(&id, RequestStatus::Failed, 11, replies))
        .unwrap();
    assert_eq!(again, TerminalStatusUpdate::Unchanged);
    assert_eq!(database.status(&id), RequestStatus::Cancelled);
}

#[test]
fn database_lease_is_read_while_it_lasts() {
    let mut database = Database::default();
    let id = database.create("request-a", "idem-1");
    database.acquire(&id, "lease-1", 1_000).unwrap();
    let read = |database: &mut Database, now_ms: i64| {
        let id = "request-a".to_string();
        database
            .carry_out(|replies| read_thread_writer_lease(&id, now_ms, replies))
            .unwrap()
    };
    assert_eq!(
        read(&mut database, 30_999),
        Some(WriterLeaseRecord {
            lease_id: "lease-1".to_string(),
            writer_owner_token: "owner-1".to_string(),
            fencing_token: 1,
        })
    );
    assert_eq!(read(&mut database, 31_000), None);
}

#[test]
fn database_renewal_extends_both_leases() {
    let mut database = Database::default();
    let id = database.create("request-a", "idem-1");
    let owner = "owner-1".to_string();
    database.acquire(&id, "lease-1", 1_000).unwrap();
    assert!(database
        .carry_out(|replies| renew_request_leases(&id, &owner, 20_000, replies))
        .unwrap());
    assert_eq!(database.tables.leases["thread-1"].0.expires_at_ms, 50_000);
    assert_eq!(database.tables.owners[&id].1, 200_000);

    let stranger = "owner-2".to_string();
    assert!(!database
        .carry_out(|replies| renew_request_leases(&id, &stranger, 20_001, replies))
        .unwrap());
    assert_eq!(database.status(&id), RequestStatus::LeaseLost);
    assert!(database.tables.leases.is_empty());
    assert!(!database
        .carry_out(|replies| renew_request_leases(&id, &owner, 20_002, replies))
        .unwrap());
}

#[test]
fn database_renewal_without_owner_lease_times_the_owner_out() {
    let mut database = Database::default();
    let id = database.create("request-a", "idem-1");
    let owner = "owner-1".to_string();
    database.acquire(&id, "lease-1", 1_000).unwrap();
    database.tables.owners.clear();
    assert!(!database
        .carry_out(|replies| renew_request_leases(&id, &owner, 2_000, replies))
        .unwrap());
    assert_eq!(database.status(&id), RequestStatus::OwnerTimedOut);
    assert_eq!(database.event_types(&id), vec!["request/owner_timed_out"]);
}

#[test]
fn database_expired_owners_end_their_requests() {
    let mut database = Database::default();
    let first = database.create("request-a", "idem-1");
    let second = database.create("request-b", "idem-2");
    database.acquire(&first, "lease-1", 1_000).unwrap();
    assert_eq!(
        database.carry_out(|replies| expire_owner_leases(180_999, replies)),
        Ok(0)
    );
    assert_eq!(
        database.carry_out(|replies| expire_owner_leases(181_000, replies)),
        Ok(1)
    );
    assert_eq!(database.status(&first), RequestStatus::OwnerTimedOut);
    assert!(database.tables.leases.is_empty());
    assert_eq!(
        database.acquire(&second, "lease-2", 181_001).unwrap(),
        LeaseAcquireOutcome::Acquired {
            lease_id: "lease-2".to_string(),
            fencing_token: 2,
        }
    );
}

#[test]
fn database_appends_are_numbered_deduplicated_and_listed() {
    let mut database = Database::default();
    let id = database.create("request-a", "idem-1");
    database.acquire(&id, "lease-1", 1_000).unwrap();
    let params = append_params(&id, "append-1", &["a", "b"]);
    let first = database
        .carry_out(|replies| append_thread_items_with_lease(&params, 1_001, replies))
        .unwrap();
    assert_eq!(first.thread_version, 2);
    assert_eq!(first.first_append_sequence, 1);
    assert_eq!(first.last_append_sequence, 2);
    assert!(!first.deduplicated);
    let again = database
        .carry_out(|replies| append_thread_items_with_lease(&params, 1_002, replies))
        .unwrap();
    assert_eq!(again.last_append_sequence, 2);
    assert!(again.deduplicated);
    let changed = append_params(&id, "append-1", &["c"]);
    assert_eq!(
        database
            .carry_out(|replies| append_thread_items_with_lease(&changed, 1_003, replies))
            .unwrap_err(),
        CloudStateError::IdempotencyConflict
    );
    let mut stale = append_params(&id, "append-2", &["c"]);
    stale.expected_thread_version = Some(1);
    assert_eq!(
        database
            .carry_out(|replies| append_thread_items_with_lease(&stale, 1_004, replies))
            .unwrap_err(),
        CloudStateError::ThreadVersionConflict
    );
    stale.expected_thread_version = Some(2);
    let third = database
        .carry_out(|replies| append_thread_items_with_lease(&stale, 1_005, replies))
        .unwrap();
    assert_eq!(third.first_append_sequence, 3);
    let empty = append_params(&id, "append-3", &[]);
    assert_eq!(
        database
            .carry_out(|replies| append_thread_items_with_lease(&empty, 1_006, replies))
            .unwrap_err(),
        CloudStateError::EmptyAppend
    );

    let thread = "thread-1".to_string();
    let (page, next) = database
        .carry_out(|replies| list_thread_items(&thread, None, 2, replies))
        .unwrap();
    assert_eq!(
        page.iter().map(|item| item.sequence).collect::<Vec<_>>(),
        vec![1, 2]
    );
    assert_eq!(next, Some(2));
    let (page, next) = database
        .carry_out(|replies| list_thread_items(&thread, next, 2, replies))
        .unwrap();
    assert_eq!(
        page.iter()
            .map(|item| item.payload_ref.as_str())
            .collect::<Vec<_>>(),
        vec!["c"]
    );
    assert_eq!(next, None);
}

#[test]
fn database_append_is_a_repetition_as_long_as_the_lease_lasts() {
    let mut database = Database::default();
    let id = database.create("request-a", "idem-1");
    database.acquire(&id, "lease-1", 1_000).unwrap();
    let first = append_params(&id, "append-1", &["a", "b"]);
    let second = append_params(&id, "append-2", &["c"]);
    let made = database
        .carry_out(|replies| append_thread_items_with_lease(&first, 1_001, replies))
        .unwrap();
    database
        .carry_out(|replies| append_thread_items_with_lease(&second, 1_002, replies))
        .unwrap();
    let again = LeaseAppendParams {
        expected_thread_version: Some(7),
        ..append_params(&id, "append-1", &["a", "b"])
    };
    let repeated = database
        .carry_out(|replies| append_thread_items_with_lease(&again, 30_999, replies))
        .unwrap();
    assert!(repeated.deduplicated);
    assert_eq!(repeated.thread_version, made.thread_version);
    assert_eq!(repeated.first_append_sequence, made.first_append_sequence);
    assert_eq!(repeated.last_append_sequence, made.last_append_sequence);
    assert_eq!(database.tables.items.len(), 3);
}

#[test]
fn database_append_under_a_wrong_lease_loses_the_request() {
    let mut database = Database::default();
    let id = database.create("request-a", "idem-1");
    database.acquire(&id, "lease-1", 1_000).unwrap();
    let mut params = append_params(&id, "append-1", &["a"]);
    params.fencing_token = 2;
    assert_eq!(
        database
            .carry_out(|replies| append_thread_items_with_lease(&params, 1_001, replies))
            .unwrap_err(),
        CloudStateError::LeaseLost
    );
    assert_eq!(database.status(&id), RequestStatus::LeaseLost);
    assert_eq!(database.event_types(&id), vec!["request/lease_lost"]);
    assert!(database.tables.items.is_empty());
}

#[test]
fn database_append_after_the_lease_expired_is_refused() {
    let mut database = Database::default();
    let id = database.create("request-a", "idem-1");
    database.acquire(&id, "lease-1", 1_000).unwrap();
    let params = append_params(&id, "append-1", &["a"]);
    assert_eq!(
        database
            .carry_out(|replies| append_thread_items_with_lease(&params, 31_000, replies))
            .unwrap_err(),
        CloudStateError::LeaseLost
    );
    assert!(database.tables.items.is_empty());
}

#[test]
fn database_append_of_a_request_without_the_lease_leaves_it_queued() {
    let mut database = Database::default();
    let running = database.create("request-a", "idem-1");
    let queued = database.create("request-b", "idem-2");
    database.acquire(&running, "lease-1", 1_000).unwrap();
    let params = append_params(&queued, "append-1", &["a"]);
    assert_eq!(
        database
            .carry_out(|replies| append_thread_items_with_lease(&params, 1_001, replies))
            .unwrap_err(),
        CloudStateError::LeaseLost
    );
    assert_eq!(database.status(&queued), RequestStatus::Queued);
    assert_eq!(database.status(&running), RequestStatus::Running);
}

#[test]
fn database_completion_needs_the_lease() {
    assert!(terminal_requires_active_lease(RequestStatus::Completed));
    assert!(terminal_requires_active_lease(RequestStatus::Failed));
    assert!(terminal_requires_active_lease(RequestStatus::Interrupted));
    assert!(!terminal_requires_active_lease(RequestStatus::Cancelled));

    let mut database = Database::default();
    let id = database.create("request-a", "idem-1");
    database.acquire(&id, "lease-1", 1_000).unwrap();
    let completed = event(&id, "request/completed", "{}");
    let update = database
        .carry_out(|replies| {
            mark_request_terminal_with_event(&completed, RequestStatus::Completed, 31_000, replies)
        })
        .unwrap();
    assert_eq!(update, TerminalStatusUpdate::Changed);
    assert_eq!(database.status(&id), RequestStatus::LeaseLost);
    assert_eq!(database.event_types(&id), vec!["request/lease_lost"]);

    let other = database.create("request-b", "idem-2");
    database.acquire(&other, "lease-2", 40_000).unwrap();
    let update = database
        .carry_out(|replies| mark_request_terminal(&other, RequestStatus::Failed, 70_000, replies))
        .unwrap();
    assert_eq!(update, TerminalStatusUpdate::Changed);
    assert_eq!(database.status(&other), RequestStatus::LeaseLost);
}

#[test]
fn database_completion_under_the_lease_is_recorded() {
    let mut database = Database::default();
    let id = database.create("request-a", "idem-1");
    database.acquire(&id, "lease-1", 1_000).unwrap();
    let broken = event(&id, "request/completed", "not-json");
    assert_eq!(
        database
            .carry_out(|replies| {
                mark_request_terminal_with_event(&broken, RequestStatus::Completed, 2_000, replies)
            })
            .unwrap_err(),
        CloudStateError::InvalidEventPayload
    );
    let completed = event(&id, "request/completed", "{\"ok\":true}");
    assert_eq!(
        database
            .carry_out(|replies| {
                mark_request_terminal_with_event(
                    &completed,
                    RequestStatus::Completed,
                    2_000,
                    replies,
                )
            })
            .unwrap(),
        TerminalStatusUpdate::Changed
    );
    assert_eq!(database.status(&id), RequestStatus::Completed);
    assert!(database.tables.leases.is_empty());
    assert_eq!(
        database.tables.events,
        vec![EventRecord {
            request_id: id.clone(),
            sequence: 1,
            event_type: "request/completed".to_string(),
            payload_inline: "{\"ok\": true}".to_string(),
        }]
    );
    assert_eq!(
        database
            .carry_out(|replies| {
                mark_request_terminal_with_event(&completed, RequestStatus::Failed, 2_001, replies)
            })
            .unwrap(),
        TerminalStatusUpdate::Unchanged
    );
}

#[test]
fn database_events_are_counted_and_listed() {
    let mut database = Database::default();
    let id = database.create("request-a", "idem-1");
    let first = event(&id, "one", "{}");
    let second = event(&id, "two", "[1]");
    assert_eq!(
        database
            .carry_out(|replies| append_request_event(&first, 5, replies))
            .unwrap()
            .sequence,
        1
    );
    assert_eq!(
        database
            .carry_out(|replies| append_request_event_if_latest_cursor(&second, 0, 6, replies))
            .unwrap(),
        None
    );
    assert_eq!(
        database
            .carry_out(|replies| append_request_event_if_latest_cursor(&second, 1, 7, replies))
            .unwrap()
            .map(|event| event.sequence),
        Some(2)
    );
    let page = database
        .carry_out(|replies| list_request_events(&id, None, 1, replies))
        .unwrap();
    assert_eq!(page.data.len(), 1);
    assert_eq!(page.next_cursor, Some(1));
    let page = database
        .carry_out(|replies| list_request_events(&id, page.next_cursor, 1, replies))
        .unwrap();
    assert_eq!(page.data[0].event_type, "two");
    assert_eq!(page.next_cursor, None);

    let unknown = event("request-z", "one", "{}");
    assert_eq!(
        database
            .carry_out(|replies| append_request_event(&unknown, 8, replies))
            .unwrap_err(),
        CloudStateError::RequestNotFound
    );
    let broken = event(&id, "one", "nope");
    assert_eq!(
        database
            .carry_out(|replies| append_request_event(&broken, 9, replies))
            .unwrap_err(),
        CloudStateError::InvalidEventPayload
    );
    assert_eq!(database.tables.requests[&id].latest_event_cursor, 2);
}

#[test]
fn database_turn_leads_to_its_request() {
    let mut database = Database::default();
    let id = database.create("request-a", "idem-1");
    let turn = "turn-1".to_string();
    let noted = database
        .carry_out(|replies| set_request_turn_id(&id, &turn, 5, replies))
        .unwrap();
    assert_eq!(noted.turn_id, Some(turn.clone()));
    let found = database
        .carry_out(|replies| read_request_by_turn_id(&turn, replies))
        .unwrap();
    assert_eq!(found, noted);
    let other = "turn-2".to_string();
    assert_eq!(
        database
            .carry_out(|replies| read_request_by_turn_id(&other, replies))
            .unwrap_err(),
        CloudStateError::RequestNotFound
    );
}

#[test]
fn database_access_is_the_callers_own() {
    let mut database = Database::default();
    database.create("request-a", "idem-1");
    let thread = "thread-1".to_string();
    let caller = "caller-1".to_string();
    let stranger = "caller-2".to_string();
    assert!(database
        .carry_out(|replies| caller_can_access_thread(&caller, &thread, replies))
        .unwrap());
    assert!(!database
        .carry_out(|replies| caller_can_access_thread(&stranger, &thread, replies))
        .unwrap());
}

#[test]
fn database_context_reads_back() {
    let mut database = Database::default();
    let id = database.create("request-a", "idem-1");
    let config = ConfigSnapshotRecord {
        request_id: id.clone(),
        thread_id: "thread-1".to_string(),
        config_json: "{\"model\":\"m\"}".to_string(),
    };
    database
        .carry_out(|replies| persist_config_snapshot(&config, 5, replies))
        .unwrap();
    assert_eq!(
        database
            .carry_out(|replies| read_config_snapshot(&id, replies))
            .unwrap(),
        ConfigSnapshotRecord {
            config_json: "{\"model\": \"m\"}".to_string(),
            ..config.clone()
        }
    );
    let elsewhere = ConfigSnapshotRecord {
        thread_id: "thread-2".to_string(),
        ..config.clone()
    };
    assert_eq!(
        database
            .carry_out(|replies| persist_config_snapshot(&elsewhere, 6, replies))
            .unwrap_err(),
        CloudStateError::ThreadMismatch
    );
    let broken = ConfigSnapshotRecord {
        config_json: "{".to_string(),
        ..config
    };
    assert_eq!(
        database
            .carry_out(|replies| persist_config_snapshot(&broken, 7, replies))
            .unwrap_err(),
        CloudStateError::InvalidEventPayload
    );

    let metadata = StateMetadataRecord {
        thread_id: "thread-1".to_string(),
        kind: "cloud".to_string(),
        payload_json: "[1,{\"ok\":true}]".to_string(),
    };
    let kind = "cloud".to_string();
    let thread = "thread-1".to_string();
    assert_eq!(
        database
            .carry_out(|replies| read_state_metadata(&thread, &kind, replies))
            .unwrap_err(),
        CloudStateError::RequestNotFound
    );
    database
        .carry_out(|replies| upsert_state_metadata(&metadata, 8, replies))
        .unwrap();
    assert_eq!(
        database
            .carry_out(|replies| read_state_metadata(&thread, &kind, replies))
            .unwrap(),
        StateMetadataRecord {
            payload_json: "[1, {\"ok\": true}]".to_string(),
            ..metadata
        }
    );
}

#[test]
fn status_names_read_back() {
    let names = [
        (RequestStatus::Queued, "queued"),
        (RequestStatus::Running, "running"),
        (RequestStatus::Cancelling, "cancelling"),
        (RequestStatus::Completed, "completed"),
        (RequestStatus::Failed, "failed"),
        (RequestStatus::Cancelled, "cancelled"),
        (RequestStatus::Interrupted, "interrupted"),
        (RequestStatus::OwnerTimedOut, "owner_timed_out"),
        (RequestStatus::LeaseLost, "lease_lost"),
        (RequestStatus::TurnTimedOut, "turn_timed_out"),
    ];
    for (status, name) in names {
        assert_eq!(status_to_str(status), name);
        assert_eq!(status_from_str(&name.to_string()), Ok(status));
    }
}

#[test]
fn duplicate_entries_are_recognized() {
    assert!(is_duplicate_entry(Some("1062".to_string()), ""));
    assert!(is_duplicate_entry(Some("23000".to_string()), ""));
    assert!(is_duplicate_entry(
        None,
        "1062: Duplicate entry 'a' for key 'b'"
    ));
    assert!(!is_duplicate_entry(
        Some("40001".to_string()),
        "Deadlock found"
    ));
    assert!(!is_duplicate_entry(None, "Duplicate entr"));
}

#[test]
fn database_cursor_that_is_not_the_last_number_is_no_match() {
    let last = event("request-a", "one", "{}");
    let mut database = Database::default();
    let id = database.create("request-a", "idem-1");
    assert_eq!(
        database
            .carry_out(|replies| append_request_event_if_latest_cursor(
                &last,
                u64::MAX,
                5,
                replies
            ))
            .unwrap(),
        None
    );
    assert_eq!(database.tables.requests[&id].latest_event_cursor, 0);
}

/// A store in the tables, at a moment.
struct TableStore {
    database: RefCell<Database>,
    now_ms: i64,
    made: usize,
}

impl TableStore {
    fn carry_out<T>(
        &self,
        operation: impl Fn(&Vec<Reply>) -> Step<T>,
    ) -> Result<T, CloudStateError> {
        self.database.borrow_mut().carry_out(operation)
    }

    fn new_id(&mut self, kind: &str) -> String {
        self.made += 1;
        format!("{kind}-{}", self.made)
    }
}

impl CloudStateStore for TableStore {
    fn create_request(
        &mut self,
        params: CreateRequestParams,
    ) -> Result<RequestRecord, CloudStateError> {
        let id = self.new_id("request");
        let now_ms = self.now_ms;
        self.carry_out(|replies| create_request(&params, &id, now_ms, replies))
    }

    fn read_request(&self, request_id: &str) -> Result<RequestRecord, CloudStateError> {
        self.carry_out(|replies| read_request(&request_id.to_string(), replies))
    }

    fn read_request_by_turn_id(&self, turn_id: &str) -> Result<RequestRecord, CloudStateError> {
        self.carry_out(|replies| read_request_by_turn_id(&turn_id.to_string(), replies))
    }

    fn set_request_turn_id(
        &mut self,
        request_id: &str,
        turn_id: &str,
    ) -> Result<RequestRecord, CloudStateError> {
        let (id, turn) = (request_id.to_string(), turn_id.to_string());
        self.carry_out(|replies| set_request_turn_id(&id, &turn, self.now_ms, replies))
    }

    fn caller_can_access_thread(
        &self,
        caller_id: &str,
        thread_id: &str,
    ) -> Result<bool, CloudStateError> {
        let (caller, thread) = (caller_id.to_string(), thread_id.to_string());
        self.carry_out(|replies| caller_can_access_thread(&caller, &thread, replies))
    }

    fn acquire_thread_writer_lease(
        &mut self,
        request_id: &str,
        owner_instance_id: &str,
    ) -> Result<LeaseAcquireOutcome, CloudStateError> {
        let lease = self.new_id("lease");
        let (id, owner) = (request_id.to_string(), owner_instance_id.to_string());
        self.carry_out(|replies| {
            acquire_thread_writer_lease(&id, &owner, &lease, self.now_ms, replies)
        })
    }

    fn read_thread_writer_lease(
        &self,
        request_id: &str,
    ) -> Result<Option<WriterLeaseRecord>, CloudStateError> {
        let id = request_id.to_string();
        self.carry_out(|replies| read_thread_writer_lease(&id, self.now_ms, replies))
    }

    fn renew_request_leases(
        &mut self,
        request_id: &str,
        owner_instance_id: &str,
    ) -> Result<bool, CloudStateError> {
        let (id, owner) = (request_id.to_string(), owner_instance_id.to_string());
        self.carry_out(|replies| renew_request_leases(&id, &owner, self.now_ms, replies))
    }

    fn expire_owner_leases(&mut self) -> Result<usize, CloudStateError> {
        self.carry_out(|replies| expire_owner_leases(self.now_ms, replies))
    }

    fn append_thread_items_with_lease(
        &mut self,
        params: LeaseAppendParams,
    ) -> Result<AppendThreadItemsWithLeaseResponse, CloudStateError> {
        self.carry_out(|replies| append_thread_items_with_lease(&params, self.now_ms, replies))
    }

    fn list_thread_items(
        &self,
        thread_id: &str,
        cursor: Option<u64>,
        limit: usize,
    ) -> Result<(Vec<ThreadItemRecord>, Option<u64>), CloudStateError> {
        let thread = thread_id.to_string();
        self.carry_out(|replies| list_thread_items(&thread, cursor, limit, replies))
    }

    fn mark_request_terminal(
        &mut self,
        request_id: &str,
        status: RequestStatus,
    ) -> Result<TerminalStatusUpdate, CloudStateError> {
        let id = request_id.to_string();
        self.carry_out(|replies| mark_request_terminal(&id, status, self.now_ms, replies))
    }

    fn mark_request_terminal_with_event(
        &mut self,
        params: EventAppendParams,
        status: RequestStatus,
    ) -> Result<TerminalStatusUpdate, CloudStateError> {
        self.carry_out(|replies| {
            mark_request_terminal_with_event(&params, status, self.now_ms, replies)
        })
    }

    fn append_request_event(
        &mut self,
        params: EventAppendParams,
    ) -> Result<EventRecord, CloudStateError> {
        self.carry_out(|replies| append_request_event(&params, self.now_ms, replies))
    }

    fn append_request_event_if_latest_cursor(
        &mut self,
        params: EventAppendParams,
        expected: u64,
    ) -> Result<Option<EventRecord>, CloudStateError> {
        self.carry_out(|replies| {
            append_request_event_if_latest_cursor(&params, expected, self.now_ms, replies)
        })
    }

    fn list_request_events(
        &self,
        request_id: &str,
        cursor: Option<u64>,
        limit: usize,
    ) -> Result<EventsPage, CloudStateError> {
        let id = request_id.to_string();
        self.carry_out(|replies| list_request_events(&id, cursor, limit, replies))
    }

    fn persist_config_snapshot(
        &mut self,
        record: ConfigSnapshotRecord,
    ) -> Result<(), CloudStateError> {
        self.carry_out(|replies| persist_config_snapshot(&record, self.now_ms, replies))
    }

    fn read_config_snapshot(
        &self,
        request_id: &str,
    ) -> Result<ConfigSnapshotRecord, CloudStateError> {
        self.carry_out(|replies| read_config_snapshot(&request_id.to_string(), replies))
    }

    fn upsert_state_metadata(&mut self, record: StateMetadataRecord) -> Result<(), CloudStateError> {
        self.carry_out(|replies| upsert_state_metadata(&record, self.now_ms, replies))
    }

    fn read_state_metadata(
        &self,
        thread_id: &str,
        kind: &str,
    ) -> Result<StateMetadataRecord, CloudStateError> {
        let (thread, kind) = (thread_id.to_string(), kind.to_string());
        self.carry_out(|replies| read_state_metadata(&thread, &kind, replies))
    }
}

fn service() -> CloudRequestService<TableStore> {
    CloudRequestService::new(TableStore {
        database: RefCell::new(Database::default()),
        now_ms: 1_000,
        made: 0,
    })
}

fn run(
    service: &mut CloudRequestService<TableStore>,
    caller_id: &str,
    key: &str,
    input: &str,
) -> Result<RequestRunResponse, CloudStateError> {
    service.run(
        caller_id,
        RequestRunParams {
            thread_id: Some("thread-1".to_string()),
            create_thread: None,
            input: input.to_string(),
            idempotency_key: key.to_string(),
            cwd: None,
            client_info: None,
        },
    )
}

#[test]
fn repeated_run_on_the_database_changes_nothing() {
    let mut service = service();
    let first = run(&mut service, "caller-1", "idem-1", "hello").unwrap();
    assert_eq!(first.request.status, RequestStatus::Running);
    assert_eq!(first.event_cursor, 2);
    let lease = first.writer_lease.clone().unwrap();
    assert_eq!(lease.writer_owner_token, "caller-1");
    assert_eq!(lease.fencing_token, 1);
    assert_eq!(
        run(&mut service, "caller-1", "idem-1", "hello").unwrap(),
        first
    );

    let waiting = run(&mut service, "caller-2", "idem-1", "hello").unwrap();
    assert_eq!(waiting.request.status, RequestStatus::Queued);
    assert_eq!(waiting.event_cursor, 1);
    assert_eq!(waiting.writer_lease, None);
    assert_eq!(
        run(&mut service, "caller-2", "idem-1", "hello").unwrap(),
        waiting
    );
    assert_eq!(
        run(&mut service, "caller-1", "idem-1", "other").unwrap_err(),
        CloudStateError::IdempotencyConflict
    );
}

#[test]
fn request_in_the_database_ends_once() {
    let mut service = service();
    let id = run(&mut service, "caller-1", "idem-1", "hello")
        .unwrap()
        .request
        .request_id;
    let first = service
        .terminal_signal("caller-1", &id, TerminalSignal::Completed, None)
        .unwrap();
    assert_eq!(first.request.status, RequestStatus::Completed);
    assert_eq!(first.latest_event_cursor, 3);
    let second = service
        .terminal_signal(
            "caller-1",
            &id,
            TerminalSignal::Failed,
            Some("no JSON".to_string()),
        )
        .unwrap();
    assert_eq!(second, first);
    let freed = run(&mut service, "caller-2", "idem-1", "hello").unwrap();
    assert_eq!(freed.request.status, RequestStatus::Running);
}

#[test]
fn foreign_request_in_the_database_is_not_found() {
    let mut service = service();
    let id = run(&mut service, "caller-1", "idem-1", "hello")
        .unwrap()
        .request
        .request_id;
    assert_eq!(
        service
            .read(
                "caller-2",
                RequestReadParams {
                    request_id: id.clone()
                }
            )
            .unwrap_err(),
        CloudStateError::RequestNotFound
    );
    assert_eq!(
        service
            .terminal_signal("caller-2", &id, TerminalSignal::Completed, None)
            .unwrap_err(),
        CloudStateError::RequestNotFound
    );
    assert_eq!(
        service
            .thread_items_list(
                "caller-2",
                ThreadItemsListParams {
                    thread_id: "thread-1".to_string(),
                    cursor: None,
                    limit: None,
                }
            )
            .unwrap_err(),
        CloudStateError::RequestNotFound
    );
}

#[test]
fn reason_in_the_database_reads_back() {
    let mut service = service();
    let id = run(&mut service, "caller-1", "idem-1", "hello")
        .unwrap()
        .request
        .request_id;
    service
        .cancel(
            "caller-1",
            RequestCancelParams {
                request_id: id.clone(),
                reason: Some("say \"no\"".to_string()),
            },
        )
        .unwrap();
    let events = service
        .events_list(
            "caller-1",
            RequestEventsListParams {
                request_id: id,
                cursor: Some(2),
                limit: None,
            },
        )
        .unwrap();
    assert_eq!(
        events.data[0].payload_inline,
        "{\"reason\": \"say \\\"no\\\"\"}"
    );
    assert_eq!(
        cancel_reason(&events.data[0].payload_inline),
        Some("say \"no\"".to_string())
    );
}
