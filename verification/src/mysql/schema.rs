//! The tables of the database.
use vstd::prelude::*;

verus! {

/// The table of threads.
pub const CLOUD_THREADS: &'static str = "CREATE TABLE IF NOT EXISTS cloud_threads (
    thread_id VARCHAR(255) NOT NULL PRIMARY KEY,
    create_params_json JSON NOT NULL,
    metadata_patch_json JSON NULL,
    archived_at_ms BIGINT NULL,
    created_at_ms BIGINT NOT NULL,
    updated_at_ms BIGINT NOT NULL
)";

/// The table of the rollout items of threads.
pub const CLOUD_THREAD_ROLLOUT_ITEMS: &'static str = "CREATE TABLE IF NOT EXISTS cloud_thread_rollout_items (
    thread_id VARCHAR(255) NOT NULL,
    sequence BIGINT UNSIGNED NOT NULL,
    item_json JSON NOT NULL,
    created_at_ms BIGINT NOT NULL,
    PRIMARY KEY (thread_id, sequence)
)";

/// The table of requests.
pub const CLOUD_REQUESTS: &'static str = "CREATE TABLE IF NOT EXISTS cloud_requests (
    request_id VARCHAR(128) NOT NULL PRIMARY KEY,
    caller_id VARCHAR(255) NOT NULL,
    thread_id VARCHAR(255) NOT NULL,
    idempotency_key VARCHAR(255) NOT NULL,
    input_hash TEXT NOT NULL,
    turn_id VARCHAR(255) NULL,
    status VARCHAR(64) NOT NULL,
    latest_event_cursor BIGINT UNSIGNED NOT NULL DEFAULT 0,
    created_at_ms BIGINT NOT NULL,
    updated_at_ms BIGINT NOT NULL,
    UNIQUE KEY cloud_requests_idempotency_key (caller_id, thread_id, idempotency_key)
)";

/// The table of writer leases, one to a thread.
pub const CLOUD_THREAD_WRITER_LEASES: &'static str = "CREATE TABLE IF NOT EXISTS cloud_thread_writer_leases (
    thread_id VARCHAR(255) NOT NULL PRIMARY KEY,
    request_id VARCHAR(128) NOT NULL,
    lease_id VARCHAR(128) NOT NULL,
    owner_instance_id VARCHAR(255) NOT NULL,
    fencing_token BIGINT UNSIGNED NOT NULL,
    acquired_at_ms BIGINT NOT NULL,
    heartbeat_at_ms BIGINT NOT NULL,
    expires_at_ms BIGINT NOT NULL,
    released_at_ms BIGINT NULL,
    UNIQUE KEY cloud_thread_writer_leases_thread_id (thread_id),
    UNIQUE KEY cloud_thread_writer_leases_lease_id (lease_id)
)";

/// The table of owner leases, one to a request.
pub const CLOUD_OWNER_LEASES: &'static str = "CREATE TABLE IF NOT EXISTS cloud_owner_leases (
    request_id VARCHAR(128) NOT NULL PRIMARY KEY,
    turn_id VARCHAR(255) NULL,
    owner_instance_id VARCHAR(255) NOT NULL,
    heartbeat_at_ms BIGINT NOT NULL,
    expires_at_ms BIGINT NOT NULL,
    released_at_ms BIGINT NULL,
    KEY cloud_owner_leases_turn_id (turn_id)
)";

/// The table of the fencing tokens that were drawn.
pub const CLOUD_FENCING_TOKENS: &'static str = "CREATE TABLE IF NOT EXISTS cloud_fencing_tokens (
    fencing_token BIGINT UNSIGNED NOT NULL AUTO_INCREMENT PRIMARY KEY,
    request_id VARCHAR(128) NOT NULL,
    issued_at_ms BIGINT NOT NULL
)";

/// The table of appends by idempotency key.
pub const CLOUD_APPEND_RESULTS: &'static str = "CREATE TABLE IF NOT EXISTS cloud_append_results (
    thread_id VARCHAR(255) NOT NULL,
    request_id VARCHAR(128) NULL,
    append_idempotency_key VARCHAR(255) NOT NULL,
    payload_refs_json JSON NULL,
    thread_version BIGINT UNSIGNED NOT NULL,
    first_append_sequence BIGINT UNSIGNED NOT NULL,
    last_append_sequence BIGINT UNSIGNED NOT NULL,
    PRIMARY KEY (thread_id, append_idempotency_key),
    UNIQUE KEY cloud_append_results_idempotency_key (thread_id, append_idempotency_key)
)";

/// The table of the items of threads.
pub const CLOUD_THREAD_ITEMS: &'static str = "CREATE TABLE IF NOT EXISTS cloud_thread_items (
    thread_id VARCHAR(255) NOT NULL,
    sequence BIGINT UNSIGNED NOT NULL,
    payload_ref TEXT NOT NULL,
    PRIMARY KEY (thread_id, sequence)
)";

/// The table of the events of requests.
pub const CLOUD_REQUEST_EVENTS: &'static str = "CREATE TABLE IF NOT EXISTS cloud_request_events (
    request_id VARCHAR(128) NOT NULL,
    sequence BIGINT UNSIGNED NOT NULL,
    event_type VARCHAR(255) NOT NULL,
    payload_inline JSON NOT NULL,
    created_at_ms BIGINT NOT NULL,
    PRIMARY KEY (request_id, sequence),
    UNIQUE KEY cloud_request_events_sequence (request_id, sequence)
)";

/// The table of configurations by request.
pub const CLOUD_CONFIG_SNAPSHOTS: &'static str = "CREATE TABLE IF NOT EXISTS cloud_config_snapshots (
    request_id VARCHAR(128) NOT NULL PRIMARY KEY,
    thread_id VARCHAR(255) NOT NULL,
    config_json JSON NOT NULL,
    created_at_ms BIGINT NOT NULL,
    updated_at_ms BIGINT NOT NULL,
    KEY cloud_config_snapshots_thread_id (thread_id)
)";

/// The table of metadata by thread and kind.
pub const CLOUD_STATE_METADATA: &'static str = "CREATE TABLE IF NOT EXISTS cloud_state_metadata (
    thread_id VARCHAR(255) NOT NULL,
    kind VARCHAR(255) NOT NULL,
    payload_json JSON NOT NULL,
    created_at_ms BIGINT NOT NULL,
    updated_at_ms BIGINT NOT NULL,
    PRIMARY KEY (thread_id, kind)
)";

/// The tables of the database.
pub struct MysqlCloudStateSchema;

impl MysqlCloudStateSchema {
    /// The statements that make the tables, where they are not there yet.
    pub fn create_table_statements() -> (r: [&'static str; 11])
        ensures
            r@ == seq![
                CLOUD_THREADS,
                CLOUD_THREAD_ROLLOUT_ITEMS,
                CLOUD_REQUESTS,
                CLOUD_THREAD_WRITER_LEASES,
                CLOUD_OWNER_LEASES,
                CLOUD_FENCING_TOKENS,
                CLOUD_APPEND_RESULTS,
                CLOUD_THREAD_ITEMS,
                CLOUD_REQUEST_EVENTS,
                CLOUD_CONFIG_SNAPSHOTS,
                CLOUD_STATE_METADATA,
            ],
    {
        [
            CLOUD_THREADS,
            CLOUD_THREAD_ROLLOUT_ITEMS,
            CLOUD_REQUESTS,
            CLOUD_THREAD_WRITER_LEASES,
            CLOUD_OWNER_LEASES,
            CLOUD_FENCING_TOKENS,
            CLOUD_APPEND_RESULTS,
            CLOUD_THREAD_ITEMS,
            CLOUD_REQUEST_EVENTS,
            CLOUD_CONFIG_SNAPSHOTS,
            CLOUD_STATE_METADATA,
        ]
    }
}

/// A column that a table made by an earlier release may lack.
#[derive(Debug, Clone, Copy, PartialEq, Eq, Structural)]
pub enum Migration {
    AppendResultsRequestId,
    AppendResultsPayloadRefs,
    RequestsTurnId,
    ThreadWriterLeasesHeartbeat,
    ThreadWriterLeasesExpiry,
    ThreadWriterLeasesRelease,
    OwnerLeasesTurnId,
}

impl Migration {
    /// The table in which the column belongs.
    pub open spec fn table_name(self) -> Seq<char> {
        match self {
            Migration::AppendResultsRequestId => "cloud_append_results"@,
            Migration::AppendResultsPayloadRefs => "cloud_append_results"@,
            Migration::RequestsTurnId => "cloud_requests"@,
            Migration::ThreadWriterLeasesHeartbeat => "cloud_thread_writer_leases"@,
            Migration::ThreadWriterLeasesExpiry => "cloud_thread_writer_leases"@,
            Migration::ThreadWriterLeasesRelease => "cloud_thread_writer_leases"@,
            Migration::OwnerLeasesTurnId => "cloud_owner_leases"@,
        }
    }

    /// The name of the column.
    pub open spec fn column_name(self) -> Seq<char> {
        match self {
            Migration::AppendResultsRequestId => "request_id"@,
            Migration::AppendResultsPayloadRefs => "payload_refs_json"@,
            Migration::RequestsTurnId => "turn_id"@,
            Migration::ThreadWriterLeasesHeartbeat => "heartbeat_at_ms"@,
            Migration::ThreadWriterLeasesExpiry => "expires_at_ms"@,
            Migration::ThreadWriterLeasesRelease => "released_at_ms"@,
            Migration::OwnerLeasesTurnId => "turn_id"@,
        }
    }

    /// The statements that add the column, with an index where it is looked up by it.
    pub open spec fn additions(self) -> Seq<Seq<char>> {
        match self {
            Migration::AppendResultsRequestId => seq![
                "ALTER TABLE cloud_append_results ADD COLUMN request_id VARCHAR(128) NULL"@,
            ],
            Migration::AppendResultsPayloadRefs => seq![
                "ALTER TABLE cloud_append_results ADD COLUMN payload_refs_json JSON NULL"@,
            ],
            Migration::RequestsTurnId => seq![
                "ALTER TABLE cloud_requests ADD COLUMN turn_id VARCHAR(255) NULL"@,
                "CREATE INDEX cloud_requests_turn_id ON cloud_requests (turn_id)"@,
            ],
            Migration::ThreadWriterLeasesHeartbeat => seq![
                "ALTER TABLE cloud_thread_writer_leases ADD COLUMN heartbeat_at_ms BIGINT NOT NULL DEFAULT 0"@,
            ],
            Migration::ThreadWriterLeasesExpiry => seq![
                "ALTER TABLE cloud_thread_writer_leases ADD COLUMN expires_at_ms BIGINT NOT NULL DEFAULT 0"@,
            ],
            Migration::ThreadWriterLeasesRelease => seq![
                "ALTER TABLE cloud_thread_writer_leases ADD COLUMN released_at_ms BIGINT NULL"@,
            ],
            Migration::OwnerLeasesTurnId => seq![
                "ALTER TABLE cloud_owner_leases ADD COLUMN turn_id VARCHAR(255) NULL"@,
                "CREATE INDEX cloud_owner_leases_turn_id ON cloud_owner_leases (turn_id)"@,
            ],
        }
    }

    /// The migrations in the order in which they are made.
    pub fn all() -> (r: Vec<Migration>)
        ensures
            r@ == seq![
                Migration::AppendResultsRequestId,
                Migration::AppendResultsPayloadRefs,
                Migration::RequestsTurnId,
                Migration::ThreadWriterLeasesHeartbeat,
                Migration::ThreadWriterLeasesExpiry,
                Migration::ThreadWriterLeasesRelease,
                Migration::OwnerLeasesTurnId,
            ],
            forall|migration: Migration| r@.contains(migration),
    {
        let r = vec![
            Migration::AppendResultsRequestId,
            Migration::AppendResultsPayloadRefs,
            Migration::RequestsTurnId,
            Migration::ThreadWriterLeasesHeartbeat,
            Migration::ThreadWriterLeasesExpiry,
            Migration::ThreadWriterLeasesRelease,
            Migration::OwnerLeasesTurnId,
        ];
        proof {
            assert(r@[0] == Migration::AppendResultsRequestId);
            assert(r@[1] == Migration::AppendResultsPayloadRefs);
            assert(r@[2] == Migration::RequestsTurnId);
            assert(r@[3] == Migration::ThreadWriterLeasesHeartbeat);
            assert(r@[4] == Migration::ThreadWriterLeasesExpiry);
            assert(r@[5] == Migration::ThreadWriterLeasesRelease);
            assert(r@[6] == Migration::OwnerLeasesTurnId);
        }
        r
    }

    /// The table in which the column belongs.
    pub fn table(self) -> (r: &'static str)
        ensures
            r@ == self.table_name(),
    {
        match self {
            Migration::AppendResultsRequestId => "cloud_append_results",
            Migration::AppendResultsPayloadRefs => "cloud_append_results",
            Migration::RequestsTurnId => "cloud_requests",
            Migration::ThreadWriterLeasesHeartbeat => "cloud_thread_writer_leases",
            Migration::ThreadWriterLeasesExpiry => "cloud_thread_writer_leases",
            Migration::ThreadWriterLeasesRelease => "cloud_thread_writer_leases",
            Migration::OwnerLeasesTurnId => "cloud_owner_leases",
        }
    }

    /// The name of the column.
    pub fn column(self) -> (r: &'static str)
        ensures
            r@ == self.column_name(),
    {
        match self {
            Migration::AppendResultsRequestId => "request_id",
            Migration::AppendResultsPayloadRefs => "payload_refs_json",
            Migration::RequestsTurnId => "turn_id",
            Migration::ThreadWriterLeasesHeartbeat => "heartbeat_at_ms",
            Migration::ThreadWriterLeasesExpiry => "expires_at_ms",
            Migration::ThreadWriterLeasesRelease => "released_at_ms",
            Migration::OwnerLeasesTurnId => "turn_id",
        }
    }

    /// The statements to execute: none if the column is there, else those that add it.
    pub fn statements(self, column_exists: bool) -> (r: Vec<&'static str>)
        ensures
            column_exists ==> r@.len() == 0,
            !column_exists ==> r@.len() == self.additions().len() && forall|i: int|
                0 <= i < r@.len() ==> (#[trigger] r@[i])@ == self.additions()[i],
    {
        if column_exists {
            return Vec::new();
        }
        match self {
            Migration::AppendResultsRequestId => vec![
                "ALTER TABLE cloud_append_results ADD COLUMN request_id VARCHAR(128) NULL",
            ],
            Migration::AppendResultsPayloadRefs => vec![
                "ALTER TABLE cloud_append_results ADD COLUMN payload_refs_json JSON NULL",
            ],
            Migration::RequestsTurnId => vec![
                "ALTER TABLE cloud_requests ADD COLUMN turn_id VARCHAR(255) NULL",
                "CREATE INDEX cloud_requests_turn_id ON cloud_requests (turn_id)",
            ],
            Migration::ThreadWriterLeasesHeartbeat => vec![
                "ALTER TABLE cloud_thread_writer_leases ADD COLUMN heartbeat_at_ms BIGINT NOT NULL DEFAULT 0",
            ],
            Migration::ThreadWriterLeasesExpiry => vec![
                "ALTER TABLE cloud_thread_writer_leases ADD COLUMN expires_at_ms BIGINT NOT NULL DEFAULT 0",
            ],
            Migration::ThreadWriterLeasesRelease => vec![
                "ALTER TABLE cloud_thread_writer_leases ADD COLUMN released_at_ms BIGINT NULL",
            ],
            Migration::OwnerLeasesTurnId => vec![
                "ALTER TABLE cloud_owner_leases ADD COLUMN turn_id VARCHAR(255) NULL",
                "CREATE INDEX cloud_owner_leases_turn_id ON cloud_owner_leases (turn_id)",
            ],
        }
    }
}

/// The statement that adds a column names the table, the column and its type: texts for what
/// identifies a request or a turn, JSON for references, whole numbers for moments. A column that
/// names a turn gets an index, and no other one does.
pub proof fn migrations_add_their_columns(this: Migration)
    ensures
        ({
            let kind = if this == Migration::AppendResultsRequestId {
                " VARCHAR(128) NULL"@
            } else if this == Migration::AppendResultsPayloadRefs {
                " JSON NULL"@
            } else if this == Migration::RequestsTurnId || this == Migration::OwnerLeasesTurnId {
                " VARCHAR(255) NULL"@
            } else if this == Migration::ThreadWriterLeasesRelease {
                " BIGINT NULL"@
            } else {
                " BIGINT NOT NULL DEFAULT 0"@
            };
            &&& this.additions()[0] == "ALTER TABLE "@ + this.table_name() + " ADD COLUMN "@
                + this.column_name() + kind
            &&& this.column_name() == "turn_id"@ <==> this.additions().len() == 2
            &&& this.additions().len() == 2 ==> this.additions()[1] == "CREATE INDEX "@
                + this.table_name() + "_"@ + this.column_name() + " ON "@ + this.table_name()
                + " ("@ + this.column_name() + ")"@
            &&& 1 <= this.additions().len() <= 2
        }),
{
    reveal_strlit("request_id");
    reveal_strlit("payload_refs_json");
    reveal_strlit("turn_id");
    reveal_strlit("heartbeat_at_ms");
    reveal_strlit("expires_at_ms");
    reveal_strlit("released_at_ms");
    assert("turn_id"@.len() == 7 && "request_id"@.len() == 10);
    assert("payload_refs_json"@.len() == 17 && "heartbeat_at_ms"@.len() == 15);
    assert("expires_at_ms"@.len() == 13 && "released_at_ms"@.len() == 14);
    match this {
        Migration::AppendResultsRequestId => {
            reveal_strlit("ALTER TABLE ");
            reveal_strlit("cloud_append_results");
            reveal_strlit(" ADD COLUMN ");
            reveal_strlit("request_id");
            reveal_strlit(" VARCHAR(128) NULL");
            reveal_strlit("ALTER TABLE cloud_append_results ADD COLUMN request_id VARCHAR(128) NULL");
            assert(this.additions()[0] =~= "ALTER TABLE "@ + this.table_name() + " ADD COLUMN "@ + this.column_name()
                + " VARCHAR(128) NULL"@);
        },
        Migration::AppendResultsPayloadRefs => {
            reveal_strlit("ALTER TABLE ");
            reveal_strlit("cloud_append_results");
            reveal_strlit(" ADD COLUMN ");
            reveal_strlit("payload_refs_json");
            reveal_strlit(" JSON NULL");
            reveal_strlit("ALTER TABLE cloud_append_results ADD COLUMN payload_refs_json JSON NULL");
            assert(this.additions()[0] =~= "ALTER TABLE "@ + this.table_name() + " ADD COLUMN "@ + this.column_name()
                + " JSON NULL"@);
        },
        Migration::RequestsTurnId => {
            reveal_strlit("ALTER TABLE ");
            reveal_strlit("cloud_requests");
            reveal_strlit(" ADD COLUMN ");
            reveal_strlit("turn_id");
            reveal_strlit(" VARCHAR(255) NULL");
            reveal_strlit("ALTER TABLE cloud_requests ADD COLUMN turn_id VARCHAR(255) NULL");
            reveal_strlit("CREATE INDEX ");
            reveal_strlit("_");
            reveal_strlit(" ON ");
            reveal_strlit(" (");
            reveal_strlit(")");
            reveal_strlit("CREATE INDEX cloud_requests_turn_id ON cloud_requests (turn_id)");
            assert(this.additions()[0] =~= "ALTER TABLE "@ + this.table_name() + " ADD COLUMN "@ + this.column_name()
                + " VARCHAR(255) NULL"@);
            assert(this.additions()[1] =~= "CREATE INDEX "@ + this.table_name() + "_"@ + this.column_name()
                + " ON "@ + this.table_name() + " ("@ + this.column_name() + ")"@);
        },
        Migration::ThreadWriterLeasesHeartbeat => {
            reveal_strlit("ALTER TABLE ");
            reveal_strlit("cloud_thread_writer_leases");
            reveal_strlit(" ADD COLUMN ");
            reveal_strlit("heartbeat_at_ms");
            reveal_strlit(" BIGINT NOT NULL DEFAULT 0");
            reveal_strlit("ALTER TABLE cloud_thread_writer_leases ADD COLUMN heartbeat_at_ms BIGINT NOT NULL DEFAULT 0");
            assert(this.additions()[0] =~= "ALTER TABLE "@ + this.table_name() + " ADD COLUMN "@ + this.column_name()
                + " BIGINT NOT NULL DEFAULT 0"@);
        },
        Migration::ThreadWriterLeasesExpiry => {
            reveal_strlit("ALTER TABLE ");
            reveal_strlit("cloud_thread_writer_leases");
            reveal_strlit(" ADD COLUMN ");
            reveal_strlit("expires_at_ms");
            reveal_strlit(" BIGINT NOT NULL DEFAULT 0");
            reveal_strlit("ALTER TABLE cloud_thread_writer_leases ADD COLUMN expires_at_ms BIGINT NOT NULL DEFAULT 0");
            assert(this.additions()[0] =~= "ALTER TABLE "@ + this.table_name() + " ADD COLUMN "@ + this.column_name()
                + " BIGINT NOT NULL DEFAULT 0"@);
        },
        Migration::ThreadWriterLeasesRelease => {
            reveal_strlit("ALTER TABLE ");
            reveal_strlit("cloud_thread_writer_leases");
            reveal_strlit(" ADD COLUMN ");
            reveal_strlit("released_at_ms");
            reveal_strlit(" BIGINT NULL");
            reveal_strlit("ALTER TABLE cloud_thread_writer_leases ADD COLUMN released_at_ms BIGINT NULL");
            assert(this.additions()[0] =~= "ALTER TABLE "@ + this.table_name() + " ADD COLUMN "@ + this.column_name()
                + " BIGINT NULL"@);
        },
        Migration::OwnerLeasesTurnId => {
            reveal_strlit("ALTER TABLE ");
            reveal_strlit("cloud_owner_leases");
            reveal_strlit(" ADD COLUMN ");
            reveal_strlit("turn_id");
            reveal_strlit(" VARCHAR(255) NULL");
            reveal_strlit("ALTER TABLE cloud_owner_leases ADD COLUMN turn_id VARCHAR(255) NULL");
            reveal_strlit("CREATE INDEX ");
            reveal_strlit("_");
            reveal_strlit(" ON ");
            reveal_strlit(" (");
            reveal_strlit(")");
            reveal_strlit("CREATE INDEX cloud_owner_leases_turn_id ON cloud_owner_leases (turn_id)");
            assert(this.additions()[0] =~= "ALTER TABLE "@ + this.table_name() + " ADD COLUMN "@ + this.column_name()
                + " VARCHAR(255) NULL"@);
            assert(this.additions()[1] =~= "CREATE INDEX "@ + this.table_name() + "_"@ + this.column_name()
                + " ON "@ + this.table_name() + " ("@ + this.column_name() + ")"@);
        },
    }
}

} // verus!
