use cloud_state::mysql::schema::MysqlCloudStateSchema;

#[test]
fn mysql_schema_declares_request_lease_append_and_event_tables() {
    let statements = MysqlCloudStateSchema::create_table_statements().join("\n");

    assert!(statements.contains("CREATE TABLE IF NOT EXISTS cloud_requests"));
    assert!(statements.contains("UNIQUE KEY cloud_requests_idempotency_key"));
    assert!(statements.contains("CREATE TABLE IF NOT EXISTS cloud_thread_writer_leases"));
    assert!(statements.contains("UNIQUE KEY cloud_thread_writer_leases_thread_id"));
    assert!(statements.contains("CREATE TABLE IF NOT EXISTS cloud_fencing_tokens"));
    assert!(statements.contains("CREATE TABLE IF NOT EXISTS cloud_append_results"));
    assert!(statements.contains("request_id VARCHAR(128) NULL"));
    assert!(statements.contains("payload_refs_json JSON NULL"));
    assert!(statements.contains("UNIQUE KEY cloud_append_results_idempotency_key"));
    assert!(statements.contains("CREATE TABLE IF NOT EXISTS cloud_thread_items"));
    assert!(statements.contains("CREATE TABLE IF NOT EXISTS cloud_request_events"));
    assert!(statements.contains("UNIQUE KEY cloud_request_events_sequence"));
}
