# cloud_state

Request state for a cloud runtime, verified with Verus.

A client asks for a request to be run on a thread. The request is recorded once per idempotency
key, waits until its thread is free, takes the writer lease of the thread under a rising fencing
token, appends items under that lease, and ends exactly once. Every step leaves an event that
clients read by cursor.

## Layout

- `src/protocol`: the messages of clients.
- `src/records.rs`, `src/request_store.rs`: what a store keeps, and the operations it offers.
- `src/model.rs`, `src/invariants.rs`, `src/pages.rs`, `src/laws.rs`: the store as a mathematical
  value, its invariant, and what holds of it.
- `src/table.rs`, `src/memory_store.rs`: the store in memory, proved to be the model.
- `src/service_steps.rs`, `src/request_service.rs`, `src/service_model.rs`,
  `src/service_runtime.rs`, `src/service_laws.rs`, `src/processor.rs`: the service on top of any
  store, and its answers to clients.
- `src/mysql`: the operations of the store in a MySQL database. Each is a function from the
  answers so far to the next statement or the result (`requests`, `leases`, `appends`, `endings`,
  `events`, `context`). `tables` says what each statement does to the tables; the `*_outcomes`
  modules prove what each conversation comes to, `laws`, `growth_laws` and `page_laws` what
  holds of the tables, and `service_laws` what holds of the service over them.
- `src/threads`: threads and their histories in the same database, in the same way; `listing`
  says which threads are listed, and in which order.
- `src/scratch.rs`: directories in which read-only commands may write.
- `src/json.rs`, `src/ids.rs`: calls of `serde_json` and `uuid`. Together with one call of
  `chrono` in `src/threads/records.rs` they are all that is trusted.
- `app`: the database connection, the clock, the file system and the JSON forms of the messages.
- `tests`: what the library does on concrete values, among them conversations with databases
  that are kept in memory.
