//! Request state of a cloud runtime: requests, the writer leases under which they append to
//! threads, their events, and the threads themselves, in memory and in a MySQL database.
pub mod answer_laws;
pub mod clock;
pub mod ids;
pub mod invariants;
pub mod json;
pub mod laws;
pub mod memory_store;
pub mod model;
pub mod mysql;
pub mod operation_laws;
pub mod pages;
pub mod processor;
pub mod protocol;
pub mod records;
pub mod request_service;
pub mod request_store;
pub mod runtime_laws;
pub mod scratch;
pub mod service_laws;
pub mod service_model;
pub mod service_runtime;
pub mod service_steps;
pub mod table;
pub mod text;
pub mod threads;
pub mod view_laws;

pub use memory_store::InMemoryCloudStateStore;
pub use mysql::schema::MysqlCloudStateSchema;
pub use records::{
    CloudStateError, ConfigSnapshotRecord, CreateRequestParams, EventAppendParams, EventRecord,
    EventsPage, LeaseAcquireOutcome, LeaseAppendParams, RequestRecord, StateMetadataRecord,
    TerminalStatusUpdate,
};
pub use request_service::CloudRequestService;
pub use request_store::CloudStateStore;
pub use service_runtime::CloudRequestServiceRuntime;
