//! Messages between clients and the cloud runtime.
pub mod append;
pub mod config;
pub mod event;
pub mod laws;
pub mod request;
pub mod runtime;

pub use append::{
    AppendThreadItem, AppendThreadItemsWithLeaseParams, AppendThreadItemsWithLeaseResponse,
    ThreadItemRecord, ThreadItemsListParams, ThreadItemsListResponse,
};
pub use config::CloudRuntimeDefaults;
pub use event::{RequestEvent, RequestEventsListParams, RequestEventsListResponse};
pub use request::{
    ClientStreamEvent, RequestCancelParams, RequestCancelResponse, RequestReadParams,
    RequestReadResponse, RequestRecord, RequestRunParams, RequestRunResponse, RequestStatus,
    RequestStatusTransition, RequestTerminalParams, RequestTerminalResponse, TerminalSignal,
    WriterLeaseRecord,
};
pub use runtime::{DisabledCapability, RuntimeCapabilityProfile, RuntimeMode};
