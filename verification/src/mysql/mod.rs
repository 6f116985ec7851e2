//! Request state kept in a MySQL database.
pub mod append_outcomes;
pub mod appends;
pub mod common;
pub mod context;
pub mod conversations;
pub mod ending_outcomes;
pub mod endings;
pub mod event_outcomes;
pub mod events;
pub mod failure_laws;
pub mod growth_laws;
pub mod laws;
pub mod lease_outcomes;
pub mod leases;
pub mod operation_laws;
pub mod page_laws;
pub mod read_outcomes;
pub mod request_outcomes;
pub mod requests;
pub mod rows;
pub mod schema;
pub mod service_laws;
pub mod statements;
pub mod tables;
