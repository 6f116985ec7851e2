//! Threads kept in a MySQL database.
pub mod errors;
pub mod failure_laws;
pub mod laws;
pub mod listing;
pub mod operation_laws;
pub mod operations;
pub mod outcomes;
pub mod record_laws;
pub mod records;
pub mod statements;
pub mod tables;
pub mod turn_ids;
pub mod view_laws;
