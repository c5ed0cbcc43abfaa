//! The decisions of a small SQLite-backed web service: how writes are
//! admitted and answered, how the single writer drains, how the process
//! starts, serves and shuts down, how the replication barrier decides, how
//! the contention lab classifies attempts, and the HTML that the dashboard
//! serves.
pub mod text;
pub mod database;
pub mod startup;
pub mod replication;
pub mod routes;
pub mod dashboard;
