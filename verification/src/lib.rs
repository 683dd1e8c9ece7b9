//! Idempotent start-up provisioning for document and relational stores:
//! configuration resolution, schema ensuring, default-record seeding and the
//! per-store pipeline that sequences them.
//!
//! The library decides; the caller performs the store operations it is told
//! to perform and reports back what happened.

pub mod config;
pub mod data;
pub mod identity;
pub mod models;
pub mod names;
pub mod orchestrator;
pub mod schema;
pub mod seed;
pub mod store_model;
