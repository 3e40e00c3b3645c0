//! Verified core of the `rafn` benchmark uploader: configuration
//! resolution, framework planning, result ingestion, snapshot bookkeeping
//! and the regression comparison.
pub mod floatbits;
pub mod text;
pub mod comparison;
pub mod config;
pub mod proto;
pub mod git;
pub mod framework;
pub mod store;
pub mod ingest;
pub mod commands;
pub mod lock;
pub mod record;
pub mod discovery;
pub mod json;
