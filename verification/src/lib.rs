//! Verified core of the Speculare monitoring server: request validation,
//! error reporting, ingestion of host reports and the ownership checks that
//! guard the HTTP API.

pub mod errors;
pub mod granularity;
pub mod alerts;
pub mod api;
pub mod counts;
pub mod ingest;
pub mod oauth;
pub mod ids;
pub mod text;
pub mod query;
pub mod reply;
pub mod auth;
