//! Correlation and aggregation of wearable-sensor telemetry.
pub mod config;
pub mod correlate;
pub mod ident;
pub mod json;
pub mod models;
pub mod reply;
pub mod sleep_query;
pub mod store;
pub mod text;
pub mod time;
pub mod trends;
pub mod upload;
