//! Fetch-a-random-line pipeline: resolve configuration, build a blob-store
//! client, and turn an object's bytes into one uniformly chosen line wrapped
//! in a fixed response envelope.

pub mod client;
pub mod config;
pub mod envelope;
pub mod errors;
pub mod lines;
pub mod select;
