//! Ingestion of packaged dictionary archives: a zip container holding one
//! manifest member and numbered shard members, each a JSON file, is decoded
//! into a single validated in-memory dictionary.

pub mod analysis;
pub mod archive;
pub mod classify;
pub mod dictionary;
pub mod json;
pub mod text;
