//! Typed client logic for a news-aggregation HTTP service: query encoding,
//! request planning, response decoding and outcome classification.
pub mod query;
pub mod laws;
pub mod document;
pub mod records;
pub mod decode;
pub mod client;
