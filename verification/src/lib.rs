//! Typed records for a media catalogue: the enumerations, value objects and
//! entities that a catalogue response is made of, and the decoding of JSON
//! trees into them.
//!
//! A record is decoded from a `serde_json::Value` by its `from_value`. What
//! decoding gives is stated over [`json::Json`], the mathematical model of a
//! JSON tree, and over the view of each record.
//!
//! An entity that was reached through another is a partial record. It names
//! the request for its full record with `load_request`; the caller performs
//! the request and hands the reply to `load_full`, which gives the full
//! record. The crate itself performs no input or output.

pub mod error;
pub mod fetch;
pub mod json;
pub mod laws;
pub mod models;
pub mod text;
