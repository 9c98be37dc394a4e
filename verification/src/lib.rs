//! Typed record definitions for the result sets of a distributed SQL engine.
//!
//! The engine describes every output column of a statement by a symbol and a
//! textual type name. This crate classifies those type names into a closed set
//! of descriptors, turns column lists into record definitions, renders the
//! definitions as source text, and decodes the engine's JSON wire values
//! against them.
//!
//! - [`types`] classifies type names.
//! - [`explain`] reads the column list out of an EXPLAIN plan.
//! - [`record`] builds and renders record definitions.
//! - [`utils`] generates a record from a column list in one step and holds
//!   the decode strategies.
//! - [`decode`] decodes fields and rows.
//! - [`json`] holds JSON values and reads JSON text.
//! - [`client`] holds the settings of a connection and the paging decisions
//!   of a client.
//! - [`text`] holds the helpers on characters and numerals.
//!
//! Every function is verified against its contract. What is taken on trust
//! is said where it stands: the calls into `serde_json`, `chrono`,
//! `data-encoding`, `bigdecimal` and `uuid`, and the standard library's
//! uppercase mapping.

pub mod client;
pub mod decode;
pub mod explain;
pub mod json;
pub mod record;
pub mod text;
pub mod types;
pub mod utils;
