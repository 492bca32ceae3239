//! Reconciliation of a registry of MCP server definitions with the live
//! configuration of two external tools.
//!
//! Each tool keeps a mapping from server identifier to server specification
//! inside its own configuration file. This library holds the merge semantics
//! layered on top of that mapping: merge one entry in (upsert), take one
//! entry out, replace the whole mapping, or read the whole mapping back.
//! Parsing and persisting the configuration files themselves is left to the
//! surrounding application, which hands the library the current mapping and
//! stores what comes back.

pub mod adapter;
pub mod backend;
pub mod claude;
pub mod gemini;
pub mod json;
pub mod laws;
pub mod server_map;
