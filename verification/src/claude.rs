//! Synchronisation with and import from the first tool's live configuration.
//!
//! `ClaudeConfig` is the server-map section of that configuration, held in
//! memory. The surrounding application loads it from the tool's file before
//! an operation and persists it afterwards; on the in-memory copy itself a
//! read or write cannot fail, so every operation here is guaranteed to
//! succeed.

use vstd::prelude::*;

use serde_json::Value;

use crate::adapter::{import_all, remove_single, replace_all, upsert_single};
use crate::backend::McpBackend;
use crate::server_map::ServerMap;

verus! {

/// The server-map section of this tool's live configuration.
pub struct ClaudeConfig {
    servers: ServerMap,
}

impl View for ClaudeConfig {
    type V = Map<Seq<char>, Value>;

    closed spec fn view(&self) -> Map<Seq<char>, Value> {
        self.servers@
    }
}

impl ClaudeConfig {
    /// A configuration that starts out holding `servers`.
    pub fn new(servers: ServerMap) -> (r: ClaudeConfig)
        ensures
            r@ == servers@,
    {
        ClaudeConfig { servers }
    }
}

impl McpBackend for ClaudeConfig {
    open spec fn state(&self) -> Map<Seq<char>, Value> {
        self@
    }

    open spec fn infallible(&self) -> bool {
        true
    }

    fn read_map(&self) -> (r: Result<ServerMap, String>) {
        Ok(self.servers.duplicate())
    }

    fn write_map(&mut self, servers: &ServerMap) -> (r: Result<(), String>) {
        self.servers = servers.duplicate();
        Ok(())
    }
}

/// Merge one MCP server into this tool's live configuration: afterwards it
/// holds `id -> server_spec` and every other entry as it was.
pub fn sync_single_server_to_claude(config: &mut ClaudeConfig, id: &str, server_spec: &Value) -> (r:
    Result<(), String>)
    ensures
        r is Ok,
        final(config)@ == old(config)@.insert(id@, *server_spec),
{
    upsert_single(config, id, server_spec)
}

/// Take one MCP server out of this tool's live configuration; succeed
/// without a change when no entry holds `id`.
pub fn remove_server_from_claude(config: &mut ClaudeConfig, id: &str) -> (r: Result<(), String>)
    ensures
        r is Ok,
        final(config)@ == old(config)@.remove(id@),
{
    remove_single(config, id)
}

/// Read the full server map back from this tool's live configuration,
/// unmodified and unvalidated, so that raw entries survive the import.
pub fn import_from_claude(config: &ClaudeConfig) -> (r: Result<ServerMap, String>)
    ensures
        r is Ok,
        (r matches Ok(m) ==> m@ == config@),
{
    import_all(config)
}

/// Overwrite this tool's live configuration's server map with `servers`.
pub fn sync_servers_to_claude(config: &mut ClaudeConfig, servers: &ServerMap) -> (r: Result<
    (),
    String,
>)
    ensures
        r is Ok,
        final(config)@ == servers@,
{
    replace_all(config, servers)
}

} // verus!
