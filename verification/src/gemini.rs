//! Synchronisation with and import from the second tool's live configuration.
//!
//! The structure mirrors the other adapter entry for entry: the two tools
//! differ only in which live configuration the surrounding application
//! loads and persists around each operation.

use vstd::prelude::*;

use serde_json::Value;

use crate::adapter::{import_all, remove_single, replace_all, upsert_single};
use crate::backend::McpBackend;
use crate::server_map::ServerMap;

verus! {

/// The server-map section of this tool's live configuration.
pub struct GeminiConfig {
    servers: ServerMap,
}

impl View for GeminiConfig {
    type V = Map<Seq<char>, Value>;

    closed spec fn view(&self) -> Map<Seq<char>, Value> {
        self.servers@
    }
}

impl GeminiConfig {
    /// A configuration that starts out holding `servers`.
    pub fn new(servers: ServerMap) -> (r: GeminiConfig)
        ensures
            r@ == servers@,
    {
        GeminiConfig { servers }
    }
}

impl McpBackend for GeminiConfig {
    open spec fn state(&self) -> Map<Seq<char>, Value> {
        self@
    }

    open spec fn infallible(&self) -> bool {
        true
    }

    fn read_map(&self) -> (r: Result<ServerMap, String>) {
        Ok(self.servers.duplicate())
    }

    fn write_map(&mut self, servers: &ServerMap) -> (r: Result<(), String>) {
        self.servers = servers.duplicate();
        Ok(())
    }
}

/// Merge one MCP server into this tool's live configuration: afterwards it
/// holds `id -> server_spec` and every other entry as it was.
pub fn sync_single_server_to_gemini(config: &mut GeminiConfig, id: &str, server_spec: &Value) -> (r:
    Result<(), String>)
    ensures
        r is Ok,
        final(config)@ == old(config)@.insert(id@, *server_spec),
{
    upsert_single(config, id, server_spec)
}

/// Take one MCP server out of this tool's live configuration; succeed
/// without a change when no entry holds `id`.
pub fn remove_server_from_gemini(config: &mut GeminiConfig, id: &str) -> (r: Result<(), String>)
    ensures
        r is Ok,
        final(config)@ == old(config)@.remove(id@),
{
    remove_single(config, id)
}

/// Read the full server map back from this tool's live configuration,
/// unmodified and unvalidated, so that raw entries survive the import.
pub fn import_from_gemini(config: &GeminiConfig) -> (r: Result<ServerMap, String>)
    ensures
        r is Ok,
        (r matches Ok(m) ==> m@ == config@),
{
    import_all(config)
}

/// Overwrite this tool's live configuration's server map with `servers`.
pub fn sync_servers_to_gemini(config: &mut GeminiConfig, servers: &ServerMap) -> (r: Result<
    (),
    String,
>)
    ensures
        r is Ok,
        final(config)@ == servers@,
{
    replace_all(config, servers)
}

} // verus!
