//! The four reconciliation operations, shared by every tool.
//!
//! Each operation is one linear pass over a backend: read the current map,
//! compute the new map in memory, write the whole map back. A failed read
//! or a failed write aborts the operation and leaves the backend as it was;
//! nothing partial is ever persisted.

use vstd::prelude::*;

use serde_json::Value;

use crate::backend::McpBackend;
use crate::json::clone_value;
use crate::server_map::ServerMap;

verus! {

/// Merge the single entry `id -> server_spec` into the backend's map,
/// overwriting the entry under `id` and keeping every other entry as it was.
pub fn upsert_single<B: McpBackend>(backend: &mut B, id: &str, server_spec: &Value) -> (r: Result<
    (),
    String,
>)
    ensures
        r is Ok ==> final(backend).state() == old(backend).state().insert(id@, *server_spec),
        r is Err ==> final(backend).state() == old(backend).state(),
        old(backend).infallible() ==> r is Ok && final(backend).infallible(),
{
    match backend.read_map() {
        Ok(mut servers) => {
            servers.insert(id, clone_value(server_spec));
            backend.write_map(&servers)
        },
        Err(e) => Err(e),
    }
}

/// Take the entry under `id` out of the backend's map; succeed without a
/// change when no entry holds `id`.
pub fn remove_single<B: McpBackend>(backend: &mut B, id: &str) -> (r: Result<(), String>)
    ensures
        r is Ok ==> final(backend).state() == old(backend).state().remove(id@),
        r is Err ==> final(backend).state() == old(backend).state(),
        old(backend).infallible() ==> r is Ok && final(backend).infallible(),
{
    match backend.read_map() {
        Ok(mut servers) => {
            servers.remove(id);
            backend.write_map(&servers)
        },
        Err(e) => Err(e),
    }
}

/// Read the backend's full map back, unmodified and unvalidated, so that
/// raw entries survive an import. The backend is only read, never changed.
pub fn import_all<B: McpBackend>(backend: &B) -> (r: Result<ServerMap, String>)
    ensures
        (r matches Ok(m) ==> m@ == backend.state()),
        backend.infallible() ==> r is Ok,
{
    backend.read_map()
}

/// Overwrite the backend's map with `servers`: afterwards the backend holds
/// exactly `servers`, whatever it held before.
pub fn replace_all<B: McpBackend>(backend: &mut B, servers: &ServerMap) -> (r: Result<(), String>)
    ensures
        r is Ok ==> final(backend).state() == servers@,
        r is Err ==> final(backend).state() == old(backend).state(),
        old(backend).infallible() ==> r is Ok && final(backend).infallible(),
{
    backend.write_map(servers)
}

} // verus!
