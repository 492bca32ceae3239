//! The persistence collaborator behind one external tool.
//!
//! Each tool owns a live configuration whose server-map section is read and
//! written as a whole. The collaborator that parses and persists that file
//! is abstracted here as a backend with two primitives: read the full map,
//! write the full map. Either primitive may fail; a backend held entirely in
//! memory never does, and says so through `infallible`.

use vstd::prelude::*;

use serde_json::Value;

use crate::server_map::ServerMap;

verus! {

/// A store for one external tool's server map.
pub trait McpBackend {
    /// The server map the backend currently holds.
    spec fn state(&self) -> Map<Seq<char>, Value>;

    /// Whether reads and writes on this backend always succeed.
    spec fn infallible(&self) -> bool;

    /// Read the backend's full server map.
    fn read_map(&self) -> (r: Result<ServerMap, String>)
        ensures
            (r matches Ok(m) ==> m@ == self.state()),
            self.infallible() ==> r is Ok,
        ;

    /// Replace the backend's full server map with `servers`.
    fn write_map(&mut self, servers: &ServerMap) -> (r: Result<(), String>)
        ensures
            r is Ok ==> final(self).state() == servers@,
            r is Err ==> final(self).state() == old(self).state(),
            old(self).infallible() ==> r is Ok && final(self).infallible(),
        ;
}

} // verus!
