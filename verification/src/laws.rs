//! The reconciliation laws, stated over the map model that every adapter
//! contract speaks in.
//!
//! Each operation's `ensures` relates the backend's state before and after
//! one call; the lemmas here chain those relations together, so that what
//! holds of a sequence of calls — an upsert followed by an import, a
//! removal on an initialised backend, the same upsert twice — is itself
//! written down and proved.

use vstd::prelude::*;

use serde_json::Value;

verus! {

/// Upserting `id -> server_spec` and then importing yields a map that
/// holds `server_spec` under `id`, with every other entry as it was.
pub proof fn lemma_upsert_then_import(m: Map<Seq<char>, Value>, id: Seq<char>, server_spec: Value)
    ensures
        m.insert(id, server_spec).contains_key(id),
        m.insert(id, server_spec)[id] == server_spec,
        forall|k: Seq<char>| k != id && m.contains_key(k) ==>
            m.insert(id, server_spec).contains_key(k)
                && m.insert(id, server_spec)[k] == m[k],
{
}

/// Removing an id that the map does not hold leaves the map unchanged.
pub proof fn lemma_remove_absent(m: Map<Seq<char>, Value>, id: Seq<char>)
    requires
        !m.contains_key(id),
    ensures
        m.remove(id) == m,
{
    assert(m.remove(id) =~= m);
}

/// Removing an id the map holds yields the map minus exactly that id:
/// every other entry is untouched.
pub proof fn lemma_remove_present(m: Map<Seq<char>, Value>, id: Seq<char>)
    requires
        m.contains_key(id),
    ensures
        !m.remove(id).contains_key(id),
        m.remove(id).dom() == m.dom().remove(id),
        forall|k: Seq<char>| k != id && m.contains_key(k) ==>
            m.remove(id).contains_key(k) && m.remove(id)[k] == m[k],
{
}

/// Upserting the same entry twice in succession ends in the same state as
/// upserting it once.
pub proof fn lemma_upsert_idempotent(m: Map<Seq<char>, Value>, id: Seq<char>, server_spec: Value)
    ensures
        m.insert(id, server_spec).insert(id, server_spec) == m.insert(id, server_spec),
{
    assert(m.insert(id, server_spec).insert(id, server_spec) =~= m.insert(id, server_spec));
}

/// A full replacement erases the prior state: after `replace_all(servers)`
/// the backend holds exactly `servers`, and an import then returns exactly
/// `servers`, whatever the backend held before.
pub proof fn lemma_replace_then_import(
    prior: Map<Seq<char>, Value>,
    servers: Map<Seq<char>, Value>,
    replaced: Map<Seq<char>, Value>,
    imported: Map<Seq<char>, Value>,
)
    requires
        replaced == servers,
        imported == replaced,
    ensures
        imported == servers,
{
}

/// An import is pure: it returns exactly the backend's state, so two
/// imports from one unchanged backend return identical maps.
pub proof fn lemma_import_pure(
    state: Map<Seq<char>, Value>,
    first: Map<Seq<char>, Value>,
    second: Map<Seq<char>, Value>,
)
    requires
        first == state,
        second == state,
    ensures
        first == second,
{
}

} // verus!
