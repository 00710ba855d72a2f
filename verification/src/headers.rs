//! The shared request-header store.
//!
//! Headers ride on every outgoing registration call and are read
//! concurrently by the shutdown path, so they live in a concurrency-safe
//! map from an outside crate.  The map itself is opaque here; its contents
//! are tracked through `map_entries` and the small trusted wrappers below.

use dashmap::DashMap;
use vstd::prelude::*;

verus! {

#[verifier::external_type_specification]
#[verifier::external_body]
#[verifier::reject_recursive_types(K)]
#[verifier::reject_recursive_types(V)]
#[verifier::reject_recursive_types(S)]
/// The concurrent map type of the dashmap crate, declared so that it can
/// stand in fields and signatures.
pub struct ExDashMap<K, V, S>(DashMap<K, V, S>);

/// What a header map holds: the key text of each entry mapped to its
/// value text.
pub uninterp spec fn map_entries(m: DashMap<String, String>) -> Map<Seq<char>, Seq<char>>;

/// The contents of a map with no entries.
pub open spec fn no_entries() -> Map<Seq<char>, Seq<char>> {
    Map::empty()
}

/// Relies on DashMap::new: creates a map with no entries.
#[verifier::external_body]
pub(crate) fn dash_new() -> (m: DashMap<String, String>)
    ensures
        map_entries(m) == no_entries(),
{
    DashMap::new()
}

/// Relies on DashMap::insert: maps the key to the value, replacing any
/// value the key had before.
#[verifier::external_body]
pub(crate) fn dash_insert(m: &mut DashMap<String, String>, key: String, value: String)
    ensures
        map_entries(*final(m)) == map_entries(*old(m)).insert(key@, value@),
{
    let _ = m.insert(key, value);
}

/// Relies on DashMap::get: returns a copy of the value the key maps to,
/// if the key is present.
#[verifier::external_body]
pub(crate) fn dash_get(m: &DashMap<String, String>, key: &str) -> (r: Option<String>)
    ensures
        r is Some <==> map_entries(*m).dom().contains(key@),
        r matches Some(v) ==> v@ == map_entries(*m)[key@],
{
    m.get(key).map(|e| e.value().clone())
}

} // verus!
