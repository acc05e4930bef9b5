//! The in-memory cache of the store: per database, its records by key.
use vstd::prelude::*;
use dashmap::DashMap;
use serde_json::Value;
use std::sync::Arc;

verus! {

/// `dashmap::DashMap`, the concurrent map the cache is kept in.
#[verifier::external_type_specification]
#[verifier::external_body]
#[verifier::reject_recursive_types(K)]
#[verifier::reject_recursive_types(V)]
#[verifier::reject_recursive_types(S)]
pub struct ExDashMap<K, V, S>(DashMap<K, V, S>);

/// `serde_json::Value`, a record in the cache.
#[verifier::external_type_specification]
#[verifier::external_body]
pub struct ExJsonValue(Value);

/// The names of the databases that the cache map `db` holds.
pub uninterp spec fn cached_databases(db: DashMap<String, DashMap<String, Value>>) -> Set<
    Seq<char>,
>;

/// Calls `DashMap::new`, which makes a map with no entries: the cache holds no
/// database.
#[verifier::external_body]
fn empty_cache() -> (r: DashMap<String, DashMap<String, Value>>)
    ensures
        cached_databases(r) == Set::<Seq<char>>::empty(),
{
    DashMap::new()
}

/// The in-memory cache: per database, its records by key.
pub struct Memory {
    db: Arc<DashMap<String, DashMap<String, Value>>>,
}

impl Memory {
    /// The names of the databases the cache holds.
    pub closed spec fn databases(&self) -> Set<Seq<char>> {
        cached_databases(*self.db)
    }

    /// A fresh cache, holding no database.
    pub fn new() -> (m: Memory)
        ensures
            m.databases() == Set::<Seq<char>>::empty(),
    {
        Memory { db: Arc::new(empty_cache()) }
    }
}

} // verus!
