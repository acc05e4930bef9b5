//! The records that statements carry into the store.
use vstd::prelude::*;

verus! {

/// One JSON record for the store (column family) `cf`.
#[derive(Debug)]
pub struct CfData {
    pub cf: String,
    pub data: String,
}

/// Several JSON records for the store (column family) `cf`.
#[derive(Debug)]
pub struct CfDataArray {
    pub cf: String,
    pub data: Vec<String>,
}

/// A store (column family) to create: its name, the keys that must be unique,
/// and whether it is kept in memory.
#[derive(Debug)]
pub struct CfWithInfo {
    pub name: String,
    pub unique_key: Vec<String>,
    pub in_memory: bool,
}

} // verus!
