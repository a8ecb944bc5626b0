//! Data carried between the gateway and its backing store.

use vstd::prelude::*;

verus! {

/// One registry entry: an experiment identifier and its scheme.
/// Identifiers are opaque strings compared by exact character equality;
/// the scheme is carried but never interpreted here.
pub struct Experiment {
    pub experiment_id: String,
    pub scheme: String,
}

/// One result record: the experiment it belongs to and the raw payload.
/// Every accepted submission appends a fresh row; rows are never deduplicated.
pub struct ResultRow {
    pub experiment_id: String,
    pub result: String,
}

/// A failure reported by the backing store. The variants keep the three
/// failure classes apart internally, but each carries only the textual
/// description that reaches the caller, so the public reply collapses
/// them into one failure outcome.
pub enum StoreError {
    Connectivity(String),
    Query(String),
    Decode(String),
}

impl StoreError {
    /// The textual description carried by the error, whichever class it is.
    pub open spec fn description_spec(&self) -> Seq<char> {
        match self {
            StoreError::Connectivity(s) => s@,
            StoreError::Query(s) => s@,
            StoreError::Decode(s) => s@,
        }
    }

    /// Returns the carried description.
    pub fn description(&self) -> (r: String)
        ensures
            r@ == self.description_spec(),
    {
        match self {
            StoreError::Connectivity(s) => s.clone(),
            StoreError::Query(s) => s.clone(),
            StoreError::Decode(s) => s.clone(),
        }
    }
}

/// An in-memory store offering the same two capabilities the gateway
/// needs from its backing store: read the whole registry, append one
/// result row. It backs the end-to-end pipeline and lets a caller run
/// the gateway without any external store.
pub struct MemStore {
    pub experiments: Vec<Experiment>,
    pub results: Vec<ResultRow>,
}

impl MemStore {
    /// A store with an empty registry and no results.
    pub fn new() -> (s: MemStore)
        ensures
            s.experiments@.len() == 0,
            s.results@.len() == 0,
    {
        MemStore { experiments: Vec::new(), results: Vec::new() }
    }

    /// Appends one result row; the registry is untouched. Append only:
    /// an existing equal row is never merged or replaced.
    pub fn append_result(&mut self, row: ResultRow)
        ensures
            final(self).experiments@ == old(self).experiments@,
            final(self).results@ == old(self).results@.push(row),
    {
        self.results.push(row);
    }
}

} // verus!
