//! Error types of the resolution pipeline.
//!
//! Per-subgraph failures are always aggregated: a configuration-level
//! resolution returns every subgraph's error, never just the first.

use vstd::prelude::*;

use crate::federation::FederationVersion;

verus! {

/// Why a single subgraph failed to resolve.
#[derive(Debug, PartialEq, Eq)]
pub enum ResolveSubgraphError {
    /// A file-backed subgraph was resolved without a configuration root
    /// directory to resolve its path against.
    SupergraphConfigMissing,
    /// A file path could not be resolved against the configuration root.
    FileResolution { subgraph_name: String, cause: String },
    /// A remote reference was not of the form `name@variant`.
    InvalidGraphRef { graph_ref: String },
    /// The registry lookup for a remote subgraph failed.
    FetchRemoteSdlError { subgraph_name: String, cause: String },
    /// The introspection query against a subgraph endpoint failed.
    IntrospectionError { subgraph_name: String, cause: String },
    /// Reading a schema file failed.
    Fs { cause: String },
}

/// Why a whole supergraph configuration failed to resolve.
#[derive(Debug, PartialEq, Eq)]
pub enum ResolveSupergraphConfigError {
    /// Per-subgraph failures, one entry per failing subgraph.
    ResolveSubgraphs(Vec<ResolveSubgraphError>),
    /// The caller pinned a federation version that is below what some
    /// subgraphs use; every offending subgraph is named.
    FederationVersionMismatch {
        specified_federation_version: FederationVersion,
        subgraph_names: Vec<String>,
    },
}

/// A user-facing error: a rendered message.
#[derive(Debug, PartialEq, Eq)]
pub struct RoverError {
    pub message: String,
}

impl RoverError {
    /// Wraps a rendered message.
    pub fn new(message: String) -> (r: RoverError)
        ensures
            r == (RoverError { message }),
    {
        RoverError { message }
    }

    /// The rendered message.
    pub fn message(&self) -> (r: &String)
        ensures
            r == &self.message,
    {
        &self.message
    }
}

impl View for ResolveSubgraphError {
    type V = ResolveSubgraphError;

    open spec fn view(&self) -> ResolveSubgraphError {
        *self
    }
}

} // verus!
