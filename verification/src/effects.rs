//! Injected capabilities: the file, network and registry effects the resolver
//! depends on.
//!
//! Each capability is a trait that callers implement outside the library (a
//! real client, or a test double).  The traits promise nothing: every
//! function that calls one states only what holds of its result whatever the
//! implementation returned, and hands the returned value to a verified
//! function with an exact contract.

use vstd::prelude::*;

use crate::graph_ref::GraphRef;

verus! {

/// A subgraph fetched from the schema registry.
pub struct RemoteSubgraph {
    pub name: String,
    pub routing_url: String,
    pub schema: String,
}

impl RemoteSubgraph {
    /// The subgraph's name in the registry.
    pub fn name(&self) -> (r: &String)
        ensures
            r == &self.name,
    {
        &self.name
    }

    /// The routing URL the registry holds for the subgraph.
    pub fn routing_url(&self) -> (r: &String)
        ensures
            r == &self.routing_url,
    {
        &self.routing_url
    }

    /// The subgraph's SDL.
    pub fn schema(&self) -> (r: &String)
        ensures
            r == &self.schema,
    {
        &self.schema
    }
}

/// Reads a file into a string.
pub trait ReadFile {
    /// Returns the file's contents, or a rendered cause on failure.
    fn read_file(&self, path: &str) -> Result<String, String>;
}

/// Resolves a possibly relative file path against a configuration root
/// directory, canonicalizing it and checking that the file exists.
pub trait ResolveFilePath {
    /// Returns the canonical absolute path, or a rendered cause on failure.
    fn resolve_file_path(&self, root: &str, path: &str) -> Result<String, String>;
}

/// Runs a full introspection query against a subgraph endpoint and converts
/// the result to SDL.
pub trait IntrospectSubgraph {
    /// Returns the endpoint's schema as SDL, or a rendered cause on failure.
    fn introspect_subgraph(
        &self,
        endpoint: &str,
        headers: &Vec<(String, String)>,
    ) -> Result<String, String>;
}

/// Looks a subgraph up in the schema registry.
pub trait FetchRemoteSubgraph {
    /// Returns the registry's copy of the subgraph, or a rendered cause on
    /// failure.
    fn fetch_remote_subgraph(
        &self,
        graph_ref: &GraphRef,
        subgraph_name: &str,
    ) -> Result<RemoteSubgraph, String>;
}

} // verus!
