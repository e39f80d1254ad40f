//! Subgraphs at their three resolution depths.
//!
//! A subgraph starts unresolved (a name, a schema source and an optional
//! routing URL), becomes lazily resolved once any file path has been fixed
//! against the configuration root, and fully resolved once its schema has
//! been read, fetched or introspected down to SDL text.
//!
//! Each stage's worker is split in two layers.  An outer function calls the
//! injected capability and states what holds of its result whatever came
//! back; an inner function takes the capability's outcome as an argument and
//! has an exact contract for every value of it.

use vstd::prelude::*;

use crate::effects::{FetchRemoteSubgraph, IntrospectSubgraph, ReadFile, RemoteSubgraph,
    ResolveFilePath};
use crate::errors::ResolveSubgraphError;
use crate::federation::{schema_contains_link_directive, sdl_is_fed_two};
use crate::graph_ref::{graph_ref_parts, GraphRef};

verus! {

/// Where a subgraph's schema comes from.
#[derive(Debug, PartialEq, Eq)]
pub enum SchemaSource {
    /// An SDL file on disk, watched for changes.
    File { file: String },
    /// A GraphQL endpoint with introspection enabled, polled for changes.
    SubgraphIntrospection { subgraph_url: String, introspection_headers: Option<Vec<(String, String)>> },
    /// A subgraph of a graph variant in the registry, fetched once.
    Subgraph { graphref: String, subgraph: String },
    /// Inline SDL text, emitted once.
    Sdl { sdl: String },
}

/// One subgraph's entry in an external supergraph configuration.
#[derive(Debug, PartialEq, Eq)]
pub struct SubgraphConfig {
    pub routing_url: Option<String>,
    pub schema: SchemaSource,
}

/// A subgraph as loaded from configuration, before any resolution.
#[derive(Debug, PartialEq, Eq)]
pub struct UnresolvedSubgraph {
    pub name: String,
    pub schema: SchemaSource,
    pub routing_url: Option<String>,
}

/// A subgraph whose file path, if any, has been fixed against the
/// configuration root.
#[derive(Debug, PartialEq, Eq)]
pub struct LazilyResolvedSubgraph {
    pub routing_url: Option<String>,
    pub schema: SchemaSource,
}

/// A subgraph resolved down to SDL text.
#[derive(Debug, PartialEq, Eq)]
pub struct FullyResolvedSubgraph {
    pub routing_url: Option<String>,
    pub schema: String,
    pub is_fed_two: bool,
}

impl View for SchemaSource {
    type V = SchemaSource;

    open spec fn view(&self) -> SchemaSource {
        *self
    }
}

impl View for SubgraphConfig {
    type V = SubgraphConfig;

    open spec fn view(&self) -> SubgraphConfig {
        *self
    }
}

impl View for UnresolvedSubgraph {
    type V = UnresolvedSubgraph;

    open spec fn view(&self) -> UnresolvedSubgraph {
        *self
    }
}

impl View for LazilyResolvedSubgraph {
    type V = LazilyResolvedSubgraph;

    open spec fn view(&self) -> LazilyResolvedSubgraph {
        *self
    }
}

impl View for FullyResolvedSubgraph {
    type V = FullyResolvedSubgraph;

    open spec fn view(&self) -> FullyResolvedSubgraph {
        *self
    }
}

/// Two schema sources are alike: the same kind with the same texts; any
/// introspection headers hold the same pairs in the same order.
pub open spec fn schema_source_like(a: SchemaSource, b: SchemaSource) -> bool {
    match (a, b) {
        (SchemaSource::File { file: f1 }, SchemaSource::File { file: f2 }) => f1 == f2,
        (
            SchemaSource::SubgraphIntrospection {
                subgraph_url: u1,
                introspection_headers: h1,
            },
            SchemaSource::SubgraphIntrospection {
                subgraph_url: u2,
                introspection_headers: h2,
            },
        ) => u1 == u2 && match (h1, h2) {
            (None, None) => true,
            (Some(a1), Some(b1)) => a1@ == b1@,
            _ => false,
        },
        (
            SchemaSource::Subgraph { graphref: g1, subgraph: s1 },
            SchemaSource::Subgraph { graphref: g2, subgraph: s2 },
        ) => g1 == g2 && s1 == s2,
        (SchemaSource::Sdl { sdl: s1 }, SchemaSource::Sdl { sdl: s2 }) => s1 == s2,
        _ => false,
    }
}

impl SchemaSource {
    /// Copies the source; the copy is alike in every part.
    pub fn duplicate(&self) -> (r: SchemaSource)
        ensures
            schema_source_like(r, *self),
    {
        match self {
            SchemaSource::File { file } => SchemaSource::File { file: file.clone() },
            SchemaSource::SubgraphIntrospection { subgraph_url, introspection_headers } => {
                let headers = match introspection_headers {
                    None => None,
                    Some(hs) => {
                        let n = hs.len();
                        let mut out: Vec<(String, String)> = Vec::new();
                        let mut i: usize = 0;
                        while i < n
                            invariant
                                0 <= i <= n,
                                n == hs@.len(),
                                out@.len() == i,
                                forall|j: int| 0 <= j < i ==> out@[j] == hs@[j],
                            decreases n - i,
                        {
                            out.push((hs[i].0.clone(), hs[i].1.clone()));
                            i = i + 1;
                        }
                        proof {
                            assert(out@ =~= hs@);
                        }
                        Some(out)
                    }
                };
                SchemaSource::SubgraphIntrospection {
                    subgraph_url: subgraph_url.clone(),
                    introspection_headers: headers,
                }
            }
            SchemaSource::Subgraph { graphref, subgraph } => SchemaSource::Subgraph {
                graphref: graphref.clone(),
                subgraph: subgraph.clone(),
            },
            SchemaSource::Sdl { sdl } => SchemaSource::Sdl { sdl: sdl.clone() },
        }
    }
}

impl SubgraphConfig {
    /// Copies the configuration entry; the copy is alike in every part.
    pub fn duplicate(&self) -> (r: SubgraphConfig)
        ensures
            r.routing_url == self.routing_url,
            schema_source_like(r.schema, self.schema),
    {
        let routing_url = match &self.routing_url {
            Some(u) => Some(u.clone()),
            None => None,
        };
        SubgraphConfig { routing_url, schema: self.schema.duplicate() }
    }
}

impl UnresolvedSubgraph {
    /// Pairs a configuration entry with the name it is stored under.
    pub fn new(name: String, config: SubgraphConfig) -> (r: UnresolvedSubgraph)
        ensures
            r == (UnresolvedSubgraph {
                name,
                schema: config.schema,
                routing_url: config.routing_url,
            }),
    {
        UnresolvedSubgraph { name, schema: config.schema, routing_url: config.routing_url }
    }
}

impl LazilyResolvedSubgraph {
    /// Builds the lazily resolved stage from the outcome of fixing a file
    /// path against the configuration root.
    pub fn from_resolved_path(
        name: &String,
        routing_url: Option<String>,
        outcome: Result<String, String>,
    ) -> (r: Result<LazilyResolvedSubgraph, ResolveSubgraphError>)
        ensures
            match outcome {
                Ok(path) => r == Ok::<LazilyResolvedSubgraph, ResolveSubgraphError>(
                    LazilyResolvedSubgraph { routing_url, schema: SchemaSource::File { file: path } },
                ),
                Err(cause) => r == Err::<LazilyResolvedSubgraph, ResolveSubgraphError>(
                    ResolveSubgraphError::FileResolution { subgraph_name: *name, cause },
                ),
            },
    {
        match outcome {
            Ok(path) => Ok(
                LazilyResolvedSubgraph { routing_url, schema: SchemaSource::File { file: path } },
            ),
            Err(cause) => Err(
                ResolveSubgraphError::FileResolution { subgraph_name: name.clone(), cause },
            ),
        }
    }

    /// Resolves one subgraph lazily: a file source has its path fixed against
    /// the configuration root through the injected capability, every other
    /// source passes through unchanged.
    pub fn resolve<P: ResolveFilePath>(
        resolve_file_path_impl: &P,
        supergraph_config_root: &String,
        unresolved_subgraph: UnresolvedSubgraph,
    ) -> (r: Result<LazilyResolvedSubgraph, ResolveSubgraphError>)
        ensures
            match unresolved_subgraph.schema {
                SchemaSource::File { .. } => match r {
                    Ok(resolved) => resolved.routing_url == unresolved_subgraph.routing_url
                        && resolved.schema matches SchemaSource::File { .. },
                    Err(e) => e matches ResolveSubgraphError::FileResolution {
                        subgraph_name,
                        ..
                    } && subgraph_name == unresolved_subgraph.name,
                },
                _ => r == Ok::<LazilyResolvedSubgraph, ResolveSubgraphError>(
                    LazilyResolvedSubgraph {
                        routing_url: unresolved_subgraph.routing_url,
                        schema: unresolved_subgraph.schema,
                    },
                ),
            },
    {
        match unresolved_subgraph.schema {
            SchemaSource::File { file } => {
                let outcome = resolve_file_path_impl.resolve_file_path(
                    supergraph_config_root.as_str(),
                    file.as_str(),
                );
                LazilyResolvedSubgraph::from_resolved_path(
                    &unresolved_subgraph.name,
                    unresolved_subgraph.routing_url,
                    outcome,
                )
            }
            schema => Ok(
                LazilyResolvedSubgraph { routing_url: unresolved_subgraph.routing_url, schema },
            ),
        }
    }
}

impl FullyResolvedSubgraph {
    /// Builds a fully resolved subgraph, defaulting the federation tier flag
    /// to false when it is not given.
    pub fn new(schema: String, routing_url: Option<String>, is_fed_two: Option<bool>) -> (r:
        FullyResolvedSubgraph)
        ensures
            r == (FullyResolvedSubgraph {
                schema,
                routing_url,
                is_fed_two: match is_fed_two {
                    Some(b) => b,
                    None => false,
                },
            }),
    {
        let fed_two = match is_fed_two {
            Some(b) => b,
            None => false,
        };
        FullyResolvedSubgraph { schema, routing_url, is_fed_two: fed_two }
    }

    /// Resolves inline SDL: the text passes through and its federation tier
    /// is derived by the directive scan; inline sources carry no routing URL.
    pub fn resolve_sdl(sdl: &String) -> (r: Result<FullyResolvedSubgraph, ResolveSubgraphError>)
        ensures
            r == Ok::<FullyResolvedSubgraph, ResolveSubgraphError>(
                FullyResolvedSubgraph {
                    routing_url: None,
                    schema: *sdl,
                    is_fed_two: sdl_is_fed_two(sdl@),
                },
            ),
    {
        let is_fed_two = schema_contains_link_directive(sdl.as_str());
        Ok(FullyResolvedSubgraph { routing_url: None, schema: sdl.clone(), is_fed_two })
    }

    /// Builds the fully resolved stage from the outcome of reading a schema
    /// file.
    pub fn from_file_contents(
        routing_url: Option<String>,
        outcome: Result<String, String>,
    ) -> (r: Result<FullyResolvedSubgraph, ResolveSubgraphError>)
        ensures
            match outcome {
                Ok(schema) => r == Ok::<FullyResolvedSubgraph, ResolveSubgraphError>(
                    FullyResolvedSubgraph {
                        routing_url,
                        schema,
                        is_fed_two: sdl_is_fed_two(schema@),
                    },
                ),
                Err(cause) => r == Err::<FullyResolvedSubgraph, ResolveSubgraphError>(
                    ResolveSubgraphError::Fs { cause },
                ),
            },
    {
        match outcome {
            Ok(schema) => {
                let is_fed_two = schema_contains_link_directive(schema.as_str());
                Ok(FullyResolvedSubgraph { routing_url, schema, is_fed_two })
            }
            Err(cause) => Err(ResolveSubgraphError::Fs { cause }),
        }
    }

    /// Builds the fully resolved stage from the outcome of an introspection
    /// query; a subgraph without an explicit routing URL defaults to the
    /// introspection endpoint.
    pub fn from_introspection(
        subgraph_name: &String,
        routing_url: Option<String>,
        subgraph_url: &String,
        outcome: Result<String, String>,
    ) -> (r: Result<FullyResolvedSubgraph, ResolveSubgraphError>)
        ensures
            match outcome {
                Ok(schema) => r == Ok::<FullyResolvedSubgraph, ResolveSubgraphError>(
                    FullyResolvedSubgraph {
                        routing_url: match routing_url {
                            Some(u) => Some(u),
                            None => Some(*subgraph_url),
                        },
                        schema,
                        is_fed_two: sdl_is_fed_two(schema@),
                    },
                ),
                Err(cause) => r == Err::<FullyResolvedSubgraph, ResolveSubgraphError>(
                    ResolveSubgraphError::IntrospectionError { subgraph_name: *subgraph_name, cause },
                ),
            },
    {
        match outcome {
            Ok(schema) => {
                let is_fed_two = schema_contains_link_directive(schema.as_str());
                let routing_url = match routing_url {
                    Some(u) => Some(u),
                    None => Some(subgraph_url.clone()),
                };
                Ok(FullyResolvedSubgraph { routing_url, schema, is_fed_two })
            }
            Err(cause) => Err(
                ResolveSubgraphError::IntrospectionError {
                    subgraph_name: subgraph_name.clone(),
                    cause,
                },
            ),
        }
    }

    /// Builds the fully resolved stage from the outcome of a registry lookup;
    /// a subgraph without an explicit routing URL defaults to the URL the
    /// registry holds.
    pub fn from_remote_subgraph(
        subgraph_name: &String,
        routing_url: Option<String>,
        outcome: Result<RemoteSubgraph, String>,
    ) -> (r: Result<FullyResolvedSubgraph, ResolveSubgraphError>)
        ensures
            match outcome {
                Ok(remote) => r == Ok::<FullyResolvedSubgraph, ResolveSubgraphError>(
                    FullyResolvedSubgraph {
                        routing_url: match routing_url {
                            Some(u) => Some(u),
                            None => Some(remote.routing_url),
                        },
                        schema: remote.schema,
                        is_fed_two: sdl_is_fed_two(remote.schema@),
                    },
                ),
                Err(cause) => r == Err::<FullyResolvedSubgraph, ResolveSubgraphError>(
                    ResolveSubgraphError::FetchRemoteSdlError {
                        subgraph_name: *subgraph_name,
                        cause,
                    },
                ),
            },
    {
        match outcome {
            Ok(remote) => {
                let is_fed_two = schema_contains_link_directive(remote.schema.as_str());
                let routing_url = match routing_url {
                    Some(u) => Some(u),
                    None => Some(remote.routing_url),
                };
                Ok(FullyResolvedSubgraph { routing_url, schema: remote.schema, is_fed_two })
            }
            Err(cause) => Err(
                ResolveSubgraphError::FetchRemoteSdlError {
                    subgraph_name: subgraph_name.clone(),
                    cause,
                },
            ),
        }
    }

    /// Resolves a remote subgraph: the reference is validated, the registry
    /// is asked through the injected capability, and the outcome is folded by
    /// [`FullyResolvedSubgraph::from_remote_subgraph`].
    pub fn resolve_subgraph<F: FetchRemoteSubgraph>(
        fetch_remote_subgraph_impl: &F,
        routing_url: Option<String>,
        graph_ref: &String,
        subgraph: &String,
    ) -> (r: Result<FullyResolvedSubgraph, ResolveSubgraphError>)
        ensures
            graph_ref_parts(graph_ref@) is None ==> r == Err::<
                FullyResolvedSubgraph,
                ResolveSubgraphError,
            >(ResolveSubgraphError::InvalidGraphRef { graph_ref: *graph_ref }),
            graph_ref_parts(graph_ref@) is Some ==> match r {
                Ok(resolved) => resolved.is_fed_two == sdl_is_fed_two(resolved.schema@) && (
                routing_url is Some ==> resolved.routing_url == routing_url),
                Err(e) => e matches ResolveSubgraphError::FetchRemoteSdlError {
                    subgraph_name,
                    ..
                } && subgraph_name == *subgraph,
            },
    {
        match GraphRef::parse(graph_ref.as_str()) {
            None => Err(ResolveSubgraphError::InvalidGraphRef { graph_ref: graph_ref.clone() }),
            Some(parsed) => {
                let outcome = fetch_remote_subgraph_impl.fetch_remote_subgraph(
                    &parsed,
                    subgraph.as_str(),
                );
                FullyResolvedSubgraph::from_remote_subgraph(subgraph, routing_url, outcome)
            }
        }
    }

    /// Resolves one lazily resolved subgraph down to SDL, dispatching on its
    /// source kind; file, introspection and registry sources go through the
    /// injected capabilities.
    pub fn fully_resolve<I: IntrospectSubgraph, F: FetchRemoteSubgraph, R: ReadFile>(
        introspect_subgraph_impl: &I,
        fetch_remote_subgraph_impl: &F,
        read_file_impl: &R,
        lazily_resolved_subgraph: LazilyResolvedSubgraph,
        subgraph_name: String,
    ) -> (r: Result<FullyResolvedSubgraph, ResolveSubgraphError>)
        ensures
            match lazily_resolved_subgraph.schema {
                SchemaSource::File { .. } => match r {
                    Ok(resolved) => resolved.routing_url == lazily_resolved_subgraph.routing_url
                        && resolved.is_fed_two == sdl_is_fed_two(resolved.schema@),
                    Err(e) => e matches ResolveSubgraphError::Fs { .. },
                },
                SchemaSource::SubgraphIntrospection { subgraph_url, .. } => match r {
                    Ok(resolved) => resolved.routing_url == (match lazily_resolved_subgraph
                        .routing_url {
                        Some(u) => Some(u),
                        None => Some(subgraph_url),
                    }) && resolved.is_fed_two == sdl_is_fed_two(resolved.schema@),
                    Err(e) => e matches ResolveSubgraphError::IntrospectionError {
                        subgraph_name: n,
                        ..
                    } && n == subgraph_name,
                },
                SchemaSource::Subgraph { graphref, subgraph } => {
                    &&& graph_ref_parts(graphref@) is None ==> r == Err::<
                        FullyResolvedSubgraph,
                        ResolveSubgraphError,
                    >(ResolveSubgraphError::InvalidGraphRef { graph_ref: graphref })
                    &&& graph_ref_parts(graphref@) is Some ==> match r {
                        Ok(resolved) => resolved.is_fed_two == sdl_is_fed_two(resolved.schema@)
                            && (lazily_resolved_subgraph.routing_url is Some ==> resolved
                            .routing_url == lazily_resolved_subgraph.routing_url),
                        Err(e) => e matches ResolveSubgraphError::FetchRemoteSdlError {
                            subgraph_name: n,
                            ..
                        } && n == subgraph,
                    }
                },
                SchemaSource::Sdl { sdl } => r == Ok::<
                    FullyResolvedSubgraph,
                    ResolveSubgraphError,
                >(FullyResolvedSubgraph {
                    routing_url: None,
                    schema: sdl,
                    is_fed_two: sdl_is_fed_two(sdl@),
                }),
            },
    {
        match lazily_resolved_subgraph.schema {
            SchemaSource::File { file } => {
                let outcome = read_file_impl.read_file(file.as_str());
                FullyResolvedSubgraph::from_file_contents(
                    lazily_resolved_subgraph.routing_url,
                    outcome,
                )
            }
            SchemaSource::SubgraphIntrospection { subgraph_url, introspection_headers } => {
                let headers = match introspection_headers {
                    Some(hs) => hs,
                    None => Vec::new(),
                };
                let outcome = introspect_subgraph_impl.introspect_subgraph(
                    subgraph_url.as_str(),
                    &headers,
                );
                FullyResolvedSubgraph::from_introspection(
                    &subgraph_name,
                    lazily_resolved_subgraph.routing_url,
                    &subgraph_url,
                    outcome,
                )
            }
            SchemaSource::Subgraph { graphref, subgraph } => {
                FullyResolvedSubgraph::resolve_subgraph(
                    fetch_remote_subgraph_impl,
                    lazily_resolved_subgraph.routing_url,
                    &graphref,
                    &subgraph,
                )
            }
            SchemaSource::Sdl { sdl } => FullyResolvedSubgraph::resolve_sdl(&sdl),
        }
    }

    /// Resolves one unresolved subgraph down to SDL in a single step,
    /// dispatching on its source kind exactly as
    /// [`FullyResolvedSubgraph::fully_resolve`] does.  A file source needs a
    /// configuration root; without one it fails with
    /// [`ResolveSubgraphError::SupergraphConfigMissing`].
    pub fn resolve<I: IntrospectSubgraph, F: FetchRemoteSubgraph, R: ReadFile, P: ResolveFilePath>(
        introspect_subgraph_impl: &I,
        fetch_remote_subgraph_impl: &F,
        read_file_impl: &R,
        resolve_file_path_impl: &P,
        supergraph_config_root: Option<&String>,
        unresolved_subgraph: UnresolvedSubgraph,
    ) -> (r: Result<FullyResolvedSubgraph, ResolveSubgraphError>)
        ensures
            match unresolved_subgraph.schema {
                SchemaSource::File { .. } => {
                    &&& supergraph_config_root is None ==> r == Err::<
                        FullyResolvedSubgraph,
                        ResolveSubgraphError,
                    >(ResolveSubgraphError::SupergraphConfigMissing)
                    &&& supergraph_config_root is Some ==> match r {
                        Ok(resolved) => resolved.routing_url == unresolved_subgraph.routing_url
                            && resolved.is_fed_two == sdl_is_fed_two(resolved.schema@),
                        Err(e) => (e matches ResolveSubgraphError::Fs { .. }) || (e matches
                            ResolveSubgraphError::FileResolution { subgraph_name, .. }
                            && subgraph_name == unresolved_subgraph.name),
                    }
                },
                SchemaSource::SubgraphIntrospection { subgraph_url, .. } => match r {
                    Ok(resolved) => resolved.routing_url == (
                    match unresolved_subgraph.routing_url {
                        Some(u) => Some(u),
                        None => Some(subgraph_url),
                    }) && resolved.is_fed_two == sdl_is_fed_two(resolved.schema@),
                    Err(e) => e matches ResolveSubgraphError::IntrospectionError {
                        subgraph_name,
                        ..
                    } && subgraph_name == unresolved_subgraph.name,
                },
                SchemaSource::Subgraph { graphref, subgraph } => {
                    &&& graph_ref_parts(graphref@) is None ==> r == Err::<
                        FullyResolvedSubgraph,
                        ResolveSubgraphError,
                    >(ResolveSubgraphError::InvalidGraphRef { graph_ref: graphref })
                    &&& graph_ref_parts(graphref@) is Some ==> match r {
                        Ok(resolved) => resolved.is_fed_two == sdl_is_fed_two(resolved.schema@)
                            && (unresolved_subgraph.routing_url is Some ==> resolved.routing_url
                            == unresolved_subgraph.routing_url),
                        Err(e) => e matches ResolveSubgraphError::FetchRemoteSdlError {
                            subgraph_name,
                            ..
                        } && subgraph_name == subgraph,
                    }
                },
                SchemaSource::Sdl { sdl } => r == Ok::<
                    FullyResolvedSubgraph,
                    ResolveSubgraphError,
                >(FullyResolvedSubgraph {
                    routing_url: None,
                    schema: sdl,
                    is_fed_two: sdl_is_fed_two(sdl@),
                }),
            },
            r matches Ok(resolved) ==> resolved.is_fed_two == sdl_is_fed_two(resolved.schema@),
    {
        match unresolved_subgraph.schema {
            SchemaSource::File { file } => {
                match supergraph_config_root {
                    None => Err(ResolveSubgraphError::SupergraphConfigMissing),
                    Some(root) => {
                        let outcome = resolve_file_path_impl.resolve_file_path(
                            root.as_str(),
                            file.as_str(),
                        );
                        match LazilyResolvedSubgraph::from_resolved_path(
                            &unresolved_subgraph.name,
                            unresolved_subgraph.routing_url,
                            outcome,
                        ) {
                            Ok(lazy) => FullyResolvedSubgraph::fully_resolve(
                                introspect_subgraph_impl,
                                fetch_remote_subgraph_impl,
                                read_file_impl,
                                lazy,
                                unresolved_subgraph.name,
                            ),
                            Err(e) => Err(e),
                        }
                    }
                }
            }
            schema => FullyResolvedSubgraph::fully_resolve(
                introspect_subgraph_impl,
                fetch_remote_subgraph_impl,
                read_file_impl,
                LazilyResolvedSubgraph { routing_url: unresolved_subgraph.routing_url, schema },
                unresolved_subgraph.name,
            ),
        }
    }
}

impl From<FullyResolvedSubgraph> for SubgraphConfig {
    /// A fully resolved subgraph becomes a configuration entry whose schema
    /// is the resolved SDL, keeping the routing URL.
    fn from(value: FullyResolvedSubgraph) -> (r: SubgraphConfig) {
        SubgraphConfig {
            routing_url: value.routing_url,
            schema: SchemaSource::Sdl { sdl: value.schema },
        }
    }
}

impl vstd::std_specs::convert::FromSpecImpl<FullyResolvedSubgraph> for SubgraphConfig {
    open spec fn obeys_from_spec() -> bool {
        true
    }

    open spec fn from_spec(t: FullyResolvedSubgraph) -> SubgraphConfig {
        SubgraphConfig { routing_url: t.routing_url, schema: SchemaSource::Sdl { sdl: t.schema } }
    }
}

impl From<LazilyResolvedSubgraph> for SubgraphConfig {
    /// A lazily resolved subgraph becomes a configuration entry with its
    /// source and routing URL unchanged.
    fn from(value: LazilyResolvedSubgraph) -> (r: SubgraphConfig) {
        SubgraphConfig { routing_url: value.routing_url, schema: value.schema }
    }
}

impl vstd::std_specs::convert::FromSpecImpl<LazilyResolvedSubgraph> for SubgraphConfig {
    open spec fn obeys_from_spec() -> bool {
        true
    }

    open spec fn from_spec(t: LazilyResolvedSubgraph) -> SubgraphConfig {
        SubgraphConfig { routing_url: t.routing_url, schema: t.schema }
    }
}

impl From<LazilyResolvedSubgraph> for SchemaSource {
    /// A lazily resolved subgraph exposes its schema source unchanged.
    fn from(value: LazilyResolvedSubgraph) -> (r: SchemaSource) {
        value.schema
    }
}

impl vstd::std_specs::convert::FromSpecImpl<LazilyResolvedSubgraph> for SchemaSource {
    open spec fn obeys_from_spec() -> bool {
        true
    }

    open spec fn from_spec(t: LazilyResolvedSubgraph) -> SchemaSource {
        t.schema
    }
}

/// Turning a fully resolved subgraph into a configuration entry keeps the
/// routing URL and the schema text unchanged.
pub proof fn lemma_subgraph_config_keeps_fields(s: FullyResolvedSubgraph)
    ensures
        <SubgraphConfig as vstd::std_specs::convert::FromSpec<FullyResolvedSubgraph>>::from_spec(
            s,
        ).routing_url == s.routing_url,
        <SubgraphConfig as vstd::std_specs::convert::FromSpec<FullyResolvedSubgraph>>::from_spec(
            s,
        ).schema == (SchemaSource::Sdl { sdl: s.schema }),
{
}

} // verus!
