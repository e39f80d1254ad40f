//! The multi-subgraph project configuration: a named supergraph and its
//! subgraph entries, as kept in a project's configuration file.

use vstd::prelude::*;

use crate::effects::{FetchRemoteSubgraph, IntrospectSubgraph, ReadFile};
use crate::errors::ResolveSubgraphError;
use crate::name_map::{find_name, has_name, NameMap};
use crate::subgraph::{schema_source_like, FullyResolvedSubgraph, LazilyResolvedSubgraph,
    SubgraphConfig};

verus! {

/// The name a remote subgraph's schema travels under: whether a text parses
/// as an absolute URL, and its normalized form, as the `url` crate computes
/// them.
pub uninterp spec fn url_normalized(s: Seq<char>) -> Option<Seq<char>>;

/// Relies on `url::Url::parse` and `url::Url::as_str`: whether a text parses,
/// and the normalized URL text, depend on the input text alone.
#[verifier::external_body]
fn parse_url(s: &str) -> (r: Option<String>)
    ensures
        match r {
            Some(u) => url_normalized(s@) == Some(u@),
            None => url_normalized(s@) is None,
        },
{
    match s.parse::<url::Url>() {
        Ok(u) => Some(u.as_str().to_string()),
        Err(_) => None,
    }
}

/// Why an edit of the project configuration was rejected.
#[derive(Debug, PartialEq, Eq)]
pub enum MultiSubgraphConfigError {
    /// A supergraph with this graph identifier is already configured.
    SupergraphExists { graph_id: String },
    /// A subgraph with this name is already configured.
    SubgraphExists { name: String },
    /// No subgraph with this name is configured.
    SubgraphMissing { name: String },
    /// A subgraph declares no routing URL, so no definition can be built for
    /// it.
    MissingRoutingUrl { name: String },
    /// Resolving a subgraph's schema down to SDL failed.
    SubgraphResolution(ResolveSubgraphError),
    /// The new remote endpoint is not a well-formed URL.
    InvalidEndpoint { endpoint: String },
    /// The configuration does not hold exactly one subgraph.
    NotExactlyOneSubgraph,
}

/// The position of the first entry that declares no routing URL, or the
/// length when every entry declares one.
pub open spec fn first_missing_url(s: Seq<(Seq<char>, SubgraphConfig)>) -> int
    decreases s.len(),
{
    if s.len() == 0 {
        0
    } else if s[0].1.routing_url is None {
        0
    } else {
        1 + first_missing_url(s.skip(1))
    }
}

/// A scan that stops at the first entry without a routing URL, or at the
/// end, determines [`first_missing_url`].
proof fn lemma_first_missing_at(s: Seq<(Seq<char>, SubgraphConfig)>, i: int)
    requires
        0 <= i <= s.len(),
        forall|j: int| 0 <= j < i ==> (#[trigger] s[j]).1.routing_url is Some,
        i == s.len() || s[i].1.routing_url is None,
    ensures
        first_missing_url(s) == i,
    decreases i,
{
    if i > 0 {
        assert(forall|j: int| 0 <= j < i - 1 ==> (#[trigger] s.skip(1)[j]) == s[j + 1]);
        if i < s.len() {
            assert(s.skip(1)[i - 1] == s[i]);
        }
        lemma_first_missing_at(s.skip(1), i - 1);
    }
}

/// One subgraph as the composition process takes it: a name, a routing URL
/// and SDL text.
#[derive(Debug, PartialEq, Eq)]
pub struct SubgraphDefinition {
    pub name: String,
    pub url: String,
    pub sdl: String,
}

/// The supergraph part of the project configuration: the graph identifier it
/// extends, once one is set.
#[derive(Debug, PartialEq, Eq)]
pub struct ExtendSupergraphConfig {
    pub graph_id: Option<String>,
}

impl ExtendSupergraphConfig {
    /// The graph identifier, if one is set.
    pub fn graph_id(&self) -> (r: Option<String>)
        ensures
            r == self.graph_id,
    {
        match &self.graph_id {
            Some(g) => Some(g.clone()),
            None => None,
        }
    }
}

/// A project configuration holding one supergraph and its subgraphs, keyed by
/// unique subgraph names in deterministic order.
pub struct MultiSubgraphConfig {
    pub supergraph: ExtendSupergraphConfig,
    pub subgraphs: NameMap<SubgraphConfig>,
}

impl MultiSubgraphConfig {
    /// The subgraph entries stay well formed.
    pub open spec fn wf(&self) -> bool {
        self.subgraphs.wf()
    }

    /// An empty configuration: no supergraph, no subgraphs.
    pub fn new() -> (r: MultiSubgraphConfig)
        ensures
            r.wf(),
            r.supergraph == (ExtendSupergraphConfig { graph_id: None }),
            r.subgraphs@ == Seq::<(Seq<char>, SubgraphConfig)>::empty(),
    {
        MultiSubgraphConfig {
            supergraph: ExtendSupergraphConfig { graph_id: None },
            subgraphs: NameMap::new(),
        }
    }

    /// Sets the supergraph's graph identifier; rejected when one is already
    /// set, naming the existing identifier.
    pub fn extend_supergraph(&mut self, graph_id: String) -> (r: Result<
        (),
        MultiSubgraphConfigError,
    >)
        ensures
            final(self).subgraphs == old(self).subgraphs,
            match old(self).supergraph.graph_id {
                Some(existing) => r == Err::<(), MultiSubgraphConfigError>(
                    MultiSubgraphConfigError::SupergraphExists { graph_id: existing },
                ) && final(self).supergraph == old(self).supergraph,
                None => r == Ok::<(), MultiSubgraphConfigError>(()) && final(self).supergraph
                    == (ExtendSupergraphConfig { graph_id: Some(graph_id) }),
            },
    {
        match &self.supergraph.graph_id {
            Some(existing) => Err(
                MultiSubgraphConfigError::SupergraphExists { graph_id: existing.clone() },
            ),
            None => {
                self.supergraph = ExtendSupergraphConfig { graph_id: Some(graph_id) };
                Ok(())
            }
        }
    }

    /// Adds a subgraph under a new name; rejected when the name is taken.
    pub fn add_subgraph(&mut self, name: String, config: SubgraphConfig) -> (r: Result<
        (),
        MultiSubgraphConfigError,
    >)
        requires
            old(self).wf(),
        ensures
            final(self).wf(),
            final(self).supergraph == old(self).supergraph,
            if has_name(old(self).subgraphs@, name@) {
                r == Err::<(), MultiSubgraphConfigError>(
                    MultiSubgraphConfigError::SubgraphExists { name },
                ) && final(self).subgraphs@ == old(self).subgraphs@
            } else {
                r == Ok::<(), MultiSubgraphConfigError>(()) && find_name(
                    final(self).subgraphs@,
                    name@,
                ) == Some(config) && final(self).subgraphs@.len() == old(self).subgraphs@.len()
                    + 1
            },
            forall|n: Seq<char>|
                n != name@ ==> find_name(final(self).subgraphs@, n) == find_name(
                    old(self).subgraphs@,
                    n,
                ),
    {
        if self.subgraphs.contains_name(name.as_str()) {
            Err(MultiSubgraphConfigError::SubgraphExists { name })
        } else {
            self.subgraphs.insert(name, config);
            Ok(())
        }
    }

    /// Points an existing subgraph at a new remote endpoint; rejected when
    /// the subgraph is unknown or the endpoint is not a well-formed URL.
    pub fn edit_subgraph(&mut self, name: &str, remote_endpoint: &str) -> (r: Result<
        (),
        MultiSubgraphConfigError,
    >)
        requires
            old(self).wf(),
        ensures
            final(self).wf(),
            final(self).supergraph == old(self).supergraph,
            url_normalized(remote_endpoint@) is None ==> (r matches Err(
                MultiSubgraphConfigError::InvalidEndpoint { .. },
            ) && final(self).subgraphs@ == old(self).subgraphs@),
            url_normalized(remote_endpoint@) is Some && !has_name(old(self).subgraphs@, name@)
                ==> (r matches Err(MultiSubgraphConfigError::SubgraphMissing { .. })
                    && final(self).subgraphs@ == old(self).subgraphs@),
            url_normalized(remote_endpoint@) is Some && has_name(old(self).subgraphs@, name@)
                ==> r == Ok::<(), MultiSubgraphConfigError>(()) && (match (
                find_name(final(self).subgraphs@, name@),
                find_name(old(self).subgraphs@, name@),
            ) {
                (Some(now), Some(before)) => now.schema == before.schema && (
                now.routing_url matches Some(u) && url_normalized(remote_endpoint@) == Some(u@)),
                _ => false,
            }) && final(self).subgraphs@.len() == old(self).subgraphs@.len(),
            forall|n: Seq<char>|
                n != name@ ==> find_name(final(self).subgraphs@, n) == find_name(
                    old(self).subgraphs@,
                    n,
                ),
    {
        match parse_url(remote_endpoint) {
            None => Err(
                MultiSubgraphConfigError::InvalidEndpoint { endpoint: remote_endpoint.to_owned() },
            ),
            Some(url) => {
                match self.subgraphs.take(name) {
                    None => Err(
                        MultiSubgraphConfigError::SubgraphMissing { name: name.to_owned() },
                    ),
                    Some(config) => {
                        self.subgraphs.insert(
                            name.to_owned(),
                            SubgraphConfig { routing_url: Some(url), schema: config.schema },
                        );
                        Ok(())
                    }
                }
            }
        }
    }

    /// The supergraph part.
    pub fn get_supergraph(&self) -> (r: ExtendSupergraphConfig)
        ensures
            r == self.supergraph,
    {
        ExtendSupergraphConfig { graph_id: self.supergraph.graph_id() }
    }

    /// The subgraph stored under `name`, copied out.
    pub fn get_subgraph(&self, name: &str) -> (r: Option<SubgraphConfig>)
        ensures
            match find_name(self.subgraphs@, name@) {
                Some(v) => r matches Some(c) && c.routing_url == v.routing_url
                    && schema_source_like(c.schema, v.schema),
                None => r is None,
            },
    {
        match self.subgraphs.get(name) {
            Some(config) => Some(config.duplicate()),
            None => None,
        }
    }

    /// Resolves every subgraph to a definition the composition process
    /// takes: its name, its routing URL and its SDL.  Unlike configuration
    /// resolution this stops at the first failure, as a definition list is
    /// all or nothing.
    pub fn get_all_subgraphs<I: IntrospectSubgraph, F: FetchRemoteSubgraph, R: ReadFile>(
        &self,
        introspect_subgraph_impl: &I,
        fetch_remote_subgraph_impl: &F,
        read_file_impl: &R,
    ) -> (r: Result<Vec<SubgraphDefinition>, MultiSubgraphConfigError>)
        ensures
            r matches Ok(defs) ==> defs@.len() == self.subgraphs@.len() && forall|i: int|
                0 <= i < defs@.len() ==> (#[trigger] defs@[i]).name@ == self.subgraphs@[i].0 && (
                self.subgraphs@[i].1.routing_url matches Some(u) && defs@[i].url == u),
            // An entry without a routing URL always fails the listing.
            first_missing_url(self.subgraphs@) < self.subgraphs@.len() ==> r is Err,
            // The listing stops at the first failure: a missing-URL failure
            // names the first entry without a routing URL, every entry before
            // it having carried one and resolved.
            r matches Err(MultiSubgraphConfigError::MissingRoutingUrl { name }) ==> (
            first_missing_url(self.subgraphs@) < self.subgraphs@.len() && name@
                == self.subgraphs@[first_missing_url(self.subgraphs@)].0),
            // No failure other than a missing URL or a failed resolution.
            r matches Err(e) ==> ((e matches MultiSubgraphConfigError::MissingRoutingUrl { .. })
                || (e matches MultiSubgraphConfigError::SubgraphResolution(_))),
    {
        let ghost s = self.subgraphs@;
        let n = self.subgraphs.len();
        let mut defs: Vec<SubgraphDefinition> = Vec::new();
        let mut i: usize = 0;
        while i < n
            invariant
                0 <= i <= n,
                n == s.len(),
                s == self.subgraphs@,
                defs@.len() == i,
                forall|j: int|
                    0 <= j < i ==> (#[trigger] defs@[j]).name@ == s[j].0 && (
                    s[j].1.routing_url matches Some(u) && defs@[j].url == u),
                forall|j: int| 0 <= j < i ==> (#[trigger] s[j]).1.routing_url is Some,
            decreases n - i,
        {
            let entry = self.subgraphs.get_at(i);
            let url = match &entry.1.routing_url {
                Some(u) => u.clone(),
                None => {
                    proof {
                        lemma_first_missing_at(s, i as int);
                    }
                    return Err(
                        MultiSubgraphConfigError::MissingRoutingUrl { name: entry.0.clone() },
                    );
                }
            };
            let resolved = FullyResolvedSubgraph::fully_resolve(
                introspect_subgraph_impl,
                fetch_remote_subgraph_impl,
                read_file_impl,
                LazilyResolvedSubgraph {
                    routing_url: None,
                    schema: entry.1.schema.duplicate(),
                },
                entry.0.clone(),
            );
            match resolved {
                Ok(full) => {
                    defs.push(
                        SubgraphDefinition { name: entry.0.clone(), url, sdl: full.schema },
                    );
                }
                Err(e) => {
                    return Err(MultiSubgraphConfigError::SubgraphResolution(e));
                }
            }
            i = i + 1;
        }
        proof {
            lemma_first_missing_at(s, n as int);
        }
        Ok(defs)
    }

    /// The single subgraph, when exactly one is configured.
    pub fn try_get_only_subgraph(&self) -> (r: Result<
        (String, SubgraphConfig),
        MultiSubgraphConfigError,
    >)
        ensures
            self.subgraphs@.len() == 1 ==> (r matches Ok((n, c)) && n@ == self.subgraphs@[0].0
                && c.routing_url == self.subgraphs@[0].1.routing_url && schema_source_like(
                c.schema,
                self.subgraphs@[0].1.schema,
            )),
            self.subgraphs@.len() != 1 ==> r == Err::<
                (String, SubgraphConfig),
                MultiSubgraphConfigError,
            >(MultiSubgraphConfigError::NotExactlyOneSubgraph),
    {
        if self.subgraphs.len() == 1 {
            let entry = self.subgraphs.get_at(0);
            Ok((entry.0.clone(), entry.1.duplicate()))
        } else {
            Err(MultiSubgraphConfigError::NotExactlyOneSubgraph)
        }
    }
}

} // verus!
