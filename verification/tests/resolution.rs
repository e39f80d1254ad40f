//! Resolving supergraph configurations through the three stages, with every
//! capability backed by a test double.

use rover_composition::effects::{
    FetchRemoteSubgraph, IntrospectSubgraph, ReadFile, RemoteSubgraph, ResolveFilePath,
};
use rover_composition::errors::{ResolveSubgraphError, ResolveSupergraphConfigError};
use rover_composition::federation::FederationVersion;
use rover_composition::name_map::NameMap;
use rover_composition::subgraph::{FullyResolvedSubgraph, SchemaSource, SubgraphConfig,
    UnresolvedSubgraph};
use rover_composition::supergraph::{
    FullyResolvedSupergraphConfig, LazilyResolvedSupergraphConfig, UnresolvedSupergraphConfig,
};

const FED_ONE_SDL: &str = "type Query { test: String! }";
const FED_TWO_SDL: &str =
    "extend schema @link(url: \"https://specs.apollo.dev/federation/v2.3\")\n\ntype Query { test: String! }";

struct StaticIntrospect {
    sdl: String,
}

impl IntrospectSubgraph for StaticIntrospect {
    fn introspect_subgraph(
        &self,
        _endpoint: &str,
        _headers: &Vec<(String, String)>,
    ) -> Result<String, String> {
        Ok(self.sdl.clone())
    }
}

struct FailingIntrospect;

impl IntrospectSubgraph for FailingIntrospect {
    fn introspect_subgraph(
        &self,
        _endpoint: &str,
        _headers: &Vec<(String, String)>,
    ) -> Result<String, String> {
        Err("introspection unreachable".to_string())
    }
}

struct StaticRegistry {
    sdl: String,
    routing_url: String,
}

impl FetchRemoteSubgraph for StaticRegistry {
    fn fetch_remote_subgraph(
        &self,
        graph_ref: &rover_composition::graph_ref::GraphRef,
        subgraph_name: &str,
    ) -> Result<RemoteSubgraph, String> {
        assert_eq!(graph_ref.name, "my-graph");
        assert_eq!(graph_ref.variant, "current");
        Ok(RemoteSubgraph {
            name: subgraph_name.to_string(),
            routing_url: self.routing_url.clone(),
            schema: self.sdl.clone(),
        })
    }
}

struct FailingRegistry;

impl FetchRemoteSubgraph for FailingRegistry {
    fn fetch_remote_subgraph(
        &self,
        _graph_ref: &rover_composition::graph_ref::GraphRef,
        _subgraph_name: &str,
    ) -> Result<RemoteSubgraph, String> {
        Err("registry unreachable".to_string())
    }
}

struct StaticFile {
    path: String,
    contents: String,
}

impl ReadFile for StaticFile {
    fn read_file(&self, path: &str) -> Result<String, String> {
        if path == self.path.as_str() {
            Ok(self.contents.clone())
        } else {
            Err(format!("no such file: {}", path))
        }
    }
}

struct RootJoin;

impl ResolveFilePath for RootJoin {
    fn resolve_file_path(&self, root: &str, path: &str) -> Result<String, String> {
        Ok(format!("{}/{}", root, path))
    }
}

struct MissingFileResolver;

impl ResolveFilePath for MissingFileResolver {
    fn resolve_file_path(&self, _root: &str, path: &str) -> Result<String, String> {
        Err(format!("no such path: {}", path))
    }
}

fn four_subgraph_config(
    sdl_fed_two: bool,
    remote_fed_two: bool,
    introspect_fed_two: bool,
    file_fed_two: bool,
    federation_version: Option<FederationVersion>,
) -> UnresolvedSupergraphConfig {
    let pick = |two: bool| {
        if two {
            FED_TWO_SDL.to_string()
        } else {
            FED_ONE_SDL.to_string()
        }
    };
    let mut subgraphs: NameMap<SubgraphConfig> = NameMap::new();
    subgraphs.insert(
        "sdl_subgraph".to_string(),
        SubgraphConfig {
            routing_url: None,
            schema: SchemaSource::Sdl { sdl: pick(sdl_fed_two) },
        },
    );
    subgraphs.insert(
        "remote_subgraph".to_string(),
        SubgraphConfig {
            routing_url: None,
            schema: SchemaSource::Subgraph {
                graphref: "my-graph@current".to_string(),
                subgraph: "products".to_string(),
            },
        },
    );
    subgraphs.insert(
        "introspect_subgraph".to_string(),
        SubgraphConfig {
            routing_url: None,
            schema: SchemaSource::SubgraphIntrospection {
                subgraph_url: "http://localhost:4002/graphql".to_string(),
                introspection_headers: None,
            },
        },
    );
    subgraphs.insert(
        "file_subgraph".to_string(),
        SubgraphConfig {
            routing_url: Some("http://localhost:4001".to_string()),
            schema: SchemaSource::File { file: "subgraph.graphql".to_string() },
        },
    );
    // Remote and introspection schemas come from the capabilities; the file
    // and inline schemas are fixed here.
    let _ = (remote_fed_two, introspect_fed_two, file_fed_two);
    UnresolvedSupergraphConfig::new(None, subgraphs, federation_version)
}

fn resolve_four(
    sdl_fed_two: bool,
    remote_fed_two: bool,
    introspect_fed_two: bool,
    file_fed_two: bool,
    federation_version: Option<FederationVersion>,
) -> Result<FullyResolvedSupergraphConfig, ResolveSupergraphConfigError> {
    let pick = |two: bool| {
        if two {
            FED_TWO_SDL.to_string()
        } else {
            FED_ONE_SDL.to_string()
        }
    };
    let config = four_subgraph_config(
        sdl_fed_two,
        remote_fed_two,
        introspect_fed_two,
        file_fed_two,
        federation_version,
    );
    let introspect = StaticIntrospect { sdl: pick(introspect_fed_two) };
    let registry = StaticRegistry {
        sdl: pick(remote_fed_two),
        routing_url: "http://products.example.com".to_string(),
    };
    let file = StaticFile {
        path: "/config/subgraph.graphql".to_string(),
        contents: pick(file_fed_two),
    };
    let root = "/config".to_string();
    FullyResolvedSupergraphConfig::resolve(
        &introspect,
        &registry,
        &file,
        &RootJoin,
        Some(&root),
        config,
    )
}

#[test]
fn test_fully_resolve_subgraphs_success() {
    // (sdl, remote, introspect, file, specified, expected)
    let cases = [
        (false, false, false, false, None, FederationVersion::LatestFedOne),
        (true, true, true, true, None, FederationVersion::LatestFedTwo),
        (true, false, false, false, None, FederationVersion::LatestFedTwo),
        (
            false,
            false,
            false,
            false,
            Some(FederationVersion::LatestFedOne),
            FederationVersion::LatestFedOne,
        ),
        (
            true,
            true,
            true,
            true,
            Some(FederationVersion::LatestFedTwo),
            FederationVersion::LatestFedTwo,
        ),
        (
            true,
            false,
            false,
            false,
            Some(FederationVersion::LatestFedTwo),
            FederationVersion::LatestFedTwo,
        ),
        (
            false,
            false,
            false,
            false,
            Some(FederationVersion::LatestFedTwo),
            FederationVersion::LatestFedTwo,
        ),
    ];
    for (sdl_two, remote_two, introspect_two, file_two, specified, expected) in cases {
        let resolved = resolve_four(sdl_two, remote_two, introspect_two, file_two, specified)
            .expect("resolution should succeed");
        assert_eq!(*resolved.federation_version(), expected);
        assert_eq!(resolved.subgraphs().len(), 4);

        let sdl_subgraph = resolved.subgraphs().get("sdl_subgraph").unwrap();
        assert_eq!(sdl_subgraph.routing_url, None);
        assert_eq!(sdl_subgraph.is_fed_two, sdl_two);

        let remote_subgraph = resolved.subgraphs().get("remote_subgraph").unwrap();
        assert_eq!(
            remote_subgraph.routing_url.as_deref(),
            Some("http://products.example.com")
        );
        assert_eq!(remote_subgraph.is_fed_two, remote_two);

        let introspect_subgraph = resolved.subgraphs().get("introspect_subgraph").unwrap();
        assert_eq!(
            introspect_subgraph.routing_url.as_deref(),
            Some("http://localhost:4002/graphql")
        );
        assert_eq!(introspect_subgraph.is_fed_two, introspect_two);

        let file_subgraph = resolved.subgraphs().get("file_subgraph").unwrap();
        assert_eq!(file_subgraph.routing_url.as_deref(), Some("http://localhost:4001"));
        assert_eq!(file_subgraph.is_fed_two, file_two);
    }
}

#[test]
fn test_fully_resolve_subgraphs_error() {
    // Pinning the first tier while some subgraphs are on the second names
    // exactly the second-tier subgraphs.
    let cases = [
        (true, true, true, true, vec![
            "file_subgraph",
            "introspect_subgraph",
            "remote_subgraph",
            "sdl_subgraph",
        ]),
        (true, false, false, false, vec!["sdl_subgraph"]),
    ];
    for (sdl_two, remote_two, introspect_two, file_two, expected_names) in cases {
        let result = resolve_four(
            sdl_two,
            remote_two,
            introspect_two,
            file_two,
            Some(FederationVersion::LatestFedOne),
        );
        match result {
            Err(ResolveSupergraphConfigError::FederationVersionMismatch {
                specified_federation_version,
                subgraph_names,
            }) => {
                assert_eq!(specified_federation_version, FederationVersion::LatestFedOne);
                let mut names = subgraph_names.clone();
                names.sort();
                assert_eq!(names, expected_names);
            }
            other => panic!("Result contains the wrong type of error: {:?}", other.is_ok()),
        }
    }
}

#[test]
fn lazily_resolve_subgraphs() {
    let config = four_subgraph_config(false, false, false, false, None);
    let root = "/config".to_string();
    let resolved = LazilyResolvedSupergraphConfig::resolve(&RootJoin, &root, config)
        .expect("lazy resolution should succeed");
    assert!(resolved.federation_version().is_none());
    assert_eq!(resolved.subgraphs().len(), 4);

    let file_subgraph = resolved.subgraphs().get("file_subgraph").unwrap();
    match &file_subgraph.schema {
        SchemaSource::File { file } => assert_eq!(file, "/config/subgraph.graphql"),
        other => panic!("expected a file source, got {:?}", other),
    }
    assert_eq!(file_subgraph.routing_url.as_deref(), Some("http://localhost:4001"));

    let sdl_subgraph = resolved.subgraphs().get("sdl_subgraph").unwrap();
    match &sdl_subgraph.schema {
        SchemaSource::Sdl { sdl } => assert_eq!(sdl, FED_ONE_SDL),
        other => panic!("expected an inline source, got {:?}", other),
    }

    let remote_subgraph = resolved.subgraphs().get("remote_subgraph").unwrap();
    match &remote_subgraph.schema {
        SchemaSource::Subgraph { graphref, subgraph } => {
            assert_eq!(graphref, "my-graph@current");
            assert_eq!(subgraph, "products");
        }
        other => panic!("expected a registry source, got {:?}", other),
    }
}

#[test]
fn failures_aggregate_one_error_per_failing_subgraph() {
    // Three of four subgraphs fail: the file is missing, the registry and the
    // introspection endpoint are unreachable.  Exactly three errors come
    // back, not one.
    let config = four_subgraph_config(false, false, false, false, None);
    let root = "/config".to_string();
    let result = FullyResolvedSupergraphConfig::resolve(
        &FailingIntrospect,
        &FailingRegistry,
        &StaticFile { path: "/elsewhere".to_string(), contents: String::new() },
        &RootJoin,
        Some(&root),
        config,
    );
    match result {
        Err(ResolveSupergraphConfigError::ResolveSubgraphs(errors)) => {
            assert_eq!(errors.len(), 3);
            assert!(errors.iter().any(|e| matches!(e, ResolveSubgraphError::Fs { .. })));
            assert!(errors.iter().any(|e| matches!(
                e,
                ResolveSubgraphError::IntrospectionError { subgraph_name, .. }
                    if subgraph_name == "introspect_subgraph"
            )));
            // The fetch error names the remote subgraph that was asked for.
            assert!(errors.iter().any(|e| matches!(
                e,
                ResolveSubgraphError::FetchRemoteSdlError { subgraph_name, .. }
                    if subgraph_name == "products"
            )));
        }
        _ => panic!("expected aggregated per-subgraph errors"),
    }
}

#[test]
fn configs_without_file_sources_always_resolve_lazily() {
    // No file-backed subgraph: lazy resolution owes success even when the
    // path-resolution capability would fail.
    let mut subgraphs: NameMap<SubgraphConfig> = NameMap::new();
    subgraphs.insert(
        "sdl_subgraph".to_string(),
        SubgraphConfig {
            routing_url: None,
            schema: SchemaSource::Sdl { sdl: FED_ONE_SDL.to_string() },
        },
    );
    subgraphs.insert(
        "remote_subgraph".to_string(),
        SubgraphConfig {
            routing_url: None,
            schema: SchemaSource::Subgraph {
                graphref: "my-graph@current".to_string(),
                subgraph: "products".to_string(),
            },
        },
    );
    let config = UnresolvedSupergraphConfig::new(None, subgraphs, None);
    let root = "/config".to_string();
    let resolved = LazilyResolvedSupergraphConfig::resolve(&MissingFileResolver, &root, config)
        .expect("a configuration without file sources always resolves lazily");
    assert_eq!(resolved.subgraphs().len(), 2);
}

#[test]
fn all_inline_configs_always_resolve_fully() {
    // Inline schemas only: full resolution owes success even when every
    // capability fails.
    let mut subgraphs: NameMap<SubgraphConfig> = NameMap::new();
    subgraphs.insert(
        "products".to_string(),
        SubgraphConfig {
            routing_url: None,
            schema: SchemaSource::Sdl { sdl: FED_ONE_SDL.to_string() },
        },
    );
    subgraphs.insert(
        "reviews".to_string(),
        SubgraphConfig {
            routing_url: None,
            schema: SchemaSource::Sdl { sdl: FED_TWO_SDL.to_string() },
        },
    );
    let config = UnresolvedSupergraphConfig::new(None, subgraphs, None);
    let resolved = FullyResolvedSupergraphConfig::resolve(
        &FailingIntrospect,
        &FailingRegistry,
        &StaticFile { path: "/elsewhere".to_string(), contents: String::new() },
        &MissingFileResolver,
        None,
        config,
    )
    .expect("an all-inline configuration always resolves");
    assert_eq!(resolved.subgraphs().len(), 2);
    assert_eq!(*resolved.federation_version(), FederationVersion::LatestFedTwo);
}

#[test]
fn single_step_resolution_defaults_the_introspection_url() {
    let introspect = StaticIntrospect { sdl: FED_ONE_SDL.to_string() };
    let registry = FailingRegistry;
    let file = StaticFile { path: "/x".to_string(), contents: String::new() };
    let resolved = FullyResolvedSubgraph::resolve(
        &introspect,
        &registry,
        &file,
        &RootJoin,
        None,
        UnresolvedSubgraph {
            name: "introspect_subgraph".to_string(),
            schema: SchemaSource::SubgraphIntrospection {
                subgraph_url: "http://localhost:4002/graphql".to_string(),
                introspection_headers: None,
            },
            routing_url: None,
        },
    )
    .expect("introspection resolution succeeds with a working endpoint");
    // With no explicit routing URL, the endpoint becomes the routing URL.
    assert_eq!(resolved.routing_url.as_deref(), Some("http://localhost:4002/graphql"));

    let kept = FullyResolvedSubgraph::resolve(
        &introspect,
        &registry,
        &file,
        &RootJoin,
        None,
        UnresolvedSubgraph {
            name: "introspect_subgraph".to_string(),
            schema: SchemaSource::SubgraphIntrospection {
                subgraph_url: "http://localhost:4002/graphql".to_string(),
                introspection_headers: None,
            },
            routing_url: Some("http://router.example.com".to_string()),
        },
    )
    .unwrap();
    assert_eq!(kept.routing_url.as_deref(), Some("http://router.example.com"));

    // An ill-formed registry reference is rejected before any fetch.
    let rejected = FullyResolvedSubgraph::resolve(
        &introspect,
        &registry,
        &file,
        &RootJoin,
        None,
        UnresolvedSubgraph {
            name: "remote_subgraph".to_string(),
            schema: SchemaSource::Subgraph {
                graphref: "a@b@c".to_string(),
                subgraph: "products".to_string(),
            },
            routing_url: None,
        },
    );
    assert!(matches!(
        rejected,
        Err(ResolveSubgraphError::InvalidGraphRef { ref graph_ref }) if graph_ref == "a@b@c"
    ));
}

#[test]
fn an_empty_config_resolves_to_no_entries() {
    let subgraphs: NameMap<SubgraphConfig> = NameMap::new();
    let config = UnresolvedSupergraphConfig::new(None, subgraphs, None);
    let root = "/config".to_string();
    let resolved = FullyResolvedSupergraphConfig::resolve(
        &FailingIntrospect,
        &FailingRegistry,
        &StaticFile { path: "/x".to_string(), contents: String::new() },
        &RootJoin,
        Some(&root),
        config,
    )
    .expect("an empty configuration resolves");
    assert_eq!(resolved.subgraphs().len(), 0);
    // With no subgraph on the second tier, the inferred version is the first.
    assert_eq!(*resolved.federation_version(), FederationVersion::LatestFedOne);
}

#[test]
fn file_source_without_root_is_rejected() {
    let config = four_subgraph_config(false, false, false, false, None);
    let introspect = StaticIntrospect { sdl: FED_ONE_SDL.to_string() };
    let registry = StaticRegistry {
        sdl: FED_ONE_SDL.to_string(),
        routing_url: "http://products.example.com".to_string(),
    };
    let file = StaticFile {
        path: "/config/subgraph.graphql".to_string(),
        contents: FED_ONE_SDL.to_string(),
    };
    let result = FullyResolvedSupergraphConfig::resolve(
        &introspect,
        &registry,
        &file,
        &RootJoin,
        None,
        config,
    );
    match result {
        Err(ResolveSupergraphConfigError::ResolveSubgraphs(errors)) => {
            assert_eq!(errors.len(), 1);
            assert!(matches!(errors[0], ResolveSubgraphError::SupergraphConfigMissing));
        }
        _ => panic!("expected the missing-root error"),
    }
}

#[test]
fn invalid_graph_ref_is_rejected() {
    let mut subgraphs: NameMap<SubgraphConfig> = NameMap::new();
    subgraphs.insert(
        "remote_subgraph".to_string(),
        SubgraphConfig {
            routing_url: None,
            schema: SchemaSource::Subgraph {
                graphref: "not a graph ref!".to_string(),
                subgraph: "products".to_string(),
            },
        },
    );
    let config = UnresolvedSupergraphConfig::new(None, subgraphs, None);
    let root = "/config".to_string();
    let result = FullyResolvedSupergraphConfig::resolve(
        &FailingIntrospect,
        &StaticRegistry {
            sdl: FED_ONE_SDL.to_string(),
            routing_url: "http://products.example.com".to_string(),
        },
        &StaticFile { path: "/x".to_string(), contents: String::new() },
        &RootJoin,
        Some(&root),
        config,
    );
    match result {
        Err(ResolveSupergraphConfigError::ResolveSubgraphs(errors)) => {
            assert_eq!(errors.len(), 1);
            assert!(matches!(
                errors[0],
                ResolveSubgraphError::InvalidGraphRef { ref graph_ref } if graph_ref == "not a graph ref!"
            ));
        }
        _ => panic!("expected the invalid-reference error"),
    }
}

#[test]
fn lazy_resolution_aggregates_file_errors() {
    let config = four_subgraph_config(false, false, false, false, None);
    let root = "/config".to_string();
    let result = LazilyResolvedSupergraphConfig::resolve(&MissingFileResolver, &root, config);
    match result {
        Err(errors) => {
            assert_eq!(errors.len(), 1);
            assert!(matches!(
                errors[0],
                ResolveSubgraphError::FileResolution { ref subgraph_name, .. }
                    if subgraph_name == "file_subgraph"
            ));
        }
        Ok(_) => panic!("expected a file resolution error"),
    }
}

#[test]
fn extract_subgraphs_follows_lazy_resolution() {
    let config = four_subgraph_config(true, false, true, false, None);
    let root = "/config".to_string();
    let lazy = LazilyResolvedSupergraphConfig::resolve(&RootJoin, &root, config)
        .expect("lazy resolution should succeed");
    let introspect = StaticIntrospect { sdl: FED_TWO_SDL.to_string() };
    let registry = StaticRegistry {
        sdl: FED_ONE_SDL.to_string(),
        routing_url: "http://products.example.com".to_string(),
    };
    let file = StaticFile {
        path: "/config/subgraph.graphql".to_string(),
        contents: FED_ONE_SDL.to_string(),
    };
    let subgraphs = lazy
        .extract_subgraphs_as_sdls(&introspect, &registry, &file)
        .expect("full resolution should succeed");
    assert_eq!(subgraphs.len(), 4);
    assert_eq!(subgraphs.get("sdl_subgraph").unwrap().schema, FED_TWO_SDL);
    assert!(subgraphs.get("sdl_subgraph").unwrap().is_fed_two);
    assert_eq!(subgraphs.get("file_subgraph").unwrap().schema, FED_ONE_SDL);
    assert!(!subgraphs.get("file_subgraph").unwrap().is_fed_two);
    assert!(subgraphs.get("introspect_subgraph").unwrap().is_fed_two);
    assert!(!subgraphs.get("remote_subgraph").unwrap().is_fed_two);
}
