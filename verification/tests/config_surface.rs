//! The configuration surface: graph references, the project configuration,
//! the external configuration format, and the session decision helpers.

use std::collections::BTreeMap;

use rover_composition::dev::{
    dev_action_for_message, healthcheck_endpoint, log_err_and_continue, router_config_path,
    DevAction, RouterConfigMessage, RoverDevMessage, RoverDevRouterConfig,
};
use rover_composition::errors::RoverError;
use rover_composition::federation::FederationVersion;
use rover_composition::graph_ref::GraphRef;
use rover_composition::lsp::{
    absolute_supergraph_yaml_path, effective_federation_version, language_server_config,
    lsp_actions_for_event, supergraph_content_root, LspAction,
    SupergraphConfigLazyResolutionError,
};
use rover_composition::multi::{MultiSubgraphConfig, MultiSubgraphConfigError};
use rover_composition::name_map::NameMap;
use rover_composition::runner::{
    CompositionError, CompositionEvent, CompositionSubgraphAdded, CompositionSuccess,
};
use rover_composition::subgraph::{FullyResolvedSubgraph, SchemaSource, SubgraphConfig};
use rover_composition::supergraph::LazilyResolvedSupergraphConfig;

#[test]
fn graph_ref_parsing_accepts_and_rejects() {
    let plain = GraphRef::parse("my-graph").unwrap();
    assert_eq!(plain.name, "my-graph");
    assert_eq!(plain.variant, "current");

    let with_variant = GraphRef::parse("my-graph@staging.v2").unwrap();
    assert_eq!(with_variant.name, "my-graph");
    assert_eq!(with_variant.variant, "staging.v2");

    assert!(GraphRef::parse("").is_none());
    assert!(GraphRef::parse("has spaces").is_none());
    assert!(GraphRef::parse("name@").is_none());
    assert!(GraphRef::parse("@variant").is_none());
    assert!(GraphRef::parse("a@b@c").is_none());
    assert!(GraphRef::parse("dotted.name@current").is_none());
    let long = "x".repeat(65);
    assert!(GraphRef::parse(&long).is_none());
}

#[test]
fn multi_subgraph_config_guards_its_entries() {
    let mut config = MultiSubgraphConfig::new();
    assert_eq!(config.get_supergraph().graph_id(), None);
    assert!(config.extend_supergraph("my-graph".to_string()).is_ok());
    assert_eq!(config.get_supergraph().graph_id().as_deref(), Some("my-graph"));
    assert!(matches!(
        config.extend_supergraph("other".to_string()),
        Err(MultiSubgraphConfigError::SupergraphExists { ref graph_id }) if graph_id == "my-graph"
    ));

    let entry = SubgraphConfig {
        routing_url: None,
        schema: SchemaSource::Sdl { sdl: "type Query { x: Int }".to_string() },
    };
    assert!(config.add_subgraph("products".to_string(), entry).is_ok());
    assert!(matches!(
        config.add_subgraph(
            "products".to_string(),
            SubgraphConfig {
                routing_url: None,
                schema: SchemaSource::Sdl { sdl: String::new() },
            },
        ),
        Err(MultiSubgraphConfigError::SubgraphExists { ref name }) if name == "products"
    ));

    // The URL is validated and normalized by the url crate; a bare word is
    // no URL, and a valid one comes back in normalized form.
    assert!(matches!(
        config.edit_subgraph("products", "not a url"),
        Err(MultiSubgraphConfigError::InvalidEndpoint { .. })
    ));
    assert!(matches!(
        config.edit_subgraph("unknown", "http://localhost:4001"),
        Err(MultiSubgraphConfigError::SubgraphMissing { .. })
    ));
    assert!(config.edit_subgraph("products", "http://localhost:4001").is_ok());
    let edited = config.get_subgraph("products").unwrap();
    assert_eq!(edited.routing_url.as_deref(), Some("http://localhost:4001/"));

    let (only_name, only) = config.try_get_only_subgraph().unwrap();
    assert_eq!(only_name, "products");
    assert!(matches!(only.schema, SchemaSource::Sdl { .. }));

    assert!(config
        .add_subgraph(
            "reviews".to_string(),
            SubgraphConfig {
                routing_url: None,
                schema: SchemaSource::Sdl { sdl: String::new() },
            },
        )
        .is_ok());
    assert!(matches!(
        config.try_get_only_subgraph(),
        Err(MultiSubgraphConfigError::NotExactlyOneSubgraph)
    ));
}

struct InlineOnlyResolver;

impl rover_composition::effects::IntrospectSubgraph for InlineOnlyResolver {
    fn introspect_subgraph(
        &self,
        _endpoint: &str,
        _headers: &Vec<(String, String)>,
    ) -> Result<String, String> {
        Err("offline".to_string())
    }
}

impl rover_composition::effects::FetchRemoteSubgraph for InlineOnlyResolver {
    fn fetch_remote_subgraph(
        &self,
        _graph_ref: &GraphRef,
        _subgraph_name: &str,
    ) -> Result<rover_composition::effects::RemoteSubgraph, String> {
        Err("offline".to_string())
    }
}

impl rover_composition::effects::ReadFile for InlineOnlyResolver {
    fn read_file(&self, _path: &str) -> Result<String, String> {
        Err("offline".to_string())
    }
}

#[test]
fn subgraph_definitions_need_routing_urls_and_schemas() {
    let mut config = MultiSubgraphConfig::new();
    config
        .add_subgraph(
            "products".to_string(),
            SubgraphConfig {
                routing_url: Some("http://localhost:4001".to_string()),
                schema: SchemaSource::Sdl { sdl: "type Query { p: Int }".to_string() },
            },
        )
        .unwrap();
    let defs = config
        .get_all_subgraphs(&InlineOnlyResolver, &InlineOnlyResolver, &InlineOnlyResolver)
        .unwrap();
    assert_eq!(defs.len(), 1);
    assert_eq!(defs[0].name, "products");
    assert_eq!(defs[0].url, "http://localhost:4001");
    assert_eq!(defs[0].sdl, "type Query { p: Int }");

    // A subgraph without a routing URL yields no definition.
    let mut no_url = MultiSubgraphConfig::new();
    no_url
        .add_subgraph(
            "products".to_string(),
            SubgraphConfig {
                routing_url: None,
                schema: SchemaSource::Sdl { sdl: String::new() },
            },
        )
        .unwrap();
    assert!(matches!(
        no_url.get_all_subgraphs(&InlineOnlyResolver, &InlineOnlyResolver, &InlineOnlyResolver),
        Err(MultiSubgraphConfigError::MissingRoutingUrl { ref name }) if name == "products"
    ));

    // A subgraph whose schema cannot be resolved stops the list.
    let mut unresolvable = MultiSubgraphConfig::new();
    unresolvable
        .add_subgraph(
            "products".to_string(),
            SubgraphConfig {
                routing_url: Some("http://localhost:4001".to_string()),
                schema: SchemaSource::File { file: "/missing.graphql".to_string() },
            },
        )
        .unwrap();
    assert!(matches!(
        unresolvable.get_all_subgraphs(
            &InlineOnlyResolver,
            &InlineOnlyResolver,
            &InlineOnlyResolver,
        ),
        Err(MultiSubgraphConfigError::SubgraphResolution(_))
    ));
}

#[test]
fn resolved_subgraph_round_trips_through_the_external_format() {
    // A fully resolved subgraph, lowered to a configuration entry, written
    // out in the external configuration format and read back, keeps its
    // routing URL and its schema text bit for bit.
    let resolved = FullyResolvedSubgraph::new(
        "type Query {\n  user: String\n}\n".to_string(),
        Some("http://localhost:4001".to_string()),
        Some(false),
    );
    let config: SubgraphConfig = resolved.into();
    let external = apollo_federation_types::config::SubgraphConfig {
        routing_url: config.routing_url.clone(),
        schema: match &config.schema {
            SchemaSource::Sdl { sdl } => {
                apollo_federation_types::config::SchemaSource::Sdl { sdl: sdl.clone() }
            }
            _ => unreachable!(),
        },
    };
    let yaml = serde_yaml::to_string(&external).unwrap();
    let read_back: apollo_federation_types::config::SubgraphConfig =
        serde_yaml::from_str(&yaml).unwrap();
    assert_eq!(read_back.routing_url.as_deref(), Some("http://localhost:4001"));
    assert_eq!(
        read_back.get_sdl().as_deref(),
        Some("type Query {\n  user: String\n}\n")
    );
}

#[test]
fn lazy_config_lowers_to_the_external_format() {
    let mut subgraphs: NameMap<rover_composition::subgraph::LazilyResolvedSubgraph> =
        NameMap::new();
    subgraphs.insert(
        "products".to_string(),
        rover_composition::subgraph::LazilyResolvedSubgraph {
            routing_url: Some("http://localhost:4001".to_string()),
            schema: SchemaSource::Sdl { sdl: "type Query { p: Int }".to_string() },
        },
    );
    let lazy = LazilyResolvedSupergraphConfig {
        origin_path: Some("/config/supergraph.yaml".to_string()),
        subgraphs,
        federation_version: Some(FederationVersion::LatestFedTwo),
    };
    let lowered = lazy.into_supergraph_config();
    assert_eq!(lowered.federation_version, Some(FederationVersion::LatestFedTwo));
    assert_eq!(lowered.subgraphs.len(), 1);
    let entry = lowered.subgraphs.get("products").unwrap();
    assert_eq!(entry.routing_url.as_deref(), Some("http://localhost:4001"));

    // And on to the outside configuration type, through its own constructor.
    let mut external = BTreeMap::new();
    external.insert(
        "products".to_string(),
        apollo_federation_types::config::SubgraphConfig {
            routing_url: entry.routing_url.clone(),
            schema: apollo_federation_types::config::SchemaSource::Sdl {
                sdl: "type Query { p: Int }".to_string(),
            },
        },
    );
    let external_config = apollo_federation_types::config::SupergraphConfig::new(
        external,
        Some(apollo_federation_types::config::FederationVersion::LatestFedTwo),
    );
    let yaml = serde_yaml::to_string(&external_config).unwrap();
    let read_back: apollo_federation_types::config::SupergraphConfig =
        serde_yaml::from_str(&yaml).unwrap();
    assert_eq!(read_back, external_config);
}

#[test]
fn lsp_decisions_follow_the_event() {
    let begin = lsp_actions_for_event(CompositionEvent::Started);
    assert_eq!(begin, vec![LspAction::NotifyCompositionBegan]);

    let success = lsp_actions_for_event(CompositionEvent::Success(CompositionSuccess {
        supergraph_sdl: "sdl".to_string(),
        federation_version: FederationVersion::LatestFedTwo,
        hints: vec!["hint".to_string()],
    }));
    assert_eq!(
        success,
        vec![
            LspAction::ClearDiagnostics,
            LspAction::PublishCompositionResult {
                supergraph_sdl: Some("sdl".to_string()),
                messages: vec!["hint".to_string()],
            },
        ]
    );

    let build = lsp_actions_for_event(CompositionEvent::Error(CompositionError::Build {
        source: vec!["bad schema".to_string()],
    }));
    assert_eq!(
        build,
        vec![
            LspAction::ClearDiagnostics,
            LspAction::PublishCompositionResult {
                supergraph_sdl: None,
                messages: vec!["bad schema".to_string()],
            },
        ]
    );

    let infra = lsp_actions_for_event(CompositionEvent::Error(
        CompositionError::Infrastructure { cause: "no binary".to_string() },
    ));
    assert_eq!(
        infra,
        vec![LspAction::PublishDiagnostic { message: "no binary".to_string() }]
    );

    let added = lsp_actions_for_event(CompositionEvent::SubgraphAdded(
        CompositionSubgraphAdded {
            name: "products".to_string(),
            schema_source: SchemaSource::Sdl { sdl: "type Query { p: Int }".to_string() },
        },
    ));
    assert!(matches!(
        &added[0],
        LspAction::AddSubgraph { name, .. } if name == "products"
    ));
}

#[test]
fn relative_config_paths_are_joined_under_the_working_directory() {
    assert_eq!(
        absolute_supergraph_yaml_path(
            "/abs/supergraph.yaml".to_string(),
            &"/work".to_string(),
        ),
        "/abs/supergraph.yaml"
    );
    assert_eq!(
        absolute_supergraph_yaml_path("supergraph.yaml".to_string(), &"/work".to_string()),
        "/work/supergraph.yaml"
    );
}

#[test]
fn lsp_configuration_and_content_root() {
    let with_root = language_server_config(Some("/config".to_string()));
    assert_eq!(with_root.root_uri, "/config");
    assert!(!with_root.enable_auto_composition);

    let without_root = language_server_config(None);
    assert_eq!(without_root.root_uri, "");

    assert_eq!(
        supergraph_content_root("/config/supergraph.yaml".to_string(), Some("/config".to_string()))
            .unwrap(),
        "/config"
    );
    assert!(matches!(
        supergraph_content_root("supergraph.yaml".to_string(), None),
        Err(SupergraphConfigLazyResolutionError::PathDoesNotPointToAFile { ref path })
            if path == "supergraph.yaml"
    ));

    assert_eq!(effective_federation_version(None), FederationVersion::LatestFedTwo);
    assert_eq!(
        effective_federation_version(Some(FederationVersion::LatestFedOne)),
        FederationVersion::LatestFedOne
    );
}

#[test]
fn dev_session_decisions() {
    let err = log_err_and_continue(RoverError::new("it broke".to_string()));
    assert_eq!(err.message().as_str(), "it broke");

    assert_eq!(
        router_config_path(Some("/custom/router.yaml".to_string()), &"/tmp/dir".to_string()),
        "/custom/router.yaml"
    );
    assert_eq!(
        router_config_path(None, &"/tmp/dir".to_string()),
        "/tmp/dir/router.yaml"
    );

    assert_eq!(
        healthcheck_endpoint(&"127.0.0.1".to_string()),
        "127.0.0.1:8088/health"
    );

    let config = RoverDevRouterConfig {
        config_path: "/config/router.yaml".to_string(),
        tmp_config_path: "/tmp/router.yaml".to_string(),
    };
    let action = dev_action_for_message(
        &config,
        RoverDevMessage::Config(RouterConfigMessage::Changed {
            contents: "supergraph: {}".to_string(),
        }),
    );
    match action {
        DevAction::WriteRouterConfig { path, contents } => {
            assert_eq!(path, "/tmp/router.yaml");
            assert_eq!(contents, "supergraph: {}");
        }
    }
}

#[test]
fn name_map_keeps_entries_sorted_and_unique() {
    let mut map: NameMap<SubgraphConfig> = NameMap::new();
    for name in ["zebra", "alpha", "mango", "alpha"] {
        map.insert(
            name.to_string(),
            SubgraphConfig {
                routing_url: Some(format!("http://{}", name)),
                schema: SchemaSource::Sdl { sdl: String::new() },
            },
        );
    }
    assert_eq!(map.len(), 3);
    assert_eq!(map.get_at(0).0, "alpha");
    assert_eq!(map.get_at(1).0, "mango");
    assert_eq!(map.get_at(2).0, "zebra");
    assert!(map.contains_name("mango"));
    assert!(!map.contains_name("kiwi"));
    map.remove("mango");
    assert_eq!(map.len(), 2);
    assert!(!map.contains_name("mango"));
}
