//! Watcher emission behaviour: one-shot sources, file forwarding, and
//! introspection duplicate suppression.

use rover_composition::effects::{FetchRemoteSubgraph, RemoteSubgraph};
use rover_composition::graph_ref::GraphRef;
use rover_composition::subgraph::SchemaSource;
use rover_composition::watcher::{
    FileWatcher, NonRepeatingFetch, OneShotSession, Sdl, SubgraphIntrospection, SubgraphWatcher,
    SubgraphWatcherKind,
};

struct StaticRegistry;

impl FetchRemoteSubgraph for StaticRegistry {
    fn fetch_remote_subgraph(
        &self,
        _graph_ref: &GraphRef,
        subgraph_name: &str,
    ) -> Result<RemoteSubgraph, String> {
        Ok(RemoteSubgraph {
            name: subgraph_name.to_string(),
            routing_url: "http://products.example.com".to_string(),
            schema: "type Query { p: Int }".to_string(),
        })
    }
}

#[test]
fn one_shot_session_emits_exactly_once() {
    let mut session = OneShotSession::new("type Query { x: Int }".to_string());
    let first = session.next_change();
    assert_eq!(first.unwrap().sdl, "type Query { x: Int }");
    // Every further poll finds the channel spent.
    assert!(session.next_change().is_none());
    assert!(session.next_change().is_none());
}

#[test]
fn inline_sdl_fetch_hands_out_its_text() {
    let fetch = NonRepeatingFetch::Sdl(Sdl::new("type Query { x: Int }".to_string()));
    let sdl = fetch.run(&StaticRegistry).unwrap();
    assert_eq!(sdl, "type Query { x: Int }");
}

#[test]
fn remote_fetch_uses_the_registry_once() {
    let fetch = NonRepeatingFetch::RemoteSchema(rover_composition::watcher::RemoteSchema::new(
        "my-graph@current".to_string(),
        "products".to_string(),
    ));
    let sdl = fetch.run(&StaticRegistry).unwrap();
    assert_eq!(sdl, "type Query { p: Int }");
}

#[test]
fn remote_fetch_rejects_bad_references() {
    let fetch = NonRepeatingFetch::RemoteSchema(rover_composition::watcher::RemoteSchema::new(
        "not a ref!".to_string(),
        "products".to_string(),
    ));
    assert!(fetch.run(&StaticRegistry).is_err());
}

#[test]
fn file_watcher_forwards_duplicate_writes() {
    let watcher = FileWatcher::new("/config/subgraph.graphql".to_string());
    let first = watcher.on_write("type Query { x: Int }".to_string());
    let second = watcher.on_write("type Query { x: Int }".to_string());
    // Every write notification is forwarded, even with unchanged contents.
    assert_eq!(first.sdl, "type Query { x: Int }");
    assert_eq!(second.sdl, "type Query { x: Int }");
}

#[test]
fn introspection_suppresses_duplicate_polls() {
    let mut watcher = SubgraphIntrospection::new(
        "http://localhost:4002/graphql".to_string(),
        None,
        1000,
    );
    let first = watcher.on_poll("type Query { x: Int }".to_string());
    assert_eq!(first.unwrap().sdl, "type Query { x: Int }");
    // The same text again: suppressed.
    assert!(watcher.on_poll("type Query { x: Int }".to_string()).is_none());
    // A different text: emitted.
    let third = watcher.on_poll("type Query { y: Int }".to_string());
    assert_eq!(third.unwrap().sdl, "type Query { y: Int }");
    // And the old text again counts as a change once more.
    assert!(watcher.on_poll("type Query { x: Int }".to_string()).is_some());
}

#[test]
fn from_schema_source_picks_the_right_backend() {
    let file = SubgraphWatcher::from_schema_source(
        SchemaSource::File { file: "/config/a.graphql".to_string() },
        500,
    )
    .unwrap();
    match file.watcher() {
        SubgraphWatcherKind::File(w) => assert_eq!(w.path, "/config/a.graphql"),
        _ => panic!("expected a file watcher"),
    }

    let introspect = SubgraphWatcher::from_schema_source(
        SchemaSource::SubgraphIntrospection {
            subgraph_url: "http://localhost:4002/graphql".to_string(),
            introspection_headers: Some(vec![("x-test".to_string(), "1".to_string())]),
        },
        500,
    )
    .unwrap();
    match introspect.watcher() {
        SubgraphWatcherKind::Introspect(w) => {
            assert_eq!(w.endpoint, "http://localhost:4002/graphql");
            assert_eq!(w.polling_interval, 500);
            assert_eq!(w.headers, vec![("x-test".to_string(), "1".to_string())]);
            assert!(w.last_sdl.is_none());
        }
        _ => panic!("expected an introspection watcher"),
    }

    let remote = SubgraphWatcher::from_schema_source(
        SchemaSource::Subgraph {
            graphref: "my-graph@current".to_string(),
            subgraph: "products".to_string(),
        },
        500,
    )
    .unwrap();
    match remote.watcher() {
        SubgraphWatcherKind::Once(NonRepeatingFetch::RemoteSchema(r)) => {
            assert_eq!(r.graphref, "my-graph@current");
            assert_eq!(r.subgraph, "products");
        }
        _ => panic!("expected a one-shot registry fetch"),
    }

    let inline = SubgraphWatcher::from_schema_source(
        SchemaSource::Sdl { sdl: "type Query { x: Int }".to_string() },
        500,
    )
    .unwrap();
    match inline.watcher() {
        SubgraphWatcherKind::Once(NonRepeatingFetch::Sdl(s)) => {
            assert_eq!(s.sdl, "type Query { x: Int }");
        }
        _ => panic!("expected a one-shot inline source"),
    }
}
