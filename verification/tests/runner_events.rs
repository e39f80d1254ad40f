//! The composition runner's event stream: cycle ordering, coalescing, and
//! live-configuration updates.

use rover_composition::federation::FederationVersion;
use rover_composition::name_map::NameMap;
use rover_composition::runner::{
    CompositionEvent, CompositionOutcome, Runner, RunnerMessage,
};
use rover_composition::subgraph::FullyResolvedSubgraph;
use rover_composition::supergraph::FullyResolvedSupergraphConfig;

fn one_subgraph_runner() -> Runner {
    let mut subgraphs: NameMap<FullyResolvedSubgraph> = NameMap::new();
    subgraphs.insert(
        "products".to_string(),
        FullyResolvedSubgraph {
            routing_url: Some("http://localhost:4001".to_string()),
            schema: "type Query { p: Int }".to_string(),
            is_fed_two: false,
        },
    );
    Runner::new(FullyResolvedSupergraphConfig {
        subgraphs,
        federation_version: FederationVersion::LatestFedOne,
    })
}

fn success_outcome() -> CompositionOutcome {
    CompositionOutcome::Success {
        supergraph_sdl: "supergraph".to_string(),
        federation_version: FederationVersion::LatestFedOne,
        hints: vec![],
    }
}

#[test]
fn a_change_starts_one_cycle() {
    let mut runner = one_subgraph_runner();
    let (events, action) = runner.handle_message(RunnerMessage::SubgraphChanged {
        name: "products".to_string(),
        sdl: "type Query { p: String }".to_string(),
    });
    assert_eq!(events, vec![CompositionEvent::Started]);
    let action = action.expect("an idle runner starts composing");
    assert_eq!(action.subgraph_sdls.len(), 1);
    assert_eq!(action.subgraph_sdls[0].0, "products");
    assert_eq!(action.subgraph_sdls[0].1, "type Query { p: String }");
}

#[test]
fn changes_while_composing_coalesce_into_one_follow_up() {
    let mut runner = one_subgraph_runner();
    let (_, first_action) = runner.handle_message(RunnerMessage::SubgraphChanged {
        name: "products".to_string(),
        sdl: "type Query { a: Int }".to_string(),
    });
    assert!(first_action.is_some());

    // Two changes arrive while the first cycle is composing.
    let (events, action) = runner.handle_message(RunnerMessage::SubgraphChanged {
        name: "products".to_string(),
        sdl: "type Query { b: Int }".to_string(),
    });
    assert!(events.is_empty());
    assert!(action.is_none());
    let (events, action) = runner.handle_message(RunnerMessage::SubgraphChanged {
        name: "products".to_string(),
        sdl: "type Query { c: Int }".to_string(),
    });
    assert!(events.is_empty());
    assert!(action.is_none());

    // The running cycle finishes: its terminal event comes out, and exactly
    // one follow-up cycle starts on the latest contents.
    let (events, action) =
        runner.handle_message(RunnerMessage::CompositionDone { outcome: success_outcome() });
    assert_eq!(events.len(), 2);
    assert!(matches!(events[0], CompositionEvent::Success(_)));
    assert_eq!(events[1], CompositionEvent::Started);
    let action = action.expect("the queued follow-up starts");
    assert_eq!(action.subgraph_sdls[0].1, "type Query { c: Int }");

    // The follow-up finishes without another queued cycle.
    let (events, action) =
        runner.handle_message(RunnerMessage::CompositionDone { outcome: success_outcome() });
    assert_eq!(events.len(), 1);
    assert!(matches!(events[0], CompositionEvent::Success(_)));
    assert!(action.is_none());
}

#[test]
fn started_precedes_the_terminal_event() {
    let mut runner = one_subgraph_runner();
    let mut trace: Vec<CompositionEvent> = Vec::new();
    let messages = vec![
        RunnerMessage::SubgraphChanged {
            name: "products".to_string(),
            sdl: "type Query { a: Int }".to_string(),
        },
        RunnerMessage::SubgraphChanged {
            name: "reviews".to_string(),
            sdl: "type Query { r: Int }".to_string(),
        },
        RunnerMessage::CompositionDone {
            outcome: CompositionOutcome::BuildErrors { errors: vec!["boom".to_string()] },
        },
        RunnerMessage::CompositionDone { outcome: success_outcome() },
        RunnerMessage::SubgraphRemoved { name: "reviews".to_string() },
        RunnerMessage::CompositionDone {
            outcome: CompositionOutcome::Failed { cause: "no binary".to_string() },
        },
    ];
    for message in messages {
        let (events, _) = runner.handle_message(message);
        trace.extend(events);
    }
    // At every terminal event, strictly more cycles have started than have
    // finished before it.
    let mut started = 0usize;
    let mut finished = 0usize;
    for event in &trace {
        match event {
            CompositionEvent::Started => started += 1,
            CompositionEvent::Success(_) | CompositionEvent::Error(_) => {
                assert!(started > finished, "a terminal event without a matching Started");
                finished += 1;
            }
            _ => {}
        }
    }
    assert_eq!(started, 3);
    assert_eq!(finished, 3);
}

#[test]
fn subgraph_set_changes_are_announced_before_started() {
    let mut runner = one_subgraph_runner();
    let (events, _) = runner.handle_message(RunnerMessage::SubgraphChanged {
        name: "reviews".to_string(),
        sdl: "type Query { r: Int }".to_string(),
    });
    assert_eq!(events.len(), 2);
    assert!(matches!(
        &events[0],
        CompositionEvent::SubgraphAdded(added) if added.name == "reviews"
    ));
    assert_eq!(events[1], CompositionEvent::Started);

    let (_, _) =
        runner.handle_message(RunnerMessage::CompositionDone { outcome: success_outcome() });
    let (events, action) =
        runner.handle_message(RunnerMessage::SubgraphRemoved { name: "reviews".to_string() });
    assert_eq!(events.len(), 2);
    assert!(matches!(
        &events[0],
        CompositionEvent::SubgraphRemoved(removed) if removed.name == "reviews"
    ));
    assert_eq!(events[1], CompositionEvent::Started);
    let action = action.expect("a removal recomposes");
    assert_eq!(action.subgraph_sdls.len(), 1);
    assert_eq!(action.subgraph_sdls[0].0, "products");
}

#[test]
fn a_config_change_diffs_the_subgraph_set() {
    let runner = one_subgraph_runner();
    // The new configuration drops "products" and brings "reviews".
    let messages = rover_composition::runner::config_update_messages(
        &runner.subgraphs,
        vec![("reviews".to_string(), "type Query { r: Int }".to_string())],
    );
    assert_eq!(messages.len(), 2);
    assert!(matches!(
        &messages[0],
        RunnerMessage::SubgraphRemoved { name } if name == "products"
    ));
    assert!(matches!(
        &messages[1],
        RunnerMessage::SubgraphChanged { name, sdl }
            if name == "reviews" && sdl == "type Query { r: Int }"
    ));

    // A configuration with the same subgraph yields only the change.
    let messages = rover_composition::runner::config_update_messages(
        &runner.subgraphs,
        vec![("products".to_string(), "type Query { p: String }".to_string())],
    );
    assert_eq!(messages.len(), 1);
    assert!(matches!(&messages[0], RunnerMessage::SubgraphChanged { .. }));
}

#[test]
fn removing_an_unknown_subgraph_does_nothing() {
    let mut runner = one_subgraph_runner();
    let (events, action) =
        runner.handle_message(RunnerMessage::SubgraphRemoved { name: "unknown".to_string() });
    assert!(events.is_empty());
    assert!(action.is_none());
}

#[test]
fn a_change_rederives_the_federation_tier() {
    let mut runner = one_subgraph_runner();
    let fed_two_sdl =
        "extend schema @link(url: \"https://specs.apollo.dev/federation/v2.3\")\n\ntype Query { p: Int }";
    let (_, action) = runner.handle_message(RunnerMessage::SubgraphChanged {
        name: "products".to_string(),
        sdl: fed_two_sdl.to_string(),
    });
    let action = action.unwrap();
    assert_eq!(action.subgraph_sdls[0].1, fed_two_sdl);
}
