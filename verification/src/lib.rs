//! Core of a local orchestration engine for federated schema composition.
//!
//! The library models the watch–resolve–compose pipeline: subgraph schema
//! sources and their watchers, the three-stage supergraph configuration
//! resolver (unresolved, lazily resolved, fully resolved), and the composition
//! runner that turns watched changes into an ordered event stream.  All
//! behaviour is stated in contracts; the few places where outside crates or
//! injected capabilities do work are isolated behind narrow interfaces.

pub mod dev;
pub mod effects;
pub mod errors;
pub mod federation;
pub mod graph_ref;
pub mod input_field;
pub mod lsp;
pub mod multi;
pub mod name_map;
pub mod names;
pub mod runner;
pub mod subgraph;
pub mod supergraph;
pub mod watcher;
