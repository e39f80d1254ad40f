//! The editor-integration consumer: its errors, its configuration, and the
//! decisions that turn composition events into editor notifications.
//!
//! The transport and the language-server calls themselves live outside; this
//! module decides, for every composition event, which notifications are due
//! and in which order.

use vstd::prelude::*;
use vstd::string::StrSliceExecFns;
use vstd::string::StringExecFns;

use crate::errors::ResolveSupergraphConfigError;
use crate::federation::FederationVersion;
use crate::runner::{CompositionError, CompositionEvent};
use crate::subgraph::{schema_source_like, SchemaSource};
use crate::supergraph::LazilyResolvedSupergraphConfig;

verus! {

/// Why the editor session could not resolve its supergraph configuration.
#[derive(Debug)]
pub enum SupergraphConfigLazyResolutionError {
    /// The registry client could not be constructed.
    StudioClientInitialisationFailed { cause: String },
    /// The remote subgraphs could not be loaded.
    LoadRemoteSubgraphsFailed { cause: String },
    /// The local supergraph configuration file could not be loaded.
    LoadLocalSupergraphConfigFailed { cause: String },
    /// Local and remote parts could not be resolved into one configuration.
    ResolveSupergraphConfigFailed(ResolveSupergraphConfigError),
    /// The supergraph configuration path has no parent directory.
    PathDoesNotPointToAFile { path: String },
}

/// The configuration handed to the language server.
#[derive(Debug, PartialEq, Eq)]
pub struct LspConfig {
    pub root_uri: String,
    pub enable_auto_composition: bool,
    pub force_federation: bool,
    pub disable_telemetry: bool,
}

/// Builds the language server's configuration: the content root when one is
/// known, with auto-composition, forced federation and telemetry suppression
/// all off.
pub fn language_server_config(supergraph_content_root: Option<String>) -> (r: LspConfig)
    ensures
        match supergraph_content_root {
            Some(root) => r.root_uri == root,
            None => r.root_uri@ == Seq::<char>::empty(),
        },
        !r.enable_auto_composition,
        !r.force_federation,
        !r.disable_telemetry,
{
    let root_uri = match supergraph_content_root {
        Some(root) => root,
        None => String::new(),
    };
    LspConfig {
        root_uri,
        enable_auto_composition: false,
        force_federation: false,
        disable_telemetry: false,
    }
}

/// An absolute path starts at the filesystem root.
pub open spec fn is_absolute_path(p: Seq<char>) -> bool {
    p.len() > 0 && p[0] == '/'
}

/// The supergraph configuration path an editor session uses: an absolute
/// path is taken as given, a relative one is joined under the working
/// directory.
pub fn absolute_supergraph_yaml_path(supergraph_yaml: String, current_dir: &String) -> (r: String)
    ensures
        is_absolute_path(supergraph_yaml@) ==> r == supergraph_yaml,
        !is_absolute_path(supergraph_yaml@) ==> r@ == current_dir@ + seq!['/']
            + supergraph_yaml@,
{
    let len = supergraph_yaml.as_str().unicode_len();
    if len > 0 && supergraph_yaml.as_str().get_char(0) == '/' {
        supergraph_yaml
    } else {
        let mut out = current_dir.clone();
        out.append("/");
        out.append(supergraph_yaml.as_str());
        proof {
            reveal_strlit("/");
            assert(out@ =~= current_dir@ + seq!['/'] + supergraph_yaml@);
        }
        out
    }
}

/// The content root for a supergraph configuration file: its parent
/// directory; a path without one does not point to a file.
pub fn supergraph_content_root(supergraph_yaml_path: String, parent: Option<String>) -> (r:
    Result<String, SupergraphConfigLazyResolutionError>)
    ensures
        match parent {
            Some(p) => r == Ok::<String, SupergraphConfigLazyResolutionError>(p),
            None => r == Err::<String, SupergraphConfigLazyResolutionError>(
                SupergraphConfigLazyResolutionError::PathDoesNotPointToAFile {
                    path: supergraph_yaml_path,
                },
            ),
        },
{
    match parent {
        Some(p) => Ok(p),
        None => Err(
            SupergraphConfigLazyResolutionError::PathDoesNotPointToAFile {
                path: supergraph_yaml_path,
            },
        ),
    }
}

/// The per-subgraph schema sources handed to the language server at startup,
/// in name order.
pub fn subgraph_schemas(config: &LazilyResolvedSupergraphConfig) -> (r: Vec<
    (String, SchemaSource),
>)
    ensures
        r@.len() == config.subgraphs@.len(),
        forall|i: int|
            0 <= i < r@.len() ==> (#[trigger] r@[i]).0@ == config.subgraphs@[i].0
                && schema_source_like(r@[i].1, config.subgraphs@[i].1.schema),
{
    let ghost s = config.subgraphs@;
    let n = config.subgraphs.len();
    let mut out: Vec<(String, SchemaSource)> = Vec::new();
    let mut i: usize = 0;
    while i < n
        invariant
            0 <= i <= n,
            n == s.len(),
            s == config.subgraphs@,
            out@.len() == i,
            forall|j: int|
                0 <= j < i ==> (#[trigger] out@[j]).0@ == s[j].0 && schema_source_like(
                    out@[j].1,
                    s[j].1.schema,
                ),
        decreases n - i,
    {
        let entry = config.subgraphs.get_at(i);
        out.push((entry.0.clone(), entry.1.schema.duplicate()));
        i = i + 1;
    }
    out
}

/// The federation version an editor session composes under when the
/// configuration names none: the second tier.
pub fn effective_federation_version(v: Option<FederationVersion>) -> (r: FederationVersion)
    ensures
        r == match v {
            Some(x) => x,
            None => FederationVersion::LatestFedTwo,
        },
{
    match v {
        Some(x) => x,
        None => FederationVersion::LatestFedTwo,
    }
}

/// One notification owed to the language server.
#[derive(Debug, PartialEq, Eq)]
pub enum LspAction {
    /// Report that a composition cycle began; it pairs with the result
    /// published when the cycle ends.
    NotifyCompositionBegan,
    /// Clear the diagnostics published on the supergraph configuration file.
    ClearDiagnostics,
    /// Publish a finished composition: the new supergraph SDL on success, and
    /// the composition process's hints or build errors.
    PublishCompositionResult { supergraph_sdl: Option<String>, messages: Vec<String> },
    /// Publish one diagnostic on the supergraph configuration file.
    PublishDiagnostic { message: String },
    /// Tell the server a subgraph joined.
    AddSubgraph { name: String, schema_source: SchemaSource },
    /// Tell the server a subgraph left.
    RemoveSubgraph { name: String },
}

/// The notifications one composition event owes the language server, in
/// order.  A begun cycle is announced; a successful or build-failed cycle
/// first clears old diagnostics and then publishes its result; a cycle that
/// could not run at all publishes one diagnostic; subgraph arrivals and
/// departures are forwarded.
pub fn lsp_actions_for_event(event: CompositionEvent) -> (r: Vec<LspAction>)
    ensures
        r@ == match event {
            CompositionEvent::Started => seq![LspAction::NotifyCompositionBegan],
            CompositionEvent::Success(s) => seq![
                LspAction::ClearDiagnostics,
                LspAction::PublishCompositionResult {
                    supergraph_sdl: Some(s.supergraph_sdl),
                    messages: s.hints,
                },
            ],
            CompositionEvent::Error(CompositionError::Build { source }) => seq![
                LspAction::ClearDiagnostics,
                LspAction::PublishCompositionResult { supergraph_sdl: None, messages: source },
            ],
            CompositionEvent::Error(CompositionError::Infrastructure { cause }) => seq![
                LspAction::PublishDiagnostic { message: cause },
            ],
            CompositionEvent::SubgraphAdded(added) => seq![
                LspAction::AddSubgraph { name: added.name, schema_source: added.schema_source },
            ],
            CompositionEvent::SubgraphRemoved(removed) => seq![
                LspAction::RemoveSubgraph { name: removed.name },
            ],
        },
{
    let mut out: Vec<LspAction> = Vec::new();
    match event {
        CompositionEvent::Started => {
            out.push(LspAction::NotifyCompositionBegan);
            proof {
                assert(out@ =~= seq![LspAction::NotifyCompositionBegan]);
            }
        }
        CompositionEvent::Success(s) => {
            out.push(LspAction::ClearDiagnostics);
            out.push(
                LspAction::PublishCompositionResult {
                    supergraph_sdl: Some(s.supergraph_sdl),
                    messages: s.hints,
                },
            );
            proof {
                assert(out@ =~= seq![
                    LspAction::ClearDiagnostics,
                    LspAction::PublishCompositionResult {
                        supergraph_sdl: Some(s.supergraph_sdl),
                        messages: s.hints,
                    },
                ]);
            }
        }
        CompositionEvent::Error(CompositionError::Build { source }) => {
            out.push(LspAction::ClearDiagnostics);
            out.push(
                LspAction::PublishCompositionResult { supergraph_sdl: None, messages: source },
            );
            proof {
                assert(out@ =~= seq![
                    LspAction::ClearDiagnostics,
                    LspAction::PublishCompositionResult {
                        supergraph_sdl: None,
                        messages: source,
                    },
                ]);
            }
        }
        CompositionEvent::Error(CompositionError::Infrastructure { cause }) => {
            out.push(LspAction::PublishDiagnostic { message: cause });
            proof {
                assert(out@ =~= seq![LspAction::PublishDiagnostic { message: cause }]);
            }
        }
        CompositionEvent::SubgraphAdded(added) => {
            out.push(
                LspAction::AddSubgraph { name: added.name, schema_source: added.schema_source },
            );
            proof {
                assert(out@ =~= seq![
                    LspAction::AddSubgraph {
                        name: added.name,
                        schema_source: added.schema_source,
                    },
                ]);
            }
        }
        CompositionEvent::SubgraphRemoved(removed) => {
            out.push(LspAction::RemoveSubgraph { name: removed.name });
            proof {
                assert(out@ =~= seq![LspAction::RemoveSubgraph { name: removed.name }]);
            }
        }
    }
    out
}

/// The command-line surface of the editor session.
pub struct Lsp {
    pub opts: LspOpts,
}

/// Options of the editor session: the absolute path to the supergraph
/// configuration file, when one is given.
pub struct LspOpts {
    pub supergraph_yaml: Option<String>,
}

} // verus!
