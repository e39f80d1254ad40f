//! The dev-mode session: its option surface and the decisions it makes
//! around the router.
//!
//! Process management, file watching and HTTP stay outside; this module
//! decides which router configuration path is used, where the health check
//! points, and what a router-configuration change asks to be written.

use vstd::prelude::*;

use vstd::string::StringExecFns;

use crate::errors::RoverError;
use crate::federation::FederationVersion;

verus! {

/// Renders an error for the log and hands it back so the caller can carry
/// on; the printing itself happens at the session's edge.
pub fn log_err_and_continue(err: RoverError) -> (r: RoverError)
    ensures
        r == err,
{
    err
}

/// The dev-mode command surface.
pub struct Dev {
    pub opts: DevOpts,
}

/// Options of a dev-mode session.
pub struct DevOpts {
    pub supergraph_opts: SupergraphOpts,
}

/// The supergraph-level options of a dev-mode session.
pub struct SupergraphOpts {
    /// The port the graph router should listen on.
    pub supergraph_port: Option<u16>,
    /// The address the graph router should listen on.
    pub supergraph_address: Option<String>,
    /// The path to a router configuration file.
    pub router_config_path: Option<String>,
    /// The path to a supergraph configuration file.
    pub supergraph_config_path: Option<String>,
    /// A graph reference accessible in the registry.
    pub graph_ref: Option<String>,
    /// The federation version to compose under.
    pub federation_version: Option<FederationVersion>,
    /// The path to an offline license file.
    pub license: Option<String>,
}

/// How `/router.yaml` renders under a directory.
pub open spec fn router_yaml_under(dir: Seq<char>) -> Seq<char> {
    dir + seq!['/', 'r', 'o', 'u', 't', 'e', 'r', '.', 'y', 'a', 'm', 'l']
}

/// The router configuration path a session uses: the one the caller gave, or
/// `router.yaml` under the temporary configuration directory.
pub fn router_config_path(user_path: Option<String>, tmp_config_dir_path: &String) -> (r: String)
    ensures
        match user_path {
            Some(p) => r == p,
            None => r@ == router_yaml_under(tmp_config_dir_path@),
        },
{
    match user_path {
        Some(p) => p,
        None => {
            let mut out = tmp_config_dir_path.clone();
            out.append("/router.yaml");
            proof {
                reveal_strlit("/router.yaml");
                assert(out@ =~= router_yaml_under(tmp_config_dir_path@));
            }
            out
        }
    }
}

/// How the router's health endpoint renders for a host.
pub open spec fn healthcheck_endpoint_for(host: Seq<char>) -> Seq<char> {
    host + seq![':', '8', '0', '8', '8', '/', 'h', 'e', 'a', 'l', 't', 'h']
}

/// The endpoint polled until the router reports healthy: the router host on
/// the health port.
pub fn healthcheck_endpoint(host: &String) -> (r: String)
    ensures
        r@ == healthcheck_endpoint_for(host@),
{
    let mut out = host.clone();
    out.append(":8088/health");
    proof {
        reveal_strlit(":8088/health");
        assert(out@ =~= healthcheck_endpoint_for(host@));
    }
    out
}

/// A change reported by the router-configuration watcher.
pub enum RouterConfigMessage {
    /// The configuration file now holds these contents.
    Changed { contents: String },
}

/// What arrives on a dev-mode session's message stream.
pub enum RoverDevMessage {
    Config(RouterConfigMessage),
}

/// The paths a dev-mode session works with.
pub struct RoverDevRouterConfig {
    /// The router configuration file that is watched.
    pub config_path: String,
    /// The copy the router actually reads.
    pub tmp_config_path: String,
}

/// A dev-mode session's configuration.
pub struct RoverDevConfig {
    pub router: RoverDevRouterConfig,
}

/// What a dev-mode message asks to be done.
pub enum DevAction {
    /// Write these contents to the router's configuration copy.
    WriteRouterConfig { path: String, contents: String },
}

/// Decides what one dev-mode message asks for: a changed router
/// configuration is written to the router's configuration copy, verbatim.
pub fn dev_action_for_message(config: &RoverDevRouterConfig, message: RoverDevMessage) -> (r:
    DevAction)
    ensures
        match message {
            RoverDevMessage::Config(RouterConfigMessage::Changed { contents }) => r
                == (DevAction::WriteRouterConfig { path: config.tmp_config_path, contents }),
        },
{
    match message {
        RoverDevMessage::Config(RouterConfigMessage::Changed { contents }) => {
            DevAction::WriteRouterConfig { path: config.tmp_config_path.clone(), contents }
        }
    }
}

} // verus!
