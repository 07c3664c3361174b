//! The node's own command-line parameters, and how they enter the node's
//! configuration.

use vstd::prelude::*;

use crate::bootnodes_router::BootnodesRouterConf;
use crate::error::Error;
use crate::service::NodeConfig;

verus! {

/// The node's own command-line parameters.
#[derive(Debug, Clone, PartialEq, Eq)]
pub struct YeeCliConfig {
    /// The bootnodes routers of the root chain, as URLs.
    pub root_bootnodes_routers: Vec<String>,
    /// The TCP port of the root chain's peer-to-peer protocol.
    pub root_port: Option<u16>,
    /// Whether a development chain runs with the development parameters.
    pub dev_params: bool,
}

impl Default for YeeCliConfig {
    fn default() -> (config: YeeCliConfig)
        ensures
            config.root_bootnodes_routers@.len() == 0,
            config.root_port is None,
            !config.dev_params,
    {
        YeeCliConfig { root_bootnodes_routers: Vec::new(), root_port: None, dev_params: false }
    }
}

/// What the executable says of itself.
#[derive(Debug, Clone, Copy)]
pub struct VersionInfo {
    pub name: &'static str,
    pub commit: &'static str,
    pub version: &'static str,
    pub executable_name: &'static str,
    pub author: &'static str,
    pub description: &'static str,
}

/// The router configuration that the node runs with: the fetched one where
/// routers are named and the fetch gave one, else the one it had.
pub open spec fn merged_router_conf(
    had: Option<BootnodesRouterConf>,
    custom_args: YeeCliConfig,
    fetched: Option<BootnodesRouterConf>,
) -> Option<BootnodesRouterConf> {
    if custom_args.root_bootnodes_routers@.len() > 0 && fetched is Some {
        fetched
    } else {
        had
    }
}

/// Whether the parameters name a router to ask for the root chain's seed
/// peers.
pub fn needs_router_conf(custom_args: &YeeCliConfig) -> (b: bool)
    ensures
        b == (custom_args.root_bootnodes_routers@.len() > 0),
{
    custom_args.root_bootnodes_routers.len() > 0
}

/// Enters the command-line parameters and the version into the node's
/// configuration. `fetched` is what the named routers answered; `None`
/// where none was asked or none answered, which leaves the router
/// configuration as it was.
pub fn process_custom_args<H>(
    config: &mut NodeConfig<H>,
    custom_args: &YeeCliConfig,
    version: &VersionInfo,
    fetched: Option<BootnodesRouterConf>,
) -> (r: Result<(), Error>)
    ensures
        r is Ok,
        final(config).root_bootnodes_router_conf == merged_router_conf(
            old(config).root_bootnodes_router_conf,
            *custom_args,
            fetched,
        ),
        final(config).root_port == custom_args.root_port,
        final(config).version_commit == version.commit,
        final(config).version_version == version.version,
        final(config).trigger_exit == old(config).trigger_exit,
{
    if custom_args.root_bootnodes_routers.len() > 0 {
        match fetched {
            Some(root_bootnodes_router_conf) => {
                config.root_bootnodes_router_conf = Some(root_bootnodes_router_conf);
            },
            None => {},
        }
    }
    config.root_port = custom_args.root_port;
    config.version_commit = version.commit;
    config.version_version = version.version;
    Ok(())
}

} // verus!
