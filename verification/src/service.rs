//! The node's own part of the service configuration.

use vstd::prelude::*;

use crate::bootnodes_router::BootnodesRouterConf;
use crate::root_chain::Params;

verus! {

/// The name under which the branch node announces itself.
pub const IMPL_NAME: &'static str = "yee-branch-node";

/// Whether a node keeps full state or follows headers only.
#[derive(Debug, Clone, Copy, PartialEq, Eq)]
pub enum NodeRole {
    Full,
    Light,
}

/// What the branch node adds to the service configuration. `H` is the handle
/// by which a part of the node asks for the whole process to stop or restart.
#[derive(Debug)]
pub struct NodeConfig<H> {
    pub root_bootnodes_router_conf: Option<BootnodesRouterConf>,
    pub root_port: Option<u16>,
    pub version_commit: &'static str,
    pub version_version: &'static str,
    pub trigger_exit: Option<H>,
}

impl<H> NodeConfig<H> {
    /// The configuration before anything is known: no root-chain parameters,
    /// empty version strings, no exit handle.
    pub fn new() -> (config: NodeConfig<H>)
        ensures
            config.root_bootnodes_router_conf is None,
            config.root_port is None,
            config.version_commit@ == Seq::<char>::empty(),
            config.version_version@ == Seq::<char>::empty(),
            config.trigger_exit is None,
    {
        proof {
            reveal_strlit("");
        }
        NodeConfig {
            root_bootnodes_router_conf: None,
            root_port: None,
            version_commit: "",
            version_version: "",
            trigger_exit: None,
        }
    }

    /// The parameters with which the root chain is started beside a service
    /// that runs with this configuration and the given paths.
    pub fn root_chain_params(self, database_path: String, keystore_path: String) -> (params: Params<
        H,
    >)
        requires
            self.trigger_exit is Some,
        ensures
            params == (Params {
                database_path,
                keystore_path,
                version_commit: self.version_commit,
                version_version: self.version_version,
                trigger_exit: self.trigger_exit->0,
                root_bootnodes_router_conf: self.root_bootnodes_router_conf,
                root_port: self.root_port,
            }),
    {
        let NodeConfig {
            root_bootnodes_router_conf,
            root_port,
            version_commit,
            version_version,
            trigger_exit,
        } = self;
        Params {
            database_path,
            keystore_path,
            version_commit,
            version_version,
            trigger_exit: trigger_exit.unwrap(),
            root_bootnodes_router_conf,
            root_port,
        }
    }
}

} // verus!
