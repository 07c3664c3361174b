//! The parameters that a development node runs with where none are given.

use vstd::prelude::*;
use vstd::string::StringExecFns;

use crate::error::Error;

verus! {

/// The port of the root chain's peer-to-peer protocol on a development node.
pub const ROOT_PORT: u16 = 30335;

/// The bootnodes router of the root chain on a development node.
pub const ROOT_BOOTNODES_ROUTER: &'static str = "http://127.0.0.1:50001";

/// The root-chain parameters of a development node.
#[derive(Debug, Clone, PartialEq, Eq)]
pub struct RunParams {
    pub root_port: u16,
    pub root_bootnodes_routers: Vec<String>,
}

/// `routers` names the development router and nothing else.
pub open spec fn is_dev_routers(routers: Seq<String>) -> bool {
    routers.len() == 1 && routers[0]@ == ROOT_BOOTNODES_ROUTER@
}

/// The root-chain parameters of a development node: the development port
/// and the one development router.
pub fn get_run_params() -> (r: Result<RunParams, Error>)
    ensures
        r matches Ok(params) && params.root_port == ROOT_PORT && is_dev_routers(
            params.root_bootnodes_routers@,
        ),
{
    let root_port = ROOT_PORT;
    let mut root_bootnodes_routers: Vec<String> = Vec::new();
    root_bootnodes_routers.push(String::from_str(ROOT_BOOTNODES_ROUTER));
    Ok(RunParams { root_port, root_bootnodes_routers })
}

} // verus!
