//! Development defaults for the node's own command-line parameters.

use vstd::prelude::*;
use vstd::string::StringExecFns;

use crate::custom_param::YeeCliConfig;
use crate::dev::{get_run_params, is_dev_routers, ROOT_PORT};
use crate::error::Error;
use crate::text::{decimal, push_decimal};

verus! {

/// The identifier of the development chain.
pub const DEV_CHAIN_SPEC_ID: &'static str = "dev";

/// The development defaults apply: the chain is the development chain and
/// the parameters ask for them.
pub open spec fn dev_override_applies(chain_spec_id: Seq<char>, dev_params: bool) -> bool {
    chain_spec_id == DEV_CHAIN_SPEC_ID@ && dev_params
}

/// The parameters after the development defaults went into them: a port
/// and routers that were given stay, and each that was not given takes the
/// development default.
pub open spec fn with_dev_defaults(before: YeeCliConfig, after: YeeCliConfig) -> bool {
    &&& after.dev_params == before.dev_params
    &&& after.root_port == match before.root_port {
        Some(port) => Some(port),
        None => Some(ROOT_PORT),
    }
    &&& if before.root_bootnodes_routers@.len() > 0 {
        after.root_bootnodes_routers == before.root_bootnodes_routers
    } else {
        is_dev_routers(after.root_bootnodes_routers@)
    }
}

/// On the development chain, and where the parameters ask for it, fills the
/// root port and the routers that the command line left open with the
/// development defaults. In every other case the parameters stay as they
/// are.
pub fn process_dev_param(chain_spec_id: &str, custom_args: &mut YeeCliConfig) -> (r: Result<
    (),
    Error,
>)
    ensures
        r is Ok,
        dev_override_applies(chain_spec_id@, old(custom_args).dev_params) ==> with_dev_defaults(
            *old(custom_args),
            *final(custom_args),
        ),
        !dev_override_applies(chain_spec_id@, old(custom_args).dev_params) ==> *final(custom_args)
            == *old(custom_args),
{
    let is_dev = String::from_str(chain_spec_id) == String::from_str(DEV_CHAIN_SPEC_ID);
    if is_dev && custom_args.dev_params {
        let run_params = match get_run_params() {
            Ok(run_params) => run_params,
            Err(e) => {
                return Err(e);
            },
        };
        if custom_args.root_port.is_none() {
            custom_args.root_port = Some(run_params.root_port);
        }
        if custom_args.root_bootnodes_routers.len() == 0 {
            custom_args.root_bootnodes_routers = run_params.root_bootnodes_routers;
        }
    }
    Ok(())
}

/// The flags that name `routers`, one after the other with nothing between
/// them.
pub open spec fn router_flags(routers: Seq<String>) -> Seq<char>
    decreases routers.len(),
{
    if routers.len() == 0 {
        Seq::empty()
    } else {
        router_flags(routers.drop_last()) + "--root-bootnodes-routers="@ + routers.last()@
    }
}

/// The command line that asks for a root port and routers.
pub open spec fn dev_params_text(root_port: u16, routers: Seq<String>) -> Seq<char> {
    "--root-port="@ + decimal(root_port as nat) + " "@ + router_flags(routers)
}

/// The command line that asks for what the development defaults give.
pub fn get_dev_params(root_port: u16, root_bootnodes_routers: &Vec<String>) -> (params: String)
    ensures
        params@ == dev_params_text(root_port, root_bootnodes_routers@),
{
    let mut params = String::from_str("--root-port=");
    push_decimal(&mut params, root_port as u128);
    params.append(" ");
    let ghost head = params@;
    assert(head + router_flags(root_bootnodes_routers@.take(0)) == head);
    let mut i: usize = 0;
    while i < root_bootnodes_routers.len()
        invariant
            i <= root_bootnodes_routers.len(),
            params@ == head + router_flags(root_bootnodes_routers@.take(i as int)),
        decreases root_bootnodes_routers.len() - i,
    {
        params.append("--root-bootnodes-routers=");
        params.append(root_bootnodes_routers[i].as_str());
        i += 1;
        proof {
            let done = root_bootnodes_routers@.take(i as int);
            assert(done.drop_last() == root_bootnodes_routers@.take(i - 1));
            assert(done.last() == root_bootnodes_routers@[i - 1]);
            assert(params@ == head + router_flags(done));
        }
    }
    assert(root_bootnodes_routers@.take(root_bootnodes_routers.len() as int)
        == root_bootnodes_routers@);
    params
}

/// After the development defaults went in, the root chain has both a port
/// and a router.
pub proof fn lemma_dev_defaults_populate(before: YeeCliConfig, after: YeeCliConfig)
    requires
        with_dev_defaults(before, after),
    ensures
        after.root_port is Some,
        after.root_bootnodes_routers@.len() > 0,
{
}

} // verus!
