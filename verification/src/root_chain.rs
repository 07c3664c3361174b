//! Assembling the configuration of the root chain's light client.

use vstd::prelude::*;
use vstd::string::StringExecFns;
use vstd::string::StrSliceExecFns;

use crate::bootnodes_router::BootnodesRouterConf;
use crate::chain_spec::ChainSpec;
use crate::error::Error;
use crate::service::NodeRole;
use crate::text::{
    contains, decimal, decimal_string, lemma_replace_all_absent, lemma_replace_all_first,
    occurs_at, replace, replace_all,
};

verus! {

/// The name under which the root chain's client announces itself.
pub const IMPL_NAME: &'static str = "yee-node";

/// A node name has fewer characters than this.
pub const NODE_NAME_MAX_LENGTH: usize = 32;

/// The shard whose seed peers the root chain's client dials, and for which
/// it asks the shard topology.
pub const ROOT_SHARD_NUM: u16 = 0;

/// What the root chain is started with. `H` is the handle by which a part of
/// the node asks for the whole process to stop or restart.
#[derive(Debug)]
pub struct Params<H> {
    /// The database path of the branch chain.
    pub database_path: String,
    /// The keystore path of the branch chain.
    pub keystore_path: String,
    pub version_commit: &'static str,
    pub version_version: &'static str,
    pub trigger_exit: H,
    pub root_bootnodes_router_conf: Option<BootnodesRouterConf>,
    pub root_port: Option<u16>,
}

/// An address to listen on: an IPv4 address and a TCP port.
#[derive(Debug, Clone, Copy, PartialEq, Eq)]
pub struct ListenAddress {
    pub ip: (u8, u8, u8, u8),
    pub tcp_port: u16,
}

/// What the provider of initial information says of the shard topology. `C`
/// is the sharding context, which this crate only passes on.
#[derive(Debug)]
pub struct InitialInfo<C> {
    pub context: C,
    pub shard_num: u16,
    pub shard_count: u16,
}

/// The configuration of the root chain's light client.
#[derive(Debug)]
pub struct RootChainConfig<H, C> {
    pub chain_spec: ChainSpec,
    pub impl_name: &'static str,
    pub impl_commit: &'static str,
    pub impl_version: &'static str,
    pub name: String,
    pub keystore_path: String,
    pub database_path: String,
    pub roles: NodeRole,
    pub boot_nodes: Vec<String>,
    pub listen_addresses: Vec<ListenAddress>,
    pub trigger_exit: Option<H>,
    pub shard_num: u16,
    pub shard_count: u16,
    pub context: Option<C>,
}

impl<H, C> RootChainConfig<H, C> {
    /// Once the shard topology is known, the node's shard is one of the
    /// shards that exist.
    pub open spec fn wf(self) -> bool {
        self.context is Some ==> self.shard_num < self.shard_count
    }
}

/// Where the root chain's specification lies, seen from the branch chain's
/// database path.
pub open spec fn spec_path_of(database_path: Seq<char>) -> Seq<char> {
    database_path + "/../../../conf/root-chain-spec.json"@
}

/// The root chain's database path: the branch chain's, with each `chains`
/// in it turned into `root_chains`.
pub open spec fn root_database_path(database_path: Seq<char>) -> Seq<char> {
    replace_all(database_path, "chains"@, "root_chains"@)
}

/// The seed peers for shard `shard_num` in a router's answer: those under
/// the shard's number in decimal, none where the answer or the key is
/// missing.
pub open spec fn boot_nodes_of(conf: Option<BootnodesRouterConf>, shard_num: u16) -> Seq<String> {
    match conf {
        Some(c) => if c@.contains_key(decimal(shard_num as nat)) {
            c@[decimal(shard_num as nat)].native@
        } else {
            Seq::empty()
        },
        None => Seq::empty(),
    }
}

/// The addresses to listen on for a configured port: every IPv4 interface
/// on that port, and nothing of its own where no port is configured.
pub open spec fn listen_addresses_of(root_port: Option<u16>) -> Seq<ListenAddress> {
    match root_port {
        Some(port) => seq![ListenAddress { ip: (0, 0, 0, 0), tcp_port: port }],
        None => Seq::empty(),
    }
}

/// A name may be given to a node.
pub open spec fn fits_node_name(name: Seq<char>) -> bool {
    name.len() < NODE_NAME_MAX_LENGTH
}

/// `config` is what `params`, a loaded specification and a node name make:
/// the identity of the root chain's client, the paths, the light role, the
/// exit handle, the seed peers of the root shard and the listen address,
/// with the shard topology still open.
pub open spec fn is_assembled<H: Clone, C>(
    config: RootChainConfig<H, C>,
    params: Params<H>,
    spec: ChainSpec,
    name: String,
) -> bool {
    &&& config.chain_spec == spec
    &&& config.impl_name@ == IMPL_NAME@
    &&& config.impl_commit == params.version_commit
    &&& config.impl_version == params.version_version
    &&& config.name == name
    &&& config.keystore_path@ == params.keystore_path@
    &&& config.database_path@ == root_database_path(params.database_path@)
    &&& config.roles == NodeRole::Light
    &&& config.boot_nodes@ == boot_nodes_of(params.root_bootnodes_router_conf, ROOT_SHARD_NUM)
    &&& config.listen_addresses@ == listen_addresses_of(params.root_port)
    &&& config.trigger_exit matches Some(handle) && cloned(params.trigger_exit, handle)
    &&& config.shard_num == ROOT_SHARD_NUM
    &&& config.shard_count == 0
    &&& config.context is None
}

/// The message of the error that ends the assembly where no node name could
/// be had.
pub open spec fn node_name_failure() -> Seq<char> {
    "Generate node name failed"@
}

/// Where the root chain's specification lies, seen from the branch chain's
/// database path.
pub fn root_chain_spec_path(database_path: &str) -> (path: String)
    ensures
        path@ == spec_path_of(database_path@),
{
    let mut path = String::from_str(database_path);
    path.append("/../../../conf/root-chain-spec.json");
    path
}

/// The chain specification that was read, or the error that says that none
/// could be.
pub fn load_spec(loaded: Option<ChainSpec>) -> (r: Result<ChainSpec, Error>)
    ensures
        r == match loaded {
            Some(spec) => Ok::<ChainSpec, Error>(spec),
            None => Err(Error::LoadSpecFailed),
        },
{
    match loaded {
        Some(spec) => Ok(spec),
        None => Err(Error::LoadSpecFailed),
    }
}

/// `Iterator::next` of names on `Generator::with_naming(Name::Numbered)`: a
/// random adjective, a random noun and a random number, joined by hyphens.
/// Nothing is claimed of the result: it depends on chance.
#[verifier::external_body]
fn next_numbered_name() -> (candidate: Option<String>) {
    names::Generator::with_naming(names::Name::Numbered).next()
}

/// The candidate, if it may be given to a node.
pub fn accept_node_name(candidate: String) -> (r: Option<String>)
    ensures
        r == if fits_node_name(candidate@) {
            Some(candidate)
        } else {
            None::<String>
        },
{
    if candidate.as_str().unicode_len() < NODE_NAME_MAX_LENGTH {
        Some(candidate)
    } else {
        None
    }
}

/// A pronounceable node name: the first generated candidate that fits.
/// Candidates are drawn until one fits; `None` means that `u64::MAX` of
/// them were drawn in vain.
pub fn generate_node_name() -> (r: Option<String>)
    ensures
        r matches Some(name) ==> fits_node_name(name@),
{
    let mut left: u64 = u64::MAX;
    while left > 0
        decreases left,
    {
        if let Some(candidate) = next_numbered_name() {
            if let Some(name) = accept_node_name(candidate) {
                return Some(name);
            }
        }
        left -= 1;
    }
    None
}

fn boot_nodes(conf: &Option<BootnodesRouterConf>, shard_num: u16) -> (nodes: Vec<String>)
    ensures
        nodes@ == boot_nodes_of(*conf, shard_num),
{
    match conf {
        Some(c) => {
            let key = decimal_string(shard_num as u128);
            match c.get(key.as_str()) {
                Some(shard) => shard.native.clone(),
                None => Vec::new(),
            }
        },
        None => Vec::new(),
    }
}

/// The configuration that `params`, a loaded specification and a node name
/// make, with the shard topology still open.
pub fn assemble_config<H: Clone, C>(params: &Params<H>, spec: ChainSpec, name: String) -> (config:
    RootChainConfig<H, C>)
    ensures
        is_assembled(config, *params, spec, name),
        config.wf(),
{
    let mut listen_addresses: Vec<ListenAddress> = Vec::new();
    match params.root_port {
        Some(root_port) => {
            listen_addresses.push(ListenAddress { ip: (0, 0, 0, 0), tcp_port: root_port });
        },
        None => {},
    }
    RootChainConfig {
        chain_spec: spec,
        impl_name: IMPL_NAME,
        impl_commit: params.version_commit,
        impl_version: params.version_version,
        name,
        keystore_path: params.keystore_path.clone(),
        database_path: replace(params.database_path.as_str(), "chains", "root_chains"),
        roles: NodeRole::Light,
        boot_nodes: boot_nodes(&params.root_bootnodes_router_conf, ROOT_SHARD_NUM),
        listen_addresses,
        trigger_exit: Some(params.trigger_exit.clone()),
        shard_num: ROOT_SHARD_NUM,
        shard_count: 0,
        context: None,
    }
}

/// Assembles the configuration of the root chain's light client from
/// `params` and from what reading the chain specification gave, with a
/// freshly generated node name. The shard topology is still open in it.
pub fn create_config<H: Clone, C>(params: &Params<H>, spec: Option<ChainSpec>) -> (r: Result<
    RootChainConfig<H, C>,
    Error,
>)
    ensures
        spec is None ==> r == Err::<RootChainConfig<H, C>, Error>(Error::LoadSpecFailed),
        spec matches Some(loaded) ==> match r {
            Ok(config) => {
                &&& is_assembled(config, *params, loaded, config.name)
                &&& fits_node_name(config.name@)
                &&& config.wf()
            },
            Err(e) => e matches Error::Msg(m) && m@ == node_name_failure(),
        },
{
    let spec = match load_spec(spec) {
        Ok(spec) => spec,
        Err(e) => {
            return Err(e);
        },
    };
    match generate_node_name() {
        Some(name) => Ok(assemble_config(params, spec, name)),
        None => Err(Error::Msg(String::from_str("Generate node name failed"))),
    }
}

/// Folds the shard topology into an assembled configuration. Without an
/// answer of the provider, or with one that names a shard that does not
/// exist, the topology is unavailable.
pub fn resolve_topology<H, C>(config: RootChainConfig<H, C>, info: Option<InitialInfo<C>>) -> (r:
    Result<RootChainConfig<H, C>, Error>)
    ensures
        match info {
            Some(i) => if i.shard_num < i.shard_count {
                &&& r matches Ok(resolved)
                &&& resolved == (RootChainConfig {
                    shard_num: i.shard_num,
                    shard_count: i.shard_count,
                    context: Some(i.context),
                    ..config
                })
                &&& resolved.wf()
            } else {
                r == Err::<RootChainConfig<H, C>, Error>(Error::TopologyUnavailable)
            },
            None => r == Err::<RootChainConfig<H, C>, Error>(Error::TopologyUnavailable),
        },
{
    match info {
        Some(i) => {
            if i.shard_num < i.shard_count {
                let mut resolved = config;
                resolved.shard_num = i.shard_num;
                resolved.shard_count = i.shard_count;
                resolved.context = Some(i.context);
                Ok(resolved)
            } else {
                Err(Error::TopologyUnavailable)
            }
        },
        None => Err(Error::TopologyUnavailable),
    }
}

proof fn lemma_first_chains(before: Seq<char>, after: Seq<char>)
    requires
        !contains(before, "chains"@),
    ensures
        "chains"@.len() == 6,
        forall|j: int|
            0 <= j < before.len() ==> !occurs_at(before + "chains"@ + after, "chains"@, j),
{
    reveal_strlit("chains");
    let word = "chains"@;
    let path = before + word + after;
    assert forall|j: int| 0 <= j < before.len() implies !occurs_at(path, word, j) by {
        if occurs_at(path, word, j) {
            let found = path.subrange(j, j + 6);
            if j + 6 <= before.len() {
                assert(before.subrange(j, j + 6) == found);
                assert(occurs_at(before, word, j));
            } else {
                let k = before.len() - j;
                assert(found[k] == path[before.len() as int]);
                assert(path[before.len() as int] == word[0]);
                assert(found[k] == word[k]);
            }
        }
    }
}

/// A database path without `chains` in it is the root chain's database path
/// too.
pub proof fn lemma_root_database_path_absent(path: Seq<char>)
    requires
        !contains(path, "chains"@),
    ensures
        root_database_path(path) == path,
{
    lemma_replace_all_absent(path, "chains"@, "root_chains"@);
}

/// Every `chains` in a database path is rewritten, from the left: up to and
/// including the first one, only that one changes, and what follows it is
/// rewritten in the same way.
pub proof fn lemma_root_database_path_first(before: Seq<char>, after: Seq<char>)
    requires
        !contains(before, "chains"@),
    ensures
        root_database_path(before + "chains"@ + after) == before + "root_chains"@
            + root_database_path(after),
{
    lemma_first_chains(before, after);
    lemma_replace_all_first(before, after, "chains"@, "root_chains"@);
}

/// In a database path that holds `chains` once, only that part changes: what
/// stands before it and what stands after it are kept.
pub proof fn lemma_root_database_path_single(before: Seq<char>, after: Seq<char>)
    requires
        !contains(before, "chains"@),
        !contains(after, "chains"@),
    ensures
        root_database_path(before + "chains"@ + after) == before + "root_chains"@ + after,
{
    lemma_root_database_path_first(before, after);
    lemma_root_database_path_absent(after);
}

} // verus!
