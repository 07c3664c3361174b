//! Node-lifecycle orchestration for a sharded chain client.

pub mod bootnodes_router;
pub mod chain_spec;
pub mod cli;
pub mod custom_param;
pub mod dev;
pub mod dev_param;
pub mod error;
pub mod monitor;
pub mod root_chain;
pub mod service;
pub mod text;
