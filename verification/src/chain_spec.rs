//! What this crate reads of a chain specification.

use vstd::prelude::*;

verus! {

/// A chain specification, as far as node start-up looks into it.
#[derive(Debug, Clone, PartialEq, Eq)]
pub struct ChainSpec {
    /// The identifier of the chain.
    pub id: String,
    /// The name of the chain, for people.
    pub name: String,
}

} // verus!
