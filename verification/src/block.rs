//! Block-level data threaded through a dispatch.

use vstd::prelude::*;

verus! {

/// Number of a block within its chain.
pub type BlockNumber = i32;

/// Identifies the deployment whose data sources are being indexed.
#[derive(Clone, Debug)]
pub struct DeploymentHash {
    pub hash: String,
}

/// Locates a deployment for metric registration.
#[derive(Clone, Debug)]
pub struct DeploymentLocator {
    pub id: i32,
    pub hash: String,
}

/// Opaque pointer identifying the block at which a trigger occurred.
/// Passed through a dispatch unmodified.
#[derive(Clone, Debug)]
pub struct BlockPtr {
    pub number: BlockNumber,
    pub hash: Vec<u8>,
}

/// One entity change produced by handler execution.
#[derive(Clone, Debug)]
pub struct EntityModification {
    pub entity: String,
    pub id: String,
}

/// The mutable accumulator of entity changes produced by handler execution
/// so far. Ownership transfers by move into each dispatch and back out on
/// completion; the state is never aliased across concurrent dispatches.
#[derive(Debug)]
pub struct BlockState {
    pub modifications: Vec<EntityModification>,
}

impl BlockState {
    /// A fresh accumulator with no entity changes.
    pub fn new() -> (r: BlockState)
        ensures
            r.modifications@.len() == 0,
    {
        BlockState { modifications: Vec::new() }
    }

    /// Records one further entity change.
    pub fn record(&mut self, m: EntityModification)
        ensures
            final(self).modifications@ == old(self).modifications@.push(m),
    {
        self.modifications.push(m);
    }
}

} // verus!
