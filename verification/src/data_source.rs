//! Data sources and trigger matching.
//!
//! A data source identifies one indexing unit of a deployment. Its declared
//! handler bindings decide which handler, if any, processes a given trigger.

use vstd::prelude::*;
use crate::block::BlockNumber;

verus! {

/// Declares that triggers of one kind are processed by the named handler.
#[derive(Clone, Debug)]
pub struct HandlerBinding {
    pub trigger_kind: String,
    pub handler: String,
}

/// A raw occurrence (an on-chain event, an off-chain fetch completion, ...)
/// that may cause a handler to run, before any handler has been matched.
#[derive(Debug)]
pub struct TriggerData {
    pub kind: String,
    pub payload: String,
}

/// A trigger already bound to the name of the handler that must process it,
/// plus structured logging context.
#[derive(Debug)]
pub struct TriggerWithHandler {
    pub handler: String,
    pub logging_extras: String,
}

impl TriggerWithHandler {
    /// Name of the handler that must process this trigger.
    pub fn handler_name(&self) -> (r: &String)
        ensures
            r == &self.handler,
    {
        &self.handler
    }
}

/// An on-chain data source, identified by its manifest declaration.
#[derive(Debug)]
pub struct OnchainDataSource {
    pub name: String,
    pub manifest_idx: u32,
    pub address: Vec<u8>,
    pub creation_block: Option<BlockNumber>,
    pub handlers: Vec<HandlerBinding>,
}

/// An off-chain data source. It completes at most once; the block at which
/// it completed is tracked by the `done_at` marker so the pipeline does not
/// resubmit an already-finished data source.
#[derive(Debug)]
pub struct OffchainDataSource {
    pub name: String,
    pub manifest_idx: u32,
    pub creation_block: Option<BlockNumber>,
    pub handlers: Vec<HandlerBinding>,
    pub done_at: Option<BlockNumber>,
}

impl OffchainDataSource {
    /// Block at which this data source completed, if it has.
    pub fn done_at(&self) -> (r: Option<BlockNumber>)
        ensures
            r == self.done_at,
    {
        self.done_at
    }

    /// Marks (or clears) the completion block.
    pub fn set_done_at(&mut self, block: Option<BlockNumber>)
        ensures
            final(self).done_at == block,
            final(self).name == old(self).name,
            final(self).manifest_idx == old(self).manifest_idx,
            final(self).creation_block == old(self).creation_block,
            final(self).handlers == old(self).handlers,
    {
        self.done_at = block;
    }
}

/// One indexing unit of a deployment.
#[derive(Debug)]
pub enum DataSource {
    Onchain(OnchainDataSource),
    Offchain(OffchainDataSource),
}

/// The handler bound to the first binding whose trigger kind equals `kind`,
/// or `None` when no binding applies.
pub open spec fn matched_handler(handlers: Seq<HandlerBinding>, kind: Seq<char>) -> Option<Seq<char>>
    decreases handlers.len(),
{
    if handlers.len() == 0 {
        None
    } else if handlers[0].trigger_kind@ == kind {
        Some(handlers[0].handler@)
    } else {
        matched_handler(handlers.drop_first(), kind)
    }
}

impl DataSource {
    /// Declared name of the data source.
    pub fn name(&self) -> (r: &String)
        ensures
            r@ == self.name_spec(),
    {
        match self {
            DataSource::Onchain(ds) => &ds.name,
            DataSource::Offchain(ds) => &ds.name,
        }
    }

    pub open spec fn name_spec(&self) -> Seq<char> {
        match self {
            DataSource::Onchain(ds) => ds.name@,
            DataSource::Offchain(ds) => ds.name@,
        }
    }

    pub open spec fn manifest_idx_spec(&self) -> u32 {
        match self {
            DataSource::Onchain(ds) => ds.manifest_idx,
            DataSource::Offchain(ds) => ds.manifest_idx,
        }
    }

    pub open spec fn handlers_spec(&self) -> Seq<HandlerBinding> {
        match self {
            DataSource::Onchain(ds) => ds.handlers@,
            DataSource::Offchain(ds) => ds.handlers@,
        }
    }

    /// Block at which the data source was declared to start, if constrained.
    pub fn creation_block(&self) -> (r: Option<BlockNumber>)
        ensures
            r == self.creation_block_spec(),
    {
        match self {
            DataSource::Onchain(ds) => ds.creation_block,
            DataSource::Offchain(ds) => ds.creation_block,
        }
    }

    pub open spec fn creation_block_spec(&self) -> Option<BlockNumber> {
        match self {
            DataSource::Onchain(ds) => ds.creation_block,
            DataSource::Offchain(ds) => ds.creation_block,
        }
    }

    /// Completion marker of an off-chain data source; always `None` on-chain.
    pub open spec fn done_at_spec(&self) -> Option<BlockNumber> {
        match self {
            DataSource::Onchain(_) => None,
            DataSource::Offchain(ds) => ds.done_at,
        }
    }

    /// The data source as it stands after `set_done_at(block)`: unchanged
    /// when on-chain, the completion marker replaced when off-chain.
    pub open spec fn with_done_at(self, block: Option<BlockNumber>) -> DataSource {
        match self {
            DataSource::Onchain(ds) => DataSource::Onchain(ds),
            DataSource::Offchain(ds) => DataSource::Offchain(
                OffchainDataSource { done_at: block, ..ds },
            ),
        }
    }

    /// Two data sources are duplicates when their declared identities agree:
    /// same variant, same manifest index, same name, and (on-chain) the same
    /// address. Execution state such as the completion marker plays no part.
    pub open spec fn is_duplicate_spec(a: DataSource, b: DataSource) -> bool {
        match (a, b) {
            (DataSource::Onchain(x), DataSource::Onchain(y)) => {
                &&& x.manifest_idx == y.manifest_idx
                &&& x.name@ == y.name@
                &&& x.address@ == y.address@
            },
            (DataSource::Offchain(x), DataSource::Offchain(y)) => {
                &&& x.manifest_idx == y.manifest_idx
                &&& x.name@ == y.name@
            },
            _ => false,
        }
    }

    /// Decides duplication on declared identity, not on pointer identity or
    /// execution state.
    pub fn is_duplicate_of(&self, other: &DataSource) -> (r: bool)
        ensures
            r == DataSource::is_duplicate_spec(*self, *other),
    {
        match (self, other) {
            (DataSource::Onchain(x), DataSource::Onchain(y)) => {
                x.manifest_idx == y.manifest_idx && x.name.eq(&y.name)
                    && bytes_eq(&x.address, &y.address)
            },
            (DataSource::Offchain(x), DataSource::Offchain(y)) => {
                x.manifest_idx == y.manifest_idx && x.name.eq(&y.name)
            },
            _ => false,
        }
    }

    /// Matches raw trigger data against this data source's handler bindings.
    /// Returns the trigger bound to the first applicable handler, carrying
    /// the raw payload as logging context, or `None` when no handler applies.
    pub fn match_and_decode(&self, trigger: &TriggerData) -> (r: Option<TriggerWithHandler>)
        ensures
            r is Some <==> matched_handler(self.handlers_spec(), trigger.kind@) is Some,
            r matches Some(t) ==> {
                &&& matched_handler(self.handlers_spec(), trigger.kind@) == Some(t.handler@)
                &&& t.logging_extras@ == trigger.payload@
            },
    {
        let handlers: &Vec<HandlerBinding> = match self {
            DataSource::Onchain(ds) => &ds.handlers,
            DataSource::Offchain(ds) => &ds.handlers,
        };
        let n = handlers.len();
        let mut i: usize = 0;
        proof {
            assert(handlers@.skip(0) =~= handlers@);
        }
        while i < n
            invariant
                n == handlers@.len(),
                0 <= i <= n,
                matched_handler(handlers@, trigger.kind@) == matched_handler(
                    handlers@.skip(i as int),
                    trigger.kind@,
                ),
                handlers@ == self.handlers_spec(),
            decreases n - i,
        {
            proof {
                assert(handlers@.skip(i as int).len() > 0);
                assert(handlers@.skip(i as int)[0] == handlers@[i as int]);
                assert(handlers@.skip(i as int).drop_first() =~= handlers@.skip(i as int + 1));
            }
            if handlers[i].trigger_kind.eq(&trigger.kind) {
                return Some(
                    TriggerWithHandler {
                        handler: handlers[i].handler.clone(),
                        logging_extras: trigger.payload.clone(),
                    },
                );
            }
            i = i + 1;
        }
        proof {
            assert(handlers@.skip(n as int) =~= Seq::<HandlerBinding>::empty());
        }
        None
    }
}

/// Marking completion sticks exactly on off-chain data sources: after
/// `set_done_at(block)` an off-chain data source reports `done_at == block`,
/// while an on-chain one is untouched and keeps reporting `None`, whatever
/// was set.
pub proof fn lemma_done_at_after_set(ds: DataSource, block: Option<BlockNumber>)
    ensures
        (ds is Offchain ==> ds.with_done_at(block).done_at_spec() == block),
        (ds is Onchain ==> ds.with_done_at(block) == ds && ds.with_done_at(block).done_at_spec()
            == None::<BlockNumber>),
{
}

/// Byte-for-byte equality of two addresses.
fn bytes_eq(a: &Vec<u8>, b: &Vec<u8>) -> (r: bool)
    ensures
        r == (a@ == b@),
{
    if a.len() != b.len() {
        proof {
            assert(a@.len() != b@.len());
        }
        return false;
    }
    let n = a.len();
    let mut i: usize = 0;
    while i < n
        invariant
            n == a@.len() && n == b@.len(),
            0 <= i <= n,
            forall|j: int| 0 <= j < i ==> a@[j] == b@[j],
        decreases n - i,
    {
        if a[i] != b[i] {
            return false;
        }
        i = i + 1;
    }
    proof {
        assert(a@ =~= b@);
    }
    true
}

} // verus!
