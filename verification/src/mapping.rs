//! One correlated unit of work handed to the execution unit.

use vstd::prelude::*;
use crate::block::{BlockPtr, BlockState};
use crate::data_source::TriggerWithHandler;
use crate::gas::Gas;

verus! {

/// Everything a single dispatch needs. Constructed fresh per dispatch and
/// consumed by the worker; the block state is moved in, never copied.
#[derive(Debug)]
pub struct MappingContext {
    /// Indexing state handed over for the duration of the dispatch.
    pub state: BlockState,
    /// Block at which the trigger occurred; passed through unmodified.
    pub block_ptr: BlockPtr,
    /// Names of the host functions this data source may call.
    pub host_fns: Vec<crate::host::HostFn>,
    /// Identifies the shared proof-of-indexing accumulator attached to this
    /// dispatch, if any. Only one dispatch per data source writes to it at a
    /// time; the pipeline enforces that.
    pub proof_of_indexing: Option<u64>,
    /// Identifies the debug fork consulted on entity lookups, if any.
    pub debug_fork: Option<u64>,
}

/// One correlated unit of work: a context plus the trigger bound to its
/// handler. The single-use response channel is attached when the request is
/// accepted by a worker's queue: the correlation id the queue assigns stands
/// for the write-once sender, and exactly one response is ever written
/// under it, even on failure.
#[derive(Debug)]
pub struct MappingRequest {
    pub ctx: MappingContext,
    pub trigger: TriggerWithHandler,
}

/// A per-trigger failure, surfaced to the caller as the operation's result.
#[derive(Debug)]
pub enum MappingError {
    /// The worker's queue was closed before it accepted the request.
    TerminatedBeforePassingInTrigger,
    /// The worker accepted the request but was torn down before a response
    /// arrived: the response channel was observed as dropped.
    TerminatedBeforeHandlingTrigger,
    /// The handler itself failed inside the execution unit.
    HandlerError(String),
    /// The handler failed in a way that may indicate a chain reorganization.
    PossibleReorg(String),
}

impl MappingError {
    /// The human-readable description of this error. The two dispatch
    /// terminations carry distinct texts, so logs can tell a refused
    /// submission from a response channel observed as dropped.
    pub open spec fn message_spec(self) -> Seq<char> {
        match self {
            MappingError::TerminatedBeforePassingInTrigger => {
                "Mapping terminated before passing in trigger"@
            },
            MappingError::TerminatedBeforeHandlingTrigger => {
                "Mapping terminated before handling trigger"@
            },
            MappingError::HandlerError(e) => "handler failed => "@ + e@,
            MappingError::PossibleReorg(e) => "possible reorg detected => "@ + e@,
        }
    }

    /// Renders the error for logs.
    pub fn message(&self) -> (r: String)
        ensures
            r@ == self.message_spec(),
    {
        match self {
            MappingError::TerminatedBeforePassingInTrigger => {
                "Mapping terminated before passing in trigger".to_owned()
            },
            MappingError::TerminatedBeforeHandlingTrigger => {
                "Mapping terminated before handling trigger".to_owned()
            },
            MappingError::HandlerError(e) => crate::text::concat_strs(
                "handler failed => ",
                e.as_str(),
            ),
            MappingError::PossibleReorg(e) => crate::text::concat_strs(
                "possible reorg detected => ",
                e.as_str(),
            ),
        }
    }
}

/// What the execution unit publishes on the response channel: the mutated
/// block state together with the gas consumed, or a typed failure.
pub type HandlerOutcome = Result<(BlockState, Gas), MappingError>;

} // verus!
