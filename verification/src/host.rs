//! The per-data-source runtime host and its builder.
//!
//! A `RuntimeHost` is the facade the indexing pipeline talks to: it matches
//! raw triggers against its data source, dispatches matched triggers to the
//! sandbox worker bound at build time, awaits the correlated response, and
//! reports timing and gas to the metrics collector. The builder shares one
//! runtime adapter, link resolver, identity-lookup service and optional bus
//! handle across every host it builds.

use vstd::prelude::*;
use crate::block::{BlockNumber, BlockPtr, BlockState, DeploymentHash};
use crate::data_source::{DataSource, OnchainDataSource, TriggerData, TriggerWithHandler};
use crate::data_source::matched_handler;
use crate::mapping::{HandlerOutcome, MappingContext, MappingError, MappingRequest};
use crate::metrics::{HostMetrics, Observation};
use crate::worker::{CompiledModule, QueuedRequest, SpawnError, Worker};
use vstd::std_specs::cmp::PartialEqSpec;

verus! {

/// A host function the data source's declaration grants to its handlers.
#[derive(Debug)]
pub struct HostFn {
    pub name: String,
}

impl Clone for HostFn {
    fn clone(&self) -> (r: Self)
        ensures
            r == *self,
    {
        HostFn { name: self.name.clone() }
    }
}

/// Copies the capability set handed to a dispatch.
fn clone_host_fns(v: &Vec<HostFn>) -> (r: Vec<HostFn>)
    ensures
        r@ == v@,
{
    let mut r: Vec<HostFn> = Vec::new();
    let n = v.len();
    let mut i: usize = 0;
    while i < n
        invariant
            n == v@.len(),
            0 <= i <= n,
            r@ =~= v@.subrange(0, i as int),
        decreases n - i,
    {
        r.push(v[i].clone());
        proof {
            assert(r@ =~= v@.subrange(0, i as int + 1));
        }
        i = i + 1;
    }
    proof {
        assert(v@.subrange(0, n as int) =~= v@);
    }
    r
}

/// Handle to the pipeline-wide link resolver, shared read-only by every
/// host one builder builds.
#[derive(Clone, Copy, PartialEq, Eq, Structural, Debug)]
pub struct LinkResolver {
    pub id: u64,
}

/// Handle to the pipeline-wide identity-lookup service.
#[derive(Clone, Copy, PartialEq, Eq, Structural, Debug)]
pub struct EnsLookup {
    pub id: u64,
}

/// Handle to the optional outbound bus channel. Its absence is a valid,
/// silently degraded mode, not an error.
#[derive(Clone, Copy, PartialEq, Eq, Structural, Debug)]
pub struct BusSenderHandle {
    pub id: u64,
}

/// A data source template the deployment may instantiate dynamically.
#[derive(Debug)]
pub struct DataSourceTemplate {
    pub name: String,
}

/// The read-only capability table scoped to one data source: everything a
/// handler may reach besides its own state. Shared by reference across a
/// host's dispatches; immutable after construction.
#[derive(Debug)]
pub struct HostExports {
    pub subgraph_id: DeploymentHash,
    pub data_source_name: String,
    pub network: String,
    pub templates: Vec<DataSourceTemplate>,
    pub link_resolver: LinkResolver,
    pub ens_lookup: EnsLookup,
    pub bus_sender: Option<BusSenderHandle>,
}

impl HostExports {
    pub fn new(
        subgraph_id: DeploymentHash,
        data_source_name: String,
        network: String,
        templates: Vec<DataSourceTemplate>,
        link_resolver: LinkResolver,
        ens_lookup: EnsLookup,
        bus_sender: Option<BusSenderHandle>,
    ) -> (r: HostExports)
        ensures
            r.subgraph_id == subgraph_id,
            r.data_source_name == data_source_name,
            r.network == network,
            r.templates == templates,
            r.link_resolver == link_resolver,
            r.ens_lookup == ens_lookup,
            r.bus_sender == bus_sender,
    {
        HostExports {
            subgraph_id,
            data_source_name,
            network,
            templates,
            link_resolver,
            ens_lookup,
            bus_sender,
        }
    }
}

/// The declared on-chain behaviour of a blockchain variant: decides which
/// host functions a data source's declaration receives, and rejects a
/// declaration it cannot support. Implemented once per chain, outside this
/// core.
pub trait RuntimeAdapter {
    fn host_fns(&self, ds: &OnchainDataSource) -> Result<Vec<HostFn>, BuildError>;
}

/// The declared host-function requirements of a data source were rejected
/// by the blockchain adapter. Fatal for that data source.
#[derive(Debug)]
pub struct BuildError {
    pub message: String,
}

/// Factory for runtime hosts. Everything it holds is supplied once, at
/// construction, and shared by every host it builds; pipeline-wide
/// configuration cannot change afterwards.
pub struct RuntimeHostBuilder<A: RuntimeAdapter> {
    pub runtime_adapter: A,
    pub link_resolver: LinkResolver,
    pub ens_lookup: EnsLookup,
    pub bus_sender: Option<BusSenderHandle>,
}

impl<A: RuntimeAdapter + Clone> Clone for RuntimeHostBuilder<A> {
    /// A cloned builder hands out the same pipeline-wide collaborators:
    /// the link resolver, identity lookup and bus handle are shared, so
    /// hosts built from the clone and from the original see one
    /// configuration. The adapter is cloned along with them.
    fn clone(&self) -> (r: Self)
        ensures
            r.link_resolver == self.link_resolver,
            r.ens_lookup == self.ens_lookup,
            r.bus_sender == self.bus_sender,
    {
        RuntimeHostBuilder {
            runtime_adapter: self.runtime_adapter.clone(),
            link_resolver: self.link_resolver,
            ens_lookup: self.ens_lookup,
            bus_sender: self.bus_sender,
        }
    }
}

impl<A: RuntimeAdapter> RuntimeHostBuilder<A> {
    pub fn new(
        runtime_adapter: A,
        link_resolver: LinkResolver,
        ens_lookup: EnsLookup,
        bus_sender: Option<BusSenderHandle>,
    ) -> (r: Self)
        ensures
            r.runtime_adapter == runtime_adapter,
            r.link_resolver == link_resolver,
            r.ens_lookup == ens_lookup,
            r.bus_sender == bus_sender,
    {
        RuntimeHostBuilder { runtime_adapter, link_resolver, ens_lookup, bus_sender }
    }

    /// Spawns the dedicated worker for a module the execution unit has
    /// instantiated, and hands back its queue. When instantiation failed,
    /// the failure is passed through: that data source cannot be indexed.
    pub fn spawn_mapping(
        instantiation: Result<CompiledModule, SpawnError>,
        subgraph_id: DeploymentHash,
    ) -> (r: Result<Worker, SpawnError>)
        ensures
            (instantiation matches Ok(m) ==> r matches Ok(w) && {
                &&& w.wf()
                &&& w.module == m
                &&& w.subgraph_id == subgraph_id
                &&& !w.closed
                &&& !w.torn_down
                &&& w.next_id == 0
                &&& w.pending@.len() == 0
                &&& w.unread@.len() == 0
                &&& w.responded@.len() == 0
                &&& w.in_flight is None
            }),
            (instantiation matches Err(e) ==> r == Err::<Worker, SpawnError>(e)),
    {
        match instantiation {
            Ok(module) => {
                let w = Worker {
                    module,
                    subgraph_id,
                    closed: false,
                    torn_down: false,
                    next_id: 0,
                    pending: Vec::new(),
                    in_flight: None,
                    unread: Vec::new(),
                    submitted: Ghost(Seq::empty()),
                    responded: Ghost(Seq::empty()),
                };
                proof {
                    assert(w.submitted@ =~= Seq::new(0, |i: int| i as u64));
                    assert(w.responded@ =~= Seq::new(0, |i: int| i as u64));
                }
                Ok(w)
            },
            Err(e) => Err(e),
        }
    }

    /// Builds the host for one data source: constructs its capability
    /// table from the shared services, and asks the blockchain adapter for
    /// the host functions the declaration requires. An off-chain data
    /// source consults no adapter and always builds, with no host
    /// functions; an on-chain one fails exactly when the adapter rejects
    /// its declaration.
    pub fn build(
        &self,
        network_name: String,
        subgraph_id: DeploymentHash,
        data_source: DataSource,
        templates: Vec<DataSourceTemplate>,
    ) -> (r: Result<RuntimeHost, BuildError>)
        ensures
            (data_source is Offchain ==> r is Ok),
            (r is Err ==> data_source is Onchain),
            (r matches Ok(h) ==> {
                &&& h.data_source == data_source
                &&& h.host_exports.subgraph_id == subgraph_id
                &&& h.host_exports.network == network_name
                &&& h.host_exports.data_source_name@ == data_source.name_spec()
                &&& h.host_exports.templates == templates
                &&& h.host_exports.link_resolver == self.link_resolver
                &&& h.host_exports.ens_lookup == self.ens_lookup
                &&& h.host_exports.bus_sender == self.bus_sender
                &&& (data_source is Offchain ==> h.host_fns@.len() == 0)
            }),
    {
        let adapter_host_fns: Option<Result<Vec<HostFn>, BuildError>> = match &data_source {
            DataSource::Onchain(ds) => Some(self.runtime_adapter.host_fns(ds)),
            DataSource::Offchain(_) => None,
        };
        RuntimeHost::new(
            adapter_host_fns,
            self.link_resolver,
            network_name,
            subgraph_id,
            data_source,
            templates,
            self.ens_lookup,
            self.bus_sender,
        )
    }
}

/// A dispatch that has been submitted and not yet completed: the host's
/// half of the single-use response channel, together with what the "done"
/// report will need. Consumed exactly once, by completion.
#[derive(Debug)]
pub struct PendingDispatch {
    pub request_id: u64,
    pub handler: String,
}

/// The per-data-source facade the pipeline dispatches triggers through.
#[derive(Debug)]
pub struct RuntimeHost {
    pub data_source: DataSource,
    pub host_fns: Vec<HostFn>,
    pub host_exports: HostExports,
}

impl RuntimeHost {
    /// Constructs a host bound to one data source from the blockchain
    /// adapter's answer for it: the host-function set the on-chain
    /// declaration receives, or the adapter's rejection, which is handed
    /// back unchanged as the build failure. An off-chain data source
    /// consults no adapter (`None` here) and always builds, with no host
    /// functions. The capability table is built from the shared services.
    pub fn new(
        adapter_host_fns: Option<Result<Vec<HostFn>, BuildError>>,
        link_resolver: LinkResolver,
        network_name: String,
        subgraph_id: DeploymentHash,
        data_source: DataSource,
        templates: Vec<DataSourceTemplate>,
        ens_lookup: EnsLookup,
        bus_sender: Option<BusSenderHandle>,
    ) -> (r: Result<RuntimeHost, BuildError>)
        requires
            (adapter_host_fns is Some <==> data_source is Onchain),
        ensures
            (data_source is Offchain ==> r is Ok),
            (r is Err ==> data_source is Onchain),
            (adapter_host_fns matches Some(Err(e)) ==> r == Err::<RuntimeHost, BuildError>(e)),
            (adapter_host_fns matches Some(Ok(fns)) ==> (r matches Ok(h) && h.host_fns@ == fns@)),
            (adapter_host_fns is None ==> (r matches Ok(h) && h.host_fns@.len() == 0)),
            (r matches Ok(h) ==> {
                &&& h.data_source == data_source
                &&& h.host_exports.subgraph_id == subgraph_id
                &&& h.host_exports.network == network_name
                &&& h.host_exports.data_source_name@ == data_source.name_spec()
                &&& h.host_exports.templates == templates
                &&& h.host_exports.link_resolver == link_resolver
                &&& h.host_exports.ens_lookup == ens_lookup
                &&& h.host_exports.bus_sender == bus_sender
                &&& (data_source is Offchain ==> h.host_fns@.len() == 0)
            }),
    {
        let host_fns: Vec<HostFn> = match adapter_host_fns {
            Some(Ok(fns)) => fns,
            Some(Err(e)) => {
                return Err(e);
            },
            None => Vec::new(),
        };
        let data_source_name = data_source.name().clone();
        let host_exports = HostExports::new(
            subgraph_id,
            data_source_name,
            network_name,
            templates,
            link_resolver,
            ens_lookup,
            bus_sender,
        );
        Ok(RuntimeHost { data_source, host_fns, host_exports })
    }

    /// The data source this host indexes.
    pub fn data_source(&self) -> (r: &DataSource)
        ensures
            r == &self.data_source,
    {
        &self.data_source
    }

    /// Matches raw trigger data against this host's data source. Pure and
    /// synchronous; `None` when the trigger does not apply to any of the
    /// data source's handlers.
    pub fn match_and_decode(&self, trigger: &TriggerData) -> (r: Option<TriggerWithHandler>)
        ensures
            (r is Some <==> matched_handler(self.data_source.handlers_spec(), trigger.kind@)
                is Some),
            (r matches Some(t) ==> {
                &&& matched_handler(self.data_source.handlers_spec(), trigger.kind@) == Some(
                    t.handler@,
                )
                &&& t.logging_extras@ == trigger.payload@
            }),
    {
        self.data_source.match_and_decode(trigger)
    }

    /// Builds the mapping request for a matched trigger — the context takes
    /// ownership of the passed-in state — and submits it to the worker's
    /// queue. Returns the pending half of the response channel, or the
    /// dispatch-terminated error when the queue is closed ("mapping
    /// terminated before passing in trigger").
    pub fn submit_mapping_request(
        &self,
        worker: &mut Worker,
        trigger: TriggerWithHandler,
        state: BlockState,
        block_ptr: BlockPtr,
        proof_of_indexing: Option<u64>,
        debug_fork: Option<u64>,
    ) -> (r: Result<PendingDispatch, MappingError>)
        requires
            old(worker).wf(),
            !old(worker).closed ==> old(worker).next_id < u64::MAX,
        ensures
            final(worker).wf(),
            (old(worker).closed ==> r == Err::<PendingDispatch, MappingError>(
                MappingError::TerminatedBeforePassingInTrigger,
            ) && *final(worker) == *old(worker)),
            (!old(worker).closed ==> {
                &&& (r matches Ok(p) && p.request_id == old(worker).next_id && p.handler
                    == trigger.handler)
                &&& final(worker).pending@.len() == old(worker).pending@.len() + 1
                &&& final(worker).pending@.drop_last() == old(worker).pending@
                &&& final(worker).pending@.last().id == old(worker).next_id
                &&& final(worker).pending@.last().request.trigger == trigger
                &&& final(worker).pending@.last().request.ctx.state == state
                &&& final(worker).pending@.last().request.ctx.block_ptr == block_ptr
                &&& final(worker).pending@.last().request.ctx.host_fns@ == self.host_fns@
                &&& final(worker).pending@.last().request.ctx.proof_of_indexing
                    == proof_of_indexing
                &&& final(worker).pending@.last().request.ctx.debug_fork == debug_fork
                &&& final(worker).next_id == old(worker).next_id + 1
                &&& final(worker).submitted@ == old(worker).submitted@.push(old(worker).next_id)
                &&& final(worker).unread@ == old(worker).unread@
                &&& final(worker).responded@ == old(worker).responded@
                &&& final(worker).in_flight == old(worker).in_flight
                &&& final(worker).closed == old(worker).closed
                &&& final(worker).torn_down == old(worker).torn_down
                &&& final(worker).module == old(worker).module
                &&& final(worker).subgraph_id == old(worker).subgraph_id
            }),
    {
        let handler = trigger.handler.clone();
        let request = MappingRequest {
            ctx: MappingContext {
                state,
                block_ptr,
                host_fns: clone_host_fns(&self.host_fns),
                proof_of_indexing,
                debug_fork,
            },
            trigger,
        };
        match worker.submit(request) {
            Ok(id) => {
                proof {
                    assert(worker.pending@.drop_last() =~= old(worker).pending@);
                }
                Ok(PendingDispatch { request_id: id, handler })
            },
            Err(_) => Err(MappingError::TerminatedBeforePassingInTrigger),
        }
    }

    /// Awaits the single-use response for a submitted dispatch. A response
    /// carries the mutated state and the gas used, or the handler's typed
    /// failure; either way the elapsed time and the gas — zero on failure —
    /// are recorded to the metrics collector, keyed by handler name, and
    /// the gas is stripped from what the caller sees. A channel observed as
    /// dropped ("mapping terminated before handling trigger") records
    /// nothing and surfaces the dispatch-terminated error.
    ///
    /// Awaiting blocks until the channel resolves, so the response must
    /// have been written or the worker torn down.
    pub fn complete_mapping_request(
        &self,
        worker: &mut Worker,
        pending: PendingDispatch,
        elapsed_ms: u64,
        metrics: &mut HostMetrics,
    ) -> (r: Result<BlockState, MappingError>)
        requires
            old(worker).wf(),
            (exists|j: int|
                0 <= j < old(worker).unread@.len() && (#[trigger] old(worker).unread@[j]).id
                    == pending.request_id) || old(worker).torn_down,
        ensures
            final(worker).wf(),
            final(worker).pending@ == old(worker).pending@,
            final(worker).responded@ == old(worker).responded@,
            final(worker).next_id == old(worker).next_id,
            final(worker).submitted@ == old(worker).submitted@,
            final(worker).in_flight == old(worker).in_flight,
            final(worker).closed == old(worker).closed,
            final(worker).torn_down == old(worker).torn_down,
            final(worker).module == old(worker).module,
            final(worker).subgraph_id == old(worker).subgraph_id,
            (forall|j: int|
                0 <= j < old(worker).unread@.len() && (#[trigger] old(worker).unread@[j]).id
                    == pending.request_id ==> {
                    let outcome = old(worker).unread@[j].outcome;
                    &&& (outcome matches Ok(sg) ==> r == Ok::<BlockState, MappingError>(sg.0)
                        && final(metrics).observations@ == old(metrics).observations@.push(
                        Observation {
                            handler: pending.handler,
                            elapsed_ms,
                            gas: sg.1.value,
                        },
                    ))
                    &&& (outcome matches Err(e) ==> r == Err::<BlockState, MappingError>(e)
                        && final(metrics).observations@ == old(metrics).observations@.push(
                        Observation { handler: pending.handler, elapsed_ms, gas: 0 },
                    ))
                    &&& final(worker).unread@ == old(worker).unread@.remove(j)
                }),
            (!(exists|j: int|
                0 <= j < old(worker).unread@.len() && (#[trigger] old(worker).unread@[j]).id
                    == pending.request_id) ==> {
                &&& r == Err::<BlockState, MappingError>(
                    MappingError::TerminatedBeforeHandlingTrigger,
                )
                &&& *final(metrics) == *old(metrics)
                &&& final(worker).unread@ == old(worker).unread@
            }),
    {
        match worker.take_response(pending.request_id) {
            crate::worker::ChannelRead::Value(outcome) => match outcome {
                Ok((state, gas)) => {
                    metrics.observe_handler_execution(pending.handler, elapsed_ms, gas.value());
                    Ok(state)
                },
                Err(e) => {
                    metrics.observe_handler_execution(pending.handler, elapsed_ms, 0);
                    Err(e)
                },
            },
            crate::worker::ChannelRead::Dropped => Err(
                MappingError::TerminatedBeforeHandlingTrigger,
            ),
            crate::worker::ChannelRead::Pending => vstd::pervasive::unreached(),
        }
    }

    /// One full dispatch: resolve the handler from the trigger, build and
    /// submit the mapping request (the state moves in), let the execution
    /// unit consume it and publish the outcome it produced, then await the
    /// correlated response and report metrics. The outcome parameter is the
    /// execution unit's verdict for this trigger: the mutated state and the
    /// gas metered, or the handler's failure.
    ///
    /// Callers see only the resulting state or the error — never the gas.
    /// The host must have no other dispatch in flight on this worker.
    pub fn process_mapping_trigger(
        &self,
        worker: &mut Worker,
        trigger: TriggerWithHandler,
        state: BlockState,
        block_ptr: BlockPtr,
        proof_of_indexing: Option<u64>,
        debug_fork: Option<u64>,
        outcome: HandlerOutcome,
        elapsed_ms: u64,
        metrics: &mut HostMetrics,
    ) -> (r: Result<BlockState, MappingError>)
        requires
            old(worker).wf(),
            !old(worker).closed ==> old(worker).next_id < u64::MAX,
            old(worker).pending@.len() == 0,
            (old(worker).in_flight is None),
        ensures
            final(worker).wf(),
            (old(worker).closed ==> {
                &&& r == Err::<BlockState, MappingError>(
                    MappingError::TerminatedBeforePassingInTrigger,
                )
                &&& *final(worker) == *old(worker)
                &&& *final(metrics) == *old(metrics)
            }),
            (!old(worker).closed ==> {
                &&& final(worker).responded@ == old(worker).responded@.push(old(worker).next_id)
                &&& final(worker).submitted@ == old(worker).submitted@.push(old(worker).next_id)
                &&& final(worker).next_id == old(worker).next_id + 1
                &&& final(worker).unread@ == old(worker).unread@
                &&& final(worker).pending@.len() == 0
                &&& final(worker).in_flight == old(worker).in_flight
                &&& final(worker).closed == old(worker).closed
                &&& final(worker).torn_down == old(worker).torn_down
                &&& final(worker).module == old(worker).module
                &&& final(worker).subgraph_id == old(worker).subgraph_id
                &&& (outcome matches Ok(sg) ==> r == Ok::<BlockState, MappingError>(sg.0)
                    && final(metrics).observations@ == old(metrics).observations@.push(
                    Observation { handler: trigger.handler, elapsed_ms, gas: sg.1.value },
                ))
                &&& (outcome matches Err(e) ==> r == Err::<BlockState, MappingError>(e)
                    && final(metrics).observations@ == old(metrics).observations@.push(
                    Observation { handler: trigger.handler, elapsed_ms, gas: 0 },
                ))
            }),
    {
        let ghost w0 = *old(worker);
        let pending = match self.submit_mapping_request(
            worker,
            trigger,
            state,
            block_ptr,
            proof_of_indexing,
            debug_fork,
        ) {
            Ok(p) => p,
            Err(e) => {
                return Err(e);
            },
        };
        let _executing: QueuedRequest = worker.begin_next();
        worker.respond(outcome);
        proof {
            assert(worker.unread@.len() == w0.unread@.len() + 1);
            assert((#[trigger] worker.unread@[w0.unread@.len() as int]).id == pending.request_id);
            assert forall|j: int|
                0 <= j < worker.unread@.len() && (#[trigger] worker.unread@[j]).id
                    == pending.request_id implies j == w0.unread@.len() as int by {
                if j < w0.unread@.len() {
                    assert(worker.unread@[j] == w0.unread@[j]);
                }
            }
        }
        let ghost w1 = *worker;
        let result = self.complete_mapping_request(worker, pending, elapsed_ms, metrics);
        proof {
            let n = w0.unread@.len() as int;
            assert(w1.unread@[n].id == pending.request_id);
            assert(w1.unread@.remove(n) =~= w0.unread@);
        }
        result
    }

    /// Pass-through to the data source's declared creation block; `None`
    /// for data sources without a creation constraint.
    pub fn creation_block_number(&self) -> (r: Option<BlockNumber>)
        ensures
            r == self.data_source.creation_block_spec(),
    {
        self.data_source.creation_block()
    }

    /// Completion marker of an off-chain data source; always `None` for an
    /// on-chain one.
    pub fn done_at(&self) -> (r: Option<BlockNumber>)
        ensures
            r == self.data_source.done_at_spec(),
    {
        match &self.data_source {
            DataSource::Onchain(_) => None,
            DataSource::Offchain(ds) => ds.done_at(),
        }
    }

    /// Marks an off-chain data source as done at the given block, so the
    /// pipeline does not resubmit it; a no-op for an on-chain data source.
    pub fn set_done_at(&mut self, block: Option<BlockNumber>)
        ensures
            final(self).data_source == old(self).data_source.with_done_at(block),
            final(self).host_fns == old(self).host_fns,
            final(self).host_exports == old(self).host_exports,
    {
        match &mut self.data_source {
            DataSource::Onchain(_) => {},
            DataSource::Offchain(ds) => ds.set_done_at(block),
        }
    }
}

impl PartialEq for RuntimeHost {
    /// Hosts compare by semantic duplication of their data sources, never
    /// by identity or execution state: the pipeline uses this to
    /// deduplicate dynamically created data sources.
    fn eq(&self, other: &Self) -> (r: bool) {
        self.data_source.is_duplicate_of(&other.data_source)
    }
}

impl vstd::std_specs::cmp::PartialEqSpecImpl for RuntimeHost {
    open spec fn obeys_eq_spec() -> bool {
        true
    }

    open spec fn eq_spec(&self, other: &RuntimeHost) -> bool {
        DataSource::is_duplicate_spec(self.data_source, other.data_source)
    }
}

/// Two runtime hosts compare equal exactly when their data sources are
/// duplicate declarations; hosts from non-duplicate data sources never do.
pub proof fn lemma_host_equality_is_duplication(a: RuntimeHost, b: RuntimeHost)
    ensures
        a.eq_spec(&b) <==> DataSource::is_duplicate_spec(a.data_source, b.data_source),
{
}

} // verus!
