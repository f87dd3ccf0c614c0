use runtime_host::block::{BlockPtr, BlockState, DeploymentHash, EntityModification};
use runtime_host::data_source::{
    DataSource, HandlerBinding, OffchainDataSource, TriggerData, TriggerWithHandler,
};
use runtime_host::gas::Gas;
use runtime_host::host::{
    BuildError, EnsLookup, HostFn, LinkResolver, RuntimeAdapter, RuntimeHost, RuntimeHostBuilder,
};
use runtime_host::mapping::MappingError;
use runtime_host::metrics::HostMetrics;
use runtime_host::data_source::OnchainDataSource;
use runtime_host::worker::{CompiledModule, SpawnError, Worker};

struct FakeAdapter;

impl RuntimeAdapter for FakeAdapter {
    fn host_fns(&self, _ds: &OnchainDataSource) -> Result<Vec<HostFn>, BuildError> {
        Ok(vec![HostFn { name: "abi_encode".to_string() }])
    }
}

fn transfer_data_source(name: &str, idx: u32) -> DataSource {
    DataSource::Offchain(OffchainDataSource {
        name: name.to_string(),
        manifest_idx: idx,
        creation_block: None,
        handlers: vec![HandlerBinding {
            trigger_kind: "transfer".to_string(),
            handler: "handleTransfer".to_string(),
        }],
        done_at: None,
    })
}

fn build_host(name: &str, idx: u32) -> RuntimeHost {
    let builder = RuntimeHostBuilder::new(
        FakeAdapter,
        LinkResolver { id: 1 },
        EnsLookup { id: 2 },
        None,
    );
    builder
        .build(
            "mainnet".to_string(),
            DeploymentHash { hash: "QmDeployment".to_string() },
            transfer_data_source(name, idx),
            vec![],
        )
        .unwrap()
}

fn fresh_worker() -> Worker {
    RuntimeHostBuilder::<FakeAdapter>::spawn_mapping(
        Ok(CompiledModule { id: 7 }),
        DeploymentHash { hash: "QmDeployment".to_string() },
    )
    .unwrap()
}

fn transfer_trigger(host: &RuntimeHost) -> TriggerWithHandler {
    host.match_and_decode(&TriggerData {
        kind: "transfer".to_string(),
        payload: "tx 0x1".to_string(),
    })
    .unwrap()
}

fn block_five() -> BlockPtr {
    BlockPtr { number: 5, hash: vec![0xab, 0xcd] }
}

#[test]
fn end_to_end_success_returns_state_and_records_gas() {
    let host = build_host("transfers", 0);
    let mut worker = fresh_worker();
    let mut metrics = HostMetrics::new();

    let trigger = transfer_trigger(&host);
    assert_eq!(trigger.handler, "handleTransfer");

    let mut mutated = BlockState::new();
    mutated.record(EntityModification { entity: "Transfer".to_string(), id: "1".to_string() });

    let result = host.process_mapping_trigger(
        &mut worker,
        trigger,
        BlockState::new(),
        block_five(),
        None,
        None,
        Ok((mutated, Gas::new(42))),
        10,
        &mut metrics,
    );

    let state = result.unwrap();
    assert_eq!(state.modifications.len(), 1);
    assert_eq!(state.modifications[0].entity, "Transfer");
    assert_eq!(state.modifications[0].id, "1");

    assert_eq!(metrics.observations.len(), 1);
    assert_eq!(metrics.observations[0].handler, "handleTransfer");
    assert_eq!(metrics.observations[0].gas, 42);
    assert_eq!(metrics.observations[0].elapsed_ms, 10);
}

#[test]
fn handler_failure_reports_zero_gas_and_returns_the_error() {
    let host = build_host("transfers", 0);
    let mut worker = fresh_worker();
    let mut metrics = HostMetrics::new();

    let trigger = transfer_trigger(&host);
    let result = host.process_mapping_trigger(
        &mut worker,
        trigger,
        BlockState::new(),
        block_five(),
        None,
        None,
        Err(MappingError::HandlerError("index out of bounds".to_string())),
        3,
        &mut metrics,
    );

    match result {
        Err(MappingError::HandlerError(cause)) => assert_eq!(cause, "index out of bounds"),
        other => panic!("unexpected result: {:?}", other.map(|_| ())),
    }
    assert_eq!(metrics.observations.len(), 1);
    assert_eq!(metrics.observations[0].handler, "handleTransfer");
    assert_eq!(metrics.observations[0].gas, 0);
}

#[test]
fn closed_queue_yields_terminated_before_passing() {
    let host = build_host("transfers", 0);
    let mut worker = fresh_worker();
    let mut metrics = HostMetrics::new();
    worker.close();

    let trigger = transfer_trigger(&host);
    let result = host.process_mapping_trigger(
        &mut worker,
        trigger,
        BlockState::new(),
        block_five(),
        None,
        None,
        Ok((BlockState::new(), Gas::zero())),
        1,
        &mut metrics,
    );

    assert!(matches!(result, Err(MappingError::TerminatedBeforePassingInTrigger)));
    assert_eq!(metrics.observations.len(), 0);
}

#[test]
fn torn_down_worker_yields_terminated_before_handling() {
    let host = build_host("transfers", 0);
    let mut worker = fresh_worker();
    let mut metrics = HostMetrics::new();

    let trigger = transfer_trigger(&host);
    let pending = host
        .submit_mapping_request(&mut worker, trigger, BlockState::new(), block_five(), None, None)
        .unwrap();

    worker.tear_down();

    let result = host.complete_mapping_request(&mut worker, pending, 2, &mut metrics);
    assert!(matches!(result, Err(MappingError::TerminatedBeforeHandlingTrigger)));
    assert_eq!(metrics.observations.len(), 0);
}

#[test]
fn worker_writes_exactly_one_response_per_request_in_order() {
    let host = build_host("transfers", 0);
    let mut worker = fresh_worker();

    let mut pendings = Vec::new();
    for i in 0..3u64 {
        let trigger = transfer_trigger(&host);
        let mut state = BlockState::new();
        state.record(EntityModification {
            entity: "Transfer".to_string(),
            id: format!("in-{}", i),
        });
        let p = host
            .submit_mapping_request(&mut worker, trigger, state, block_five(), None, None)
            .unwrap();
        assert_eq!(p.request_id, i);
        pendings.push(p);
    }

    // The fake worker consumes the queue strictly in submission order and
    // writes exactly one response per request.
    for i in 0..3u64 {
        let executing = worker.begin_next();
        assert_eq!(executing.id, i);
        assert_eq!(
            executing.request.ctx.state.modifications[0].id,
            format!("in-{}", i)
        );
        let mut out = BlockState::new();
        out.record(EntityModification {
            entity: "Transfer".to_string(),
            id: format!("out-{}", i),
        });
        worker.respond(Ok((out, Gas::new(i))));
    }
    assert_eq!(worker.unread.len(), 3);

    // Each completion observes its own response, in submission order.
    let mut metrics = HostMetrics::new();
    for (i, p) in pendings.into_iter().enumerate() {
        let state = host.complete_mapping_request(&mut worker, p, 1, &mut metrics).unwrap();
        assert_eq!(state.modifications[0].id, format!("out-{}", i));
        assert_eq!(metrics.observations[i].gas, i as u64);
    }
    assert_eq!(worker.unread.len(), 0);
    assert_eq!(metrics.observations.len(), 3);
}

#[test]
fn submit_carries_state_and_capabilities_into_the_request() {
    let builder = RuntimeHostBuilder::new(
        FakeAdapter,
        LinkResolver { id: 1 },
        EnsLookup { id: 2 },
        None,
    );
    let ds = DataSource::Onchain(OnchainDataSource {
        name: "tokens".to_string(),
        manifest_idx: 4,
        address: vec![0x11],
        creation_block: Some(100),
        handlers: vec![HandlerBinding {
            trigger_kind: "transfer".to_string(),
            handler: "handleTransfer".to_string(),
        }],
    });
    let host = builder
        .build(
            "mainnet".to_string(),
            DeploymentHash { hash: "QmDeployment".to_string() },
            ds,
            vec![],
        )
        .unwrap();
    assert_eq!(host.host_fns.len(), 1);
    assert_eq!(host.host_fns[0].name, "abi_encode");

    let mut worker = fresh_worker();
    let trigger = transfer_trigger(&host);
    let mut state = BlockState::new();
    state.record(EntityModification { entity: "Token".to_string(), id: "t0".to_string() });

    host.submit_mapping_request(&mut worker, trigger, state, block_five(), Some(9), None)
        .unwrap();

    assert_eq!(worker.pending.len(), 1);
    let queued = &worker.pending[0];
    assert_eq!(queued.id, 0);
    assert_eq!(queued.request.trigger.handler, "handleTransfer");
    assert_eq!(queued.request.ctx.state.modifications[0].id, "t0");
    assert_eq!(queued.request.ctx.block_ptr.number, 5);
    assert_eq!(queued.request.ctx.host_fns.len(), 1);
    assert_eq!(queued.request.ctx.host_fns[0].name, "abi_encode");
    assert_eq!(queued.request.ctx.proof_of_indexing, Some(9));
    assert_eq!(queued.request.ctx.debug_fork, None);
}

#[test]
fn closing_the_queue_still_lets_accepted_requests_finish() {
    let host = build_host("transfers", 0);
    let mut worker = fresh_worker();
    let mut metrics = HostMetrics::new();

    let trigger = transfer_trigger(&host);
    let pending = host
        .submit_mapping_request(&mut worker, trigger, BlockState::new(), block_five(), None, None)
        .unwrap();

    // Closing refuses later submissions but does not lose accepted work.
    worker.close();
    let refused = host.submit_mapping_request(
        &mut worker,
        transfer_trigger(&host),
        BlockState::new(),
        block_five(),
        None,
        None,
    );
    assert!(matches!(refused, Err(MappingError::TerminatedBeforePassingInTrigger)));

    let executing = worker.begin_next();
    let state_in = executing.request.ctx.state;
    worker.respond(Ok((state_in, Gas::new(7))));
    let result = host.complete_mapping_request(&mut worker, pending, 1, &mut metrics);
    assert!(result.is_ok());
    assert_eq!(metrics.observations[0].gas, 7);
}

#[test]
fn spawn_mapping_passes_instantiation_failure_through() {
    let spawned = RuntimeHostBuilder::<FakeAdapter>::spawn_mapping(
        Err(SpawnError::CompilationFailed("bad module".to_string())),
        DeploymentHash { hash: "QmDeployment".to_string() },
    );
    match spawned {
        Err(SpawnError::CompilationFailed(m)) => assert_eq!(m, "bad module"),
        _ => panic!("expected a compilation failure"),
    }
}

#[test]
fn the_two_dispatch_terminations_log_distinct_texts() {
    assert_eq!(
        MappingError::TerminatedBeforePassingInTrigger.message(),
        "Mapping terminated before passing in trigger"
    );
    assert_eq!(
        MappingError::TerminatedBeforeHandlingTrigger.message(),
        "Mapping terminated before handling trigger"
    );
    assert_eq!(
        MappingError::HandlerError("oob".to_string()).message(),
        "handler failed => oob"
    );
    assert_eq!(
        MappingError::PossibleReorg("mismatch".to_string()).message(),
        "possible reorg detected => mismatch"
    );
}

#[test]
fn fresh_worker_is_open_and_empty() {
    let worker = fresh_worker();
    assert!(!worker.closed);
    assert!(!worker.torn_down);
    assert_eq!(worker.next_id, 0);
    assert_eq!(worker.pending.len(), 0);
    assert_eq!(worker.unread.len(), 0);
}
