use polkadot_cli::decompress::decompress;
use polkadot_cli::error::{DecompressionError, Error};
use polkadot_cli::gate::{
    Gate, GateAction, GateEvent, GatePhase, CODE_SIZE_LIMIT, PERF_CHECK_TIME_LIMIT_MS,
};

/// Drives a gate through a simulated host and records what it was asked to do.
struct SimulatedHost {
    sentinel: bool,
    sentinel_writes: u32,
    stage_runs: u32,
    elapsed_ms: u64,
    prepare_error: Option<String>,
}

impl SimulatedHost {
    fn new(sentinel: bool, elapsed_ms: u64) -> Self {
        SimulatedHost { sentinel, sentinel_writes: 0, stage_runs: 0, elapsed_ms, prepare_error: None }
    }

    fn run(&mut self) -> Result<(), Error> {
        let (mut gate, mut action) = Gate::production();
        loop {
            let event = match action {
                GateAction::ProbeSentinel => GateEvent::SentinelProbed(self.sentinel),
                GateAction::Decompress { .. } => {
                    self.stage_runs += 1;
                    GateEvent::Decompressed(Ok(()))
                },
                GateAction::Prevalidate => {
                    self.stage_runs += 1;
                    GateEvent::Prevalidated(Ok(()))
                },
                GateAction::Prepare => {
                    self.stage_runs += 1;
                    let result = match &self.prepare_error {
                        Some(m) => Err(m.clone()),
                        None => Ok(()),
                    };
                    GateEvent::Prepared { result, elapsed_ms: self.elapsed_ms }
                },
                GateAction::CreateSentinel => {
                    self.sentinel_writes += 1;
                    self.sentinel = true;
                    GateEvent::SentinelWritten(true)
                },
                GateAction::Proceed => return Ok(()),
                GateAction::Abort(e) => return Err(e),
                GateAction::Nothing => panic!("gate stalled"),
            };
            action = gate.step(event);
        }
    }
}

#[test]
fn production_gate_starts_by_probing_sentinel() {
    let (gate, action) = Gate::production();
    assert_eq!(gate.phase, GatePhase::ProbingSentinel);
    assert_eq!(gate.limit_ms, 20_000);
    assert_eq!(gate.ceiling, 1024 * 1024 * 1024);
    assert_eq!(PERF_CHECK_TIME_LIMIT_MS, 20_000);
    assert_eq!(CODE_SIZE_LIMIT, 1usize << 30);
    assert!(matches!(action, GateAction::ProbeSentinel));
}

#[test]
fn present_sentinel_skips_pipeline() {
    let mut host = SimulatedHost::new(true, 0);
    assert!(host.run().is_ok());
    assert_eq!(host.stage_runs, 0);
    assert_eq!(host.sentinel_writes, 0);
}

#[test]
fn slow_pipeline_aborts_without_sentinel() {
    let mut host = SimulatedHost::new(false, 20_001);
    match host.run() {
        Err(Error::PerformanceBelowThreshold { elapsed_ms, limit_ms }) => {
            assert_eq!(elapsed_ms, 20_001);
            assert_eq!(limit_ms, 20_000);
        },
        other => panic!("unexpected outcome {:?}", other),
    }
    assert_eq!(host.stage_runs, 3);
    assert_eq!(host.sentinel_writes, 0);
    assert!(!host.sentinel);
}

#[test]
fn fast_pipeline_creates_sentinel_once_then_skips() {
    let mut host = SimulatedHost::new(false, 20_000);
    assert!(host.run().is_ok());
    assert_eq!(host.stage_runs, 3);
    assert_eq!(host.sentinel_writes, 1);
    assert!(host.sentinel);
    assert!(host.run().is_ok());
    assert!(host.run().is_ok());
    assert_eq!(host.stage_runs, 3);
    assert_eq!(host.sentinel_writes, 1);
}

#[test]
fn stage_failure_is_not_a_timing_failure() {
    let mut host = SimulatedHost::new(false, 1);
    host.prepare_error = Some("bad code".to_string());
    match host.run() {
        Err(Error::Preparation(m)) => assert_eq!(m, "bad code"),
        other => panic!("unexpected outcome {:?}", other),
    }
    assert_eq!(host.sentinel_writes, 0);
}

#[test]
fn decompression_failure_aborts() {
    let (mut gate, _) = Gate::new(1000, 16);
    assert!(matches!(gate.step(GateEvent::SentinelProbed(false)), GateAction::Decompress { ceiling: 16 }));
    match gate.step(GateEvent::Decompressed(Err(DecompressionError::Corrupt))) {
        GateAction::Abort(Error::Decompression(DecompressionError::Corrupt)) => {},
        other => panic!("unexpected action {:?}", other),
    }
    assert!(gate.is_done());
    assert!(matches!(gate.step(GateEvent::SentinelWritten(true)), GateAction::Nothing));
    assert_eq!(gate.phase, GatePhase::Aborted);
}

#[test]
fn prevalidation_failure_aborts() {
    let (mut gate, _) = Gate::new(1000, 16);
    gate.step(GateEvent::SentinelProbed(false));
    gate.step(GateEvent::Decompressed(Ok(())));
    match gate.step(GateEvent::Prevalidated(Err("no sections".to_string()))) {
        GateAction::Abort(Error::Prevalidation(m)) => assert_eq!(m, "no sections"),
        other => panic!("unexpected action {:?}", other),
    }
}

#[test]
fn failed_sentinel_write_still_proceeds() {
    let (mut gate, _) = Gate::new(1000, 16);
    gate.step(GateEvent::SentinelProbed(false));
    gate.step(GateEvent::Decompressed(Ok(())));
    gate.step(GateEvent::Prevalidated(Ok(())));
    let a = gate.step(GateEvent::Prepared { result: Ok(()), elapsed_ms: 999 });
    assert!(matches!(a, GateAction::CreateSentinel));
    assert!(matches!(gate.step(GateEvent::SentinelWritten(false)), GateAction::Proceed));
    assert_eq!(gate.phase, GatePhase::Passed);
}

#[test]
fn out_of_order_event_is_ignored() {
    let (mut gate, _) = Gate::new(1000, 16);
    assert!(matches!(gate.step(GateEvent::Prevalidated(Ok(()))), GateAction::Nothing));
    assert_eq!(gate.phase, GatePhase::ProbingSentinel);
}

#[test]
fn reference_scenario_passes_on_fast_host_and_fails_on_slow_host() {
    let raw = vec![0u8; 50 * 1024 * 1024];
    let packed = sp_maybe_compressed_blob::compress_weakly(&raw, raw.len()).unwrap();
    let code = decompress(&packed, CODE_SIZE_LIMIT).unwrap();
    assert_eq!(code.len(), 50 * 1024 * 1024);

    let mut fast = SimulatedHost::new(false, 5_000);
    assert!(fast.run().is_ok());
    assert!(fast.sentinel);

    let mut slow = SimulatedHost::new(false, 25_000);
    let err = slow.run().unwrap_err();
    assert_eq!(err.message(), "Performance check not passed: 25s exceeds 20s limit");
    assert!(!slow.sentinel);
}
