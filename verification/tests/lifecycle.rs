//! Bringing models in, keeping them up and letting them go.

use pylon::binary64::Binary64;
use pylon::bringup::{
    calibration_ramp, canary_result, completion_result, is_prompt_too_long, step_down, BringupConfig, BringupError,
    CalibrationConfig, CompletionReply,
};
use pylon::generation::ModelGeneration;
use pylon::keyed::SortedSet;
use pylon::model_lifecycle::{
    abort_startup, admit_generation, discovery_poll_outcome, earliest_pending_index, health_probe_timeout, initialization_plan,
    retry_interval, startup_action, stats_initialization, CalibrationAttemptTimer, CalibrationOutcome, DriveAction,
    DriveEvent, InitializationAttemptOutcome, InitializationDrive, ModelDiscoveryConfig, ModelDiscoveryProvider,
    ModelInitialization, ModelLifecycleConfig, ModelLifecycleError, ModelLifecycleSupervisor, ModelSource,
    ModelStatsInitialization, PendingInitialization, ReconcileAction, ReconcileEvent, Reconciliation, RunAction,
    StartupAction, StartupHealthStep, StartupHealthWait, StatsFlush,
};
use pylon::model_stats::InferenceServerStatus;
use pylon::runtime_state::{PylonRuntimeState, RequestGenerationAdmission};
use pylon::upstream_health::{HealthCheck, HealthCheckStep, UpstreamHealthPaths};

const SECOND: u64 = 1_000_000_000;

fn names(ids: &[&str]) -> SortedSet<String> {
    let mut set = SortedSet::new();
    for id in ids {
        set.insert((*id).to_string());
    }
    set
}

fn discovery() -> ModelDiscoveryConfig {
    ModelDiscoveryConfig {
        provider: ModelDiscoveryProvider::Dynamo,
        poll_interval: 10 * SECOND,
        request_timeout: SECOND,
    }
}

fn config(initialization: ModelInitialization, bringup_enabled: bool, startup_health_wait: u64) -> ModelLifecycleConfig {
    ModelLifecycleConfig {
        upstream_http_base_url: "http://upstream.local".to_string(),
        source: ModelSource::Static(names(&["model-a"])),
        initialization,
        bringup: BringupConfig { enabled: bringup_enabled, ..BringupConfig::default() },
        health_paths: UpstreamHealthPaths::default(),
        startup_health_wait,
    }
}

/// Runs a reconciliation to its end with statistics that agree to everything.
fn reconcile(
    supervisor: &mut ModelLifecycleSupervisor,
    runtime: &mut PylonRuntimeState,
    desired: &[&str],
    now: u64,
) -> Vec<String> {
    run_reconciliation(supervisor, runtime, Reconciliation::begin(names(desired)), now)
}

fn run_reconciliation(
    supervisor: &mut ModelLifecycleSupervisor,
    runtime: &mut PylonRuntimeState,
    mut reconciliation: Reconciliation,
    now: u64,
) -> Vec<String> {
    let mut event = ReconcileEvent::Start;
    let mut done = Vec::new();
    loop {
        let action =
            supervisor.step(runtime, &mut reconciliation, event, &ModelInitialization::Uncalibrated, now);
        event = match action {
            ReconcileAction::StopCanary(generation) => {
                done.push(format!("stop {}-{}", generation.model_id, generation.sequence));
                ReconcileEvent::CanaryStopped
            }
            ReconcileAction::RetireStats { generation, stats } => {
                assert!(stats.is_some());
                done.push(format!("retire {}-{}", generation.model_id, generation.sequence));
                ReconcileEvent::StatsRetired
            }
            ReconcileAction::BeginStats { generation, .. } => {
                done.push(format!("begin {}-{}", generation.model_id, generation.sequence));
                ReconcileEvent::StatsBegan(true)
            }
            ReconcileAction::Finished => return done,
            ReconcileAction::Failed(error) => panic!("reconciliation failed: {error:?}"),
        };
    }
}

#[test]
fn probe_path_is_the_first_candidate_until_a_probe_resolves() {
    let paths = UpstreamHealthPaths::default();

    assert_eq!(paths.probe_path(), "/health");
}

#[test]
fn a_health_check_falls_back_and_remembers_what_answered() {
    let mut paths = UpstreamHealthPaths::default();
    let mut check = HealthCheck::begin(&paths);
    assert_eq!(check.step(&mut paths, None), HealthCheckStep::Probe(0));
    assert_eq!(check.step(&mut paths, Some(404)), HealthCheckStep::Probe(1));
    assert_eq!(check.step(&mut paths, Some(200)), HealthCheckStep::Healthy);
    assert_eq!(paths.resolved_path(), Some("/v1/health/ready"));
    assert_eq!(paths.probe_order(), [1, 0]);

    let mut again = HealthCheck::begin(&paths);
    assert_eq!(again.step(&mut paths, None), HealthCheckStep::Probe(1));
    assert_eq!(again.step(&mut paths, Some(200)), HealthCheckStep::Healthy);

    let mut strange = UpstreamHealthPaths::default();
    let mut check = HealthCheck::begin(&strange);
    assert_eq!(check.step(&mut strange, None), HealthCheckStep::Probe(0));
    assert_eq!(check.step(&mut strange, Some(404)), HealthCheckStep::Probe(1));
    assert_eq!(check.step(&mut strange, Some(404)), HealthCheckStep::Unhealthy);
    assert_eq!(strange.resolved_path(), None);
}

#[test]
fn configured_health_paths_come_first() {
    let paths = UpstreamHealthPaths::new(&["livez".to_string()]);
    assert_eq!(paths.probe_path(), "/livez");
    assert_eq!(paths.path(0), "/livez");
    assert_eq!(paths.path(1), "/health");
    assert_eq!(paths.path(2), "/v1/health/ready");
    assert_eq!(paths.probe_order(), [0, 1, 2]);
}

#[test]
fn detects_prompt_too_long_errors() {
    assert!(is_prompt_too_long(400, &Some("Prompt too long for model context length".to_string())));
    assert!(!is_prompt_too_long(500, &Some("prompt too long".to_string())));
}

fn reply(status: u16, completion: Result<u32, String>, error_message: Option<&str>) -> CompletionReply {
    CompletionReply {
        status,
        completion,
        error_message: error_message.map(str::to_string),
        body: "the body".to_string(),
    }
}

#[test]
fn completions_are_read_from_the_reply() {
    assert!(matches!(completion_result(reply(200, Ok(7), None)), Ok(7)));
    assert!(matches!(
        completion_result(reply(200, Err("no usage".to_string()), None)),
        Err(BringupError::InvalidResponse(words)) if words == "no usage"
    ));
    assert!(matches!(
        completion_result(reply(413, Ok(7), Some("maximum context reached"))),
        Err(BringupError::PromptTooLong)
    ));
    assert!(matches!(
        completion_result(reply(500, Ok(7), None)),
        Err(BringupError::Api { status: 500, message }) if message == "the body"
    ));
    assert!(matches!(
        completion_result(reply(500, Ok(7), Some("overloaded"))),
        Err(BringupError::Api { status: 500, message }) if message == "overloaded"
    ));
}

#[test]
fn a_canary_that_never_stops_has_run_away() {
    assert!(canary_result(Ok(12), 237).is_ok());
    assert!(matches!(canary_result(Ok(237), 237), Err(BringupError::RunawayGeneration { tokens: 237 })));
    assert!(matches!(
        canary_result(Err(BringupError::UnhealthyUpstream), 237),
        Err(BringupError::UnhealthyUpstream)
    ));
}

#[test]
fn calibration_ramp_keeps_increasing_load_after_prompt_and_concurrency_caps() {
    let config = CalibrationConfig {
        calibration_requests: 2,
        calibration_prompt_units: 1024,
        calibration_max_concurrency: 3,
        ..CalibrationConfig::default()
    };
    let ramp = calibration_ramp(&config, 5);

    assert_eq!(
        ramp.iter()
            .map(|step| (step.prompt_units, step.request_count, step.concurrency))
            .collect::<Vec<_>>(),
        vec![(256, 2, 1), (512, 4, 2), (1024, 8, 3), (1024, 16, 3), (1024, 32, 3)]
    );
}

#[test]
fn a_refused_prompt_steps_down_to_the_last_completed_one() {
    assert!(matches!(step_down(&vec![256, 512], 1024), Ok(512)));
    assert!(matches!(step_down(&vec![256, 512], 512), Ok(256)));
    assert!(matches!(step_down(&vec![], 256), Err(BringupError::PromptTooLong)));
}

#[test]
fn pending_initializations_choose_the_earliest_retry_deadline() {
    let now = 5 * SECOND;
    let pending = [
        PendingInitialization {
            generation: ModelGeneration::new("model-late", 1),
            retry_at: now + 2 * SECOND,
        },
        PendingInitialization { generation: ModelGeneration::new("model-ready", 2), retry_at: now },
        PendingInitialization {
            generation: ModelGeneration::new("model-next", 3),
            retry_at: now + SECOND,
        },
    ];

    assert_eq!(earliest_pending_index(&pending), Some(1));
}

#[test]
fn the_first_of_those_due_at_once_is_taken_and_none_of_none() {
    let pending = [
        PendingInitialization { generation: ModelGeneration::new("model-a", 1), retry_at: 3 },
        PendingInitialization { generation: ModelGeneration::new("model-b", 2), retry_at: 3 },
    ];
    assert_eq!(earliest_pending_index(&pending), Some(0));
    assert_eq!(earliest_pending_index(&[]), None);
}

#[test]
fn a_removed_model_comes_back_in_a_fresh_generation() {
    let source = ModelSource::Discovered(discovery());
    let mut supervisor = ModelLifecycleSupervisor::new(&source, 0);
    let mut runtime = PylonRuntimeState::new(InferenceServerStatus::Active, &[]);

    let first = reconcile(&mut supervisor, &mut runtime, &["model-b", "model-a"], 5);
    assert_eq!(first.len(), 2);
    assert!(first[0].starts_with("begin model-a-"));
    assert!(first[1].starts_with("begin model-b-"));
    assert_eq!(supervisor.next_retry_at(), Some(5));
    let old = runtime.current_generation("model-a").unwrap();
    assert!(supervisor.is_current(&old));

    let removed = reconcile(&mut supervisor, &mut runtime, &["model-b"], 6);
    assert_eq!(removed, [format!("retire model-a-{}", old.sequence)]);
    assert!(!supervisor.is_current(&old));
    assert_eq!(runtime.current_generation("model-a"), None);

    reconcile(&mut supervisor, &mut runtime, &["model-b", "model-a"], 7);
    let new = runtime.current_generation("model-a").unwrap();
    assert!(new.sequence > old.sequence);
    assert!(reconcile(&mut supervisor, &mut runtime, &["model-b", "model-a"], 8).is_empty());
}

#[test]
fn a_finished_reconciliation_keeps_drops_and_numbers_models() {
    let mut supervisor = ModelLifecycleSupervisor::new(&ModelSource::Static(names(&[])), 0);
    let mut runtime = PylonRuntimeState::new(InferenceServerStatus::Active, &[]);
    reconcile(&mut supervisor, &mut runtime, &["b", "d"], 5);
    let kept = runtime.current_generation("d").unwrap();
    assert_eq!(
        reconcile(&mut supervisor, &mut runtime, &["e", "d", "c", "a"], 6),
        ["retire b-1", "begin a-3", "begin c-4", "begin e-5"]
    );
    assert_eq!(runtime.current_generation("d"), Some(kept));
    assert_eq!(runtime.current_generation("b"), None);
    let mut pending = Vec::new();
    while let Some(next) = supervisor.pop_next_pending() {
        pending.push(format!("{}-{}", next.generation.model_id(), next.generation.sequence));
    }
    assert_eq!(pending, ["d-2", "a-3", "c-4", "e-5"]);
}

#[test]
fn a_generation_that_the_statistics_refuse_is_served_no_more() {
    let mut supervisor = ModelLifecycleSupervisor::new(&ModelSource::Static(names(&[])), 0);
    for (event, served) in [(ReconcileEvent::StatsBegan(false), false), (ReconcileEvent::StatsStopped, true)] {
        let mut runtime = PylonRuntimeState::new(InferenceServerStatus::Active, &[]);
        let mut reconciliation = Reconciliation::begin(names(&["model-a"]));
        let begun = supervisor.step(
            &mut runtime,
            &mut reconciliation,
            ReconcileEvent::Start,
            &ModelInitialization::Uncalibrated,
            5,
        );
        assert!(matches!(begun, ReconcileAction::BeginStats { .. }));
        let failed =
            supervisor.step(&mut runtime, &mut reconciliation, event, &ModelInitialization::Uncalibrated, 6);
        if served {
            assert!(matches!(failed, ReconcileAction::Failed(ModelLifecycleError::StatsCollectorStopped)));
        } else {
            assert!(matches!(failed, ReconcileAction::Failed(ModelLifecycleError::StaleGeneration)));
        }
        assert_eq!(runtime.current_generation("model-a").is_some(), served);
        assert!(supervisor.pop_next_pending().is_none());
    }
}

#[test]
fn an_aborted_startup_retires_what_it_began() {
    let mut supervisor = ModelLifecycleSupervisor::new(&ModelSource::Static(names(&[])), 0);
    let mut runtime = PylonRuntimeState::new(InferenceServerStatus::Active, &[]);
    reconcile(&mut supervisor, &mut runtime, &["model-a", "model-b"], 5);
    let first = supervisor.pop_next_pending().unwrap().generation;
    assert!(admit_generation(&mut runtime, &first, StatsFlush::Flushed).is_ok());
    assert_eq!(runtime.advertised_model_ids(), ["model-a"]);
    let (reconciliation, error) = abort_startup(ModelLifecycleError::StatsCollectorStopped);
    assert!(matches!(error, ModelLifecycleError::StatsCollectorStopped));
    assert_eq!(
        run_reconciliation(&mut supervisor, &mut runtime, reconciliation, 6),
        ["retire model-a-1", "retire model-b-2"]
    );
    assert!(runtime.advertised_model_ids().is_empty());
    assert_eq!(runtime.current_generation("model-a"), None);
    assert_eq!(runtime.current_generation("model-b"), None);
}

#[test]
fn a_removed_model_is_no_longer_queued() {
    let source = ModelSource::Discovered(discovery());
    let mut supervisor = ModelLifecycleSupervisor::new(&source, 0);
    let mut runtime = PylonRuntimeState::new(InferenceServerStatus::Active, &[]);
    reconcile(&mut supervisor, &mut runtime, &["model-a", "model-b"], 5);
    reconcile(&mut supervisor, &mut runtime, &["model-b"], 6);
    let next = supervisor.pop_next_pending().unwrap();
    assert_eq!(next.generation.model_id(), "model-b");
    assert!(supervisor.pop_next_pending().is_none());
    assert_eq!(supervisor.next_discovery_poll_at(), Some(10 * SECOND));
    assert!(supervisor.pop_ready_pending(u64::MAX).is_none());
}

#[test]
fn a_watched_model_loses_its_canary_before_its_generation() {
    let source = ModelSource::Static(names(&["model-a"]));
    let mut supervisor = ModelLifecycleSupervisor::new(&source, 0);
    let mut runtime = PylonRuntimeState::new(InferenceServerStatus::Active, &[]);
    reconcile(&mut supervisor, &mut runtime, &["model-a"], 5);
    let RunAction::Initialize(generation) = supervisor.run_action(false, 5) else {
        panic!("the new generation should be initialized");
    };
    assert!(supervisor.unwatched(&runtime).is_empty());
    assert!(admit_generation(&mut runtime, &generation, StatsFlush::Flushed).is_ok());
    assert!(matches!(
        runtime.request_generation_admission("model-a"),
        RequestGenerationAdmission::Admitted(_)
    ));
    assert_eq!(supervisor.unwatched(&runtime), [generation.clone()]);
    assert!(matches!(supervisor.start_canary(&generation, true), Ok(true)));
    assert!(supervisor.unwatched(&runtime).is_empty());

    let number = generation.sequence;
    assert_eq!(
        reconcile(&mut supervisor, &mut runtime, &[], 6),
        [format!("stop model-a-{number}"), format!("retire model-a-{number}")]
    );
    assert!(matches!(supervisor.start_canary(&generation, true), Err(ModelLifecycleError::StaleGeneration)));
    assert!(matches!(
        admit_generation(&mut runtime, &generation, StatsFlush::Flushed),
        Err(ModelLifecycleError::StaleGeneration)
    ));
    assert!(matches!(
        admit_generation(&mut runtime, &generation, StatsFlush::Stopped),
        Err(ModelLifecycleError::StatsCollectorStopped)
    ));
    assert!(matches!(
        admit_generation(&mut runtime, &generation, StatsFlush::UnknownGeneration),
        Err(ModelLifecycleError::StaleGeneration)
    ));
}

#[test]
fn statistics_that_refuse_a_generation_end_the_reconciliation() {
    let source = ModelSource::Static(names(&["model-a"]));
    for (answer, stale) in [(ReconcileEvent::StatsBegan(false), true), (ReconcileEvent::StatsStopped, false)] {
        let mut supervisor = ModelLifecycleSupervisor::new(&source, 0);
        let mut runtime = PylonRuntimeState::new(InferenceServerStatus::Active, &[]);
        let mut reconciliation = Reconciliation::begin(names(&["model-a"]));
        let pinned = ModelInitialization::ConfiguredInputTps { input_tps: Binary64 { bits: 1 }, pin: true };
        let begun = supervisor.step(&mut runtime, &mut reconciliation, ReconcileEvent::Start, &pinned, 5);
        assert!(matches!(
            begun,
            ReconcileAction::BeginStats {
                initialization: ModelStatsInitialization::ConfiguredInputTps { pin: true, .. },
                ..
            }
        ));
        let failed = supervisor.step(&mut runtime, &mut reconciliation, answer, &pinned, 5);
        match failed {
            ReconcileAction::Failed(ModelLifecycleError::StaleGeneration) => assert!(stale),
            ReconcileAction::Failed(ModelLifecycleError::StatsCollectorStopped) => assert!(!stale),
            other => panic!("unexpected {other:?}"),
        }
        assert_eq!(supervisor.next_retry_at(), None);
    }
    assert_eq!(
        stats_initialization(&ModelInitialization::Uncalibrated),
        ModelStatsInitialization::Empty
    );
}

#[test]
fn a_failed_initialization_is_tried_again_later() {
    let source = ModelSource::Static(names(&["model-a"]));
    let mut supervisor = ModelLifecycleSupervisor::new(&source, 0);
    let mut runtime = PylonRuntimeState::new(InferenceServerStatus::Active, &[]);
    reconcile(&mut supervisor, &mut runtime, &["model-a"], 5);
    let RunAction::Initialize(generation) = supervisor.run_action(false, 5) else {
        panic!("the new generation should be initialized");
    };
    let failed = InitializationAttemptOutcome::Failed(ModelLifecycleError::Bringup(BringupError::UnhealthyUpstream));
    assert!(!supervisor.settle_pending(generation.clone(), failed, &source, 5));
    assert!(matches!(
        supervisor.run_action(false, 6),
        RunAction::Wait { poll_at: None, retry_at: Some(at) } if at == 5 + SECOND
    ));
    assert!(matches!(supervisor.run_action(true, 5 + SECOND), RunAction::Exit));
    assert!(matches!(
        supervisor.run_action(false, 5 + SECOND),
        RunAction::Initialize(again) if again == generation
    ));
    assert!(supervisor.settle_pending(generation, InitializationAttemptOutcome::Ready, &source, 9));
    assert_eq!(supervisor.next_retry_at(), None);
    assert_eq!(retry_interval(&source), SECOND);
    assert_eq!(retry_interval(&ModelSource::Discovered(discovery())), 10 * SECOND);
}

#[test]
fn polls_keep_the_last_models_when_they_fail() {
    let source = ModelSource::Discovered(discovery());
    let mut supervisor = ModelLifecycleSupervisor::new(&source, 0);
    let found = supervisor.record_discovery_poll(&discovery(), Ok(names(&["model-a"])), 5);
    assert_eq!(found.unwrap().to_vec(), ["model-a"]);
    assert!(matches!(
        supervisor.run_action(false, 6),
        RunAction::Wait { poll_at: Some(at), retry_at: None } if at == 5 + 10 * SECOND
    ));
    assert!(supervisor.record_discovery_poll(&discovery(), Err("down".to_string()), 7).is_none());
    let empty = supervisor.record_discovery_poll(&discovery(), Ok(names(&[])), 8);
    assert_eq!(empty.unwrap().len(), 0);
    assert_eq!(discovery_poll_outcome(&Ok(names(&["a", "b"]))), ("success", Some(2)));
    assert_eq!(discovery_poll_outcome(&Err("down".to_string())), ("error", None));
}

#[test]
fn a_generation_that_is_no_longer_wanted_leaves_during_its_attempt() {
    let source = ModelSource::Discovered(discovery());
    let mut supervisor = ModelLifecycleSupervisor::new(&source, 0);
    let mut runtime = PylonRuntimeState::new(InferenceServerStatus::Active, &[]);
    reconcile(&mut supervisor, &mut runtime, &["model-a"], 5);
    let generation = runtime.current_generation("model-a").unwrap();

    let mut drive = InitializationDrive::begin(&supervisor, &generation).unwrap();
    assert!(matches!(
        drive.step(&supervisor, DriveEvent::Polled(Some(names(&["model-a", "model-b"])))),
        DriveAction::Wait
    ));
    assert!(matches!(drive.step(&supervisor, DriveEvent::Polled(None)), DriveAction::Wait));
    let DriveAction::Reconcile(desired) = drive.step(&supervisor, DriveEvent::Polled(Some(names(&["model-b"])))) else {
        panic!("the generation should leave");
    };
    assert_eq!(desired.to_vec(), ["model-b"]);
    reconcile(&mut supervisor, &mut runtime, &["model-b"], 6);
    assert!(matches!(
        drive.step(&supervisor, DriveEvent::Reconciled),
        DriveAction::Return(InitializationAttemptOutcome::Retired)
    ));
    assert!(InitializationDrive::begin(&supervisor, &generation).is_none());
}

#[test]
fn polls_that_came_during_an_attempt_are_taken_up_after_it() {
    let source = ModelSource::Discovered(discovery());
    let mut supervisor = ModelLifecycleSupervisor::new(&source, 0);
    let mut runtime = PylonRuntimeState::new(InferenceServerStatus::Active, &[]);
    reconcile(&mut supervisor, &mut runtime, &["model-a"], 5);
    let generation = runtime.current_generation("model-a").unwrap();

    let mut drive = InitializationDrive::begin(&supervisor, &generation).unwrap();
    drive.step(&supervisor, DriveEvent::Polled(Some(names(&["model-a", "model-b"]))));
    let DriveAction::Reconcile(desired) = drive.step(&supervisor, DriveEvent::Attempted(None)) else {
        panic!("the kept poll should be reconciled");
    };
    assert_eq!(desired.to_vec(), ["model-a", "model-b"]);
    reconcile(&mut supervisor, &mut runtime, &["model-a", "model-b"], 6);
    assert!(matches!(
        drive.step(&supervisor, DriveEvent::Reconciled),
        DriveAction::Return(InitializationAttemptOutcome::Ready)
    ));

    let mut stopped = InitializationDrive::begin(&supervisor, &generation).unwrap();
    assert!(matches!(
        stopped.step(&supervisor, DriveEvent::Cancelled),
        DriveAction::Return(InitializationAttemptOutcome::Cancelled)
    ));
    let mut failing = InitializationDrive::begin(&supervisor, &generation).unwrap();
    assert!(matches!(
        failing.step(&supervisor, DriveEvent::Attempted(Some(ModelLifecycleError::StaleGeneration))),
        DriveAction::Return(InitializationAttemptOutcome::Failed(ModelLifecycleError::StaleGeneration))
    ));
}

#[test]
fn startup_waits_for_a_healthy_upstream_until_its_deadline() {
    let patient = config(ModelInitialization::Uncalibrated, true, SECOND);
    assert_eq!(health_probe_timeout(&patient), Some(5 * SECOND));
    let mut wait = StartupHealthWait::begin(&patient, 100).unwrap();
    assert!(matches!(
        wait.after_probe(false, 200),
        StartupHealthStep::Retry { first: true, delay: 500_000_000 }
    ));
    assert!(matches!(wait.after_probe(false, 300), StartupHealthStep::Retry { first: false, .. }));
    assert!(matches!(wait.after_probe(true, 400), StartupHealthStep::Healthy));
    assert!(matches!(
        wait.after_probe(false, 100 + SECOND),
        StartupHealthStep::Failed(ModelLifecycleError::Bringup(BringupError::UnhealthyUpstream))
    ));
    assert!(StartupHealthWait::begin(&config(ModelInitialization::Uncalibrated, false, 0), 100).is_none());
}

#[test]
fn an_attempt_probes_before_it_calibrates() {
    let calibration = CalibrationConfig { health_timeout: 3, ..CalibrationConfig::default() };
    let plan = initialization_plan(&config(ModelInitialization::Calibration(calibration), false, 0));
    assert_eq!(plan.probe_timeout, Some(3));
    assert_eq!(plan.calibration, Some(calibration));
    let plan = initialization_plan(&config(ModelInitialization::Uncalibrated, false, 0));
    assert_eq!(plan.probe_timeout, None);
    assert_eq!(plan.calibration, None);
    assert!(matches!(startup_action(InitializationAttemptOutcome::Ready), StartupAction::Admit));
    assert!(matches!(startup_action(InitializationAttemptOutcome::Retired), StartupAction::Skip));
    assert!(matches!(
        startup_action(InitializationAttemptOutcome::Failed(ModelLifecycleError::StaleGeneration)),
        StartupAction::Abort(ModelLifecycleError::StaleGeneration)
    ));
}

#[test]
fn a_calibration_is_reported_once() {
    let mut timer = CalibrationAttemptTimer::start(100);
    assert_eq!(timer.finish(true, 150), Some((CalibrationOutcome::Completed, 50)));
    assert_eq!(timer.record(CalibrationOutcome::Cancelled, 200), None);
    let mut dropped = CalibrationAttemptTimer::start(100);
    assert_eq!(dropped.record(CalibrationOutcome::Cancelled, 90), Some((CalibrationOutcome::Cancelled, 0)));
    assert_eq!(CalibrationAttemptTimer::start(1).finish(false, 3), Some((CalibrationOutcome::Error, 2)));
}

#[test]
fn errors_say_what_went_wrong() {
    for (error, words) in [
        (BringupError::InvalidCalibrationConfig("no requests"), "invalid calibration configuration: no requests"),
        (BringupError::Http("timed out".to_string()), "http request failed: timed out"),
        (BringupError::UnhealthyUpstream, "upstream health check failed during pylon startup"),
        (
            BringupError::Api { status: 503, message: "busy".to_string() },
            "upstream rejected request (503 Service Unavailable): busy",
        ),
        (
            BringupError::Api { status: 599, message: "odd".to_string() },
            "upstream rejected request (599 <unknown status code>): odd",
        ),
        (BringupError::PromptTooLong, "calibration prompt too long"),
        (BringupError::RunawayGeneration { tokens: 300 }, "runaway generation detected at completion_tokens=300"),
        (BringupError::InvalidResponse("no usage".to_string()), "invalid completion response: no usage"),
        (
            BringupError::InsufficientCalibrationData,
            "calibration saturated before measuring positive input throughput",
        ),
        (BringupError::StatsCollectorStopped, "stats collector stopped during model initialization"),
        (BringupError::RetiredGeneration, "model generation retired during initialization"),
    ] {
        assert_eq!(error.message(), words);
        assert_eq!(ModelLifecycleError::Bringup(error).message(), format!("model initialization failed: {words}"));
    }
    for (error, words) in [
        (ModelLifecycleError::Discovery("refused".to_string()), "model discovery failed: refused"),
        (
            ModelLifecycleError::StatsCollectorStopped,
            "stats collector stopped during model lifecycle transition",
        ),
        (ModelLifecycleError::StaleGeneration, "model generation transition lost exact ownership"),
        (ModelLifecycleError::GenerationCounterExhausted, "model generation counter exhausted"),
    ] {
        assert_eq!(error.message(), words);
    }
}
