//! Live requests, the work they stand for, and who is let in beside them.

use http::{HeaderMap, HeaderValue};
use pylon::binary64::Binary64;
use pylon::generation::ModelGeneration;
use pylon::keyed::SortedMap;
use pylon::live_requests::LiveRequestState;
use pylon::queue_admission::{
    expected_queue_ms, mismatch_threshold_ms, PylonQueueMismatchRetryConfig, QueueAdmissionDecision,
    QueueTrackedRequestGuard, RequestObservationTransition,
};
use pylon::queue_model::{saturated_queue_time_ms, QueueModelSnapshot, TrackedPromptPhase};
use pylon::request_observation::{
    RequestObservation, RequestObservationEndpoint, RequestObservationState, RequiredTunnelHeaders,
};

fn rate(value: f64) -> Binary64 {
    Binary64 { bits: value.to_bits() }
}

fn queue_time_delta_ms(input_tokens: u64, rate: Binary64) -> Option<u64> {
    let ms = (input_tokens as f64 * 1_000.0 / f64::from_bits(rate.bits)).ceil();
    if ms < u64::MAX as f64 {
        Some(ms as u64)
    } else {
        None
    }
}

fn scale_ms(ms: u64, factor: Binary64) -> u64 {
    (ms as f64 * f64::from_bits(factor.bits)).ceil() as u64
}

fn generation(model_id: &str) -> ModelGeneration {
    ModelGeneration::new(model_id, 0)
}

fn required(request_id: &str, priority: u32, input_tokens: u64) -> RequiredTunnelHeaders {
    required_for_model(request_id, "model-a", priority, input_tokens)
}

fn required_for_model(request_id: &str, model_id: &str, priority: u32, input_tokens: u64) -> RequiredTunnelHeaders {
    RequiredTunnelHeaders {
        request_id: request_id.to_string(),
        routing_key: None,
        model_id: model_id.to_string(),
        priority: Some(priority),
        input_tokens,
        accepted_at: 0,
    }
}

fn headers_with_expected(expected_ms: &'static str) -> HeaderMap<HeaderValue> {
    let mut headers = HeaderMap::new();
    headers.insert("x-stargate-expected-queue-ms", HeaderValue::from_static(expected_ms));
    headers
}

fn snapshot(live_requests: &LiveRequestState, model_id: &str) -> QueueModelSnapshot {
    live_requests.snapshot_generation(&generation(model_id), &queue_time_delta_ms)
}

fn listed(estimates: Option<SortedMap<u32, u64>>) -> Option<Vec<(u32, u64)>> {
    estimates.map(|map| (0..map.len()).map(|i| (*map.key_at(i), *map.value_at(i))).collect())
}

fn estimates(live_requests: &LiveRequestState) -> Option<Vec<(u32, u64)>> {
    listed(snapshot(live_requests, "model-a").queue_time_estimate_ms_by_priority)
}

fn mean_rate(rates: &[Binary64]) -> f64 {
    rates.iter().map(|rate| f64::from_bits(rate.bits)).sum::<f64>() / rates.len() as f64
}

fn written(snapshot: &QueueModelSnapshot) -> String {
    format!("{snapshot:?}")
}

fn track(live_requests: &mut LiveRequestState, required: &RequiredTunnelHeaders) -> QueueTrackedRequestGuard {
    live_requests.track_generation_request(required, generation(&required.model_id))
}

fn evaluate(
    live_requests: &LiveRequestState,
    config: &PylonQueueMismatchRetryConfig,
    required: &RequiredTunnelHeaders,
    headers: &HeaderMap<HeaderValue>,
) -> QueueAdmissionDecision {
    live_requests.evaluate_generation(
        config,
        required,
        Some(&generation(&required.model_id)),
        headers,
        &queue_time_delta_ms,
        &scale_ms,
    )
}

fn observe(live_requests: &mut LiveRequestState, observation: &RequestObservation) -> RequestObservationTransition {
    live_requests.transition_observation(observation, Some(&generation(&observation.model_id)))
}

fn rejected(actual_ms: u64) -> QueueAdmissionDecision {
    QueueAdmissionDecision::Rejected { expected_ms: 0, actual_ms, threshold_ms: 25, retry_after_ms: None }
}

fn observation(request_id: &str, state: RequestObservationState) -> RequestObservation {
    RequestObservation {
        endpoint: RequestObservationEndpoint::ChatCompletions,
        request_id: request_id.to_string(),
        routing_key: None,
        model_id: "model-a".to_string(),
        priority: 0,
        input_tokens: 100,
        embedding_items: 0,
        embedding_items_observed: false,
        upstream_status: None,
        output_messages: 0,
        output_tokens: 0,
        output_tokens_explicit: false,
        output_tokens_from_chunk_usage: false,
        state,
        time_to_response_headers: None,
        time_to_first_output: None,
        time_to_first_token: None,
        total_duration: 0,
    }
}

#[test]
fn one_live_request_transition_updates_queue_and_active_output_load() {
    let mut live_requests = LiveRequestState::new();
    let _first = track(&mut live_requests, &required("req-a", 0, 100));
    let _second = track(&mut live_requests, &required("req-b", 0, 100));

    for (request_id, output_tps) in [("req-a", 20.0), ("req-b", 10.0)] {
        observe(&mut live_requests, &observation(request_id, RequestObservationState::OutputGeneration));
        live_requests.update_active_output_tps(&request_id.to_string(), Some(rate(output_tps)));
    }

    let active = snapshot(&live_requests, "model-a");
    assert_eq!(active.output_generation_queries, 2);
    assert_eq!(mean_rate(&active.active_chat_output_tps), 15.0);

    observe(&mut live_requests, &observation("req-a", RequestObservationState::Complete));

    let terminal = snapshot(&live_requests, "model-a");
    assert_eq!(terminal.output_generation_queries, 1);
    assert_eq!(mean_rate(&terminal.active_chat_output_tps), 10.0);
}

#[test]
fn threshold_helper_accepts_at_threshold_and_rejects_above() {
    let mut config = PylonQueueMismatchRetryConfig::default();
    let threshold = mismatch_threshold_ms(100, &config, &scale_ms);
    assert_eq!(threshold, 125);
    assert!(126 > threshold);
    assert!(125 <= threshold);
    assert_eq!(mismatch_threshold_ms(0, &config, &scale_ms), 25);
    assert_eq!(mismatch_threshold_ms(u64::MAX, &config, &scale_ms), u64::MAX);
    config.tolerance_factor = rate(f64::NAN);
    assert_eq!(mismatch_threshold_ms(100, &config, &scale_ms), 125);
}

#[test]
fn a_tolerance_above_one_widens_the_threshold() {
    let config =
        PylonQueueMismatchRetryConfig { tolerance_factor: rate(1.5), ..PylonQueueMismatchRetryConfig::default() };
    assert_eq!(mismatch_threshold_ms(1_000, &config, &scale_ms), 1_500);
    assert_eq!(mismatch_threshold_ms(10, &config, &scale_ms), 35);
}

#[test]
fn live_request_state_publishes_cumulative_priority_queue_estimates() {
    let mut live_requests = LiveRequestState::new();
    live_requests.update_generation_throughput(&generation("model-a"), rate(100.0));
    let _priority_two = track(&mut live_requests, &required("req-p2", 2, 20));
    let mut priority_four = track(&mut live_requests, &required("req-p4", 4, 30));
    let mut zero_input = track(&mut live_requests, &required("req-zero", 1, 0));
    priority_four.on_upstream_send(&mut live_requests);

    assert_eq!(snapshot(&live_requests, "model-a").queue_size, 3);
    zero_input.on_upstream_send(&mut live_requests);
    let queued = snapshot(&live_requests, "model-a");

    assert_eq!(queued.queue_size, 3);
    assert_eq!(queued.queued_input_size, 50);
    assert_eq!(queued.num_running_queries, 3);
    assert_eq!(listed(queued.queue_time_estimate_ms_by_priority), Some(vec![(0, 300), (2, 500)]));
    zero_input.finish(&mut live_requests);
    assert_eq!(snapshot(&live_requests, "model-a").queue_size, 2);
}

#[test]
fn live_request_state_excludes_output_generation_and_drains_on_drop() {
    let mut live_requests = LiveRequestState::new();
    live_requests.update_generation_throughput(&generation("model-a"), rate(100.0));
    let mut request = track(&mut live_requests, &required("req-output", 2, 20));
    request.observe_output(&mut live_requests);

    let queued = snapshot(&live_requests, "model-a");
    assert_eq!(queued.queue_size, 0);
    assert_eq!(queued.queued_input_size, 0);
    assert_eq!(queued.output_generation_queries, 1);

    request.finish(&mut live_requests);
    assert_eq!(live_requests.tracked_request_count(), 0);
}

#[test]
fn live_request_state_publishes_explicit_empty_priority_estimates_after_prompt_queue_drains() {
    let mut live_requests = LiveRequestState::new();
    live_requests.update_generation_throughput(&generation("model-a"), rate(100.0));
    let mut request = track(&mut live_requests, &required("req-drained", 2, 20));

    assert_eq!(estimates(&live_requests), Some(vec![(2, 200)]));

    request.finish(&mut live_requests);
    assert_eq!(estimates(&live_requests), Some(vec![]));
}

#[test]
fn queue_model_state_moves_replaced_request_identity_between_models() {
    let mut live_requests = LiveRequestState::new();
    live_requests.update_generation_throughput(&generation("model-a"), rate(100.0));
    live_requests.update_generation_throughput(&generation("model-b"), rate(100.0));
    let _first = track(&mut live_requests, &required_for_model("req-shared", "model-a", 4, 20));
    let _replacement = track(&mut live_requests, &required_for_model("req-shared", "model-b", 2, 30));

    assert_eq!(
        written(&snapshot(&live_requests, "model-a")),
        written(&QueueModelSnapshot {
            queue_time_estimate_ms_by_priority: Some(SortedMap::new()),
            ..QueueModelSnapshot::default()
        })
    );
    let mut moved = SortedMap::new();
    moved.insert(2, 300);
    assert_eq!(
        written(&snapshot(&live_requests, "model-b")),
        written(&QueueModelSnapshot {
            queue_size: 1,
            queued_input_size: 30,
            num_running_queries: 1,
            total_query_input_size: 30,
            queue_time_estimate_ms_by_priority: Some(moved),
            ..QueueModelSnapshot::default()
        })
    );
}

#[test]
fn queue_cleanup_preserves_observed_state_until_terminal_transition() {
    let mut live_requests = LiveRequestState::new();
    let mut request = track(&mut live_requests, &required("req-finished", 0, 100));
    let live = observe(
        &mut live_requests,
        &observation("req-finished", RequestObservationState::UpstreamConnecting),
    );
    request.finish(&mut live_requests);
    assert_eq!(live_requests.tracked_request_count(), 0);

    let mut terminal_observation = observation("req-finished", RequestObservationState::Failed);
    terminal_observation.model_id = "model-b".to_string();
    let terminal = observe(&mut live_requests, &terminal_observation);

    assert_eq!(format!("{:?}", terminal.prior), format!("{:?}", live.current));
    assert!(terminal.prior.is_some());
    assert!(terminal.current.is_none());
    assert_eq!(
        terminal.changed_generations,
        [ModelGeneration::new("model-a", 0), ModelGeneration::new("model-b", 0)]
    );
    assert_eq!(live_requests.tracked_request_count(), 0);
}

#[test]
fn delayed_earlier_observation_does_not_requeue_output_generation() {
    let mut live_requests = LiveRequestState::new();
    let mut request = track(&mut live_requests, &required("req-output", 0, 100));
    request.observe_output(&mut live_requests);

    observe(&mut live_requests, &observation("req-output", RequestObservationState::UpstreamConnecting));

    let queued = snapshot(&live_requests, "model-a");
    assert_eq!(queued.queue_size, 0);
    assert_eq!(queued.output_generation_queries, 1);
}

#[test]
fn queue_model_state_keeps_guard_phase_updates_monotonic() {
    let mut live_requests = LiveRequestState::new();
    let mut request = track(&mut live_requests, &required("req-output", 0, 100));
    request.observe_output(&mut live_requests);
    request.on_upstream_send(&mut live_requests);

    let queued = snapshot(&live_requests, "model-a");
    assert_eq!(queued.queue_size, 0);
    assert_eq!(queued.input_processing_queries, 0);
    assert_eq!(queued.output_generation_queries, 1);
}

#[test]
fn queue_model_state_saturates_unrepresentable_valid_throughput_estimates() {
    let mut live_requests = LiveRequestState::new();
    live_requests.update_generation_throughput(&generation("model-a"), rate(f64::MIN_POSITIVE));
    let _queued = track(&mut live_requests, &required("req-huge", 0, u64::MAX));

    assert_eq!(estimates(&live_requests), Some(vec![(0, u64::MAX)]));
    assert_eq!(
        evaluate(
            &live_requests,
            &PylonQueueMismatchRetryConfig::default(),
            &required("req-new", 0, 1),
            &headers_with_expected("0"),
        ),
        rejected(u64::MAX)
    );
}

#[test]
fn queue_model_state_excludes_current_request_after_public_totals_saturate() {
    let mut live_requests = LiveRequestState::new();
    live_requests.update_generation_throughput(&generation("model-a"), rate(1.0));
    let current = required("req-current-huge", 0, u64::MAX);
    let _current = track(&mut live_requests, &current);
    let _other = track(&mut live_requests, &required("req-other", 0, 1));

    let queued = snapshot(&live_requests, "model-a");
    assert_eq!(queued.queued_input_size, u64::MAX);
    assert_eq!(
        evaluate(
            &live_requests,
            &PylonQueueMismatchRetryConfig::default(),
            &current,
            &headers_with_expected("0"),
        ),
        rejected(1000)
    );
}

#[test]
fn upstream_response_headers_do_not_apply_retired_progress_contract() {
    let mut live_requests = LiveRequestState::new();
    let mut request = track(&mut live_requests, &required("req-progress", 0, 100));

    request.on_upstream_send(&mut live_requests);

    let queued = snapshot(&live_requests, "model-a");
    assert_eq!(queued.queued_input_size, 100);
    assert_eq!(queued.input_processing_queries, 1);
}

#[test]
fn admission_transitions_from_unknown_to_rejected_after_throughput_update() {
    let mut live_requests = LiveRequestState::new();
    let config = PylonQueueMismatchRetryConfig::default();
    let request = required("req-inflight", 0, 100);
    let _guard = track(&mut live_requests, &request);
    let incoming = required("req-new", 0, 1);
    let headers = headers_with_expected("0");

    assert_eq!(
        live_requests.evaluate_generation(&config, &incoming, None, &headers, &queue_time_delta_ms, &scale_ms),
        QueueAdmissionDecision::UnknownLocalEstimate { expected_ms: 0 }
    );
    assert_eq!(
        evaluate(&live_requests, &config, &incoming, &headers),
        QueueAdmissionDecision::UnknownLocalEstimate { expected_ms: 0 }
    );

    live_requests.update_generation_throughput(&generation("model-a"), rate(100.0));
    assert_eq!(evaluate(&live_requests, &config, &incoming, &headers), rejected(1000));
}

#[test]
fn admission_excludes_current_request_even_when_observed_before_evaluation() {
    let mut live_requests = LiveRequestState::new();
    let config = PylonQueueMismatchRetryConfig::default();
    let current = required("req-current", 0, 10);
    let _guard = track(&mut live_requests, &current);
    live_requests.update_generation_throughput(&generation("model-a"), rate(100.0));

    assert_eq!(
        evaluate(&live_requests, &config, &current, &headers_with_expected("0")),
        QueueAdmissionDecision::Accepted { expected_ms: 0, actual_ms: 0, threshold_ms: 25 }
    );
}

#[test]
fn disabled_admission_accepts_with_distinct_metric_label() {
    let mut live_requests = LiveRequestState::new();
    live_requests.update_generation_throughput(&generation("model-a"), rate(100.0));
    let inflight = required("req-inflight", 0, 100);
    let _guard = track(&mut live_requests, &inflight);
    let config = PylonQueueMismatchRetryConfig { enabled: false, ..PylonQueueMismatchRetryConfig::default() };

    let decision = evaluate(&live_requests, &config, &required("req-new", 0, 1), &headers_with_expected("0"));
    assert_eq!(decision, QueueAdmissionDecision::Disabled);
    assert_eq!(decision.result_label(), "disabled");
}

#[test]
fn admission_accepts_missing_or_invalid_expected_queue_header() {
    let live_requests = LiveRequestState::new();
    let config = PylonQueueMismatchRetryConfig::default();
    let incoming = required("req-new", 0, 1);
    for headers in [HeaderMap::new(), headers_with_expected("nope")] {
        assert_eq!(
            evaluate(&live_requests, &config, &incoming, &headers),
            QueueAdmissionDecision::MissingEstimate
        );
    }
}

#[test]
fn decisions_tell_what_they_compared() {
    assert_eq!(expected_queue_ms(&headers_with_expected("42")), Some(42));
    assert_eq!(expected_queue_ms(&headers_with_expected("-1")), None);
    assert_eq!(rejected(30).expected_ms(), Some(0));
    assert_eq!(rejected(30).actual_ms(), Some(30));
    assert_eq!(rejected(30).threshold_ms(), Some(25));
    assert_eq!(QueueAdmissionDecision::MissingEstimate.actual_ms(), None);
    let labels = [
        rejected(30).result_label(),
        QueueAdmissionDecision::MissingEstimate.result_label(),
        QueueAdmissionDecision::UnknownLocalEstimate { expected_ms: 1 }.result_label(),
        QueueAdmissionDecision::Accepted { expected_ms: 0, actual_ms: 0, threshold_ms: 25 }.result_label(),
    ];
    assert_eq!(labels, ["rejected", "missing_estimate", "unknown_local_estimate", "accepted"]);
}

#[test]
fn finishing_undoes_tracking() {
    let mut live_requests = LiveRequestState::new();
    let _other = track(&mut live_requests, &required("req-other", 1, 7));
    let before = written(&snapshot(&live_requests, "model-a"));
    let mut request = track(&mut live_requests, &required("req-new", 3, 100));
    assert_ne!(written(&snapshot(&live_requests, "model-a")), before);
    request.finish(&mut live_requests);
    assert_eq!(written(&snapshot(&live_requests, "model-a")), before);
    request.finish(&mut live_requests);
    assert_eq!(live_requests.tracked_request_count(), 1);
}

#[test]
fn a_retired_generation_leaves_nothing_and_its_successor_untouched() {
    let mut live_requests = LiveRequestState::new();
    let first = ModelGeneration::new("model-a", 1);
    let second = ModelGeneration::new("model-a", 2);
    live_requests.update_generation_throughput(&first, rate(100.0));
    let _a = live_requests.track_generation_request(&required("req-a", 0, 10), first.clone());
    let _b = live_requests.track_generation_request(&required("req-b", 0, 20), second.clone());
    live_requests.transition_observation(
        &observation("req-c", RequestObservationState::InputProcessing),
        Some(&first),
    );
    live_requests.retire_generation(&first);

    assert_eq!(
        written(&live_requests.snapshot_generation(&first, &queue_time_delta_ms)),
        written(&QueueModelSnapshot::default())
    );
    assert_eq!(live_requests.request_generation(&"req-a".to_string()), None);
    assert_eq!(live_requests.request_generation(&"req-c".to_string()), None);
    assert_eq!(live_requests.request_generation(&"req-b".to_string()), Some(second.clone()));
    assert_eq!(live_requests.snapshot_generation(&second, &queue_time_delta_ms).queued_input_size, 20);
    assert_eq!(live_requests.observed_input_tokens(&first, RequestObservationState::InputProcessing), 0);
}

#[test]
fn less_urgent_requests_wait_for_more_work() {
    let mut live_requests = LiveRequestState::new();
    let model = generation("model-a");
    live_requests.update_generation_throughput(&model, rate(1_000.0));
    let _urgent = track(&mut live_requests, &required("req-1", 1, 10));
    let _late = track(&mut live_requests, &required("req-5", 5, 20));
    let nobody = "nobody".to_string();
    let own = "req-5".to_string();
    assert_eq!(live_requests.queue_estimate_ms(&model, &nobody, 0, &queue_time_delta_ms), Some(0));
    assert_eq!(live_requests.queue_estimate_ms(&model, &nobody, 1, &queue_time_delta_ms), Some(10));
    assert_eq!(live_requests.queue_estimate_ms(&model, &nobody, 5, &queue_time_delta_ms), Some(30));
    assert_eq!(live_requests.queue_estimate_ms(&model, &own, 5, &queue_time_delta_ms), Some(10));
}

#[test]
fn work_is_that_of_prompts_not_yet_read() {
    assert_eq!(TrackedPromptPhase::Pending.prompt_work(4, 10), Some((4, 10)));
    assert_eq!(TrackedPromptPhase::InputProcessing.prompt_work(4, 10), Some((0, 10)));
    assert_eq!(TrackedPromptPhase::OutputGeneration.prompt_work(4, 10), None);
    assert_eq!(TrackedPromptPhase::Pending.prompt_work(4, 0), None);
    assert_eq!(
        TrackedPromptPhase::Pending.later(TrackedPromptPhase::InputProcessing),
        TrackedPromptPhase::InputProcessing
    );
    assert_eq!(saturated_queue_time_ms(u128::MAX, rate(1.0), &queue_time_delta_ms), u64::MAX);
    assert_eq!(saturated_queue_time_ms(5, rate(2.0), &queue_time_delta_ms), 2_500);
}

#[test]
fn the_figures_of_a_snapshot_fit_each_other() {
    let mut live_requests = LiveRequestState::new();
    let untimed = snapshot(&live_requests, "model-a");
    assert!(untimed.queue_time_estimate_ms_by_priority.is_none());
    live_requests.update_generation_throughput(&generation("model-a"), rate(100.0));
    assert_eq!(estimates(&live_requests), Some(vec![]));
    let _waiting = track(&mut live_requests, &required("req-waiting", 7, 20));
    let mut processed = track(&mut live_requests, &required("req-processed", 4, 30));
    let mut generating = track(&mut live_requests, &required("req-generating", 1, 40));
    processed.on_upstream_send(&mut live_requests);
    generating.observe_output(&mut live_requests);
    let figures = snapshot(&live_requests, "model-a");
    assert_eq!(figures.num_running_queries, figures.queue_size + figures.output_generation_queries);
    assert_eq!((figures.queue_size, figures.input_processing_queries), (2, 1));
    assert_eq!((figures.queued_input_size, figures.total_query_input_size), (50, 90));
    assert_eq!(listed(figures.queue_time_estimate_ms_by_priority), Some(vec![(0, 300), (7, 500)]));
}

#[test]
fn an_observation_outlives_the_generation_it_was_made_under() {
    for input_tokens in [0, 100] {
        let mut live_requests = LiveRequestState::new();
        let first = ModelGeneration::new("model-a", 1);
        let second = ModelGeneration::new("model-b", 2);
        let mut seen = observation("req-1", RequestObservationState::InputProcessing);
        seen.input_tokens = input_tokens;
        live_requests.transition_observation(&seen, Some(&first));
        let mut guard = live_requests
            .track_generation_request(&required_for_model("req-1", "model-b", 0, 50), second.clone());
        live_requests.retire_generation(&first);

        let state = RequestObservationState::InputProcessing;
        assert_eq!(live_requests.observed_input_tokens(&first, state), 0);
        assert_eq!(live_requests.request_generation(&"req-1".to_string()), Some(second.clone()));
        guard.finish(&mut live_requests);
        assert_eq!(live_requests.request_generation(&"req-1".to_string()), Some(first.clone()));

        let mut next = observation("req-1", RequestObservationState::OutputGeneration);
        next.input_tokens = 50;
        let transition = live_requests.transition_observation(&next, Some(&second));
        let prior = transition.prior.unwrap();
        assert_eq!((prior.generation, prior.state, prior.input_tokens), (first.clone(), state, input_tokens));
        assert_eq!(transition.changed_generations, [first.clone(), second.clone()]);
        assert_eq!(transition.input_token_totals.len(), 2);
        assert_eq!(transition.input_token_totals[0].input_tokens, 0);
        assert_eq!(transition.input_token_totals[1].input_tokens, 50);
    }
}
