//! The state that a pylon shares between its tunnels, its models and its
//! statistics.

use pylon::binary64::Binary64;
use pylon::generated_request_id::{request_parts, GeneratedRequestIds, GeneratedRequestKind};
use pylon::generation::ModelGeneration;
use pylon::model_stats::{CurrentModelStats, InferenceServerStatus};
use pylon::queue_model::QueueModelSnapshot;
use pylon::request_observation::{RequestObservation, RequestObservationEndpoint, RequestObservationState};
use pylon::runtime_state::{PylonRuntimeState, RequestGenerationAdmission};

fn queue_time_delta_ms(input_tokens: u64, rate: Binary64) -> Option<u64> {
    Some((input_tokens as f64 * 1_000.0 / f64::from_bits(rate.bits)).ceil() as u64)
}

fn snapshot(runtime_state: &PylonRuntimeState, model_id: &str) -> QueueModelSnapshot {
    runtime_state.snapshot_live_model(model_id, &queue_time_delta_ms)
}

fn observation(request_id: &str, model_id: &str, routing_key: Option<&str>) -> RequestObservation {
    RequestObservation {
        endpoint: RequestObservationEndpoint::ChatCompletions,
        request_id: request_id.into(),
        routing_key: routing_key.map(Into::into),
        model_id: model_id.into(),
        priority: 0,
        input_tokens: 42,
        embedding_items: 0,
        embedding_items_observed: false,
        upstream_status: None,
        output_messages: 0,
        output_tokens: 0,
        output_tokens_explicit: false,
        output_tokens_from_chunk_usage: false,
        state: RequestObservationState::UpstreamConnecting,
        time_to_response_headers: None,
        time_to_first_output: None,
        time_to_first_token: None,
        total_duration: 0,
    }
}

#[test]
fn publishing_observation_updates_live_state_and_emits_one_event() {
    let mut runtime_state =
        PylonRuntimeState::new(InferenceServerStatus::Active, &["model-runtime-owner".to_string()]);
    let mut observation = observation("req-runtime-owner", "model-runtime-owner", None);

    let (emitted, _) = runtime_state.observe_request(observation.clone());

    assert_eq!(emitted.observation().request_id, observation.request_id);
    assert_eq!(emitted.observation().model_id, observation.model_id);
    assert_eq!(emitted.observation().state, observation.state);
    let live = snapshot(&runtime_state, "model-runtime-owner");
    assert_eq!(live.queue_size, 1);
    assert_eq!(live.queued_input_size, 42);
    assert_eq!(emitted.into_observation().request_id, "req-runtime-owner");

    observation.state = RequestObservationState::Complete;
    runtime_state.observe_request(observation);
    assert_eq!(snapshot(&runtime_state, "model-runtime-owner").queue_size, 0);
}

#[test]
fn pending_generation_is_omitted_until_exact_publication() {
    let mut runtime_state = PylonRuntimeState::new(InferenceServerStatus::Active, &[]);
    let generation = ModelGeneration::new("model-a", 1);

    assert!(runtime_state.begin_generation(generation.clone()));
    assert_eq!(runtime_state.current_generation("model-a"), Some(generation.clone()));
    assert!(matches!(
        runtime_state.request_generation_admission("model-a"),
        RequestGenerationAdmission::Unavailable
    ));
    assert_eq!(runtime_state.advertised_models().len(), 0);

    assert!(runtime_state.publish_generation(&generation));
    assert!(matches!(
        runtime_state.request_generation_admission("model-a"),
        RequestGenerationAdmission::Admitted(admitted) if admitted == generation
    ));
    assert_eq!(runtime_state.advertised_models().keys(), ["model-a"]);
}

#[test]
fn retired_generation_cannot_publish_or_mutate_replacement() {
    let mut runtime_state = PylonRuntimeState::new(InferenceServerStatus::Active, &[]);
    let first = ModelGeneration::new("model-a", 1);
    let replacement = ModelGeneration::new("model-a", 2);

    assert!(runtime_state.begin_generation(first.clone()));
    assert!(runtime_state.retire_generation(&first).is_some());
    assert!(runtime_state.begin_generation(replacement.clone()));
    assert!(!runtime_state.publish_generation(&first));
    assert!(!runtime_state.set_generation_stats(
        &first,
        CurrentModelStats {
            last_mean_input_tps: Binary64 { bits: 999.0_f64.to_bits() },
            ..CurrentModelStats::default()
        }
    ));
    assert_eq!(
        format!("{:?}", runtime_state.model_stats("model-a")),
        format!("{:?}", Some(CurrentModelStats::default()))
    );
    assert_eq!(runtime_state.advertised_models().len(), 0);
}

#[test]
fn retired_request_observations_cannot_mutate_replacement_queue_state() {
    let mut runtime_state = PylonRuntimeState::new(InferenceServerStatus::Active, &[]);
    let first = ModelGeneration::new("model-a", 1);
    let replacement = ModelGeneration::new("model-a", 2);
    assert!(runtime_state.begin_generation(first.clone()));
    assert!(runtime_state.publish_generation(&first));

    let mut first_observation = observation("req-first", "model-a", None);
    runtime_state.transition_request_observation_for_generation(first_observation.clone(), Some(first.clone()));
    assert_eq!(snapshot(&runtime_state, "model-a").queue_size, 1);

    assert!(runtime_state.retire_generation(&first).is_some());
    assert!(runtime_state.begin_generation(replacement.clone()));
    assert!(runtime_state.publish_generation(&replacement));
    first_observation.state = RequestObservationState::Complete;
    runtime_state.transition_request_observation_for_generation(first_observation, Some(first));

    assert_eq!(
        format!("{:?}", snapshot(&runtime_state, "model-a")),
        format!("{:?}", QueueModelSnapshot::default())
    );
}

#[test]
fn retired_request_observations_tell_of_no_transition() {
    let mut runtime_state = PylonRuntimeState::new(InferenceServerStatus::Active, &[]);
    let first = ModelGeneration::new("model-a", 1);
    assert!(runtime_state.begin_generation(first.clone()));
    assert!(runtime_state.retire_generation(&first).is_some());
    assert!(runtime_state.begin_generation(ModelGeneration::new("model-a", 2)));

    let mut stale = observation("req-first", "model-a", Some("rk-a"));
    stale.state = RequestObservationState::Failed;
    let (event, transition) = runtime_state.transition_request_observation_for_generation(stale, Some(first));
    assert!(transition.is_none());
    assert!(event.changed_generations.is_empty());
}

#[test]
fn observing_an_unknown_model_never_creates_a_generation() {
    let mut runtime_state = PylonRuntimeState::new(InferenceServerStatus::Active, &[]);

    runtime_state.observe_request(observation("req-unknown", "model-a", None));

    assert_eq!(runtime_state.current_generation("model-a"), None);
    assert_eq!(runtime_state.advertised_models().len(), 0);
    assert_eq!(
        format!("{:?}", snapshot(&runtime_state, "model-a")),
        format!("{:?}", QueueModelSnapshot::default())
    );
}

#[test]
fn a_finished_queue_keeps_the_observed_identity() {
    let mut runtime_state = PylonRuntimeState::new(InferenceServerStatus::Active, &["model-a".to_string()]);
    let mut observation = observation("req-local-rejection", "model-a", Some("rk-a"));
    runtime_state.observe_request(observation.clone());
    runtime_state.finish_queue_request(&observation.request_id);
    assert_eq!(runtime_state.tracked_request_count(), 0);
    observation.state = RequestObservationState::Failed;
    let (_, transition) = runtime_state.observe_request(observation);
    let transition = transition.unwrap();
    assert_eq!(transition.prior.unwrap().state, RequestObservationState::UpstreamConnecting);
    assert!(transition.current.is_none());
    assert_eq!(transition.input_token_totals[0].input_tokens, 0);
}

#[test]
fn an_output_rate_counts_while_output_is_generated() {
    let mut runtime_state = PylonRuntimeState::new(InferenceServerStatus::Active, &["model-a".to_string()]);
    let rate = Binary64 { bits: 12.5_f64.to_bits() };
    let id = "req-a".to_string();
    assert_eq!(runtime_state.update_request_active_output_tps(&id, Some(rate)), None);
    let mut observation = observation("req-a", "model-a", None);
    observation.state = RequestObservationState::OutputGeneration;
    runtime_state.observe_request(observation.clone());
    assert_eq!(runtime_state.update_request_active_output_tps(&id, Some(rate)), Some("model-a".to_string()));
    assert_eq!(snapshot(&runtime_state, "model-a").active_chat_output_tps, [rate]);
    observation.state = RequestObservationState::Complete;
    runtime_state.observe_request(observation);
    assert!(snapshot(&runtime_state, "model-a").active_chat_output_tps.is_empty());
}

#[test]
fn the_status_of_a_server_is_gated_by_bringup() {
    let mut runtime_state = PylonRuntimeState::new(InferenceServerStatus::Active, &["model-a".to_string()]);
    let generation = runtime_state.current_generation("model-a").unwrap();
    let key = "model-a".to_string();
    runtime_state.set_generation_bringup_ready(&generation, false);
    assert_eq!(
        runtime_state.advertised_models().get(&key).unwrap().status,
        InferenceServerStatus::Inactive
    );
    assert!(runtime_state.set_generation_bringup_ready(&generation, true));
    assert_eq!(runtime_state.advertised_models().get(&key).unwrap().status, InferenceServerStatus::Active);
    runtime_state.set_status(InferenceServerStatus::Inactive);
    assert_eq!(
        runtime_state.advertised_models().get(&key).unwrap().status,
        InferenceServerStatus::Inactive
    );
    assert_eq!(runtime_state.model_ids(), ["model-a"]);
    assert_eq!(runtime_state.advertised_model_ids(), ["model-a"]);
    assert!(matches!(
        PylonRuntimeState::default().request_generation_admission("model-a"),
        RequestGenerationAdmission::Ungated
    ));
}

#[test]
fn generated_request_id_round_trips_exact_generation_without_registry() {
    let mut ids = GeneratedRequestIds::new();
    let generation = ModelGeneration::new("model-a", 42);
    let first = ids.next_generated_request_id(GeneratedRequestKind::Calibration, &generation);
    let second = ids.next_generated_request_id(GeneratedRequestKind::Calibration, &generation);

    assert_ne!(first, second);
    assert_eq!(ids.generated_request_generation(&first, "model-a"), Some(generation));
    assert_eq!(ids.generated_request_kind(&first), Some(GeneratedRequestKind::Calibration));
    assert_eq!(ids.generated_request_generation("user-request", "model-a"), None);
    let foreign_scope = format!(
        "calibration-{}-g42-1",
        uuid::Uuid::from_u128(0x12345678123456781234567812345678)
    );
    assert_eq!(
        ids.generated_request_generation(&foreign_scope, "model-a"),
        None,
        "a format-compatible user request must not claim this process's generation"
    );
}

#[test]
fn generated_ids_name_their_scope_their_generation_and_their_number() {
    let scope = "12345678-1234-5678-1234-567812345678";
    let mut ids = GeneratedRequestIds::with_scope(scope).unwrap();
    assert!(!ids.is_exhausted());
    let id = ids.next_generated_request_id(GeneratedRequestKind::Canary, &ModelGeneration::new("model-a", 7));
    assert!(id.starts_with("canary-12345678-1234-5678-1234-567812345678-g7-"));
    assert_eq!(ids.generated_request_kind(&id), Some(GeneratedRequestKind::Canary));
    assert_eq!(ids.generated_request_generation(&id, "model-b"), Some(ModelGeneration::new("model-b", 7)));
    assert_eq!(GeneratedRequestKind::Calibration.prefix(), "calibration");
    assert!(GeneratedRequestIds::with_scope("not a uuid").is_none());
    assert_eq!(request_parts(GeneratedRequestKind::Canary, 7, Some(5), 5), Some((GeneratedRequestKind::Canary, 7)));
    assert_eq!(request_parts(GeneratedRequestKind::Canary, 7, Some(5), 6), None);
    assert_eq!(request_parts(GeneratedRequestKind::Canary, 7, None, 5), None);
}
