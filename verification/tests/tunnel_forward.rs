//! One request's way through the tunnel, and what is left of it.

use http::{HeaderMap, HeaderValue};
use pylon::binary64::Binary64;
use pylon::completion_request::CompletionAttempt;
use pylon::generated_request_id::{GeneratedRequestIds, GeneratedRequestKind};
use pylon::generation::ModelGeneration;
use pylon::model_stats::{CurrentModelStats, InferenceServerStatus};
use pylon::queue_admission::QueueAdmissionDecision;
use pylon::request_observation::RequestObservationState;
use pylon::request_observer::PublishedObservation;
use pylon::runtime_state::PylonRuntimeState;
use pylon::tunnel_backend::UpstreamBackend;
use pylon::tunnel_forward::{
    LocalBody, LocalResponse, OutputTokenProgress, RelayMode, RelayStep, StreamFault, StreamMessage, TunnelForward,
    TunnelForwardingConfig, TunnelServerApp, TunnelStart, UpstreamBuildError,
};
use pylon::tunnel_request::JoinBasePathError;
use serde_json::Value;

fn queue_time_delta_ms(input_tokens: u64, rate: Binary64) -> Option<u64> {
    Some((input_tokens as f64 * 1_000.0 / f64::from_bits(rate.bits)).ceil() as u64)
}

fn scale_ms(ms: u64, factor: Binary64) -> u64 {
    (ms as f64 * f64::from_bits(factor.bits)).ceil() as u64
}

fn headers(pairs: &[(&'static str, &'static str)]) -> HeaderMap<HeaderValue> {
    let mut headers = HeaderMap::new();
    for (name, value) in pairs {
        headers.append(*name, HeaderValue::from_static(value));
    }
    headers
}

fn request_headers() -> HeaderMap<HeaderValue> {
    headers(&[("x-request-id", "req-1"), ("x-model", "model-a"), ("x-input-tokens", "100"), ("x-priority", "5")])
}

fn app_with(change: impl FnOnce(&mut TunnelForwardingConfig)) -> TunnelServerApp {
    let mut forwarding = TunnelForwardingConfig::default();
    change(&mut forwarding);
    TunnelServerApp::new("backend-1".to_string(), "http://upstream.local:8000".to_string(), forwarding)
}

fn serving_state() -> PylonRuntimeState {
    PylonRuntimeState::new(InferenceServerStatus::Active, &["model-a".to_string()])
}

fn begin(app: &TunnelServerApp, path: &str, headers: &HeaderMap<HeaderValue>, state: &mut PylonRuntimeState) -> TunnelStart {
    TunnelForward::begin(app, "POST".to_string(), path.to_string(), headers, state, 1_000)
}

fn begun(app: &TunnelServerApp, path: &str, headers: &HeaderMap<HeaderValue>, state: &mut PylonRuntimeState) -> TunnelForward {
    match begin(app, path, headers, state) {
        TunnelStart::ReadBody(forward, _) => forward,
        TunnelStart::Respond(response) => panic!("unexpected response {response:?}"),
    }
}

fn refused(start: TunnelStart) -> LocalResponse {
    match start {
        TunnelStart::Respond(response) => response,
        TunnelStart::ReadBody(..) => panic!("the request should be refused"),
    }
}

fn assert_problem_response(response: &LocalResponse, status: u16, title: &str, detail: &str) {
    assert_eq!(response.headers["content-type"], "application/problem+json");
    assert_eq!(response.status, status);
    let problem: Value = serde_json::from_str(&response.body.json()).unwrap();
    assert_eq!(problem["type"], "about:blank");
    assert_eq!(problem["title"], title);
    assert_eq!(problem["status"], status);
    assert_eq!(problem["detail"], detail);
}

fn state_of(published: &Option<PublishedObservation>) -> RequestObservationState {
    published.as_ref().expect("a transition should be published").event.observation().state
}

const CHAT: &str = "/v1/chat/completions";
const STREAMING_BODY: &[u8] = br#"{"stream":true}"#;

#[test]
fn a_streamed_request_goes_through_and_leaves_nothing() {
    let app = app_with(|_| {});
    let mut state = serving_state();
    let given = request_headers();
    let mut forward = begun(&app, CHAT, &given, &mut state);
    assert_eq!(state.tracked_request_count(), 1);

    let admission =
        forward.admit_body(&app, &given, STREAMING_BODY, &mut state, &queue_time_delta_ms, &scale_ms, 2_000);
    assert!(admission.response.is_none());
    assert_eq!(admission.decision, Some(QueueAdmissionDecision::MissingEstimate));
    assert_eq!(state.tracked_request_count(), 1);

    let sent = forward.send_upstream_request(&app, &given, &mut state, 3_000).unwrap();
    assert_eq!(sent.url, "http://upstream.local:8000/v1/chat/completions");
    assert_eq!(sent.headers["x-request-id"], "req-1");
    assert_eq!(sent.headers["x-dynamo-request-priority"], "3595");
    assert_eq!(sent.engine_priority, Some(3595));
    assert_eq!(state_of(&sent.published), RequestObservationState::UpstreamConnecting);

    let answered = headers(&[("content-type", "text/event-stream")]);
    let (head, class) = TunnelForward::response_head(&app, 200, &answered, 0).unwrap();
    assert_eq!(head["content-type"], "text/event-stream");
    assert!(!class.retryable);
    let start = forward.relay_upstream_response(200, &answered, &mut state, 4_000);
    assert_eq!(start.mode, RelayMode::Events);
    assert_eq!(state_of(&start.answered), RequestObservationState::InputProcessing);

    let mut saw_output = false;
    let lifecycle = forward.lifecycle.as_mut().unwrap();
    let message = StreamMessage::Output {
        progress: Some(OutputTokenProgress::ExplicitCumulative { tokens: 3, delta: 3 }),
    };
    let outcome = lifecycle.observe_sse_message(Some(message), &mut saw_output, &mut state, 5_000);
    assert_eq!(outcome.step, Ok(RelayStep::Forward));
    assert!(saw_output);
    assert_eq!(state_of(&outcome.output), RequestObservationState::OutputGeneration);
    let counted = outcome.tokens.unwrap();
    assert_eq!(counted.event.observation().output_tokens, 3);
    assert_eq!(counted.event.observation().time_to_first_output, Some(4_000));
    let snapshot = state.snapshot_live_model("model-a", &queue_time_delta_ms);
    assert_eq!(snapshot.output_generation_queries, 1);

    let ended = lifecycle.observe_sse_message(None, &mut saw_output, &mut state, 6_000);
    assert_eq!(ended.step, Ok(RelayStep::Done));
    let finished = forward.finish(&mut state, 7_000);
    assert_eq!(state_of(&finished), RequestObservationState::Complete);
    assert_eq!(finished.unwrap().event.observation().total_duration, 6_000);
    assert_eq!(state.tracked_request_count(), 0);
    assert_eq!(state.request_generation(&"req-1".to_string()), None);
}

#[test]
fn an_unobserved_request_is_tracked_and_let_go() {
    let app = app_with(|_| {});
    let mut state = serving_state();
    let given = request_headers();
    let mut forward = begun(&app, "/v1/models", &given, &mut state);
    let admission = forward.admit_body(&app, &given, b"{}", &mut state, &queue_time_delta_ms, &scale_ms, 2_000);
    assert!(admission.response.is_none());
    assert!(admission.published.is_none());
    assert_eq!(state.tracked_request_count(), 1);
    assert!(forward.abandon(&mut state, 3_000).is_none());
    assert_eq!(state.tracked_request_count(), 0);
    assert_eq!(state.request_generation(&"req-1".to_string()), None);
}

#[test]
fn a_request_without_its_headers_is_refused_and_leaves_no_trace() {
    let app = app_with(|_| {});
    let mut state = serving_state();
    let before = format!("{state:?}");
    for absent in ["x-request-id", "x-model", "x-input-tokens"] {
        let mut given = request_headers();
        given.remove(absent);
        let response = refused(begin(&app, CHAT, &given, &mut state));
        assert_problem_response(
            &response,
            400,
            "Bad Request",
            &format!("missing required {absent} header"),
        );
    }
    assert_eq!(format!("{state:?}"), before);
}

#[test]
fn a_pending_generation_is_refused_before_the_upstream() {
    let app = app_with(|_| {});
    let mut state = PylonRuntimeState::new(InferenceServerStatus::Active, &[]);
    assert!(state.begin_generation(ModelGeneration::new("model-a", 1)));
    let response = refused(begin(&app, CHAT, &request_headers(), &mut state));
    assert_problem_response(
        &response,
        503,
        "Service Unavailable",
        "model generation is not admitted for request routing",
    );
    assert_eq!(response.headers["x-stargate-retryable"], "true");
    assert_eq!(response.headers["x-stargate-retry-reason"], "model_generation_unavailable");
    assert_eq!(state.tracked_request_count(), 0);
}

#[test]
fn a_body_that_does_not_stream_is_refused() {
    let app = app_with(|_| {});
    let mut state = serving_state();
    let given = request_headers();
    let mut forward = begun(&app, CHAT, &given, &mut state);
    let admission = forward.admit_body(
        &app,
        &given,
        br#"{"stream":false}"#,
        &mut state,
        &queue_time_delta_ms,
        &scale_ms,
        2_000,
    );
    let response = admission.response.unwrap();
    assert_problem_response(
        &response,
        400,
        "Bad Request",
        "/v1/chat/completions requests must set stream=true",
    );
    assert_eq!(state_of(&admission.published), RequestObservationState::Failed);
    forward.abandon(&mut state, 3_000);
    assert_eq!(state.tracked_request_count(), 0);
}

#[test]
fn a_queue_that_is_longer_than_promised_turns_the_request_away() {
    let app = app_with(|_| {});
    let mut state = serving_state();
    state.set_model_stats(
        "model-a",
        CurrentModelStats {
            last_mean_input_tps: Binary64 { bits: 100.0_f64.to_bits() },
            ..CurrentModelStats::default()
        },
    );
    let mut waiting = request_headers();
    waiting.insert("x-request-id", HeaderValue::from_static("req-before"));
    let mut before = begun(&app, CHAT, &waiting, &mut state);
    before.admit_body(&app, &waiting, STREAMING_BODY, &mut state, &queue_time_delta_ms, &scale_ms, 1_500);

    let mut given = request_headers();
    given.insert("x-stargate-expected-queue-ms", HeaderValue::from_static("0"));
    let mut forward = begun(&app, CHAT, &given, &mut state);
    let admission =
        forward.admit_body(&app, &given, STREAMING_BODY, &mut state, &queue_time_delta_ms, &scale_ms, 2_000);
    let response = admission.response.unwrap();
    assert_eq!(response.headers["x-stargate-retry-reason"], "queue_estimate_mismatch");
    assert_problem_response(
        &response,
        429,
        "Too Many Requests",
        "local queue estimate exceeded Stargate routing estimate",
    );
    assert_eq!(
        response.body.json(),
        r#"{"actual_queue_ms":1000,"detail":"local queue estimate exceeded Stargate routing estimate","expected_queue_ms":0,"reason":"queue_estimate_mismatch","status":429,"threshold_ms":25,"title":"Too Many Requests","type":"about:blank"}"#
    );
    assert!(matches!(
        response.body,
        LocalBody::QueueMismatch {
            reason: "queue_estimate_mismatch",
            expected_queue_ms: 0,
            actual_queue_ms: 1_000,
            threshold_ms: 25,
            ..
        }
    ));
    assert_eq!(state_of(&admission.published), RequestObservationState::Failed);
    assert_eq!(state.tracked_request_count(), 1);
    assert_eq!(state.request_generation(&"req-1".to_string()), None);

    let open = app_with(|forwarding| forwarding.queue_mismatch_retry.enabled = false);
    let mut forward = begun(&open, CHAT, &given, &mut state);
    let admission =
        forward.admit_body(&open, &given, STREAMING_BODY, &mut state, &queue_time_delta_ms, &scale_ms, 2_000);
    assert_eq!(admission.decision, Some(QueueAdmissionDecision::Disabled));
    assert!(admission.response.is_none());
}

#[test]
fn a_probe_goes_to_the_path_that_answers_and_is_not_followed() {
    let mut app = app_with(|_| {});
    app.upstream_health_paths.mark_resolved(1);
    let mut state = serving_state();
    let start = TunnelForward::begin(
        &app,
        "GET".to_string(),
        "/health?probe=1".to_string(),
        &HeaderMap::new(),
        &mut state,
        1_000,
    );
    let TunnelStart::ReadBody(mut forward, None) = start else {
        panic!("a probe should be forwarded unobserved");
    };
    let admission =
        forward.admit_body(&app, &HeaderMap::new(), b"", &mut state, &queue_time_delta_ms, &scale_ms, 2_000);
    assert!(admission.response.is_none() && admission.decision.is_none());
    let sent = forward.send_upstream_request(&app, &HeaderMap::new(), &mut state, 3_000).unwrap();
    assert_eq!(sent.url, "http://upstream.local:8000/v1/health/ready?probe=1");
    assert!(sent.headers.is_empty());
    assert_eq!(sent.engine_priority, None);
}

#[test]
fn an_upstream_that_cannot_be_reached_is_told_of() {
    let mut state = serving_state();
    let given = request_headers();
    for retryable in [false, true] {
        let app = app_with(|forwarding| forwarding.retry.local_connect_failures_retryable = retryable);
        let mut forward = begun(&app, CHAT, &given, &mut state);
        forward.admit_body(&app, &given, STREAMING_BODY, &mut state, &queue_time_delta_ms, &scale_ms, 2_000);
        forward.send_upstream_request(&app, &given, &mut state, 3_000).unwrap();
        let (response, published) = forward.upstream_unreachable(&app, &mut state, 4_000);
        assert_problem_response(&response, 503, "Service Unavailable", "local upstream connection failed");
        assert_eq!(response.headers["x-stargate-retryable"], retryable.to_string().as_str());
        assert_eq!(response.headers["x-stargate-retry-reason"], "local_connect_failure");
        assert_eq!(response.failure.unwrap().count.retryable, retryable);
        assert_eq!(state_of(&published), RequestObservationState::Failed);
        forward.abandon(&mut state, 5_000);
        assert_eq!(state.tracked_request_count(), 0);
    }
}

#[test]
fn a_base_address_that_is_none_sends_nothing() {
    let mut app = app_with(|forwarding| forwarding.upstream_backend = UpstreamBackend::Passthrough);
    app.upstream_http_base_url = "nowhere".to_string();
    let mut state = serving_state();
    let given = request_headers();
    let mut forward = begun(&app, CHAT, &given, &mut state);
    assert_eq!(
        forward.send_upstream_request(&app, &given, &mut state, 3_000).unwrap_err(),
        UpstreamBuildError::Url(JoinBasePathError::InvalidBase)
    );
    forward.abandon(&mut state, 4_000);
    assert_eq!(state.tracked_request_count(), 0);
}

#[test]
fn a_stream_that_ends_without_output_has_failed() {
    let app = app_with(|_| {});
    let mut state = serving_state();
    let given = request_headers();
    let mut forward = begun(&app, CHAT, &given, &mut state);
    forward.admit_body(&app, &given, STREAMING_BODY, &mut state, &queue_time_delta_ms, &scale_ms, 2_000);
    forward.send_upstream_request(&app, &given, &mut state, 3_000).unwrap();
    forward.relay_upstream_response(
        200,
        &headers(&[("content-type", "text/event-stream")]),
        &mut state,
        4_000,
    );
    let mut saw_output = false;
    let lifecycle = forward.lifecycle.as_mut().unwrap();
    let comment = lifecycle.observe_sse_message(Some(StreamMessage::Other), &mut saw_output, &mut state, 5_000);
    assert_eq!(comment.step, Ok(RelayStep::Forward));
    assert!(!saw_output);
    let ended = lifecycle.observe_sse_message(None, &mut saw_output, &mut state, 6_000);
    assert_eq!(ended.step, Err(StreamFault::EndedBeforeOutput));
    assert!(!StreamFault::EndedBeforeOutput.message().is_empty());
    assert_eq!(state_of(&ended.output), RequestObservationState::Failed);
    assert!(forward.abandon(&mut state, 7_000).is_none());
    assert_eq!(state.request_generation(&"req-1".to_string()), None);
}

#[test]
fn embeddings_are_relayed_as_a_body() {
    let app = app_with(|_| {});
    let mut state = serving_state();
    let given = request_headers();
    let mut forward = begun(&app, "/v1/embeddings", &given, &mut state);
    forward.observe_body(Some(2));
    let admission =
        forward.admit_body(&app, &given, br#"{"input":["a","b"]}"#, &mut state, &queue_time_delta_ms, &scale_ms, 2_000);
    assert!(admission.response.is_none());
    forward.send_upstream_request(&app, &given, &mut state, 3_000).unwrap();
    let start =
        forward.relay_upstream_response(200, &headers(&[("content-type", "application/json")]), &mut state, 4_000);
    assert_eq!(start.mode, RelayMode::Body);
    let finished = forward.finish(&mut state, 5_000).unwrap();
    assert_eq!(finished.event.observation().embedding_items, 2);
    assert_eq!(finished.event.observation().state, RequestObservationState::Complete);
    assert_eq!(state.tracked_request_count(), 0);
}

#[test]
fn a_generated_completion_is_observed_from_end_to_end() {
    let scope = "67e55044-10b1-426f-9247-bb680e5fe0c8";
    let mut ids = GeneratedRequestIds::with_scope(scope).unwrap();
    let mut state = serving_state();
    let generation = state.current_generation("model-a").unwrap();
    let (mut attempt, accepted) = CompletionAttempt::begin(
        &mut ids,
        GeneratedRequestKind::Calibration,
        &generation,
        Some(64),
        true,
        &mut state,
        1_000,
    );
    assert!(attempt.request_id.contains(scope));
    assert!(attempt.request_id.ends_with("-1"));
    assert_eq!(attempt.input_tokens, 64);
    assert_eq!(ids.generated_request_generation(&attempt.request_id, "model-a"), Some(generation.clone()));
    assert_eq!(state_of(&accepted), RequestObservationState::Accepted);
    let sent = attempt.request_headers().unwrap();
    assert_eq!(sent["x-request-id"], attempt.request_id.as_str());
    assert_eq!(sent["x-model"], "model-a");
    assert_eq!(sent["x-input-tokens"], "64");
    assert_eq!(sent.len(), 3);
    attempt.on_upstream_send(&mut state, 2_000);
    let answered = attempt.on_upstream_response_headers(200, &mut state, 3_000);
    assert_eq!(answered.unwrap().event.observation().upstream_status, Some(200));
    let report = attempt.finish_observation(16, &mut state, 4_000);
    let output = report.output.unwrap();
    assert_eq!(output.event.observation().output_messages, 1);
    assert_eq!(output.transition.unwrap().changed_generations, [generation.clone()]);
    let tokens = report.tokens.unwrap();
    assert_eq!(tokens.event.observation().output_tokens, 16);
    assert!(tokens.transition.is_some());
    assert_eq!(state_of(&report.finished), RequestObservationState::Complete);
    assert_eq!(report.finished.unwrap().event.observation().output_tokens, 16);
    assert_eq!(state.request_generation(&attempt.request_id), None);

    let (mut canary, none) = CompletionAttempt::begin(
        &mut ids,
        GeneratedRequestKind::Canary,
        &generation,
        None,
        false,
        &mut state,
        1_000,
    );
    assert!(none.is_none());
    assert_eq!(canary.input_tokens, 1);
    assert!(canary.abandon(&mut state, 2_000).is_none());
    canary.model_id = "a\nb".to_string();
    assert!(canary.request_headers().is_none());
}
