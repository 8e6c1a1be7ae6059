//! The course of one tunnelled request: what is answered at once, what goes to
//! the upstream server, and what its response does to the live requests. Every
//! read, send and wait is the caller's; each function here says what comes next.

use http::{HeaderMap, HeaderValue};
use vstd::prelude::*;

use crate::binary64::Binary64;
use crate::generation::ModelGeneration;
use crate::headers::header_value;
use crate::json_text::json_string;
use crate::live_requests::Requests;
use crate::queue_admission::{
    PylonQueueMismatchRetryConfig, QueueAdmissionDecision, QueueTrackedRequestGuard,
    RETRY_REASON_QUEUE_ESTIMATE_MISMATCH,
};
use crate::queue_model::TrackedPromptPhase;
use crate::request_observation::{
    RequestObservation, RequestObservationEndpoint, RequestObservationState, RequiredTunnelHeaders,
};
use crate::request_observer::{PublishedObservation, RequestObserver, TunnelRequestObserver};
use crate::runtime_state::{Models, PylonRuntimeState, RequestGenerationAdmission};
use crate::text::{decimal, join_texts};
use crate::tunnel_backend::{UpstreamBackend, DEFAULT_PRIORITY_CEILING};
use crate::tunnel_contract::HEADER_MODEL;
use crate::tunnel_headers::{
    build_response_headers, local_connect_failure_headers, model_generation_unavailable_headers,
    problem_response_headers, queue_mismatch_response_headers, upstream_request_headers, FailureCount,
    PylonRetryConfig, ResponseClass, RETRY_REASON_LOCAL_CONNECT_FAILURE,
    RETRY_REASON_MODEL_GENERATION_UNAVAILABLE,
};
use crate::tunnel_request::{
    health_probe_path_and_query, is_event_stream, is_health_request_path, join_base_path, problem_details_body,
    request_observation_endpoint, validate_request_body, validate_required_tunnel_headers, JoinBasePathError,
    ProblemDetails, DEFAULT_FIRST_OUTPUT_TIMEOUT, DEFAULT_MAX_BODY_BYTES, DEFAULT_MAX_SSE_BUFFER_BYTES,
    DEFAULT_OUTPUT_CHUNK_TIMEOUT, PROBLEM_TYPE_BLANK,
};
use crate::upstream_health::UpstreamHealthPaths;

verus! {

/// What is judged of the text that a model streams.
#[derive(Clone, Copy, Debug)]
pub struct RequestQualityMonitorConfig {
    pub collect_quality_metrics: bool,
    pub collect_quality_metrics_min_tokens: u32,
    pub output_tokens_threshold_min: Option<u32>,
    pub output_repetition_1gram_threshold_min: Option<Binary64>,
}

impl Default for RequestQualityMonitorConfig {
    fn default() -> (config: Self)
        ensures
            !config.monitors(),
    {
        RequestQualityMonitorConfig {
            collect_quality_metrics: false,
            collect_quality_metrics_min_tokens: 32,
            output_tokens_threshold_min: None,
            output_repetition_1gram_threshold_min: None,
        }
    }
}

impl RequestQualityMonitorConfig {
    pub open spec fn monitors(&self) -> bool {
        ||| self.collect_quality_metrics
        ||| self.output_tokens_threshold_min is Some
        ||| self.output_repetition_1gram_threshold_min is Some
    }

    /// Whether streams are judged at all.
    pub fn enabled(&self) -> (enabled: bool)
        ensures
            enabled == self.monitors(),
    {
        self.collect_quality_metrics || self.output_tokens_threshold_min.is_some()
            || self.output_repetition_1gram_threshold_min.is_some()
    }
}

/// How requests are forwarded. Times are in nanoseconds.
#[derive(Debug)]
pub struct TunnelForwardingConfig {
    pub max_request_body_bytes: usize,
    /// The bytes that one event of a stream may take; events that are complete
    /// are forwarded and do not count.
    pub max_sse_buffer_bytes: usize,
    pub first_output_timeout: u64,
    pub output_chunk_timeout: u64,
    pub request_quality_monitor: RequestQualityMonitorConfig,
    pub retry: PylonRetryConfig,
    pub queue_mismatch_retry: PylonQueueMismatchRetryConfig,
    pub upstream_backend: UpstreamBackend,
    pub priority_ceiling: u32,
    /// Shared with the bringup, so that a forwarded health probe goes to the
    /// path that answered.
    pub upstream_health_paths: UpstreamHealthPaths,
    pub metrics_enabled: bool,
}

impl TunnelForwardingConfig {
    /// How requests are forwarded where nothing else is set.
    pub open spec fn is_standard(&self) -> bool {
        &&& self.max_request_body_bytes == DEFAULT_MAX_BODY_BYTES
        &&& self.max_sse_buffer_bytes == DEFAULT_MAX_SSE_BUFFER_BYTES
        &&& self.first_output_timeout == DEFAULT_FIRST_OUTPUT_TIMEOUT
        &&& self.output_chunk_timeout == DEFAULT_OUTPUT_CHUNK_TIMEOUT
        &&& !self.request_quality_monitor.monitors()
        &&& self.queue_mismatch_retry.enabled
        &&& self.queue_mismatch_retry.min_delta_ms == 25
        &&& self.queue_mismatch_retry.tolerance_factor.bits == crate::queue_admission::DEFAULT_TOLERANCE_BITS
        &&& self.queue_mismatch_retry.retry_after_ms is None
        &&& self.retry.retryable_upstream_status_codes@ == seq![429u16, 503u16]
        &&& self.retry.require_upstream_retry_header
        &&& crate::headers::header_name_text(self.retry.upstream_retry_header) == crate::tunnel_contract::HEADER_STARGATE_UPSTREAM_RETRYABLE@
        &&& self.retry.propagate_retry_after
        &&& !self.retry.local_connect_failures_retryable
        &&& self.upstream_backend is Dynamo
        &&& self.priority_ceiling == DEFAULT_PRIORITY_CEILING
        &&& self.upstream_health_paths.wf()
        &&& self.upstream_health_paths.candidates() == crate::upstream_health::candidate_paths(Seq::empty())
        &&& self.upstream_health_paths.resolved() is None
        &&& !self.metrics_enabled
    }
}

impl Default for TunnelForwardingConfig {
    fn default() -> (config: Self)
        ensures
            config.is_standard(),
    {
        TunnelForwardingConfig {
            max_request_body_bytes: DEFAULT_MAX_BODY_BYTES,
            max_sse_buffer_bytes: DEFAULT_MAX_SSE_BUFFER_BYTES,
            first_output_timeout: DEFAULT_FIRST_OUTPUT_TIMEOUT,
            output_chunk_timeout: DEFAULT_OUTPUT_CHUNK_TIMEOUT,
            request_quality_monitor: RequestQualityMonitorConfig::default(),
            retry: PylonRetryConfig::default(),
            queue_mismatch_retry: PylonQueueMismatchRetryConfig::default(),
            upstream_backend: UpstreamBackend::default(),
            priority_ceiling: DEFAULT_PRIORITY_CEILING,
            upstream_health_paths: UpstreamHealthPaths::default(),
            metrics_enabled: false,
        }
    }
}

/// The server that forwards the requests of one inference server.
#[derive(Debug)]
pub struct TunnelServerApp {
    pub inference_server_id: String,
    pub upstream_http_base_url: String,
    pub max_request_body_bytes: usize,
    pub max_sse_buffer_bytes: usize,
    pub first_output_timeout: u64,
    pub output_chunk_timeout: u64,
    pub request_quality_monitor: RequestQualityMonitorConfig,
    pub retry: PylonRetryConfig,
    pub queue_mismatch_retry: PylonQueueMismatchRetryConfig,
    pub upstream_backend: UpstreamBackend,
    pub priority_ceiling: u32,
    pub upstream_health_paths: UpstreamHealthPaths,
    pub metrics_enabled: bool,
}

impl TunnelServerApp {
    pub fn new(inference_server_id: String, upstream_http_base_url: String, forwarding: TunnelForwardingConfig) -> (app:
        Self)
        ensures
            app.inference_server_id == inference_server_id,
            app.upstream_http_base_url == upstream_http_base_url,
            app.max_request_body_bytes == forwarding.max_request_body_bytes,
            app.max_sse_buffer_bytes == forwarding.max_sse_buffer_bytes,
            app.first_output_timeout == forwarding.first_output_timeout,
            app.output_chunk_timeout == forwarding.output_chunk_timeout,
            app.request_quality_monitor == forwarding.request_quality_monitor,
            app.retry == forwarding.retry,
            app.queue_mismatch_retry == forwarding.queue_mismatch_retry,
            app.upstream_backend == forwarding.upstream_backend,
            app.priority_ceiling == forwarding.priority_ceiling,
            app.upstream_health_paths == forwarding.upstream_health_paths,
            app.metrics_enabled == forwarding.metrics_enabled,
    {
        TunnelServerApp {
            inference_server_id,
            upstream_http_base_url,
            max_request_body_bytes: forwarding.max_request_body_bytes,
            max_sse_buffer_bytes: forwarding.max_sse_buffer_bytes,
            first_output_timeout: forwarding.first_output_timeout,
            output_chunk_timeout: forwarding.output_chunk_timeout,
            request_quality_monitor: forwarding.request_quality_monitor,
            retry: forwarding.retry,
            queue_mismatch_retry: forwarding.queue_mismatch_retry,
            upstream_backend: forwarding.upstream_backend,
            priority_ceiling: forwarding.priority_ceiling,
            upstream_health_paths: forwarding.upstream_health_paths,
            metrics_enabled: forwarding.metrics_enabled,
        }
    }
}

/// What follows one request through the tunnel.
#[derive(Debug)]
pub struct TunnelRequestLifecycle {
    pub required: RequiredTunnelHeaders,
    pub generation: Option<ModelGeneration>,
    pub observer: Option<TunnelRequestObserver>,
    pub queue_request: Option<QueueTrackedRequestGuard>,
    /// The model as the request wrote it, where the stream is to be judged.
    pub quality_label: Option<Vec<u8>>,
}

/// The step that an observer is told of.
pub enum ObservedStep {
    Sent,
    Answered { status: u16 },
    Message,
    MoreTokens { delta: u64 },
    CountedTokens { tokens: u64, from_chunk: bool },
    Ended { state: RequestObservationState },
}

impl ObservedStep {
    pub open spec fn applied(self, observation: RequestObservation, time: u64) -> RequestObservation {
        match self {
            ObservedStep::Sent => crate::request_observer::sent(observation, time),
            ObservedStep::Answered { status } => crate::request_observer::answered(observation, status, time),
            ObservedStep::Message => crate::request_observer::with_message(observation, time),
            ObservedStep::MoreTokens { delta } => crate::request_observer::with_more_tokens(
                observation,
                delta,
                time,
            ),
            ObservedStep::CountedTokens { tokens, from_chunk } => crate::request_observer::with_counted_tokens(
                observation,
                tokens,
                from_chunk,
                time,
            ),
            ObservedStep::Ended { state } => crate::request_observer::ended(observation, state, time),
        }
    }
}

/// What an observer has seen after a step, which it does not take once the
/// request has ended.
pub open spec fn observation_after(observer: RequestObserver, step: ObservedStep, now: u64) -> RequestObservation {
    if observer.terminal() {
        observer.observation()
    } else {
        step.applied(
            observer.observation(),
            crate::request_observer::elapsed(observer.accepted_at(), now),
        )
    }
}

/// The live requests after a step, where the request is followed.
pub open spec fn observed_step(
    observer: Option<TunnelRequestObserver>,
    models: Models,
    requests: Requests,
    step: ObservedStep,
    now: u64,
) -> Requests {
    match observer {
        Some(observer) => observer.observer().requests_after_step(
            models,
            requests,
            observation_after(observer.observer(), step, now),
        ),
        None => requests,
    }
}

/// The observer has taken the step, where there is one.
pub open spec fn observer_took(
    before: Option<TunnelRequestObserver>,
    after: Option<TunnelRequestObserver>,
    step: ObservedStep,
    now: u64,
) -> bool {
    match (before, after) {
        (Some(before), Some(after)) => {
            &&& after.observer().same_request(&before.observer())
            &&& after.observer().observation() == observation_after(before.observer(), step, now)
        },
        (None, None) => true,
        _ => false,
    }
}

/// The step has been told, unless nothing follows the request or it had ended.
pub open spec fn told(
    published: Option<PublishedObservation>,
    observer: Option<TunnelRequestObserver>,
    models: Models,
    requests: Requests,
    step: ObservedStep,
    now: u64,
) -> bool {
    match (observer, published) {
        (Some(observer), Some(published)) => !observer.observer().terminal() && published.tells(
            models,
            requests,
            observation_after(observer.observer(), step, now),
            observer.observer().generation(),
        ),
        (Some(observer), None) => observer.observer().terminal(),
        (None, published) => published is None,
    }
}

/// The live requests once the queued request is in a later phase.
pub open spec fn queue_moved(
    guard: Option<QueueTrackedRequestGuard>,
    requests: Requests,
    phase: TrackedPromptPhase,
) -> Requests {
    match guard {
        Some(guard) => crate::live_requests::advanced(requests, guard.request_id(), phase),
        None => requests,
    }
}

/// The live requests once the queued request has left the queue.
pub open spec fn queue_left(guard: Option<QueueTrackedRequestGuard>, requests: Requests) -> Requests {
    match guard {
        Some(guard) => if guard.finished() {
            requests
        } else {
            crate::live_requests::without_queue(requests, guard.request_id())
        },
        None => requests,
    }
}

impl TunnelRequestLifecycle {
    /// Nothing but the observer and the handle of the queued request differs.
    pub open spec fn same_request(&self, other: &TunnelRequestLifecycle) -> bool {
        &&& self.required == other.required
        &&& self.generation == other.generation
        &&& self.quality_label == other.quality_label
    }

    /// The parts speak of one request.
    pub open spec fn wf(&self) -> bool {
        &&& self.observer matches Some(observer) ==> {
            &&& observer.observer().observation().request_id@ == self.required.request_id@
            &&& observer.observer().generation() == crate::runtime_state::owned_generation(self.generation)
        }
        &&& self.queue_request matches Some(guard) ==> guard.request_id() == self.required.request_id@
    }

    /// Starts to follow a request that has all that it must have.
    pub fn new(
        app: &TunnelServerApp,
        observation_endpoint: Option<RequestObservationEndpoint>,
        request_headers: &HeaderMap<HeaderValue>,
        required: RequiredTunnelHeaders,
        generation: Option<ModelGeneration>,
        state: &mut PylonRuntimeState,
    ) -> (started: (Self, Option<PublishedObservation>))
        requires
            old(state).wf(),
        ensures
            started.0.wf(),
            started.0.required == required,
            started.0.generation == generation,
            started.0.queue_request is None,
            match (observation_endpoint, started.0.observer) {
                (Some(endpoint), Some(observer)) => {
                    &&& crate::request_observer::accepted_observation(
                        observer.observer().observation(),
                        endpoint,
                        required,
                    )
                    &&& observer.observer().accepted_at() == required.accepted_at
                    &&& crate::request_observer::moved(
                        *old(state),
                        *final(state),
                        crate::request_observer::requests_after(
                            old(state).models(),
                            old(state).requests(),
                            observer.observer().observation(),
                            crate::runtime_state::owned_generation(generation),
                        ),
                    )
                    &&& started.1 matches Some(published) && published.tells(
                        old(state).models(),
                        old(state).requests(),
                        observer.observer().observation(),
                        crate::runtime_state::owned_generation(generation),
                    )
                },
                (None, None) => *final(state) == *old(state) && started.1 is None,
                _ => false,
            },
            labelled(
                started.0.quality_label,
                *app,
                observation_endpoint,
                crate::headers::header_contents(*request_headers),
            ),
    {
        let mut published: Option<PublishedObservation> = None;
        let mut observer: Option<TunnelRequestObserver> = None;
        if let Some(endpoint) = observation_endpoint {
            let owner = match &generation {
                Some(generation) => Some(generation.clone()),
                None => None,
            };
            let (started, told) = TunnelRequestObserver::accepted(endpoint, &required, owner, state);
            observer = Some(started);
            published = Some(told);
        }
        let chat = match observation_endpoint {
            Some(RequestObservationEndpoint::ChatCompletions) => true,
            _ => false,
        };
        let mut quality_label: Option<Vec<u8>> = None;
        if chat && app.request_quality_monitor.enabled() && app.metrics_enabled {
            proof {
                crate::tunnel_contract::lemma_header_names();
            }
            quality_label = header_value(request_headers, HEADER_MODEL);
        }
        (TunnelRequestLifecycle { required, generation, observer, queue_request: None, quality_label }, published)
    }

    /// The request has failed.
    pub fn fail(&mut self, state: &mut PylonRuntimeState, now: u64) -> (published: Option<PublishedObservation>)
        requires
            old(state).wf(),
        ensures
            final(self).same_request(old(self)),
            final(self).queue_request == old(self).queue_request,
            observer_took(
                old(self).observer,
                final(self).observer,
                (ObservedStep::Ended { state: RequestObservationState::Failed }),
                now,
            ),
            crate::request_observer::moved(
                *old(state),
                *final(state),
                observed_step(
                    old(self).observer,
                    old(state).models(),
                    old(state).requests(),
                    (ObservedStep::Ended { state: RequestObservationState::Failed }),
                    now,
                ),
            ),
            told(
                published,
                old(self).observer,
                old(state).models(),
                old(state).requests(),
                (ObservedStep::Ended { state: RequestObservationState::Failed }),
                now,
            ),
    {
        match &mut self.observer {
            Some(observer) => observer.fail(state, now),
            None => None,
        }
    }

    /// Decides whether the request may queue here. One that may not leaves the
    /// queue before it is answered, and has failed.
    pub fn admit_queue<F: Fn(u64, Binary64) -> Option<u64>, G: Fn(u64, Binary64) -> u64>(
        &mut self,
        app: &TunnelServerApp,
        request_headers: &HeaderMap<HeaderValue>,
        state: &mut PylonRuntimeState,
        queue_time_delta_ms: &F,
        scale_ms: &G,
        now: u64,
    ) -> (outcome: (QueueAdmissionDecision, Option<PublishedObservation>))
        requires
            old(state).wf(),
            forall|tokens: u64, rate: Binary64| call_requires(*queue_time_delta_ms, (tokens, rate)),
            forall|ms: u64, factor: Binary64| call_requires(*scale_ms, (ms, factor)),
        ensures
            old(self).wf() ==> final(self).wf(),
            queue_admitted(
                *old(self),
                *final(self),
                *app,
                crate::headers::header_contents(*request_headers),
                *old(state),
                *final(state),
                outcome.0,
                outcome.1,
                *queue_time_delta_ms,
                *scale_ms,
                now,
            ),
    {
        let decision = state.evaluate_generation_queue_admission(
            &app.queue_mismatch_retry,
            &self.required,
            self.generation.as_ref(),
            request_headers,
            queue_time_delta_ms,
            scale_ms,
        );
        let rejected = match decision {
            QueueAdmissionDecision::Rejected { .. } => true,
            _ => false,
        };
        if !rejected {
            self.queue_request = state.track_generation_request(&self.required, self.generation.as_ref());
            return (decision, None);
        }
        state.finish_queue_request(&self.required.request_id);
        let published = self.fail(state, now);
        (decision, published)
    }

    /// The request is being sent upstream.
    pub fn on_upstream_send(&mut self, state: &mut PylonRuntimeState, now: u64) -> (published: Option<
        PublishedObservation,
    >)
        requires
            old(state).wf(),
        ensures
            final(self).same_request(old(self)),
            final(self).queue_request == old(self).queue_request,
            observer_took(old(self).observer, final(self).observer, ObservedStep::Sent, now),
            crate::request_observer::moved(
                *old(state),
                *final(state),
                observed_step(
                    old(self).observer,
                    old(state).models(),
                    queue_moved(
                        old(self).queue_request,
                        old(state).requests(),
                        TrackedPromptPhase::InputProcessing,
                    ),
                    ObservedStep::Sent,
                    now,
                ),
            ),
            told(
                published,
                old(self).observer,
                old(state).models(),
                queue_moved(old(self).queue_request, old(state).requests(), TrackedPromptPhase::InputProcessing),
                ObservedStep::Sent,
                now,
            ),
    {
        if let Some(guard) = &mut self.queue_request {
            state.on_upstream_send(guard);
        }
        match &mut self.observer {
            Some(observer) => observer.on_upstream_send(state, now),
            None => None,
        }
    }
}

/// What a message of the stream says of the tokens so far.
#[derive(Clone, Copy, Debug, PartialEq, Eq, Structural)]
pub enum OutputTokenProgress {
    ExplicitCumulative { tokens: u64, delta: u64 },
    EstimatedDelta { delta: u64 },
}

/// One message of an upstream stream, as far as it matters here.
#[derive(Clone, Copy, Debug, PartialEq, Eq, Structural)]
pub enum StreamMessage {
    /// A message that carries output.
    Output { progress: Option<OutputTokenProgress> },
    Other,
}

/// What to do after a message.
#[derive(Clone, Copy, Debug, PartialEq, Eq, Structural)]
pub enum RelayStep {
    Forward,
    Done,
}

/// Why a stream is broken off.
#[derive(Clone, Copy, Debug, PartialEq, Eq, Structural)]
pub enum StreamFault {
    ObserverMissing,
    EndedBeforeOutput,
}

impl StreamFault {
    pub fn message(self) -> (message: &'static str)
        ensures
            message@ == (match self {
                StreamFault::ObserverMissing => "observer missing for observed streaming request"@,
                StreamFault::EndedBeforeOutput => "upstream stream ended before first output event"@,
            }),
    {
        match self {
            StreamFault::ObserverMissing => "observer missing for observed streaming request",
            StreamFault::EndedBeforeOutput => "upstream stream ended before first output event",
        }
    }
}

/// What a message came to.
#[derive(Debug)]
pub struct StreamOutcome {
    pub step: Result<RelayStep, StreamFault>,
    pub output: Option<PublishedObservation>,
    pub tokens: Option<PublishedObservation>,
}

/// The request is followed and its text is observed.
pub open spec fn streams(observer: Option<TunnelRequestObserver>) -> bool {
    observer matches Some(observer) && observer.streaming()
}

/// The step that the count of a message makes.
pub open spec fn token_step(progress: OutputTokenProgress) -> ObservedStep {
    match progress {
        OutputTokenProgress::ExplicitCumulative { tokens, .. } => ObservedStep::CountedTokens {
            tokens,
            from_chunk: true,
        },
        OutputTokenProgress::EstimatedDelta { delta } => ObservedStep::MoreTokens { delta },
    }
}

/// What an observer has seen after a message with output.
pub open spec fn observation_after_output(
    observer: RequestObserver,
    progress: Option<OutputTokenProgress>,
    now: u64,
) -> RequestObservation {
    let seen = observation_after(observer, ObservedStep::Message, now);
    match progress {
        Some(progress) => if observer.terminal() {
            seen
        } else {
            token_step(progress).applied(
                seen,
                crate::request_observer::elapsed(observer.accepted_at(), now),
            )
        },
        None => seen,
    }
}

/// The live requests after a message with output.
pub open spec fn requests_after_output(
    observer: RequestObserver,
    models: Models,
    requests: Requests,
    progress: Option<OutputTokenProgress>,
    now: u64,
) -> Requests {
    let after_message = observer.requests_after_step(
        models,
        requests,
        observation_after(observer, ObservedStep::Message, now),
    );
    match progress {
        Some(_) => observer.requests_after_step(
            models,
            after_message,
            observation_after_output(observer, progress, now),
        ),
        None => after_message,
    }
}

/// The live requests once the queue knows of output; it is told the first time.
pub open spec fn first_output(guard: Option<QueueTrackedRequestGuard>, saw_output: bool, requests: Requests) -> Requests {
    if saw_output {
        requests
    } else {
        queue_moved(guard, requests, TrackedPromptPhase::OutputGeneration)
    }
}

/// A message with output has been told, and after it what it says of tokens.
pub open spec fn output_told(
    outcome: StreamOutcome,
    observer: RequestObserver,
    models: Models,
    requests: Requests,
    progress: Option<OutputTokenProgress>,
    now: u64,
) -> bool {
    if observer.terminal() {
        outcome.output is None && outcome.tokens is None
    } else {
        &&& outcome.output matches Some(published) && published.tells(
            models,
            requests,
            observation_after(observer, ObservedStep::Message, now),
            observer.generation(),
        )
        &&& match progress {
            Some(_) => outcome.tokens matches Some(published) && published.tells(
                models,
                observer.requests_after_step(
                    models,
                    requests,
                    observation_after(observer, ObservedStep::Message, now),
                ),
                observation_after_output(observer, progress, now),
                observer.generation(),
            ),
            None => outcome.tokens is None,
        }
    }
}

impl TunnelRequestLifecycle {
    /// Takes in one message of the upstream's stream, or its end. A stream that
    /// ends before any output is a failure.
    pub fn observe_sse_message(
        &mut self,
        message: Option<StreamMessage>,
        saw_output: &mut bool,
        state: &mut PylonRuntimeState,
        now: u64,
    ) -> (outcome: StreamOutcome)
        requires
            old(state).wf(),
        ensures
            final(self).same_request(old(self)),
            final(self).queue_request == old(self).queue_request,
            if !streams(old(self).observer) {
                &&& outcome.step == Err::<RelayStep, StreamFault>(StreamFault::ObserverMissing)
                &&& outcome.output is None
                &&& outcome.tokens is None
                &&& *final(saw_output) == *old(saw_output)
                &&& final(self).observer == old(self).observer
                &&& *final(state) == *old(state)
            } else {
                match message {
                    None => {
                        &&& *final(saw_output) == *old(saw_output)
                        &&& outcome.tokens is None
                        &&& if *old(saw_output) {
                            &&& outcome.step == Ok::<RelayStep, StreamFault>(RelayStep::Done)
                            &&& outcome.output is None
                            &&& final(self).observer == old(self).observer
                            &&& *final(state) == *old(state)
                        } else {
                            &&& outcome.step == Err::<RelayStep, StreamFault>(StreamFault::EndedBeforeOutput)
                            &&& observer_took(
                                old(self).observer,
                                final(self).observer,
                                (ObservedStep::Ended { state: RequestObservationState::Failed }),
                                now,
                            )
                            &&& crate::request_observer::moved(
                                *old(state),
                                *final(state),
                                observed_step(
                                    old(self).observer,
                                    old(state).models(),
                                    old(state).requests(),
                                    (ObservedStep::Ended { state: RequestObservationState::Failed }),
                                    now,
                                ),
                            )
                            &&& told(
                                outcome.output,
                                old(self).observer,
                                old(state).models(),
                                old(state).requests(),
                                (ObservedStep::Ended { state: RequestObservationState::Failed }),
                                now,
                            )
                        }
                    },
                    Some(StreamMessage::Other) => {
                        &&& outcome.output is None
                        &&& outcome.tokens is None
                        &&& outcome.step == Ok::<RelayStep, StreamFault>(RelayStep::Forward)
                        &&& *final(saw_output) == *old(saw_output)
                        &&& final(self).observer == old(self).observer
                        &&& *final(state) == *old(state)
                    },
                    Some(StreamMessage::Output { progress }) => {
                        &&& outcome.step == Ok::<RelayStep, StreamFault>(RelayStep::Forward)
                        &&& *final(saw_output)
                        &&& final(self).observer matches Some(after)
                        &&& after.observer().same_request(&old(self).observer->0.observer())
                        &&& after.observer().observation() == observation_after_output(
                            old(self).observer->0.observer(),
                            progress,
                            now,
                        )
                        &&& crate::request_observer::moved(
                            *old(state),
                            *final(state),
                            requests_after_output(
                                old(self).observer->0.observer(),
                                old(state).models(),
                                first_output(old(self).queue_request, *old(saw_output), old(state).requests()),
                                progress,
                                now,
                            ),
                        )
                        &&& output_told(
                            outcome,
                            old(self).observer->0.observer(),
                            old(state).models(),
                            first_output(old(self).queue_request, *old(saw_output), old(state).requests()),
                            progress,
                            now,
                        )
                    },
                }
            },
    {
        let streaming = match &self.observer {
            Some(observer) => observer.is_streaming(),
            None => false,
        };
        if !streaming {
            return StreamOutcome { step: Err(StreamFault::ObserverMissing), output: None, tokens: None };
        }
        let message = match message {
            Some(message) => message,
            None => {
                if *saw_output {
                    return StreamOutcome { step: Ok(RelayStep::Done), output: None, tokens: None };
                }
                let output = self.fail(state, now);
                return StreamOutcome { step: Err(StreamFault::EndedBeforeOutput), output, tokens: None };
            },
        };
        let progress = match message {
            StreamMessage::Output { progress } => progress,
            StreamMessage::Other => {
                return StreamOutcome { step: Ok(RelayStep::Forward), output: None, tokens: None };
            },
        };
        if !*saw_output {
            if let Some(guard) = &mut self.queue_request {
                state.observe_output(guard);
            }
        }
        *saw_output = true;
        let mut output: Option<PublishedObservation> = None;
        let mut tokens: Option<PublishedObservation> = None;
        if let Some(observer) = &mut self.observer {
            if let Some(generated) = observer.generation_mut() {
                output = generated.observe_output_message(state, now);
                match progress {
                    Some(OutputTokenProgress::ExplicitCumulative { tokens: counted, .. }) => {
                        tokens = generated.observe_output_tokens_generated_so_far(state, counted, now);
                    },
                    Some(OutputTokenProgress::EstimatedDelta { delta }) => {
                        tokens = generated.observe_output_tokens(state, delta, now);
                    },
                    None => {},
                }
            }
        }
        StreamOutcome { step: Ok(RelayStep::Forward), output, tokens }
    }

    /// The response has been sent to its end.
    pub fn finish(&mut self, state: &mut PylonRuntimeState, now: u64) -> (published: Option<PublishedObservation>)
        requires
            old(state).wf(),
        ensures
            final(self).same_request(old(self)),
            old(self).wf() ==> final(self).wf(),
            observer_took(
                old(self).observer,
                final(self).observer,
                (ObservedStep::Ended { state: RequestObservationState::Complete }),
                now,
            ),
            final(self).queue_request is Some == old(self).queue_request is Some,
            final(self).queue_request matches Some(guard) ==> guard.finished(),
            crate::request_observer::moved(
                *old(state),
                *final(state),
                ended_requests(
                    *old(self),
                    old(state).models(),
                    old(state).requests(),
                    RequestObservationState::Complete,
                    now,
                ),
            ),
            told(
                published,
                old(self).observer,
                old(state).models(),
                old(state).requests(),
                (ObservedStep::Ended { state: RequestObservationState::Complete }),
                now,
            ),
    {
        let published = match &mut self.observer {
            Some(observer) => observer.finish(state, now),
            None => None,
        };
        if let Some(guard) = &mut self.queue_request {
            state.finish_tracked(guard);
        }
        published
    }

    /// The request is given up before its response has been sent to its end.
    pub fn abandon(&mut self, state: &mut PylonRuntimeState, now: u64) -> (published: Option<PublishedObservation>)
        requires
            old(state).wf(),
        ensures
            final(self).same_request(old(self)),
            old(self).wf() ==> final(self).wf(),
            observer_took(
                old(self).observer,
                final(self).observer,
                (ObservedStep::Ended { state: RequestObservationState::Failed }),
                now,
            ),
            final(self).queue_request is Some == old(self).queue_request is Some,
            final(self).queue_request matches Some(guard) ==> guard.finished(),
            crate::request_observer::moved(
                *old(state),
                *final(state),
                ended_requests(
                    *old(self),
                    old(state).models(),
                    old(state).requests(),
                    RequestObservationState::Failed,
                    now,
                ),
            ),
            told(
                published,
                old(self).observer,
                old(state).models(),
                old(state).requests(),
                (ObservedStep::Ended { state: RequestObservationState::Failed }),
                now,
            ),
    {
        let published = self.fail(state, now);
        if let Some(guard) = &mut self.queue_request {
            state.finish_tracked(guard);
        }
        published
    }
}

/// The live requests once a request has ended: its observer first, then its
/// place in the queue.
pub open spec fn ended_requests(
    lifecycle: TunnelRequestLifecycle,
    models: Models,
    requests: Requests,
    end: RequestObservationState,
    now: u64,
) -> Requests {
    queue_left(
        lifecycle.queue_request,
        observed_step(lifecycle.observer, models, requests, (ObservedStep::Ended { state: end }), now),
    )
}

/// What the queue made of a request. One that is rejected leaves the queue and
/// has failed; any other is queued, where its generation is served.
pub open spec fn queue_admitted<F: Fn(u64, Binary64) -> Option<u64>, G: Fn(u64, Binary64) -> u64>(
    before: TunnelRequestLifecycle,
    after: TunnelRequestLifecycle,
    app: TunnelServerApp,
    contents: crate::headers::HeaderContents,
    state_before: PylonRuntimeState,
    state_after: PylonRuntimeState,
    decision: QueueAdmissionDecision,
    published: Option<PublishedObservation>,
    queue_time_delta_ms: F,
    scale_ms: G,
    now: u64,
) -> bool {
    let generation = crate::runtime_state::owned_generation(before.generation);
    &&& after.same_request(&before)
    &&& admission_decided(
        decision,
        app,
        before.required,
        generation,
        contents,
        state_before,
        queue_time_delta_ms,
        scale_ms,
    )
    &&& if decision is Rejected {
        let unqueued = crate::live_requests::without_queue(state_before.requests(), before.required.request_id@);
        &&& after.queue_request == before.queue_request
        &&& observer_took(
            before.observer,
            after.observer,
            (ObservedStep::Ended { state: RequestObservationState::Failed }),
            now,
        )
        &&& crate::request_observer::moved(
            state_before,
            state_after,
            observed_step(
                before.observer,
                state_before.models(),
                unqueued,
                (ObservedStep::Ended { state: RequestObservationState::Failed }),
                now,
            ),
        )
        &&& told(
            published,
            before.observer,
            state_before.models(),
            unqueued,
            (ObservedStep::Ended { state: RequestObservationState::Failed }),
            now,
        )
    } else {
        &&& after.observer == before.observer
        &&& published is None
        &&& match (after.queue_request, generation) {
            (Some(guard), Some(generation)) => {
                &&& crate::runtime_state::current(state_before.models(), generation)
                &&& guard.request_id() == before.required.request_id@
                &&& !guard.finished()
                &&& crate::request_observer::moved(
                    state_before,
                    state_after,
                    crate::queue_admission::tracked_requests(state_before.requests(), before.required, generation),
                )
            },
            (None, generation) => {
                &&& generation matches Some(generation) ==> !crate::runtime_state::current(
                    state_before.models(),
                    generation,
                )
                &&& crate::request_observer::moved(state_before, state_after, state_before.requests())
            },
            _ => false,
        }
    }
}

/// The label under which a stream is judged is the model as the request wrote
/// it; a stream that is not judged has none.
pub open spec fn labelled(
    quality_label: Option<Vec<u8>>,
    app: TunnelServerApp,
    endpoint: Option<RequestObservationEndpoint>,
    contents: crate::headers::HeaderContents,
) -> bool {
    match quality_label {
        Some(label) => {
            &&& judged(app, endpoint)
            &&& contents.contains_key(HEADER_MODEL@)
            &&& label@ == contents[HEADER_MODEL@][0]
        },
        None => !judged(app, endpoint) || !contents.contains_key(HEADER_MODEL@),
    }
}

/// Whether the stream of a request is to be judged.
pub open spec fn judged(app: TunnelServerApp, endpoint: Option<RequestObservationEndpoint>) -> bool {
    endpoint == Some(RequestObservationEndpoint::ChatCompletions) && app.request_quality_monitor.monitors()
        && app.metrics_enabled
}

/// The decision is the one that the queue of the request's generation calls for.
pub open spec fn admission_decided<F: Fn(u64, Binary64) -> Option<u64>, G: Fn(u64, Binary64) -> u64>(
    decision: QueueAdmissionDecision,
    app: TunnelServerApp,
    required: RequiredTunnelHeaders,
    generation: Option<crate::generation::GenerationId>,
    contents: crate::headers::HeaderContents,
    state: PylonRuntimeState,
    queue_time_delta_ms: F,
    scale_ms: G,
) -> bool {
    crate::queue_admission::decides(
        decision,
        app.queue_mismatch_retry,
        crate::queue_admission::expected_queue(contents),
        match generation {
            Some(generation) => state.throughput(generation),
            None => None,
        },
        match generation {
            Some(generation) => crate::live_requests::queued_work_through(
                state.requests().remove(required.request_id@),
                generation,
                required.spec_queue_priority() as int,
            ),
            None => 0,
        },
        queue_time_delta_ms,
        scale_ms,
    )
}

/// The body of an answer that does not come from the upstream server.
#[derive(Debug)]
pub enum LocalBody {
    Problem(ProblemDetails),
    /// A problem document with the reason and the three times besides.
    QueueMismatch {
        problem: ProblemDetails,
        reason: &'static str,
        expected_queue_ms: u64,
        actual_queue_ms: u64,
        threshold_ms: u64,
    },
}

impl LocalBody {
    /// The document.
    pub open spec fn object(&self) -> Seq<char> {
        match self {
            LocalBody::Problem(problem) => problem.object(),
            LocalBody::QueueMismatch { problem, reason, expected_queue_ms, actual_queue_ms, threshold_ms } => {
                "{\"actual_queue_ms\":"@ + crate::text::decimal_text(*actual_queue_ms as nat) + ",\"detail\":"@
                    + crate::json_text::quoted(problem.detail@) + ",\"expected_queue_ms\":"@
                    + crate::text::decimal_text(*expected_queue_ms as nat) + ",\"reason\":"@
                    + crate::json_text::quoted(reason@) + ",\"status\":"@ + crate::text::decimal_text(
                    problem.status as nat,
                ) + ",\"threshold_ms\":"@ + crate::text::decimal_text(*threshold_ms as nat) + ",\"title\":"@
                    + crate::json_text::quoted(problem.title@) + ",\"type\":"@ + crate::json_text::quoted(
                    problem.problem_type@,
                ) + "}"@
            },
        }
    }

    /// The document as JSON.
    pub fn json(&self) -> (json: String)
        ensures
            json@ == self.object(),
    {
        match self {
            LocalBody::Problem(problem) => problem.json(),
            LocalBody::QueueMismatch { problem, reason, expected_queue_ms, actual_queue_ms, threshold_ms } => {
                let json = join_texts("{\"actual_queue_ms\":", decimal(*actual_queue_ms).as_str());
                let json = join_texts(json.as_str(), ",\"detail\":");
                let json = join_texts(json.as_str(), json_string(problem.detail.as_str()).as_str());
                let json = join_texts(json.as_str(), ",\"expected_queue_ms\":");
                let json = join_texts(json.as_str(), decimal(*expected_queue_ms).as_str());
                let json = join_texts(json.as_str(), ",\"reason\":");
                let json = join_texts(json.as_str(), json_string(reason).as_str());
                let json = join_texts(json.as_str(), ",\"status\":");
                let json = join_texts(json.as_str(), decimal(problem.status as u64).as_str());
                let json = join_texts(json.as_str(), ",\"threshold_ms\":");
                let json = join_texts(json.as_str(), decimal(*threshold_ms).as_str());
                let json = join_texts(json.as_str(), ",\"title\":");
                let json = join_texts(json.as_str(), json_string(problem.title.as_str()).as_str());
                let json = join_texts(json.as_str(), ",\"type\":");
                let json = join_texts(json.as_str(), json_string(problem.problem_type).as_str());
                join_texts(json.as_str(), "}")
            },
        }
    }
}

/// A failure to count, and the reason under which it is counted.
#[derive(Clone, Copy, Debug)]
pub struct CountedFailure {
    pub count: FailureCount,
    pub reason: &'static str,
}

/// An answer that does not come from the upstream server.
#[derive(Debug)]
pub struct LocalResponse {
    pub status: u16,
    pub headers: HeaderMap<HeaderValue>,
    pub body: LocalBody,
    pub failure: Option<CountedFailure>,
}

impl LocalResponse {
    /// A problem document that no failure is counted for.
    pub open spec fn refuses(&self, detail: Seq<char>) -> bool {
        &&& self.status == 400
        &&& crate::headers::header_contents(self.headers) == crate::tunnel_headers::problem_contents()
        &&& self.body matches LocalBody::Problem(problem) && {
            &&& crate::tunnel_request::problem_of(problem, 400, detail)
            &&& problem.title@ == "Bad Request"@
        }
        &&& self.failure is None
    }

    /// A problem document that says whether and why the request may be sent
    /// again elsewhere, and is counted as a failure.
    pub open spec fn sends_away(&self, retryable: bool, reason: Seq<char>, detail: Seq<char>) -> bool {
        &&& self.status == 503
        &&& crate::headers::header_contents(self.headers) == crate::tunnel_headers::with_retry_metadata(
            crate::tunnel_headers::problem_contents(),
            retryable,
            reason,
        )
        &&& self.body matches LocalBody::Problem(problem) && {
            &&& crate::tunnel_request::problem_of(problem, 503, detail)
            &&& problem.title@ == "Service Unavailable"@
        }
        &&& self.failure matches Some(failure) && {
            &&& failure.count == (FailureCount { retryable, status: 503 })
            &&& failure.reason@ == reason
        }
    }

    /// The answer to a request that the local queue is too long for.
    pub open spec fn rejects(&self, decision: QueueAdmissionDecision) -> bool {
        &&& decision matches QueueAdmissionDecision::Rejected { expected_ms, actual_ms, threshold_ms, retry_after_ms }
        &&& self.status == 429
        &&& crate::headers::header_contents(self.headers) == crate::tunnel_headers::with_retry_after(
            crate::tunnel_headers::with_retry_metadata(
                crate::tunnel_headers::problem_contents(),
                true,
                RETRY_REASON_QUEUE_ESTIMATE_MISMATCH@,
            ),
            retry_after_ms,
        )
        &&& self.body matches LocalBody::QueueMismatch {
            problem,
            reason,
            expected_queue_ms,
            actual_queue_ms,
            threshold_ms: told_threshold,
        } && {
            &&& problem.problem_type@ == crate::tunnel_request::PROBLEM_TYPE_BLANK@
            &&& problem.title@ == "Too Many Requests"@
            &&& problem.status == 429
            &&& problem.detail@ == "local queue estimate exceeded Stargate routing estimate"@
            &&& reason@ == RETRY_REASON_QUEUE_ESTIMATE_MISMATCH@
            &&& expected_queue_ms == expected_ms
            &&& actual_queue_ms == actual_ms
            &&& told_threshold == threshold_ms
        }
        &&& self.failure matches Some(failure) && {
            &&& failure.count == (FailureCount { retryable: true, status: 429 })
            &&& failure.reason@ == RETRY_REASON_QUEUE_ESTIMATE_MISMATCH@
        }
    }

    fn bad_request(detail: &str) -> (response: Self)
        ensures
            response.refuses(detail@),
    {
        LocalResponse {
            status: 400,
            headers: problem_response_headers(),
            body: LocalBody::Problem(problem_details_body(400, detail)),
            failure: None,
        }
    }

    fn generation_unavailable() -> (response: Self)
        ensures
            response.sends_away(
                true,
                RETRY_REASON_MODEL_GENERATION_UNAVAILABLE@,
                "model generation is not admitted for request routing"@,
            ),
    {
        LocalResponse {
            status: 503,
            headers: model_generation_unavailable_headers(),
            body: LocalBody::Problem(
                problem_details_body(503, "model generation is not admitted for request routing"),
            ),
            failure: Some(
                CountedFailure {
                    count: FailureCount { retryable: true, status: 503 },
                    reason: RETRY_REASON_MODEL_GENERATION_UNAVAILABLE,
                },
            ),
        }
    }

    fn connect_failure(retryable: bool) -> (response: Self)
        ensures
            response.sends_away(
                retryable,
                RETRY_REASON_LOCAL_CONNECT_FAILURE@,
                "local upstream connection failed"@,
            ),
    {
        LocalResponse {
            status: 503,
            headers: local_connect_failure_headers(retryable),
            body: LocalBody::Problem(problem_details_body(503, "local upstream connection failed")),
            failure: Some(
                CountedFailure {
                    count: FailureCount { retryable, status: 503 },
                    reason: RETRY_REASON_LOCAL_CONNECT_FAILURE,
                },
            ),
        }
    }

    fn queue_mismatch(decision: &QueueAdmissionDecision) -> (response: Option<Self>)
        ensures
            match response {
                Some(response) => response.rejects(*decision),
                None => !(decision is Rejected),
            },
    {
        match decision {
            QueueAdmissionDecision::Rejected { expected_ms, actual_ms, threshold_ms, .. } => Some(
                LocalResponse {
                    status: 429,
                    headers: queue_mismatch_response_headers(decision),
                    body: LocalBody::QueueMismatch {
                        problem: ProblemDetails {
                            problem_type: PROBLEM_TYPE_BLANK,
                            title: "Too Many Requests".to_string(),
                            status: 429,
                            detail: "local queue estimate exceeded Stargate routing estimate".to_string(),
                        },
                        reason: RETRY_REASON_QUEUE_ESTIMATE_MISMATCH,
                        expected_queue_ms: *expected_ms,
                        actual_queue_ms: *actual_ms,
                        threshold_ms: *threshold_ms,
                    },
                    failure: Some(
                        CountedFailure {
                            count: FailureCount { retryable: true, status: 429 },
                            reason: RETRY_REASON_QUEUE_ESTIMATE_MISMATCH,
                        },
                    ),
                },
            ),
            _ => None,
        }
    }
}

/// A request on its way.
#[derive(Debug)]
pub struct TunnelForward {
    pub method: String,
    pub path_and_query: String,
    pub health_request: bool,
    pub endpoint: Option<RequestObservationEndpoint>,
    /// None for a request for the health of the server.
    pub lifecycle: Option<TunnelRequestLifecycle>,
}

/// What a request starts with.
#[derive(Debug)]
pub enum TunnelStart {
    /// The request is answered at once.
    Respond(LocalResponse),
    /// The body of the request is to be read.
    ReadBody(TunnelForward, Option<PublishedObservation>),
}

/// The request asks for the health of the server.
pub open spec fn health_path(path_and_query: Seq<char>) -> bool {
    crate::text::before_first(path_and_query, '?') == "/health"@
}

/// Requests for the model are not served now.
pub open spec fn unavailable(state: PylonRuntimeState, model_id: Seq<char>) -> bool {
    if state.models().contains_key(model_id) {
        state.models()[model_id].publication is Pending
    } else {
        state.requires_admitted()
    }
}

/// What is followed of the request from its start.
pub open spec fn follows(
    lifecycle: TunnelRequestLifecycle,
    app: TunnelServerApp,
    contents: crate::headers::HeaderContents,
    endpoint: Option<RequestObservationEndpoint>,
    before: PylonRuntimeState,
    after: PylonRuntimeState,
    now: u64,
) -> bool {
    &&& lifecycle.wf()
    &&& crate::tunnel_request::read_from(lifecycle.required, contents)
    &&& lifecycle.required.accepted_at == now
    &&& crate::runtime_state::owned_generation(lifecycle.generation) == crate::runtime_state::generation_of(
        before.models(),
        lifecycle.required.model_id@,
    )
    &&& lifecycle.queue_request is None
    &&& labelled(lifecycle.quality_label, app, endpoint, contents)
    &&& match (endpoint, lifecycle.observer) {
        (Some(endpoint), Some(observer)) => {
            &&& crate::request_observer::accepted_observation(
                observer.observer().observation(),
                endpoint,
                lifecycle.required,
            )
            &&& observer.observer().accepted_at() == now
            &&& crate::request_observer::moved(
                before,
                after,
                crate::queue_admission::observed_requests(
                    before.requests(),
                    observer.observer().observation(),
                    crate::runtime_state::owned_generation(lifecycle.generation),
                ),
            )
        },
        (None, None) => after == before,
        _ => false,
    }
}

impl TunnelForward {
    /// Takes a request up from its head.
    pub fn begin(
        app: &TunnelServerApp,
        method: String,
        path_and_query: String,
        request_headers: &HeaderMap<HeaderValue>,
        state: &mut PylonRuntimeState,
        now: u64,
    ) -> (start: TunnelStart)
        requires
            old(state).wf(),
            app.upstream_health_paths.wf(),
        ensures
            ({
                let contents = crate::headers::header_contents(*request_headers);
                match start {
                    TunnelStart::Respond(response) => {
                        &&& *final(state) == *old(state)
                        &&& !health_path(path_and_query@)
                        &&& match crate::tunnel_request::header_fault(contents) {
                            Some(fault) => response.refuses(fault.text()),
                            None => {
                                &&& unavailable(
                                    *old(state),
                                    crate::tunnel_request::filled_text(contents, HEADER_MODEL@)->0,
                                )
                                &&& response.sends_away(
                                    true,
                                    RETRY_REASON_MODEL_GENERATION_UNAVAILABLE@,
                                    "model generation is not admitted for request routing"@,
                                )
                            },
                        }
                    },
                    TunnelStart::ReadBody(forward, published) => {
                        &&& forward.method == method
                        &&& forward.health_request == health_path(path_and_query@)
                        &&& forward.endpoint == crate::tunnel_request::observed_endpoint(method@, path_and_query@)
                        &&& if health_path(path_and_query@) {
                            &&& *final(state) == *old(state)
                            &&& published is None
                            &&& forward.lifecycle is None
                            &&& forward.path_and_query@ == crate::tunnel_request::probe_with_query(
                                app.upstream_health_paths.candidates()[match app.upstream_health_paths.resolved() {
                                    Some(index) => index as int,
                                    None => 0,
                                }],
                                path_and_query@,
                            )
                        } else {
                            &&& forward.path_and_query == path_and_query
                            &&& crate::tunnel_request::header_fault(contents) is None
                            &&& forward.lifecycle matches Some(lifecycle)
                            &&& !unavailable(*old(state), lifecycle.required.model_id@)
                            &&& follows(lifecycle, *app, contents, forward.endpoint, *old(state), *final(state), now)
                            &&& match (lifecycle.observer, published) {
                                (Some(observer), Some(published)) => published.tells(
                                    old(state).models(),
                                    old(state).requests(),
                                    observer.observer().observation(),
                                    observer.observer().generation(),
                                ),
                                (None, None) => true,
                                _ => false,
                            }
                        }
                    },
                }
            }),
    {
        let health_request = is_health_request_path(path_and_query.as_str());
        let endpoint = request_observation_endpoint(method.as_str(), path_and_query.as_str());
        if health_request {
            let path_and_query = health_probe_path_and_query(&app.upstream_health_paths, path_and_query.as_str());
            return TunnelStart::ReadBody(
                TunnelForward { method, path_and_query, health_request, endpoint, lifecycle: None },
                None,
            );
        }
        let required = match validate_required_tunnel_headers(request_headers, now) {
            Ok(required) => required,
            Err(error) => {
                return TunnelStart::Respond(LocalResponse::bad_request(error.message()));
            },
        };
        let generation = match state.request_generation_admission(required.model_id.as_str()) {
            RequestGenerationAdmission::Admitted(generation) => Some(generation),
            RequestGenerationAdmission::Ungated => None,
            RequestGenerationAdmission::Unavailable => {
                return TunnelStart::Respond(LocalResponse::generation_unavailable());
            },
        };
        let (lifecycle, published) = TunnelRequestLifecycle::new(
            app,
            endpoint,
            request_headers,
            required,
            generation,
            state,
        );
        TunnelStart::ReadBody(
            TunnelForward { method, path_and_query, health_request, endpoint, lifecycle: Some(lifecycle) },
            published,
        )
    }
}

/// What became of a request whose body has come.
#[derive(Debug)]
pub struct BodyAdmission {
    /// The answer to a request that goes no further.
    pub response: Option<LocalResponse>,
    /// What the queue made of it, if it got there.
    pub decision: Option<QueueAdmissionDecision>,
    pub published: Option<PublishedObservation>,
}

/// A request to the upstream server.
#[derive(Debug)]
pub struct UpstreamRequest {
    pub url: String,
    pub headers: HeaderMap<HeaderValue>,
    /// The priority that the engine was told.
    pub engine_priority: Option<i32>,
    pub published: Option<PublishedObservation>,
}

/// Why no request to the upstream server could be made.
#[derive(Clone, Copy, Debug, PartialEq, Eq, Structural)]
pub enum UpstreamBuildError {
    TooManyHeaders,
    Url(JoinBasePathError),
}

/// How a response is passed on.
#[derive(Clone, Copy, Debug, PartialEq, Eq, Structural)]
pub enum RelayMode {
    /// Message by message; each is observed.
    Events,
    /// As it comes.
    Body,
}

/// The priority that a request carries.
pub open spec fn request_priority_of(lifecycle: Option<TunnelRequestLifecycle>) -> Option<u32> {
    match lifecycle {
        Some(lifecycle) => lifecycle.required.priority,
        None => None,
    }
}

impl TunnelForward {
    /// Nothing but what is followed of the request differs.
    pub open spec fn same_head(&self, other: &TunnelForward) -> bool {
        &&& self.method == other.method
        &&& self.path_and_query == other.path_and_query
        &&& self.health_request == other.health_request
        &&& self.endpoint == other.endpoint
        &&& self.lifecycle is Some == other.lifecycle is Some
    }

    /// The body of the request has come; `embedding_items` is what it asks to
    /// embed.
    pub fn observe_body(&mut self, embedding_items: Option<u64>)
        ensures
            final(self).same_head(old(self)),
            match (old(self).lifecycle, final(self).lifecycle) {
                (Some(before), Some(after)) => {
                    &&& after.same_request(&before)
                    &&& after.queue_request == before.queue_request
                    &&& match (before.observer, after.observer) {
                        (Some(before), Some(after)) => {
                            &&& after.observer().same_request(&before.observer())
                            &&& after.observer().observation() == (if before.streaming()
                                || before.observer().terminal() {
                                before.observer().observation()
                            } else {
                                crate::request_observer::with_items(
                                    before.observer().observation(),
                                    embedding_items,
                                )
                            })
                        },
                        (None, None) => true,
                        _ => false,
                    }
                },
                (None, None) => true,
                _ => false,
            },
    {
        if let Some(lifecycle) = &mut self.lifecycle {
            if let Some(observer) = &mut lifecycle.observer {
                observer.observe_request_body(embedding_items);
            }
        }
    }

    /// Judges the body and asks the queue. A request for the health of the
    /// server goes on as it is.
    pub fn admit_body<F: Fn(u64, Binary64) -> Option<u64>, G: Fn(u64, Binary64) -> u64>(
        &mut self,
        app: &TunnelServerApp,
        request_headers: &HeaderMap<HeaderValue>,
        body_bytes: &[u8],
        state: &mut PylonRuntimeState,
        queue_time_delta_ms: &F,
        scale_ms: &G,
        now: u64,
    ) -> (admission: BodyAdmission)
        requires
            old(state).wf(),
            old(self).lifecycle is Some ==> crate::tunnel_request::nested_within_limit(body_bytes@),
            forall|tokens: u64, rate: Binary64| call_requires(*queue_time_delta_ms, (tokens, rate)),
            forall|ms: u64, factor: Binary64| call_requires(*scale_ms, (ms, factor)),
        ensures
            final(self).same_head(old(self)),
            match (old(self).lifecycle, final(self).lifecycle) {
                (Some(before), Some(after)) => match crate::tunnel_request::body_fault(
                    old(self).endpoint,
                    crate::tunnel_request::json_flag(body_bytes@, "stream"@),
                ) {
                    Some(fault) => {
                        &&& admission.response matches Some(response) && response.refuses(fault.text())
                        &&& admission.decision is None
                        &&& after.same_request(&before)
                        &&& after.queue_request == before.queue_request
                        &&& observer_took(
                            before.observer,
                            after.observer,
                            (ObservedStep::Ended { state: RequestObservationState::Failed }),
                            now,
                        )
                        &&& crate::request_observer::moved(
                            *old(state),
                            *final(state),
                            observed_step(
                                before.observer,
                                old(state).models(),
                                old(state).requests(),
                                (ObservedStep::Ended { state: RequestObservationState::Failed }),
                                now,
                            ),
                        )
                        &&& told(
                            admission.published,
                            before.observer,
                            old(state).models(),
                            old(state).requests(),
                            (ObservedStep::Ended { state: RequestObservationState::Failed }),
                            now,
                        )
                    },
                    None => {
                        &&& before.wf() ==> after.wf()
                        &&& admission.decision matches Some(decision) && {
                            &&& queue_admitted(
                                before,
                                after,
                                *app,
                                crate::headers::header_contents(*request_headers),
                                *old(state),
                                *final(state),
                                decision,
                                admission.published,
                                *queue_time_delta_ms,
                                *scale_ms,
                                now,
                            )
                            &&& match admission.response {
                                Some(response) => response.rejects(decision),
                                None => !(decision is Rejected),
                            }
                        }
                    },
                },
                (None, None) => {
                    &&& admission.response is None
                    &&& admission.decision is None
                    &&& admission.published is None
                    &&& *final(state) == *old(state)
                },
                _ => false,
            },
    {
        let lifecycle = match &mut self.lifecycle {
            Some(lifecycle) => lifecycle,
            None => {
                return BodyAdmission { response: None, decision: None, published: None };
            },
        };
        match validate_request_body(self.endpoint, body_bytes) {
            Ok(()) => {},
            Err(fault) => {
                let published = lifecycle.fail(state, now);
                return BodyAdmission {
                    response: Some(LocalResponse::bad_request(fault.message())),
                    decision: None,
                    published,
                };
            },
        }
        let (decision, published) = lifecycle.admit_queue(
            app,
            request_headers,
            state,
            queue_time_delta_ms,
            scale_ms,
            now,
        );
        BodyAdmission { response: LocalResponse::queue_mismatch(&decision), decision: Some(decision), published }
    }

    /// Makes the request to the upstream server. It counts as sent once it can
    /// be made.
    pub fn send_upstream_request(
        &mut self,
        app: &TunnelServerApp,
        request_headers: &HeaderMap<HeaderValue>,
        state: &mut PylonRuntimeState,
        now: u64,
    ) -> (request: Result<UpstreamRequest, UpstreamBuildError>)
        requires
            old(state).wf(),
        ensures
            final(self).same_head(old(self)),
            ({
                let base = app.upstream_http_base_url@;
                let path = crate::upstream_health::rooted(old(self).path_and_query@);
                match request {
                    Ok(request) => {
                        &&& crate::tunnel_request::parsed_url(base) is Some
                        &&& crate::tunnel_request::joined_url(base, path) == Some(request.url@)
                        &&& crate::headers::header_contents(request.headers)
                            == crate::tunnel_headers::upstream_contents(
                            crate::headers::header_contents(*request_headers),
                            app.retry,
                            app.upstream_backend,
                            request_priority_of(old(self).lifecycle),
                            app.priority_ceiling,
                            old(self).health_request,
                        )
                        &&& if !old(self).health_request && app.upstream_backend is Dynamo {
                            request.engine_priority matches Some(priority) && priority
                                == crate::tunnel_backend::engine_priority(
                                request_priority_of(old(self).lifecycle),
                                app.priority_ceiling,
                            )
                        } else {
                            request.engine_priority is None
                        }
                        &&& match (old(self).lifecycle, final(self).lifecycle) {
                            (Some(before), Some(after)) => {
                                let requests = queue_moved(
                                    before.queue_request,
                                    old(state).requests(),
                                    TrackedPromptPhase::InputProcessing,
                                );
                                &&& after.same_request(&before)
                                &&& after.queue_request == before.queue_request
                                &&& observer_took(before.observer, after.observer, ObservedStep::Sent, now)
                                &&& crate::request_observer::moved(
                                    *old(state),
                                    *final(state),
                                    observed_step(
                                        before.observer,
                                        old(state).models(),
                                        requests,
                                        ObservedStep::Sent,
                                        now,
                                    ),
                                )
                                &&& told(
                                    request.published,
                                    before.observer,
                                    old(state).models(),
                                    requests,
                                    ObservedStep::Sent,
                                    now,
                                )
                            },
                            (None, None) => request.published is None && *final(state) == *old(state),
                            _ => false,
                        }
                    },
                    Err(error) => {
                        &&& *final(self) == *old(self)
                        &&& *final(state) == *old(state)
                        &&& match error {
                            UpstreamBuildError::TooManyHeaders => crate::headers::header_contents(
                                *request_headers,
                            ).len() >= crate::headers::HEADER_ROOM,
                            UpstreamBuildError::Url(JoinBasePathError::InvalidBase) => {
                                crate::tunnel_request::parsed_url(base) is None
                            },
                            UpstreamBuildError::Url(JoinBasePathError::JoinFailed) => {
                                &&& crate::tunnel_request::parsed_url(base) is Some
                                &&& crate::tunnel_request::joined_url(base, path) is None
                            },
                        }
                    },
                }
            }),
    {
        let priority = match &self.lifecycle {
            Some(lifecycle) => lifecycle.required.priority,
            None => None,
        };
        let (headers, engine_priority) = match upstream_request_headers(
            request_headers,
            &app.retry,
            app.upstream_backend,
            priority,
            app.priority_ceiling,
            self.health_request,
        ) {
            Ok(made) => made,
            Err(_) => {
                return Err(UpstreamBuildError::TooManyHeaders);
            },
        };
        let url = match join_base_path(app.upstream_http_base_url.as_str(), self.path_and_query.as_str()) {
            Ok(url) => url,
            Err(error) => {
                return Err(UpstreamBuildError::Url(error));
            },
        };
        let published = match &mut self.lifecycle {
            Some(lifecycle) => lifecycle.on_upstream_send(state, now),
            None => None,
        };
        Ok(UpstreamRequest { url, headers, engine_priority, published })
    }

    /// The upstream server could not be reached: the caller is told whether to
    /// try elsewhere.
    pub fn upstream_unreachable(&mut self, app: &TunnelServerApp, state: &mut PylonRuntimeState, now: u64) -> (
    outcome: (LocalResponse, Option<PublishedObservation>))
        requires
            old(state).wf(),
        ensures
            final(self).same_head(old(self)),
            outcome.0.sends_away(
                app.retry.local_connect_failures_retryable,
                RETRY_REASON_LOCAL_CONNECT_FAILURE@,
                "local upstream connection failed"@,
            ),
            match (old(self).lifecycle, final(self).lifecycle) {
                (Some(before), Some(after)) => {
                    &&& after.same_request(&before)
                    &&& after.queue_request == before.queue_request
                    &&& observer_took(
                        before.observer,
                        after.observer,
                        (ObservedStep::Ended { state: RequestObservationState::Failed }),
                        now,
                    )
                    &&& crate::request_observer::moved(
                        *old(state),
                        *final(state),
                        observed_step(
                            before.observer,
                            old(state).models(),
                            old(state).requests(),
                            (ObservedStep::Ended { state: RequestObservationState::Failed }),
                            now,
                        ),
                    )
                    &&& told(
                        outcome.1,
                        before.observer,
                        old(state).models(),
                        old(state).requests(),
                        (ObservedStep::Ended { state: RequestObservationState::Failed }),
                        now,
                    )
                },
                (None, None) => outcome.1 is None && *final(state) == *old(state),
                _ => false,
            },
    {
        let published = match &mut self.lifecycle {
            Some(lifecycle) => lifecycle.fail(state, now),
            None => None,
        };
        (LocalResponse::connect_failure(app.retry.local_connect_failures_retryable), published)
    }
}

/// What the head of a response came to.
#[derive(Debug)]
pub struct RelayStart {
    pub mode: RelayMode,
    pub answered: Option<PublishedObservation>,
    pub output: Option<PublishedObservation>,
}

/// A response is passed on message by message where its text is observed and it
/// is a stream of events.
pub open spec fn relay_mode(
    lifecycle: Option<TunnelRequestLifecycle>,
    contents: crate::headers::HeaderContents,
) -> RelayMode {
    match lifecycle {
        Some(lifecycle) => if streams(lifecycle.observer) && crate::tunnel_request::event_stream(contents) {
            RelayMode::Events
        } else {
            RelayMode::Body
        },
        None => RelayMode::Body,
    }
}

/// The response counts as output as a whole.
pub open spec fn whole_output(
    lifecycle: Option<TunnelRequestLifecycle>,
    status: u16,
    contents: crate::headers::HeaderContents,
) -> bool {
    relay_mode(lifecycle, contents) is Body && crate::bringup::success_status(status)
}

/// What the observer has seen after the head of a response.
pub open spec fn observation_after_head(observer: TunnelRequestObserver, status: u16, whole: bool, now: u64) -> RequestObservation {
    let seen = observation_after(observer.observer(), (ObservedStep::Answered { status }), now);
    if whole && observer.streaming() && !observer.observer().terminal() {
        crate::request_observer::with_message(
            seen,
            crate::request_observer::elapsed(observer.observer().accepted_at(), now),
        )
    } else {
        seen
    }
}

/// The live requests once the head of a response has been told and the queued
/// request generates output.
pub open spec fn requests_before_output(
    lifecycle: TunnelRequestLifecycle,
    models: Models,
    requests: Requests,
    status: u16,
    now: u64,
) -> Requests {
    queue_moved(
        lifecycle.queue_request,
        observed_step(lifecycle.observer, models, requests, (ObservedStep::Answered { status }), now),
        TrackedPromptPhase::OutputGeneration,
    )
}

/// The live requests after the head of a response.
pub open spec fn requests_after_head(
    lifecycle: TunnelRequestLifecycle,
    models: Models,
    requests: Requests,
    status: u16,
    whole: bool,
    now: u64,
) -> Requests {
    if whole {
        let produced = requests_before_output(lifecycle, models, requests, status, now);
        if streams(lifecycle.observer) {
            lifecycle.observer->0.observer().requests_after_step(
                models,
                produced,
                observation_after_head(lifecycle.observer->0, status, whole, now),
            )
        } else {
            produced
        }
    } else {
        observed_step(lifecycle.observer, models, requests, (ObservedStep::Answered { status }), now)
    }
}

impl TunnelForward {
    /// The head of the response. It is sent before anything else of it is
    /// looked at.
    pub fn response_head(
        app: &TunnelServerApp,
        status: u16,
        response_headers: &HeaderMap<HeaderValue>,
        now_unix_ns: u64,
    ) -> (head: Option<(HeaderMap<HeaderValue>, ResponseClass)>)
        ensures
            ({
                let response = crate::headers::header_contents(*response_headers);
                match head {
                    Some((head, class)) => {
                        &&& crate::headers::header_contents(head) == crate::tunnel_headers::with_passed(
                            crate::tunnel_headers::own_response_contents(status, response, app.retry, now_unix_ns),
                            response,
                            app.retry,
                            crate::tunnel_headers::HeaderDirection::Response,
                        )
                        &&& class.retryable == crate::tunnel_headers::is_retryable(status, response, app.retry)
                        &&& class.reason@ == crate::tunnel_headers::response_reason(status, response, app.retry)
                        &&& class.failure == (if crate::bringup::success_status(status) {
                            None
                        } else {
                            Some(FailureCount { retryable: class.retryable, status })
                        })
                        &&& class.logs_at_info == (class.retryable || !crate::bringup::success_status(status))
                    },
                    None => response.len() + 3 > crate::headers::HEADER_ROOM,
                }
            }),
    {
        match build_response_headers(status, response_headers, &app.retry, now_unix_ns) {
            Ok(head) => Some(head),
            Err(_) => None,
        }
    }

    /// The head of the response has been sent: how the rest is passed on, and
    /// what is known of the request now. A successful response that is not
    /// relayed by its messages is output as a whole.
    pub fn relay_upstream_response(
        &mut self,
        status: u16,
        response_headers: &HeaderMap<HeaderValue>,
        state: &mut PylonRuntimeState,
        now: u64,
    ) -> (start: RelayStart)
        requires
            old(state).wf(),
        ensures
            final(self).same_head(old(self)),
            ({
                let contents = crate::headers::header_contents(*response_headers);
                let whole = whole_output(old(self).lifecycle, status, contents);
                &&& start.mode == relay_mode(old(self).lifecycle, contents)
                &&& match (old(self).lifecycle, final(self).lifecycle) {
                    (Some(before), Some(after)) => {
                        &&& after.same_request(&before)
                        &&& after.queue_request == before.queue_request
                        &&& match (before.observer, after.observer) {
                            (Some(before), Some(after)) => {
                                &&& after.observer().same_request(&before.observer())
                                &&& after.observer().observation() == observation_after_head(
                                    before,
                                    status,
                                    whole,
                                    now,
                                )
                            },
                            (None, None) => true,
                            _ => false,
                        }
                        &&& crate::request_observer::moved(
                            *old(state),
                            *final(state),
                            requests_after_head(
                                before,
                                old(state).models(),
                                old(state).requests(),
                                status,
                                whole,
                                now,
                            ),
                        )
                        &&& told(
                            start.answered,
                            before.observer,
                            old(state).models(),
                            old(state).requests(),
                            (ObservedStep::Answered { status }),
                            now,
                        )
                        &&& start.output is Some == (whole && streams(before.observer)
                            && !before.observer->0.observer().terminal())
                        &&& start.output matches Some(output) ==> output.tells(
                            old(state).models(),
                            requests_before_output(before, old(state).models(), old(state).requests(), status, now),
                            observation_after_head(before.observer->0, status, whole, now),
                            before.observer->0.observer().generation(),
                        )
                    },
                    (None, None) => {
                        &&& start.answered is None
                        &&& start.output is None
                        &&& *final(state) == *old(state)
                    },
                    _ => false,
                }
            }),
    {
        let lifecycle = match &mut self.lifecycle {
            Some(lifecycle) => lifecycle,
            None => {
                return RelayStart { mode: RelayMode::Body, answered: None, output: None };
            },
        };
        let mut streaming = false;
        let mut answered: Option<PublishedObservation> = None;
        if let Some(observer) = &mut lifecycle.observer {
            streaming = observer.is_streaming();
            answered = observer.on_upstream_response_headers(state, status, now);
        }
        if streaming && is_event_stream(response_headers) {
            return RelayStart { mode: RelayMode::Events, answered, output: None };
        }
        let mut output: Option<PublishedObservation> = None;
        if 200 <= status && status < 300 {
            if let Some(guard) = &mut lifecycle.queue_request {
                state.observe_output(guard);
            }
            if let Some(observer) = &mut lifecycle.observer {
                if let Some(generated) = observer.generation_mut() {
                    output = generated.observe_output_message(state, now);
                }
            }
        }
        RelayStart { mode: RelayMode::Body, answered, output }
    }

    /// The response has been sent to its end.
    pub fn finish(&mut self, state: &mut PylonRuntimeState, now: u64) -> (published: Option<PublishedObservation>)
        requires
            old(state).wf(),
        ensures
            final(self).same_head(old(self)),
            ends(
                old(self).lifecycle,
                final(self).lifecycle,
                *old(state),
                *final(state),
                RequestObservationState::Complete,
                published,
                now,
            ),
    {
        match &mut self.lifecycle {
            Some(lifecycle) => lifecycle.finish(state, now),
            None => None,
        }
    }

    /// The request is given up.
    pub fn abandon(&mut self, state: &mut PylonRuntimeState, now: u64) -> (published: Option<PublishedObservation>)
        requires
            old(state).wf(),
        ensures
            final(self).same_head(old(self)),
            ends(
                old(self).lifecycle,
                final(self).lifecycle,
                *old(state),
                *final(state),
                RequestObservationState::Failed,
                published,
                now,
            ),
    {
        match &mut self.lifecycle {
            Some(lifecycle) => lifecycle.abandon(state, now),
            None => None,
        }
    }
}

/// A request has come to an end, and its place in the queue is given up.
pub open spec fn ends(
    before: Option<TunnelRequestLifecycle>,
    after: Option<TunnelRequestLifecycle>,
    state_before: PylonRuntimeState,
    state_after: PylonRuntimeState,
    end: RequestObservationState,
    published: Option<PublishedObservation>,
    now: u64,
) -> bool {
    match (before, after) {
        (Some(before), Some(after)) => {
            &&& after.same_request(&before)
            &&& before.wf() ==> after.wf()
            &&& observer_took(before.observer, after.observer, (ObservedStep::Ended { state: end }), now)
            &&& after.queue_request is Some == before.queue_request is Some
            &&& after.queue_request matches Some(guard) ==> guard.finished()
            &&& crate::request_observer::moved(
                state_before,
                state_after,
                ended_requests(before, state_before.models(), state_before.requests(), end, now),
            )
            &&& told(
                published,
                before.observer,
                state_before.models(),
                state_before.requests(),
                (ObservedStep::Ended { state: end }),
                now,
            )
        },
        (None, None) => published is None && state_after == state_before,
        _ => false,
    }
}

/// A request that is followed is not live any more once it has ended, whether
/// its response was sent or it was given up, as long as its generation is
/// served.
pub proof fn law_ended_request_leaves_nothing_behind(
    lifecycle: TunnelRequestLifecycle,
    models: Models,
    requests: Requests,
    end: RequestObservationState,
    now: u64,
)
    requires
        lifecycle.wf(),
        end.terminal(),
        lifecycle.observer matches Some(observer) && !observer.observer().terminal(),
        !crate::runtime_state::stale(models, crate::runtime_state::owned_generation(lifecycle.generation)),
    ensures
        ended_requests(lifecycle, models, requests, end, now) == requests.remove(lifecycle.required.request_id@),
{
    let id = lifecycle.required.request_id@;
    let observer = lifecycle.observer->0.observer();
    let left = observed_step(lifecycle.observer, models, requests, (ObservedStep::Ended { state: end }), now);
    assert(left == requests.remove(id));
    assert(crate::live_requests::observed_of(left, id) is None);
    assert(left.remove(id) =~= left);
}

/// A request that is only queued is not live any more once it has ended.
pub proof fn law_unfollowed_request_leaves_nothing_behind(
    lifecycle: TunnelRequestLifecycle,
    models: Models,
    requests: Requests,
    end: RequestObservationState,
    now: u64,
)
    requires
        lifecycle.wf(),
        lifecycle.observer is None,
        lifecycle.queue_request matches Some(guard) && !guard.finished(),
        crate::live_requests::observed_of(requests, lifecycle.required.request_id@) is None,
    ensures
        ended_requests(lifecycle, models, requests, end, now) == requests.remove(lifecycle.required.request_id@),
{
}

/// A followed request that is refused after its start, for its body or by the
/// queue, leaves the other live requests as they were and none of its own.
pub proof fn law_refused_request_leaves_no_trace(
    lifecycle: TunnelRequestLifecycle,
    app: TunnelServerApp,
    contents: crate::headers::HeaderContents,
    endpoint: RequestObservationEndpoint,
    before: PylonRuntimeState,
    after: PylonRuntimeState,
    now: u64,
    later: u64,
)
    requires
        follows(lifecycle, app, contents, Some(endpoint), before, after, now),
    ensures
        observed_step(
            lifecycle.observer,
            after.models(),
            after.requests(),
            (ObservedStep::Ended { state: RequestObservationState::Failed }),
            later,
        ) == before.requests().remove(lifecycle.required.request_id@),
        observed_step(
            lifecycle.observer,
            after.models(),
            crate::live_requests::without_queue(after.requests(), lifecycle.required.request_id@),
            (ObservedStep::Ended { state: RequestObservationState::Failed }),
            later,
        ) == before.requests().remove(lifecycle.required.request_id@),
{
    let id = lifecycle.required.request_id@;
    let unqueued = crate::live_requests::without_queue(after.requests(), id);
    assert(after.requests().remove(id) =~= before.requests().remove(id));
    assert(unqueued.remove(id) =~= before.requests().remove(id));
}

} // verus!
