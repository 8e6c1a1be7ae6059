//! What becomes of a request on its way through the tunnel.

use http::{HeaderMap, HeaderValue};
use vstd::prelude::*;

use crate::binary64::Binary64;
use crate::queue_admission::QueueAdmissionDecision;
use crate::request_observation::{RequestObservation, RequestObservationEndpoint, RequiredTunnelHeaders};
use crate::request_observer::{PublishedObservation, TunnelRequestObserver};
use crate::runtime_state::{PylonRuntimeState, RequestGenerationAdmission};
use crate::tunnel_backend::HeaderLimitReached;
use crate::tunnel_forward::{
    BodyAdmission, LocalBody, LocalResponse, OutputTokenProgress, RelayMode, RelayStart, RelayStep,
    RequestQualityMonitorConfig, StreamFault, StreamMessage, StreamOutcome, TunnelForward, TunnelForwardingConfig,
    TunnelRequestLifecycle, TunnelServerApp, TunnelStart, UpstreamBuildError, UpstreamRequest,
};
use crate::tunnel_headers::{
    build_response_headers, local_connect_failure_headers, model_generation_unavailable_headers,
    problem_response_headers, queue_mismatch_response_headers, upstream_request_headers, ResponseClass,
};
use crate::tunnel_request::{
    health_probe_path_and_query, is_event_stream, is_health_request_path, join_base_path,
    request_observation_endpoint, validate_request_body, validate_required_tunnel_headers, InvalidRequestBody,
    JoinBasePathError, RequiredHeaderError,
};

verus! {

/// Streams are judged where there is anything to judge them by, which is not so
/// by default.
pub proof fn law_streams_are_judged_where_asked(
    config: RequestQualityMonitorConfig,
    enabled: bool,
    standard: RequestQualityMonitorConfig,
)
    requires
        call_ensures(RequestQualityMonitorConfig::enabled, (&config,), enabled),
        call_ensures(<RequestQualityMonitorConfig as Default>::default, (), standard),
    ensures
        enabled <==> config.collect_quality_metrics || config.output_tokens_threshold_min is Some
            || config.output_repetition_1gram_threshold_min is Some,
        !standard.collect_quality_metrics,
        standard.output_tokens_threshold_min is None,
        standard.output_repetition_1gram_threshold_min is None,
{
}

/// How requests are forwarded where nothing is said: bodies of sixty-four
/// megabytes, events of one, thirty seconds for each output, a Dynamo engine
/// with ranks of an hour, and retries as the upstream says.
pub proof fn law_forwarding_has_standard_limits(config: TunnelForwardingConfig)
    requires
        call_ensures(<TunnelForwardingConfig as Default>::default, (), config),
    ensures
        config.max_request_body_bytes == 64 * 1024 * 1024,
        config.max_sse_buffer_bytes == 1024 * 1024,
        config.first_output_timeout == 30 * 1_000_000_000,
        config.output_chunk_timeout == 30 * 1_000_000_000,
        !config.request_quality_monitor.collect_quality_metrics,
        config.request_quality_monitor.output_tokens_threshold_min is None,
        config.request_quality_monitor.output_repetition_1gram_threshold_min is None,
        config.queue_mismatch_retry.enabled,
        config.queue_mismatch_retry.min_delta_ms == 25,
        config.queue_mismatch_retry.tolerance_factor.bits == 0x3FF4_0000_0000_0000,
        config.queue_mismatch_retry.retry_after_ms is None,
        config.retry.retryable_upstream_status_codes@ == seq![429u16, 503u16],
        config.retry.require_upstream_retry_header,
        crate::headers::header_name_text(config.retry.upstream_retry_header) == "x-stargate-upstream-retryable"@,
        config.retry.propagate_retry_after,
        !config.retry.local_connect_failures_retryable,
        config.upstream_backend is Dynamo,
        config.priority_ceiling == 3600,
        config.upstream_health_paths.resolved() is None,
        !config.metrics_enabled,
{
}

/// A server forwards as it is configured.
pub proof fn law_server_forwards_as_configured(
    id: String,
    url: String,
    forwarding: TunnelForwardingConfig,
    app: TunnelServerApp,
)
    requires
        call_ensures(TunnelServerApp::new, (id, url, forwarding), app),
    ensures
        app.inference_server_id@ == id@ && app.upstream_http_base_url@ == url@,
        app.max_request_body_bytes == forwarding.max_request_body_bytes,
        app.max_sse_buffer_bytes == forwarding.max_sse_buffer_bytes,
        app.first_output_timeout == forwarding.first_output_timeout,
        app.output_chunk_timeout == forwarding.output_chunk_timeout,
        app.request_quality_monitor == forwarding.request_quality_monitor,
        app.retry == forwarding.retry,
        app.queue_mismatch_retry == forwarding.queue_mismatch_retry,
        app.upstream_backend == forwarding.upstream_backend,
        app.priority_ceiling == forwarding.priority_ceiling,
        app.upstream_health_paths == forwarding.upstream_health_paths,
        app.metrics_enabled == forwarding.metrics_enabled,
{
}

/// The request is over as far as its observer knows.
pub open spec fn over(observer: TunnelRequestObserver) -> bool {
    let state = observer.observer().observation().state;
    state is Complete || state is Failed
}

/// A step of a request that is followed is observed and told; none is once the
/// request is over, nor of a request that is not followed.
pub open spec fn step_told(
    before: Option<TunnelRequestObserver>,
    after: Option<TunnelRequestObserver>,
    published: Option<PublishedObservation>,
) -> bool {
    &&& before is Some <==> after is Some
    &&& before is None ==> published is None
    &&& before is Some && over(before->0) ==> {
        &&& published is None
        &&& after->0.observer().observation() == before->0.observer().observation()
    }
    &&& before is Some && !over(before->0) ==> crate::observer_laws::told_as_observed(
        published,
        after->0.observer().observation(),
        before->0.observer(),
        after->0.observer(),
    )
}

/// A request that goes on ends now, complete or failed, with all that was
/// observed of it.
pub open spec fn end_observed(
    before: Option<TunnelRequestObserver>,
    after: Option<TunnelRequestObserver>,
    failed: bool,
    now: u64,
) -> bool {
    before is Some && !over(before->0) ==> {
        let first = before->0.observer().observation();
        let last = after->0.observer().observation();
        &&& last == (RequestObservation { state: last.state, total_duration: last.total_duration, ..first })
        &&& crate::observer_laws::time_between(before->0.observer().accepted_at(), now, last.total_duration)
        &&& failed ==> last.state is Failed
        &&& !failed ==> last.state is Complete
    }
}

/// No model and no other request is touched.
pub open spec fn only_touches(before: PylonRuntimeState, after: PylonRuntimeState, id: Seq<char>) -> bool {
    &&& crate::observer_laws::models_untouched(before, after)
    &&& forall|other: Seq<char>| other != id ==> {
        &&& #[trigger] after.requests().contains_key(other) == before.requests().contains_key(other)
        &&& before.requests().contains_key(other) ==> after.requests()[other] == before.requests()[other]
    }
}

/// The generation of the request is the one that its model is served in.
pub open spec fn still_served(lifecycle: TunnelRequestLifecycle, state: PylonRuntimeState) -> bool {
    lifecycle.generation matches Some(generation) && crate::serving_laws::serves(state, generation@)
}

/// What identifies the request stays.
pub open spec fn same_identity(before: TunnelRequestLifecycle, after: TunnelRequestLifecycle) -> bool {
    &&& after.required == before.required
    &&& after.generation == before.generation
    &&& after.quality_label == before.quality_label
}

/// A request fails once, is told of so, and is live no more; its handle is not
/// touched.
pub proof fn law_failed_request_is_live_no_more(
    lifecycle: &mut TunnelRequestLifecycle,
    state: &mut PylonRuntimeState,
    now: u64,
    published: Option<PublishedObservation>,
)
    requires
        lifecycle.wf(),
        state.wf(),
        call_ensures(TunnelRequestLifecycle::fail, (lifecycle, state, now), published),
    ensures
        failed_now(*old(lifecycle), *final(lifecycle), *old(state), *final(state), published, now),
{
}

/// The request has failed as far as it was followed.
pub open spec fn failed_now(
    before: TunnelRequestLifecycle,
    after: TunnelRequestLifecycle,
    state_before: PylonRuntimeState,
    state_after: PylonRuntimeState,
    published: Option<PublishedObservation>,
    now: u64,
) -> bool {
    let id = before.required.request_id@;
    &&& same_identity(before, after)
    &&& after.queue_request == before.queue_request
    &&& step_told(before.observer, after.observer, published)
    &&& end_observed(before.observer, after.observer, true, now)
    &&& only_touches(state_before, state_after, id)
    &&& before.observer is None || over(before.observer->0) ==> state_after.requests() == state_before.requests()
    &&& before.observer is Some && !over(before.observer->0) && still_served(before, state_before)
        ==> !state_after.requests().contains_key(id)
}

/// Once its response has been sent a request is complete, and once it is given up
/// it has failed; either way it is live no more and its handle is used up.
pub proof fn law_ended_request_is_live_no_more(
    lifecycle: &mut TunnelRequestLifecycle,
    state: &mut PylonRuntimeState,
    now: u64,
    published: Option<PublishedObservation>,
    other: &mut TunnelRequestLifecycle,
    other_state: &mut PylonRuntimeState,
    given_up: Option<PublishedObservation>,
)
    requires
        lifecycle.wf(),
        state.wf(),
        call_ensures(TunnelRequestLifecycle::finish, (lifecycle, state, now), published),
        other.wf(),
        other_state.wf(),
        call_ensures(TunnelRequestLifecycle::abandon, (other, other_state, now), given_up),
    ensures
        ended_now(*old(lifecycle), *final(lifecycle), *old(state), *final(state), published, false, now),
        ended_now(*old(other), *final(other), *old(other_state), *final(other_state), given_up, true, now),
{
}

/// The request has come to its end and has left the queue.
pub open spec fn ended_now(
    before: TunnelRequestLifecycle,
    after: TunnelRequestLifecycle,
    state_before: PylonRuntimeState,
    state_after: PylonRuntimeState,
    published: Option<PublishedObservation>,
    failed: bool,
    now: u64,
) -> bool {
    let id = before.required.request_id@;
    let live = state_after.requests();
    &&& same_identity(before, after)
    &&& step_told(before.observer, after.observer, published)
    &&& end_observed(before.observer, after.observer, failed, now)
    &&& before.queue_request is Some <==> after.queue_request is Some
    &&& after.queue_request is Some ==> after.queue_request->0.finished()
    &&& only_touches(state_before, state_after, id)
    &&& before.observer is Some && !over(before.observer->0) && still_served(before, state_before)
        ==> !live.contains_key(id)
    &&& before.queue_request is Some && !before.queue_request->0.finished() && live.contains_key(id)
        ==> live[id].queue is None
    &&& (before.observer is None || over(before.observer->0)) && (before.queue_request is None
        || before.queue_request->0.finished()) ==> live == state_before.requests()
}

/// A request that goes upstream connects, and a queued one is being processed
/// from then on.
pub proof fn law_sent_request_is_being_processed(
    lifecycle: &mut TunnelRequestLifecycle,
    state: &mut PylonRuntimeState,
    now: u64,
    published: Option<PublishedObservation>,
)
    requires
        lifecycle.wf(),
        state.wf(),
        call_ensures(TunnelRequestLifecycle::on_upstream_send, (lifecycle, state, now), published),
    ensures
        sent_now(*old(lifecycle), *final(lifecycle), *old(state), *final(state), published, now),
{
    if old(lifecycle).observer is None {
        assert(final(state).requests().dom() =~= old(state).requests().dom());
    }
}

/// The request has been sent upstream.
pub open spec fn sent_now(
    before: TunnelRequestLifecycle,
    after: TunnelRequestLifecycle,
    state_before: PylonRuntimeState,
    state_after: PylonRuntimeState,
    published: Option<PublishedObservation>,
    now: u64,
) -> bool {
    let id = before.required.request_id@;
    &&& same_identity(before, after)
    &&& after.queue_request == before.queue_request
    &&& step_told(before.observer, after.observer, published)
    &&& before.observer is Some && !over(before.observer->0) ==> {
        let first = before.observer->0.observer().observation();
        let last = after.observer->0.observer().observation();
        &&& last == (RequestObservation { state: last.state, total_duration: last.total_duration, ..first })
        &&& crate::observer_laws::time_between(before.observer->0.observer().accepted_at(), now, last.total_duration)
        &&& last.state is UpstreamConnecting
        &&& still_served(before, state_before) ==> crate::observer_laws::load_follows(
            state_before,
            state_after,
            after.observer->0.observer(),
        )
    }
    &&& only_touches(state_before, state_after, id)
    &&& before.observer is None && before.queue_request is Some ==> queue_at_least(
        state_before,
        state_after,
        id,
        false,
    )
    &&& before.observer is None && before.queue_request is None ==> state_after.requests() == state_before.requests()
}

/// The queued request is being processed, or generates where `output` says so,
/// and nothing else of it has changed. A later phase stays.
pub open spec fn queue_at_least(
    before: PylonRuntimeState,
    after: PylonRuntimeState,
    id: Seq<char>,
    output: bool,
) -> bool {
    let queued = before.requests().contains_key(id) && before.requests()[id].queue is Some;
    &&& after.requests().dom() == before.requests().dom()
    &&& !queued ==> after.requests() == before.requests()
    &&& queued ==> {
        let was = before.requests()[id].queue->0;
        let moved = after.requests()[id].queue->0;
        &&& after.requests()[id].queue is Some
        &&& moved == (crate::queue_model::TrackedView { phase: moved.phase, ..was })
        &&& output ==> moved.phase is OutputGeneration
        &&& !output && was.phase is Pending ==> moved.phase is InputProcessing
        &&& !output && !(was.phase is Pending) ==> moved.phase == was.phase
    }
}

/// A stream of a request whose text is not followed is broken off. One that ends
/// without output is a failure, and after output it is done; messages without
/// output are passed on and change nothing.
pub proof fn law_streams_end_only_after_output(
    lifecycle: &mut TunnelRequestLifecycle,
    message: Option<StreamMessage>,
    saw_output: &mut bool,
    state: &mut PylonRuntimeState,
    now: u64,
    outcome: StreamOutcome,
)
    requires
        lifecycle.wf(),
        state.wf(),
        call_ensures(
            TunnelRequestLifecycle::observe_sse_message,
            (lifecycle, message, saw_output, state, now),
            outcome,
        ),
    ensures
        ({
            let before = *old(lifecycle);
            let after = *final(lifecycle);
            let follows_text = before.observer is Some
                && !(before.observer->0.observer().observation().endpoint is Embeddings);
            &&& outcome.step is Err <==> !follows_text || message is None && !*old(saw_output)
            &&& !follows_text ==> outcome.step->Err_0 is ObserverMissing
            &&& follows_text && outcome.step is Err ==> outcome.step->Err_0 is EndedBeforeOutput
            &&& outcome.step is Ok ==> (outcome.step->Ok_0 is Done <==> message is None)
            &&& *final(saw_output) <==> *old(saw_output) || follows_text && message is Some
                && message->0 is Output
            &&& !follows_text || message is None && *old(saw_output) || message is Some && message->0 is Other ==> {
                &&& *final(state) == *old(state)
                &&& after.observer == before.observer
                &&& outcome.output is None
            }
            &&& message is None || message->0 is Other ==> outcome.tokens is None
            &&& follows_text && message is None && !*old(saw_output) ==> failed_now(
                before,
                after,
                *old(state),
                *final(state),
                outcome.output,
                now,
            )
            &&& same_identity(before, after)
            &&& after.queue_request == before.queue_request
            &&& follows_text && message is Some && message->0 is Output && over(before.observer->0) ==> {
                &&& outcome.output is None && outcome.tokens is None
                &&& !*old(saw_output) && before.queue_request is Some ==> queue_at_least(
                    *old(state),
                    *final(state),
                    before.required.request_id@,
                    true,
                )
                &&& *old(saw_output) || before.queue_request is None ==> final(state).requests() == old(
                    state
                ).requests()
            }
        }),
{
    if lifecycle.observer is Some && over(lifecycle.observer->0) {
        assert(final(state).requests().dom() =~= old(state).requests().dom());
    }
}

/// A message with output counts once. A count of the tokens so far takes the
/// place of what was counted, and an estimate adds to it. Both are told, and the
/// live request generates.
pub proof fn law_output_is_counted_as_the_upstream_counts(
    lifecycle: &mut TunnelRequestLifecycle,
    progress: Option<OutputTokenProgress>,
    saw_output: &mut bool,
    state: &mut PylonRuntimeState,
    now: u64,
    outcome: StreamOutcome,
)
    requires
        lifecycle.wf(),
        state.wf(),
        call_ensures(
            TunnelRequestLifecycle::observe_sse_message,
            (lifecycle, Some(StreamMessage::Output { progress }), saw_output, state, now),
            outcome,
        ),
        lifecycle.observer is Some,
        !(lifecycle.observer->0.observer().observation().endpoint is Embeddings),
        !over(lifecycle.observer->0),
    ensures
        ({
            let first = old(lifecycle).observer->0.observer();
            let last = final(lifecycle).observer->0.observer();
            let before = first.observation();
            let after = last.observation();
            &&& after == (RequestObservation {
                state: after.state,
                output_messages: after.output_messages,
                output_tokens: after.output_tokens,
                output_tokens_explicit: after.output_tokens_explicit,
                output_tokens_from_chunk_usage: after.output_tokens_from_chunk_usage,
                time_to_first_output: after.time_to_first_output,
                time_to_first_token: after.time_to_first_token,
                total_duration: after.total_duration,
                ..before
            })
            &&& crate::observer_laws::time_between(first.accepted_at(), now, after.total_duration)
            &&& after.state is OutputGeneration
            &&& before.output_messages < u64::MAX ==> after.output_messages == before.output_messages + 1
            &&& crate::observer_laws::noted_once(
                before.time_to_first_output,
                after.time_to_first_output,
                after.total_duration,
            )
            &&& progress is None ==> {
                &&& after.output_tokens == before.output_tokens
                &&& after.output_tokens_explicit == before.output_tokens_explicit
                &&& after.time_to_first_token == before.time_to_first_token
                &&& outcome.tokens is None
            }
            &&& progress matches Some(OutputTokenProgress::ExplicitCumulative { tokens, .. }) ==> {
                &&& after.output_tokens == tokens
                &&& after.output_tokens_explicit && after.output_tokens_from_chunk_usage
                &&& tokens > 0 ==> crate::observer_laws::noted_once(
                    before.time_to_first_token,
                    after.time_to_first_token,
                    after.total_duration,
                )
            }
            &&& progress matches Some(OutputTokenProgress::EstimatedDelta { delta }) ==> {
                &&& before.output_tokens + delta <= u64::MAX ==> after.output_tokens == before.output_tokens + delta
                &&& after.output_tokens_explicit == before.output_tokens_explicit
                &&& after.output_tokens_from_chunk_usage == before.output_tokens_from_chunk_usage
                &&& delta > 0 ==> crate::observer_laws::noted_once(
                    before.time_to_first_token,
                    after.time_to_first_token,
                    after.total_duration,
                )
            }
            &&& outcome.output is Some
            &&& outcome.output->0.event.observation.state is OutputGeneration
            &&& outcome.output->0.event.observation.output_messages == after.output_messages
            &&& outcome.output->0.event.observation.output_tokens == before.output_tokens
            &&& progress is Some ==> crate::observer_laws::told_as_observed(outcome.tokens, after, first, last)
            &&& progress is None ==> crate::observer_laws::told_as_observed(outcome.output, after, first, last)
            &&& only_touches(*old(state), *final(state), before.request_id@)
            &&& still_served(*old(lifecycle), *old(state)) ==> crate::observer_laws::load_follows(
                *old(state),
                *final(state),
                last,
            )
        }),
{
}

/// What is said of a broken stream, and the document of a request that is turned
/// away: its reason and the three times, each under its name.
pub proof fn law_refusals_are_written_out(fault: StreamFault, message: &'static str, body: LocalBody, json: String)
    requires
        call_ensures(StreamFault::message, (fault,), message),
        call_ensures(LocalBody::json, (&body,), json),
    ensures
        fault is ObserverMissing ==> message@ == "observer missing for observed streaming request"@,
        fault is EndedBeforeOutput ==> message@ == "upstream stream ended before first output event"@,
        body matches LocalBody::Problem(problem) ==> json@ == "{\"detail\":"@ + crate::json_text::quoted(problem.detail@)
            + ",\"status\":"@ + crate::text::decimal_text(problem.status as nat) + ",\"title\":"@
            + crate::json_text::quoted(problem.title@) + ",\"type\":"@ + crate::json_text::quoted(problem.problem_type@)
            + "}"@,
        body matches LocalBody::QueueMismatch {
            problem,
            reason,
            expected_queue_ms,
            actual_queue_ms,
            threshold_ms,
        } ==> json@ == "{\"actual_queue_ms\":"@ + crate::text::decimal_text(actual_queue_ms as nat) + ",\"detail\":"@
            + crate::json_text::quoted(problem.detail@) + ",\"expected_queue_ms\":"@ + crate::text::decimal_text(
            expected_queue_ms as nat,
        ) + ",\"reason\":"@ + crate::json_text::quoted(reason@) + ",\"status\":"@ + crate::text::decimal_text(
            problem.status as nat,
        ) + ",\"threshold_ms\":"@ + crate::text::decimal_text(threshold_ms as nat) + ",\"title\":"@
            + crate::json_text::quoted(problem.title@) + ",\"type\":"@ + crate::json_text::quoted(problem.problem_type@)
            + "}"@,
{
}

/// The answer is a problem report with this status, title and detail.
pub open spec fn reports(response: LocalResponse, status: u16, title: Seq<char>, detail: Seq<char>) -> bool {
    &&& response.status == status
    &&& response.body is Problem
    &&& response.body->0.status == status
    &&& response.body->0.title@ == title
    &&& response.body->0.detail@ == detail
    &&& response.body->0.problem_type@ == "about:blank"@
}

/// The failure is counted under this status and reason.
pub open spec fn counts(response: LocalResponse, status: u16, retryable: bool, reason: Seq<char>) -> bool {
    &&& response.failure is Some
    &&& response.failure->0.count.status == status
    &&& response.failure->0.count.retryable == retryable
    &&& response.failure->0.reason@ == reason
}

/// A request for the health of the server goes to the path that answers and
/// leaves no trace. Any other is refused for the headers that it lacks, sent
/// away where its model is not open to requests, and else taken in as it came.
pub proof fn law_requests_are_taken_up_from_their_head(
    app: TunnelServerApp,
    method: String,
    path_and_query: String,
    headers: HeaderMap<HeaderValue>,
    state: &mut PylonRuntimeState,
    now: u64,
    start: TunnelStart,
    verb: &str,
    target: &str,
    health: bool,
    probe: String,
    endpoint: Option<RequestObservationEndpoint>,
    required: Result<RequiredTunnelHeaders, RequiredHeaderError>,
    message: &'static str,
    model_id: &str,
    admission: RequestGenerationAdmission,
    plain: HeaderMap<HeaderValue>,
    away: HeaderMap<HeaderValue>,
)
    requires
        state.wf(),
        app.upstream_health_paths.wf(),
        call_ensures(TunnelForward::begin, (&app, method, path_and_query, &headers, state, now), start),
        verb@ == method@,
        target@ == path_and_query@,
        call_ensures(is_health_request_path, (target,), health),
        call_ensures(health_probe_path_and_query, (&app.upstream_health_paths, target), probe),
        call_ensures(request_observation_endpoint, (verb, target), endpoint),
        call_ensures(validate_required_tunnel_headers, (&headers, now), required),
        required is Err ==> call_ensures(RequiredHeaderError::message, (required->Err_0,), message),
        required is Ok ==> model_id@ == required->Ok_0.model_id@,
        call_ensures(PylonRuntimeState::request_generation_admission, (&*state, model_id), admission),
        call_ensures(problem_response_headers, (), plain),
        call_ensures(model_generation_unavailable_headers, (), away),
    ensures
        ({
            let closed = admission is Unavailable;
            &&& start is Respond <==> !health && (required is Err || closed)
            &&& start is Respond || health ==> *final(state) == *old(state)
            &&& start matches TunnelStart::Respond(response) ==> {
                &&& required is Err ==> {
                    &&& reports(response, 400, "Bad Request"@, message@)
                    &&& response.failure is None
                    &&& crate::headers::header_contents(response.headers) == crate::headers::header_contents(plain)
                }
                &&& required is Ok ==> {
                    &&& reports(
                        response,
                        503,
                        "Service Unavailable"@,
                        "model generation is not admitted for request routing"@,
                    )
                    &&& counts(response, 503, true, "model_generation_unavailable"@)
                    &&& crate::headers::header_contents(response.headers) == crate::headers::header_contents(away)
                }
            }
            &&& start matches TunnelStart::ReadBody(forward, published) ==> {
                &&& forward.method@ == method@
                &&& forward.health_request == health
                &&& forward.endpoint == endpoint
                &&& forward.lifecycle is None <==> health
                &&& health ==> forward.path_and_query@ == probe@ && published is None
                &&& !health ==> {
                    let lifecycle = forward.lifecycle->0;
                    &&& forward.path_and_query@ == path_and_query@
                    &&& required is Ok
                    &&& taken_in(lifecycle, required->Ok_0, endpoint, now)
                    &&& crate::runtime_state::owned_generation(lifecycle.generation) == (match admission {
                        RequestGenerationAdmission::Admitted(generation) => Some(generation@),
                        _ => None,
                    })
                    &&& endpoint is None ==> published is None && *final(state) == *old(state)
                    &&& endpoint is Some ==> {
                        &&& published is Some
                        &&& published->0.event.observation == lifecycle.observer->0.observer().observation()
                        &&& crate::observer_laws::load_follows(
                            *old(state),
                            *final(state),
                            lifecycle.observer->0.observer(),
                        )
                    }
                }
            }
        }),
{
}

/// What is followed is what the headers say, from now on.
pub open spec fn taken_in(
    lifecycle: TunnelRequestLifecycle,
    required: RequiredTunnelHeaders,
    endpoint: Option<RequestObservationEndpoint>,
    now: u64,
) -> bool {
    &&& lifecycle.required.request_id@ == required.request_id@
    &&& lifecycle.required.model_id@ == required.model_id@
    &&& lifecycle.required.input_tokens == required.input_tokens
    &&& lifecycle.required.priority == required.priority
    &&& lifecycle.required.accepted_at == now
    &&& lifecycle.queue_request is None
    &&& lifecycle.observer is Some <==> endpoint is Some
    &&& endpoint is Some ==> {
        let observer = lifecycle.observer->0.observer();
        let observation = observer.observation();
        &&& observer.accepted_at() == now
        &&& observation.endpoint == endpoint->0
        &&& observation.state is Accepted
        &&& observation.request_id@ == required.request_id@
        &&& observation.model_id@ == required.model_id@
        &&& observation.input_tokens == required.input_tokens
        &&& required.priority is Some ==> observation.priority == required.priority->0
        &&& required.priority is None ==> observation.priority == 0
        &&& observation.output_tokens == 0 && observation.output_messages == 0
        &&& observation.upstream_status is None && observation.total_duration == 0
    }
}

/// The body of a request to embed brings its items; no other body does.
pub proof fn law_bodies_bring_the_items_to_embed(forward: &mut TunnelForward, items: Option<u64>, out: ())
    requires
        call_ensures(TunnelForward::observe_body, (forward, items), out),
    ensures
        same_request_head(*old(forward), *final(forward)),
        old(forward).lifecycle matches Some(before) ==> {
            let after = final(forward).lifecycle->0;
            &&& same_identity(before, after)
            &&& after.queue_request == before.queue_request
            &&& before.observer is Some <==> after.observer is Some
            &&& before.observer is Some ==> {
                &&& crate::observer_laws::notes_items(
                    before.observer->0.observer().observation(),
                    after.observer->0.observer().observation(),
                    items,
                    before.observer->0.observer().observation().endpoint is Embeddings,
                )
                &&& after.observer->0.observer().generation() == before.observer->0.observer().generation()
                &&& after.observer->0.observer().accepted_at() == before.observer->0.observer().accepted_at()
            }
        },
{
}

/// What the request asks for stays.
pub open spec fn same_request_head(before: TunnelForward, after: TunnelForward) -> bool {
    &&& after.method@ == before.method@
    &&& after.path_and_query@ == before.path_and_query@
    &&& after.health_request == before.health_request
    &&& after.endpoint == before.endpoint
    &&& after.lifecycle is Some <==> before.lifecycle is Some
}

/// A body that is refused fails its request before the queue is asked. Any other
/// request goes to the queue, under the server's configuration, and is turned
/// away exactly where that decides so. A request for the health of the server is
/// not judged at all.
pub proof fn law_bodies_are_judged_before_the_queue<
    F: Fn(u64, Binary64) -> Option<u64>,
    G: Fn(u64, Binary64) -> u64,
>(
    forward: &mut TunnelForward,
    app: TunnelServerApp,
    headers: HeaderMap<HeaderValue>,
    body: &[u8],
    state: &mut PylonRuntimeState,
    delta: F,
    scale: G,
    now: u64,
    admission: BodyAdmission,
    validated: Result<(), InvalidRequestBody>,
    message: &'static str,
    generation: Option<&crate::generation::ModelGeneration>,
    decision: QueueAdmissionDecision,
    plain: HeaderMap<HeaderValue>,
    mismatch: HeaderMap<HeaderValue>,
)
    requires
        forward.lifecycle is Some ==> forward.lifecycle->0.wf(),
        state.wf(),
        crate::tunnel_request::nested_within_limit(body@),
        crate::admission_laws::gives_one_answer(delta),
        crate::admission_laws::scales_alike(scale),
        call_ensures(
            TunnelForward::admit_body::<F, G>,
            (forward, &app, &headers, body, state, &delta, &scale, now),
            admission,
        ),
        call_ensures(validate_request_body, (forward.endpoint, body), validated),
        validated is Err ==> call_ensures(InvalidRequestBody::message, (validated->Err_0,), message),
        forward.lifecycle is Some ==> {
            &&& generation is Some <==> forward.lifecycle->0.generation is Some
            &&& generation is Some ==> generation->0@ == forward.lifecycle->0.generation->0@
            &&& call_ensures(
                PylonRuntimeState::evaluate_generation_queue_admission::<F, G>,
                (
                    &*state,
                    &app.queue_mismatch_retry,
                    &forward.lifecycle->0.required,
                    generation,
                    &headers,
                    &delta,
                    &scale,
                ),
                decision,
            )
        },
        call_ensures(problem_response_headers, (), plain),
        call_ensures(queue_mismatch_response_headers, (&decision,), mismatch),
    ensures
        same_request_head(*old(forward), *final(forward)),
        old(forward).lifecycle is None ==> {
            &&& *final(state) == *old(state)
            &&& admission.response is None && admission.decision is None && admission.published is None
        },
        old(forward).lifecycle matches Some(before) ==> {
            let after = final(forward).lifecycle->0;
            &&& validated is Err ==> {
                &&& admission.response is Some
                &&& reports(admission.response->0, 400, "Bad Request"@, message@)
                &&& admission.response->0.failure is None
                &&& crate::headers::header_contents(admission.response->0.headers)
                    == crate::headers::header_contents(plain)
                &&& admission.decision is None
                &&& failed_now(before, after, *old(state), *final(state), admission.published, now)
            }
            &&& validated is Ok ==> {
                &&& admission.decision == Some(decision)
                &&& admission.response is Some <==> decision is Rejected
                &&& decision matches QueueAdmissionDecision::Rejected { expected_ms, actual_ms, threshold_ms, .. } ==> {
                    let response = admission.response->0;
                    &&& response.status == 429
                    &&& counts(response, 429, true, "queue_estimate_mismatch"@)
                    &&& crate::headers::header_contents(response.headers) == crate::headers::header_contents(mismatch)
                    &&& response.body matches LocalBody::QueueMismatch {
                        problem,
                        reason,
                        expected_queue_ms,
                        actual_queue_ms,
                        threshold_ms: limit,
                    } && {
                        &&& problem.status == 429
                        &&& problem.title@ == "Too Many Requests"@
                        &&& problem.detail@ == "local queue estimate exceeded Stargate routing estimate"@
                        &&& problem.problem_type@ == "about:blank"@
                        &&& reason@ == "queue_estimate_mismatch"@
                        &&& expected_queue_ms == expected_ms
                        &&& actual_queue_ms == actual_ms
                        &&& limit == threshold_ms
                    }
                }
                &&& queued_or_failed(
                    before,
                    after,
                    *old(state),
                    *final(state),
                    decision,
                    admission.published,
                    now,
                )
            }
        },
{
}

/// A request that is turned away fails and is live no more; any other is queued
/// as its headers say where its generation is served.
pub open spec fn queued_or_failed(
    before: TunnelRequestLifecycle,
    after: TunnelRequestLifecycle,
    state_before: PylonRuntimeState,
    state_after: PylonRuntimeState,
    decision: QueueAdmissionDecision,
    published: Option<PublishedObservation>,
    now: u64,
) -> bool {
    let id = before.required.request_id@;
    let live = state_after.requests();
    &&& same_identity(before, after)
    &&& only_touches(state_before, state_after, id)
    &&& decision is Rejected ==> {
        &&& after.queue_request == before.queue_request
        &&& step_told(before.observer, after.observer, published)
        &&& end_observed(before.observer, after.observer, true, now)
        &&& before.observer is Some && !over(before.observer->0) && still_served(before, state_before)
            ==> !live.contains_key(id)
        &&& live.contains_key(id) ==> live[id].queue is None
    }
    &&& !(decision is Rejected) ==> {
        &&& after.observer == before.observer
        &&& published is None
        &&& after.queue_request is Some <==> still_served(before, state_before)
        &&& after.queue_request is None ==> live == state_before.requests()
        &&& after.queue_request is Some ==> {
            let queue = live[id].queue;
            &&& after.queue_request->0.request_id() == id
            &&& !after.queue_request->0.finished()
            &&& live.contains_key(id)
            &&& queue is Some
            &&& queue->0.generation == before.generation->0@
            &&& before.required.priority is Some ==> queue->0.priority == before.required.priority->0
            &&& before.required.priority is None ==> queue->0.priority == 0
            &&& queue->0.input_tokens == before.required.input_tokens
            &&& queue->0.phase is Pending
        }
    }
}

/// So decides the request itself, by the server's configuration.
pub proof fn law_queue_is_asked_by_configuration<
    F: Fn(u64, Binary64) -> Option<u64>,
    G: Fn(u64, Binary64) -> u64,
>(
    lifecycle: &mut TunnelRequestLifecycle,
    app: TunnelServerApp,
    headers: HeaderMap<HeaderValue>,
    state: &mut PylonRuntimeState,
    delta: F,
    scale: G,
    now: u64,
    outcome: (QueueAdmissionDecision, Option<PublishedObservation>),
    generation: Option<&crate::generation::ModelGeneration>,
    decision: QueueAdmissionDecision,
)
    requires
        lifecycle.wf(),
        state.wf(),
        crate::admission_laws::gives_one_answer(delta),
        crate::admission_laws::scales_alike(scale),
        call_ensures(
            TunnelRequestLifecycle::admit_queue::<F, G>,
            (lifecycle, &app, &headers, state, &delta, &scale, now),
            outcome,
        ),
        generation is Some <==> lifecycle.generation is Some,
        generation is Some ==> generation->0@ == lifecycle.generation->0@,
        call_ensures(
            PylonRuntimeState::evaluate_generation_queue_admission::<F, G>,
            (&*state, &app.queue_mismatch_retry, &lifecycle.required, generation, &headers, &delta, &scale),
            decision,
        ),
    ensures
        outcome.0 == decision,
        queued_or_failed(
            *old(lifecycle),
            *final(lifecycle),
            *old(state),
            *final(state),
            outcome.0,
            outcome.1,
            now,
        ),
{
}

/// The request goes to the server's base address under its own path, with the
/// headers that the backend is to have, and is sent from then on. One that cannot
/// be made changes nothing.
pub proof fn law_upstream_request_is_made_of_the_request(
    forward: &mut TunnelForward,
    app: TunnelServerApp,
    headers: HeaderMap<HeaderValue>,
    state: &mut PylonRuntimeState,
    now: u64,
    request: Result<UpstreamRequest, UpstreamBuildError>,
    base: &str,
    path: &str,
    url: Result<String, JoinBasePathError>,
    rank: Option<u32>,
    upstream: Result<(HeaderMap<HeaderValue>, Option<i32>), HeaderLimitReached>,
)
    requires
        forward.lifecycle is Some ==> forward.lifecycle->0.wf(),
        state.wf(),
        call_ensures(TunnelForward::send_upstream_request, (forward, &app, &headers, state, now), request),
        base@ == app.upstream_http_base_url@,
        path@ == forward.path_and_query@,
        call_ensures(join_base_path, (base, path), url),
        forward.lifecycle is None ==> rank is None,
        forward.lifecycle is Some ==> rank == forward.lifecycle->0.required.priority,
        call_ensures(
            upstream_request_headers,
            (&headers, &app.retry, app.upstream_backend, rank, app.priority_ceiling, forward.health_request),
            upstream,
        ),
    ensures
        same_request_head(*old(forward), *final(forward)),
        crate::headers::header_contents(headers).len() < 6553 ==> (request is Ok <==> url is Ok),
        request matches Ok(request) ==> {
            &&& url is Ok && request.url@ == url->Ok_0@
            &&& upstream matches Ok((made, priority)) ==> {
                &&& crate::headers::header_contents(request.headers) == crate::headers::header_contents(made)
                &&& request.engine_priority == priority
            }
            &&& old(forward).lifecycle is None ==> request.published is None && *final(state) == *old(state)
            &&& old(forward).lifecycle is Some ==> sent_now(
                old(forward).lifecycle->0,
                final(forward).lifecycle->0,
                *old(state),
                *final(state),
                request.published,
                now,
            )
        },
        request matches Err(error) ==> {
            &&& *final(forward) == *old(forward)
            &&& *final(state) == *old(state)
            &&& error matches UpstreamBuildError::Url(fault) ==> url is Err && url->Err_0 == fault
        },
{
    if old(forward).lifecycle is Some && old(forward).lifecycle->0.observer is None {
        assert(final(state).requests().dom() =~= old(state).requests().dom());
    }
}

/// Where the upstream server cannot be reached the request fails, and its sender
/// is told so and whether to try elsewhere, as is configured.
pub proof fn law_unreachable_upstream_is_told(
    forward: &mut TunnelForward,
    app: TunnelServerApp,
    state: &mut PylonRuntimeState,
    now: u64,
    outcome: (LocalResponse, Option<PublishedObservation>),
    headers: HeaderMap<HeaderValue>,
)
    requires
        forward.lifecycle is Some ==> forward.lifecycle->0.wf(),
        state.wf(),
        call_ensures(TunnelForward::upstream_unreachable, (forward, &app, state, now), outcome),
        call_ensures(local_connect_failure_headers, (app.retry.local_connect_failures_retryable,), headers),
    ensures
        same_request_head(*old(forward), *final(forward)),
        reports(outcome.0, 503, "Service Unavailable"@, "local upstream connection failed"@),
        counts(outcome.0, 503, app.retry.local_connect_failures_retryable, "local_connect_failure"@),
        crate::headers::header_contents(outcome.0.headers) == crate::headers::header_contents(headers),
        old(forward).lifecycle is None ==> outcome.1 is None && *final(state) == *old(state),
        old(forward).lifecycle is Some ==> failed_now(
            old(forward).lifecycle->0,
            final(forward).lifecycle->0,
            *old(state),
            *final(state),
            outcome.1,
            now,
        ),
{
}

/// The head of a response is made of the upstream's under the server's
/// configuration.
pub proof fn law_response_head_is_made_by_configuration(
    app: TunnelServerApp,
    status: u16,
    response: HeaderMap<HeaderValue>,
    now_unix_ns: u64,
    head: Option<(HeaderMap<HeaderValue>, ResponseClass)>,
    made: Result<(HeaderMap<HeaderValue>, ResponseClass), HeaderLimitReached>,
)
    requires
        call_ensures(TunnelForward::response_head, (&app, status, &response, now_unix_ns), head),
        call_ensures(build_response_headers, (status, &response, &app.retry, now_unix_ns), made),
    ensures
        crate::headers::header_contents(response).len() < 6550 ==> head is Some,
        head is Some && made is Ok ==> heads_agree(head->0, made->Ok_0),
{
}

/// The same headers and the same judgement.
pub open spec fn heads_agree(
    one: (HeaderMap<HeaderValue>, ResponseClass),
    two: (HeaderMap<HeaderValue>, ResponseClass),
) -> bool {
    let (one_headers, one_class) = one;
    let (two_headers, two_class) = two;
    &&& crate::headers::header_contents(one_headers) == crate::headers::header_contents(two_headers)
    &&& one_class.retryable == two_class.retryable
    &&& one_class.reason@ == two_class.reason@
    &&& one_class.failure == two_class.failure
    &&& one_class.logs_at_info == two_class.logs_at_info
}

/// A response is passed on by its messages exactly where the request's text is
/// followed and a stream of events comes. Its status is noted with the time of
/// the first head. A successful one that comes as a whole is one output.
pub proof fn law_response_is_relayed_by_kind(
    forward: &mut TunnelForward,
    status: u16,
    headers: HeaderMap<HeaderValue>,
    state: &mut PylonRuntimeState,
    now: u64,
    start: RelayStart,
    events: bool,
)
    requires
        forward.lifecycle is Some ==> forward.lifecycle->0.wf(),
        state.wf(),
        call_ensures(TunnelForward::relay_upstream_response, (forward, status, &headers, state, now), start),
        call_ensures(is_event_stream, (&headers,), events),
    ensures
        same_request_head(*old(forward), *final(forward)),
        old(forward).lifecycle is None ==> {
            &&& start.mode is Body
            &&& start.answered is None && start.output is None
            &&& *final(state) == *old(state)
        },
        old(forward).lifecycle matches Some(before) ==> {
            let after = final(forward).lifecycle->0;
            let follows_text = before.observer is Some
                && !(before.observer->0.observer().observation().endpoint is Embeddings);
            let whole = !(follows_text && events) && 200 <= status < 300;
            &&& start.mode is Events <==> follows_text && events
            &&& same_identity(before, after)
            &&& after.queue_request == before.queue_request
            &&& only_touches(*old(state), *final(state), before.required.request_id@)
            &&& before.observer is Some <==> after.observer is Some
            &&& start.answered is Some <==> before.observer is Some && !over(before.observer->0)
            &&& start.output is Some <==> whole && follows_text && !over(before.observer->0)
            &&& before.observer is Some && !over(before.observer->0) ==> answered_now(
                before.observer->0,
                after.observer->0,
                start,
                status,
                whole && follows_text,
                now,
            )
            &&& before.observer is Some && !over(before.observer->0) && still_served(before, *old(state)) && (whole
                ==> follows_text) ==> crate::observer_laws::load_follows(
                *old(state),
                *final(state),
                after.observer->0.observer(),
            )
            &&& before.observer is None && before.queue_request is Some && whole ==> queue_at_least(
                *old(state),
                *final(state),
                before.required.request_id@,
                true,
            )
            &&& before.observer is None && !whole ==> final(state).requests() == old(state).requests()
        },
{
    if old(forward).lifecycle is Some && old(forward).lifecycle->0.observer is None {
        assert(final(state).requests().dom() =~= old(state).requests().dom());
    }
}

/// The head was observed and told, and the output where the response is one.
pub open spec fn answered_now(
    before: TunnelRequestObserver,
    after: TunnelRequestObserver,
    start: RelayStart,
    status: u16,
    output: bool,
    now: u64,
) -> bool {
    let first = before.observer().observation();
    let last = after.observer().observation();
    let told = start.answered->0.event.observation;
    &&& last == (RequestObservation {
        state: last.state,
        upstream_status: last.upstream_status,
        output_messages: last.output_messages,
        time_to_response_headers: last.time_to_response_headers,
        time_to_first_output: last.time_to_first_output,
        total_duration: last.total_duration,
        ..first
    })
    &&& crate::observer_laws::time_between(before.observer().accepted_at(), now, last.total_duration)
    &&& last.upstream_status == Some(status)
    &&& told.upstream_status == Some(status)
    &&& told.state is InputProcessing
    &&& told.output_messages == first.output_messages
    &&& crate::observer_laws::noted_once(
        first.time_to_response_headers,
        last.time_to_response_headers,
        last.total_duration,
    )
    &&& output ==> {
        &&& last.state is OutputGeneration
        &&& first.output_messages < u64::MAX ==> last.output_messages == first.output_messages + 1
        &&& crate::observer_laws::noted_once(first.time_to_first_output, last.time_to_first_output, last.total_duration)
        &&& crate::observer_laws::told_as_observed(start.output, last, before.observer(), after.observer())
    }
    &&& !output ==> {
        &&& last.state is InputProcessing
        &&& last.output_messages == first.output_messages
        &&& last.time_to_first_output == first.time_to_first_output
        &&& crate::observer_laws::told_as_observed(start.answered, last, before.observer(), after.observer())
    }
}

/// A forwarded request ends as it is ended.
pub proof fn law_forwarded_request_is_live_no_more(
    forward: &mut TunnelForward,
    state: &mut PylonRuntimeState,
    now: u64,
    published: Option<PublishedObservation>,
    other: &mut TunnelForward,
    other_state: &mut PylonRuntimeState,
    given_up: Option<PublishedObservation>,
)
    requires
        forward.lifecycle is Some ==> forward.lifecycle->0.wf(),
        state.wf(),
        call_ensures(TunnelForward::finish, (forward, state, now), published),
        other.lifecycle is Some ==> other.lifecycle->0.wf(),
        other_state.wf(),
        call_ensures(TunnelForward::abandon, (other, other_state, now), given_up),
    ensures
        same_request_head(*old(forward), *final(forward)),
        same_request_head(*old(other), *final(other)),
        old(forward).lifecycle is None ==> published is None && *final(state) == *old(state),
        old(other).lifecycle is None ==> given_up is None && *final(other_state) == *old(other_state),
        old(forward).lifecycle is Some ==> ended_now(
            old(forward).lifecycle->0,
            final(forward).lifecycle->0,
            *old(state),
            *final(state),
            published,
            false,
            now,
        ),
        old(other).lifecycle is Some ==> ended_now(
            old(other).lifecycle->0,
            final(other).lifecycle->0,
            *old(other_state),
            *final(other_state),
            given_up,
            true,
            now,
        ),
{
}

/// The text of a request is judged under the model as its header has it, where
/// it is a chat, anything is to be judged and metrics are kept.
pub proof fn law_request_is_followed_from_its_start(
    app: TunnelServerApp,
    endpoint: Option<RequestObservationEndpoint>,
    headers: HeaderMap<HeaderValue>,
    required: RequiredTunnelHeaders,
    generation: Option<crate::generation::ModelGeneration>,
    state: &mut PylonRuntimeState,
    started: (TunnelRequestLifecycle, Option<PublishedObservation>),
    judges: bool,
)
    requires
        state.wf(),
        call_ensures(
            TunnelRequestLifecycle::new,
            (&app, endpoint, &headers, required, generation, state),
            started,
        ),
        call_ensures(RequestQualityMonitorConfig::enabled, (&app.request_quality_monitor,), judges),
    ensures
        ({
            let contents = crate::headers::header_contents(headers);
            let label = started.0.quality_label;
            &&& label is Some <==> endpoint == Some(RequestObservationEndpoint::ChatCompletions) && judges
                && app.metrics_enabled && contents.contains_key("x-model"@)
            &&& label is Some ==> label->0@ == contents["x-model"@][0]
            &&& taken_in(started.0, required, endpoint, required.accepted_at)
            &&& started.0.generation == generation
            &&& endpoint is None ==> started.1 is None && *final(state) == *old(state)
            &&& endpoint is Some ==> {
                &&& started.1 is Some
                &&& started.1->0.event.observation == started.0.observer->0.observer().observation()
                &&& crate::observer_laws::load_follows(*old(state), *final(state), started.0.observer->0.observer())
            }
        }),
{
}

} // verus!
