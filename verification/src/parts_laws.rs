//! What the smaller parts do by themselves: phases, handles, counts, names and
//! standard values.

use vstd::prelude::*;

use crate::binary64::Binary64;
use crate::bringup::{BringupConfig, CalibrationConfig};
use crate::build_plan::{proto_compile_plans, ProtoCompilePlan};
use crate::generated_request_id::GeneratedRequestIds;
use crate::generation::ModelGeneration;
use crate::kv_cache::KvCacheState;
use crate::live_requests::LiveRequestState;
use crate::model_stats::CurrentModelStats;
use crate::queue_admission::{PylonQueueMismatchRetryConfig, QueueAdmissionDecision, QueueTrackedRequestGuard};
use crate::queue_model::{QueueModelState, TrackedPromptPhase, TrackedPromptRequest};
use crate::relay::{
    metadata, model_registration, pool_identity, pool_load, ModelRegistration, PoolIdentity, PoolLoad,
    RelayMessageMetadata,
};
use crate::request_observation::{RequestObservation, RequestObservationState};
use crate::runtime_state::{PylonRuntimeState, RequestObservationEvent};
use crate::test_control::TestControlState;
use crate::text::contains_text;
use crate::tunnel_backend::UpstreamBackend;
use crate::tunnel_endpoint::TunnelError;
use crate::tunnel_headers::PylonRetryConfig;
use crate::tunnel_request::{is_nested_within_limit, sse_timeout_phase_name, SseReadTimeoutPhase};
use crate::upstream_health::UpstreamHealthPaths;

verus! {

/// A request waits, is processed and generates, in this order, and never goes
/// back. Waiting it stands under its own priority, being processed before all
/// that wait; once it generates, or without input, it stands in nobody's way.
pub proof fn law_phases_follow_each_other(
    one: TrackedPromptPhase,
    two: TrackedPromptPhase,
    later: TrackedPromptPhase,
    turned: TrackedPromptPhase,
    priority: u32,
    tokens: u64,
    work: Option<(u32, u64)>,
)
    requires
        call_ensures(TrackedPromptPhase::later, (one, two), later),
        call_ensures(TrackedPromptPhase::later, (two, one), turned),
        call_ensures(TrackedPromptPhase::prompt_work, (one, priority, tokens), work),
    ensures
        later == turned,
        later is Pending <==> one is Pending && two is Pending,
        later is OutputGeneration <==> one is OutputGeneration || two is OutputGeneration,
        work is None <==> tokens == 0 || one is OutputGeneration,
        one is Pending && tokens > 0 ==> work == Some((priority, tokens)),
        one is InputProcessing && tokens > 0 ==> work == Some((0u32, tokens)),
{
}

/// A request is moved on, is given a rate and leaves the queue in the live
/// requests of the state; no model is touched.
pub proof fn law_state_moves_its_requests_on(
    state: &mut PylonRuntimeState,
    guard: &mut QueueTrackedRequestGuard,
    sent_state: &mut PylonRuntimeState,
    sent: &mut QueueTrackedRequestGuard,
    ended_state: &mut PylonRuntimeState,
    ended: &mut QueueTrackedRequestGuard,
    out: (),
    other: Seq<char>,
)
    requires
        state.wf(),
        sent_state.wf(),
        ended_state.wf(),
        call_ensures(PylonRuntimeState::on_upstream_send, (state, guard), out),
        call_ensures(PylonRuntimeState::observe_output, (sent_state, sent), out),
        call_ensures(PylonRuntimeState::finish_tracked, (ended_state, ended), out),
    ensures
        crate::admission_laws::moves_on(
            old(state).requests(),
            final(state).requests(),
            old(guard).request_id(),
            TrackedPromptPhase::InputProcessing,
            other,
        ),
        crate::admission_laws::moves_on(
            old(sent_state).requests(),
            final(sent_state).requests(),
            old(sent).request_id(),
            TrackedPromptPhase::OutputGeneration,
            other,
        ),
        crate::observer_laws::models_untouched(*old(state), *final(state)),
        crate::observer_laws::models_untouched(*old(sent_state), *final(sent_state)),
        crate::observer_laws::models_untouched(*old(ended_state), *final(ended_state)),
        *final(guard) == *old(guard),
        *final(sent) == *old(sent),
        final(ended).finished() && final(ended).request_id() == old(ended).request_id(),
        old(ended).finished() ==> final(ended_state).requests() == old(ended_state).requests(),
        !old(ended).finished() ==> leaves_the_queue(
            old(ended_state).requests(),
            final(ended_state).requests(),
            old(ended).request_id(),
            other,
        ),
{
    assert(final(state).requests().dom() =~= old(state).requests().dom());
    assert(final(sent_state).requests().dom() =~= old(sent_state).requests().dom());
}

/// The request is queued no more and what was observed of it stays; no other
/// request is touched.
pub open spec fn leaves_the_queue(
    before: crate::live_requests::Requests,
    after: crate::live_requests::Requests,
    id: Seq<char>,
    other: Seq<char>,
) -> bool {
    &&& after.contains_key(id) <==> before.contains_key(id) && before[id].observed is Some
    &&& after.contains_key(id) ==> after[id].queue is None && after[id].observed == before[id].observed
        && after[id].uncounted == before[id].uncounted
    &&& other != id ==> after.contains_key(other) == before.contains_key(other)
    &&& other != id && before.contains_key(other) ==> after[other] == before[other]
}

/// So it is by name, in the state and among the live requests themselves.
pub proof fn law_named_requests_leave_the_queue(
    state: &mut PylonRuntimeState,
    live: &mut LiveRequestState,
    id: String,
    phase: TrackedPromptPhase,
    advanced: &mut LiveRequestState,
    out: (),
    other: Seq<char>,
)
    requires
        state.wf(),
        live.wf(),
        advanced.wf(),
        call_ensures(PylonRuntimeState::finish_queue_request, (state, &id), out),
        call_ensures(LiveRequestState::finish_queue_request, (live, &id), out),
        call_ensures(LiveRequestState::advance_request_phase, (advanced, &id, phase), out),
        !(phase is Pending),
    ensures
        leaves_the_queue(old(state).requests(), final(state).requests(), id@, other),
        leaves_the_queue(old(live).requests(), final(live).requests(), id@, other),
        crate::observer_laws::models_untouched(*old(state), *final(state)),
        crate::admission_laws::moves_on(
            old(advanced).requests(),
            final(advanced).requests(),
            id@,
            phase,
            other,
        ),
{
    assert(final(advanced).requests().dom() =~= old(advanced).requests().dom());
}

/// A queued request stands there as given; what was observed of it stays.
pub proof fn law_request_is_queued_as_given(
    live: &mut LiveRequestState,
    id: String,
    request: TrackedPromptRequest,
    out: (),
    other: Seq<char>,
)
    requires
        live.wf(),
        call_ensures(LiveRequestState::queue_request, (live, &id, request), out),
    ensures
        ({
            let before = old(live).requests();
            let after = final(live).requests();
            &&& after.contains_key(id@)
            &&& after[id@].queue is Some
            &&& after[id@].queue->0.generation == request.generation@
            &&& after[id@].queue->0.priority == request.priority
            &&& after[id@].queue->0.input_tokens == request.input_tokens
            &&& after[id@].queue->0.phase == request.phase
            &&& after[id@].queue->0.active_chat_output_tps == request.active_chat_output_tps
            &&& before.contains_key(id@) ==> after[id@].observed == before[id@].observed
            &&& !before.contains_key(id@) ==> after[id@].observed is None
            &&& other != id@ ==> after.contains_key(other) == before.contains_key(other)
            &&& other != id@ && before.contains_key(other) ==> after[other] == before[other]
        }),
{
}

/// A rate is taken on by the request that is queued under the name.
pub proof fn law_state_takes_on_output_rates(
    state: &mut PylonRuntimeState,
    id: String,
    rate: Option<Binary64>,
    model: Option<String>,
    other: Seq<char>,
)
    requires
        state.wf(),
        call_ensures(PylonRuntimeState::update_request_active_output_tps, (state, &id, rate), model),
    ensures
        ({
            let before = old(state).requests();
            let after = final(state).requests();
            let queued = before.contains_key(id@) && before[id@].queue is Some;
            let usable = rate is Some && 0 < rate->0.bits < 0x7FF0_0000_0000_0000;
            &&& model is Some <==> queued
            &&& !queued ==> after == before
            &&& queued ==> {
                let was = before[id@].queue->0;
                &&& model->0@ == was.generation.model_id
                &&& after.contains_key(id@)
                &&& after[id@].queue is Some
                &&& after[id@].queue->0 == (crate::queue_model::TrackedView {
                    active_chat_output_tps: after[id@].queue->0.active_chat_output_tps,
                    ..was
                })
                &&& after[id@].queue->0.active_chat_output_tps == (if usable {
                    rate
                } else {
                    None
                })
                &&& after[id@].observed == before[id@].observed
            }
            &&& other != id@ ==> after.contains_key(other) == before.contains_key(other)
            &&& other != id@ && before.contains_key(other) ==> after[other] == before[other]
        }),
        crate::observer_laws::models_untouched(*old(state), *final(state)),
{
}

/// The tracked requests are those that are queued, one by one.
pub proof fn law_tracked_requests_are_counted_once(
    live: &mut LiveRequestState,
    count: usize,
    id: String,
    request: TrackedPromptRequest,
    out: (),
    recount: usize,
    state: PylonRuntimeState,
    state_count: usize,
)
    requires
        live.wf(),
        call_ensures(LiveRequestState::tracked_request_count, (&*live,), count),
        call_ensures(LiveRequestState::queue_request, (live, &id, request), out),
        call_ensures(LiveRequestState::tracked_request_count, (&*final(live),), recount),
        state.requests() == live.requests(),
        call_ensures(PylonRuntimeState::tracked_request_count, (&state,), state_count),
    ensures
        state_count == count,
        count > 0 <==> exists|any: Seq<char>| #[trigger] old(live).requests().contains_key(any) && old(
            live,
        ).requests()[any].queue is Some,
        old(live).requests().contains_key(id@) && old(live).requests()[id@].queue is Some ==> recount == count,
        !(old(live).requests().contains_key(id@) && old(live).requests()[id@].queue is Some) ==> recount == count + 1,
{
    live.lemma_requests();
    let before = old(live).requests();
    let after = final(live).requests();
    let weight = crate::live_requests::queued();
    crate::sums::lemma_total_zero(before, weight);
    if before.contains_key(id@) {
        crate::sums::lemma_total_remove(before, weight, id@);
    } else {
        assert(before.remove(id@) =~= before);
    }
    assert(after =~= before.remove(id@).insert(id@, after[id@]));
    crate::sums::lemma_total_insert(before.remove(id@), weight, id@, after[id@]);
    if count > 0 {
        let any = choose|any: Seq<char>| before.contains_key(any) && weight(#[trigger] before[any]) != 0;
        assert(before.contains_key(any));
    }
    if exists|any: Seq<char>| #[trigger] before.contains_key(any) && before[any].queue is Some {
        let any = choose|any: Seq<char>| #[trigger] before.contains_key(any) && before[any].queue is Some;
        assert(weight(before[any]) == 1);
    }
}

/// A request belongs to the generation that it is queued under, and where it is
/// not queued to the one that it was observed in.
pub proof fn law_requests_belong_to_their_generation(
    live: LiveRequestState,
    id: String,
    generation: Option<ModelGeneration>,
    state: PylonRuntimeState,
    of_state: Option<ModelGeneration>,
)
    requires
        call_ensures(LiveRequestState::request_generation, (&live, &id), generation),
        state.requests() == live.requests(),
        call_ensures(PylonRuntimeState::request_generation, (&state, &id), of_state),
    ensures
        generation is Some <==> live.requests().contains_key(id@),
        of_state is Some <==> generation is Some,
        generation matches Some(generation) ==> {
            let request = live.requests()[id@];
            &&& request.queue is Some ==> generation@ == request.queue->0.generation
            &&& request.queue is None ==> generation@ == request.observed->0.generation
            &&& of_state->0@ == generation@
        },
{
}

/// The input tokens of a state are those of the requests that were last observed
/// in it, in that generation; a generation that is retired has none.
pub proof fn law_observed_tokens_are_those_of_the_requests(
    live: &mut LiveRequestState,
    generation: ModelGeneration,
    state: RequestObservationState,
    tokens: u128,
    out: (),
    rest: u128,
    id: Seq<char>,
)
    requires
        live.wf(),
        !(state is Complete) && !(state is Failed),
        call_ensures(LiveRequestState::observed_input_tokens, (&*live, &generation, state), tokens),
        call_ensures(LiveRequestState::retire_generation, (live, &generation), out),
        call_ensures(LiveRequestState::observed_input_tokens, (&*final(live), &generation, state), rest),
    ensures
        tokens == crate::sums::total(
            old(live).requests(),
            |request: crate::live_requests::LiveView|
                if request.observed is Some && !request.uncounted && request.observed->0.generation == generation@
                    && request.observed->0.state == state {
                    request.observed->0.input_tokens as nat
                } else {
                    0
                },
        ),
        rest == 0,
        final(live).throughput(generation@) is None,
        final(live).requests().contains_key(id) ==> {
            let request = final(live).requests()[id];
            &&& old(live).requests().contains_key(id)
            &&& request.queue == old(live).requests()[id].queue
            &&& request.observed == old(live).requests()[id].observed
            &&& request.queue is Some ==> request.queue->0.generation != generation@
        },
{
    live.lemma_requests();
    let before = old(live).requests();
    let after = final(live).requests();
    let weight = crate::live_requests::observed_weight(generation@, state);
    let stated = |request: crate::live_requests::LiveView|
        if request.observed is Some && !request.uncounted && request.observed->0.generation == generation@
            && request.observed->0.state == state {
            request.observed->0.input_tokens as nat
        } else {
            0
        };
    crate::sums::lemma_total_le(before, stated, weight);
    crate::sums::lemma_total_le(before, weight, stated);
    assert(after.dom().subset_of(before.dom()));
    vstd::set_lib::lemma_len_subset(after.dom(), before.dom());
    crate::sums::lemma_total_zero(after, weight);
    assert forall|key: Seq<char>| after.contains_key(key) implies weight(#[trigger] after[key]) == 0 by {
        assert(before.contains_key(key));
    }
}

/// What a decision is called, and the times that it was made by.
pub proof fn law_decisions_say_what_they_were_made_by(
    decision: QueueAdmissionDecision,
    label: &'static str,
    expected: Option<u64>,
    actual: Option<u64>,
    threshold: Option<u64>,
)
    requires
        call_ensures(QueueAdmissionDecision::result_label, (&decision,), label),
        call_ensures(QueueAdmissionDecision::expected_ms, (&decision,), expected),
        call_ensures(QueueAdmissionDecision::actual_ms, (&decision,), actual),
        call_ensures(QueueAdmissionDecision::threshold_ms, (&decision,), threshold),
    ensures
        decision is Disabled ==> label@ == "disabled"@ && expected is None && actual is None && threshold is None,
        decision is MissingEstimate ==> label@ == "missing_estimate"@ && expected is None && actual is None
            && threshold is None,
        decision matches QueueAdmissionDecision::UnknownLocalEstimate { expected_ms } ==> label@
            == "unknown_local_estimate"@ && expected == Some(expected_ms) && actual is None && threshold is None,
        decision matches QueueAdmissionDecision::Accepted { expected_ms, actual_ms, threshold_ms } ==> label@
            == "accepted"@ && expected == Some(expected_ms) && actual == Some(actual_ms) && threshold == Some(
            threshold_ms,
        ),
        decision matches QueueAdmissionDecision::Rejected { expected_ms, actual_ms, threshold_ms, .. } ==> label@
            == "rejected"@ && expected == Some(expected_ms) && actual == Some(actual_ms) && threshold == Some(
            threshold_ms,
        ),
{
}

/// What a relay says of itself: one relay, one pool and one worker, and the
/// moment.
pub proof fn law_relay_is_the_only_one(
    now: u64,
    sent: RelayMessageMetadata,
    model: &str,
    registration: ModelRegistration,
    pool: PoolIdentity,
    load: PoolLoad,
    i: int,
)
    requires
        call_ensures(metadata, (now,), sent),
        call_ensures(model_registration, (model,), registration),
        call_ensures(pool_identity, (), pool),
        call_ensures(pool_load, (now,), load),
        0 <= i < 16,
    ensures
        sent.drt_instance_id == 1 && sent.relay_incarnation == 1 && sent.observed_at_unix_ms == now,
        registration.model@ == model@ && registration.base_model@ == model@,
        registration.adapter is None && registration.aliases@.len() == 0,
        pool.cache_semantics_digest@.len() == 16 && pool.cache_semantics_digest@[i] == 1,
        pool.routing_scope_digest@.len() == 16 && pool.routing_scope_digest@[i] == 2,
        pool.cache_semantics_source is DefaultDerived && pool.routing_scope_source is DefaultDerived,
        pool.dc_id == 1,
        load.pool.cache_semantics_digest@ == pool.cache_semantics_digest@,
        load.pool.routing_scope_digest@ == pool.routing_scope_digest@,
        load.pool.dc_id == pool.dc_id,
        load.role is Aggregated,
        load.live_workers == Some(1u64) && load.max_concurrency == Some(1u64),
        load.active_prefill_tokens is None && load.active_decode_blocks is None,
        load.scheduler_status is Complete,
        load.scheduler_observed_at_unix_ms == now,
{
}

/// A generation is its model and its number, and two are the same where both
/// agree.
pub proof fn law_generations_are_model_and_number(
    model: &str,
    number: u64,
    generation: ModelGeneration,
    named: &str,
    counted: u64,
    other: ModelGeneration,
    same: bool,
    copy: ModelGeneration,
)
    requires
        call_ensures(ModelGeneration::new, (model, number), generation),
        call_ensures(ModelGeneration::model_id, (&generation,), named),
        call_ensures(ModelGeneration::sequence, (&generation,), counted),
        call_ensures(ModelGeneration::same, (&generation, &other), same),
        call_ensures(<ModelGeneration as Clone>::clone, (&generation,), copy),
    ensures
        generation.model_id@ == model@ && generation.sequence == number,
        named@ == model@,
        counted == number,
        same <==> other.model_id@ == model@ && other.sequence == number,
        copy.model_id@ == model@ && copy.sequence == number,
{
}

/// A number is finite and positive where its bits are, and the standard one is
/// zero.
pub proof fn law_rates_are_finite_and_positive(number: Binary64, positive: bool, zero: Binary64)
    requires
        call_ensures(Binary64::is_positive_finite, (number,), positive),
        call_ensures(<Binary64 as Default>::default, (), zero),
    ensures
        positive <==> 0 < number.bits && number.bits < 0x7FF0_0000_0000_0000,
        zero.bits == 0,
{
}

/// A text contains what stands between two others in it, and nothing longer.
pub proof fn law_texts_contain_their_parts(
    text: &str,
    needle: &str,
    found: bool,
    head: Seq<char>,
    tail: Seq<char>,
)
    requires
        call_ensures(contains_text, (text, needle), found),
    ensures
        text@ == head + needle@ + tail ==> found,
        found ==> exists|at: int|
            0 <= at <= text@.len() - needle@.len() && #[trigger] text@.subrange(at, at + needle@.len()) == needle@,
        needle@.len() > text@.len() ==> !found,
{
    let all = text@;
    if all == head + needle@ + tail {
        let at = head.len() as int;
        assert(all.subrange(at, at + needle@.len()) =~= needle@);
        assert(crate::text::occurs_at(all, needle@, at));
    }
    if found {
        let at = choose|at: int| crate::text::occurs_at(all, needle@, at);
        assert(all.subrange(at, at + needle@.len()) == needle@);
    }
}

/// Whether an observation, or its state, is the last of its request; and the name
/// of the part of a stream that was waited for.
pub proof fn law_last_observations_are_told_apart(
    state: RequestObservationState,
    terminal: bool,
    observation: RequestObservation,
    ended: bool,
    event: RequestObservationEvent,
    within: RequestObservation,
    phase: SseReadTimeoutPhase,
    name: &'static str,
)
    requires
        call_ensures(RequestObservationState::is_terminal, (state,), terminal),
        call_ensures(RequestObservation::is_terminal, (&observation,), ended),
        call_ensures(RequestObservationEvent::into_observation, (event,), within),
        call_ensures(sse_timeout_phase_name, (phase,), name),
    ensures
        terminal <==> state is Complete || state is Failed,
        ended <==> observation.state is Complete || observation.state is Failed,
        within == event.observation,
        phase is FirstOutput ==> name@ == "first"@,
        phase is SubsequentOutput ==> name@ == "subsequent"@,
{
}

/// The standard values.
pub proof fn law_standard_values(
    bringup: BringupConfig,
    calibration: CalibrationConfig,
    mismatch: PylonQueueMismatchRetryConfig,
    retry: PylonRetryConfig,
    backend: UpstreamBackend,
    paths: UpstreamHealthPaths,
    tokens: u64,
    cache: KvCacheState,
)
    requires
        call_ensures(<BringupConfig as Default>::default, (), bringup),
        call_ensures(<CalibrationConfig as Default>::default, (), calibration),
        call_ensures(<PylonQueueMismatchRetryConfig as Default>::default, (), mismatch),
        call_ensures(<PylonRetryConfig as Default>::default, (), retry),
        call_ensures(<UpstreamBackend as Default>::default, (), backend),
        call_ensures(<UpstreamHealthPaths as Default>::default, (), paths),
        call_ensures(KvCacheState::new, (tokens,), cache),
    ensures
        bringup.enabled,
        bringup.active_canary_interval == 5 * 1_000_000_000,
        bringup.canary_timeout == 5 * 1_000_000_000,
        bringup.canary_max_generation_threshold == 237,
        calibration.health_timeout == 5 * 1_000_000_000,
        calibration.calibration_requests == 5,
        calibration.calibration_prompt_units == 4096,
        calibration.calibration_max_concurrency == 4,
        calibration.calibration_timeout == 30 * 1_000_000_000,
        mismatch.enabled && mismatch.min_delta_ms == 25 && mismatch.retry_after_ms is None,
        mismatch.tolerance_factor.bits == 0x3FF4_0000_0000_0000,
        retry.retryable_upstream_status_codes@ == seq![429u16, 503u16],
        retry.require_upstream_retry_header && retry.propagate_retry_after,
        !retry.local_connect_failures_retryable,
        crate::headers::header_name_text(retry.upstream_retry_header) == "x-stargate-upstream-retryable"@,
        backend is Dynamo,
        paths.resolved() is None,
        paths.candidates() == seq!["/health"@, "/v1/health/ready"@],
        cache.capacity() == tokens,
        cache.prefixes().len() == 0,
        cache.counts().hits == 0 && cache.counts().misses == 0,
        cache.counts().evictions == 0 && cache.counts().evicted_tokens == 0,
{
    reveal_strlit("/health");
    reveal_strlit("/v1/health/ready");
    assert("/health"@.len() == 7);
    assert("/v1/health/ready"@.len() == 16);
    let none = Seq::<Seq<char>>::empty();
    assert(crate::upstream_health::configured_paths(none) =~= none);
    let first = crate::upstream_health::with_path(none, "/health"@);
    assert(first =~= seq!["/health"@]);
    assert(first[0].len() == 7);
    assert(!first.contains("/v1/health/ready"@));
    assert(paths.candidates() =~= seq!["/health"@, "/v1/health/ready"@]);
}

/// Statistics start with nothing known, and a copy is the same in each figure.
pub proof fn law_statistics_start_unknown(stats: CurrentModelStats, copied: CurrentModelStats, copy: CurrentModelStats)
    requires
        call_ensures(<CurrentModelStats as Default>::default, (), stats),
        call_ensures(<CurrentModelStats as Clone>::clone, (&copied,), copy),
    ensures
        stats.last_mean_input_tps.bits == 0 && stats.output_tps.bits == 0 && stats.embedding_item_tps.bits == 0,
        stats.max_output_tps.bits == 0 && stats.max_embedding_item_tps.bits == 0,
        stats.queue_size == 0 && stats.queued_input_size == 0 && stats.total_query_input_size == 0,
        stats.kv_cache_capacity_tokens == 0 && stats.kv_cache_used_tokens == 0 && stats.kv_cache_free_tokens == 0,
        stats.kv_cache is None && stats.max_engine_concurrency is None,
        stats.num_running_queries == 0 && stats.input_processing_queries == 0,
        stats.output_generation_queries == 0 && stats.stats_observed_at_unix_ms == 0,
        stats.queue_time_estimate_ms_by_priority is None,
        stats@.stats_capabilities.len() == 0 && stats@.stats_sources.len() == 0,
        copy.last_mean_input_tps == copied.last_mean_input_tps && copy.output_tps == copied.output_tps,
        copy.embedding_item_tps == copied.embedding_item_tps && copy.max_output_tps == copied.max_output_tps,
        copy.max_embedding_item_tps == copied.max_embedding_item_tps,
        copy.queue_size == copied.queue_size && copy.queued_input_size == copied.queued_input_size,
        copy.total_query_input_size == copied.total_query_input_size,
        copy.num_running_queries == copied.num_running_queries,
        copy.max_engine_concurrency == copied.max_engine_concurrency,
{
    assert(stats@.last_mean_input_tps == stats.last_mean_input_tps);
    assert(copy@.last_mean_input_tps == copied@.last_mean_input_tps);
}

/// The path that is marked is the one that is asked from then on.
pub proof fn law_marked_path_is_asked(
    paths: &mut UpstreamHealthPaths,
    index: usize,
    out: (),
    probe: &str,
    path: &str,
)
    requires
        paths.wf(),
        index < paths.candidates().len(),
        call_ensures(UpstreamHealthPaths::path, (&*paths, index), path),
        call_ensures(UpstreamHealthPaths::mark_resolved, (paths, index), out),
        call_ensures(UpstreamHealthPaths::probe_path, (&*final(paths),), probe),
    ensures
        probe@ == path@,
        path@ == old(paths).candidates()[index as int],
        final(paths).candidates() == old(paths).candidates(),
{
}

/// What the code is generated from, and what the generated types and fields carry.
pub proof fn law_plans_name_their_files(plans: [ProtoCompilePlan; 3], i: int)
    requires
        call_ensures(proto_compile_plans, (), plans),
        0 <= i < 3,
    ensures
        plans@[0].protos@.len() == 1 && plans@[0].protos@[0]@ == "proto/stargate.proto"@,
        plans@[1].protos@.len() == 1 && plans@[1].protos@[0]@ == "proto/llm_gateway.proto"@,
        plans@[2].protos@.len() == 1 && plans@[2].protos@[0]@ == "proto/dynamo_frontend_stats.proto"@,
        plans@[i].includes@.len() == 1 && plans@[i].includes@[0]@ == "proto"@,
        plans@[i].build_server,
        i > 0 ==> plans@[i].type_attributes@.len() == 0 && plans@[i].field_attributes@.len() == 0,
        plans@[0].type_attributes@.len() == 1,
        plans@[0].type_attributes@[0].0@ == "."@,
        plans@[0].type_attributes@[0].1@ == "#[derive(serde::Serialize, serde::Deserialize)]"@,
        plans@[0].field_attributes@.len() == 2,
        plans@[0].field_attributes@[0].0@ == "stargate.WatchStargatesResponse.stargates"@,
        plans@[0].field_attributes@[0].1@
            == "#[serde(default, serialize_with = \"crate::pb::serde_stargates_set::serialize\", deserialize_with = \"crate::pb::serde_stargates_set::deserialize\")]"@,
        plans@[0].field_attributes@[1].0@ == "stargate.WatchStargatesResponse.watch_stargate_urls"@,
        plans@[0].field_attributes@[1].1@
            == "#[serde(default, serialize_with = \"crate::pb::serde_string_set::serialize\", deserialize_with = \"crate::pb::serde_string_set::deserialize\")]"@,
{
    assert forall|j: int| 0 <= j < 3 implies {
        &&& (#[trigger] plans@[j]).protos@.len() == 1
        &&& plans@[j].includes@.len() == 1 && plans@[j].includes@[0]@ == "proto"@
    } by {
        let files = crate::build_plan::texts(plans@[j].protos@);
        let places = crate::build_plan::texts(plans@[j].includes@);
        assert(files.len() == 1 && places.len() == 1);
        assert(places[0] == plans@[j].includes@[0]@);
    }
    assert(crate::build_plan::texts(plans@[0].protos@)[0] == plans@[0].protos@[0]@);
    assert(crate::build_plan::texts(plans@[1].protos@)[0] == plans@[1].protos@[0]@);
    assert(crate::build_plan::texts(plans@[2].protos@)[0] == plans@[2].protos@[0]@);
    let types = crate::build_plan::text_pairs(plans@[0].type_attributes@);
    let fields = crate::build_plan::text_pairs(plans@[0].field_attributes@);
    assert(types.len() == 1 && fields.len() == 2);
    let (on, attribute) = types[0];
    assert(on == "."@);
    let (first, first_attribute) = fields[0];
    let (second, second_attribute) = fields[1];
    assert(first == crate::build_plan::STARGATES_FIELD@);
    assert(second == crate::build_plan::WATCH_URLS_FIELD@);
    assert(crate::build_plan::text_pairs(plans@[1].type_attributes@).len() == 0);
    assert(crate::build_plan::text_pairs(plans@[1].field_attributes@).len() == 0);
    assert(crate::build_plan::text_pairs(plans@[2].type_attributes@).len() == 0);
    assert(crate::build_plan::text_pairs(plans@[2].field_attributes@).len() == 0);
}

/// Identifiers are made under the scope that is given, from the first.
pub proof fn law_identifiers_start_with_the_first(scope: &str, ids: Option<GeneratedRequestIds>)
    requires
        call_ensures(GeneratedRequestIds::with_scope, (scope,), ids),
    ensures
        ids is Some <==> crate::generated_request_id::uuid_value(scope@) is Some,
        ids matches Some(ids) ==> ids.scope() == scope@ && ids.counter() == 1,
{
}

/// What another layer said is told where a failure is its own.
pub proof fn law_sources_are_those_of_the_failure(error: TunnelError, source: Option<&String>)
    requires
        call_ensures(TunnelError::source, (&error,), source),
    ensures
        source is Some <==> error is Tls || error is Connect || error is Handshake,
        error matches TunnelError::Tls { source: said } ==> source->0@ == said@,
        error matches TunnelError::Connect { source: said, .. } ==> source->0@ == said@,
        error matches TunnelError::Handshake { source: said, .. } ==> source->0@ == said@,
{
}

/// A control starts with the models that it is given and with nothing else.
pub proof fn law_control_starts_with_its_models(
    ids: &[String],
    state: TestControlState,
    name: Seq<char>,
    standard: TestControlState,
)
    requires
        call_ensures(TestControlState::with_discovered_models, (ids,), state),
        call_ensures(<TestControlState as Default>::default, (), standard),
    ensures
        state.discovered().contains(name) <==> exists|i: int| 0 <= i < ids@.len() && (#[trigger] ids@[i])@ == name,
        state.discovery_requests() == 0,
        !state.models().contains_key(name),
        !standard.discovered().contains(name),
        !standard.models().contains_key(name),
        standard.discovery_requests() == 0,
{
    let views = crate::keyed::views(ids@);
    assert(views.len() == ids@.len());
    assert(state.discovered().contains(name) <==> views.contains(name));
    if exists|i: int| 0 <= i < ids@.len() && (#[trigger] ids@[i])@ == name {
        let i = choose|i: int| 0 <= i < ids@.len() && (#[trigger] ids@[i])@ == name;
        assert(views[i] == name);
    }
    if views.contains(name) {
        let i = choose|i: int| 0 <= i < views.len() && views[i] == name;
        assert(ids@[i]@ == name);
    }
}

/// After so many brackets, as many are open.
proof fn lemma_brackets_open(body: Seq<u8>, opened: nat, bytes: nat)
    requires
        bytes <= opened <= body.len(),
        forall|i: int| 0 <= i < opened ==> #[trigger] body[i] == 91 || body[i] == 123,
    ensures
        crate::tunnel_request::nesting(body, bytes) == (bytes, crate::tunnel_request::DocumentPlace::Outside),
    decreases bytes,
{
    if bytes > 0 {
        lemma_brackets_open(body, opened, (bytes - 1) as nat);
        assert(body[bytes - 1] == 91 || body[bytes - 1] == 123);
    }
}

/// No more are open than bytes have come.
proof fn lemma_open_within_bytes(body: Seq<u8>, bytes: nat)
    ensures
        crate::tunnel_request::nesting(body, bytes).0 <= bytes,
    decreases bytes,
{
    if bytes > 0 {
        lemma_open_within_bytes(body, (bytes - 1) as nat);
    }
}

/// A beginning is nested as the whole is at its end.
proof fn lemma_beginning_nested_alike(body: Seq<u8>, beginning: Seq<u8>, bytes: nat)
    requires
        bytes <= beginning.len() <= body.len(),
        beginning == body.take(beginning.len() as int),
    ensures
        crate::tunnel_request::nesting(beginning, bytes) == crate::tunnel_request::nesting(body, bytes),
    decreases bytes,
{
    if bytes > 0 {
        lemma_beginning_nested_alike(body, beginning, (bytes - 1) as nat);
        assert(beginning[bytes - 1] == body[bytes - 1]);
    }
}

/// In a string no bracket counts.
proof fn lemma_strings_do_not_nest(body: Seq<u8>, bytes: nat)
    requires
        0 < bytes <= body.len(),
        body[0] == 34,
        forall|i: int| 0 < i < body.len() ==> #[trigger] body[i] != 34,
    ensures
        ({
            let (open, place) = crate::tunnel_request::nesting(body, bytes);
            &&& open == 0
            &&& place is InString || place is Escaped
        }),
    decreases bytes,
{
    if bytes > 1 {
        lemma_strings_do_not_nest(body, (bytes - 1) as nat);
    } else {
        assert(crate::tunnel_request::nesting(body, 0) == (0nat, crate::tunnel_request::DocumentPlace::Outside));
    }
}

/// Where a body opens, closes and opens again, each bracket counts.
proof fn lemma_brackets_close(body: Seq<u8>, opened: nat, closed: nat, again: nat, bytes: nat)
    requires
        closed < opened,
        opened + closed + again <= body.len(),
        bytes <= opened + closed + again,
        forall|i: int| 0 <= i < opened ==> #[trigger] body[i] == 91 || body[i] == 123,
        forall|i: int| opened <= i < opened + closed ==> #[trigger] body[i] == 93 || body[i] == 125,
        forall|i: int|
            opened + closed <= i < opened + closed + again ==> #[trigger] body[i] == 91 || body[i] == 123,
    ensures
        ({
            let (open, place) = crate::tunnel_request::nesting(body, bytes);
            &&& place is Outside
            &&& bytes <= opened ==> open == bytes
            &&& opened <= bytes <= opened + closed ==> open + bytes == opened + opened
            &&& opened + closed <= bytes ==> open + closed + closed == bytes
        }),
    decreases bytes,
{
    if bytes > 0 {
        lemma_brackets_close(body, opened, closed, again, (bytes - 1) as nat);
        let b = body[bytes - 1];
        assert(b == 91 || b == 123 || b == 93 || b == 125);
    }
}

/// A bracket that is closed is open no more: a body that opens some, closes fewer
/// and opens some again is within the limit exactly where no more are open at a
/// time.
pub proof fn law_closed_brackets_are_open_no_more(
    body: &[u8],
    within: bool,
    opened: nat,
    closed: nat,
    again: nat,
)
    requires
        call_ensures(is_nested_within_limit, (body,), within),
        closed < opened,
        opened + closed + again == body@.len(),
        forall|i: int| 0 <= i < opened ==> #[trigger] body@[i] == '[' as u8 || body@[i] == '{' as u8,
        forall|i: int| opened <= i < opened + closed ==> #[trigger] body@[i] == ']' as u8 || body@[i] == '}' as u8,
        forall|i: int|
            opened + closed <= i < opened + closed + again ==> #[trigger] body@[i] == '[' as u8 || body@[i]
                == '{' as u8,
    ensures
        within <==> opened <= 1024 && opened - closed + again <= 1024,
{
    let bytes = body@;
    let all = opened + closed + again;
    assert forall|n: nat| n <= all implies {
        let (open, place) = #[trigger] crate::tunnel_request::nesting(bytes, n);
        &&& n <= opened ==> open == n
        &&& opened <= n <= opened + closed ==> open + n == opened + opened
        &&& opened + closed <= n ==> open + closed + closed == n
    } by {
        lemma_brackets_close(bytes, opened, closed, again, n);
    }
    assert(crate::tunnel_request::nesting(bytes, opened).0 == opened);
    assert(crate::tunnel_request::nesting(bytes, all).0 + closed + closed == all);
}

/// A body may open a thousand and twenty-four brackets and no more; a shorter one
/// never has too many, brackets in a string are none, and a beginning of a body
/// that is within the limit is so too.
pub proof fn law_bodies_nest_only_so_deep(
    body: &[u8],
    within: bool,
    opened: nat,
    beginning: &[u8],
    began_within: bool,
)
    requires
        call_ensures(is_nested_within_limit, (body,), within),
        call_ensures(is_nested_within_limit, (beginning,), began_within),
        beginning@.len() <= body@.len(),
        beginning@ == body@.take(beginning@.len() as int),
    ensures
        body@.len() <= 1024 ==> within,
        1024 < opened <= body@.len() && (forall|i: int|
            0 <= i < opened ==> #[trigger] body@[i] == '[' as u8 || body@[i] == '{' as u8) ==> !within,
        body@.len() > 0 && body@[0] == '"' as u8 && (forall|i: int|
            0 < i < body@.len() ==> #[trigger] body@[i] != '"' as u8) ==> within,
        within ==> began_within,
{
    let bytes = body@;
    if bytes.len() <= 1024 {
        assert forall|n: nat| n <= bytes.len() implies (#[trigger] crate::tunnel_request::nesting(bytes, n)).0 <= 1024 by {
            lemma_open_within_bytes(bytes, n);
        }
    }
    if 1024 < opened <= bytes.len() && forall|i: int|
        0 <= i < opened ==> #[trigger] bytes[i] == '[' as u8 || bytes[i] == '{' as u8 {
        assert forall|i: int| 0 <= i < opened implies #[trigger] bytes[i] == 91 || bytes[i] == 123 by {
            assert(bytes[i] == '[' as u8 || bytes[i] == '{' as u8);
        }
        lemma_brackets_open(bytes, opened, opened);
        assert(crate::tunnel_request::nesting(bytes, opened).0 > 1024);
    }
    if bytes.len() > 0 && bytes[0] == '"' as u8 && forall|i: int|
        0 < i < bytes.len() ==> #[trigger] bytes[i] != '"' as u8 {
        assert forall|n: nat| n <= bytes.len() implies (#[trigger] crate::tunnel_request::nesting(bytes, n)).0 <= 1024 by {
            if n > 0 {
                lemma_strings_do_not_nest(bytes, n);
            }
        }
    }
    if within {
        assert forall|n: nat| n <= beginning@.len() implies (#[trigger] crate::tunnel_request::nesting(
            beginning@,
            n,
        )).0 <= 1024 by {
            lemma_beginning_nested_alike(bytes, beginning@, n);
            assert(crate::tunnel_request::nesting(bytes, n).0 <= 1024);
        }
    }
}

/// A model that nothing is known of is not used, and one that a request was
/// observed in is.
pub proof fn law_unused_models_hold_nothing(model: QueueModelState, unused: bool, fresh: QueueModelState)
    requires
        call_ensures(QueueModelState::is_unused, (&model,), unused),
        call_ensures(QueueModelState::new, (), fresh),
    ensures
        unused ==> model.last_mean_input_tps is None && model.pending == 0 && model.input_processing == 0
            && model.output_generation == 0,
        model.last_mean_input_tps is Some || model.pending > 0 || model.input_processing > 0
            || model.output_generation > 0 ==> !unused,
        fresh.last_mean_input_tps is None && fresh.total_input_tokens == 0,
{
    assert(model.phase_count(TrackedPromptPhase::Pending) == model.pending);
    assert(model.phase_count(TrackedPromptPhase::InputProcessing) == model.input_processing);
    assert(model.phase_count(TrackedPromptPhase::OutputGeneration) == model.output_generation);
}

} // verus!
