//! What becomes of the served models and of their requests, call by call.

use http::{HeaderMap, HeaderValue};
use vstd::prelude::*;

use crate::binary64::Binary64;
use crate::generation::{GenerationId, ModelGeneration};
use crate::live_requests::LiveRequestState;
use crate::model_stats::{CurrentModelStats, InferenceServerStatus};
use crate::queue_admission::{
    PylonQueueMismatchRetryConfig, QueueAdmissionDecision, QueueTrackedRequestGuard, RequestObservationTransition,
};
use crate::queue_model::QueueModelSnapshot;
use crate::request_observation::{RequestObservation, RequiredTunnelHeaders};
use crate::runtime_state::{ModelPublication, PylonRuntimeState, RequestGenerationAdmission, RequestObservationEvent};

verus! {

/// The generation is the one in which its model is served.
pub open spec fn serves(state: PylonRuntimeState, generation: GenerationId) -> bool {
    &&& state.models().contains_key(generation.model_id)
    &&& state.models()[generation.model_id].generation == generation.sequence
}

/// The live requests and throughputs are untouched.
pub open spec fn load_untouched(before: PylonRuntimeState, after: PylonRuntimeState) -> bool {
    &&& after.requests() == before.requests()
    &&& forall|generation: GenerationId| #[trigger] after.throughput(generation) == before.throughput(generation)
}

/// Every model but one is as it was.
pub open spec fn other_models_untouched(before: PylonRuntimeState, after: PylonRuntimeState, model_id: Seq<char>) -> bool {
    &&& after.base_status() == before.base_status()
    &&& forall|id: Seq<char>| #![trigger after.models().contains_key(id)] #![trigger before.models().contains_key(id)]
        id != model_id ==> {
            &&& after.models().contains_key(id) == before.models().contains_key(id)
            &&& before.models().contains_key(id) ==> after.models()[id] == before.models()[id]
        }
}

/// A generation begins where its model is not served yet: unpublished, with
/// nothing known of it. From then on requests need a published generation.
pub proof fn law_generation_begins_unpublished(
    state: &mut PylonRuntimeState,
    generation: ModelGeneration,
    begun: bool,
)
    requires
        state.wf(),
        call_ensures(PylonRuntimeState::begin_generation, (state, generation), begun),
    ensures
        begun <==> !old(state).models().contains_key(generation.model_id@),
        !begun ==> final(state).models() == old(state).models(),
        begun ==> {
            let model = final(state).models()[generation.model_id@];
            &&& serves(*final(state), generation@)
            &&& model.publication is Pending
            &&& model.stats.last_mean_input_tps.bits == 0 && model.stats.queue_size == 0
            &&& model.stats.queued_input_size == 0 && model.stats.total_query_input_size == 0
            &&& model.stats.num_running_queries == 0 && model.stats.output_tps.bits == 0
            &&& model.stats.max_output_tps.bits == 0 && model.stats.max_engine_concurrency is None
            &&& model.stats.queue_time_estimate_ms_by_priority is None && model.stats.kv_cache is None
            &&& model.stats.stats_capabilities.len() == 0 && model.stats.stats_sources.len() == 0
        },
        other_models_untouched(*old(state), *final(state), generation.model_id@),
        load_untouched(*old(state), *final(state)),
        final(state).requires_admitted(),
{
}

/// A served generation is published as brought up, and a published one is marked
/// as brought up or not; its number and statistics stay. A generation that is
/// not served, or not published, is left alone.
pub proof fn law_only_served_generations_are_published(
    state: &mut PylonRuntimeState,
    generation: ModelGeneration,
    published: bool,
    marked_state: &mut PylonRuntimeState,
    marked_generation: ModelGeneration,
    ready: bool,
    marked: bool,
)
    requires
        state.wf(),
        marked_state.wf(),
        call_ensures(PylonRuntimeState::publish_generation, (state, &generation), published),
        call_ensures(
            PylonRuntimeState::set_generation_bringup_ready,
            (marked_state, &marked_generation, ready),
            marked,
        ),
    ensures
        published <==> serves(*old(state), generation@),
        !published ==> final(state).models() == old(state).models(),
        published ==> {
            let model = final(state).models()[generation.model_id@];
            &&& serves(*final(state), generation@)
            &&& model.publication == (ModelPublication::Admitted { bringup_ready: true })
            &&& model.stats == old(state).models()[generation.model_id@].stats
        },
        other_models_untouched(*old(state), *final(state), generation.model_id@),
        load_untouched(*old(state), *final(state)),
        marked <==> serves(*old(marked_state), marked_generation@) && old(
            marked_state,
        ).models()[marked_generation.model_id@].publication is Admitted,
        !marked ==> final(marked_state).models() == old(marked_state).models(),
        marked ==> {
            let model = final(marked_state).models()[marked_generation.model_id@];
            &&& serves(*final(marked_state), marked_generation@)
            &&& model.publication == (ModelPublication::Admitted { bringup_ready: ready })
            &&& model.stats == old(marked_state).models()[marked_generation.model_id@].stats
        },
        other_models_untouched(*old(marked_state), *final(marked_state), marked_generation.model_id@),
        load_untouched(*old(marked_state), *final(marked_state)),
        final(state).requires_admitted() == old(state).requires_admitted(),
        final(marked_state).requires_admitted() == old(marked_state).requires_admitted(),
{
}

/// A generation that is retired is served no more and leaves its last statistics.
/// Its requests and its throughput are gone; another generation of the same
/// name, and every other model, is left alone.
pub proof fn law_retired_generation_leaves_its_statistics(
    state: &mut PylonRuntimeState,
    generation: ModelGeneration,
    stats: Option<CurrentModelStats>,
    id: Seq<char>,
)
    requires
        state.wf(),
        call_ensures(PylonRuntimeState::retire_generation, (state, &generation), stats),
    ensures
        stats is Some <==> serves(*old(state), generation@),
        stats is None ==> final(state).models() == old(state).models() && load_untouched(*old(state), *final(state)),
        stats matches Some(stats) ==> {
            &&& !final(state).models().contains_key(generation.model_id@)
            &&& stats.queue_size == old(state).models()[generation.model_id@].stats.queue_size
            &&& stats.queued_input_size == old(state).models()[generation.model_id@].stats.queued_input_size
            &&& stats.total_query_input_size == old(state).models()[generation.model_id@].stats.total_query_input_size
            &&& stats.last_mean_input_tps == old(state).models()[generation.model_id@].stats.last_mean_input_tps
            &&& stats@ == old(state).models()[generation.model_id@].stats
            &&& final(state).throughput(generation@) is None
            &&& final(state).requests().contains_key(id) ==> {
                let request = final(state).requests()[id];
                &&& old(state).requests().contains_key(id)
                &&& request.queue == old(state).requests()[id].queue
                &&& request.observed == old(state).requests()[id].observed
                &&& request.queue is Some ==> request.queue->0.generation != generation@
                &&& request.queue is None ==> request.observed->0.generation != generation@
            }
            &&& old(state).requests().contains_key(id) && old(state).requests()[id].generation() != generation@
                ==> final(state).requests().contains_key(id)
        },
        other_models_untouched(*old(state), *final(state), generation.model_id@),
        forall|other: GenerationId|
            other != generation@ ==> #[trigger] final(state).throughput(other) == old(state).throughput(other),
        final(state).requires_admitted() == old(state).requires_admitted(),
        final(state).base_status() == old(state).base_status(),
        stats is Some && final(state).requests().contains_key(id) && final(state).requests()[id].observed is Some
            ==> final(state).requests()[id].uncounted || final(state).requests()[id].observed->0.generation
            != generation@,
{
    state.lemma_requests();
    if old(state).requests().contains_key(id) {
        assert(old(state).requests()[id].valid());
    }
}

/// A request is admitted in the generation in which its model is published. A
/// model that is not published is not available, nor is one that is not served
/// once generations are managed.
pub proof fn law_only_published_models_take_requests(
    state: PylonRuntimeState,
    model_id: &str,
    admission: RequestGenerationAdmission,
    current: Option<ModelGeneration>,
    generation: ModelGeneration,
    published: bool,
)
    requires
        call_ensures(PylonRuntimeState::request_generation_admission, (&state, model_id), admission),
        call_ensures(PylonRuntimeState::current_generation, (&state, model_id), current),
        call_ensures(PylonRuntimeState::generation_is_published, (&state, &generation), published),
    ensures
        current is Some <==> state.models().contains_key(model_id@),
        current matches Some(current) ==> current.model_id@ == model_id@ && serves(state, current@),
        admission is Admitted <==> current is Some && state.models()[model_id@].publication is Admitted,
        admission matches RequestGenerationAdmission::Admitted(generation) ==> generation.model_id@ == model_id@
            && generation.sequence == state.models()[model_id@].generation,
        admission is Ungated <==> current is None && !state.requires_admitted(),
        published <==> serves(state, generation@) && !(state.models()[generation.model_id@].publication is Pending),
{
}

/// A state starts with the given models, all published as brought up and each in
/// the generation of its last place in the list, and without requests.
pub proof fn law_state_starts_with_its_models(
    status: InferenceServerStatus,
    ids: &[String],
    state: PylonRuntimeState,
    place: int,
    id: Seq<char>,
)
    requires
        call_ensures(PylonRuntimeState::new, (status, ids), state),
        0 <= place < ids@.len(),
        forall|later: int| place < later < ids@.len() ==> ids@[later]@ != ids@[place]@,
    ensures
        state.base_status() == status,
        state.requires_admitted(),
        state.models().contains_key(ids@[place]@),
        state.models()[ids@[place]@].generation == place as u64,
        state.models()[ids@[place]@].publication == (ModelPublication::Admitted { bringup_ready: true }),
        state.models()[ids@[place]@].stats.queue_size == 0,
        state.models()[ids@[place]@].stats.last_mean_input_tps.bits == 0,
        state.models().contains_key(id) ==> exists|i: int| 0 <= i < ids@.len() && (#[trigger] ids@[i])@ == id,
        !state.requests().contains_key(id),
{
    let names = crate::keyed::views(ids@);
    assert(names.len() == ids@.len());
    assert forall|i: int| 0 <= i < ids@.len() implies names[i] == #[trigger] ids@[i]@ by {}
    assert(crate::runtime_state::last_place(names, names.len() as int, ids@[place]@, place));
    assert(crate::runtime_state::initial_model(place).generation == place as u64);
    assert(state.models()[ids@[place]@] == crate::runtime_state::initial_model(place));
    if state.models().contains_key(id) {
        let i = choose|i: int| 0 <= i < names.len() && names[i] == id;
        assert(ids@[i]@ == id);
    }
}

/// The names that are listed are those of the served models, and those that are
/// advertised are the published ones; each stands once.
pub proof fn law_listed_models_are_the_served_ones(
    state: PylonRuntimeState,
    all: Vec<String>,
    published: Vec<String>,
    id: Seq<char>,
)
    requires
        call_ensures(PylonRuntimeState::model_ids, (&state,), all),
        call_ensures(PylonRuntimeState::advertised_model_ids, (&state,), published),
    ensures
        crate::keyed::views(all@).contains(id) <==> state.models().contains_key(id),
        crate::keyed::views(published@).contains(id) <==> state.models().contains_key(id)
            && !(state.models()[id].publication is Pending),
        crate::keyed::views(all@).no_duplicates(),
        crate::keyed::views(published@).no_duplicates(),
{
    let all = crate::keyed::views(all@);
    let published = crate::keyed::views(published@);
    crate::keyed::lemma_ascending_distinct::<String>(all);
    crate::keyed::lemma_ascending_distinct::<String>(published);
    assert(all.contains(id) <==> all.to_set().contains(id));
    assert(published.contains(id) <==> published.to_set().contains(id));
}

/// Setting the status of the server changes nothing else.
pub proof fn law_status_is_set_alone(state: &mut PylonRuntimeState, status: InferenceServerStatus, out: ())
    requires
        state.wf(),
        call_ensures(PylonRuntimeState::set_status, (state, status), out),
    ensures
        final(state).base_status() == status,
        final(state).models() == old(state).models(),
        final(state).requires_admitted() == old(state).requires_admitted(),
        load_untouched(*old(state), *final(state)),
{
}

/// Statistics that are set make the throughput of the queue: their input rate
/// where it is finite and positive, and none otherwise.
pub proof fn law_statistics_set_the_throughput(
    state: &mut PylonRuntimeState,
    model_id: &str,
    stats: CurrentModelStats,
    out: (),
    other: GenerationId,
)
    requires
        state.wf(),
        call_ensures(PylonRuntimeState::set_model_stats, (state, model_id, stats), out),
    ensures
        ({
            let served = old(state).models().contains_key(model_id@);
            let own = GenerationId { model_id: model_id@, sequence: old(state).models()[model_id@].generation };
            let rate = stats.last_mean_input_tps;
            &&& !served ==> final(state).models() == old(state).models() && load_untouched(*old(state), *final(state))
            &&& served ==> {
                &&& serves(*final(state), own)
                &&& final(state).models()[model_id@].stats == stats@
                &&& final(state).models()[model_id@].publication == old(state).models()[model_id@].publication
                &&& 0 < rate.bits < 0x7FF0_0000_0000_0000 ==> final(state).throughput(own) == Some(rate)
                &&& rate.bits == 0 || rate.bits >= 0x7FF0_0000_0000_0000 ==> final(state).throughput(own) is None
                &&& other != own ==> final(state).throughput(other) == old(state).throughput(other)
            }
            &&& other_models_untouched(*old(state), *final(state), model_id@)
            &&& final(state).requests() == old(state).requests()
        }),
{
}

/// An observation is taken in under the generation that it came from as the live
/// requests take it in, and changes nothing where that generation is not served
/// any more.
pub proof fn law_stale_observations_change_nothing(
    state: &mut PylonRuntimeState,
    observation: RequestObservation,
    generation: Option<ModelGeneration>,
    event: RequestObservationEvent,
    transition: Option<RequestObservationTransition>,
    live: &mut LiveRequestState,
    taken: RequestObservationTransition,
    named: Option<&ModelGeneration>,
)
    requires
        state.wf(),
        live.wf(),
        call_ensures(
            PylonRuntimeState::transition_request_observation_for_generation,
            (state, observation, generation),
            (event, transition),
        ),
        live.requests() == state.requests(),
        crate::queue_admission::generation_view(named) == crate::runtime_state::owned_generation(generation),
        call_ensures(LiveRequestState::transition_observation, (live, &observation, named), taken),
    ensures
        ({
            let stale = generation is Some && !serves(*old(state), generation->0@);
            &&& event.observation == observation
            &&& event.generation == generation
            &&& stale ==> final(state).requests() == old(state).requests() && transition is None
                && event.changed_generations@.len() == 0
            &&& !stale ==> {
                &&& final(state).requests() == final(live).requests()
                &&& transition is Some
                &&& crate::live_requests::observed_view(transition->0.current)
                    == crate::live_requests::observed_view(taken.current)
                &&& crate::live_requests::observed_view(transition->0.prior)
                    == crate::live_requests::observed_view(taken.prior)
                &&& crate::keyed::views(event.changed_generations@) == crate::keyed::views(
                    transition->0.changed_generations@,
                )
            }
            &&& final(state).models() == old(state).models()
            &&& final(state).base_status() == old(state).base_status()
        }),
{
}

/// An observation without a generation of its own is taken in under the one in
/// which its model is served.
pub proof fn law_observations_belong_to_the_served_generation(
    state: &mut PylonRuntimeState,
    observation: RequestObservation,
    event: RequestObservationEvent,
    transition: Option<RequestObservationTransition>,
)
    requires
        state.wf(),
        call_ensures(PylonRuntimeState::observe_request, (state, observation), (event, transition)),
    ensures
        event.observation == observation,
        transition is Some,
        event.generation is Some <==> old(state).models().contains_key(observation.model_id@),
        event.generation matches Some(generation) ==> generation.model_id@ == observation.model_id@ && serves(
            *old(state),
            generation@,
        ),
        event.generation is Some && !(observation.state is Complete || observation.state is Failed) ==> {
            let queue = final(state).requests()[observation.request_id@].queue;
            &&& final(state).requests().contains_key(observation.request_id@)
            &&& queue is Some
            &&& queue->0.generation == event.generation->0@
            &&& queue->0.priority == observation.priority
            &&& queue->0.input_tokens == observation.input_tokens
        },
        observation.state is Complete || observation.state is Failed ==> !final(state).requests().contains_key(
            observation.request_id@,
        ),
        final(state).models() == old(state).models(),
{
}

/// A request is queued under a generation exactly where that is served, as its
/// headers say.
pub proof fn law_requests_queue_under_served_generations(
    state: &mut PylonRuntimeState,
    required: RequiredTunnelHeaders,
    generation: Option<&ModelGeneration>,
    guard: Option<QueueTrackedRequestGuard>,
    other: Seq<char>,
)
    requires
        state.wf(),
        call_ensures(PylonRuntimeState::track_generation_request, (state, &required, generation), guard),
    ensures
        guard is Some <==> generation is Some && serves(*old(state), generation->0@),
        guard is None ==> final(state).requests() == old(state).requests(),
        guard is Some ==> {
            let queue = final(state).requests()[required.request_id@].queue;
            &&& final(state).requests().contains_key(required.request_id@)
            &&& queue is Some
            &&& queue->0.generation == generation->0@
            &&& required.priority is Some ==> queue->0.priority == required.priority->0
            &&& required.priority is None ==> queue->0.priority == 0
            &&& queue->0.input_tokens == required.input_tokens
            &&& queue->0.phase is Pending
            &&& guard->0.request_id() == required.request_id@
        },
        other != required.request_id@ ==> {
            &&& final(state).requests().contains_key(other) == old(state).requests().contains_key(other)
            &&& old(state).requests().contains_key(other) ==> final(state).requests()[other]
                == old(state).requests()[other]
        },
        final(state).models() == old(state).models(),
{
}

/// The decision on a request and what is published of a queue are those of the
/// live requests; a model that is not served has no queue.
pub proof fn law_state_decides_by_its_live_requests<
    F: Fn(u64, Binary64) -> Option<u64>,
    G: Fn(u64, Binary64) -> u64,
>(
    state: PylonRuntimeState,
    config: PylonQueueMismatchRetryConfig,
    required: RequiredTunnelHeaders,
    generation: Option<&ModelGeneration>,
    headers: HeaderMap<HeaderValue>,
    delta: F,
    scale: G,
    decision: QueueAdmissionDecision,
    live: LiveRequestState,
    direct: QueueAdmissionDecision,
    model_id: &str,
    snapshot: QueueModelSnapshot,
)
    requires
        state.wf(),
        live.wf(),
        live.requests() == state.requests(),
        forall|any: GenerationId| #[trigger] live.throughput(any) == state.throughput(any),
        crate::admission_laws::gives_one_answer(delta),
        crate::admission_laws::scales_alike(scale),
        call_ensures(
            PylonRuntimeState::evaluate_generation_queue_admission::<F, G>,
            (&state, &config, &required, generation, &headers, &delta, &scale),
            decision,
        ),
        call_ensures(
            LiveRequestState::evaluate_generation::<F, G>,
            (&live, &config, &required, generation, &headers, &delta, &scale),
            direct,
        ),
        call_ensures(PylonRuntimeState::snapshot_live_model::<F>, (&state, model_id, &delta), snapshot),
    ensures
        decision == direct,
        !state.models().contains_key(model_id@) ==> {
            &&& snapshot.queue_size == 0 && snapshot.queued_input_size == 0 && snapshot.num_running_queries == 0
            &&& snapshot.total_query_input_size == 0 && snapshot.queue_time_estimate_ms_by_priority is None
        },
        state.models().contains_key(model_id@) ==> {
            let own = GenerationId { model_id: model_id@, sequence: state.models()[model_id@].generation };
            &&& snapshot.queue_time_estimate_ms_by_priority is Some <==> state.throughput(own) is Some
            &&& snapshot.input_processing_queries == crate::live_requests::phase_requests(
                state.requests(),
                own,
                crate::queue_model::TrackedPromptPhase::InputProcessing,
            )
        },
{
}

} // verus!
