//! What the routers are told of the served models, figure by figure.

use vstd::prelude::*;

use crate::generation::ModelGeneration;
use crate::keyed::SortedMap;
use crate::model_stats::{
    gated_model_status, CurrentModelStats, InferenceServerModelRegistration, InferenceServerStatus, ModelStats,
};
use crate::registration::{
    build_inference_server_registration, router_advertised_status, InferenceServerRegistration,
};
use crate::runtime_state::PylonRuntimeState;

verus! {

/// Each figure that is told of a model is the figure of the same name in its
/// statistics. A limit that is not known is told as none, and queue times that
/// are not known as no queue times.
pub proof fn law_told_figures_are_the_known_ones(stats: CurrentModelStats, told: ModelStats)
    requires
        call_ensures(CurrentModelStats::advertise, (&stats,), told),
    ensures
        told.last_mean_input_tps == stats.last_mean_input_tps,
        told.output_tps == stats.output_tps,
        told.max_output_tps == stats.max_output_tps,
        told.queue_size == stats.queue_size,
        told.queued_input_size == stats.queued_input_size,
        told.total_query_input_size == stats.total_query_input_size,
        told.kv_cache_capacity_tokens == stats.kv_cache_capacity_tokens,
        told.kv_cache_used_tokens == stats.kv_cache_used_tokens,
        told.kv_cache_free_tokens == stats.kv_cache_free_tokens,
        told.kv_cache == stats.kv_cache,
        told.num_running_queries == stats.num_running_queries,
        told.input_processing_queries == stats.input_processing_queries,
        told.output_generation_queries == stats.output_generation_queries,
        told.stats_observed_at_unix_ms == stats.stats_observed_at_unix_ms,
        stats.max_engine_concurrency matches Some(limit) ==> told.max_engine_concurrency == limit,
        stats.max_engine_concurrency is None ==> told.max_engine_concurrency == 0,
        stats.queue_time_estimate_ms_by_priority matches Some(estimates)
            ==> told.queue_time_estimate_ms_by_priority@ == estimates@,
        stats.queue_time_estimate_ms_by_priority is None ==> forall|priority: u32|
            !#[trigger] told.queue_time_estimate_ms_by_priority@.contains_key(priority),
        told.stats_capabilities@.len() == stats.stats_capabilities@.len(),
        forall|i: int|
            0 <= i < told.stats_capabilities@.len() ==> (#[trigger] told.stats_capabilities@[i])@
                == stats.stats_capabilities@[i]@,
        told.stats_sources@.len() == stats.stats_sources@.len(),
        forall|i: int|
            0 <= i < told.stats_sources@.len() ==> (#[trigger] told.stats_sources@[i])@ == stats.stats_sources@[i]@,
{
    let capabilities = crate::keyed::views(told.stats_capabilities@);
    let sources = crate::keyed::views(told.stats_sources@);
    assert(capabilities == crate::keyed::views(stats.stats_capabilities@));
    assert(sources == crate::keyed::views(stats.stats_sources@));
    assert(capabilities.len() == told.stats_capabilities@.len());
    assert(sources.len() == told.stats_sources@.len());
    assert forall|i: int| 0 <= i < told.stats_capabilities@.len() implies (#[trigger] told.stats_capabilities@[i])@
        == stats.stats_capabilities@[i]@ by {
        assert(capabilities[i] == told.stats_capabilities@[i]@);
    }
    assert forall|i: int| 0 <= i < told.stats_sources@.len() implies (#[trigger] told.stats_sources@[i])@
        == stats.stats_sources@[i]@ by {
        assert(sources[i] == told.stats_sources@[i]@);
    }
}

/// What is registered of a published model is what its statistics say at that
/// moment, and the model is shown as active exactly where the server is active
/// and the model has been brought up.
pub proof fn law_registration_tells_current_statistics(
    state: PylonRuntimeState,
    model_id: &str,
    stats: CurrentModelStats,
    registered: SortedMap<String, InferenceServerModelRegistration>,
)
    requires
        call_ensures(PylonRuntimeState::model_stats, (&state, model_id), Some(stats)),
        call_ensures(PylonRuntimeState::advertised_models, (&state,), registered),
        registered@.contains_key(model_id@),
    ensures
        ({
            let told = registered@[model_id@];
            &&& told.stats is Some
            &&& told.stats->0.last_mean_input_tps == stats.last_mean_input_tps
            &&& told.stats->0.output_tps == stats.output_tps
            &&& told.stats->0.max_output_tps == stats.max_output_tps
            &&& told.stats->0.queue_size == stats.queue_size
            &&& told.stats->0.queued_input_size == stats.queued_input_size
            &&& told.stats->0.total_query_input_size == stats.total_query_input_size
            &&& told.stats->0.kv_cache_capacity_tokens == stats.kv_cache_capacity_tokens
            &&& told.stats->0.kv_cache_used_tokens == stats.kv_cache_used_tokens
            &&& told.stats->0.kv_cache_free_tokens == stats.kv_cache_free_tokens
            &&& told.stats->0.kv_cache == stats.kv_cache
            &&& told.stats->0.num_running_queries == stats.num_running_queries
            &&& told.stats->0.input_processing_queries == stats.input_processing_queries
            &&& told.stats->0.output_generation_queries == stats.output_generation_queries
            &&& told.stats->0.stats_observed_at_unix_ms == stats.stats_observed_at_unix_ms
            &&& told.stats->0.stats_capabilities.len() == stats.stats_capabilities@.len()
            &&& forall|i: int|
                0 <= i < stats.stats_capabilities@.len() ==> told.stats->0.stats_capabilities[i]
                    == (#[trigger] stats.stats_capabilities@[i])@
            &&& told.stats->0.stats_sources.len() == stats.stats_sources@.len()
            &&& forall|i: int|
                0 <= i < stats.stats_sources@.len() ==> told.stats->0.stats_sources[i]
                    == (#[trigger] stats.stats_sources@[i])@
            &&& stats.max_engine_concurrency matches Some(limit) ==> told.stats->0.max_engine_concurrency == limit
            &&& stats.max_engine_concurrency is None ==> told.stats->0.max_engine_concurrency == 0
            &&& stats.queue_time_estimate_ms_by_priority matches Some(estimates)
                ==> told.stats->0.queue_time_estimate_ms_by_priority == estimates@
            &&& stats.queue_time_estimate_ms_by_priority is None
                ==> told.stats->0.queue_time_estimate_ms_by_priority == Map::<u32, u64>::empty()
            &&& told.status is Active ==> state.base_status() is Active
            &&& told.status is Active || told.status is Inactive || told.status == state.base_status()
            &&& !(state.base_status() is Active) ==> told.status == state.base_status()
        }),
{
}

/// Statistics that are set for a served generation are those that are read back
/// and registered, whatever was known before; no other model is told of
/// otherwise, and a generation that is not served changes nothing.
pub proof fn law_set_statistics_are_told(
    state: &mut PylonRuntimeState,
    generation: ModelGeneration,
    stats: CurrentModelStats,
    set: bool,
    model_id: &str,
    read: Option<CurrentModelStats>,
    before: SortedMap<String, InferenceServerModelRegistration>,
    after: SortedMap<String, InferenceServerModelRegistration>,
)
    requires
        state.wf(),
        call_ensures(PylonRuntimeState::advertised_models, (&*state,), before),
        call_ensures(PylonRuntimeState::set_generation_stats, (state, &generation, stats), set),
        call_ensures(PylonRuntimeState::advertised_models, (&*final(state),), after),
        model_id@ == generation.model_id@,
        call_ensures(PylonRuntimeState::model_stats, (&*final(state), model_id), read),
    ensures
        after@.dom() == before@.dom(),
        forall|id: Seq<char>| #[trigger]
            after@.contains_key(id) ==> {
                &&& after@[id].status == before@[id].status
                &&& !set || id != generation.model_id@ ==> after@[id] == before@[id]
                &&& set && id == generation.model_id@ ==> {
                    &&& after@[id].stats is Some
                    &&& after@[id].stats->0.queue_size == stats.queue_size
                    &&& after@[id].stats->0.queued_input_size == stats.queued_input_size
                    &&& after@[id].stats->0.total_query_input_size == stats.total_query_input_size
                    &&& after@[id].stats->0.last_mean_input_tps == stats.last_mean_input_tps
                    &&& after@[id].stats->0.output_tps == stats.output_tps
                    &&& after@[id].stats->0.num_running_queries == stats.num_running_queries
                }
            },
        set ==> {
            &&& read is Some
            &&& read->0@ == stats@
        },
        set <==> {
            &&& old(state).models().contains_key(generation.model_id@)
            &&& old(state).models()[generation.model_id@].generation == generation.sequence
        },
{
    assert(after@.dom() =~= before@.dom());
}

/// A model on an active server is shown as inactive until it has been brought
/// up, and as active from then on; a server that is not active is shown as it
/// is.
pub proof fn law_bringup_only_holds_back_active_models(
    base: InferenceServerStatus,
    ready: bool,
    status: InferenceServerStatus,
)
    requires
        call_ensures(gated_model_status, (base, ready), status),
    ensures
        status is Active <==> base is Active && ready,
        status is Unknown <==> base is Unknown,
        status is Inactive <==> base is Inactive || base is Active && !ready,
{
}

/// A model that is only reached through a reverse tunnel is active for a router
/// exactly while the tunnel stands; every other standing is told as it is.
pub proof fn law_tunnel_only_holds_back_active_models(
    status: InferenceServerStatus,
    reverse_tunnel: bool,
    connected: bool,
    told: InferenceServerStatus,
)
    requires
        call_ensures(router_advertised_status, (status, reverse_tunnel, connected), told),
    ensures
        told is Active <==> status is Active && (!reverse_tunnel || connected),
        told is Unknown <==> status is Unknown,
        told is Inactive <==> status is Inactive || status is Active && reverse_tunnel && !connected,
{
}

/// A router is told of the server under its own names and of each of its models
/// and no other, with the figures that are registered.
pub proof fn law_router_is_told_every_model(
    inference_server_id: &str,
    cluster_id: &str,
    inference_server_url: &str,
    models: SortedMap<String, InferenceServerModelRegistration>,
    reverse_tunnel: bool,
    connected: bool,
    told: InferenceServerRegistration,
    id: Seq<char>,
)
    requires
        call_ensures(
            build_inference_server_registration,
            (inference_server_id, cluster_id, inference_server_url, models, reverse_tunnel, connected),
            told,
        ),
    ensures
        told.inference_server_id@ == inference_server_id@,
        told.cluster_id@ == cluster_id@,
        told.inference_server_url@ == inference_server_url@,
        told.models@.contains_key(id) <==> models@.contains_key(id),
        models@.contains_key(id) ==> {
            &&& told.models@[id].stats == models@[id].stats
            &&& told.models@[id].status is Active <==> models@[id].status is Active && (!reverse_tunnel || connected)
            &&& !(models@[id].status is Active) ==> told.models@[id].status == models@[id].status
            &&& told.models@[id].status is Unknown ==> models@[id].status is Unknown
        },
{
}

} // verus!
