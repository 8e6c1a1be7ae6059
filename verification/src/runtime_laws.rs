//! What holds of the served model generations across operations.

use vstd::prelude::*;

use crate::generation::GenerationId;
use crate::live_requests::Requests;
use crate::model_stats::{InferenceServerStatus, StatsView};
use crate::request_observation::RequestObservation;
use crate::runtime_state::{ModelPublication, Models, RuntimeModelView};

verus! {

/// The models once a generation has begun.
pub open spec fn begun(models: Models, generation: GenerationId) -> Models {
    models.insert(
        generation.model_id,
        RuntimeModelView {
            generation: generation.sequence,
            stats: StatsView::unknown(),
            publication: ModelPublication::Pending,
        },
    )
}

/// A generation that has begun is advertised only once exactly it has been
/// published; what is advertised of the other models does not change with it.
pub proof fn law_pending_generation_is_not_advertised(
    base_status: InferenceServerStatus,
    models: Models,
    generation: GenerationId,
)
    requires
        !models.contains_key(generation.model_id),
    ensures
        ({
            let pending = begun(models, generation);
            let published = crate::runtime_state::republished(
                pending,
                generation.model_id,
                ModelPublication::Admitted { bringup_ready: true },
            );
            let before = crate::runtime_state::registrations(base_status, models);
            let after = crate::runtime_state::registrations(base_status, published);
            &&& crate::runtime_state::registrations(base_status, pending) == before
            &&& after.contains_key(generation.model_id)
            &&& after[generation.model_id].status == base_status
            &&& after.remove(generation.model_id) == before
        }),
{
    let pending = begun(models, generation);
    let published = crate::runtime_state::republished(
        pending,
        generation.model_id,
        ModelPublication::Admitted { bringup_ready: true },
    );
    let before = crate::runtime_state::registrations(base_status, models);
    assert(crate::runtime_state::registrations(base_status, pending) =~= before);
    assert(crate::runtime_state::registrations(base_status, published).remove(generation.model_id) =~= before);
}

/// A retired generation is not current, and stays so when another generation
/// of its model takes its place: it can then neither be published nor change
/// the statistics or the requests of its replacement.
pub proof fn law_retired_generation_is_never_current(models: Models, retired: GenerationId, replacement: GenerationId)
    requires
        crate::runtime_state::current(models, retired),
        replacement != retired,
    ensures
        ({
            let without = models.remove(retired.model_id);
            &&& !crate::runtime_state::current(without, retired)
            &&& !crate::runtime_state::current(begun(without, replacement), retired)
            &&& crate::runtime_state::current(begun(without, replacement), replacement)
            &&& crate::runtime_state::stale(begun(without, replacement), Some(retired))
        }),
{
}

/// An observation that belongs to no generation, of a request that is not
/// live, leaves no trace.
pub proof fn law_unknown_model_leaves_no_trace(
    models: Models,
    requests: Requests,
    observation: RequestObservation,
)
    requires
        !models.contains_key(observation.model_id@),
        !requests.contains_key(observation.request_id@),
    ensures
        crate::queue_admission::observed_requests(
            requests,
            observation,
            crate::runtime_state::generation_of(models, observation.model_id@),
        ) == requests,
{
    assert(requests.remove(observation.request_id@) =~= requests);
}

/// A model is registered as active only on an active server and once it is
/// brought up.
pub proof fn law_bringup_gates_active_status(base_status: InferenceServerStatus, models: Models, model_id: Seq<char>)
    requires
        crate::runtime_state::registrations(base_status, models).contains_key(model_id),
    ensures
        crate::runtime_state::registrations(base_status, models)[model_id].status is Active <==> base_status is Active
            && models[model_id].publication == (ModelPublication::Admitted { bringup_ready: true }),
{
}

/// Whatever is observed under a served generation, every live request goes on
/// to belong to served generations. An observation that names no generation
/// counts as one of the generation that the request had.
pub proof fn law_live_requests_stay_owned(
    models: Models,
    requests: Requests,
    observation: RequestObservation,
    generation: Option<GenerationId>,
)
    requires
        crate::runtime_state::owned(requests, models),
        !crate::runtime_state::stale(
            models,
            crate::queue_admission::owner(requests, observation.request_id@, generation),
        ),
    ensures
        crate::runtime_state::owned(
            crate::queue_admission::observed_requests(requests, observation, generation),
            models,
        ),
{
}

/// Once a generation is retired, the live requests that are left belong to the
/// generations that are still served.
pub proof fn law_retirement_keeps_requests_owned(models: Models, requests: Requests, generation: GenerationId)
    requires
        crate::live_requests::all_valid(requests),
        crate::runtime_state::owned(requests, models),
        crate::runtime_state::current(models, generation),
    ensures
        crate::runtime_state::owned(
            crate::live_requests::retired(requests, generation),
            models.remove(generation.model_id),
        ),
{
    let after = crate::live_requests::retired(requests, generation);
    let left = models.remove(generation.model_id);
    assert forall|id: Seq<char>| #[trigger] after.contains_key(id) implies {
        &&& after[id].queue matches Some(queue) ==> crate::runtime_state::current(left, queue.generation)
        &&& after[id].observed matches Some(observed) ==> after[id].uncounted || crate::runtime_state::current(
            left,
            observed.generation,
        )
    } by {
        assert(requests.contains_key(id) && requests[id].valid());
    }
}

} // verus!
