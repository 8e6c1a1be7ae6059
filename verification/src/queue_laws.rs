//! What holds of the live requests across operations.

use vstd::prelude::*;

use crate::binary64::Binary64;
use crate::generation::GenerationId;
use crate::live_requests::{LiveView, Requests};
use crate::queue_model::{QueueModelSnapshot, TrackedPromptPhase};
use crate::request_observation::{RequestObservation, RequestObservationState, RequiredTunnelHeaders};

verus! {

/// An observation, however late it comes, never moves a queued request back
/// to an earlier phase.
pub proof fn law_observation_never_requeues(
    requests: Requests,
    observation: RequestObservation,
    generation: Option<GenerationId>,
)
    requires
        crate::live_requests::queue_of(requests, observation.request_id@) is Some,
        !observation.state.terminal(),
    ensures
        ({
            let after = crate::queue_admission::observed_requests(requests, observation, generation);
            let id = observation.request_id@;
            &&& crate::live_requests::queue_of(after, id) is Some
            &&& crate::live_requests::queue_of(requests, id)->0.phase.step() <= crate::live_requests::queue_of(
                after,
                id,
            )->0.phase.step()
        }),
{
}

/// The handle of a request never moves it back either.
pub proof fn law_advance_never_goes_back(requests: Requests, id: Seq<char>, next_phase: TrackedPromptPhase)
    requires
        crate::live_requests::queue_of(requests, id) is Some,
    ensures
        ({
            let after = crate::live_requests::queue_of(
                crate::live_requests::advanced(requests, id, next_phase),
                id,
            );
            let before = crate::live_requests::queue_of(requests, id);
            &&& after is Some
            &&& before->0.phase.step() <= after->0.phase.step()
            &&& next_phase.step() <= after->0.phase.step()
        }),
{
}

/// A request that is queued and then ended leaves the live requests as they
/// were, where it was not queued before.
pub proof fn law_finish_undoes_tracking(
    requests: Requests,
    required: RequiredTunnelHeaders,
    generation: GenerationId,
)
    requires
        crate::live_requests::queue_of(requests, required.request_id@) is None,
        crate::live_requests::all_valid(requests),
    ensures
        crate::live_requests::without_queue(
            crate::queue_admission::tracked_requests(requests, required, generation),
            required.request_id@,
        ) == requests,
{
    let id = required.request_id@;
    let queued = crate::queue_admission::tracked_requests(requests, required, generation);
    if requests.contains_key(id) {
        assert(requests[id].valid());
    }
    assert(crate::live_requests::without_queue(queued, id) =~= requests);
}

/// Ending the queue side of a request keeps what was observed of it, and a
/// final observation takes the request away altogether.
pub proof fn law_observation_outlives_queue(
    requests: Requests,
    observation: RequestObservation,
    generation: Option<GenerationId>,
)
    requires
        observation.state.terminal(),
    ensures
        ({
            let id = observation.request_id@;
            let finished = crate::live_requests::without_queue(requests, id);
            &&& crate::live_requests::queue_of(finished, id) is None
            &&& crate::live_requests::observed_of(finished, id) == crate::live_requests::observed_of(requests, id)
            &&& !crate::queue_admission::observed_requests(
                finished,
                observation,
                generation,
            ).contains_key(id)
        }),
{
}

/// No operation on one request touches another.
pub proof fn law_requests_are_independent(
    requests: Requests,
    other: Seq<char>,
    observation: RequestObservation,
    generation: Option<GenerationId>,
    required: RequiredTunnelHeaders,
    owner: GenerationId,
    phase: TrackedPromptPhase,
    rate: Option<Binary64>,
)
    requires
        other != observation.request_id@,
        other != required.request_id@,
    ensures
        ({
            let observed = crate::queue_admission::observed_requests(requests, observation, generation);
            let queued = crate::queue_admission::tracked_requests(requests, required, owner);
            let advanced = crate::live_requests::advanced(requests, required.request_id@, phase);
            let finished = crate::live_requests::without_queue(requests, required.request_id@);
            let rated = crate::live_requests::with_output_rate(requests, required.request_id@, rate);
            &&& observed.contains_key(other) == requests.contains_key(other)
            &&& queued.contains_key(other) == requests.contains_key(other)
            &&& advanced.contains_key(other) == requests.contains_key(other)
            &&& finished.contains_key(other) == requests.contains_key(other)
            &&& rated.contains_key(other) == requests.contains_key(other)
            &&& requests.contains_key(other) ==> {
                &&& observed[other] == requests[other]
                &&& queued[other] == requests[other]
                &&& advanced[other] == requests[other]
                &&& finished[other] == requests[other]
                &&& rated[other] == requests[other]
            }
        }),
{
}

/// The exact work behind the saturating public figures splits into a
/// request's own and that of the others.
pub proof fn law_exclusion_is_exact(
    requests: Requests,
    id: Seq<char>,
    generation: GenerationId,
    priority: u32,
)
    requires
        requests.dom().finite(),
        requests.contains_key(id),
    ensures
        crate::live_requests::queued_work_through(requests, generation, priority as int)
            == crate::live_requests::queued_work_through(requests.remove(id), generation, priority as int)
            + crate::live_requests::through_weight(generation, priority as int)(requests[id]),
{
    crate::sums::lemma_total_remove(
        requests,
        crate::live_requests::through_weight(generation, priority as int),
        id,
    );
}

/// The work that an admission decision looks at is the same whether or not
/// the request itself has been queued or observed before the decision.
pub proof fn law_own_request_does_not_count(
    requests: Requests,
    required: RequiredTunnelHeaders,
    observation: RequestObservation,
    owner: GenerationId,
    generation: Option<GenerationId>,
)
    requires
        observation.request_id@ == required.request_id@,
    ensures
        crate::queue_admission::tracked_requests(requests, required, owner).remove(required.request_id@)
            == requests.remove(required.request_id@),
        crate::queue_admission::observed_requests(requests, observation, generation).remove(required.request_id@)
            == requests.remove(required.request_id@),
{
    let id = required.request_id@;
    assert(crate::queue_admission::tracked_requests(requests, required, owner).remove(id) =~= requests.remove(id));
    assert(crate::queue_admission::observed_requests(requests, observation, generation).remove(id)
        =~= requests.remove(id));
}

/// A less urgent priority never has less work ahead of it.
pub proof fn law_work_grows_with_priority(requests: Requests, generation: GenerationId, urgent: u32, late: u32)
    requires
        requests.dom().finite(),
        urgent <= late,
    ensures
        crate::live_requests::queued_work_through(requests, generation, urgent as int)
            <= crate::live_requests::queued_work_through(requests, generation, late as int),
{
    crate::sums::lemma_total_le(
        requests,
        crate::live_requests::through_weight(generation, urgent as int),
        crate::live_requests::through_weight(generation, late as int),
    );
}

/// A request that generates output has no prompt work, whatever its priority.
pub proof fn law_output_generation_has_no_prompt_work(request: LiveView, generation: GenerationId, last: int)
    requires
        request.queue matches Some(queue) ==> queue.phase is OutputGeneration,
    ensures
        crate::live_requests::through_weight(generation, last)(request) == 0,
{
}

/// No request of a retired generation is left among the live ones, and nothing
/// observed under it counts any more. The requests that had nothing to do with
/// it are as they were, and so is what was observed of those that are queued
/// under another generation.
pub proof fn law_retirement_is_complete(requests: Requests, generation: GenerationId, id: Seq<char>)
    requires
        crate::live_requests::all_valid(requests),
    ensures
        ({
            let after = crate::live_requests::retired(requests, generation);
            &&& after.contains_key(id) ==> {
                &&& after[id].valid()
                &&& after[id].generation() != generation
                &&& after[id].queue matches Some(queue) ==> queue.generation != generation
                &&& after[id].observed matches Some(observed) ==> observed.generation != generation
                    || after[id].uncounted
            }
            &&& requests.contains_key(id) && requests[id].generation() != generation ==> {
                &&& after.contains_key(id)
                &&& after[id].queue == requests[id].queue
                &&& after[id].observed == requests[id].observed
                &&& (requests[id].observed matches Some(observed) ==> observed.generation != generation)
                    ==> after[id] == requests[id]
            }
        }),
{
    if requests.contains_key(id) {
        assert(requests[id].valid());
    }
}

/// No input tokens are counted under a retired generation.
pub proof fn law_retired_generation_counts_nothing(
    requests: Requests,
    generation: GenerationId,
    state: RequestObservationState,
)
    requires
        requests.dom().finite(),
        crate::live_requests::all_valid(requests),
    ensures
        crate::live_requests::observed_tokens(
            crate::live_requests::retired(requests, generation),
            generation,
            state,
        ) == 0,
{
    let after = crate::live_requests::retired(requests, generation);
    assert(after.dom().subset_of(requests.dom()));
    vstd::set_lib::lemma_len_subset(after.dom(), requests.dom());
    assert forall|id: Seq<char>| after.contains_key(id) implies crate::live_requests::observed_weight(
        generation,
        state,
    )(#[trigger] after[id]) == 0 by {
        law_retirement_is_complete(requests, generation, id);
    }
    crate::sums::lemma_total_zero(after, crate::live_requests::observed_weight(generation, state));
}

/// The snapshot of a retired generation is empty.
pub proof fn law_retired_snapshot_is_empty<F: Fn(u64, Binary64) -> Option<u64>>(
    snapshot: QueueModelSnapshot,
    requests: Requests,
    generation: GenerationId,
    queue_time_delta_ms: F,
)
    requires
        requests.dom().finite(),
        crate::live_requests::all_valid(requests),
        crate::live_requests::describes(
            snapshot,
            crate::live_requests::retired(requests, generation),
            generation,
            None,
            queue_time_delta_ms,
        ),
    ensures
        snapshot.is_empty(),
{
    let after = crate::live_requests::retired(requests, generation);
    assert(after.dom().subset_of(requests.dom()));
    vstd::set_lib::lemma_len_subset(after.dom(), requests.dom());
    assert forall|id: Seq<char>| after.contains_key(id) implies (#[trigger] after[id]).queue matches Some(queue)
        ==> queue.generation != generation by {
        law_retirement_is_complete(requests, generation, id);
    }
    crate::sums::lemma_total_zero(
        after,
        crate::live_requests::phase_weight(generation, TrackedPromptPhase::Pending),
    );
    crate::sums::lemma_total_zero(
        after,
        crate::live_requests::phase_weight(generation, TrackedPromptPhase::InputProcessing),
    );
    crate::sums::lemma_total_zero(
        after,
        crate::live_requests::phase_weight(generation, TrackedPromptPhase::OutputGeneration),
    );
    crate::sums::lemma_total_zero(after, crate::live_requests::token_weight(generation));
    crate::sums::lemma_total_zero(after, crate::live_requests::through_weight(generation, u32::MAX as int));
    let rates = snapshot.active_chat_output_tps@;
    if rates.len() > 0 {
        broadcast use vstd::seq_lib::group_to_multiset_ensures;

        let rate = rates[0];
        crate::sums::lemma_total_zero(after, crate::live_requests::rate_weight(generation, rate));
        assert(rates.contains(rate));
        assert(rates.to_multiset().count(rate) > 0);
    }
}

/// The time that a rate function gives, where it gives one.
pub open spec fn told_ms(delta: Option<u64>) -> u64 {
    match delta {
        Some(delta) => delta,
        None => u64::MAX,
    }
}

/// More tokens never take less time.
pub open spec fn grows<F: Fn(u64, Binary64) -> Option<u64>>(queue_time_delta_ms: F, rate: Binary64) -> bool {
    forall|less: u64, more: u64, short: Option<u64>, long: Option<u64>|
        less <= more && #[trigger] call_ensures(queue_time_delta_ms, (less, rate), short) && #[trigger] call_ensures(
            queue_time_delta_ms,
            (more, rate),
            long,
        ) ==> told_ms(short) <= told_ms(long)
}

/// The figures of a snapshot fit each other: what runs is queued or generates
/// output, what is processed is queued, and the queued input is part of the
/// whole. Times are estimated exactly where a throughput is known, and where no
/// prompt work is left there is an estimate for no priority.
pub proof fn law_snapshot_is_consistent<F: Fn(u64, Binary64) -> Option<u64>>(
    snapshot: QueueModelSnapshot,
    requests: Requests,
    generation: GenerationId,
    throughput: Option<Binary64>,
    queue_time_delta_ms: F,
)
    requires
        requests.dom().finite(),
        crate::live_requests::describes(snapshot, requests, generation, throughput, queue_time_delta_ms),
    ensures
        snapshot.num_running_queries == snapshot.queue_size + snapshot.output_generation_queries,
        snapshot.input_processing_queries <= snapshot.queue_size,
        snapshot.queued_input_size <= snapshot.total_query_input_size,
        snapshot.queue_time_estimate_ms_by_priority is Some <==> throughput is Some,
        snapshot.queued_input_size == 0 ==> (snapshot.queue_time_estimate_ms_by_priority matches Some(estimates)
            ==> estimates@ == Map::<u32, u64>::empty()),
{
    let through = crate::live_requests::through_weight(generation, u32::MAX as int);
    crate::sums::lemma_total_le(requests, through, crate::live_requests::token_weight(generation));
    if snapshot.queued_input_size == 0 {
        if let Some(estimates) = snapshot.queue_time_estimate_ms_by_priority {
            assert forall|priority: u32| !(#[trigger] estimates@.contains_key(priority)) by {
                crate::sums::lemma_total_le(
                    requests,
                    crate::live_requests::work_weight(generation, priority),
                    through,
                );
            }
            assert(estimates@ =~= Map::<u32, u64>::empty());
        }
    }
}

/// A request of a less urgent priority is never estimated to wait shorter, as
/// long as more tokens never take less time.
pub proof fn law_estimates_grow_with_priority<F: Fn(u64, Binary64) -> Option<u64>>(
    snapshot: QueueModelSnapshot,
    requests: Requests,
    generation: GenerationId,
    throughput: Option<Binary64>,
    queue_time_delta_ms: F,
    urgent: u32,
    late: u32,
)
    requires
        requests.dom().finite(),
        crate::live_requests::describes(snapshot, requests, generation, throughput, queue_time_delta_ms),
        throughput matches Some(rate) ==> grows(queue_time_delta_ms, rate),
        urgent <= late,
    ensures
        snapshot.queue_time_estimate_ms_by_priority matches Some(estimates) ==> (estimates@.contains_key(urgent)
            && estimates@.contains_key(late) ==> estimates@[urgent] <= estimates@[late]),
{
    law_work_grows_with_priority(requests, generation, urgent, late);
    if let Some(estimates) = snapshot.queue_time_estimate_ms_by_priority {
        if estimates@.contains_key(urgent) && estimates@.contains_key(late) {
            let rate = throughput->0;
            let less = crate::live_requests::queued_work_through(requests, generation, urgent as int);
            let more = crate::live_requests::queued_work_through(requests, generation, late as int);
            assert(crate::queue_model::estimated(queue_time_delta_ms, less, rate, estimates@[urgent]));
            assert(crate::queue_model::estimated(queue_time_delta_ms, more, rate, estimates@[late]));
            if more <= u64::MAX {
                let short = choose|delta: Option<u64>| #[trigger]
                    call_ensures(queue_time_delta_ms, (less as u64, rate), delta) && estimates@[urgent] == told_ms(delta);
                let long = choose|delta: Option<u64>| #[trigger]
                    call_ensures(queue_time_delta_ms, (more as u64, rate), delta) && estimates@[late] == told_ms(delta);
                assert(told_ms(short) <= told_ms(long));
            }
        }
    }
}

} // verus!
