//! What the live requests, the queue times and the decisions at the queue are,
//! call by call.

use http::{HeaderMap, HeaderValue};
use vstd::prelude::*;

use crate::binary64::Binary64;
use crate::generation::{GenerationId, ModelGeneration};
use crate::live_requests::{LiveRequestState, Requests};
use crate::queue_admission::{
    expected_queue_ms, mismatch_threshold_ms, PylonQueueMismatchRetryConfig, QueueAdmissionDecision,
    QueueTrackedRequestGuard, RequestObservationTransition,
};
use crate::queue_model::{QueueModelSnapshot, TrackedPromptPhase};
use crate::request_observation::{RequestObservation, RequestObservationState, RequiredTunnelHeaders};

verus! {

/// The prompt tokens of a queued request that stand before a newcomer of the
/// given priority: all of them while the prompt waits under a priority at least
/// as urgent or is being processed, and none once output is generated.
pub open spec fn tokens_ahead(phase: TrackedPromptPhase, own: u32, tokens: u64, priority: u32) -> nat {
    match phase {
        TrackedPromptPhase::Pending => if own <= priority {
            tokens as nat
        } else {
            0
        },
        TrackedPromptPhase::InputProcessing => tokens as nat,
        TrackedPromptPhase::OutputGeneration => 0,
    }
}

/// One request more, under its own generation, adds what stands ahead of each
/// priority and nothing under another generation.
proof fn lemma_work_with_one_more(
    requests: Requests,
    id: Seq<char>,
    live: crate::live_requests::LiveView,
    generation: GenerationId,
    priority: u32,
)
    requires
        requests.dom().finite(),
    ensures
        ({
            let after = crate::live_requests::queued_work_through(
                requests.insert(id, live),
                generation,
                priority as int,
            );
            let others = crate::live_requests::queued_work_through(requests.remove(id), generation, priority as int);
            let own = live.queue is Some && live.queue->0.generation == generation;
            &&& own ==> after == others + tokens_ahead(
                live.queue->0.phase,
                live.queue->0.priority,
                live.queue->0.input_tokens,
                priority,
            )
            &&& !own ==> after == others
        }),
{
    let weight = crate::live_requests::through_weight(generation, priority as int);
    assert(requests.insert(id, live) =~= requests.remove(id).insert(id, live));
    crate::sums::lemma_total_insert(requests.remove(id), weight, id, live);
}

/// An observation of a request that goes on queues it under the generation that
/// it names, with the priority and the input tokens that it names. The request
/// waits until its prompt is processed, and never falls back behind where it
/// was. A newcomer of some priority then has exactly those tokens more ahead of
/// it where the request is at least as urgent, and none where it is less.
pub proof fn law_observed_request_queues_as_observed(
    live: &mut LiveRequestState,
    observation: RequestObservation,
    generation: ModelGeneration,
    transition: RequestObservationTransition,
    priority: u32,
    other: GenerationId,
)
    requires
        live.wf(),
        call_ensures(LiveRequestState::transition_observation, (live, &observation, Some(&generation)), transition),
        !(observation.state is Complete),
        !(observation.state is Failed),
    ensures
        ({
            let id = observation.request_id@;
            let before = old(live).requests();
            let after = final(live).requests();
            let was_queued = before.contains_key(id) && before[id].queue is Some;
            let queue = after[id].queue->0;
            &&& after.contains_key(id) && after[id].queue is Some
            &&& queue.generation == generation@
            &&& queue.priority == observation.priority
            &&& queue.input_tokens == observation.input_tokens
            &&& after[id].observed is Some && !after[id].uncounted
            &&& after[id].observed->0.generation == generation@
            &&& after[id].observed->0.state == observation.state
            &&& after[id].observed->0.input_tokens == observation.input_tokens
            &&& !was_queued ==> {
                &&& observation.state is Accepted || observation.state is UpstreamConnecting ==> queue.phase is Pending
                &&& observation.state is InputProcessing ==> queue.phase is InputProcessing
                &&& observation.state is OutputGeneration ==> queue.phase is OutputGeneration
                &&& queue.active_chat_output_tps is None
            }
            &&& was_queued ==> {
                &&& observation.state is OutputGeneration || before[id].queue->0.phase is OutputGeneration
                    <==> queue.phase is OutputGeneration
                &&& queue.phase is Pending <==> before[id].queue->0.phase is Pending && (observation.state is Accepted
                    || observation.state is UpstreamConnecting)
                &&& queue.phase is OutputGeneration ==> queue.active_chat_output_tps
                    == before[id].queue->0.active_chat_output_tps
                &&& !(queue.phase is OutputGeneration) ==> queue.active_chat_output_tps is None
            }
            &&& after[id].observed is Some
            &&& after[id].observed->0.generation == generation@
            &&& after[id].observed->0.state == observation.state
            &&& after[id].observed->0.input_tokens == observation.input_tokens
            &&& transition.current is Some
            &&& transition.current->0.generation@ == generation@
            &&& transition.current->0.state == observation.state
            &&& transition.current->0.input_tokens == observation.input_tokens
            &&& crate::live_requests::queued_work_through(after, generation@, priority as int)
                == crate::live_requests::queued_work_through(before.remove(id), generation@, priority as int)
                + tokens_ahead(queue.phase, observation.priority, observation.input_tokens, priority)
            &&& other != generation@ ==> crate::live_requests::queued_work_through(after, other, priority as int)
                == crate::live_requests::queued_work_through(before.remove(id), other, priority as int)
        }),
{
    let before = old(live).requests();
    let id = observation.request_id@;
    live.lemma_requests();
    let after = final(live).requests();
    assert(after =~= before.insert(id, after[id]));
    lemma_work_with_one_more(before, id, after[id], generation@, priority);
    lemma_work_with_one_more(before, id, after[id], other, priority);
}

/// An observation without a generation keeps the request under the generation
/// that it is queued under, else under the one last observed; a request that is
/// not known does not become live by it. An observation that ends a request
/// takes it away. No other request is touched, and no throughput.
pub proof fn law_observation_keeps_to_its_request(
    live: &mut LiveRequestState,
    observation: RequestObservation,
    generation: Option<&ModelGeneration>,
    transition: RequestObservationTransition,
    other: Seq<char>,
    any: GenerationId,
)
    requires
        live.wf(),
        call_ensures(LiveRequestState::transition_observation, (live, &observation, generation), transition),
    ensures
        ({
            let id = observation.request_id@;
            let before = old(live).requests();
            let after = final(live).requests();
            let ended = observation.state is Complete || observation.state is Failed;
            &&& ended ==> !after.contains_key(id) && transition.current is None
            &&& !ended && generation is None ==> {
                &&& !before.contains_key(id) ==> !after.contains_key(id) && transition.current is None
                &&& before.contains_key(id) ==> after.contains_key(id) && after[id].queue is Some
                    && transition.current is Some
                &&& before.contains_key(id) && before[id].queue is Some ==> after[id].queue->0.generation
                    == before[id].queue->0.generation && transition.current->0.generation@
                    == before[id].queue->0.generation
                &&& before.contains_key(id) && before[id].queue is None ==> after[id].queue->0.generation
                    == before[id].observed->0.generation && transition.current->0.generation@
                    == before[id].observed->0.generation
                &&& before.contains_key(id) ==> {
                    &&& after[id].queue->0.priority == observation.priority
                    &&& after[id].queue->0.input_tokens == observation.input_tokens
                    &&& transition.current->0.state == observation.state
                    &&& transition.current->0.input_tokens == observation.input_tokens
                }
            }
            &&& transition.prior is Some <==> before.contains_key(id) && before[id].observed is Some
            &&& transition.prior matches Some(prior) ==> {
                &&& prior.generation@ == before[id].observed->0.generation
                &&& prior.state == before[id].observed->0.state
                &&& prior.input_tokens == before[id].observed->0.input_tokens
            }
            &&& other != id ==> {
                &&& after.contains_key(other) == before.contains_key(other)
                &&& before.contains_key(other) ==> after[other] == before[other]
            }
            &&& final(live).throughput(any) == old(live).throughput(any)
        }),
{
    live.lemma_requests();
}

/// A generation's load is told to have changed exactly where it is the one that
/// the observation names or that the request was queued or observed under
/// before; each is told once.
pub proof fn law_changed_generations_are_those_of_the_request(
    live: &mut LiveRequestState,
    observation: RequestObservation,
    generation: Option<&ModelGeneration>,
    transition: RequestObservationTransition,
    any: GenerationId,
)
    requires
        live.wf(),
        call_ensures(LiveRequestState::transition_observation, (live, &observation, generation), transition),
    ensures
        ({
            let id = observation.request_id@;
            let before = old(live).requests();
            let told = crate::keyed::views(transition.changed_generations@);
            &&& told.no_duplicates()
            &&& told.contains(any) <==> {
                ||| generation is Some && generation->0@ == any
                ||| before.contains_key(id) && before[id].queue is Some && before[id].queue->0.generation == any
                ||| before.contains_key(id) && before[id].observed is Some && before[id].observed->0.generation == any
            }
        }),
{
    let told = crate::keyed::views(transition.changed_generations@);
    crate::keyed::lemma_ascending_distinct::<ModelGeneration>(told);
    assert(told.contains(any) <==> told.to_set().contains(any));
}

/// The input tokens that are told for a state are those of all requests last
/// observed in it: an observation of a new request adds its own to what they
/// were, and its end takes them off again.
pub proof fn law_token_totals_follow_the_request(
    live: &mut LiveRequestState,
    observation: RequestObservation,
    generation: ModelGeneration,
    transition: RequestObservationTransition,
)
    requires
        live.wf(),
        call_ensures(LiveRequestState::transition_observation, (live, &observation, Some(&generation)), transition),
    ensures
        ({
            let id = observation.request_id@;
            let before = old(live).requests();
            let totals = transition.input_token_totals@;
            let ended = observation.state is Complete || observation.state is Failed;
            &&& !before.contains_key(id) && !ended ==> {
                &&& totals.len() == 1
                &&& totals[0].generation@ == generation@
                &&& totals[0].state == observation.state
                &&& totals[0].input_tokens == crate::live_requests::observed_tokens(
                    before,
                    generation@,
                    observation.state,
                ) + observation.input_tokens
            }
            &&& !before.contains_key(id) && ended ==> totals.len() == 0
            &&& before.contains_key(id) && before[id].observed is Some && !before[id].uncounted && ended ==> {
                let prior = before[id].observed->0;
                &&& totals.len() == 1
                &&& totals[0].generation@ == prior.generation
                &&& totals[0].state == prior.state
                &&& totals[0].input_tokens + prior.input_tokens == crate::live_requests::observed_tokens(
                    before,
                    prior.generation,
                    prior.state,
                )
            }
            &&& before.contains_key(id) && before[id].observed is Some && !before[id].uncounted && !ended
                && before[id].observed->0.generation == generation@ && before[id].observed->0.state
                != observation.state ==> {
                let prior = before[id].observed->0;
                &&& totals.len() == 2
                &&& totals[0].generation@ == generation@ && totals[1].generation@ == generation@
                &&& totals[0].state == prior.state && totals[1].state == observation.state
                &&& totals[0].input_tokens + prior.input_tokens == crate::live_requests::observed_tokens(
                    before,
                    generation@,
                    prior.state,
                )
                &&& totals[1].input_tokens == crate::live_requests::observed_tokens(
                    before,
                    generation@,
                    observation.state,
                ) + observation.input_tokens
            }
        }),
{
    let id = observation.request_id@;
    let before = old(live).requests();
    let after = final(live).requests();
    live.lemma_requests();
    if before.contains_key(id) {
        live.lemma_valid(id);
    }
    if after.contains_key(id) {
        assert(after =~= before.remove(id).insert(id, after[id]));
    } else {
        assert(after =~= before.remove(id));
    }
    lemma_observed_replaced(before, after, id, generation@, observation.state);
    if before.contains_key(id) && before[id].observed is Some {
        let prior = before[id].observed->0;
        lemma_observed_replaced(before, after, id, prior.generation, prior.state);
    }
}

proof fn lemma_observed_replaced(
    before: Requests,
    after: Requests,
    id: Seq<char>,
    generation: GenerationId,
    state: RequestObservationState,
)
    requires
        before.dom().finite(),
        after.contains_key(id) ==> after == before.remove(id).insert(id, after[id]),
        !after.contains_key(id) ==> after == before.remove(id),
    ensures
        ({
            let weight = crate::live_requests::observed_weight(generation, state);
            let own_before = if before.contains_key(id) {
                weight(before[id])
            } else {
                0
            };
            let own_after = if after.contains_key(id) {
                weight(after[id])
            } else {
                0
            };
            crate::live_requests::observed_tokens(after, generation, state) + own_before
                == crate::live_requests::observed_tokens(before, generation, state) + own_after
        }),
{
    let weight = crate::live_requests::observed_weight(generation, state);
    if before.contains_key(id) {
        crate::sums::lemma_total_remove(before, weight, id);
    } else {
        assert(before.remove(id) =~= before);
    }
    if after.contains_key(id) {
        crate::sums::lemma_total_insert(before.remove(id), weight, id, after[id]);
    }
}

/// A request is queued as waiting, under the generation, with the priority that
/// its headers give (the most urgent where they give none) and all its input
/// tokens; what was observed of it stays.
pub proof fn law_request_is_queued_as_its_headers_say(
    live: &mut LiveRequestState,
    required: RequiredTunnelHeaders,
    generation: ModelGeneration,
    guard: QueueTrackedRequestGuard,
    priority: u32,
    other: Seq<char>,
)
    requires
        live.wf(),
        call_ensures(LiveRequestState::track_generation_request, (live, &required, generation), guard),
    ensures
        ({
            let id = required.request_id@;
            let before = old(live).requests();
            let after = final(live).requests();
            let own = if required.priority is Some {
                required.priority->0
            } else {
                0
            };
            &&& after.contains_key(id) && after[id].queue is Some
            &&& after[id].queue->0.generation == generation@
            &&& after[id].queue->0.priority == own
            &&& after[id].queue->0.input_tokens == required.input_tokens
            &&& after[id].queue->0.phase is Pending
            &&& after[id].queue->0.active_chat_output_tps is None
            &&& before.contains_key(id) ==> after[id].observed == before[id].observed
            &&& !before.contains_key(id) ==> after[id].observed is None
            &&& other != id ==> {
                &&& after.contains_key(other) == before.contains_key(other)
                &&& before.contains_key(other) ==> after[other] == before[other]
            }
            &&& crate::live_requests::queued_work_through(after, generation@, priority as int)
                == crate::live_requests::queued_work_through(before.remove(id), generation@, priority as int) + (if own
                <= priority {
                required.input_tokens as nat
            } else {
                0
            })
            &&& guard.request_id() == id && !guard.finished()
        }),
{
    live.lemma_requests();
    let before = old(live).requests();
    let after = final(live).requests();
    let id = required.request_id@;
    assert(after =~= before.insert(id, after[id]));
    lemma_work_with_one_more(before, id, after[id], generation@, priority);
}

/// The handle of a request moves it on: once it is sent its prompt is ahead of
/// every newcomer, once it has output its prompt is ahead of none, and once it is
/// finished it is queued no more. Nothing else of it changes, and nothing of
/// another request.
pub proof fn law_handle_moves_its_request_on(
    guard: &mut QueueTrackedRequestGuard,
    live: &mut LiveRequestState,
    sent: &mut QueueTrackedRequestGuard,
    sent_live: &mut LiveRequestState,
    ended: &mut QueueTrackedRequestGuard,
    ended_live: &mut LiveRequestState,
    out: (),
    other: Seq<char>,
)
    requires
        live.wf(),
        sent_live.wf(),
        ended_live.wf(),
        call_ensures(QueueTrackedRequestGuard::on_upstream_send, (guard, live), out),
        call_ensures(QueueTrackedRequestGuard::observe_output, (sent, sent_live), out),
        call_ensures(QueueTrackedRequestGuard::finish, (ended, ended_live), out),
    ensures
        moves_on(
            old(live).requests(),
            final(live).requests(),
            old(guard).request_id(),
            TrackedPromptPhase::InputProcessing,
            other,
        ),
        moves_on(
            old(sent_live).requests(),
            final(sent_live).requests(),
            old(sent).request_id(),
            TrackedPromptPhase::OutputGeneration,
            other,
        ),
        *final(guard) == *old(guard),
        *final(sent) == *old(sent),
        final(ended).finished() && final(ended).request_id() == old(ended).request_id(),
        old(ended).finished() ==> final(ended_live).requests() == old(ended_live).requests(),
        !old(ended).finished() ==> {
            let id = old(ended).request_id();
            let before = old(ended_live).requests();
            let after = final(ended_live).requests();
            &&& after.contains_key(id) ==> after[id].queue is None && before.contains_key(id) && after[id].observed
                == before[id].observed
            &&& before.contains_key(id) && before[id].observed is Some ==> after.contains_key(id)
            &&& other != id ==> after.contains_key(other) == before.contains_key(other)
            &&& other != id && before.contains_key(other) ==> after[other] == before[other]
        },
{
    ended_live.lemma_requests();
    assert(final(live).requests().dom() =~= old(live).requests().dom());
    assert(final(sent_live).requests().dom() =~= old(sent_live).requests().dom());
}

/// The request has come at least as far as the phase.
pub open spec fn moves_on(
    before: Requests,
    after: Requests,
    id: Seq<char>,
    phase: TrackedPromptPhase,
    other: Seq<char>,
) -> bool {
    &&& after.dom() == before.dom()
    &&& other != id && before.contains_key(other) ==> after[other] == before[other]
    &&& before.contains_key(id) && before[id].queue is None ==> after[id] == before[id]
    &&& before.contains_key(id) && before[id].queue is Some ==> {
        let was = before[id].queue->0;
        let is = after[id].queue->0;
        &&& after[id].queue is Some
        &&& after[id].observed == before[id].observed
        &&& is.generation == was.generation && is.priority == was.priority && is.input_tokens == was.input_tokens
        &&& is.active_chat_output_tps == was.active_chat_output_tps
        &&& phase is OutputGeneration ==> is.phase is OutputGeneration
        &&& phase is InputProcessing ==> (if was.phase is Pending {
            is.phase is InputProcessing
        } else {
            is.phase == was.phase
        })
    }
}

/// A queued request takes on an output rate that is finite and positive and
/// drops what it had for any other; its model is told. A request that is not
/// queued has no rate.
pub proof fn law_output_rate_is_taken_on(
    live: &mut LiveRequestState,
    request_id: String,
    rate: Option<Binary64>,
    model_id: Option<String>,
    other: Seq<char>,
)
    requires
        live.wf(),
        call_ensures(LiveRequestState::update_active_output_tps, (live, &request_id, rate), model_id),
    ensures
        ({
            let id = request_id@;
            let before = old(live).requests();
            let after = final(live).requests();
            let queued = before.contains_key(id) && before[id].queue is Some;
            &&& model_id is Some <==> queued
            &&& !queued ==> after == before
            &&& queued ==> {
                &&& model_id->0@ == before[id].queue->0.generation.model_id
                &&& after.contains_key(id) && after[id].queue is Some
                &&& after[id].queue->0.phase == before[id].queue->0.phase
                &&& after[id].queue->0.priority == before[id].queue->0.priority
                &&& after[id].queue->0.input_tokens == before[id].queue->0.input_tokens
                &&& after[id].queue->0.generation == before[id].queue->0.generation
                &&& after[id].observed == before[id].observed
                &&& rate is Some && 0 < rate->0.bits < 0x7FF0_0000_0000_0000
                    ==> after[id].queue->0.active_chat_output_tps == Some(rate->0)
                &&& rate is None || rate->0.bits == 0 || rate->0.bits >= 0x7FF0_0000_0000_0000
                    ==> after[id].queue->0.active_chat_output_tps is None
            }
            &&& other != id ==> after.contains_key(other) == before.contains_key(other)
            &&& other != id && before.contains_key(other) ==> after[other] == before[other]
        }),
{
}

/// The throughput of a generation is the last finite positive rate set for it,
/// and none after any other; no other generation's changes, nor any request.
pub proof fn law_throughput_is_the_last_one_set(
    live: &mut LiveRequestState,
    generation: ModelGeneration,
    rate: Binary64,
    out: (),
    other: GenerationId,
)
    requires
        live.wf(),
        call_ensures(LiveRequestState::update_generation_throughput, (live, &generation, rate), out),
    ensures
        0 < rate.bits < 0x7FF0_0000_0000_0000 ==> final(live).throughput(generation@) == Some(rate),
        rate.bits == 0 || rate.bits >= 0x7FF0_0000_0000_0000 ==> final(live).throughput(generation@) is None,
        other != generation@ ==> final(live).throughput(other) == old(live).throughput(other),
        final(live).requests() == old(live).requests(),
{
}

/// What the headers promise: the number in them, where there is one.
pub proof fn law_expected_time_is_the_number_in_the_header(
    headers: HeaderMap<HeaderValue>,
    expected: Option<u64>,
    number: u64,
    name: Seq<char>,
)
    requires
        call_ensures(expected_queue_ms, (&headers,), expected),
        name == "x-stargate-expected-queue-ms"@,
    ensures
        ({
            let contents = crate::headers::header_contents(headers);
            &&& !contents.contains_key(name) ==> expected is None
            &&& contents.contains_key(name) && crate::headers::value_text(contents[name][0]) is None
                ==> expected is None
            &&& contents.contains_key(name) && crate::headers::value_text(contents[name][0]) is Some
                && crate::text::trimmed(crate::headers::value_text(contents[name][0])->0)
                == crate::text::decimal_text(number as nat) ==> expected == Some(number)
        }),
{
    crate::tunnel_contract::lemma_header_names();
    crate::text::lemma_decimal_round_trip(number as nat);
}

/// A function from tokens and a rate to a time that gives one answer.
pub open spec fn gives_one_answer<F: Fn(u64, Binary64) -> Option<u64>>(f: F) -> bool {
    forall|tokens: u64, rate: Binary64, one: Option<u64>, two: Option<u64>|
        #[trigger] call_ensures(f, (tokens, rate), one) && #[trigger] call_ensures(f, (tokens, rate), two)
            ==> one == two
}

/// So for a function that scales a time.
pub open spec fn scales_alike<G: Fn(u64, Binary64) -> u64>(g: G) -> bool {
    forall|ms: u64, factor: Binary64, one: u64, two: u64|
        #[trigger] call_ensures(g, (ms, factor), one) && #[trigger] call_ensures(g, (ms, factor), two) ==> one == two
}

/// The threshold is at least the expected time and the margin, at least the
/// expected time scaled by the factor, and no more than the larger of the two.
/// Only a finite positive factor scales; in place of any other stands one.
pub proof fn law_threshold_is_the_larger_allowance<G: Fn(u64, Binary64) -> u64>(
    expected_ms: u64,
    config: PylonQueueMismatchRetryConfig,
    scale_ms: G,
    threshold: u64,
)
    requires
        call_ensures(mismatch_threshold_ms::<G>, (expected_ms, &config, &scale_ms), threshold),
        scales_alike(scale_ms),
    ensures
        ({
            let usable = 0 < config.tolerance_factor.bits < 0x7FF0_0000_0000_0000;
            let factor = if usable {
                config.tolerance_factor
            } else {
                Binary64 { bits: 0x3FF0_0000_0000_0000 }
            };
            &&& threshold >= expected_ms
            &&& expected_ms + config.min_delta_ms <= u64::MAX ==> threshold >= expected_ms + config.min_delta_ms
            &&& expected_ms + config.min_delta_ms > u64::MAX ==> threshold == u64::MAX
            &&& forall|scaled: u64| #[trigger]
                call_ensures(scale_ms, (expected_ms, factor), scaled) ==> {
                    &&& threshold >= scaled
                    &&& threshold == scaled || threshold == u64::MAX || threshold == expected_ms + config.min_delta_ms
                }
        }),
{
}

/// A request is turned away exactly where admission is on, the router has
/// promised a time, the local time is known and it is longer than the threshold.
/// What is decided on comes back in the decision.
pub proof fn law_request_is_turned_away_only_for_a_longer_queue<
    F: Fn(u64, Binary64) -> Option<u64>,
    G: Fn(u64, Binary64) -> u64,
>(
    live: LiveRequestState,
    config: PylonQueueMismatchRetryConfig,
    required: RequiredTunnelHeaders,
    generation: Option<&ModelGeneration>,
    headers: HeaderMap<HeaderValue>,
    delta: F,
    scale: G,
    decision: QueueAdmissionDecision,
    expected: Option<u64>,
)
    requires
        live.wf(),
        call_ensures(
            LiveRequestState::evaluate_generation::<F, G>,
            (&live, &config, &required, generation, &headers, &delta, &scale),
            decision,
        ),
        call_ensures(expected_queue_ms, (&headers,), expected),
    ensures
        decision is Disabled <==> !config.enabled,
        decision is MissingEstimate <==> config.enabled && expected is None,
        decision is UnknownLocalEstimate <==> config.enabled && expected is Some && (generation is None
            || live.throughput(generation->0@) is None),
        decision matches QueueAdmissionDecision::Accepted { expected_ms, actual_ms, threshold_ms } ==> {
            &&& Some(expected_ms) == expected
            &&& actual_ms <= threshold_ms
            &&& threshold_ms >= expected_ms
            &&& expected_ms + config.min_delta_ms <= u64::MAX ==> threshold_ms >= expected_ms + config.min_delta_ms
        },
        decision matches QueueAdmissionDecision::Rejected { expected_ms, actual_ms, threshold_ms, retry_after_ms } ==> {
            &&& Some(expected_ms) == expected
            &&& actual_ms > threshold_ms
            &&& threshold_ms >= expected_ms
            &&& expected_ms + config.min_delta_ms <= u64::MAX ==> actual_ms > expected_ms + config.min_delta_ms
            &&& retry_after_ms == config.retry_after_ms
        },
        decision matches QueueAdmissionDecision::UnknownLocalEstimate { expected_ms } ==> Some(expected_ms) == expected,
{
}

/// The time that is weighed against the promise is the time for the prompt
/// tokens of the other requests that stand ahead: those waiting under a priority
/// at least as urgent, and those being processed.
pub proof fn law_decision_weighs_the_tokens_ahead<
    F: Fn(u64, Binary64) -> Option<u64>,
    G: Fn(u64, Binary64) -> u64,
>(
    live: LiveRequestState,
    config: PylonQueueMismatchRetryConfig,
    required: RequiredTunnelHeaders,
    generation: ModelGeneration,
    headers: HeaderMap<HeaderValue>,
    delta: F,
    scale: G,
    decision: QueueAdmissionDecision,
    ahead: nat,
    told: Option<u64>,
)
    requires
        live.wf(),
        call_ensures(
            LiveRequestState::evaluate_generation::<F, G>,
            (&live, &config, &required, Some(&generation), &headers, &delta, &scale),
            decision,
        ),
        gives_one_answer(delta),
        live.throughput(generation@) is Some,
        ahead == crate::sums::total(
            live.requests().remove(required.request_id@),
            |other: crate::live_requests::LiveView|
                if other.queue is Some && other.queue->0.generation == generation@ {
                    tokens_ahead(
                        other.queue->0.phase,
                        other.queue->0.priority,
                        other.queue->0.input_tokens,
                        if required.priority is Some {
                            required.priority->0
                        } else {
                            0
                        },
                    )
                } else {
                    0
                },
        ),
        ahead <= u64::MAX,
        call_ensures(delta, (ahead as u64, live.throughput(generation@)->0), told),
    ensures
        decision matches QueueAdmissionDecision::Accepted { actual_ms, .. } ==> (if told is Some {
            actual_ms == told->0
        } else {
            actual_ms == u64::MAX
        }),
        decision matches QueueAdmissionDecision::Rejected { actual_ms, .. } ==> (if told is Some {
            actual_ms == told->0
        } else {
            actual_ms == u64::MAX
        }),
{
    live.lemma_requests();
    let others = live.requests().remove(required.request_id@);
    let priority = required.spec_queue_priority();
    let stated = |other: crate::live_requests::LiveView|
        if other.queue is Some && other.queue->0.generation == generation@ {
            tokens_ahead(
                other.queue->0.phase,
                other.queue->0.priority,
                other.queue->0.input_tokens,
                if required.priority is Some {
                    required.priority->0
                } else {
                    0
                },
            )
        } else {
            0
        };
    let weight = crate::live_requests::through_weight(generation@, priority as int);
    crate::sums::lemma_total_le(others, stated, weight);
    crate::sums::lemma_total_le(others, weight, stated);
    assert(ahead == crate::live_requests::queued_work_through(others, generation@, priority as int));
}

/// A newcomer does not wait for a request that waits under a less urgent
/// priority: the decision on it is the same before and after that request is
/// observed as accepted, whatever its tokens.
pub proof fn law_urgent_newcomer_does_not_wait<
    F: Fn(u64, Binary64) -> Option<u64>,
    G: Fn(u64, Binary64) -> u64,
>(
    live: &mut LiveRequestState,
    observation: RequestObservation,
    generation: ModelGeneration,
    transition: RequestObservationTransition,
    config: PylonQueueMismatchRetryConfig,
    required: RequiredTunnelHeaders,
    headers: HeaderMap<HeaderValue>,
    delta: F,
    scale: G,
    before: QueueAdmissionDecision,
    after: QueueAdmissionDecision,
)
    requires
        live.wf(),
        !live.requests().contains_key(observation.request_id@),
        observation.state is Accepted || observation.state is UpstreamConnecting,
        call_ensures(
            LiveRequestState::evaluate_generation::<F, G>,
            (&*live, &config, &required, Some(&generation), &headers, &delta, &scale),
            before,
        ),
        call_ensures(LiveRequestState::transition_observation, (live, &observation, Some(&generation)), transition),
        call_ensures(
            LiveRequestState::evaluate_generation::<F, G>,
            (&*final(live), &config, &required, Some(&generation), &headers, &delta, &scale),
            after,
        ),
        final(live).wf(),
        gives_one_answer(delta),
        scales_alike(scale),
        required.request_id@ != observation.request_id@,
        required.priority matches Some(priority) ==> priority < observation.priority,
        required.priority is None ==> 0 < observation.priority,
    ensures
        after == before,
{
    live.lemma_requests();
    let id = observation.request_id@;
    let own = required.request_id@;
    let old_requests = old(live).requests();
    let new_requests = final(live).requests();
    let priority = required.spec_queue_priority();
    let weight = crate::live_requests::through_weight(generation@, priority as int);
    assert(new_requests.remove(own) =~= old_requests.remove(own).insert(id, new_requests[id]));
    crate::sums::lemma_total_insert(old_requests.remove(own), weight, id, new_requests[id]);
    assert(weight(new_requests[id]) == 0);
    assert(crate::live_requests::queued_work_through(new_requests.remove(own), generation@, priority as int)
        == crate::live_requests::queued_work_through(old_requests.remove(own), generation@, priority as int));
}

/// What is published of a generation's queue, against the requests themselves:
/// how many wait or are processed, how many are processed, how many generate
/// output, and the input tokens of all of them and of those with prompts left to
/// do. An estimate is given for the priorities with prompt work, and is the time
/// for all tokens ahead.
pub proof fn law_published_queue_counts_the_requests<F: Fn(u64, Binary64) -> Option<u64>>(
    live: LiveRequestState,
    generation: ModelGeneration,
    delta: F,
    snapshot: QueueModelSnapshot,
)
    requires
        live.wf(),
        call_ensures(LiveRequestState::snapshot_generation::<F>, (&live, &generation, &delta), snapshot),
    ensures
        ({
            let waiting = |r: crate::live_requests::LiveView|
                if r.queue is Some && r.queue->0.generation == generation@ && r.queue->0.phase is Pending {
                    1nat
                } else {
                    0nat
                };
            let processed = |r: crate::live_requests::LiveView|
                if r.queue is Some && r.queue->0.generation == generation@ && r.queue->0.phase is InputProcessing {
                    1nat
                } else {
                    0nat
                };
            let generating = |r: crate::live_requests::LiveView|
                if r.queue is Some && r.queue->0.generation == generation@ && r.queue->0.phase is OutputGeneration {
                    1nat
                } else {
                    0nat
                };
            let tokens = |r: crate::live_requests::LiveView|
                if r.queue is Some && r.queue->0.generation == generation@ {
                    r.queue->0.input_tokens as nat
                } else {
                    0nat
                };
            let prompts = |r: crate::live_requests::LiveView|
                if r.queue is Some && r.queue->0.generation == generation@ && !(r.queue->0.phase is OutputGeneration) {
                    r.queue->0.input_tokens as nat
                } else {
                    0nat
                };
            let all = live.requests();
            &&& snapshot.input_processing_queries == crate::sums::total(all, processed)
            &&& snapshot.output_generation_queries == crate::sums::total(all, generating)
            &&& snapshot.queue_size == crate::sums::total(all, waiting) + crate::sums::total(all, processed)
            &&& snapshot.num_running_queries == snapshot.queue_size + snapshot.output_generation_queries
            &&& crate::sums::total(all, tokens) <= u64::MAX ==> snapshot.total_query_input_size == crate::sums::total(
                all,
                tokens,
            )
            &&& crate::sums::total(all, tokens) > u64::MAX ==> snapshot.total_query_input_size == u64::MAX
            &&& crate::sums::total(all, prompts) <= u64::MAX ==> snapshot.queued_input_size == crate::sums::total(
                all,
                prompts,
            )
            &&& crate::sums::total(all, prompts) > u64::MAX ==> snapshot.queued_input_size == u64::MAX
        }),
{
    live.lemma_requests();
    let all = live.requests();
    let own = generation@;
    let waiting = |r: crate::live_requests::LiveView|
        if r.queue is Some && r.queue->0.generation == generation@ && r.queue->0.phase is Pending {
            1nat
        } else {
            0nat
        };
    let processed = |r: crate::live_requests::LiveView|
        if r.queue is Some && r.queue->0.generation == generation@ && r.queue->0.phase is InputProcessing {
            1nat
        } else {
            0nat
        };
    let generating = |r: crate::live_requests::LiveView|
        if r.queue is Some && r.queue->0.generation == generation@ && r.queue->0.phase is OutputGeneration {
            1nat
        } else {
            0nat
        };
    let tokens = |r: crate::live_requests::LiveView|
        if r.queue is Some && r.queue->0.generation == generation@ {
            r.queue->0.input_tokens as nat
        } else {
            0nat
        };
    let prompts = |r: crate::live_requests::LiveView|
        if r.queue is Some && r.queue->0.generation == generation@ && !(r.queue->0.phase is OutputGeneration) {
            r.queue->0.input_tokens as nat
        } else {
            0nat
        };
    lemma_same_total(all, waiting, crate::live_requests::phase_weight(own, TrackedPromptPhase::Pending));
    lemma_same_total(all, processed, crate::live_requests::phase_weight(own, TrackedPromptPhase::InputProcessing));
    lemma_same_total(all, generating, crate::live_requests::phase_weight(own, TrackedPromptPhase::OutputGeneration));
    lemma_same_total(all, tokens, crate::live_requests::token_weight(own));
    lemma_same_total(all, prompts, crate::live_requests::through_weight(own, u32::MAX as int));
}

proof fn lemma_same_total(
    requests: Requests,
    one: spec_fn(crate::live_requests::LiveView) -> nat,
    two: spec_fn(crate::live_requests::LiveView) -> nat,
)
    requires
        requests.dom().finite(),
        forall|id: Seq<char>| requests.contains_key(id) ==> one(#[trigger] requests[id]) == two(requests[id]),
    ensures
        crate::sums::total(requests, one) == crate::sums::total(requests, two),
{
    crate::sums::lemma_total_le(requests, one, two);
    crate::sums::lemma_total_le(requests, two, one);
}

/// The published estimates are the times for all prompt tokens ahead of each
/// priority at which a prompt waits or, for the most urgent, is processed; none
/// are given without a throughput.
pub proof fn law_published_times_are_for_the_tokens_ahead<F: Fn(u64, Binary64) -> Option<u64>>(
    live: LiveRequestState,
    generation: ModelGeneration,
    delta: F,
    snapshot: QueueModelSnapshot,
    priority: u32,
    ahead: nat,
    told: Option<u64>,
)
    requires
        live.wf(),
        call_ensures(LiveRequestState::snapshot_generation::<F>, (&live, &generation, &delta), snapshot),
        gives_one_answer(delta),
        ahead == crate::sums::total(
            live.requests(),
            |other: crate::live_requests::LiveView|
                if other.queue is Some && other.queue->0.generation == generation@ {
                    tokens_ahead(
                        other.queue->0.phase,
                        other.queue->0.priority,
                        other.queue->0.input_tokens,
                        priority,
                    )
                } else {
                    0
                },
        ),
    ensures
        snapshot.queue_time_estimate_ms_by_priority is Some <==> live.throughput(generation@) is Some,
        snapshot.queue_time_estimate_ms_by_priority matches Some(estimates) ==> {
            &&& estimates@.contains_key(priority) && ahead > u64::MAX ==> estimates@[priority] == u64::MAX
            &&& estimates@.contains_key(priority) && ahead <= u64::MAX && call_ensures(
                delta,
                (ahead as u64, live.throughput(generation@)->0),
                told,
            ) ==> (if told is Some {
                estimates@[priority] == told->0
            } else {
                estimates@[priority] == u64::MAX
            })
            &&& estimates@.contains_key(priority) <==> exists|id: Seq<char>| #[trigger]
                live.requests().contains_key(id) && live.requests()[id].queue is Some
                    && live.requests()[id].queue->0.generation == generation@ && live.requests()[id].queue->0.input_tokens
                    > 0 && (live.requests()[id].queue->0.phase is Pending && live.requests()[id].queue->0.priority
                    == priority || live.requests()[id].queue->0.phase is InputProcessing && priority == 0)
        },
{
    live.lemma_requests();
    let stated = |other: crate::live_requests::LiveView|
        if other.queue is Some && other.queue->0.generation == generation@ {
            tokens_ahead(other.queue->0.phase, other.queue->0.priority, other.queue->0.input_tokens, priority)
        } else {
            0
        };
    lemma_same_total(
        live.requests(),
        stated,
        crate::live_requests::through_weight(generation@, priority as int),
    );
    if let Some(estimates) = snapshot.queue_time_estimate_ms_by_priority {
        let weight = crate::live_requests::work_weight(generation@, priority);
        crate::sums::lemma_total_zero(live.requests(), weight);
        if estimates@.contains_key(priority) {
            let id = choose|id: Seq<char>| live.requests().contains_key(id) && weight(#[trigger] live.requests()[id]) != 0;
            assert(live.requests().contains_key(id));
        }
    }
}

} // verus!
