//! What each step in the life of a request leaves in its observation.

use vstd::prelude::*;

use crate::generation::ModelGeneration;
use crate::request_observation::{
    RequestObservation, RequestObservationEndpoint, RequiredTunnelHeaders,
};
use crate::request_observer::{PublishedObservation, RequestObserver, TunnelRequestObserver};
use crate::runtime_state::PylonRuntimeState;

verus! {

/// The time from one moment to another, none where the clock went back.
pub open spec fn time_between(from: u64, to: u64, time: u64) -> bool {
    &&& from <= to ==> from + time == to
    &&& to < from ==> time == 0
}

/// A moment that was noted stays, and one that was not is now.
pub open spec fn noted_once(before: Option<u64>, after: Option<u64>, now: u64) -> bool {
    &&& after is Some
    &&& before is Some ==> after == before
    &&& before is None ==> after == Some(now)
}

/// What was observed is told as it is, under the generation of the request.
pub open spec fn told_as_observed(
    published: Option<PublishedObservation>,
    observation: RequestObservation,
    before: RequestObserver,
    after: RequestObserver,
) -> bool {
    &&& published is Some
    &&& published->0.event.observation == observation
    &&& crate::runtime_state::owned_generation(published->0.event.generation) == before.generation()
    &&& after.observation() == observation
    &&& after.generation() == before.generation()
    &&& after.accepted_at() == before.accepted_at()
}

/// What is told of the live requests is what became of the request: what was
/// observed of it before and what is now. Of a generation that is served no more
/// nothing is told.
pub open spec fn transition_told(
    before: PylonRuntimeState,
    published: Option<PublishedObservation>,
    observer: RequestObserver,
) -> bool {
    let observation = observer.observation();
    let id = observation.request_id@;
    observer.generation() matches Some(generation) ==> {
        let served = before.models().contains_key(generation.model_id)
            && before.models()[generation.model_id].generation
            == generation.sequence;
        let changed = crate::keyed::views(published->0.event.changed_generations@);
        let transition = published->0.transition;
        &&& !served ==> transition is None && changed.len() == 0
        &&& served ==> {
            &&& transition is Some
            &&& changed.contains(generation)
            &&& changed.no_duplicates()
            &&& crate::keyed::views(transition->0.changed_generations@) == changed
            &&& transition->0.current is Some <==> !observation.state.terminal()
            &&& transition->0.current is Some ==> {
                &&& transition->0.current->0.generation@ == generation
                &&& transition->0.current->0.state == observation.state
                &&& transition->0.current->0.input_tokens == observation.input_tokens
            }
            &&& transition->0.prior is Some <==> before.requests().contains_key(id)
                && before.requests()[id].observed is Some
            &&& transition->0.prior is Some ==> {
                &&& transition->0.prior->0.generation@ == before.requests()[id].observed->0.generation
                &&& transition->0.prior->0.state == before.requests()[id].observed->0.state
                &&& transition->0.prior->0.input_tokens == before.requests()[id].observed->0.input_tokens
            }
        }
    }
}

proof fn lemma_transition_told(before: PylonRuntimeState, published: PublishedObservation, observer: RequestObserver)
    requires
        published.tells(before.models(), before.requests(), observer.observation(), observer.generation()),
    ensures
        transition_told(before, Some(published), observer),
{
    if let Some(generation) = observer.generation() {
        let changed = crate::keyed::views(published.event.changed_generations@);
        let id = observer.observation().request_id@;
        if crate::runtime_state::current(before.models(), generation) {
            crate::keyed::lemma_ascending_distinct::<ModelGeneration>(changed);
            assert(crate::queue_admission::touched(before.requests(), id, observer.generation()).contains(generation));
            assert(changed.to_set().contains(generation));
        }
    }
}

/// Nothing that concerns the served models differs.
pub open spec fn models_untouched(before: PylonRuntimeState, after: PylonRuntimeState) -> bool {
    &&& after.models() == before.models()
    &&& after.base_status() == before.base_status()
    &&& after.requires_admitted() == before.requires_admitted()
    &&& forall|generation: crate::generation::GenerationId| #[trigger]
        after.throughput(generation) == before.throughput(generation)
}

/// The live requests follow an observation of a generation that is still served:
/// a request that goes on is queued as the observation says, under that
/// generation, and one that has ended is live no more. No other request is
/// touched, and nothing at all where the generation is served no more.
pub open spec fn load_follows(before: PylonRuntimeState, after: PylonRuntimeState, observer: RequestObserver) -> bool {
    let observation = observer.observation();
    let id = observation.request_id@;
    &&& models_untouched(before, after)
    &&& forall|other: Seq<char>| other != id ==> {
        &&& #[trigger] after.requests().contains_key(other) == before.requests().contains_key(other)
        &&& before.requests().contains_key(other) ==> after.requests()[other] == before.requests()[other]
    }
    &&& observer.generation() matches Some(generation) ==> {
        let served = before.models().contains_key(generation.model_id)
            && before.models()[generation.model_id].generation
            == generation.sequence;
        &&& !served ==> after.requests() == before.requests()
        &&& served && observation.state.terminal() ==> !after.requests().contains_key(id)
        &&& served && !observation.state.terminal() ==> {
            &&& after.requests().contains_key(id)
            &&& after.requests()[id].queue is Some
            &&& after.requests()[id].queue->0.generation == generation
            &&& after.requests()[id].queue->0.priority == observation.priority
            &&& after.requests()[id].queue->0.input_tokens == observation.input_tokens
            &&& after.requests()[id].observed is Some
            &&& after.requests()[id].observed->0.generation == generation
            &&& after.requests()[id].observed->0.state == observation.state
            &&& after.requests()[id].observed->0.input_tokens == observation.input_tokens
        }
    }
}

/// A request that has been sent upstream is connecting, and nothing else of it
/// changes but the time.
pub proof fn law_sending_is_observed(
    observer: &mut RequestObserver,
    state: &mut PylonRuntimeState,
    now: u64,
    published: Option<PublishedObservation>,
)
    requires
        state.wf(),
        call_ensures(RequestObserver::on_upstream_send, (observer, state, now), published),
    ensures
        ({
            let before = old(observer).observation();
            let after = final(observer).observation();
            let ended = before.state is Complete || before.state is Failed;
            &&& ended ==> published is None && *final(observer) == *old(observer) && *final(state) == *old(state)
            &&& !ended ==> {
                &&& told_as_observed(published, after, *old(observer), *final(observer))
                &&& after == (RequestObservation { state: after.state, total_duration: after.total_duration, ..before })
                &&& time_between(old(observer).accepted_at(), now, after.total_duration)
                &&& after.state is UpstreamConnecting
                &&& load_follows(*old(state), *final(state), *final(observer))
                &&& transition_told(*old(state), published, *final(observer))
            }
        }),
{
    if published is Some {
        lemma_transition_told(*old(state), published->0, *final(observer));
    }
}

/// The head of the answer to a request brings its status, and the time of
/// the first head is kept.
pub proof fn law_answer_is_observed(
    observer: &mut RequestObserver,
    state: &mut PylonRuntimeState,
    status: u16,
    now: u64,
    published: Option<PublishedObservation>,
)
    requires
        state.wf(),
        call_ensures(RequestObserver::on_upstream_response_headers, (observer, state, status, now), published),
    ensures
        ({
            let before = old(observer).observation();
            let after = final(observer).observation();
            let ended = before.state is Complete || before.state is Failed;
            &&& ended ==> published is None && *final(observer) == *old(observer) && *final(state) == *old(state)
            &&& !ended ==> {
                &&& told_as_observed(published, after, *old(observer), *final(observer))
                &&& after == (RequestObservation {
                    state: after.state,
                    upstream_status: after.upstream_status,
                    time_to_response_headers: after.time_to_response_headers,
                    total_duration: after.total_duration,
                    ..before
                })
                &&& time_between(old(observer).accepted_at(), now, after.total_duration)
                &&& after.state is InputProcessing
                &&& after.upstream_status == Some(status)
                &&& noted_once(before.time_to_response_headers, after.time_to_response_headers, after.total_duration)
                &&& load_follows(*old(state), *final(state), *final(observer))
                &&& transition_told(*old(state), published, *final(observer))
            }
        }),
{
    if published is Some {
        lemma_transition_told(*old(state), published->0, *final(observer));
    }
}

/// A request that has come to its end is complete, with all that was
/// observed of it.
pub proof fn law_end_is_observed(
    observer: &mut RequestObserver,
    state: &mut PylonRuntimeState,
    now: u64,
    published: Option<PublishedObservation>,
)
    requires
        state.wf(),
        call_ensures(RequestObserver::finish, (observer, state, now), published),
    ensures
        ({
            let before = old(observer).observation();
            let after = final(observer).observation();
            let ended = before.state is Complete || before.state is Failed;
            &&& ended ==> published is None && *final(observer) == *old(observer) && *final(state) == *old(state)
            &&& !ended ==> {
                &&& told_as_observed(published, after, *old(observer), *final(observer))
                &&& after == (RequestObservation { state: after.state, total_duration: after.total_duration, ..before })
                &&& time_between(old(observer).accepted_at(), now, after.total_duration)
                &&& after.state is Complete
                &&& load_follows(*old(state), *final(state), *final(observer))
                &&& transition_told(*old(state), published, *final(observer))
            }
        }),
{
    if published is Some {
        lemma_transition_told(*old(state), published->0, *final(observer));
    }
}

/// A request that has failed is so observed, with all that was observed of
/// it before.
pub proof fn law_failure_is_observed(
    observer: &mut RequestObserver,
    state: &mut PylonRuntimeState,
    now: u64,
    published: Option<PublishedObservation>,
)
    requires
        state.wf(),
        call_ensures(RequestObserver::fail, (observer, state, now), published),
    ensures
        ({
            let before = old(observer).observation();
            let after = final(observer).observation();
            let ended = before.state is Complete || before.state is Failed;
            &&& ended ==> published is None && *final(observer) == *old(observer) && *final(state) == *old(state)
            &&& !ended ==> {
                &&& told_as_observed(published, after, *old(observer), *final(observer))
                &&& after == (RequestObservation { state: after.state, total_duration: after.total_duration, ..before })
                &&& time_between(old(observer).accepted_at(), now, after.total_duration)
                &&& after.state is Failed
                &&& load_follows(*old(state), *final(state), *final(observer))
                &&& transition_told(*old(state), published, *final(observer))
            }
        }),
{
    if published is Some {
        lemma_transition_told(*old(state), published->0, *final(observer));
    }
}

/// A tunnelled request that has been sent upstream is connecting, and nothing else of it
/// changes but the time.
pub proof fn law_tunnelled_sending_is_observed(
    observer: &mut TunnelRequestObserver,
    state: &mut PylonRuntimeState,
    now: u64,
    published: Option<PublishedObservation>,
)
    requires
        state.wf(),
        call_ensures(TunnelRequestObserver::on_upstream_send, (observer, state, now), published),
    ensures
        ({
            let before = old(observer).observer().observation();
            let after = final(observer).observer().observation();
            let ended = before.state is Complete || before.state is Failed;
            &&& ended ==> published is None && final(observer).observer() == old(observer).observer()
                && *final(state) == *old(state)
            &&& !ended ==> {
                &&& told_as_observed(published, after, old(observer).observer(), final(observer).observer())
                &&& after == (RequestObservation { state: after.state, total_duration: after.total_duration, ..before })
                &&& time_between(old(observer).observer().accepted_at(), now, after.total_duration)
                &&& after.state is UpstreamConnecting
                &&& load_follows(*old(state), *final(state), final(observer).observer())
                &&& transition_told(*old(state), published, final(observer).observer())
            }
        }),
{
    if published is Some {
        lemma_transition_told(*old(state), published->0, final(observer).observer());
    }
}

/// The head of the answer to a tunnelled request brings its status, and the time of
/// the first head is kept.
pub proof fn law_tunnelled_answer_is_observed(
    observer: &mut TunnelRequestObserver,
    state: &mut PylonRuntimeState,
    status: u16,
    now: u64,
    published: Option<PublishedObservation>,
)
    requires
        state.wf(),
        call_ensures(TunnelRequestObserver::on_upstream_response_headers, (observer, state, status, now), published),
    ensures
        ({
            let before = old(observer).observer().observation();
            let after = final(observer).observer().observation();
            let ended = before.state is Complete || before.state is Failed;
            &&& ended ==> published is None && final(observer).observer() == old(observer).observer()
                && *final(state) == *old(state)
            &&& !ended ==> {
                &&& told_as_observed(published, after, old(observer).observer(), final(observer).observer())
                &&& after == (RequestObservation {
                    state: after.state,
                    upstream_status: after.upstream_status,
                    time_to_response_headers: after.time_to_response_headers,
                    total_duration: after.total_duration,
                    ..before
                })
                &&& time_between(old(observer).observer().accepted_at(), now, after.total_duration)
                &&& after.state is InputProcessing
                &&& after.upstream_status == Some(status)
                &&& noted_once(before.time_to_response_headers, after.time_to_response_headers, after.total_duration)
                &&& load_follows(*old(state), *final(state), final(observer).observer())
                &&& transition_told(*old(state), published, final(observer).observer())
            }
        }),
{
    if published is Some {
        lemma_transition_told(*old(state), published->0, final(observer).observer());
    }
}

/// A tunnelled request that has come to its end is complete, with all that was
/// observed of it.
pub proof fn law_tunnelled_end_is_observed(
    observer: &mut TunnelRequestObserver,
    state: &mut PylonRuntimeState,
    now: u64,
    published: Option<PublishedObservation>,
)
    requires
        state.wf(),
        call_ensures(TunnelRequestObserver::finish, (observer, state, now), published),
    ensures
        ({
            let before = old(observer).observer().observation();
            let after = final(observer).observer().observation();
            let ended = before.state is Complete || before.state is Failed;
            &&& ended ==> published is None && final(observer).observer() == old(observer).observer()
                && *final(state) == *old(state)
            &&& !ended ==> {
                &&& told_as_observed(published, after, old(observer).observer(), final(observer).observer())
                &&& after == (RequestObservation { state: after.state, total_duration: after.total_duration, ..before })
                &&& time_between(old(observer).observer().accepted_at(), now, after.total_duration)
                &&& after.state is Complete
                &&& load_follows(*old(state), *final(state), final(observer).observer())
                &&& transition_told(*old(state), published, final(observer).observer())
            }
        }),
{
    if published is Some {
        lemma_transition_told(*old(state), published->0, final(observer).observer());
    }
}

/// A tunnelled request that has failed is so observed, with all that was observed of
/// it before.
pub proof fn law_tunnelled_failure_is_observed(
    observer: &mut TunnelRequestObserver,
    state: &mut PylonRuntimeState,
    now: u64,
    published: Option<PublishedObservation>,
)
    requires
        state.wf(),
        call_ensures(TunnelRequestObserver::fail, (observer, state, now), published),
    ensures
        ({
            let before = old(observer).observer().observation();
            let after = final(observer).observer().observation();
            let ended = before.state is Complete || before.state is Failed;
            &&& ended ==> published is None && final(observer).observer() == old(observer).observer()
                && *final(state) == *old(state)
            &&& !ended ==> {
                &&& told_as_observed(published, after, old(observer).observer(), final(observer).observer())
                &&& after == (RequestObservation { state: after.state, total_duration: after.total_duration, ..before })
                &&& time_between(old(observer).observer().accepted_at(), now, after.total_duration)
                &&& after.state is Failed
                &&& load_follows(*old(state), *final(state), final(observer).observer())
                &&& transition_told(*old(state), published, final(observer).observer())
            }
        }),
{
    if published is Some {
        lemma_transition_told(*old(state), published->0, final(observer).observer());
    }
}

/// Each message with output counts once, and the time of the first is kept.
pub proof fn law_message_is_observed(
    observer: &mut RequestObserver,
    state: &mut PylonRuntimeState,
    now: u64,
    published: Option<PublishedObservation>,
)
    requires
        state.wf(),
        call_ensures(RequestObserver::observe_output_message, (observer, state, now), published),
    ensures
        ({
            let before = old(observer).observation();
            let after = final(observer).observation();
            let ended = before.state is Complete || before.state is Failed;
            &&& ended ==> published is None && *final(observer) == *old(observer) && *final(state) == *old(state)
            &&& !ended ==> {
                &&& told_as_observed(published, after, *old(observer), *final(observer))
                &&& after == (RequestObservation {
                    state: after.state,
                    output_messages: after.output_messages,
                    time_to_first_output: after.time_to_first_output,
                    total_duration: after.total_duration,
                    ..before
                })
                &&& time_between(old(observer).accepted_at(), now, after.total_duration)
                &&& after.state is OutputGeneration
                &&& before.output_messages < u64::MAX ==> after.output_messages == before.output_messages + 1
                &&& before.output_messages == u64::MAX ==> after.output_messages == u64::MAX
                &&& noted_once(before.time_to_first_output, after.time_to_first_output, after.total_duration)
                &&& load_follows(*old(state), *final(state), *final(observer))
                &&& transition_told(*old(state), published, *final(observer))
            }
        }),
{
    if published is Some {
        lemma_transition_told(*old(state), published->0, *final(observer));
    }
}

/// Tokens of which the upstream gives no count add up; they are no count of the
/// upstream, and the time of the first token is kept.
pub proof fn law_estimated_tokens_add_up(
    observer: &mut RequestObserver,
    state: &mut PylonRuntimeState,
    delta: u64,
    now: u64,
    published: Option<PublishedObservation>,
)
    requires
        state.wf(),
        call_ensures(RequestObserver::observe_output_tokens, (observer, state, delta, now), published),
    ensures
        ({
            let before = old(observer).observation();
            let after = final(observer).observation();
            let ended = before.state is Complete || before.state is Failed;
            &&& ended ==> published is None && *final(observer) == *old(observer) && *final(state) == *old(state)
            &&& !ended ==> {
                &&& told_as_observed(published, after, *old(observer), *final(observer))
                &&& after == (RequestObservation {
                    output_tokens: after.output_tokens,
                    time_to_first_token: after.time_to_first_token,
                    total_duration: after.total_duration,
                    ..before
                })
                &&& time_between(old(observer).accepted_at(), now, after.total_duration)
                &&& before.output_tokens + delta <= u64::MAX ==> after.output_tokens == before.output_tokens + delta
                &&& before.output_tokens + delta > u64::MAX ==> after.output_tokens == u64::MAX
                &&& delta > 0 ==> noted_once(before.time_to_first_token, after.time_to_first_token, after.total_duration)
                &&& delta == 0 ==> after.time_to_first_token == before.time_to_first_token
                &&& load_follows(*old(state), *final(state), *final(observer))
                &&& transition_told(*old(state), published, *final(observer))
            }
        }),
{
    if published is Some {
        lemma_transition_told(*old(state), published->0, *final(observer));
    }
}

/// A count of the tokens so far is what is observed from then on, whatever was
/// observed before.
pub proof fn law_cumulative_count_replaces_what_was_counted(
    observer: &mut RequestObserver,
    state: &mut PylonRuntimeState,
    tokens: u64,
    now: u64,
    published: Option<PublishedObservation>,
)
    requires
        state.wf(),
        call_ensures(RequestObserver::observe_output_tokens_generated_so_far, (observer, state, tokens, now), published),
    ensures
        ({
            let before = old(observer).observation();
            let after = final(observer).observation();
            let ended = before.state is Complete || before.state is Failed;
            &&& ended ==> published is None && *final(observer) == *old(observer) && *final(state) == *old(state)
            &&& !ended ==> {
                &&& told_as_observed(published, after, *old(observer), *final(observer))
                &&& after == (RequestObservation {
                    output_tokens: after.output_tokens,
                    output_tokens_explicit: after.output_tokens_explicit,
                    output_tokens_from_chunk_usage: after.output_tokens_from_chunk_usage,
                    time_to_first_token: after.time_to_first_token,
                    total_duration: after.total_duration,
                    ..before
                })
                &&& time_between(old(observer).accepted_at(), now, after.total_duration)
                &&& after.output_tokens == tokens
                &&& after.output_tokens_explicit
                &&& after.output_tokens_from_chunk_usage
                &&& tokens > 0 ==> noted_once(before.time_to_first_token, after.time_to_first_token, after.total_duration)
                &&& tokens == 0 ==> after.time_to_first_token == before.time_to_first_token
                &&& load_follows(*old(state), *final(state), *final(observer))
                &&& transition_told(*old(state), published, *final(observer))
            }
        }),
{
    if published is Some {
        lemma_transition_told(*old(state), published->0, *final(observer));
    }
}

/// So is a count for the whole response, which does not come from a chunk.
pub proof fn law_total_count_replaces_what_was_counted(
    observer: &mut RequestObserver,
    state: &mut PylonRuntimeState,
    tokens: u64,
    now: u64,
    published: Option<PublishedObservation>,
)
    requires
        state.wf(),
        call_ensures(RequestObserver::observe_output_tokens_total, (observer, state, tokens, now), published),
    ensures
        ({
            let before = old(observer).observation();
            let after = final(observer).observation();
            let ended = before.state is Complete || before.state is Failed;
            &&& ended ==> published is None && *final(observer) == *old(observer) && *final(state) == *old(state)
            &&& !ended ==> {
                &&& told_as_observed(published, after, *old(observer), *final(observer))
                &&& after == (RequestObservation {
                    output_tokens: after.output_tokens,
                    output_tokens_explicit: after.output_tokens_explicit,
                    time_to_first_token: after.time_to_first_token,
                    total_duration: after.total_duration,
                    ..before
                })
                &&& time_between(old(observer).accepted_at(), now, after.total_duration)
                &&& after.output_tokens == tokens
                &&& after.output_tokens_explicit
                &&& tokens > 0 ==> noted_once(before.time_to_first_token, after.time_to_first_token, after.total_duration)
                &&& tokens == 0 ==> after.time_to_first_token == before.time_to_first_token
                &&& load_follows(*old(state), *final(state), *final(observer))
                &&& transition_told(*old(state), published, *final(observer))
            }
        }),
{
    if published is Some {
        lemma_transition_told(*old(state), published->0, *final(observer));
    }
}

/// After a stream of counts the number of output tokens is the last of them: what
/// came between has no part in it, and the same count twice is that count. The
/// end of the request keeps it.
pub proof fn law_last_count_stands(
    observer: &mut RequestObserver,
    first_state: &mut PylonRuntimeState,
    again: &mut RequestObserver,
    second_state: &mut PylonRuntimeState,
    ending: &mut RequestObserver,
    last_state: &mut PylonRuntimeState,
    first: u64,
    second: u64,
    now: u64,
    later: u64,
    end: u64,
    told: Option<PublishedObservation>,
    told_again: Option<PublishedObservation>,
    told_end: Option<PublishedObservation>,
)
    requires
        first_state.wf(),
        second_state.wf(),
        last_state.wf(),
        !observer.terminal(),
        call_ensures(
            RequestObserver::observe_output_tokens_generated_so_far,
            (observer, first_state, first, now),
            told,
        ),
        *again == *final(observer),
        call_ensures(
            RequestObserver::observe_output_tokens_generated_so_far,
            (again, second_state, second, later),
            told_again,
        ),
        *ending == *final(again),
        call_ensures(RequestObserver::finish, (ending, last_state, end), told_end),
    ensures
        told is Some && told->0.event.observation.output_tokens == first,
        told_again is Some && told_again->0.event.observation.output_tokens == second,
        told_end is Some && told_end->0.event.observation.output_tokens == second,
        told_end->0.event.observation.state is Complete,
        final(ending).observation().output_tokens == second,
        final(ending).observation().output_tokens_explicit,
{
}

/// A request is accepted with what its headers say of it and with nothing
/// counted yet, and that is told.
pub proof fn law_request_is_accepted_as_its_headers_say(
    endpoint: RequestObservationEndpoint,
    required: RequiredTunnelHeaders,
    generation: Option<ModelGeneration>,
    state: &mut PylonRuntimeState,
    observer: RequestObserver,
    published: PublishedObservation,
)
    requires
        state.wf(),
        call_ensures(RequestObserver::from_required, (endpoint, &required, generation, state), (observer, published)),
    ensures
        starts_as_required(observer, endpoint, required, generation, published),
        load_follows(*old(state), *final(state), observer),
{
}

/// A tunnelled request starts in the same way.
pub proof fn law_tunnelled_request_is_accepted_as_its_headers_say(
    endpoint: RequestObservationEndpoint,
    required: RequiredTunnelHeaders,
    generation: Option<ModelGeneration>,
    state: &mut PylonRuntimeState,
    observer: TunnelRequestObserver,
    published: PublishedObservation,
    streaming: bool,
    terminal: bool,
)
    requires
        state.wf(),
        call_ensures(TunnelRequestObserver::accepted, (endpoint, &required, generation, state), (observer, published)),
        call_ensures(TunnelRequestObserver::is_streaming, (&observer,), streaming),
        call_ensures(TunnelRequestObserver::is_terminal, (&observer,), terminal),
    ensures
        starts_as_required(observer.observer(), endpoint, required, generation, published),
        load_follows(*old(state), *final(state), observer.observer()),
        streaming <==> endpoint is ChatCompletions || endpoint is Responses,
        !terminal,
{
}

/// The observer starts with what the headers say.
pub open spec fn starts_as_required(
    observer: RequestObserver,
    endpoint: RequestObservationEndpoint,
    required: RequiredTunnelHeaders,
    generation: Option<ModelGeneration>,
    published: PublishedObservation,
) -> bool {
    let observation = observer.observation();
    &&& published.event.observation == observation
    &&& crate::runtime_state::owned_generation(published.event.generation)
        == crate::runtime_state::owned_generation(generation)
    &&& observer.generation() == crate::runtime_state::owned_generation(generation)
    &&& observer.accepted_at() == required.accepted_at
    &&& observation.endpoint == endpoint
    &&& observation.request_id@ == required.request_id@
    &&& observation.routing_key == required.routing_key
    &&& observation.model_id@ == required.model_id@
    &&& required.priority matches Some(priority) ==> observation.priority == priority
    &&& required.priority is None ==> observation.priority == 0
    &&& observation.input_tokens == required.input_tokens
    &&& observation.embedding_items == 0 && !observation.embedding_items_observed
    &&& observation.upstream_status is None
    &&& observation.output_messages == 0 && observation.output_tokens == 0
    &&& !observation.output_tokens_explicit && !observation.output_tokens_from_chunk_usage
    &&& observation.state is Accepted
    &&& observation.time_to_response_headers is None
    &&& observation.time_to_first_output is None && observation.time_to_first_token is None
    &&& observation.total_duration == 0
}

/// The number of items to embed is noted where it is known and the request goes
/// on, and changes nothing else; of a tunnelled request only where it is one to
/// embed.
pub proof fn law_items_to_embed_are_noted(
    observer: &mut RequestObserver,
    items: Option<u64>,
    out: (),
    tunnelled: &mut TunnelRequestObserver,
    body_items: Option<u64>,
)
    requires
        call_ensures(RequestObserver::update_embedding_items, (observer, items), out),
        call_ensures(TunnelRequestObserver::observe_request_body, (tunnelled, body_items), out),
    ensures
        notes_items(old(observer).observation(), final(observer).observation(), items, true),
        notes_items(
            old(tunnelled).observer().observation(),
            final(tunnelled).observer().observation(),
            body_items,
            old(tunnelled).observer().observation().endpoint is Embeddings,
        ),
{
}

/// The items were noted.
pub open spec fn notes_items(
    before: RequestObservation,
    after: RequestObservation,
    items: Option<u64>,
    embeds: bool,
) -> bool {
    let ended = before.state is Complete || before.state is Failed;
    &&& ended || !embeds || items is None ==> after == before
    &&& !ended && embeds && items is Some ==> {
        &&& after.embedding_items == items->0
        &&& after.embedding_items_observed
        &&& after == (RequestObservation {
            embedding_items: after.embedding_items,
            embedding_items_observed: after.embedding_items_observed,
            ..before
        })
    }
}

} // verus!
