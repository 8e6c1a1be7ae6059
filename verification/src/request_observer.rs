//! Observers that follow a request from its acceptance to its end and tell the
//! runtime state of every step.

use vstd::prelude::*;

use crate::generation::{GenerationId, ModelGeneration};
use crate::live_requests::Requests;
use crate::queue_admission::RequestObservationTransition;
use crate::request_observation::{
    RequestObservation, RequestObservationEndpoint, RequestObservationState, RequiredTunnelHeaders,
};
use crate::runtime_state::{Models, PylonRuntimeState, RequestObservationEvent};

verus! {

/// One step of a request as it is told to whoever follows the requests. There
/// is no transition where the request's generation is not served any more.
#[derive(Debug)]
pub struct PublishedObservation {
    pub event: RequestObservationEvent,
    pub transition: Option<RequestObservationTransition>,
}

/// The time since `start`, none where the clock stands before it.
pub open spec fn elapsed(start: u64, now: u64) -> u64 {
    if now >= start {
        (now - start) as u64
    } else {
        0
    }
}

fn time_since(start: u64, now: u64) -> (time: u64)
    ensures
        time == elapsed(start, now),
{
    now.saturating_sub(start)
}

/// A moment that is only set once.
pub open spec fn first_time(time: Option<u64>, now: u64) -> Option<u64> {
    match time {
        Some(time) => Some(time),
        None => Some(now),
    }
}

fn set_once(time: Option<u64>, now: u64) -> (first: Option<u64>)
    ensures
        first == first_time(time, now),
{
    match time {
        Some(time) => Some(time),
        None => Some(now),
    }
}

/// What is known of a request when it is accepted.
pub open spec fn accepted_observation(
    observation: RequestObservation,
    endpoint: RequestObservationEndpoint,
    required: RequiredTunnelHeaders,
) -> bool {
    &&& observation.endpoint == endpoint
    &&& observation.request_id@ == required.request_id@
    &&& observation.routing_key == required.routing_key
    &&& observation.model_id@ == required.model_id@
    &&& observation.priority == required.spec_queue_priority()
    &&& observation.input_tokens == required.input_tokens
    &&& observation.embedding_items == 0
    &&& !observation.embedding_items_observed
    &&& observation.upstream_status is None
    &&& observation.output_messages == 0
    &&& observation.output_tokens == 0
    &&& !observation.output_tokens_explicit
    &&& !observation.output_tokens_from_chunk_usage
    &&& observation.state is Accepted
    &&& observation.time_to_response_headers is None
    &&& observation.time_to_first_output is None
    &&& observation.time_to_first_token is None
    &&& observation.total_duration == 0
}

/// The request has been sent upstream.
pub open spec fn sent(observation: RequestObservation, time: u64) -> RequestObservation {
    RequestObservation {
        state: RequestObservationState::UpstreamConnecting,
        total_duration: time,
        ..observation
    }
}

/// The head of the response has come.
pub open spec fn answered(observation: RequestObservation, status: u16, time: u64) -> RequestObservation {
    RequestObservation {
        state: RequestObservationState::InputProcessing,
        upstream_status: Some(status),
        time_to_response_headers: first_time(observation.time_to_response_headers, time),
        total_duration: time,
        ..observation
    }
}

/// A message with output has come.
pub open spec fn with_message(observation: RequestObservation, time: u64) -> RequestObservation {
    RequestObservation {
        state: RequestObservationState::OutputGeneration,
        output_messages: crate::queue_admission::saturating_sum(observation.output_messages, 1),
        time_to_first_output: first_time(observation.time_to_first_output, time),
        total_duration: time,
        ..observation
    }
}

/// Tokens have come of which the upstream gave no count.
pub open spec fn with_more_tokens(observation: RequestObservation, delta: u64, time: u64) -> RequestObservation {
    RequestObservation {
        output_tokens: crate::queue_admission::saturating_sum(observation.output_tokens, delta),
        time_to_first_token: if delta > 0 {
            first_time(observation.time_to_first_token, time)
        } else {
            observation.time_to_first_token
        },
        total_duration: time,
        ..observation
    }
}

/// The upstream has counted the tokens.
pub open spec fn with_counted_tokens(
    observation: RequestObservation,
    tokens: u64,
    from_chunk: bool,
    time: u64,
) -> RequestObservation {
    RequestObservation {
        output_tokens: tokens,
        output_tokens_explicit: true,
        output_tokens_from_chunk_usage: observation.output_tokens_from_chunk_usage || from_chunk,
        time_to_first_token: if tokens > 0 {
            first_time(observation.time_to_first_token, time)
        } else {
            observation.time_to_first_token
        },
        total_duration: time,
        ..observation
    }
}

/// The items that are to be embedded have been counted, or cannot be.
pub open spec fn with_items(observation: RequestObservation, items: Option<u64>) -> RequestObservation {
    match items {
        Some(items) => RequestObservation {
            embedding_items: items,
            embedding_items_observed: true,
            ..observation
        },
        None => observation,
    }
}

/// The request has ended.
pub open spec fn ended(observation: RequestObservation, state: RequestObservationState, time: u64) -> RequestObservation {
    RequestObservation { state, total_duration: time, ..observation }
}

/// The live requests once an observation has been taken in: it does not count
/// where its generation is not served any more.
pub open spec fn requests_after(
    models: Models,
    requests: Requests,
    observation: RequestObservation,
    generation: Option<GenerationId>,
) -> Requests {
    if crate::runtime_state::stale(models, generation) {
        requests
    } else {
        crate::queue_admission::observed_requests(requests, observation, generation)
    }
}

impl PublishedObservation {
    /// What is told is what happened.
    pub open spec fn tells(
        &self,
        models: Models,
        requests: Requests,
        observation: RequestObservation,
        generation: Option<GenerationId>,
    ) -> bool {
        &&& self.event.observation == observation
        &&& crate::runtime_state::owned_generation(self.event.generation) == generation
        &&& if crate::runtime_state::stale(models, generation) {
            &&& self.event.changed_generations@.len() == 0
            &&& self.transition is None
        } else {
            &&& crate::keyed::lists::<ModelGeneration>(
                crate::keyed::views(self.event.changed_generations@),
                crate::queue_admission::touched(requests, observation.request_id@, generation),
            )
            &&& self.transition matches Some(transition) && crate::runtime_state::reports(
                transition,
                requests,
                observation,
                generation,
                crate::keyed::views(self.event.changed_generations@),
            )
        }
    }
}

/// The state differs in its live requests alone, and these are as given.
pub open spec fn moved(before: PylonRuntimeState, after: PylonRuntimeState, requests: Requests) -> bool {
    &&& after.wf()
    &&& after.same_models(&before)
    &&& after.same_rates(&before)
    &&& after.requests() == requests
}

/// Follows one request.
#[derive(Debug)]
pub struct RequestObserver {
    observation: RequestObservation,
    generation: Option<ModelGeneration>,
    accepted_at: u64,
}

impl RequestObserver {
    pub closed spec fn observation(&self) -> RequestObservation {
        self.observation
    }

    pub closed spec fn generation(&self) -> Option<GenerationId> {
        crate::runtime_state::owned_generation(self.generation)
    }

    pub closed spec fn accepted_at(&self) -> u64 {
        self.accepted_at
    }

    /// The request has ended.
    pub open spec fn terminal(&self) -> bool {
        self.observation().state.terminal()
    }

    /// The observer is the same but for what it has observed.
    pub open spec fn same_request(&self, other: &RequestObserver) -> bool {
        &&& self.generation() == other.generation()
        &&& self.accepted_at() == other.accepted_at()
        &&& self.observation().request_id == other.observation().request_id
        &&& self.observation().endpoint == other.observation().endpoint
    }

    /// One step was observed and told, unless the request had ended.
    pub open spec fn steps(
        before: RequestObserver,
        after: RequestObserver,
        state_before: PylonRuntimeState,
        state_after: PylonRuntimeState,
        observation: RequestObservation,
        published: Option<PublishedObservation>,
    ) -> bool {
        if before.terminal() {
            &&& after == before
            &&& state_after == state_before
            &&& published is None
        } else {
            &&& after.observation() == observation
            &&& after.same_request(&before)
            &&& moved(state_before, state_after, requests_after(state_before.models(), state_before.requests(), observation, before.generation()))
            &&& published matches Some(published) && published.tells(
                state_before.models(),
                state_before.requests(),
                observation,
                before.generation(),
            )
        }
    }

    /// The live requests after the step that leads to `observation`.
    pub open spec fn requests_after_step(
        &self,
        models: Models,
        requests: Requests,
        observation: RequestObservation,
    ) -> Requests {
        if self.terminal() {
            requests
        } else {
            requests_after(models, requests, observation, self.generation())
        }
    }

    fn publish(&self, state: &mut PylonRuntimeState) -> (published: PublishedObservation)
        requires
            old(state).wf(),
        ensures
            moved(
                *old(state),
                *final(state),
                requests_after(old(state).models(), old(state).requests(), self.observation(), self.generation()),
            ),
            published.tells(old(state).models(), old(state).requests(), self.observation(), self.generation()),
    {
        let generation = match &self.generation {
            Some(generation) => Some(generation.clone()),
            None => None,
        };
        let (event, transition) = state.transition_request_observation_for_generation(
            self.observation.clone(),
            generation,
        );
        PublishedObservation { event, transition }
    }

    /// Starts to follow a request, and tells that it was accepted.
    pub fn from_required(
        endpoint: RequestObservationEndpoint,
        required: &RequiredTunnelHeaders,
        generation: Option<ModelGeneration>,
        state: &mut PylonRuntimeState,
    ) -> (started: (Self, PublishedObservation))
        requires
            old(state).wf(),
        ensures
            accepted_observation(started.0.observation(), endpoint, *required),
            started.0.generation() == crate::runtime_state::owned_generation(generation),
            started.0.accepted_at() == required.accepted_at,
            moved(
                *old(state),
                *final(state),
                requests_after(old(state).models(), old(state).requests(), started.0.observation(), started.0.generation()),
            ),
            started.1.tells(old(state).models(), old(state).requests(), started.0.observation(), started.0.generation()),
    {
        let observer = RequestObserver {
            observation: RequestObservation {
                endpoint,
                request_id: required.request_id.clone(),
                routing_key: crate::request_observation::copy_text(&required.routing_key),
                model_id: required.model_id.clone(),
                priority: required.queue_priority(),
                input_tokens: required.input_tokens,
                embedding_items: 0,
                embedding_items_observed: false,
                upstream_status: None,
                output_messages: 0,
                output_tokens: 0,
                output_tokens_explicit: false,
                output_tokens_from_chunk_usage: false,
                state: RequestObservationState::Accepted,
                time_to_response_headers: None,
                time_to_first_output: None,
                time_to_first_token: None,
                total_duration: 0,
            },
            generation,
            accepted_at: required.accepted_at,
        };
        let published = observer.publish(state);
        (observer, published)
    }

    pub fn is_terminal(&self) -> (terminal: bool)
        ensures
            terminal == self.terminal(),
    {
        self.observation.is_terminal()
    }

    /// The request has been sent upstream.
    pub fn on_upstream_send(&mut self, state: &mut PylonRuntimeState, now: u64) -> (published: Option<
        PublishedObservation,
    >)
        requires
            old(state).wf(),
        ensures
            Self::steps(
                *old(self),
                *final(self),
                *old(state),
                *final(state),
                sent(old(self).observation(), elapsed(old(self).accepted_at(), now)),
                published,
            ),
    {
        if self.is_terminal() {
            return None;
        }
        self.observation.total_duration = time_since(self.accepted_at, now);
        self.observation.state = RequestObservationState::UpstreamConnecting;
        Some(self.publish(state))
    }

    /// The head of the upstream's response has come.
    pub fn on_upstream_response_headers(&mut self, state: &mut PylonRuntimeState, status: u16, now: u64) -> (
    published: Option<PublishedObservation>)
        requires
            old(state).wf(),
        ensures
            Self::steps(
                *old(self),
                *final(self),
                *old(state),
                *final(state),
                answered(old(self).observation(), status, elapsed(old(self).accepted_at(), now)),
                published,
            ),
    {
        if self.is_terminal() {
            return None;
        }
        let time: u64 = time_since(self.accepted_at, now);
        self.observation.total_duration = time;
        self.observation.time_to_response_headers = set_once(self.observation.time_to_response_headers, time);
        self.observation.upstream_status = Some(status);
        self.observation.state = RequestObservationState::InputProcessing;
        Some(self.publish(state))
    }

    /// A message with output has come.
    pub fn observe_output_message(&mut self, state: &mut PylonRuntimeState, now: u64) -> (published: Option<
        PublishedObservation,
    >)
        requires
            old(state).wf(),
        ensures
            Self::steps(
                *old(self),
                *final(self),
                *old(state),
                *final(state),
                with_message(old(self).observation(), elapsed(old(self).accepted_at(), now)),
                published,
            ),
    {
        if self.is_terminal() {
            return None;
        }
        let time: u64 = time_since(self.accepted_at, now);
        self.observation.total_duration = time;
        self.observation.time_to_first_output = set_once(self.observation.time_to_first_output, time);
        self.observation.output_messages = self.observation.output_messages.saturating_add(1);
        self.observation.state = RequestObservationState::OutputGeneration;
        Some(self.publish(state))
    }

    /// More tokens have come, by an estimate.
    pub fn observe_output_tokens(&mut self, state: &mut PylonRuntimeState, delta: u64, now: u64) -> (published: Option<
        PublishedObservation,
    >)
        requires
            old(state).wf(),
        ensures
            Self::steps(
                *old(self),
                *final(self),
                *old(state),
                *final(state),
                with_more_tokens(old(self).observation(), delta, elapsed(old(self).accepted_at(), now)),
                published,
            ),
    {
        if self.is_terminal() {
            return None;
        }
        let time: u64 = time_since(self.accepted_at, now);
        self.observation.total_duration = time;
        if delta > 0 {
            self.observation.time_to_first_token = set_once(self.observation.time_to_first_token, time);
        }
        self.observation.output_tokens = self.observation.output_tokens.saturating_add(delta);
        Some(self.publish(state))
    }

    fn count_tokens(&mut self, state: &mut PylonRuntimeState, tokens: u64, from_chunk: bool, now: u64) -> (
    published: Option<PublishedObservation>)
        requires
            old(state).wf(),
        ensures
            Self::steps(
                *old(self),
                *final(self),
                *old(state),
                *final(state),
                with_counted_tokens(
                    old(self).observation(),
                    tokens,
                    from_chunk,
                    elapsed(old(self).accepted_at(), now),
                ),
                published,
            ),
    {
        if self.is_terminal() {
            return None;
        }
        let time: u64 = time_since(self.accepted_at, now);
        self.observation.total_duration = time;
        if tokens > 0 {
            self.observation.time_to_first_token = set_once(self.observation.time_to_first_token, time);
        }
        self.observation.output_tokens = tokens;
        self.observation.output_tokens_explicit = true;
        if from_chunk {
            self.observation.output_tokens_from_chunk_usage = true;
        }
        Some(self.publish(state))
    }

    /// A message of the stream counts the tokens so far.
    pub fn observe_output_tokens_generated_so_far(&mut self, state: &mut PylonRuntimeState, tokens: u64, now: u64) -> (
    published: Option<PublishedObservation>)
        requires
            old(state).wf(),
        ensures
            Self::steps(
                *old(self),
                *final(self),
                *old(state),
                *final(state),
                with_counted_tokens(old(self).observation(), tokens, true, elapsed(old(self).accepted_at(), now)),
                published,
            ),
    {
        self.count_tokens(state, tokens, true, now)
    }

    /// The whole response counts its tokens.
    pub fn observe_output_tokens_total(&mut self, state: &mut PylonRuntimeState, tokens: u64, now: u64) -> (
    published: Option<PublishedObservation>)
        requires
            old(state).wf(),
        ensures
            Self::steps(
                *old(self),
                *final(self),
                *old(state),
                *final(state),
                with_counted_tokens(old(self).observation(), tokens, false, elapsed(old(self).accepted_at(), now)),
                published,
            ),
    {
        self.count_tokens(state, tokens, false, now)
    }

    /// The items to embed have been counted in the request.
    pub fn update_embedding_items(&mut self, items: Option<u64>)
        ensures
            final(self).same_request(old(self)),
            final(self).observation() == (if old(self).terminal() {
                old(self).observation()
            } else {
                with_items(old(self).observation(), items)
            }),
    {
        if self.is_terminal() {
            return;
        }
        if let Some(items) = items {
            self.observation.embedding_items = items;
            self.observation.embedding_items_observed = true;
        }
    }

    fn end(&mut self, state: &mut PylonRuntimeState, end: RequestObservationState, now: u64) -> (published: Option<
        PublishedObservation,
    >)
        requires
            old(state).wf(),
        ensures
            Self::steps(
                *old(self),
                *final(self),
                *old(state),
                *final(state),
                ended(old(self).observation(), end, elapsed(old(self).accepted_at(), now)),
                published,
            ),
    {
        if self.is_terminal() {
            return None;
        }
        self.observation.total_duration = time_since(self.accepted_at, now);
        self.observation.state = end;
        Some(self.publish(state))
    }

    /// The request has come to its end.
    pub fn finish(&mut self, state: &mut PylonRuntimeState, now: u64) -> (published: Option<PublishedObservation>)
        requires
            old(state).wf(),
        ensures
            Self::steps(
                *old(self),
                *final(self),
                *old(state),
                *final(state),
                ended(
                    old(self).observation(),
                    RequestObservationState::Complete,
                    elapsed(old(self).accepted_at(), now),
                ),
                published,
            ),
    {
        self.end(state, RequestObservationState::Complete, now)
    }

    /// The request has failed.
    pub fn fail(&mut self, state: &mut PylonRuntimeState, now: u64) -> (published: Option<PublishedObservation>)
        requires
            old(state).wf(),
        ensures
            Self::steps(
                *old(self),
                *final(self),
                *old(state),
                *final(state),
                ended(
                    old(self).observation(),
                    RequestObservationState::Failed,
                    elapsed(old(self).accepted_at(), now),
                ),
                published,
            ),
    {
        self.end(state, RequestObservationState::Failed, now)
    }
}

/// Follows a request that came through the tunnel. Only requests for generated
/// text show their progress.
#[derive(Debug)]
pub struct TunnelRequestObserver {
    observer: RequestObserver,
}

impl TunnelRequestObserver {
    pub closed spec fn observer(&self) -> RequestObserver {
        self.observer
    }

    pub open spec fn streaming(&self) -> bool {
        self.observer().observation().endpoint != RequestObservationEndpoint::Embeddings
    }

    pub fn accepted(
        endpoint: RequestObservationEndpoint,
        required: &RequiredTunnelHeaders,
        generation: Option<ModelGeneration>,
        state: &mut PylonRuntimeState,
    ) -> (started: (Self, PublishedObservation))
        requires
            old(state).wf(),
        ensures
            accepted_observation(started.0.observer().observation(), endpoint, *required),
            started.0.observer().generation() == crate::runtime_state::owned_generation(generation),
            started.0.observer().accepted_at() == required.accepted_at,
            moved(
                *old(state),
                *final(state),
                requests_after(
                    old(state).models(),
                    old(state).requests(),
                    started.0.observer().observation(),
                    started.0.observer().generation(),
                ),
            ),
            started.1.tells(
                old(state).models(),
                old(state).requests(),
                started.0.observer().observation(),
                started.0.observer().generation(),
            ),
    {
        let (observer, published) = RequestObserver::from_required(endpoint, required, generation, state);
        (TunnelRequestObserver { observer }, published)
    }

    pub fn is_streaming(&self) -> (streaming: bool)
        ensures
            streaming == self.streaming(),
    {
        match self.observer.observation.endpoint {
            RequestObservationEndpoint::Embeddings => false,
            _ => true,
        }
    }

    /// The observer of the generated text, for a request that has any.
    pub fn generation_mut(&mut self) -> (observer: Option<&mut RequestObserver>)
        ensures
            match observer {
                Some(observer) => {
                    &&& old(self).streaming()
                    &&& *observer == old(self).observer()
                    &&& final(self).observer() == *final(observer)
                },
                None => !old(self).streaming() && *final(self) == *old(self),
            },
    {
        if self.is_streaming() {
            Some(&mut self.observer)
        } else {
            None
        }
    }

    /// The body of a request to embed has come, with the number of its items.
    pub fn observe_request_body(&mut self, embedding_items: Option<u64>)
        ensures
            final(self).observer().same_request(&old(self).observer()),
            final(self).observer().observation() == (if old(self).streaming() || old(self).observer().terminal() {
                old(self).observer().observation()
            } else {
                with_items(old(self).observer().observation(), embedding_items)
            }),
    {
        if !self.is_streaming() {
            self.observer.update_embedding_items(embedding_items);
        }
    }

    pub fn on_upstream_send(&mut self, state: &mut PylonRuntimeState, now: u64) -> (published: Option<
        PublishedObservation,
    >)
        requires
            old(state).wf(),
        ensures
            RequestObserver::steps(
                old(self).observer(),
                final(self).observer(),
                *old(state),
                *final(state),
                sent(old(self).observer().observation(), elapsed(old(self).observer().accepted_at(), now)),
                published,
            ),
    {
        self.observer.on_upstream_send(state, now)
    }

    pub fn on_upstream_response_headers(&mut self, state: &mut PylonRuntimeState, status: u16, now: u64) -> (
    published: Option<PublishedObservation>)
        requires
            old(state).wf(),
        ensures
            RequestObserver::steps(
                old(self).observer(),
                final(self).observer(),
                *old(state),
                *final(state),
                answered(
                    old(self).observer().observation(),
                    status,
                    elapsed(old(self).observer().accepted_at(), now),
                ),
                published,
            ),
    {
        self.observer.on_upstream_response_headers(state, status, now)
    }

    pub fn finish(&mut self, state: &mut PylonRuntimeState, now: u64) -> (published: Option<PublishedObservation>)
        requires
            old(state).wf(),
        ensures
            RequestObserver::steps(
                old(self).observer(),
                final(self).observer(),
                *old(state),
                *final(state),
                ended(
                    old(self).observer().observation(),
                    RequestObservationState::Complete,
                    elapsed(old(self).observer().accepted_at(), now),
                ),
                published,
            ),
    {
        self.observer.finish(state, now)
    }

    pub fn fail(&mut self, state: &mut PylonRuntimeState, now: u64) -> (published: Option<PublishedObservation>)
        requires
            old(state).wf(),
        ensures
            RequestObserver::steps(
                old(self).observer(),
                final(self).observer(),
                *old(state),
                *final(state),
                ended(
                    old(self).observer().observation(),
                    RequestObservationState::Failed,
                    elapsed(old(self).observer().accepted_at(), now),
                ),
                published,
            ),
    {
        self.observer.fail(state, now)
    }

    pub fn is_terminal(&self) -> (terminal: bool)
        ensures
            terminal == self.observer().terminal(),
    {
        self.observer.is_terminal()
    }
}

/// Once a request has ended it is not live under the generation that it was
/// accepted in, and no later step of its observer changes anything.
pub proof fn law_ended_request_is_gone(
    observer: RequestObserver,
    models: Models,
    requests: Requests,
    end: RequestObservationState,
    time: u64,
)
    requires
        end.terminal(),
        !observer.terminal(),
        !crate::runtime_state::stale(models, observer.generation()),
    ensures
        !observer.requests_after_step(models, requests, ended(observer.observation(), end, time)).contains_key(
            observer.observation().request_id@,
        ),
        forall|after: RequestObserver, later: Requests, next: RequestObservation|
            after.observation() == ended(observer.observation(), end, time)
                ==> #[trigger] after.requests_after_step(models, later, next) == later,
{
}

} // verus!
