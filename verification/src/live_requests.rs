//! The live requests of a pylon, with the queue load of every model generation
//! kept beside them. The load is held as running totals; what they mean is
//! stated as sums over the live requests.

use vstd::prelude::*;

use crate::binary64::Binary64;
use crate::generation::{GenerationId, ModelGeneration};
use crate::keyed::SortedMap;
use crate::queue_model::{
    ObservedRequestState, ObservedView, QueueModelSnapshot, QueueModelState, TrackedPromptPhase,
    TrackedPromptRequest, TrackedView,
};
use crate::request_observation::RequestObservationState;

verus! {

/// A request that is queued, observed, or both. An observation that outlived
/// its generation is counted in no total any more.
#[derive(Debug)]
pub enum LiveRequest {
    Queue { queue: TrackedPromptRequest, observed: Option<ObservedRequestState>, uncounted: bool },
    Observed { last: ObservedRequestState, uncounted: bool },
}

/// The two sides of a live request.
#[verifier::ext_equal]
pub struct LiveView {
    pub queue: Option<TrackedView>,
    pub observed: Option<ObservedView>,
    /// The observation is counted in no total.
    pub uncounted: bool,
}

pub open spec fn observed_view(observed: Option<ObservedRequestState>) -> Option<ObservedView> {
    match observed {
        Some(observed) => Some(observed@),
        None => None,
    }
}

impl View for LiveRequest {
    type V = LiveView;

    open spec fn view(&self) -> LiveView {
        match *self {
            LiveRequest::Queue { queue, observed, uncounted } => LiveView {
                queue: Some(queue@),
                observed: observed_view(observed),
                uncounted,
            },
            LiveRequest::Observed { last, uncounted } => LiveView {
                queue: None,
                observed: Some(last@),
                uncounted,
            },
        }
    }
}

/// One for a request that is queued.
pub open spec fn queued() -> spec_fn(LiveView) -> nat {
    |live: LiveView| if live.queue is Some { 1nat } else { 0nat }
}

impl LiveView {
    /// One side is there, and an observation is of a request that goes on.
    pub open spec fn valid(self) -> bool {
        &&& self.queue is Some || self.observed is Some
        &&& self.observed matches Some(observed) ==> !observed.state.terminal()
        &&& self.uncounted ==> self.observed is Some
    }

    /// The generation whose request it is: the queue's where it is queued.
    pub open spec fn generation(self) -> GenerationId {
        match self.queue {
            Some(queue) => queue.generation,
            None => self.observed->0.generation,
        }
    }
}

/// The live requests by request id.
pub type Requests = Map<Seq<char>, LiveView>;

pub open spec fn phase_weight(generation: GenerationId, phase: TrackedPromptPhase) -> spec_fn(LiveView) -> nat {
    |request: LiveView|
        match request.queue {
            Some(queue) => if queue.generation == generation && queue.phase == phase {
                1nat
            } else {
                0
            },
            None => 0,
        }
}

pub open spec fn token_weight(generation: GenerationId) -> spec_fn(LiveView) -> nat {
    |request: LiveView|
        match request.queue {
            Some(queue) => if queue.generation == generation {
                queue.input_tokens as nat
            } else {
                0
            },
            None => 0,
        }
}

pub open spec fn work_weight(generation: GenerationId, priority: u32) -> spec_fn(LiveView) -> nat {
    |request: LiveView|
        match request.queue {
            Some(queue) => if queue.generation == generation {
                queue.work_at(priority)
            } else {
                0
            },
            None => 0,
        }
}

pub open spec fn rate_weight(generation: GenerationId, rate: Binary64) -> spec_fn(LiveView) -> nat {
    |request: LiveView|
        match request.queue {
            Some(queue) => if queue.generation == generation && queue.active_chat_output_tps == Some(rate) {
                1nat
            } else {
                0
            },
            None => 0,
        }
}

pub open spec fn observed_weight(generation: GenerationId, state: RequestObservationState) -> spec_fn(
    LiveView,
) -> nat {
    |request: LiveView|
        match request.observed {
            Some(observed) => if !request.uncounted && observed.generation == generation && observed.state == state {
                observed.input_tokens as nat
            } else {
                0
            },
            None => 0,
        }
}

/// How many queued requests of the generation are in the phase.
pub open spec fn phase_requests(requests: Requests, generation: GenerationId, phase: TrackedPromptPhase) -> nat {
    crate::sums::total(requests, phase_weight(generation, phase))
}

/// The input tokens of all queued requests of the generation.
pub open spec fn queued_tokens(requests: Requests, generation: GenerationId) -> nat {
    crate::sums::total(requests, token_weight(generation))
}

/// The prompt work of the generation that waits under exactly this priority.
pub open spec fn queued_work(requests: Requests, generation: GenerationId, priority: u32) -> nat {
    crate::sums::total(requests, work_weight(generation, priority))
}

/// How many queued requests of the generation have this output rate.
pub open spec fn rate_requests(requests: Requests, generation: GenerationId, rate: Binary64) -> nat {
    crate::sums::total(requests, rate_weight(generation, rate))
}

/// The input tokens of the generation's requests last observed in the state, as
/// far as they are counted.
pub open spec fn observed_tokens(
    requests: Requests,
    generation: GenerationId,
    state: RequestObservationState,
) -> nat {
    crate::sums::total(requests, observed_weight(generation, state))
}

/// The totals of a model are the sums over the requests of its generation.
pub open spec fn counts(model: QueueModelState, requests: Requests, generation: GenerationId) -> bool {
    &&& model.wf()
    &&& forall|phase: TrackedPromptPhase| #[trigger]
        model.phase_count(phase) == phase_requests(requests, generation, phase)
    &&& model.total_input_tokens == queued_tokens(requests, generation)
    &&& forall|priority: u32| #[trigger] model.work_at(priority) == queued_work(requests, generation, priority)
    &&& forall|rate: Binary64| #[trigger] model.rates().count(rate) == rate_requests(requests, generation, rate)
    &&& forall|state: RequestObservationState|
        !state.terminal() ==> #[trigger] model.observed(state) == observed_tokens(requests, generation, state)
}

/// The request counts in no total of the generation.
pub open spec fn weightless(request: LiveView, generation: GenerationId) -> bool {
    &&& request.queue matches Some(queue) ==> queue.generation != generation
    &&& request.observed matches Some(observed) ==> observed.generation != generation || observed.input_tokens == 0
        || request.uncounted
}

/// The generation has no request that counts.
pub open spec fn idle(requests: Requests, generation: GenerationId) -> bool {
    forall|id: Seq<char>| #[trigger] requests.contains_key(id) ==> weightless(requests[id], generation)
}

/// Every kept model counts its generation, and every other generation is idle.
pub open spec fn keeps(models: Map<GenerationId, QueueModelState>, requests: Requests) -> bool {
    forall|generation: GenerationId|
        if #[trigger] models.contains_key(generation) {
            counts(models[generation], requests, generation)
        } else {
            idle(requests, generation)
        }
}

pub open spec fn throughput_of(models: Map<GenerationId, QueueModelState>, generation: GenerationId) -> Option<
    Binary64,
> {
    if models.contains_key(generation) {
        models[generation].last_mean_input_tps
    } else {
        None
    }
}

/// No generation's throughput differs.
pub open spec fn same_throughput(
    left: Map<GenerationId, QueueModelState>,
    right: Map<GenerationId, QueueModelState>,
) -> bool {
    forall|generation: GenerationId| #[trigger] throughput_of(left, generation) == throughput_of(right, generation)
}

/// What one more request adds to every sum.
pub proof fn lemma_sums_insert(requests: Requests, id: Seq<char>, request: LiveView, generation: GenerationId)
    requires
        requests.dom().finite(),
        !requests.contains_key(id),
    ensures
        forall|phase: TrackedPromptPhase| #[trigger]
            phase_requests(requests.insert(id, request), generation, phase) == phase_requests(
                requests,
                generation,
                phase,
            ) + phase_weight(generation, phase)(request),
        queued_tokens(requests.insert(id, request), generation) == queued_tokens(requests, generation) + token_weight(
            generation,
        )(request),
        forall|priority: u32| #[trigger]
            queued_work(requests.insert(id, request), generation, priority) == queued_work(
                requests,
                generation,
                priority,
            ) + work_weight(generation, priority)(request),
        forall|rate: Binary64| #[trigger]
            rate_requests(requests.insert(id, request), generation, rate) == rate_requests(requests, generation, rate)
                + rate_weight(generation, rate)(request),
        forall|state: RequestObservationState| #[trigger]
            observed_tokens(requests.insert(id, request), generation, state) == observed_tokens(
                requests,
                generation,
                state,
            ) + observed_weight(generation, state)(request),
{
    let more = requests.insert(id, request);
    assert forall|phase: TrackedPromptPhase| #[trigger]
        phase_requests(more, generation, phase) == phase_requests(requests, generation, phase) + phase_weight(
            generation,
            phase,
        )(request) by {
        crate::sums::lemma_total_insert(requests, phase_weight(generation, phase), id, request);
    }
    crate::sums::lemma_total_insert(requests, token_weight(generation), id, request);
    assert forall|priority: u32| #[trigger]
        queued_work(more, generation, priority) == queued_work(requests, generation, priority) + work_weight(
            generation,
            priority,
        )(request) by {
        crate::sums::lemma_total_insert(requests, work_weight(generation, priority), id, request);
    }
    assert forall|rate: Binary64| #[trigger]
        rate_requests(more, generation, rate) == rate_requests(requests, generation, rate) + rate_weight(
            generation,
            rate,
        )(request) by {
        crate::sums::lemma_total_insert(requests, rate_weight(generation, rate), id, request);
    }
    assert forall|state: RequestObservationState| #[trigger]
        observed_tokens(more, generation, state) == observed_tokens(requests, generation, state) + observed_weight(
            generation,
            state,
        )(request) by {
        crate::sums::lemma_total_insert(requests, observed_weight(generation, state), id, request);
    }
}

/// The sums fit the machine's integers, as the number of requests does.
pub proof fn lemma_sums_fit(requests: Requests, generation: GenerationId)
    requires
        requests.dom().finite(),
        requests.len() <= usize::MAX,
    ensures
        forall|phase: TrackedPromptPhase| #[trigger]
            phase_requests(requests, generation, phase) <= requests.len(),
        queued_tokens(requests, generation) <= u128::MAX,
        forall|priority: u32| #[trigger] queued_work(requests, generation, priority) <= u128::MAX,
        forall|state: RequestObservationState| #[trigger]
            observed_tokens(requests, generation, state) <= u128::MAX,
{
    let bound = u64::MAX as nat;
    assert(requests.len() * bound <= u128::MAX) by (nonlinear_arith)
        requires
            requests.len() <= usize::MAX,
            bound == u64::MAX,
    ;
    assert forall|phase: TrackedPromptPhase| #[trigger]
        phase_requests(requests, generation, phase) <= requests.len() by {
        crate::sums::lemma_total_bound(requests, phase_weight(generation, phase), 1);
    }
    crate::sums::lemma_total_bound(requests, token_weight(generation), bound);
    assert forall|priority: u32| #[trigger] queued_work(requests, generation, priority) <= u128::MAX by {
        crate::sums::lemma_total_bound(requests, work_weight(generation, priority), bound);
    }
    assert forall|state: RequestObservationState| #[trigger]
        observed_tokens(requests, generation, state) <= u128::MAX by {
        crate::sums::lemma_total_bound(requests, observed_weight(generation, state), bound);
    }
}

/// A fresh model counts an idle generation.
proof fn lemma_fresh_counts(model: QueueModelState, requests: Requests, generation: GenerationId)
    requires
        requests.dom().finite(),
        idle(requests, generation),
        model.wf(),
        model.total_input_tokens == 0,
        forall|phase: TrackedPromptPhase| model.phase_count(phase) == 0,
        forall|state: RequestObservationState| model.observed(state) == 0,
        model.rates() == vstd::multiset::Multiset::<Binary64>::empty(),
        forall|priority: u32| model.work_at(priority) == 0,
    ensures
        counts(model, requests, generation),
{
    assert forall|phase: TrackedPromptPhase| #[trigger]
        model.phase_count(phase) == phase_requests(requests, generation, phase) by {
        crate::sums::lemma_total_zero(requests, phase_weight(generation, phase));
    }
    crate::sums::lemma_total_zero(requests, token_weight(generation));
    assert forall|priority: u32| #[trigger]
        model.work_at(priority) == queued_work(requests, generation, priority) by {
        crate::sums::lemma_total_zero(requests, work_weight(generation, priority));
    }
    assert forall|rate: Binary64| #[trigger]
        model.rates().count(rate) == rate_requests(requests, generation, rate) by {
        crate::sums::lemma_total_zero(requests, rate_weight(generation, rate));
    }
    assert forall|state: RequestObservationState| !state.terminal() implies #[trigger] model.observed(state)
        == observed_tokens(requests, generation, state) by {
        crate::sums::lemma_total_zero(requests, observed_weight(generation, state));
    }
}

/// A generation whose model is unused is idle.
proof fn lemma_unused_idle(model: QueueModelState, requests: Requests, generation: GenerationId)
    requires
        requests.dom().finite(),
        forall|id: Seq<char>| #[trigger]
            requests.contains_key(id) ==> (requests[id].observed matches Some(observed)
                ==> !observed.state.terminal()),
        counts(model, requests, generation),
        forall|phase: TrackedPromptPhase| model.phase_count(phase) == 0,
        forall|state: RequestObservationState| model.observed(state) == 0,
    ensures
        idle(requests, generation),
{
    assert forall|id: Seq<char>| #[trigger] requests.contains_key(id) implies weightless(requests[id], generation) by {
        if let Some(queue) = requests[id].queue {
            assert(model.phase_count(queue.phase) == 0);
            crate::sums::lemma_total_remove(requests, phase_weight(generation, queue.phase), id);
        }
        if let Some(observed) = requests[id].observed {
            assert(model.observed(observed.state) == 0);
            crate::sums::lemma_total_remove(requests, observed_weight(generation, observed.state), id);
        }
    }
}

/// The model of a generation, taken out of the map, or a fresh one.
fn take_model(
    models: &mut SortedMap<ModelGeneration, QueueModelState>,
    generation: &ModelGeneration,
    Ghost(requests): Ghost<Requests>,
) -> (model: QueueModelState)
    requires
        requests.dom().finite(),
        keeps(old(models)@, requests),
    ensures
        counts(model, requests, generation@),
        model.last_mean_input_tps == throughput_of(old(models)@, generation@),
        final(models)@ == old(models)@.remove(generation@),
{
    match models.remove(generation) {
        Some(model) => model,
        None => {
            let model = QueueModelState::new();
            proof {
                assert(!old(models)@.contains_key(generation@));
                lemma_fresh_counts(model, requests, generation@);
            }
            model
        },
    }
}

/// Drops the model of a generation that nothing is known of.
fn remove_model_if_unused(
    models: &mut SortedMap<ModelGeneration, QueueModelState>,
    generation: &ModelGeneration,
    Ghost(requests): Ghost<Requests>,
)
    requires
        requests.dom().finite(),
        forall|id: Seq<char>| #[trigger]
            requests.contains_key(id) ==> (requests[id].observed matches Some(observed)
                ==> !observed.state.terminal()),
        keeps(old(models)@, requests),
    ensures
        final(models)@ == (if old(models)@.contains_key(generation@) && old(models)@[generation@].unused() {
            old(models)@.remove(generation@)
        } else {
            old(models)@
        }),
        keeps(final(models)@, requests),
        same_throughput(final(models)@, old(models)@),
{
    let unused = match models.get(generation) {
        Some(model) => model.is_unused(),
        None => false,
    };
    if unused {
        proof {
            lemma_unused_idle(models@[generation@], requests, generation@);
        }
        let _ = models.remove(generation);
    }
}

/// A request of which nothing but a counted observation is there.
pub open spec fn observation_alone(observed: ObservedView) -> LiveView {
    LiveView { queue: None, observed: Some(observed), uncounted: false }
}

/// Counts the observation of a request that is not among `requests` yet.
fn track_observed(
    models: &mut SortedMap<ModelGeneration, QueueModelState>,
    observed: &ObservedRequestState,
    Ghost(requests): Ghost<Requests>,
    Ghost(id): Ghost<Seq<char>>,
)
    requires
        requests.dom().finite(),
        requests.len() < usize::MAX,
        !requests.contains_key(id),
        !observed.state.terminal(),
        keeps(old(models)@, requests),
    ensures
        keeps(final(models)@, requests.insert(id, observation_alone(observed@))),
        same_throughput(final(models)@, old(models)@),
{
    let ghost request = observation_alone(observed@);
    let ghost more = requests.insert(id, request);
    let mut model = take_model(models, &observed.generation, Ghost(requests));
    let ghost before = model;
    proof {
        lemma_sums_insert(requests, id, request, observed.generation@);
        lemma_sums_fit(more, observed.generation@);
        assert(observed_tokens(more, observed.generation@, observed.state) == before.observed(observed.state)
            + observed.input_tokens);
    }
    model.add_observed(observed);
    proof {
        assert(counts(model, more, observed.generation@)) by {
            assert forall|phase: TrackedPromptPhase| #[trigger]
                model.phase_count(phase) == phase_requests(more, observed.generation@, phase) by {
                assert(before.phase_count(phase) == model.phase_count(phase));
            }
            assert forall|priority: u32| #[trigger]
                model.work_at(priority) == queued_work(more, observed.generation@, priority) by {
                assert(before.work_at(priority) == model.work_at(priority));
            }
            assert forall|rate: Binary64| #[trigger]
                model.rates().count(rate) == rate_requests(more, observed.generation@, rate) by {
                assert(before.rates().count(rate) == rate_requests(requests, observed.generation@, rate));
            }
            assert forall|state: RequestObservationState| !state.terminal() implies #[trigger] model.observed(state)
                == observed_tokens(more, observed.generation@, state) by {
                assert(before.observed(state) == observed_tokens(requests, observed.generation@, state));
            }
        }
    }
    models.insert(observed.generation.clone(), model);
    proof {
        assert forall|generation: GenerationId| if #[trigger] models@.contains_key(generation) {
            counts(models@[generation], more, generation)
        } else {
            idle(more, generation)
        } by {
            if generation != observed.generation@ {
                lemma_sums_insert(requests, id, request, generation);
                assert(old(models)@.contains_key(generation) == models@.contains_key(generation));
            }
        }
    }
}

/// Takes the observation of the one request beyond `requests` out of the
/// count again.
fn untrack_observed(
    models: &mut SortedMap<ModelGeneration, QueueModelState>,
    observed: &ObservedRequestState,
    Ghost(requests): Ghost<Requests>,
    Ghost(id): Ghost<Seq<char>>,
)
    requires
        requests.dom().finite(),
        !requests.contains_key(id),
        !observed.state.terminal(),
        forall|id: Seq<char>| #[trigger]
            requests.contains_key(id) ==> (requests[id].observed matches Some(observed)
                ==> !observed.state.terminal()),
        keeps(old(models)@, requests.insert(id, observation_alone(observed@))),
    ensures
        keeps(final(models)@, requests),
        same_throughput(final(models)@, old(models)@),
{
    let ghost request = observation_alone(observed@);
    let ghost more = requests.insert(id, request);
    let mut model = take_model(models, &observed.generation, Ghost(more));
    let ghost before = model;
    proof {
        lemma_sums_insert(requests, id, request, observed.generation@);
        assert(before.observed(observed.state) == observed_tokens(requests, observed.generation@, observed.state)
            + observed.input_tokens);
    }
    model.remove_observed(observed);
    proof {
        assert(counts(model, requests, observed.generation@)) by {
            assert forall|phase: TrackedPromptPhase| #[trigger]
                model.phase_count(phase) == phase_requests(requests, observed.generation@, phase) by {
                assert(before.phase_count(phase) == phase_requests(more, observed.generation@, phase));
            }
            assert forall|priority: u32| #[trigger]
                model.work_at(priority) == queued_work(requests, observed.generation@, priority) by {
                assert(before.work_at(priority) == queued_work(more, observed.generation@, priority));
            }
            assert forall|rate: Binary64| #[trigger]
                model.rates().count(rate) == rate_requests(requests, observed.generation@, rate) by {
                assert(before.rates().count(rate) == rate_requests(more, observed.generation@, rate));
            }
            assert forall|state: RequestObservationState| !state.terminal() implies #[trigger] model.observed(state)
                == observed_tokens(requests, observed.generation@, state) by {
                assert(before.observed(state) == observed_tokens(more, observed.generation@, state));
            }
        }
    }
    models.insert(observed.generation.clone(), model);
    proof {
        assert forall|generation: GenerationId| if #[trigger] models@.contains_key(generation) {
            counts(models@[generation], requests, generation)
        } else {
            idle(requests, generation)
        } by {
            if generation != observed.generation@ {
                lemma_shrink(requests, id, request, generation, models@, old(models)@);
            }
        }
    }
    remove_model_if_unused(models, &observed.generation, Ghost(requests));
}

/// Removing a request leaves the generations that it weighs nothing in.
proof fn lemma_shrink(
    requests: Requests,
    id: Seq<char>,
    request: LiveView,
    generation: GenerationId,
    models: Map<GenerationId, QueueModelState>,
    before: Map<GenerationId, QueueModelState>,
)
    requires
        requests.dom().finite(),
        !requests.contains_key(id),
        keeps(before, requests.insert(id, request)),
        models.contains_key(generation) == before.contains_key(generation),
        models.contains_key(generation) ==> models[generation] == before[generation],
        weightless(request, generation),
    ensures
        if models.contains_key(generation) {
            counts(models[generation], requests, generation)
        } else {
            idle(requests, generation)
        },
{
    let more = requests.insert(id, request);
    lemma_sums_insert(requests, id, request, generation);
    if models.contains_key(generation) {
        let model = models[generation];
        assert(counts(model, more, generation));
        assert forall|phase: TrackedPromptPhase| #[trigger]
            model.phase_count(phase) == phase_requests(requests, generation, phase) by {
            assert(phase_requests(more, generation, phase) == phase_requests(requests, generation, phase));
        }
        assert forall|priority: u32| #[trigger]
            model.work_at(priority) == queued_work(requests, generation, priority) by {
            assert(queued_work(more, generation, priority) == queued_work(requests, generation, priority));
        }
        assert forall|rate: Binary64| #[trigger]
            model.rates().count(rate) == rate_requests(requests, generation, rate) by {
            assert(rate_requests(more, generation, rate) == rate_requests(requests, generation, rate));
        }
        assert forall|state: RequestObservationState| !state.terminal() implies #[trigger] model.observed(state)
            == observed_tokens(requests, generation, state) by {
            assert(observed_tokens(more, generation, state) == observed_tokens(requests, generation, state));
        }
    } else {
        assert(idle(more, generation));
        assert forall|other: Seq<char>| #[trigger] requests.contains_key(other) implies weightless(
            requests[other],
            generation,
        ) by {
            assert(more.contains_key(other) && more[other] == requests[other]);
        }
    }
}

/// Counts the queue side of a request whose observation is counted already.
fn track_queue(
    models: &mut SortedMap<ModelGeneration, QueueModelState>,
    queue: &TrackedPromptRequest,
    Ghost(requests): Ghost<Requests>,
    Ghost(id): Ghost<Seq<char>>,
    Ghost(half): Ghost<LiveView>,
)
    requires
        requests.dom().finite(),
        requests.len() < usize::MAX,
        !requests.contains_key(id),
        half.queue is None,
        keeps(old(models)@, requests.insert(id, half)),
    ensures
        keeps(final(models)@, requests.insert(id, LiveView { queue: Some(queue@), ..half })),
        same_throughput(final(models)@, old(models)@),
{
    let ghost full = LiveView { queue: Some(queue@), ..half };
    let ghost less = requests.insert(id, half);
    let ghost more = requests.insert(id, full);
    let ghost own = queue.generation@;
    let mut model = take_model(models, &queue.generation, Ghost(less));
    let ghost before = model;
    proof {
        lemma_sums_insert(requests, id, half, own);
        lemma_sums_insert(requests, id, full, own);
        lemma_sums_fit(more, own);
        assert(phase_requests(more, own, queue.phase) == before.phase_count(queue.phase) + 1);
        assert forall|priority: u32| #![auto] before.work_at(priority) + queue@.work_at(priority) <= u128::MAX by {
            assert(queued_work(more, own, priority) == before.work_at(priority) + queue@.work_at(priority));
        }
    }
    model.add_request(queue);
    proof {
        assert(counts(model, more, own)) by {
            assert forall|phase: TrackedPromptPhase| #[trigger]
                model.phase_count(phase) == phase_requests(more, own, phase) by {
                assert(before.phase_count(phase) == phase_requests(less, own, phase));
            }
            assert forall|priority: u32| #[trigger]
                model.work_at(priority) == queued_work(more, own, priority) by {
                assert(before.work_at(priority) == queued_work(less, own, priority));
            }
            assert forall|rate: Binary64| #[trigger]
                model.rates().count(rate) == rate_requests(more, own, rate) by {
                assert(before.rates().count(rate) == rate_requests(less, own, rate));
            }
            assert forall|state: RequestObservationState| !state.terminal() implies #[trigger] model.observed(state)
                == observed_tokens(more, own, state) by {
                assert(before.observed(state) == observed_tokens(less, own, state));
            }
        }
    }
    models.insert(queue.generation.clone(), model);
    proof {
        assert forall|generation: GenerationId| if #[trigger] models@.contains_key(generation) {
            counts(models@[generation], more, generation)
        } else {
            idle(more, generation)
        } by {
            if generation != own {
                lemma_other_queue(requests, id, half, full, generation, models@, old(models)@);
            }
        }
    }
}

/// A request's queue side weighs in no generation but its own.
proof fn lemma_other_queue(
    requests: Requests,
    id: Seq<char>,
    from: LiveView,
    to: LiveView,
    generation: GenerationId,
    models: Map<GenerationId, QueueModelState>,
    before: Map<GenerationId, QueueModelState>,
)
    requires
        requests.dom().finite(),
        !requests.contains_key(id),
        keeps(before, requests.insert(id, from)),
        models.contains_key(generation) == before.contains_key(generation),
        models.contains_key(generation) ==> models[generation] == before[generation],
        from.observed == to.observed,
        from.uncounted == to.uncounted,
        from.queue matches Some(queue) ==> queue.generation != generation,
        to.queue matches Some(queue) ==> queue.generation != generation,
    ensures
        if models.contains_key(generation) {
            counts(models[generation], requests.insert(id, to), generation)
        } else {
            idle(requests.insert(id, to), generation)
        },
{
    let old_requests = requests.insert(id, from);
    let new_requests = requests.insert(id, to);
    lemma_sums_insert(requests, id, from, generation);
    lemma_sums_insert(requests, id, to, generation);
    if models.contains_key(generation) {
        let model = models[generation];
        assert(counts(model, old_requests, generation));
        assert forall|phase: TrackedPromptPhase| #[trigger]
            model.phase_count(phase) == phase_requests(new_requests, generation, phase) by {
            assert(phase_requests(old_requests, generation, phase) == phase_requests(
                new_requests,
                generation,
                phase,
            ));
        }
        assert forall|priority: u32| #[trigger]
            model.work_at(priority) == queued_work(new_requests, generation, priority) by {
            assert(queued_work(old_requests, generation, priority) == queued_work(
                new_requests,
                generation,
                priority,
            ));
        }
        assert forall|rate: Binary64| #[trigger]
            model.rates().count(rate) == rate_requests(new_requests, generation, rate) by {
            assert(rate_requests(old_requests, generation, rate) == rate_requests(new_requests, generation, rate));
        }
        assert forall|state: RequestObservationState| !state.terminal() implies #[trigger] model.observed(state)
            == observed_tokens(new_requests, generation, state) by {
            assert(observed_tokens(old_requests, generation, state) == observed_tokens(
                new_requests,
                generation,
                state,
            ));
        }
    } else {
        assert(idle(old_requests, generation));
        assert forall|other: Seq<char>| #[trigger] new_requests.contains_key(other) implies weightless(
            new_requests[other],
            generation,
        ) by {
            assert(old_requests.contains_key(other));
            if other != id {
                assert(old_requests[other] == new_requests[other]);
            }
        }
    }
}

/// Takes the queue side of a request out of the count again.
fn untrack_queue(
    models: &mut SortedMap<ModelGeneration, QueueModelState>,
    queue: &TrackedPromptRequest,
    Ghost(requests): Ghost<Requests>,
    Ghost(id): Ghost<Seq<char>>,
    Ghost(half): Ghost<LiveView>,
)
    requires
        requests.dom().finite(),
        !requests.contains_key(id),
        half.observed matches Some(observed) ==> !observed.state.terminal(),
        forall|id: Seq<char>| #[trigger]
            requests.contains_key(id) ==> (requests[id].observed matches Some(observed)
                ==> !observed.state.terminal()),
        half.queue is None,
        keeps(old(models)@, requests.insert(id, LiveView { queue: Some(queue@), ..half })),
    ensures
        keeps(final(models)@, requests.insert(id, half)),
        same_throughput(final(models)@, old(models)@),
{
    let ghost full = LiveView { queue: Some(queue@), ..half };
    let ghost less = requests.insert(id, half);
    let ghost more = requests.insert(id, full);
    let ghost own = queue.generation@;
    let mut model = take_model(models, &queue.generation, Ghost(more));
    let ghost before = model;
    proof {
        lemma_sums_insert(requests, id, half, own);
        lemma_sums_insert(requests, id, full, own);
        assert(before.phase_count(queue.phase) == phase_requests(less, own, queue.phase) + 1);
        assert(before.total_input_tokens >= queue.input_tokens);
        assert forall|priority: u32| #![auto] before.work_at(priority) >= queue@.work_at(priority) by {
            assert(before.work_at(priority) == queued_work(more, own, priority));
        }
        if let Some(rate) = queue.active_chat_output_tps {
            assert(before.rates().count(rate) == rate_requests(more, own, rate));
        }
    }
    model.remove_request(queue);
    proof {
        assert(counts(model, less, own)) by {
            assert forall|phase: TrackedPromptPhase| #[trigger]
                model.phase_count(phase) == phase_requests(less, own, phase) by {
                assert(before.phase_count(phase) == phase_requests(more, own, phase));
            }
            assert forall|priority: u32| #[trigger]
                model.work_at(priority) == queued_work(less, own, priority) by {
                assert(before.work_at(priority) == queued_work(more, own, priority));
            }
            assert forall|rate: Binary64| #[trigger]
                model.rates().count(rate) == rate_requests(less, own, rate) by {
                assert(before.rates().count(rate) == rate_requests(more, own, rate));
            }
            assert forall|state: RequestObservationState| !state.terminal() implies #[trigger] model.observed(state)
                == observed_tokens(less, own, state) by {
                assert(before.observed(state) == observed_tokens(more, own, state));
            }
        }
    }
    models.insert(queue.generation.clone(), model);
    proof {
        assert forall|generation: GenerationId| if #[trigger] models@.contains_key(generation) {
            counts(models@[generation], less, generation)
        } else {
            idle(less, generation)
        } by {
            if generation != own {
                lemma_other_queue(requests, id, full, half, generation, models@, old(models)@);
            }
        }
    }
    remove_model_if_unused(models, &queue.generation, Ghost(less));
}

impl LiveRequest {
    /// The generation whose request it is.
    pub fn generation(&self) -> (generation: &ModelGeneration)
        ensures
            generation@ == self@.generation(),
    {
        match self {
            LiveRequest::Queue { queue, .. } => &queue.generation,
            LiveRequest::Observed { last, .. } => &last.generation,
        }
    }

    /// The observed side alone.
    pub fn into_observed(self) -> (observed: Option<ObservedRequestState>)
        ensures
            observed_view(observed) == self@.observed,
    {
        match self {
            LiveRequest::Queue { observed, .. } => observed,
            LiveRequest::Observed { last, .. } => Some(last),
        }
    }

    /// Whether the observation is counted in no total.
    fn is_uncounted(&self) -> (uncounted: bool)
        ensures
            uncounted == self@.uncounted,
    {
        match self {
            LiveRequest::Queue { uncounted, .. } => *uncounted,
            LiveRequest::Observed { uncounted, .. } => *uncounted,
        }
    }

    fn observed(&self) -> (observed: Option<&ObservedRequestState>)
        ensures
            match observed {
                Some(observed) => self@.observed == Some(observed@),
                None => self@.observed is None,
            },
    {
        match self {
            LiveRequest::Queue { observed, .. } => match observed {
                Some(observed) => Some(observed),
                None => None,
            },
            LiveRequest::Observed { last, .. } => Some(last),
        }
    }

    /// The observation, where it counts.
    fn counted(&self) -> (observed: Option<&ObservedRequestState>)
        ensures
            match observed {
                Some(observed) => !self@.uncounted && self@.observed == Some(observed@),
                None => self@.uncounted || self@.observed is None,
            },
    {
        if self.is_uncounted() {
            None
        } else {
            self.observed()
        }
    }

    fn queue(&self) -> (queue: Option<&TrackedPromptRequest>)
        ensures
            match queue {
                Some(queue) => self@.queue == Some(queue@),
                None => self@.queue is None,
            },
    {
        match self {
            LiveRequest::Queue { queue, .. } => Some(queue),
            LiveRequest::Observed { .. } => None,
        }
    }
}

pub open spec fn all_valid(requests: Requests) -> bool {
    forall|id: Seq<char>| #[trigger] requests.contains_key(id) ==> requests[id].valid()
}

/// The live requests and the totals of the generations that they belong to.
#[derive(Debug)]
pub struct LiveRequestState {
    requests: SortedMap<String, LiveRequest>,
    models: SortedMap<ModelGeneration, QueueModelState>,
}

impl LiveRequestState {
    pub closed spec fn requests(&self) -> Requests {
        self.requests@
    }

    /// The throughput last set for the generation.
    pub closed spec fn throughput(&self, generation: GenerationId) -> Option<Binary64> {
        throughput_of(self.models@, generation)
    }

    /// The totals count the requests.
    pub closed spec fn wf(&self) -> bool {
        &&& self.requests@.dom().finite()
        &&& all_valid(self.requests@)
        &&& keeps(self.models@, self.requests@)
        &&& forall|generation: GenerationId|
            #[trigger] throughput_of(self.models@, generation) is Some ==> throughput_of(
                self.models@,
                generation,
            )->0.positive_finite()
    }

    pub open spec fn same_rates(&self, other: &LiveRequestState) -> bool {
        forall|generation: GenerationId| #[trigger] self.throughput(generation) == other.throughput(generation)
    }

    pub fn new() -> (state: Self)
        ensures
            state.wf(),
            state.requests() == Map::<Seq<char>, LiveView>::empty(),
            forall|generation: GenerationId| #[trigger] state.throughput(generation) is None,
    {
        LiveRequestState { requests: SortedMap::new(), models: SortedMap::new() }
    }

    /// Puts a request among the live ones and counts it.
    pub fn insert_request(&mut self, request_id: String, request: LiveRequest)
        requires
            old(self).wf(),
            !old(self).requests().contains_key(request_id@),
            request@.valid(),
        ensures
            final(self).wf(),
            final(self).requests() == old(self).requests().insert(request_id@, request@),
            final(self).same_rates(old(self)),
    {
        let ghost before = self.requests@;
        let ghost id = request_id@;
        let ghost half = LiveView { queue: None, ..request@ };
        let key = request_id.clone();
        self.requests.insert(request_id, request);
        let _ = self.requests.len();
        let ghost models_before = self.models@;
        if let Some(live) = self.requests.get(&key) {
            if let Some(observed) = live.counted() {
                assert(half == observation_alone(observed@));
                track_observed(&mut self.models, observed, Ghost(before), Ghost(id));
            } else {
                proof {
                    lemma_nothing(before, id, half, self.models@);
                }
            }
            assert(keeps(self.models@, before.insert(id, half)));
            if let Some(queue) = live.queue() {
                track_queue(&mut self.models, queue, Ghost(before), Ghost(id), Ghost(half));
            }
            proof {
                assert(before.insert(id, live@) == self.requests@);
                assert forall|generation: GenerationId| #[trigger]
                    throughput_of(self.models@, generation) == throughput_of(models_before, generation) by {}
            }
        }
    }

    /// Takes a request from among the live ones.
    pub fn remove_request(&mut self, request_id: &String) -> (request: Option<LiveRequest>)
        requires
            old(self).wf(),
        ensures
            final(self).wf(),
            final(self).requests() == old(self).requests().remove(request_id@),
            final(self).same_rates(old(self)),
            match request {
                Some(request) => old(self).requests().contains_key(request_id@) && request@ == old(
                    self,
                ).requests()[request_id@],
                None => !old(self).requests().contains_key(request_id@),
            },
    {
        let ghost all = self.requests@;
        let ghost id = request_id@;
        let request = match self.requests.remove(request_id) {
            Some(request) => request,
            None => {
                assert(all.remove(id) =~= all);
                return None;
            },
        };
        let ghost rest = self.requests@;
        let ghost half = LiveView { queue: None, ..request@ };
        let ghost models_before = self.models@;
        proof {
            assert(rest.insert(id, request@) =~= all);
            assert(rest =~= all.remove(id));
            assert(all.contains_key(id));
            assert(all[id].valid());
            assert forall|other: Seq<char>| #[trigger] rest.contains_key(other) implies rest[other].valid() by {
                assert(all.contains_key(other));
            }
        }
        if let Some(queue) = request.queue() {
            untrack_queue(&mut self.models, queue, Ghost(rest), Ghost(id), Ghost(half));
        }
        assert(keeps(self.models@, rest.insert(id, half)));
        if let Some(observed) = request.counted() {
            assert(half == observation_alone(observed@));
            untrack_observed(&mut self.models, observed, Ghost(rest), Ghost(id));
        } else {
            proof {
                lemma_nothing_again(rest, id, half, self.models@);
            }
        }
        proof {
            assert forall|generation: GenerationId| #[trigger]
                throughput_of(self.models@, generation) == throughput_of(models_before, generation) by {}
        }
        Some(request)
    }
}

/// A request that is neither queued nor counted weighs nothing.
proof fn lemma_nothing(
    requests: Requests,
    id: Seq<char>,
    nothing: LiveView,
    models: Map<GenerationId, QueueModelState>,
)
    requires
        requests.dom().finite(),
        !requests.contains_key(id),
        nothing.queue is None,
        nothing.observed is None || nothing.uncounted,
        keeps(models, requests),
    ensures
        keeps(models, requests.insert(id, nothing)),
{
    let more = requests.insert(id, nothing);
    assert forall|generation: GenerationId| if #[trigger] models.contains_key(generation) {
        counts(models[generation], more, generation)
    } else {
        idle(more, generation)
    } by {
        lemma_sums_insert(requests, id, nothing, generation);
        if !models.contains_key(generation) {
            assert(idle(requests, generation));
        }
    }
}

proof fn lemma_nothing_again(
    requests: Requests,
    id: Seq<char>,
    nothing: LiveView,
    models: Map<GenerationId, QueueModelState>,
)
    requires
        requests.dom().finite(),
        !requests.contains_key(id),
        nothing.queue is None,
        nothing.observed is None || nothing.uncounted,
        keeps(models, requests.insert(id, nothing)),
    ensures
        keeps(models, requests),
{
    assert forall|generation: GenerationId| if #[trigger] models.contains_key(generation) {
        counts(models[generation], requests, generation)
    } else {
        idle(requests, generation)
    } by {
        lemma_shrink(requests, id, nothing, generation, models, models);
    }
}

/// The work of the generation's requests under the priorities up to `last`.
pub open spec fn through_weight(generation: GenerationId, last: int) -> spec_fn(LiveView) -> nat {
    |request: LiveView|
        match request.queue {
            Some(queue) => if queue.generation == generation {
                match queue.work() {
                    Some((at, tokens)) => if at <= last {
                        tokens as nat
                    } else {
                        0
                    },
                    None => 0,
                }
            } else {
                0
            },
            None => 0,
        }
}

/// The prompt work of the generation that is served before or with a request
/// of priority `last`.
pub open spec fn queued_work_through(requests: Requests, generation: GenerationId, last: int) -> nat {
    crate::sums::total(requests, through_weight(generation, last))
}

/// The running totals by priority add up to the work through each priority.
proof fn lemma_work_through(model: QueueModelState, requests: Requests, generation: GenerationId, last: int)
    requires
        requests.dom().finite(),
        counts(model, requests, generation),
        -1 <= last <= u32::MAX,
    ensures
        crate::queue_model::work_through(model.prompt_work_by_priority@, last) == queued_work_through(requests, generation, last),
    decreases last + 1,
{
    if last < 0 {
        crate::sums::lemma_total_zero(requests, through_weight(generation, last));
    } else {
        lemma_work_through(model, requests, generation, last - 1);
        assert(model.work_at(last as u32) == queued_work(requests, generation, last as u32));
        crate::sums::lemma_total_split(
            requests,
            through_weight(generation, last - 1),
            work_weight(generation, last as u32),
            through_weight(generation, last),
        );
    }
}

proof fn lemma_work_through_fits(requests: Requests, generation: GenerationId, last: int)
    requires
        requests.dom().finite(),
        requests.len() <= usize::MAX,
    ensures
        queued_work_through(requests, generation, last) <= u128::MAX,
{
    let bound = u64::MAX as nat;
    assert(requests.len() * bound <= u128::MAX) by (nonlinear_arith)
        requires
            requests.len() <= usize::MAX,
            bound == u64::MAX,
    ;
    crate::sums::lemma_total_bound(requests, through_weight(generation, last), bound);
}

/// Each queued request is in one phase.
proof fn lemma_phases_fit(requests: Requests, generation: GenerationId)
    requires
        requests.dom().finite(),
    ensures
        phase_requests(requests, generation, TrackedPromptPhase::Pending) + phase_requests(
            requests,
            generation,
            TrackedPromptPhase::InputProcessing,
        ) + phase_requests(requests, generation, TrackedPromptPhase::OutputGeneration) <= requests.len(),
    decreases requests.dom().len(),
{
    if !requests.dom().is_empty() {
        let id = requests.dom().choose();
        lemma_phases_fit(requests.remove(id), generation);
        crate::sums::lemma_total_remove(requests, phase_weight(generation, TrackedPromptPhase::Pending), id);
        crate::sums::lemma_total_remove(requests, phase_weight(generation, TrackedPromptPhase::InputProcessing), id);
        crate::sums::lemma_total_remove(requests, phase_weight(generation, TrackedPromptPhase::OutputGeneration), id);
    }
}

/// The snapshot says of the generation what its live requests make of it.
pub open spec fn describes<F: Fn(u64, Binary64) -> Option<u64>>(
    snapshot: QueueModelSnapshot,
    requests: Requests,
    generation: GenerationId,
    throughput: Option<Binary64>,
    queue_time_delta_ms: F,
) -> bool {
    let pending = phase_requests(requests, generation, TrackedPromptPhase::Pending);
    let processing = phase_requests(requests, generation, TrackedPromptPhase::InputProcessing);
    let generating = phase_requests(requests, generation, TrackedPromptPhase::OutputGeneration);
    &&& forall|rate: Binary64| #[trigger]
        snapshot.active_chat_output_tps@.to_multiset().count(rate) == rate_requests(requests, generation, rate)
    &&& snapshot.queue_size == pending + processing
    &&& snapshot.num_running_queries == pending + processing + generating
    &&& snapshot.input_processing_queries == processing
    &&& snapshot.output_generation_queries == generating
    &&& snapshot.queued_input_size == crate::queue_model::saturated(queued_work_through(requests, generation, u32::MAX as int))
    &&& snapshot.total_query_input_size == crate::queue_model::saturated(queued_tokens(requests, generation))
    &&& match throughput {
        None => snapshot.queue_time_estimate_ms_by_priority is None,
        Some(rate) => {
            &&& snapshot.queue_time_estimate_ms_by_priority is Some
            &&& forall|priority: u32| #[trigger]
                snapshot.queue_time_estimate_ms_by_priority->0@.contains_key(priority) <==> queued_work(
                    requests,
                    generation,
                    priority,
                ) > 0
            &&& forall|priority: u32|
                snapshot.queue_time_estimate_ms_by_priority->0@.contains_key(priority) ==> crate::queue_model::estimated(
                    queue_time_delta_ms,
                    queued_work_through(requests, generation, priority as int),
                    rate,
                    #[trigger] snapshot.queue_time_estimate_ms_by_priority->0@[priority],
                )
        },
    }
}

impl LiveRequestState {
    /// The published queue of one generation.
    pub fn snapshot_generation<F: Fn(u64, Binary64) -> Option<u64>>(
        &self,
        generation: &ModelGeneration,
        queue_time_delta_ms: &F,
    ) -> (snapshot: QueueModelSnapshot)
        requires
            self.wf(),
            forall|tokens: u64, rate: Binary64| call_requires(*queue_time_delta_ms, (tokens, rate)),
        ensures
            describes(
                snapshot,
                self.requests(),
                generation@,
                self.throughput(generation@),
                *queue_time_delta_ms,
            ),
    {
        let _ = self.requests.len();
        let ghost requests = self.requests@;
        let ghost own = generation@;
        match self.models.get(generation) {
            Some(model) => {
                proof {
                    lemma_sums_fit(requests, own);
                    lemma_phases_fit(requests, own);
                    assert(model.phase_count(TrackedPromptPhase::Pending) == phase_requests(
                        requests,
                        own,
                        TrackedPromptPhase::Pending,
                    ));
                    assert(model.phase_count(TrackedPromptPhase::InputProcessing) == phase_requests(
                        requests,
                        own,
                        TrackedPromptPhase::InputProcessing,
                    ));
                    assert(model.phase_count(TrackedPromptPhase::OutputGeneration) == phase_requests(
                        requests,
                        own,
                        TrackedPromptPhase::OutputGeneration,
                    ));
                    lemma_work_through(*model, requests, own, u32::MAX as int);
                    lemma_work_through_fits(requests, own, u32::MAX as int);
                }
                let snapshot = model.snapshot(queue_time_delta_ms);
                proof {
                    assert forall|rate: Binary64| #[trigger]
                        snapshot.active_chat_output_tps@.to_multiset().count(rate) == rate_requests(
                            requests,
                            own,
                            rate,
                        ) by {
                        assert(model.rates().count(rate) == rate_requests(requests, own, rate));
                    }
                    if let Some(rate) = model.last_mean_input_tps {
                        let estimates = snapshot.queue_time_estimate_ms_by_priority->0@;
                        assert forall|priority: u32| #[trigger]
                            estimates.contains_key(priority) <==> queued_work(requests, own, priority) > 0 by {
                            assert(model.work_at(priority) == queued_work(requests, own, priority));
                            assert(estimates.dom().contains(priority)
                                == model.prompt_work_by_priority@.dom().contains(priority));
                            if model.prompt_work_by_priority@.contains_key(priority) {
                                assert(model.prompt_work_by_priority@[priority] > 0);
                            }
                        }
                        assert forall|priority: u32| estimates.contains_key(priority) implies crate::queue_model::estimated(
                            *queue_time_delta_ms,
                            queued_work_through(requests, own, priority as int),
                            rate,
                            #[trigger] estimates[priority],
                        ) by {
                            assert(model.prompt_work_by_priority@.dom().contains(priority));
                            lemma_work_through(*model, requests, own, priority as int);
                        }
                    }
                }
                snapshot
            },
            None => {
                let snapshot = QueueModelSnapshot::default();
                proof {
                    let fresh = phase_weight(own, TrackedPromptPhase::Pending);
                    assert(idle(requests, own));
                    crate::sums::lemma_total_zero(requests, phase_weight(own, TrackedPromptPhase::Pending));
                    crate::sums::lemma_total_zero(requests, phase_weight(own, TrackedPromptPhase::InputProcessing));
                    crate::sums::lemma_total_zero(requests, phase_weight(own, TrackedPromptPhase::OutputGeneration));
                    crate::sums::lemma_total_zero(requests, token_weight(own));
                    crate::sums::lemma_total_zero(requests, through_weight(own, u32::MAX as int));
                    assert forall|rate: Binary64| #[trigger]
                        snapshot.active_chat_output_tps@.to_multiset().count(rate) == rate_requests(
                            requests,
                            own,
                            rate,
                        ) by {
                        broadcast use vstd::seq_lib::group_to_multiset_ensures;

                        crate::sums::lemma_total_zero(requests, rate_weight(own, rate));
                        assert(!snapshot.active_chat_output_tps@.contains(rate));
                    }
                }
                snapshot
            },
        }
    }

    /// The queue time before a request of the given id and priority: what the
    /// other requests of the generation leave to do ahead of it.
    pub fn queue_estimate_ms<F: Fn(u64, Binary64) -> Option<u64>>(
        &self,
        generation: &ModelGeneration,
        request_id: &String,
        priority: u32,
        queue_time_delta_ms: &F,
    ) -> (estimate: Option<u64>)
        requires
            self.wf(),
            forall|tokens: u64, rate: Binary64| call_requires(*queue_time_delta_ms, (tokens, rate)),
        ensures
            match self.throughput(generation@) {
                None => estimate is None,
                Some(rate) => {
                    &&& estimate is Some
                    &&& crate::queue_model::estimated(
                        *queue_time_delta_ms,
                        queued_work_through(
                            self.requests().remove(request_id@),
                            generation@,
                            priority as int,
                        ),
                        rate,
                        estimate->0,
                    )
                },
            },
    {
        let _ = self.requests.len();
        let ghost requests = self.requests@;
        let ghost own = generation@;
        let model = match self.models.get(generation) {
            Some(model) => model,
            None => {
                return None;
            },
        };
        let excluded = match self.requests.get(request_id) {
            Some(request) => match request.queue() {
                Some(queue) => if queue.generation.same(generation) {
                    Some(queue)
                } else {
                    None
                },
                None => None,
            },
            None => None,
        };
        proof {
            lemma_work_through(*model, requests, own, u32::MAX as int);
            lemma_work_through_fits(requests, own, u32::MAX as int);
            lemma_work_through(*model, requests, own, priority as int);
            if requests.contains_key(request_id@) {
                crate::sums::lemma_total_remove(requests, through_weight(own, priority as int), request_id@);
            } else {
                assert(requests.remove(request_id@) =~= requests);
            }
            if let Some(queue) = excluded {
                assert forall|at: u32| #![auto] model.work_at(at) >= queue@.work_at(at) by {
                    assert(model.work_at(at) == queued_work(requests, own, at));
                    crate::sums::lemma_total_remove(requests, work_weight(own, at), request_id@);
                }
            }
        }
        model.queue_estimate_ms_for_priority_excluding(priority, excluded, queue_time_delta_ms)
    }
}

impl LiveRequestState {
    /// Sets the throughput of a generation, or forgets it where the rate is
    /// not finite and positive.
    pub fn update_generation_throughput(&mut self, generation: &ModelGeneration, last_mean_input_tps: Binary64)
        requires
            old(self).wf(),
        ensures
            final(self).wf(),
            final(self).requests() == old(self).requests(),
            final(self).throughput(generation@) == (if last_mean_input_tps.positive_finite() {
                Some(last_mean_input_tps)
            } else {
                None
            }),
            forall|other: GenerationId|
                other != generation@ ==> #[trigger] final(self).throughput(other) == old(self).throughput(other),
    {
        let ghost requests = self.requests@;
        let ghost before = self.models@;
        if last_mean_input_tps.is_positive_finite() {
            let mut model = take_model(&mut self.models, generation, Ghost(requests));
            let ghost same = model;
            model.last_mean_input_tps = Some(last_mean_input_tps);
            proof {
                lemma_rate_keeps_counts(model, same, requests, generation@);
            }
            self.models.insert(generation.clone(), model);
            proof {
                assert forall|other: GenerationId| if #[trigger] self.models@.contains_key(other) {
                    counts(self.models@[other], requests, other)
                } else {
                    idle(requests, other)
                } by {
                    assert(other != generation@ ==> self.models@.contains_key(other) == before.contains_key(other));
                }
                assert forall|other: GenerationId| #[trigger]
                    throughput_of(self.models@, other) is Some implies throughput_of(
                    self.models@,
                    other,
                )->0.positive_finite() by {
                    if other != generation@ {
                        assert(throughput_of(before, other) == throughput_of(self.models@, other));
                    }
                }
            }
        } else if self.models.contains_key(generation) {
            let mut model = take_model(&mut self.models, generation, Ghost(requests));
            let ghost same = model;
            model.last_mean_input_tps = None;
            proof {
                lemma_rate_keeps_counts(model, same, requests, generation@);
            }
            self.models.insert(generation.clone(), model);
            proof {
                assert forall|other: GenerationId| if #[trigger] self.models@.contains_key(other) {
                    counts(self.models@[other], requests, other)
                } else {
                    idle(requests, other)
                } by {
                    assert(other != generation@ ==> self.models@.contains_key(other) == before.contains_key(other));
                }
                assert forall|other: GenerationId| other != generation@ implies #[trigger] throughput_of(
                    self.models@,
                    other,
                ) == throughput_of(before, other) by {}
            }
            remove_model_if_unused(&mut self.models, generation, Ghost(requests));
            proof {
                assert forall|other: GenerationId| #[trigger]
                    throughput_of(self.models@, other) is Some implies throughput_of(
                    self.models@,
                    other,
                )->0.positive_finite() by {
                    assert(other != generation@ ==> throughput_of(before, other) == throughput_of(
                        self.models@,
                        other,
                    ));
                }
            }
        }
    }

    /// The generation of a live request.
    pub fn request_generation(&self, request_id: &String) -> (generation: Option<ModelGeneration>)
        ensures
            match generation {
                Some(generation) => self.requests().contains_key(request_id@) && generation@
                    == self.requests()[request_id@].generation(),
                None => !self.requests().contains_key(request_id@),
            },
    {
        match self.requests.get(request_id) {
            Some(request) => Some(request.generation().clone()),
            None => None,
        }
    }

    /// How many requests are queued.
    pub fn tracked_request_count(&self) -> (count: usize)
        ensures
            count == crate::sums::total(self.requests(), queued()),
    {
        let ghost all = self.requests();
        let len: usize = self.requests.len();
        let ghost order = self.requests.order();
        let mut count: usize = 0;
        let mut i: usize = 0;
        assert(order.take(0) =~= Seq::<Seq<char>>::empty());
        while i < len
            invariant
                i <= len == order.len(),
                order == self.requests.order(),
                all == self.requests@,
                count <= i,
                count == crate::sums::listed(order.take(i as int), all, queued()),
            decreases len - i,
        {
            proof {
                assert(order.take(i + 1).drop_last() =~= order.take(i as int));
                assert(order.take(i + 1).last() == order[i as int]);
            }
            match self.requests.value_at(i) {
                LiveRequest::Queue { .. } => {
                    count += 1;
                },
                LiveRequest::Observed { .. } => {},
            }
            i += 1;
        }
        proof {
            assert(order.take(len as int) =~= order);
            crate::keyed::lemma_ascending_distinct::<String>(order);
            crate::sums::lemma_listed(order, all, queued());
        }
        count
    }

    /// Ends the queue side of a request; its observation stays.
    pub fn finish_queue_request(&mut self, request_id: &String)
        requires
            old(self).wf(),
        ensures
            final(self).wf(),
            final(self).same_rates(old(self)),
            final(self).requests() == without_queue(old(self).requests(), request_id@),
    {
        if let Some(request) = self.remove_request(request_id) {
            let ghost gone = request@;
            let uncounted = request.is_uncounted();
            if let Some(observed) = request.into_observed() {
                proof {
                    assert(gone.valid());
                    assert(without_queue(old(self).requests(), request_id@) =~= old(self).requests().remove(
                        request_id@,
                    ).insert(request_id@, LiveView { queue: None, ..gone }));
                }
                self.insert_request(request_id.clone(), LiveRequest::Observed { last: observed, uncounted });
            }
        } else {
            assert(without_queue(old(self).requests(), request_id@) =~= old(self).requests());
        }
    }

    /// Queues a request under a generation. What was observed of it stays.
    pub fn queue_request(&mut self, request_id: &String, request: TrackedPromptRequest)
        requires
            old(self).wf(),
        ensures
            final(self).wf(),
            final(self).same_rates(old(self)),
            final(self).requests() == old(self).requests().insert(
                request_id@,
                LiveView {
                    queue: Some(request@),
                    observed: observed_of(old(self).requests(), request_id@),
                    uncounted: uncounted_of(old(self).requests(), request_id@),
                },
            ),
    {
        let mut observed: Option<ObservedRequestState> = None;
        let mut uncounted = false;
        if let Some(removed) = self.remove_request(request_id) {
            uncounted = removed.is_uncounted();
            observed = removed.into_observed();
        }
        let live = LiveRequest::Queue { queue: request, observed, uncounted };
        proof {
            assert(old(self).requests().remove(request_id@).insert(request_id@, live@) =~= old(
                self,
            ).requests().insert(request_id@, live@));
            if old(self).requests().contains_key(request_id@) {
                assert(old(self).requests()[request_id@].valid());
            }
        }
        self.insert_request(request_id.clone(), live);
    }
}

/// What was last observed of a request.
pub open spec fn observed_of(requests: Requests, id: Seq<char>) -> Option<ObservedView> {
    if requests.contains_key(id) {
        requests[id].observed
    } else {
        None
    }
}

/// What was last observed of a request is counted in no total.
pub open spec fn uncounted_of(requests: Requests, id: Seq<char>) -> bool {
    requests.contains_key(id) && requests[id].uncounted
}

/// The queue side of a request.
pub open spec fn queue_of(requests: Requests, id: Seq<char>) -> Option<TrackedView> {
    if requests.contains_key(id) {
        requests[id].queue
    } else {
        None
    }
}

/// The requests once the queue side of one has ended.
pub open spec fn without_queue(requests: Requests, id: Seq<char>) -> Requests {
    match observed_of(requests, id) {
        Some(_) => requests.insert(id, LiveView { queue: None, ..requests[id] }),
        None => requests.remove(id),
    }
}

/// The throughput has no part in the totals.
proof fn lemma_rate_keeps_counts(
    model: QueueModelState,
    same: QueueModelState,
    requests: Requests,
    generation: GenerationId,
)
    requires
        counts(same, requests, generation),
        model == (QueueModelState { last_mean_input_tps: model.last_mean_input_tps, ..same }),
    ensures
        counts(model, requests, generation),
{
    assert forall|phase: TrackedPromptPhase| #[trigger]
        model.phase_count(phase) == phase_requests(requests, generation, phase) by {
        assert(same.phase_count(phase) == model.phase_count(phase));
    }
    assert forall|priority: u32| #[trigger]
        model.work_at(priority) == queued_work(requests, generation, priority) by {
        assert(same.work_at(priority) == model.work_at(priority));
    }
    assert forall|rate: Binary64| #[trigger]
        model.rates().count(rate) == rate_requests(requests, generation, rate) by {
        assert(same.rates().count(rate) == rate_requests(requests, generation, rate));
    }
    assert forall|state: RequestObservationState| !state.terminal() implies #[trigger] model.observed(state)
        == observed_tokens(requests, generation, state) by {
        assert(same.observed(state) == observed_tokens(requests, generation, state));
    }
}

/// The request, with what was observed of it under the generation counted no
/// more.
pub open spec fn discounted(request: LiveView, generation: GenerationId) -> LiveView {
    match request.observed {
        Some(observed) => if observed.generation == generation {
            LiveView { uncounted: true, ..request }
        } else {
            request
        },
        None => request,
    }
}

/// The requests once those named in `done` are rid of the generation.
pub open spec fn purged(requests: Requests, generation: GenerationId, done: Set<Seq<char>>) -> Requests {
    Map::new(
        |id: Seq<char>|
            requests.contains_key(id) && !(done.contains(id) && requests[id].generation() == generation),
        |id: Seq<char>|
            if done.contains(id) {
                discounted(requests[id], generation)
            } else {
                requests[id]
            },
    )
}

/// The requests once a generation has been retired: its own are gone, and what
/// was observed under it of a request that is queued under another generation
/// stays but counts no more.
pub open spec fn retired(requests: Requests, generation: GenerationId) -> Requests {
    purged(requests, generation, requests.dom())
}

impl LiveRequestState {
    /// Retires a generation: its requests go, and its totals with them. What was
    /// observed under it of a request that is queued under another generation
    /// stays, and counts in no total any more.
    pub fn retire_generation(&mut self, generation: &ModelGeneration)
        requires
            old(self).wf(),
        ensures
            final(self).wf(),
            final(self).requests() == retired(old(self).requests(), generation@),
            final(self).throughput(generation@) is None,
            forall|other: GenerationId|
                other != generation@ ==> #[trigger] final(self).throughput(other) == old(self).throughput(other),
    {
        let ghost all = self.requests@;
        let ghost own = generation@;
        let ids = self.requests.keys();
        let ghost order = crate::keyed::views(ids@);
        let mut i: usize = 0;
        proof {
            assert(all =~= purged(all, own, order.take(0).to_set()));
        }
        while i < ids.len()
            invariant
                self.wf(),
                self.same_rates(old(self)),
                own == generation@,
                i <= ids.len(),
                order == crate::keyed::views(ids@),
                order.to_set() == all.dom(),
                crate::keyed::ascending::<String>(order),
                all_valid(all),
                self.requests() == purged(all, own, order.take(i as int).to_set()),
            decreases ids.len() - i,
        {
            let ghost done = order.take(i as int).to_set();
            let ghost more = order.take(i + 1).to_set();
            let ghost id = order[i as int];
            let id_text = &ids[i];
            proof {
                assert(id == id_text@);
                assert(order.to_set().contains(id)) by {
                    assert(order.contains(id));
                }
                assert(more =~= done.insert(id)) by {
                    assert(order.take(i + 1) =~= order.take(i as int).push(id));
                    lemma_push_to_set(order.take(i as int), id);
                }
                assert(!done.contains(id)) by {
                    if done.contains(id) {
                        let j = choose|j: int| 0 <= j < i && #[trigger] order.take(i as int)[j] == id;
                        assert(order[j] == id);
                        crate::text::lemma_text_before_irreflexive(id);
                    }
                }
                assert(all.contains_key(id) && all[id].valid());
                assert(self.requests().contains_key(id) && self.requests()[id] == all[id]);
            }
            if let Some(request) = self.remove_request(id_text) {
                let observed_here = match request.observed() {
                    Some(observed) => observed.generation.same(generation),
                    None => false,
                };
                if request.generation().same(generation) {
                    assert(self.requests() =~= purged(all, own, more));
                } else if observed_here {
                    if let LiveRequest::Queue { queue, observed, .. } = request {
                        let rest = LiveRequest::Queue { queue, observed, uncounted: true };
                        proof {
                            assert(rest@ == discounted(all[id], own));
                            assert(self.requests().insert(id, rest@) =~= purged(all, own, more));
                        }
                        self.insert_request(id_text.clone(), rest);
                    }
                } else {
                    proof {
                        assert(self.requests().insert(id, request@) =~= purged(all, own, more));
                    }
                    self.insert_request(id_text.clone(), request);
                }
            }
            i += 1;
        }
        proof {
            assert(order.take(i as int) =~= order);
            assert(idle(self.requests@, own)) by {
                assert forall|id: Seq<char>| #[trigger] self.requests@.contains_key(id) implies weightless(
                    self.requests@[id],
                    own,
                ) by {
                    assert(all.dom().contains(id));
                    assert(all[id].valid());
                }
            }
        }
        let ghost before = self.models@;
        let ghost purged_state = *self;
        let _ = self.models.remove(generation);
        proof {
            assert forall|other: GenerationId| if #[trigger] self.models@.contains_key(other) {
                counts(self.models@[other], self.requests@, other)
            } else {
                idle(self.requests@, other)
            } by {
                assert(other != own ==> before.contains_key(other) == self.models@.contains_key(other));
            }
            assert forall|other: GenerationId| other != own implies #[trigger] self.throughput(other) == old(
                self,
            ).throughput(other) by {
                assert(purged_state.throughput(other) == old(self).throughput(other));
                assert(throughput_of(self.models@, other) == throughput_of(before, other));
            }
            assert forall|other: GenerationId| #[trigger]
                throughput_of(self.models@, other) is Some implies throughput_of(
                self.models@,
                other,
            )->0.positive_finite() by {
                assert(throughput_of(self.models@, other) == throughput_of(before, other));
            }
        }
    }

    /// The input tokens of the generation's requests last observed in `state`.
    pub fn observed_input_tokens(&self, generation: &ModelGeneration, state: RequestObservationState) -> (tokens:
        u128)
        requires
            self.wf(),
            !state.terminal(),
        ensures
            tokens == observed_tokens(self.requests(), generation@, state),
    {
        match self.models.get(generation) {
            Some(model) => {
                assert(counts(*model, self.requests@, generation@));
                model.observed_tokens(state)
            },
            None => {
                proof {
                    assert(idle(self.requests@, generation@));
                    crate::sums::lemma_total_zero(self.requests@, observed_weight(generation@, state));
                }
                0
            },
        }
    }

    /// Sets the output rate of a queued request, or clears it where the rate
    /// is not finite and positive. The request's model.
    pub fn update_active_output_tps(&mut self, request_id: &String, active_chat_output_tps: Option<Binary64>) -> (
    model_id: Option<String>)
        requires
            old(self).wf(),
        ensures
            final(self).wf(),
            final(self).same_rates(old(self)),
            final(self).requests() == with_output_rate(
                old(self).requests(),
                request_id@,
                active_chat_output_tps,
            ),
            match (model_id, queue_of(old(self).requests(), request_id@)) {
                (Some(model_id), Some(queue)) => model_id@ == queue.generation.model_id,
                (None, None) => true,
                _ => false,
            },
    {
        let request = match self.remove_request(request_id) {
            Some(request) => request,
            None => {
                assert(old(self).requests().remove(request_id@) =~= old(self).requests());
                return None;
            },
        };
        proof {
            assert(request@.valid());
        }
        match request {
            LiveRequest::Queue { mut queue, observed, uncounted } => {
                queue.active_chat_output_tps = match active_chat_output_tps {
                    Some(rate) => if rate.is_positive_finite() {
                        Some(rate)
                    } else {
                        None
                    },
                    None => None,
                };
                let model_id = queue.generation.model_id.clone();
                let live = LiveRequest::Queue { queue, observed, uncounted };
                proof {
                    assert(old(self).requests().remove(request_id@).insert(request_id@, live@)
                        =~= with_output_rate(old(self).requests(), request_id@, active_chat_output_tps));
                }
                self.insert_request(request_id.clone(), live);
                Some(model_id)
            },
            LiveRequest::Observed { last, uncounted } => {
                let live = LiveRequest::Observed { last, uncounted };
                proof {
                    assert(old(self).requests().remove(request_id@).insert(request_id@, live@) =~= old(
                        self,
                    ).requests());
                }
                self.insert_request(request_id.clone(), live);
                None
            },
        }
    }

    /// Moves a queued request forward to a later phase; never back.
    pub fn advance_request_phase(&mut self, request_id: &String, next_phase: TrackedPromptPhase)
        requires
            old(self).wf(),
        ensures
            final(self).wf(),
            final(self).same_rates(old(self)),
            final(self).requests() == advanced(old(self).requests(), request_id@, next_phase),
    {
        let behind = match self.requests.get(request_id) {
            Some(request) => match request.queue() {
                Some(queue) => queue.phase.later(next_phase) != queue.phase,
                None => false,
            },
            None => false,
        };
        if !behind {
            assert(advanced(self.requests(), request_id@, next_phase) =~= self.requests());
            return;
        }
        if let Some(request) = self.remove_request(request_id) {
            proof {
                assert(request@.valid());
            }
            if let LiveRequest::Queue { mut queue, observed, uncounted } = request {
                queue.phase = next_phase;
                let live = LiveRequest::Queue { queue, observed, uncounted };
                proof {
                    assert(old(self).requests().remove(request_id@).insert(request_id@, live@) =~= advanced(
                        old(self).requests(),
                        request_id@,
                        next_phase,
                    ));
                }
                self.insert_request(request_id.clone(), live);
            }
        }
    }
}

/// The requests once one has been given an output rate.
pub open spec fn with_output_rate(requests: Requests, id: Seq<char>, rate: Option<Binary64>) -> Requests {
    match queue_of(requests, id) {
        Some(queue) => requests.insert(
            id,
            LiveView {
                queue: Some(
                    TrackedView {
                        active_chat_output_tps: match rate {
                            Some(rate) => if rate.positive_finite() {
                                Some(rate)
                            } else {
                                None
                            },
                            None => None,
                        },
                        ..queue
                    },
                ),
                ..requests[id]
            },
        ),
        None => requests,
    }
}

/// The requests once one has come at least as far as `next_phase`.
pub open spec fn advanced(requests: Requests, id: Seq<char>, next_phase: TrackedPromptPhase) -> Requests {
    match queue_of(requests, id) {
        Some(queue) => requests.insert(
            id,
            LiveView {
                queue: Some(TrackedView { phase: queue.phase.later_of(next_phase), ..queue }),
                ..requests[id]
            },
        ),
        None => requests,
    }
}

proof fn lemma_push_to_set(items: Seq<Seq<char>>, item: Seq<char>)
    ensures
        items.push(item).to_set() == items.to_set().insert(item),
{
    let left = items.push(item).to_set();
    let right = items.to_set().insert(item);
    assert forall|x: Seq<char>| left.contains(x) == #[trigger] right.contains(x) by {
        if items.to_set().contains(x) {
            let j = choose|j: int| 0 <= j < items.len() && items[j] == x;
            assert(items.push(item)[j] == x);
        }
        if x == item {
            assert(items.push(item)[items.len() as int] == x);
        }
    }
    assert(left =~= right);
}

impl LiveRequestState {
    /// There are finitely many live requests. Each is queued or observed, and an
    /// observation among them is of a request that goes on.
    pub proof fn lemma_requests(&self)
        requires
            self.wf(),
        ensures
            self.requests().dom().finite(),
            all_valid(self.requests()),
    {
    }

    /// An observation among the live requests is of a request that goes on.
    pub proof fn lemma_valid(&self, id: Seq<char>)
        requires
            self.wf(),
            self.requests().contains_key(id),
        ensures
            self.requests()[id].valid(),
    {
    }
}

} // verus!
