//! Admission of requests by comparing the queue time that the caller expects
//! with the one that the live requests make of it.

use http::{HeaderMap, HeaderValue};
use vstd::prelude::*;

use crate::binary64::Binary64;
use crate::generation::{GenerationId, ModelGeneration};
use crate::headers::header_text;
use crate::keyed::SortedSet;
use crate::live_requests::{LiveRequest, LiveRequestState, LiveView, Requests};
use crate::queue_model::{
    ObservedRequestState, ObservedView, TrackedPromptPhase, TrackedPromptRequest, TrackedView,
};
use crate::request_observation::{RequestObservation, RequestObservationState, RequiredTunnelHeaders};
use crate::text::parse_trimmed_decimal;
use crate::tunnel_contract::HEADER_STARGATE_EXPECTED_QUEUE_MS;

verus! {

pub const RETRY_REASON_QUEUE_ESTIMATE_MISMATCH: &'static str = "queue_estimate_mismatch";

/// The encoding of one.
pub const ONE_BITS: u64 = 0x3FF0_0000_0000_0000;

/// The encoding of five quarters.
pub const DEFAULT_TOLERANCE_BITS: u64 = 0x3FF4_0000_0000_0000;

/// How far the local queue may exceed the expected one before a request is
/// sent back to be routed anew.
#[derive(Clone, Copy, Debug)]
pub struct PylonQueueMismatchRetryConfig {
    pub enabled: bool,
    pub min_delta_ms: u64,
    pub tolerance_factor: Binary64,
    pub retry_after_ms: Option<u64>,
}

impl Default for PylonQueueMismatchRetryConfig {
    fn default() -> (config: Self)
        ensures
            config.enabled,
            config.min_delta_ms == 25,
            config.tolerance_factor.bits == DEFAULT_TOLERANCE_BITS,
            config.retry_after_ms is None,
    {
        PylonQueueMismatchRetryConfig {
            enabled: true,
            min_delta_ms: 25,
            tolerance_factor: Binary64 { bits: DEFAULT_TOLERANCE_BITS },
            retry_after_ms: None,
        }
    }
}

impl PylonQueueMismatchRetryConfig {
    /// The factor in use: one where the configured one is no positive number.
    pub open spec fn factor(&self) -> Binary64 {
        if self.tolerance_factor.positive_finite() {
            self.tolerance_factor
        } else {
            Binary64 { bits: ONE_BITS }
        }
    }
}

pub open spec fn saturating_sum(a: u64, b: u64) -> u64 {
    if a + b > u64::MAX {
        u64::MAX
    } else {
        (a + b) as u64
    }
}

/// Whether `threshold` is the larger of the expected time plus the margin and
/// the expected time scaled by the factor.
pub open spec fn is_threshold<G: Fn(u64, Binary64) -> u64>(
    scale_ms: G,
    expected_ms: u64,
    config: PylonQueueMismatchRetryConfig,
    threshold: u64,
) -> bool {
    exists|scaled: u64|
        #[trigger] call_ensures(scale_ms, (expected_ms, config.factor()), scaled) && threshold == (if scaled
            > saturating_sum(expected_ms, config.min_delta_ms) {
            scaled
        } else {
            saturating_sum(expected_ms, config.min_delta_ms)
        })
}

/// The queue time from which on a request is rejected. `scale_ms` multiplies
/// a time by a factor and rounds up, saturating.
pub fn mismatch_threshold_ms<G: Fn(u64, Binary64) -> u64>(
    expected_ms: u64,
    config: &PylonQueueMismatchRetryConfig,
    scale_ms: &G,
) -> (threshold: u64)
    requires
        forall|ms: u64, factor: Binary64| call_requires(*scale_ms, (ms, factor)),
    ensures
        is_threshold(*scale_ms, expected_ms, *config, threshold),
{
    let additive: u64 = expected_ms.saturating_add(config.min_delta_ms);
    let factor = if config.tolerance_factor.is_positive_finite() {
        config.tolerance_factor
    } else {
        Binary64 { bits: ONE_BITS }
    };
    let multiplicative: u64 = scale_ms(expected_ms, factor);
    if multiplicative > additive {
        multiplicative
    } else {
        additive
    }
}

/// What becomes of a request at the queue.
#[derive(Clone, Copy, Debug, PartialEq, Eq, Structural)]
pub enum QueueAdmissionDecision {
    Accepted { expected_ms: u64, actual_ms: u64, threshold_ms: u64 },
    Rejected { expected_ms: u64, actual_ms: u64, threshold_ms: u64, retry_after_ms: Option<u64> },
    MissingEstimate,
    UnknownLocalEstimate { expected_ms: u64 },
    Disabled,
}

impl QueueAdmissionDecision {
    pub fn result_label(&self) -> (label: &'static str)
        ensures
            label@ == (match self {
                QueueAdmissionDecision::Accepted { .. } => "accepted"@,
                QueueAdmissionDecision::Disabled => "disabled"@,
                QueueAdmissionDecision::Rejected { .. } => "rejected"@,
                QueueAdmissionDecision::MissingEstimate => "missing_estimate"@,
                QueueAdmissionDecision::UnknownLocalEstimate { .. } => "unknown_local_estimate"@,
            }),
    {
        match self {
            QueueAdmissionDecision::Accepted { .. } => "accepted",
            QueueAdmissionDecision::Disabled => "disabled",
            QueueAdmissionDecision::Rejected { .. } => "rejected",
            QueueAdmissionDecision::MissingEstimate => "missing_estimate",
            QueueAdmissionDecision::UnknownLocalEstimate { .. } => "unknown_local_estimate",
        }
    }

    pub fn expected_ms(&self) -> (ms: Option<u64>)
        ensures
            ms == (match *self {
                QueueAdmissionDecision::Accepted { expected_ms, .. } => Some(expected_ms),
                QueueAdmissionDecision::Rejected { expected_ms, .. } => Some(expected_ms),
                QueueAdmissionDecision::UnknownLocalEstimate { expected_ms } => Some(expected_ms),
                _ => None,
            }),
    {
        match *self {
            QueueAdmissionDecision::Accepted { expected_ms, .. } => Some(expected_ms),
            QueueAdmissionDecision::Rejected { expected_ms, .. } => Some(expected_ms),
            QueueAdmissionDecision::UnknownLocalEstimate { expected_ms } => Some(expected_ms),
            _ => None,
        }
    }

    pub fn actual_ms(&self) -> (ms: Option<u64>)
        ensures
            ms == (match *self {
                QueueAdmissionDecision::Accepted { actual_ms, .. } => Some(actual_ms),
                QueueAdmissionDecision::Rejected { actual_ms, .. } => Some(actual_ms),
                _ => None,
            }),
    {
        match *self {
            QueueAdmissionDecision::Accepted { actual_ms, .. } => Some(actual_ms),
            QueueAdmissionDecision::Rejected { actual_ms, .. } => Some(actual_ms),
            _ => None,
        }
    }

    pub fn threshold_ms(&self) -> (ms: Option<u64>)
        ensures
            ms == (match *self {
                QueueAdmissionDecision::Accepted { threshold_ms, .. } => Some(threshold_ms),
                QueueAdmissionDecision::Rejected { threshold_ms, .. } => Some(threshold_ms),
                _ => None,
            }),
    {
        match *self {
            QueueAdmissionDecision::Accepted { threshold_ms, .. } => Some(threshold_ms),
            QueueAdmissionDecision::Rejected { threshold_ms, .. } => Some(threshold_ms),
            _ => None,
        }
    }
}

/// The expected queue time that the headers carry.
pub open spec fn expected_queue(contents: crate::headers::HeaderContents) -> Option<nat> {
    match crate::headers::first_text(contents, HEADER_STARGATE_EXPECTED_QUEUE_MS@) {
        Some(text) => crate::text::decimal_at_most(crate::text::trimmed(text), u64::MAX as nat),
        None => None,
    }
}

pub fn expected_queue_ms(headers: &HeaderMap<HeaderValue>) -> (ms: Option<u64>)
    ensures
        match (ms, expected_queue(crate::headers::header_contents(*headers))) {
            (Some(ms), Some(expected)) => ms == expected,
            (None, None) => true,
            _ => false,
        },
{
    proof {
        crate::tunnel_contract::lemma_header_names();
    }
    match header_text(headers, HEADER_STARGATE_EXPECTED_QUEUE_MS) {
        Some(text) => parse_trimmed_decimal(text.as_str(), u64::MAX),
        None => None,
    }
}

/// The decision is the one that the configuration, the expected time and the
/// queue ahead of the request call for.
pub open spec fn decides<F: Fn(u64, Binary64) -> Option<u64>, G: Fn(u64, Binary64) -> u64>(
    decision: QueueAdmissionDecision,
    config: PylonQueueMismatchRetryConfig,
    expected: Option<nat>,
    throughput: Option<Binary64>,
    work_ahead: nat,
    queue_time_delta_ms: F,
    scale_ms: G,
) -> bool {
    if !config.enabled {
        decision is Disabled
    } else {
        match (expected, throughput) {
            (None, _) => decision is MissingEstimate,
            (Some(expected), None) => decision == (QueueAdmissionDecision::UnknownLocalEstimate {
                expected_ms: expected as u64,
            }),
            (Some(expected), Some(rate)) => match decision {
                QueueAdmissionDecision::Accepted { expected_ms, actual_ms, threshold_ms } => {
                    &&& expected_ms == expected
                    &&& crate::queue_model::estimated(queue_time_delta_ms, work_ahead, rate, actual_ms)
                    &&& is_threshold(scale_ms, expected_ms, config, threshold_ms)
                    &&& actual_ms <= threshold_ms
                },
                QueueAdmissionDecision::Rejected { expected_ms, actual_ms, threshold_ms, retry_after_ms } => {
                    &&& expected_ms == expected
                    &&& crate::queue_model::estimated(queue_time_delta_ms, work_ahead, rate, actual_ms)
                    &&& is_threshold(scale_ms, expected_ms, config, threshold_ms)
                    &&& actual_ms > threshold_ms
                    &&& retry_after_ms == config.retry_after_ms
                },
                _ => false,
            },
        }
    }
}

impl LiveRequestState {
    /// Decides on a request: its own work, if it is counted already, does not
    /// stand in its way.
    pub fn evaluate_generation<F: Fn(u64, Binary64) -> Option<u64>, G: Fn(u64, Binary64) -> u64>(
        &self,
        config: &PylonQueueMismatchRetryConfig,
        required: &RequiredTunnelHeaders,
        generation: Option<&ModelGeneration>,
        headers: &HeaderMap<HeaderValue>,
        queue_time_delta_ms: &F,
        scale_ms: &G,
    ) -> (decision: QueueAdmissionDecision)
        requires
            self.wf(),
            forall|tokens: u64, rate: Binary64| call_requires(*queue_time_delta_ms, (tokens, rate)),
            forall|ms: u64, factor: Binary64| call_requires(*scale_ms, (ms, factor)),
        ensures
            decides(
                decision,
                *config,
                expected_queue(crate::headers::header_contents(*headers)),
                match generation {
                    Some(generation) => self.throughput(generation@),
                    None => None,
                },
                match generation {
                    Some(generation) => crate::live_requests::queued_work_through(
                        self.requests().remove(required.request_id@),
                        generation@,
                        required.spec_queue_priority() as int,
                    ),
                    None => 0,
                },
                *queue_time_delta_ms,
                *scale_ms,
            ),
    {
        if !config.enabled {
            return QueueAdmissionDecision::Disabled;
        }
        let expected_ms: u64 = match expected_queue_ms(headers) {
            Some(expected_ms) => expected_ms,
            None => {
                return QueueAdmissionDecision::MissingEstimate;
            },
        };
        let estimate = match generation {
            Some(generation) => self.queue_estimate_ms(
                generation,
                &required.request_id,
                required.queue_priority(),
                queue_time_delta_ms,
            ),
            None => None,
        };
        let actual_ms: u64 = match estimate {
            Some(actual_ms) => actual_ms,
            None => {
                return QueueAdmissionDecision::UnknownLocalEstimate { expected_ms };
            },
        };
        let threshold_ms: u64 = mismatch_threshold_ms(expected_ms, config, scale_ms);
        if actual_ms > threshold_ms {
            QueueAdmissionDecision::Rejected {
                expected_ms,
                actual_ms,
                threshold_ms,
                retry_after_ms: config.retry_after_ms,
            }
        } else {
            QueueAdmissionDecision::Accepted { expected_ms, actual_ms, threshold_ms }
        }
    }
}

/// The phase that an observed state puts a request in.
pub open spec fn phase_of(state: RequestObservationState) -> TrackedPromptPhase {
    match state {
        RequestObservationState::InputProcessing => TrackedPromptPhase::InputProcessing,
        RequestObservationState::OutputGeneration => TrackedPromptPhase::OutputGeneration,
        _ => TrackedPromptPhase::Pending,
    }
}

fn observed_phase(state: RequestObservationState) -> (phase: TrackedPromptPhase)
    ensures
        phase == phase_of(state),
{
    match state {
        RequestObservationState::InputProcessing => TrackedPromptPhase::InputProcessing,
        RequestObservationState::OutputGeneration => TrackedPromptPhase::OutputGeneration,
        _ => TrackedPromptPhase::Pending,
    }
}

/// The generation that an observation is of: the one it names, else the one
/// that the request is queued under, else the one last observed.
pub open spec fn owner(requests: Requests, id: Seq<char>, generation: Option<GenerationId>) -> Option<GenerationId> {
    match (
        generation,
        crate::live_requests::queue_of(requests, id),
        crate::live_requests::observed_of(requests, id),
    ) {
        (Some(generation), _, _) => Some(generation),
        (None, Some(queue), _) => Some(queue.generation),
        (None, None, Some(observed)) => Some(observed.generation),
        (None, None, None) => None,
    }
}

/// What is observed of the request afterwards: nothing once it has ended or
/// where it belongs to no generation.
pub open spec fn current_view(
    requests: Requests,
    observation: RequestObservation,
    generation: Option<GenerationId>,
) -> Option<ObservedView> {
    match owner(requests, observation.request_id@, generation) {
        Some(owner) => if observation.state.terminal() {
            None
        } else {
            Some(
                ObservedView {
                    generation: owner,
                    state: observation.state,
                    input_tokens: observation.input_tokens,
                },
            )
        },
        None => None,
    }
}

/// How the request is queued afterwards: never behind the phase that it had,
/// and with its output rate as long as it generates output.
pub open spec fn requeued(
    requests: Requests,
    observation: RequestObservation,
    owner: GenerationId,
) -> TrackedView {
    let prior = crate::live_requests::queue_of(requests, observation.request_id@);
    let phase = match prior {
        Some(prior) => phase_of(observation.state).later_of(prior.phase),
        None => phase_of(observation.state),
    };
    TrackedView {
        generation: owner,
        priority: observation.priority,
        input_tokens: observation.input_tokens,
        phase,
        active_chat_output_tps: match prior {
            Some(prior) => if phase is OutputGeneration {
                prior.active_chat_output_tps
            } else {
                None
            },
            None => None,
        },
    }
}

/// The live requests after an observation.
pub open spec fn observed_requests(
    requests: Requests,
    observation: RequestObservation,
    generation: Option<GenerationId>,
) -> Requests {
    match current_view(requests, observation, generation) {
        Some(current) => requests.insert(
            observation.request_id@,
            LiveView {
                queue: Some(requeued(requests, observation, current.generation)),
                observed: Some(current),
                uncounted: false,
            },
        ),
        None => requests.remove(observation.request_id@),
    }
}

/// The generations whose load an observation may have changed.
pub open spec fn touched(
    requests: Requests,
    id: Seq<char>,
    generation: Option<GenerationId>,
) -> Set<GenerationId> {
    Set::new(
        |g: GenerationId|
            {
                ||| owner(requests, id, generation) == Some(g)
                ||| crate::live_requests::queue_of(requests, id) matches Some(queue) && queue.generation == g
                ||| crate::live_requests::observed_of(requests, id) matches Some(observed) && observed.generation
                    == g
            },
    )
}

/// The input tokens of a generation's requests that are in one state.
#[derive(Debug)]
pub struct ObservedInputTokenTotal {
    pub generation: ModelGeneration,
    pub state: RequestObservationState,
    pub input_tokens: u128,
}

impl ObservedInputTokenTotal {
    /// The total is that of the live requests.
    pub open spec fn totals(&self, requests: Requests, observed: ObservedView) -> bool {
        &&& self.generation@ == observed.generation
        &&& self.state == observed.state
        &&& self.input_tokens == crate::live_requests::observed_tokens(
            requests,
            observed.generation,
            observed.state,
        )
    }
}

/// What one observation changed.
#[derive(Debug)]
pub struct RequestObservationTransition {
    pub changed_generations: Vec<ModelGeneration>,
    pub prior: Option<ObservedRequestState>,
    pub current: Option<ObservedRequestState>,
    pub input_token_totals: Vec<ObservedInputTokenTotal>,
}

/// The totals of the states before and after, each named once.
pub open spec fn token_totals(
    totals: Seq<ObservedInputTokenTotal>,
    requests: Requests,
    prior: Option<ObservedView>,
    current: Option<ObservedView>,
) -> bool {
    match (prior, current) {
        (None, None) => totals.len() == 0,
        (Some(prior), None) => totals.len() == 1 && totals[0].totals(requests, prior),
        (None, Some(current)) => totals.len() == 1 && totals[0].totals(requests, current),
        (Some(prior), Some(current)) => if prior.generation == current.generation && prior.state == current.state {
            totals.len() == 1 && totals[0].totals(requests, prior)
        } else {
            totals.len() == 2 && totals[0].totals(requests, prior) && totals[1].totals(requests, current)
        },
    }
}

fn copy_generation(generation: Option<&ModelGeneration>) -> (copy: Option<ModelGeneration>)
    ensures
        match (generation, copy) {
            (Some(generation), Some(copy)) => copy@ == generation@,
            (None, None) => true,
            _ => false,
        },
{
    match generation {
        Some(generation) => Some(generation.clone()),
        None => None,
    }
}

pub open spec fn generation_view(generation: Option<&ModelGeneration>) -> Option<GenerationId> {
    match generation {
        Some(generation) => Some(generation@),
        None => None,
    }
}

impl LiveRequestState {
    fn input_token_totals(&self, prior: &Option<ObservedRequestState>, current: &Option<ObservedRequestState>) -> (
    totals: Vec<ObservedInputTokenTotal>)
        requires
            self.wf(),
            prior matches Some(prior) ==> !prior.state.terminal(),
            current matches Some(current) ==> !current.state.terminal(),
        ensures
            token_totals(
                totals@,
                self.requests(),
                crate::live_requests::observed_view(*prior),
                crate::live_requests::observed_view(*current),
            ),
    {
        let mut totals: Vec<ObservedInputTokenTotal> = Vec::new();
        if let Some(prior) = prior {
            let input_tokens: u128 = self.observed_input_tokens(&prior.generation, prior.state);
            totals.push(
                ObservedInputTokenTotal { generation: prior.generation.clone(), state: prior.state, input_tokens },
            );
        }
        if let Some(current) = current {
            let known = match prior {
                Some(prior) => prior.state == current.state && prior.generation.same(&current.generation),
                None => false,
            };
            if !known {
                let input_tokens: u128 = self.observed_input_tokens(&current.generation, current.state);
                totals.push(
                    ObservedInputTokenTotal {
                        generation: current.generation.clone(),
                        state: current.state,
                        input_tokens,
                    },
                );
            }
        }
        totals
    }

    /// Takes in one observation of a request.
    pub fn transition_observation(&mut self, observation: &RequestObservation, generation: Option<&ModelGeneration>) -> (
    transition: RequestObservationTransition)
        requires
            old(self).wf(),
        ensures
            final(self).wf(),
            final(self).same_rates(old(self)),
            final(self).requests() == observed_requests(
                old(self).requests(),
                *observation,
                generation_view(generation),
            ),
            crate::live_requests::observed_view(transition.prior) == crate::live_requests::observed_of(
                old(self).requests(),
                observation.request_id@,
            ),
            crate::live_requests::observed_view(transition.current) == current_view(
                old(self).requests(),
                *observation,
                generation_view(generation),
            ),
            crate::keyed::lists::<ModelGeneration>(
                crate::keyed::views(transition.changed_generations@),
                touched(old(self).requests(), observation.request_id@, generation_view(generation)),
            ),
            token_totals(
                transition.input_token_totals@,
                final(self).requests(),
                crate::live_requests::observed_view(transition.prior),
                crate::live_requests::observed_view(transition.current),
            ),
    {
        let ghost all = self.requests();
        let ghost id = observation.request_id@;
        let ghost named = generation_view(generation);
        let mut prior_queue: Option<TrackedPromptRequest> = None;
        let mut prior_observed: Option<ObservedRequestState> = None;
        match self.remove_request(&observation.request_id) {
            Some(LiveRequest::Queue { queue, observed, .. }) => {
                prior_queue = Some(queue);
                prior_observed = observed;
            },
            Some(LiveRequest::Observed { last, .. }) => {
                prior_observed = Some(last);
            },
            None => {},
        }
        let mut changed: SortedSet<ModelGeneration> = SortedSet::new();
        let mut owner: Option<ModelGeneration> = copy_generation(generation);
        if let Some(queue) = &prior_queue {
            let _ = changed.insert(queue.generation.clone());
            if owner.is_none() {
                owner = Some(queue.generation.clone());
            }
        }
        if let Some(observed) = &prior_observed {
            let _ = changed.insert(observed.generation.clone());
            if owner.is_none() {
                owner = Some(observed.generation.clone());
            }
        }
        if let Some(owner) = &owner {
            let _ = changed.insert(owner.clone());
        }
        proof {
            assert(changed@ =~= touched(all, id, named));
        }
        let changed_generations = changed.to_vec();
        let mut current: Option<ObservedRequestState> = None;
        if let Some(owner) = owner {
            if !observation.is_terminal() {
                let mut phase = observed_phase(observation.state);
                let mut active_chat_output_tps: Option<Binary64> = None;
                if let Some(prior) = &prior_queue {
                    phase = phase.later(prior.phase);
                    if phase == TrackedPromptPhase::OutputGeneration {
                        active_chat_output_tps = prior.active_chat_output_tps;
                    }
                }
                let observed = ObservedRequestState {
                    generation: owner.clone(),
                    state: observation.state,
                    input_tokens: observation.input_tokens,
                };
                let live = LiveRequest::Queue {
                    queue: TrackedPromptRequest {
                        generation: owner,
                        priority: observation.priority,
                        input_tokens: observation.input_tokens,
                        phase,
                        active_chat_output_tps,
                    },
                    observed: Some(observed.clone()),
                    uncounted: false,
                };
                proof {
                    assert(all.remove(id).insert(id, live@) =~= all.insert(id, live@));
                }
                self.insert_request(observation.request_id.clone(), live);
                current = Some(observed);
            }
        }
        proof {
            if all.contains_key(id) {
                old(self).lemma_valid(id);
            }
        }
        let input_token_totals = self.input_token_totals(&prior_observed, &current);
        RequestObservationTransition { changed_generations, prior: prior_observed, current, input_token_totals }
    }

    /// Queues a request under a generation, and gives the handle by which its
    /// queue side is moved on and ended.
    pub fn track_generation_request(&mut self, required: &RequiredTunnelHeaders, generation: ModelGeneration) -> (
    guard: QueueTrackedRequestGuard)
        requires
            old(self).wf(),
        ensures
            final(self).wf(),
            final(self).same_rates(old(self)),
            final(self).requests() == tracked_requests(old(self).requests(), *required, generation@),
            guard.request_id() == required.request_id@,
            !guard.finished(),
    {
        self.queue_request(
            &required.request_id,
            TrackedPromptRequest {
                generation,
                priority: required.queue_priority(),
                input_tokens: required.input_tokens,
                phase: TrackedPromptPhase::Pending,
                active_chat_output_tps: None,
            },
        );
        QueueTrackedRequestGuard { request_id: required.request_id.clone(), finished: false }
    }
}

/// The live requests once a request is queued.
pub open spec fn tracked_requests(
    requests: Requests,
    required: RequiredTunnelHeaders,
    generation: GenerationId,
) -> Requests {
    requests.insert(
        required.request_id@,
        LiveView {
            queue: Some(
                TrackedView {
                    generation,
                    priority: required.spec_queue_priority(),
                    input_tokens: required.input_tokens,
                    phase: TrackedPromptPhase::Pending,
                    active_chat_output_tps: None,
                },
            ),
            observed: crate::live_requests::observed_of(requests, required.request_id@),
            uncounted: crate::live_requests::uncounted_of(requests, required.request_id@),
        },
    )
}

/// The handle of a queued request. Whoever holds it ends the request's queue
/// side once.
#[derive(Debug)]
pub struct QueueTrackedRequestGuard {
    request_id: String,
    finished: bool,
}

impl QueueTrackedRequestGuard {
    pub closed spec fn request_id(&self) -> Seq<char> {
        self.request_id@
    }

    pub closed spec fn finished(&self) -> bool {
        self.finished
    }

    /// The request has been sent upstream.
    pub fn on_upstream_send(&mut self, live_requests: &mut LiveRequestState)
        requires
            old(live_requests).wf(),
        ensures
            *final(self) == *old(self),
            final(live_requests).wf(),
            final(live_requests).same_rates(old(live_requests)),
            final(live_requests).requests() == crate::live_requests::advanced(
                old(live_requests).requests(),
                old(self).request_id(),
                TrackedPromptPhase::InputProcessing,
            ),
    {
        live_requests.advance_request_phase(&self.request_id, TrackedPromptPhase::InputProcessing);
    }

    /// Output of the request has been seen.
    pub fn observe_output(&mut self, live_requests: &mut LiveRequestState)
        requires
            old(live_requests).wf(),
        ensures
            *final(self) == *old(self),
            final(live_requests).wf(),
            final(live_requests).same_rates(old(live_requests)),
            final(live_requests).requests() == crate::live_requests::advanced(
                old(live_requests).requests(),
                old(self).request_id(),
                TrackedPromptPhase::OutputGeneration,
            ),
    {
        live_requests.advance_request_phase(&self.request_id, TrackedPromptPhase::OutputGeneration);
    }

    /// Ends the queue side of the request, the first time it is called.
    pub fn finish(&mut self, live_requests: &mut LiveRequestState)
        requires
            old(live_requests).wf(),
        ensures
            final(self).request_id() == old(self).request_id(),
            final(self).finished(),
            final(live_requests).wf(),
            final(live_requests).same_rates(old(live_requests)),
            final(live_requests).requests() == (if old(self).finished() {
                old(live_requests).requests()
            } else {
                crate::live_requests::without_queue(old(live_requests).requests(), old(self).request_id())
            }),
    {
        if !self.finished {
            live_requests.finish_queue_request(&self.request_id);
            self.finished = true;
        }
    }
}

} // verus!
