//! The queue load of one model generation, kept as running totals over the
//! live requests.

use vstd::multiset::Multiset;
use vstd::prelude::*;

use crate::binary64::Binary64;
use crate::generation::{GenerationId, ModelGeneration};
use crate::keyed::SortedMap;
use crate::request_observation::RequestObservationState;

verus! {

/// What a queued request waits for. A request only ever moves forward.
#[derive(Clone, Copy, Debug, PartialEq, Eq, Structural)]
pub enum TrackedPromptPhase {
    Pending,
    InputProcessing,
    OutputGeneration,
}

impl TrackedPromptPhase {
    /// The position of the phase in a request's course.
    pub open spec fn step(self) -> int {
        match self {
            TrackedPromptPhase::Pending => 0,
            TrackedPromptPhase::InputProcessing => 1,
            TrackedPromptPhase::OutputGeneration => 2,
        }
    }

    fn step_number(self) -> (step: u8)
        ensures
            step == self.step(),
    {
        match self {
            TrackedPromptPhase::Pending => 0,
            TrackedPromptPhase::InputProcessing => 1,
            TrackedPromptPhase::OutputGeneration => 2,
        }
    }

    pub open spec fn later_of(self, other: TrackedPromptPhase) -> TrackedPromptPhase {
        if self.step() < other.step() {
            other
        } else {
            self
        }
    }

    /// The later of two phases.
    pub fn later(self, other: TrackedPromptPhase) -> (later: TrackedPromptPhase)
        ensures
            later == self.later_of(other),
    {
        if self.step_number() < other.step_number() {
            other
        } else {
            self
        }
    }

    pub open spec fn work(self, priority: u32, input_tokens: u64) -> Option<(u32, u64)> {
        if input_tokens == 0 || self is OutputGeneration {
            None
        } else if self is Pending {
            Some((priority, input_tokens))
        } else {
            Some((0, input_tokens))
        }
    }

    /// The prompt work still to be done, with the priority under which it is
    /// queued: a prompt that is being processed is ahead of every other.
    pub fn prompt_work(self, priority: u32, input_tokens: u64) -> (work: Option<(u32, u64)>)
        ensures
            work == self.work(priority, input_tokens),
    {
        if input_tokens == 0 {
            return None;
        }
        match self {
            TrackedPromptPhase::Pending => Some((priority, input_tokens)),
            TrackedPromptPhase::InputProcessing => Some((0, input_tokens)),
            TrackedPromptPhase::OutputGeneration => None,
        }
    }
}

/// A request in the queue of a model generation.
#[derive(Debug)]
pub struct TrackedPromptRequest {
    pub generation: ModelGeneration,
    pub priority: u32,
    pub input_tokens: u64,
    pub phase: TrackedPromptPhase,
    pub active_chat_output_tps: Option<Binary64>,
}

#[verifier::ext_equal]
pub struct TrackedView {
    pub generation: GenerationId,
    pub priority: u32,
    pub input_tokens: u64,
    pub phase: TrackedPromptPhase,
    pub active_chat_output_tps: Option<Binary64>,
}

impl View for TrackedPromptRequest {
    type V = TrackedView;

    open spec fn view(&self) -> TrackedView {
        TrackedView {
            generation: self.generation@,
            priority: self.priority,
            input_tokens: self.input_tokens,
            phase: self.phase,
            active_chat_output_tps: self.active_chat_output_tps,
        }
    }
}

impl TrackedView {
    pub open spec fn work(self) -> Option<(u32, u64)> {
        self.phase.work(self.priority, self.input_tokens)
    }

    pub open spec fn work_at(self, priority: u32) -> nat {
        match self.work() {
            Some((at, tokens)) => if at == priority {
                tokens as nat
            } else {
                0
            },
            None => 0,
        }
    }
}

/// The last observation of a request that has not ended.
#[derive(Debug)]
pub struct ObservedRequestState {
    pub generation: ModelGeneration,
    pub state: RequestObservationState,
    pub input_tokens: u64,
}

#[verifier::ext_equal]
pub struct ObservedView {
    pub generation: GenerationId,
    pub state: RequestObservationState,
    pub input_tokens: u64,
}

impl View for ObservedRequestState {
    type V = ObservedView;

    open spec fn view(&self) -> ObservedView {
        ObservedView { generation: self.generation@, state: self.state, input_tokens: self.input_tokens }
    }
}

impl Clone for ObservedRequestState {
    fn clone(&self) -> (copy: Self)
        ensures
            copy == *self,
    {
        ObservedRequestState {
            generation: self.generation.clone(),
            state: self.state,
            input_tokens: self.input_tokens,
        }
    }
}

/// The running totals of one model generation.
#[derive(Debug)]
pub struct QueueModelState {
    pub last_mean_input_tps: Option<Binary64>,
    pub pending: usize,
    pub input_processing: usize,
    pub output_generation: usize,
    pub total_input_tokens: u128,
    pub observed_accepted: u128,
    pub observed_connecting: u128,
    pub observed_processing: u128,
    pub observed_generating: u128,
    pub active_chat_output_tps: Vec<Binary64>,
    pub prompt_work_by_priority: SortedMap<u32, u128>,
}

impl View for QueueModelState {
    type V = QueueModelState;

    open spec fn view(&self) -> QueueModelState {
        *self
    }
}

pub open spec fn entry_or_zero(work: Map<u32, u128>, priority: u32) -> nat {
    if work.contains_key(priority) {
        work[priority] as nat
    } else {
        0
    }
}

impl QueueModelState {
    pub open spec fn phase_count(&self, phase: TrackedPromptPhase) -> nat {
        match phase {
            TrackedPromptPhase::Pending => self.pending as nat,
            TrackedPromptPhase::InputProcessing => self.input_processing as nat,
            TrackedPromptPhase::OutputGeneration => self.output_generation as nat,
        }
    }

    pub open spec fn observed(&self, state: RequestObservationState) -> nat {
        match state {
            RequestObservationState::Accepted => self.observed_accepted as nat,
            RequestObservationState::UpstreamConnecting => self.observed_connecting as nat,
            RequestObservationState::InputProcessing => self.observed_processing as nat,
            RequestObservationState::OutputGeneration => self.observed_generating as nat,
            _ => 0,
        }
    }

    pub open spec fn rates(&self) -> Multiset<Binary64> {
        self.active_chat_output_tps@.to_multiset()
    }

    pub open spec fn work_at(&self, priority: u32) -> nat {
        entry_or_zero(self.prompt_work_by_priority@, priority)
    }

    /// No empty entry is kept.
    pub open spec fn wf(&self) -> bool {
        forall|priority: u32|
            self.prompt_work_by_priority@.contains_key(priority) ==> #[trigger] self.prompt_work_by_priority@[priority]
                > 0
    }

    pub fn new() -> (model: Self)
        ensures
            model.wf(),
            model.last_mean_input_tps is None,
            model.total_input_tokens == 0,
            forall|phase: TrackedPromptPhase| model.phase_count(phase) == 0,
            forall|state: RequestObservationState| model.observed(state) == 0,
            model.rates() == Multiset::<Binary64>::empty(),
            forall|priority: u32| model.work_at(priority) == 0,
    {
        let model = QueueModelState {
            last_mean_input_tps: None,
            pending: 0,
            input_processing: 0,
            output_generation: 0,
            total_input_tokens: 0,
            observed_accepted: 0,
            observed_connecting: 0,
            observed_processing: 0,
            observed_generating: 0,
            active_chat_output_tps: Vec::new(),
            prompt_work_by_priority: SortedMap::new(),
        };
        proof {
            model.active_chat_output_tps@.to_multiset_ensures();
            assert(model.rates() =~= Multiset::<Binary64>::empty()) by {
                assert(model.rates().len() == 0);
            }
        }
        model
    }

    /// Nothing but the queue totals differs.
    pub open spec fn same_observations(&self, other: &QueueModelState) -> bool {
        &&& self.last_mean_input_tps == other.last_mean_input_tps
        &&& self.observed_accepted == other.observed_accepted
        &&& self.observed_connecting == other.observed_connecting
        &&& self.observed_processing == other.observed_processing
        &&& self.observed_generating == other.observed_generating
    }

    /// Nothing but the observed totals differs.
    pub open spec fn same_queue(&self, other: &QueueModelState) -> bool {
        &&& self.last_mean_input_tps == other.last_mean_input_tps
        &&& self.pending == other.pending
        &&& self.input_processing == other.input_processing
        &&& self.output_generation == other.output_generation
        &&& self.total_input_tokens == other.total_input_tokens
        &&& self.active_chat_output_tps == other.active_chat_output_tps
        &&& self.prompt_work_by_priority == other.prompt_work_by_priority
    }

    pub fn observed_tokens(&self, state: RequestObservationState) -> (tokens: u128)
        ensures
            tokens == self.observed(state),
    {
        match state {
            RequestObservationState::Accepted => self.observed_accepted,
            RequestObservationState::UpstreamConnecting => self.observed_connecting,
            RequestObservationState::InputProcessing => self.observed_processing,
            RequestObservationState::OutputGeneration => self.observed_generating,
            _ => 0,
        }
    }

    fn set_observed(&mut self, state: RequestObservationState, tokens: u128)
        requires
            !state.terminal(),
        ensures
            final(self).same_queue(old(self)),
            final(self).observed(state) == tokens,
            forall|other: RequestObservationState|
                other != state ==> final(self).observed(other) == old(self).observed(other),
    {
        match state {
            RequestObservationState::Accepted => {
                self.observed_accepted = tokens;
            },
            RequestObservationState::UpstreamConnecting => {
                self.observed_connecting = tokens;
            },
            RequestObservationState::InputProcessing => {
                self.observed_processing = tokens;
            },
            RequestObservationState::OutputGeneration => {
                self.observed_generating = tokens;
            },
            _ => {},
        }
    }

    /// Counts an observed request.
    pub fn add_observed(&mut self, request: &ObservedRequestState)
        requires
            !request.state.terminal(),
            old(self).observed(request.state) + request.input_tokens <= u128::MAX,
        ensures
            final(self).same_queue(old(self)),
            final(self).observed(request.state) == old(self).observed(request.state) + request.input_tokens,
            forall|other: RequestObservationState|
                other != request.state ==> final(self).observed(other) == old(self).observed(other),
    {
        let tokens: u128 = self.observed_tokens(request.state) + request.input_tokens as u128;
        self.set_observed(request.state, tokens);
    }

    /// Takes an observed request out of the count again.
    pub fn remove_observed(&mut self, request: &ObservedRequestState)
        requires
            !request.state.terminal(),
            old(self).observed(request.state) >= request.input_tokens,
        ensures
            final(self).same_queue(old(self)),
            final(self).observed(request.state) == old(self).observed(request.state) - request.input_tokens,
            forall|other: RequestObservationState|
                other != request.state ==> final(self).observed(other) == old(self).observed(other),
    {
        let tokens: u128 = self.observed_tokens(request.state) - request.input_tokens as u128;
        self.set_observed(request.state, tokens);
    }

    fn set_work(&mut self, priority: u32, tokens: u128)
        requires
            old(self).wf(),
        ensures
            final(self).wf(),
            final(self).same_observations(old(self)),
            final(self).pending == old(self).pending,
            final(self).input_processing == old(self).input_processing,
            final(self).output_generation == old(self).output_generation,
            final(self).total_input_tokens == old(self).total_input_tokens,
            final(self).active_chat_output_tps == old(self).active_chat_output_tps,
            final(self).work_at(priority) == tokens,
            forall|other: u32| other != priority ==> #[trigger] final(self).work_at(other) == old(self).work_at(other),
    {
        if tokens == 0 {
            let _ = self.prompt_work_by_priority.remove(&priority);
        } else {
            self.prompt_work_by_priority.insert(priority, tokens);
        }
    }

    fn work_entry(&self, priority: u32) -> (tokens: u128)
        ensures
            tokens == self.work_at(priority),
    {
        match self.prompt_work_by_priority.get(&priority) {
            Some(tokens) => *tokens,
            None => 0,
        }
    }

    /// Counts a queued request.
    pub fn add_request(&mut self, request: &TrackedPromptRequest)
        requires
            old(self).wf(),
            old(self).phase_count(request.phase) < usize::MAX,
            old(self).total_input_tokens + request.input_tokens <= u128::MAX,
            forall|priority: u32| #![auto] old(self).work_at(priority) + request@.work_at(priority) <= u128::MAX,
        ensures
            final(self).wf(),
            final(self).same_observations(old(self)),
            final(self).phase_count(request.phase) == old(self).phase_count(request.phase) + 1,
            forall|other: TrackedPromptPhase|
                other != request.phase ==> final(self).phase_count(other) == old(self).phase_count(other),
            final(self).total_input_tokens == old(self).total_input_tokens + request.input_tokens,
            final(self).rates() == (match request.active_chat_output_tps {
                Some(rate) => old(self).rates().insert(rate),
                None => old(self).rates(),
            }),
            forall|priority: u32| #[trigger]
                final(self).work_at(priority) == old(self).work_at(priority) + request@.work_at(priority),
    {
        if let Some(rate) = request.active_chat_output_tps {
            broadcast use vstd::seq_lib::group_to_multiset_ensures;

            self.active_chat_output_tps.push(rate);
        }
        self.total_input_tokens = self.total_input_tokens + request.input_tokens as u128;
        match request.phase {
            TrackedPromptPhase::Pending => {
                self.pending = self.pending + 1;
            },
            TrackedPromptPhase::InputProcessing => {
                self.input_processing = self.input_processing + 1;
            },
            TrackedPromptPhase::OutputGeneration => {
                self.output_generation = self.output_generation + 1;
            },
        }
        if let Some((priority, tokens)) = request.phase.prompt_work(request.priority, request.input_tokens) {
            assert(request@.work_at(priority) == tokens);
            let work: u128 = self.work_entry(priority) + tokens as u128;
            self.set_work(priority, work);
        }
    }

    fn forget_rate(&mut self, rate: Binary64)
        requires
            old(self).rates().count(rate) > 0,
        ensures
            final(self).same_observations(old(self)),
            final(self).pending == old(self).pending,
            final(self).input_processing == old(self).input_processing,
            final(self).output_generation == old(self).output_generation,
            final(self).total_input_tokens == old(self).total_input_tokens,
            final(self).prompt_work_by_priority == old(self).prompt_work_by_priority,
            final(self).rates() == old(self).rates().remove(rate),
    {
        broadcast use vstd::seq_lib::group_to_multiset_ensures;

        let ghost rates = self.active_chat_output_tps@;
        proof {
            assert(rates.contains(rate));
        }
        let mut i: usize = 0;
        while self.active_chat_output_tps[i] != rate
            invariant
                rates == self.active_chat_output_tps@,
                self == old(self),
                i < self.active_chat_output_tps.len(),
                rates.contains(rate),
                forall|j: int| 0 <= j < i ==> rates[j] != rate,
            decreases rates.len() - i,
        {
            i += 1;
        }
        let _ = self.active_chat_output_tps.remove(i);
    }

    /// Takes a queued request out of the count again.
    pub fn remove_request(&mut self, request: &TrackedPromptRequest)
        requires
            old(self).wf(),
            old(self).phase_count(request.phase) > 0,
            old(self).total_input_tokens >= request.input_tokens,
            forall|priority: u32| #![auto] old(self).work_at(priority) >= request@.work_at(priority),
            request.active_chat_output_tps matches Some(rate) ==> old(self).rates().count(rate) > 0,
        ensures
            final(self).wf(),
            final(self).same_observations(old(self)),
            final(self).phase_count(request.phase) == old(self).phase_count(request.phase) - 1,
            forall|other: TrackedPromptPhase|
                other != request.phase ==> final(self).phase_count(other) == old(self).phase_count(other),
            final(self).total_input_tokens == old(self).total_input_tokens - request.input_tokens,
            final(self).rates() == (match request.active_chat_output_tps {
                Some(rate) => old(self).rates().remove(rate),
                None => old(self).rates(),
            }),
            forall|priority: u32| #[trigger]
                final(self).work_at(priority) == old(self).work_at(priority) - request@.work_at(priority),
    {
        if let Some(rate) = request.active_chat_output_tps {
            self.forget_rate(rate);
        }
        self.total_input_tokens = self.total_input_tokens - request.input_tokens as u128;
        match request.phase {
            TrackedPromptPhase::Pending => {
                self.pending = self.pending - 1;
            },
            TrackedPromptPhase::InputProcessing => {
                self.input_processing = self.input_processing - 1;
            },
            TrackedPromptPhase::OutputGeneration => {
                self.output_generation = self.output_generation - 1;
            },
        }
        if let Some((priority, tokens)) = request.phase.prompt_work(request.priority, request.input_tokens) {
            assert(request@.work_at(priority) == tokens);
            let work: u128 = self.work_entry(priority) - tokens as u128;
            self.set_work(priority, work);
        }
    }

    /// No request is in a phase or observed with tokens, and no input rate is
    /// known.
    pub open spec fn unused(&self) -> bool {
        &&& forall|phase: TrackedPromptPhase| self.phase_count(phase) == 0
        &&& forall|state: RequestObservationState| self.observed(state) == 0
        &&& self.last_mean_input_tps is None
    }

    /// Whether the totals say nothing that a missing entry would not say.
    pub fn is_unused(&self) -> (unused: bool)
        ensures
            unused == self.unused(),
    {
        proof {
            let pending = TrackedPromptPhase::Pending;
            let processing = TrackedPromptPhase::InputProcessing;
            let generating = TrackedPromptPhase::OutputGeneration;
            assert(self.phase_count(pending) == self.pending);
            assert(self.phase_count(processing) == self.input_processing);
            assert(self.phase_count(generating) == self.output_generation);
            assert(self.observed(RequestObservationState::Accepted) == self.observed_accepted);
            assert(self.observed(RequestObservationState::UpstreamConnecting) == self.observed_connecting);
            assert(self.observed(RequestObservationState::InputProcessing) == self.observed_processing);
            assert(self.observed(RequestObservationState::OutputGeneration) == self.observed_generating);
        }
        self.pending == 0 && self.input_processing == 0 && self.output_generation == 0 && self.observed_accepted == 0
            && self.observed_connecting == 0 && self.observed_processing == 0 && self.observed_generating == 0
            && self.last_mean_input_tps.is_none()
    }
}

/// The prompt work queued under the priorities up to and including `last`.
pub open spec fn work_through(work: Map<u32, u128>, last: int) -> nat
    decreases last + 1,
{
    if last < 0 {
        0
    } else {
        work_through(work, last - 1) + entry_or_zero(work, last as u32)
    }
}

/// Priorities without an entry add nothing.
proof fn lemma_work_gap(work: Map<u32, u128>, from: int, to: int)
    requires
        -1 <= from <= to <= u32::MAX,
        forall|priority: u32| from < priority <= to ==> !#[trigger] work.contains_key(priority),
    ensures
        work_through(work, to) == work_through(work, from),
    decreases to - from,
{
    if from < to {
        lemma_work_gap(work, from, to - 1);
        assert(!work.contains_key(to as u32));
    }
}

proof fn lemma_work_monotonic(work: Map<u32, u128>, from: int, to: int)
    requires
        from <= to,
    ensures
        work_through(work, from) <= work_through(work, to),
    decreases to - from,
{
    if from < to {
        lemma_work_monotonic(work, from, to - 1);
    }
}

/// Whether `ms` is the queue time that the rate function gives for the tokens,
/// saturated where there is none or the tokens exceed what it can take.
pub open spec fn estimated<F: Fn(u64, Binary64) -> Option<u64>>(
    queue_time_delta_ms: F,
    tokens: nat,
    rate: Binary64,
    ms: u64,
) -> bool {
    if tokens > u64::MAX {
        ms == u64::MAX
    } else {
        exists|delta: Option<u64>|
            #[trigger] call_ensures(queue_time_delta_ms, (tokens as u64, rate), delta) && ms == (match delta {
                Some(delta) => delta,
                None => u64::MAX,
            })
    }
}

pub fn saturated_queue_time_ms<F: Fn(u64, Binary64) -> Option<u64>>(
    input_tokens: u128,
    rate: Binary64,
    queue_time_delta_ms: &F,
) -> (ms: u64)
    requires
        forall|tokens: u64, rate: Binary64| call_requires(*queue_time_delta_ms, (tokens, rate)),
    ensures
        estimated(*queue_time_delta_ms, input_tokens as nat, rate, ms),
{
    if input_tokens > u64::MAX as u128 {
        return u64::MAX;
    }
    match queue_time_delta_ms(input_tokens as u64, rate) {
        Some(ms) => ms,
        None => u64::MAX,
    }
}

pub open spec fn saturated(value: nat) -> u64 {
    if value > u64::MAX {
        u64::MAX
    } else {
        value as u64
    }
}

fn saturated_u64(value: u128) -> (result: u64)
    ensures
        result == saturated(value as nat),
{
    if value > u64::MAX as u128 {
        u64::MAX
    } else {
        value as u64
    }
}

/// What is published of a model generation's queue. The output rates of the
/// active chat requests are listed one by one.
#[derive(Debug)]
pub struct QueueModelSnapshot {
    pub active_chat_output_tps: Vec<Binary64>,
    pub queue_size: u64,
    pub queued_input_size: u64,
    pub num_running_queries: u64,
    pub total_query_input_size: u64,
    pub input_processing_queries: u64,
    pub output_generation_queries: u64,
    pub queue_time_estimate_ms_by_priority: Option<SortedMap<u32, u64>>,
}

impl QueueModelSnapshot {
    /// Nothing queued and nothing known.
    pub open spec fn is_empty(&self) -> bool {
        &&& self.active_chat_output_tps@.len() == 0
        &&& self.queue_size == 0
        &&& self.queued_input_size == 0
        &&& self.num_running_queries == 0
        &&& self.total_query_input_size == 0
        &&& self.input_processing_queries == 0
        &&& self.output_generation_queries == 0
        &&& self.queue_time_estimate_ms_by_priority is None
    }
}

impl Default for QueueModelSnapshot {
    fn default() -> (snapshot: Self)
        ensures
            snapshot.is_empty(),
    {
        QueueModelSnapshot {
            active_chat_output_tps: Vec::new(),
            queue_size: 0,
            queued_input_size: 0,
            num_running_queries: 0,
            total_query_input_size: 0,
            input_processing_queries: 0,
            output_generation_queries: 0,
            queue_time_estimate_ms_by_priority: None,
        }
    }
}

fn copy_rates(rates: &Vec<Binary64>) -> (copy: Vec<Binary64>)
    ensures
        copy@ == rates@,
{
    let mut copy: Vec<Binary64> = Vec::new();
    let mut i: usize = 0;
    while i < rates.len()
        invariant
            i <= rates.len(),
            copy@ == rates@.take(i as int),
        decreases rates.len() - i,
    {
        copy.push(rates[i]);
        i += 1;
    }
    copy
}

impl QueueModelState {
    /// The snapshot that the totals give.
    pub fn snapshot<F: Fn(u64, Binary64) -> Option<u64>>(&self, queue_time_delta_ms: &F) -> (snapshot:
        QueueModelSnapshot)
        requires
            self.wf(),
            self.pending + self.input_processing + self.output_generation <= usize::MAX,
            work_through(self.prompt_work_by_priority@, u32::MAX as int) <= u128::MAX,
            forall|tokens: u64, rate: Binary64| call_requires(*queue_time_delta_ms, (tokens, rate)),
        ensures
            snapshot.active_chat_output_tps@ == self.active_chat_output_tps@,
            snapshot.queue_size == self.pending + self.input_processing,
            snapshot.queued_input_size == saturated(work_through(self.prompt_work_by_priority@, u32::MAX as int)),
            snapshot.num_running_queries == self.pending + self.input_processing + self.output_generation,
            snapshot.total_query_input_size == saturated(self.total_input_tokens as nat),
            snapshot.input_processing_queries == self.input_processing,
            snapshot.output_generation_queries == self.output_generation,
            match self.last_mean_input_tps {
                None => snapshot.queue_time_estimate_ms_by_priority is None,
                Some(rate) => {
                    &&& snapshot.queue_time_estimate_ms_by_priority is Some
                    &&& snapshot.queue_time_estimate_ms_by_priority->0@.dom() == self.prompt_work_by_priority@.dom()
                    &&& forall|priority: u32|
                        self.prompt_work_by_priority@.contains_key(priority) ==> estimated(
                            *queue_time_delta_ms,
                            work_through(self.prompt_work_by_priority@, priority as int),
                            rate,
                            #[trigger] snapshot.queue_time_estimate_ms_by_priority->0@[priority],
                        )
                },
            },
    {
        let work = &self.prompt_work_by_priority;
        let mut cumulative_input_tokens: u128 = 0;
        let mut estimates: SortedMap<u32, u64> = SortedMap::new();
        let len: usize = work.len();
        let ghost order = work.order();
        let ghost mut last: int = -1;
        let mut i: usize = 0;
        proof {
            assert forall|priority: u32| work@.contains_key(priority) implies exists|j: int|
                0 <= j < len && #[trigger] order[j] == priority by {
                assert(order.to_set().contains(priority));
            }
        }
        while i < len
            invariant
                self.wf(),
                *work == self.prompt_work_by_priority,
                len == order.len(),
                order == work.order(),
                crate::keyed::ascending::<u32>(order),
                forall|priority: u32|
                    #[trigger] work@.contains_key(priority) ==> exists|j: int| 0 <= j < len && #[trigger] order[j] == priority,
                forall|j: int| 0 <= j < len ==> work@.contains_key(#[trigger] order[j]),
                work_through(work@, u32::MAX as int) <= u128::MAX,
                forall|tokens: u64, rate: Binary64| call_requires(*queue_time_delta_ms, (tokens, rate)),
                i <= len,
                last == (if i == 0 { -1 } else { order[i - 1] as int }),
                cumulative_input_tokens == work_through(work@, last),
                self.last_mean_input_tps matches Some(rate) ==> {
                    &&& forall|priority: u32| #[trigger]
                        estimates@.contains_key(priority) <==> exists|j: int| 0 <= j < i && #[trigger] order[j] == priority
                    &&& forall|j: int|
                        0 <= j < i ==> estimated(
                            *queue_time_delta_ms,
                            work_through(work@, #[trigger] order[j] as int),
                            rate,
                            estimates@[order[j]],
                        )
                },
            decreases len - i,
        {
            let priority: u32 = *work.key_at(i);
            let input_tokens: u128 = *work.value_at(i);
            proof {
                assert(order[i as int] == priority);
                assert forall|other: u32| last < other <= priority - 1 implies !#[trigger] work@.contains_key(other) by {
                    if work@.contains_key(other) {
                        let j = choose|j: int| 0 <= j < len && #[trigger] order[j] == other;
                        if j < i {
                            assert(j == i - 1 || order[j] < order[i - 1]);
                        } else {
                            assert(j == i || order[i as int] < order[j]);
                        }
                    }
                }
                lemma_work_gap(work@, last, priority - 1);
                lemma_work_monotonic(work@, priority as int, u32::MAX as int);
            }
            cumulative_input_tokens = cumulative_input_tokens + input_tokens;
            if let Some(rate) = self.last_mean_input_tps {
                let ghost before = estimates@;
                let ms: u64 = saturated_queue_time_ms(cumulative_input_tokens, rate, queue_time_delta_ms);
                estimates.insert(priority, ms);
                proof {
                    assert forall|j: int| 0 <= j < i implies order[j] != priority by {
                        assert(order[j] < order[i as int]);
                    }
                    assert forall|other: u32| #[trigger]
                        estimates@.contains_key(other) <==> exists|j: int| 0 <= j < i + 1 && #[trigger] order[j] == other by {
                        if estimates@.contains_key(other) {
                            if other == priority {
                                assert(order[i as int] == other);
                            } else {
                                assert(before.contains_key(other));
                            }
                        }
                    }
                }
            }
            proof {
                last = priority as int;
            }
            i += 1;
        }
        proof {
            assert forall|other: u32| last < other <= u32::MAX implies !#[trigger] work@.contains_key(other) by {
                if work@.contains_key(other) {
                    let j = choose|j: int| 0 <= j < len && #[trigger] order[j] == other;
                    assert(j == len - 1 || order[j] < order[len - 1]);
                }
            }
            lemma_work_gap(work@, last, u32::MAX as int);
        }
        let estimates = match self.last_mean_input_tps {
            Some(_) => {
                assert(estimates@.dom() =~= work@.dom());
                Some(estimates)
            },
            None => None,
        };
        QueueModelSnapshot {
            active_chat_output_tps: copy_rates(&self.active_chat_output_tps),
            queue_size: (self.pending + self.input_processing) as u64,
            queued_input_size: saturated_u64(cumulative_input_tokens),
            num_running_queries: (self.pending + self.input_processing + self.output_generation) as u64,
            total_query_input_size: saturated_u64(self.total_input_tokens),
            input_processing_queries: self.input_processing as u64,
            output_generation_queries: self.output_generation as u64,
            // Known throughput and no prompt work is an explicit empty map, so
            // that a reader clears what was published before.
            queue_time_estimate_ms_by_priority: estimates,
        }
    }

    /// The work through `priority`, without that of `excluded`.
    pub open spec fn work_ahead(&self, priority: u32, excluded: Option<TrackedView>) -> int {
        work_through(self.prompt_work_by_priority@, priority as int) - (match excluded {
            Some(request) => match request.work() {
                Some((at, tokens)) => if at <= priority {
                    tokens as int
                } else {
                    0
                },
                None => 0,
            },
            None => 0,
        })
    }

    /// The queue time that a request of the given priority would wait, not
    /// counting the work of `excluded_request`.
    pub fn queue_estimate_ms_for_priority_excluding<F: Fn(u64, Binary64) -> Option<u64>>(
        &self,
        priority: u32,
        excluded_request: Option<&TrackedPromptRequest>,
        queue_time_delta_ms: &F,
    ) -> (estimate: Option<u64>)
        requires
            self.wf(),
            work_through(self.prompt_work_by_priority@, u32::MAX as int) <= u128::MAX,
            excluded_request matches Some(request) ==> forall|at: u32| #![auto]
                self.work_at(at) >= request@.work_at(at),
            forall|tokens: u64, rate: Binary64| call_requires(*queue_time_delta_ms, (tokens, rate)),
        ensures
            match self.last_mean_input_tps {
                None => estimate is None,
                Some(rate) => {
                    &&& estimate is Some
                    &&& estimated(
                        *queue_time_delta_ms,
                        self.work_ahead(
                            priority,
                            match excluded_request {
                                Some(request) => Some(request@),
                                None => None,
                            },
                        ) as nat,
                        rate,
                        estimate->0,
                    )
                },
            },
    {
        let rate = match self.last_mean_input_tps {
            Some(rate) => rate,
            None => {
                return None;
            },
        };
        let work = &self.prompt_work_by_priority;
        let len: usize = work.len();
        let ghost order = work.order();
        let ghost mut last: int = -1;
        let mut input_tokens: u128 = 0;
        let mut i: usize = 0;
        proof {
            assert forall|at: u32| work@.contains_key(at) implies exists|j: int|
                0 <= j < len && #[trigger] order[j] == at by {
                assert(order.to_set().contains(at));
            }
        }
        while i < len && *work.key_at(i) <= priority
            invariant
                self.wf(),
                *work == self.prompt_work_by_priority,
                len == order.len(),
                order == work.order(),
                crate::keyed::ascending::<u32>(order),
                forall|at: u32|
                    #[trigger] work@.contains_key(at) ==> exists|j: int| 0 <= j < len && #[trigger] order[j] == at,
                forall|j: int| 0 <= j < len ==> work@.contains_key(#[trigger] order[j]),
                work_through(work@, u32::MAX as int) <= u128::MAX,
                i <= len,
                last == (if i == 0 { -1 } else { order[i - 1] as int }),
                last <= priority,
                input_tokens == work_through(work@, last),
            decreases len - i,
        {
            let at: u32 = *work.key_at(i);
            proof {
                assert(order[i as int] == at);
                assert forall|other: u32| last < other <= at - 1 implies !#[trigger] work@.contains_key(other) by {
                    if work@.contains_key(other) {
                        let j = choose|j: int| 0 <= j < len && #[trigger] order[j] == other;
                        if j < i {
                            assert(j == i - 1 || order[j] < order[i - 1]);
                        } else {
                            assert(j == i || order[i as int] < order[j]);
                        }
                    }
                }
                lemma_work_gap(work@, last, at - 1);
                lemma_work_monotonic(work@, at as int, u32::MAX as int);
                last = at as int;
            }
            input_tokens = input_tokens + *work.value_at(i);
            i += 1;
        }
        proof {
            assert forall|other: u32| last < other <= priority implies !#[trigger] work@.contains_key(other) by {
                if work@.contains_key(other) {
                    let j = choose|j: int| 0 <= j < len && #[trigger] order[j] == other;
                    if j < i {
                        assert(j == i - 1 || order[j] < order[i - 1]);
                    } else {
                        assert(j == i || order[i as int] < order[j]);
                    }
                }
            }
            lemma_work_gap(work@, last, priority as int);
        }
        if let Some(request) = excluded_request {
            if let Some((at, tokens)) = request.phase.prompt_work(request.priority, request.input_tokens) {
                if at <= priority {
                    proof {
                        assert(request@.work_at(at) == tokens);
                        assert(self.work_at(at) >= tokens);
                        lemma_work_monotonic(work@, at as int, priority as int);
                    }
                    input_tokens = input_tokens - tokens as u128;
                }
            }
        }
        Some(saturated_queue_time_ms(input_tokens, rate, queue_time_delta_ms))
    }
}

} // verus!
