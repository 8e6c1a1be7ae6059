//! The supervisor of model generations: which models are wanted, which are
//! live, and what is to be done next. Times are nanoseconds of a monotonic
//! clock.

use vstd::prelude::*;

use crate::binary64::Binary64;
use crate::bringup::{BringupConfig, BringupError, CalibrationConfig};
use crate::generation::{GenerationId, ModelGeneration};
use crate::keyed::{SortedMap, SortedSet};
use crate::model_stats::CurrentModelStats;
use crate::runtime_state::PylonRuntimeState;
use crate::text::join_texts;
use crate::upstream_health::UpstreamHealthPaths;

verus! {

pub const STATIC_RETRY_INTERVAL: u64 = 1_000_000_000;
pub const STARTUP_HEALTH_RETRY_INTERVAL: u64 = 500_000_000;

/// Whose listing the models are discovered from.
#[derive(Clone, Copy, Debug, PartialEq, Eq, Structural)]
pub enum ModelDiscoveryProvider {
    Dynamo,
}

#[derive(Clone, Copy, Debug, PartialEq, Eq, Structural)]
pub struct ModelDiscoveryConfig {
    pub provider: ModelDiscoveryProvider,
    pub poll_interval: u64,
    pub request_timeout: u64,
}

/// Where the wanted models come from.
#[derive(Debug)]
pub enum ModelSource {
    Static(SortedSet<String>),
    Discovered(ModelDiscoveryConfig),
}

/// How the input rate of a new model is set.
#[derive(Clone, Copy, Debug, PartialEq, Eq, Structural)]
pub enum ModelInitialization {
    Calibration(CalibrationConfig),
    ConfiguredInputTps { input_tps: Binary64, pin: bool },
    Uncalibrated,
}

/// What the statistics of a new generation start with.
#[derive(Clone, Copy, Debug, PartialEq, Eq, Structural)]
pub enum ModelStatsInitialization {
    Empty,
    ConfiguredInputTps { input_tps: Binary64, pin: bool },
}

#[derive(Debug)]
pub struct ModelLifecycleConfig {
    pub upstream_http_base_url: String,
    pub source: ModelSource,
    pub initialization: ModelInitialization,
    pub bringup: BringupConfig,
    pub health_paths: UpstreamHealthPaths,
    /// How long startup retries the health probe before it fails. With zero it
    /// probes once.
    pub startup_health_wait: u64,
}

/// Why the lifecycle ended. `Discovery` carries the words of the failed poll.
#[derive(Debug)]
pub enum ModelLifecycleError {
    Discovery(String),
    Bringup(BringupError),
    StatsCollectorStopped,
    StaleGeneration,
    GenerationCounterExhausted,
}

impl ModelLifecycleError {
    /// What the error says.
    pub open spec fn text(&self) -> Seq<char> {
        match self {
            ModelLifecycleError::Discovery(words) => "model discovery failed: "@ + words@,
            ModelLifecycleError::Bringup(error) => "model initialization failed: "@ + error.text(),
            ModelLifecycleError::StatsCollectorStopped => {
                "stats collector stopped during model lifecycle transition"@
            },
            ModelLifecycleError::StaleGeneration => "model generation transition lost exact ownership"@,
            ModelLifecycleError::GenerationCounterExhausted => "model generation counter exhausted"@,
        }
    }

    pub fn message(&self) -> (message: String)
        ensures
            message@ == self.text(),
    {
        match self {
            ModelLifecycleError::Discovery(words) => join_texts("model discovery failed: ", words.as_str()),
            ModelLifecycleError::Bringup(error) => join_texts(
                "model initialization failed: ",
                error.message().as_str(),
            ),
            ModelLifecycleError::StatsCollectorStopped => {
                "stats collector stopped during model lifecycle transition".to_string()
            },
            ModelLifecycleError::StaleGeneration => "model generation transition lost exact ownership".to_string(),
            ModelLifecycleError::GenerationCounterExhausted => "model generation counter exhausted".to_string(),
        }
    }
}

pub open spec fn stats_start(initialization: ModelInitialization) -> ModelStatsInitialization {
    match initialization {
        ModelInitialization::ConfiguredInputTps { input_tps, pin } => ModelStatsInitialization::ConfiguredInputTps {
            input_tps,
            pin,
        },
        _ => ModelStatsInitialization::Empty,
    }
}

/// What the statistics of a generation start with.
pub fn stats_initialization(initialization: &ModelInitialization) -> (start: ModelStatsInitialization)
    ensures
        start == stats_start(*initialization),
{
    match *initialization {
        ModelInitialization::ConfiguredInputTps { input_tps, pin } => ModelStatsInitialization::ConfiguredInputTps {
            input_tps,
            pin,
        },
        _ => ModelStatsInitialization::Empty,
    }
}

pub open spec fn probe_timeout(initialization: ModelInitialization, bringup: BringupConfig) -> Option<u64> {
    match initialization {
        ModelInitialization::Calibration(calibration) => Some(calibration.health_timeout),
        _ => if bringup.enabled {
            Some(bringup.canary_timeout)
        } else {
            None
        },
    }
}

/// How long a health probe may take, where the upstream is probed at all.
pub fn health_probe_timeout(config: &ModelLifecycleConfig) -> (timeout: Option<u64>)
    ensures
        timeout == probe_timeout(config.initialization, config.bringup),
{
    match config.initialization {
        ModelInitialization::Calibration(calibration) => Some(calibration.health_timeout),
        _ => if config.bringup.enabled {
            Some(config.bringup.canary_timeout)
        } else {
            None
        },
    }
}

/// The wait for a healthy upstream at startup.
#[derive(Clone, Copy, Debug, PartialEq, Eq, Structural)]
pub struct StartupHealthWait {
    pub timeout: u64,
    pub deadline: u64,
    pub reported: bool,
}

/// What follows a probe of the wait.
#[derive(Debug)]
pub enum StartupHealthStep {
    Healthy,
    Failed(ModelLifecycleError),
    /// Probe again after the delay; `first` where this is the first failure,
    /// which is reported more loudly.
    Retry { first: bool, delay: u64 },
}

impl StartupHealthWait {
    /// The wait that the configuration asks for: none where the upstream is
    /// not probed.
    pub fn begin(config: &ModelLifecycleConfig, now: u64) -> (wait: Option<StartupHealthWait>)
        ensures
            match (wait, probe_timeout(config.initialization, config.bringup)) {
                (Some(wait), Some(timeout)) => wait == (StartupHealthWait {
                    timeout,
                    deadline: crate::queue_admission::saturating_sum(now, config.startup_health_wait),
                    reported: false,
                }),
                (None, None) => true,
                _ => false,
            },
    {
        match health_probe_timeout(config) {
            Some(timeout) => Some(
                StartupHealthWait {
                    timeout,
                    deadline: now.saturating_add(config.startup_health_wait),
                    reported: false,
                },
            ),
            None => None,
        }
    }

    /// Takes in the outcome of a probe: the wait ends with a healthy upstream
    /// or once the deadline has come.
    pub fn after_probe(&mut self, healthy: bool, now: u64) -> (step: StartupHealthStep)
        ensures
            final(self).timeout == old(self).timeout,
            final(self).deadline == old(self).deadline,
            match step {
                StartupHealthStep::Healthy => healthy && final(self).reported == old(self).reported,
                StartupHealthStep::Failed(error) => {
                    &&& !healthy
                    &&& now >= old(self).deadline
                    &&& error matches ModelLifecycleError::Bringup(BringupError::UnhealthyUpstream)
                    &&& final(self).reported == old(self).reported
                },
                StartupHealthStep::Retry { first, delay } => {
                    &&& !healthy
                    &&& now < old(self).deadline
                    &&& first == !old(self).reported
                    &&& delay == STARTUP_HEALTH_RETRY_INTERVAL
                    &&& final(self).reported
                },
            },
    {
        if healthy {
            return StartupHealthStep::Healthy;
        }
        if now >= self.deadline {
            return StartupHealthStep::Failed(ModelLifecycleError::Bringup(BringupError::UnhealthyUpstream));
        }
        let first = !self.reported;
        self.reported = true;
        StartupHealthStep::Retry { first, delay: STARTUP_HEALTH_RETRY_INTERVAL }
    }
}

/// What is recorded of a discovery poll: how it ended, and how many models it
/// found.
pub fn discovery_poll_outcome(result: &Result<SortedSet<String>, String>) -> (outcome: (&'static str, Option<usize>))
    ensures
        match result {
            Ok(found) => outcome.0@ == "success"@ && (outcome.1 matches Some(count) && count == found@.len()),
            Err(_) => outcome.0@ == "error"@ && outcome.1 is None,
        },
{
    match result {
        Ok(found) => ("success", Some(found.len())),
        Err(_) => ("error", None),
    }
}

/// A live model: its generation, and whether a canary watches it.
#[derive(Debug)]
pub struct LiveModelGeneration {
    pub generation: ModelGeneration,
    pub canary: bool,
}

#[verifier::ext_equal]
pub struct LiveModelView {
    pub generation: GenerationId,
    pub canary: bool,
}

impl View for LiveModelGeneration {
    type V = LiveModelView;

    open spec fn view(&self) -> LiveModelView {
        LiveModelView { generation: self.generation@, canary: self.canary }
    }
}

/// A generation that is still to be initialized, and when to try next.
#[derive(Debug)]
pub struct PendingInitialization {
    pub generation: ModelGeneration,
    pub retry_at: u64,
}

#[verifier::ext_equal]
pub struct PendingView {
    pub generation: GenerationId,
    pub retry_at: u64,
}

impl View for PendingInitialization {
    type V = PendingView;

    open spec fn view(&self) -> PendingView {
        PendingView { generation: self.generation@, retry_at: self.retry_at }
    }
}

/// The live models by name.
pub type LiveModels = Map<Seq<char>, LiveModelView>;

/// `index` is the first of the earliest in the queue.
pub open spec fn is_earliest(pending: Seq<PendingView>, index: int) -> bool {
    &&& 0 <= index < pending.len()
    &&& forall|i: int| 0 <= i < pending.len() ==> pending[index].retry_at <= (#[trigger] pending[i]).retry_at
    &&& forall|i: int| 0 <= i < index ==> pending[index].retry_at < (#[trigger] pending[i]).retry_at
}

/// The place of the generation whose turn is first; the one queued first where
/// several are due at once.
pub fn earliest_pending_index(pending: &[PendingInitialization]) -> (index: Option<usize>)
    ensures
        match index {
            Some(index) => is_earliest(crate::keyed::views(pending@), index as int),
            None => pending@.len() == 0,
        },
{
    let ghost all = crate::keyed::views(pending@);
    if pending.len() == 0 {
        return None;
    }
    let mut best: usize = 0;
    let mut i: usize = 1;
    while i < pending.len()
        invariant
            1 <= i <= pending.len(),
            all == crate::keyed::views(pending@),
            best < i,
            forall|j: int| 0 <= j < i ==> all[best as int].retry_at <= (#[trigger] all[j]).retry_at,
            forall|j: int| 0 <= j < best ==> all[best as int].retry_at < (#[trigger] all[j]).retry_at,
        decreases pending.len() - i,
    {
        assert(all[i as int].retry_at == pending[i as int].retry_at);
        assert(all[best as int].retry_at == pending[best as int].retry_at);
        if pending[i].retry_at < pending[best].retry_at {
            best = i;
        }
        i += 1;
    }
    Some(best)
}

/// The supervisor of the live models.
#[derive(Debug)]
pub struct ModelLifecycleSupervisor {
    live: SortedMap<String, LiveModelGeneration>,
    pending: Vec<PendingInitialization>,
    next_generation: u64,
    next_poll_at: Option<u64>,
}

/// The generation is the live one of its model.
pub open spec fn live_generation(live: LiveModels, generation: GenerationId) -> bool {
    live.contains_key(generation.model_id) && live[generation.model_id].generation == generation
}

/// The queue without a generation.
pub open spec fn without_generation(pending: Seq<PendingView>, generation: GenerationId) -> Seq<PendingView> {
    pending.filter(|entry: PendingView| entry.generation != generation)
}

impl ModelLifecycleSupervisor {
    pub closed spec fn live(&self) -> LiveModels {
        self.live@
    }

    pub closed spec fn pending(&self) -> Seq<PendingView> {
        crate::keyed::views(self.pending@)
    }

    pub closed spec fn next_generation(&self) -> u64 {
        self.next_generation
    }

    pub closed spec fn next_poll_at(&self) -> Option<u64> {
        self.next_poll_at
    }

    /// There are finitely many live models.
    pub proof fn lemma_live_finite(&self)
        ensures
            self.live().dom().finite(),
    {
        self.live.lemma_finite();
    }

    /// Each model is live under its own name, in a generation that was handed
    /// out before.
    pub open spec fn wf(&self) -> bool {
        forall|id: Seq<char>| #[trigger]
            self.live().contains_key(id) ==> {
                &&& self.live()[id].generation.model_id == id
                &&& self.live()[id].generation.sequence < self.next_generation()
            }
    }

    /// Every live generation is served.
    pub open spec fn serves(&self, runtime: &PylonRuntimeState) -> bool {
        forall|id: Seq<char>| #[trigger]
            self.live().contains_key(id) ==> crate::runtime_state::current(
                runtime.models(),
                self.live()[id].generation,
            )
    }

    pub open spec fn same_queue(&self, other: &ModelLifecycleSupervisor) -> bool {
        &&& self.pending() == other.pending()
        &&& self.next_generation() == other.next_generation()
        &&& self.next_poll_at() == other.next_poll_at()
    }

    /// A supervisor without models. Where models are discovered, the first
    /// poll after startup is one interval from now.
    pub fn new(source: &ModelSource, now: u64) -> (supervisor: Self)
        ensures
            supervisor.wf(),
            supervisor.live() == Map::<Seq<char>, LiveModelView>::empty(),
            supervisor.pending() == Seq::<PendingView>::empty(),
            supervisor.next_generation() == 1,
            supervisor.next_poll_at() == (match source {
                ModelSource::Static(_) => None,
                ModelSource::Discovered(discovery) => Some(
                    crate::queue_admission::saturating_sum(now, discovery.poll_interval),
                ),
            }),
    {
        let supervisor = ModelLifecycleSupervisor {
            live: SortedMap::new(),
            pending: Vec::new(),
            next_generation: 1,
            next_poll_at: match source {
                ModelSource::Static(_) => None,
                ModelSource::Discovered(discovery) => Some(now.saturating_add(discovery.poll_interval)),
            },
        };
        assert(supervisor.pending() =~= Seq::<PendingView>::empty());
        supervisor
    }

    /// Whether the generation is the live one of its model.
    pub fn is_current(&self, generation: &ModelGeneration) -> (is_current: bool)
        ensures
            is_current == live_generation(self.live(), generation@),
    {
        match self.live.get(&generation.model_id) {
            Some(model) => model.generation.same(generation),
            None => false,
        }
    }

    /// Takes the next generation out of the queue, whether or not it is due.
    pub fn pop_next_pending(&mut self) -> (next: Option<PendingInitialization>)
        ensures
            final(self).live() == old(self).live(),
            final(self).next_generation() == old(self).next_generation(),
            final(self).next_poll_at() == old(self).next_poll_at(),
            match next {
                Some(next) => exists|index: int| #[trigger]
                    is_earliest(old(self).pending(), index) && next@ == old(self).pending()[index]
                        && final(self).pending() == old(self).pending().remove(index),
                None => old(self).pending().len() == 0 && final(self).pending() == old(self).pending(),
            },
    {
        let index: usize = match earliest_pending_index(self.pending.as_slice()) {
            Some(index) => index,
            None => {
                return None;
            },
        };
        let ghost before = self.pending();
        let next = self.pending.remove(index);
        proof {
            assert(self.pending() =~= before.remove(index as int));
            assert(is_earliest(before, index as int));
        }
        Some(next)
    }

    /// Takes the next generation out of the queue, where it is due.
    pub fn pop_ready_pending(&mut self, now: u64) -> (next: Option<PendingInitialization>)
        ensures
            final(self).live() == old(self).live(),
            final(self).next_generation() == old(self).next_generation(),
            final(self).next_poll_at() == old(self).next_poll_at(),
            match next {
                Some(next) => next@.retry_at <= now && exists|index: int| #[trigger]
                    is_earliest(old(self).pending(), index) && next@ == old(self).pending()[index]
                        && final(self).pending() == old(self).pending().remove(index),
                None => {
                    &&& final(self).pending() == old(self).pending()
                    &&& forall|i: int| 0 <= i < old(self).pending().len() ==> (#[trigger] old(
                        self,
                    ).pending()[i]).retry_at > now
                },
            },
    {
        let index: usize = match earliest_pending_index(self.pending.as_slice()) {
            Some(index) => index,
            None => {
                return None;
            },
        };
        assert(self.pending()[index as int].retry_at == self.pending[index as int].retry_at);
        if self.pending[index].retry_at > now {
            return None;
        }
        self.pop_next_pending()
    }

    /// When the next discovery poll is due, where models are discovered.
    pub fn next_discovery_poll_at(&self) -> (at: Option<u64>)
        ensures
            at == self.next_poll_at(),
    {
        self.next_poll_at
    }

    /// When the next generation is due.
    pub fn next_retry_at(&self) -> (at: Option<u64>)
        ensures
            match at {
                Some(at) => {
                    &&& exists|i: int| 0 <= i < self.pending().len() && (#[trigger] self.pending()[i]).retry_at == at
                    &&& forall|i: int| 0 <= i < self.pending().len() ==> at <= (#[trigger] self.pending()[i]).retry_at
                },
                None => self.pending().len() == 0,
            },
    {
        match earliest_pending_index(self.pending.as_slice()) {
            Some(index) => {
                assert(self.pending()[index as int].retry_at == self.pending[index as int].retry_at);
                Some(self.pending[index].retry_at)
            },
            None => None,
        }
    }

    /// Notes that a poll has ended and when the next one is due. The wanted
    /// models, where the poll found them; otherwise those last known stay.
    pub fn record_discovery_poll(
        &mut self,
        discovery: &ModelDiscoveryConfig,
        result: Result<SortedSet<String>, String>,
        now: u64,
    ) -> (desired: Option<SortedSet<String>>)
        ensures
            final(self).live() == old(self).live(),
            final(self).pending() == old(self).pending(),
            final(self).next_generation() == old(self).next_generation(),
            final(self).next_poll_at() == Some(
                crate::queue_admission::saturating_sum(now, discovery.poll_interval),
            ),
            match (result, desired) {
                (Ok(found), Some(desired)) => desired@ == found@,
                (Err(_), None) => true,
                _ => false,
            },
    {
        self.next_poll_at = Some(now.saturating_add(discovery.poll_interval));
        match result {
            Ok(found) => Some(found),
            Err(_) => None,
        }
    }

    /// The names of the live models.
    fn live_names(&self) -> (names: SortedSet<String>)
        ensures
            names@ == self.live().dom(),
    {
        let keys = self.live.keys();
        let ghost order = crate::keyed::views(keys@);
        let mut names: SortedSet<String> = SortedSet::new();
        let mut i: usize = 0;
        while i < keys.len()
            invariant
                i <= keys.len(),
                order == crate::keyed::views(keys@),
                crate::keyed::lists::<String>(order, self.live@.dom()),
                forall|name: Seq<char>| #[trigger] names@.contains(name) <==> exists|j: int| 0 <= j < i && order[j] == name,
            decreases keys.len() - i,
        {
            let ghost before = names@;
            let _ = names.insert(keys[i].clone());
            proof {
                assert(order[i as int] == keys[i as int]@);
                assert forall|name: Seq<char>| #[trigger]
                    names@.contains(name) <==> exists|j: int| 0 <= j < i + 1 && order[j] == name by {
                    if names@.contains(name) && name != order[i as int] {
                        assert(before.contains(name));
                    }
                }
            }
            i += 1;
        }
        proof {
            assert forall|name: Seq<char>| names@.contains(name) == #[trigger] self.live@.dom().contains(name) by {
                if names@.contains(name) {
                    assert(order.contains(name));
                    assert(order.to_set().contains(name));
                }
                if self.live@.dom().contains(name) {
                    assert(order.to_set().contains(name));
                    let j = choose|j: int| 0 <= j < order.len() && order[j] == name;
                    assert(order[j] == name);
                }
            }
            assert(names@ =~= self.live@.dom());
        }
        names
    }
}

/// What a reconciliation waits for.
#[derive(Debug)]
pub enum ReconcileWait {
    Nothing,
    CanaryStop(ModelGeneration),
    StatsRetire,
    StatsBegin(ModelGeneration),
}

/// What a reconciliation is told.
#[derive(Clone, Copy, Debug, PartialEq, Eq, Structural)]
pub enum ReconcileEvent {
    Start,
    CanaryStopped,
    StatsRetired,
    /// Whether the statistics took the generation in.
    StatsBegan(bool),
    StatsStopped,
}

/// What is to be done next in a reconciliation.
#[derive(Debug)]
pub enum ReconcileAction {
    /// Stop the canary of a generation that is no longer wanted.
    StopCanary(ModelGeneration),
    /// Drop the statistics of a generation that is no longer served. The
    /// statistics that it had.
    RetireStats { generation: ModelGeneration, stats: Option<CurrentModelStats> },
    /// Take a new generation into the statistics.
    BeginStats { generation: ModelGeneration, initialization: ModelStatsInitialization },
    Finished,
    Failed(ModelLifecycleError),
}

/// One reconciliation of the live models with the wanted ones.
#[derive(Debug)]
pub struct Reconciliation {
    desired: SortedSet<String>,
    waiting: ReconcileWait,
}

impl Reconciliation {
    pub closed spec fn desired(&self) -> Set<Seq<char>> {
        self.desired@
    }

    pub closed spec fn waiting(&self) -> ReconcileWait {
        self.waiting
    }

    pub fn begin(desired: SortedSet<String>) -> (reconciliation: Self)
        ensures
            reconciliation.desired() == desired@,
            reconciliation.waiting() is Nothing,
    {
        Reconciliation { desired, waiting: ReconcileWait::Nothing }
    }

    /// There are finitely many wanted models.
    pub proof fn lemma_desired_finite(&self)
        ensures
            self.desired().finite(),
    {
        self.desired.lemma_finite();
    }

    /// The event answers what the reconciliation waits for.
    pub open spec fn expects(&self, event: ReconcileEvent) -> bool {
        match self.waiting() {
            ReconcileWait::Nothing => event is Start,
            ReconcileWait::CanaryStop(_) => event is CanaryStopped,
            ReconcileWait::StatsRetire => event is StatsRetired,
            ReconcileWait::StatsBegin(_) => event is StatsBegan || event is StatsStopped,
        }
    }

    /// A generation that is waited for is served but not live; a new one is of
    /// a wanted model.
    pub open spec fn fits(&self, supervisor: &ModelLifecycleSupervisor, runtime: &PylonRuntimeState) -> bool {
        match self.waiting() {
            ReconcileWait::CanaryStop(generation) => {
                &&& !supervisor.live().contains_key(generation@.model_id)
                &&& !self.desired().contains(generation@.model_id)
                &&& crate::runtime_state::current(runtime.models(), generation@)
            },
            ReconcileWait::StatsBegin(generation) => {
                &&& !supervisor.live().contains_key(generation@.model_id)
                &&& self.desired().contains(generation@.model_id)
                &&& crate::runtime_state::current(runtime.models(), generation@)
                &&& generation@.sequence < supervisor.next_generation()
            },
            _ => true,
        }
    }
}

/// The live models once the awaited generation is taken in.
pub open spec fn live_after(live: LiveModels, waiting: ReconcileWait, event: ReconcileEvent) -> LiveModels {
    match waiting {
        ReconcileWait::StatsBegin(generation) => if event == ReconcileEvent::StatsBegan(true) {
            live.insert(generation@.model_id, LiveModelView { generation: generation@, canary: false })
        } else {
            live
        },
        _ => live,
    }
}

/// The queue once the awaited generation is taken in.
pub open spec fn pending_after(
    pending: Seq<PendingView>,
    waiting: ReconcileWait,
    event: ReconcileEvent,
    now: u64,
) -> Seq<PendingView> {
    match waiting {
        ReconcileWait::StatsBegin(generation) => if event == ReconcileEvent::StatsBegan(true) {
            pending.push(PendingView { generation: generation@, retry_at: now })
        } else {
            pending
        },
        _ => pending,
    }
}

/// A supervisor and the served models in the midst of a reconciliation.
pub struct ReconcileMoment {
    pub supervisor: ModelLifecycleSupervisor,
    pub runtime: PylonRuntimeState,
    pub reconciliation: Reconciliation,
}

/// The served models and their load are as they were.
pub open spec fn left_alone(before: PylonRuntimeState, after: PylonRuntimeState) -> bool {
    &&& after.models() == before.models()
    &&& after.requires_admitted() == before.requires_admitted()
    &&& after.same_load(&before)
}

/// One generation is served no more, and its load is gone with it.
pub open spec fn generation_left(
    before: PylonRuntimeState,
    after: PylonRuntimeState,
    generation: GenerationId,
) -> bool {
    &&& after.models() == before.models().remove(generation.model_id)
    &&& after.requires_admitted() == before.requires_admitted()
    &&& after.requests() == crate::live_requests::retired(before.requests(), generation)
    &&& after.throughput(generation) is None
    &&& forall|other: GenerationId|
        other != generation ==> #[trigger] after.throughput(other) == before.throughput(other)
}

/// One step of a reconciliation: what it does, and what is asked for next.
pub open spec fn reconciles(
    before: ReconcileMoment,
    event: ReconcileEvent,
    initialization: ModelInitialization,
    now: u64,
    action: ReconcileAction,
    after: ReconcileMoment,
) -> bool {
    let waiting = before.reconciliation.waiting();
    let live = live_after(before.supervisor.live(), waiting, event);
    let pending = pending_after(before.supervisor.pending(), waiting, event, now);
    let desired = before.reconciliation.desired();
    let next_generation = before.supervisor.next_generation();
    &&& after.reconciliation.desired() == desired
    &&& after.supervisor.next_poll_at() == before.supervisor.next_poll_at()
    &&& after.runtime.base_status() == before.runtime.base_status()
    &&& waiting is CanaryStop ==> action is RetireStats
    &&& event == ReconcileEvent::StatsBegan(false) || event is StatsStopped ==> action is Failed
    &&& match action {
        ReconcileAction::StopCanary(generation) => {
            &&& first_unwanted(live, desired, generation@.model_id)
            &&& live[generation@.model_id] == (LiveModelView { generation: generation@, canary: true })
            &&& after.supervisor.live() == live.remove(generation@.model_id)
            &&& after.supervisor.pending() == without_generation(pending, generation@)
            &&& after.supervisor.next_generation() == next_generation
            &&& left_alone(before.runtime, after.runtime)
            &&& after.reconciliation.waiting() matches ReconcileWait::CanaryStop(awaited) && awaited@ == generation@
        },
        ReconcileAction::RetireStats { generation, stats } => {
            &&& match waiting {
                ReconcileWait::CanaryStop(awaited) => {
                    &&& generation@ == awaited@
                    &&& after.supervisor.live() == live
                    &&& after.supervisor.pending() == pending
                },
                _ => {
                    &&& first_unwanted(live, desired, generation@.model_id)
                    &&& live[generation@.model_id] == (LiveModelView { generation: generation@, canary: false })
                    &&& after.supervisor.live() == live.remove(generation@.model_id)
                    &&& after.supervisor.pending() == without_generation(pending, generation@)
                },
            }
            &&& after.supervisor.next_generation() == next_generation
            &&& stats matches Some(stats) && stats@ == before.runtime.models()[generation@.model_id].stats
            &&& generation_left(before.runtime, after.runtime, generation@)
            &&& after.reconciliation.waiting() is StatsRetire
        },
        ReconcileAction::BeginStats { generation, initialization: start } => {
            &&& live.dom().subset_of(desired)
            &&& first_missing(live, desired, generation@.model_id)
            &&& generation@.sequence == next_generation
            &&& start == stats_start(initialization)
            &&& after.supervisor.live() == live
            &&& after.supervisor.pending() == pending
            &&& after.supervisor.next_generation() == next_generation + 1
            &&& !before.runtime.models().contains_key(generation@.model_id)
            &&& after.runtime.models() == crate::runtime_laws::begun(before.runtime.models(), generation@)
            &&& after.runtime.requires_admitted()
            &&& after.runtime.same_load(&before.runtime)
            &&& after.reconciliation.waiting() matches ReconcileWait::StatsBegin(awaited) && awaited@ == generation@
        },
        ReconcileAction::Finished => {
            &&& live.dom() == desired
            &&& after.supervisor.live() == live
            &&& after.supervisor.pending() == pending
            &&& after.supervisor.next_generation() == next_generation
            &&& left_alone(before.runtime, after.runtime)
            &&& after.reconciliation.waiting() is Nothing
        },
        ReconcileAction::Failed(error) => {
            &&& after.supervisor.live() == live
            &&& after.supervisor.pending() == pending
            &&& after.reconciliation.waiting() is Nothing
            &&& if event is StatsStopped {
                &&& error is StatsCollectorStopped
                &&& after.supervisor.next_generation() == next_generation
                &&& left_alone(before.runtime, after.runtime)
            } else if event == ReconcileEvent::StatsBegan(false) {
                &&& error is StaleGeneration
                &&& after.supervisor.next_generation() == next_generation
                &&& waiting matches ReconcileWait::StatsBegin(awaited) && generation_left(
                    before.runtime,
                    after.runtime,
                    awaited@,
                )
            } else {
                &&& cannot_begin(error, live, desired, before.supervisor, before.runtime)
                &&& after.runtime.models() == before.runtime.models()
                &&& after.runtime.same_load(&before.runtime)
                &&& if error is StaleGeneration {
                    &&& after.supervisor.next_generation() == next_generation + 1
                    &&& after.runtime.requires_admitted()
                } else {
                    &&& after.supervisor.next_generation() == next_generation
                    &&& after.runtime.requires_admitted() == before.runtime.requires_admitted()
                }
            }
        },
    }
}

/// `id` is the first live model that is not wanted.
pub open spec fn first_unwanted(live: LiveModels, desired: Set<Seq<char>>, id: Seq<char>) -> bool {
    &&& live.contains_key(id)
    &&& !desired.contains(id)
    &&& forall|before: Seq<char>| #[trigger]
        live.contains_key(before) && crate::text::text_before(before, id) ==> desired.contains(before)
}

/// `id` is the first wanted model that is not live.
pub open spec fn first_missing(live: LiveModels, desired: Set<Seq<char>>, id: Seq<char>) -> bool {
    &&& desired.contains(id)
    &&& !live.contains_key(id)
    &&& forall|before: Seq<char>| #[trigger]
        desired.contains(before) && crate::text::text_before(before, id) ==> live.contains_key(before)
}

impl ModelLifecycleSupervisor {
    /// Takes a generation out of the queue.
    fn forget_pending(&mut self, generation: &ModelGeneration)
        ensures
            final(self).live() == old(self).live(),
            final(self).next_generation() == old(self).next_generation(),
            final(self).next_poll_at() == old(self).next_poll_at(),
            final(self).pending() == without_generation(old(self).pending(), generation@),
    {
        let ghost all = self.pending();
        let ghost keep = |entry: PendingView| entry.generation != generation@;
        let mut kept: Vec<PendingInitialization> = Vec::new();
        let mut i: usize = 0;
        proof {
            assert(crate::keyed::views(kept@) =~= all.take(0).filter(keep));
        }
        while i < self.pending.len()
            invariant
                i <= self.pending.len(),
                *self == *old(self),
                all == self.pending(),
                keep == (|entry: PendingView| entry.generation != generation@),
                crate::keyed::views(kept@) == all.take(i as int).filter(keep),
            decreases self.pending.len() - i,
        {
            let entry = &self.pending[i];
            let ghost before = kept@;
            proof {
                reveal(Seq::filter);
                assert(all.take(i + 1).drop_last() =~= all.take(i as int));
                assert(all.take(i + 1).last() == entry@);
            }
            if !entry.generation.same(generation) {
                kept.push(PendingInitialization { generation: entry.generation.clone(), retry_at: entry.retry_at });
                assert(crate::keyed::views(kept@) =~= crate::keyed::views(before).push(entry@));
            }
            i += 1;
        }
        assert(all.take(i as int) =~= all);
        self.pending = kept;
    }

    /// Moves a reconciliation on: the models that are no longer wanted go one
    /// after the other, then the missing ones come, each in a generation that
    /// never was before.
    pub fn step(
        &mut self,
        runtime: &mut PylonRuntimeState,
        reconciliation: &mut Reconciliation,
        event: ReconcileEvent,
        initialization: &ModelInitialization,
        now: u64,
    ) -> (action: ReconcileAction)
        requires
            old(self).wf(),
            old(runtime).wf(),
            old(self).serves(old(runtime)),
            old(reconciliation).expects(event),
            old(reconciliation).fits(old(self), old(runtime)),
        ensures
            final(self).wf(),
            final(runtime).wf(),
            final(self).serves(final(runtime)),
            final(reconciliation).fits(final(self), final(runtime)),
            reconciles(
                (ReconcileMoment {
                    supervisor: *old(self),
                    runtime: *old(runtime),
                    reconciliation: *old(reconciliation),
                }),
                event,
                *initialization,
                now,
                action,
                (ReconcileMoment {
                    supervisor: *final(self),
                    runtime: *final(runtime),
                    reconciliation: *final(reconciliation),
                }),
            ),
    {
        let ghost desired = reconciliation.desired();
        let mut waiting = ReconcileWait::Nothing;
        std::mem::swap(&mut waiting, &mut reconciliation.waiting);
        match waiting {
            ReconcileWait::CanaryStop(generation) => {
                let stats = runtime.retire_generation(&generation);
                reconciliation.waiting = ReconcileWait::StatsRetire;
                return ReconcileAction::RetireStats { generation, stats };
            },
            ReconcileWait::StatsBegin(generation) => {
                match event {
                    ReconcileEvent::StatsBegan(true) => {
                        let ghost before = self.pending();
                        self.live.insert(
                            generation.model_id.clone(),
                            LiveModelGeneration { generation: generation.clone(), canary: false },
                        );
                        self.pending.push(PendingInitialization { generation, retry_at: now });
                        assert(self.pending() =~= before.push(
                            PendingView { generation: generation@, retry_at: now },
                        ));
                    },
                    ReconcileEvent::StatsBegan(false) => {
                        let _ = runtime.retire_generation(&generation);
                        return ReconcileAction::Failed(ModelLifecycleError::StaleGeneration);
                    },
                    _ => {
                        return ReconcileAction::Failed(ModelLifecycleError::StatsCollectorStopped);
                    },
                }
            },
            _ => {},
        }
        let ghost live = self.live();
        let names = self.live_names();
        if let Some(unwanted) = names.first_outside(&reconciliation.desired) {
            if let Some(model) = self.live.remove(&unwanted) {
                let generation = model.generation;
                self.forget_pending(&generation);
                if model.canary {
                    reconciliation.waiting = ReconcileWait::CanaryStop(generation.clone());
                    return ReconcileAction::StopCanary(generation);
                }
                let stats = runtime.retire_generation(&generation);
                reconciliation.waiting = ReconcileWait::StatsRetire;
                return ReconcileAction::RetireStats { generation, stats };
            }
        }
        if let Some(missing) = reconciliation.desired.first_outside(&names) {
            assert(first_missing(live, desired, missing@));
            let sequence: u64 = self.next_generation;
            if sequence == u64::MAX {
                return ReconcileAction::Failed(ModelLifecycleError::GenerationCounterExhausted);
            }
            self.next_generation = sequence + 1;
            let generation = ModelGeneration::new(missing.as_str(), sequence);
            if !runtime.begin_generation(generation.clone()) {
                return ReconcileAction::Failed(ModelLifecycleError::StaleGeneration);
            }
            reconciliation.waiting = ReconcileWait::StatsBegin(generation.clone());
            return ReconcileAction::BeginStats {
                generation,
                initialization: stats_initialization(initialization),
            };
        }
        assert(live.dom() =~= desired);
        ReconcileAction::Finished
    }
}

/// An aborted startup retires every model that it began and then fails with
/// what it was aborted for: the reconciliation that wants no model, and the
/// error.
pub fn abort_startup(error: ModelLifecycleError) -> (abort: (Reconciliation, ModelLifecycleError))
    ensures
        abort.0.desired() == Set::<Seq<char>>::empty(),
        abort.0.waiting() is Nothing,
        abort.1 == error,
{
    (Reconciliation::begin(SortedSet::new()), error)
}

/// No generation can begin: the numbers are used up, or the first missing
/// model is served already.
pub open spec fn cannot_begin(
    error: ModelLifecycleError,
    live: LiveModels,
    desired: Set<Seq<char>>,
    supervisor: ModelLifecycleSupervisor,
    runtime: PylonRuntimeState,
) -> bool {
    &&& live.dom().subset_of(desired)
    &&& exists|id: Seq<char>| #[trigger]
        first_missing(live, desired, id) && if supervisor.next_generation() == u64::MAX {
            error is GenerationCounterExhausted
        } else {
            error is StaleGeneration && runtime.models().contains_key(id)
        }
}

/// How an attempt to initialize a generation ended.
#[derive(Debug)]
pub enum InitializationAttemptOutcome {
    Ready,
    Retired,
    Cancelled,
    Failed(ModelLifecycleError),
}

/// What the initialization of a generation is told.
#[derive(Debug)]
pub enum DriveEvent {
    Cancelled,
    /// A poll has ended; the wanted models, where it found them.
    Polled(Option<SortedSet<String>>),
    /// The attempt has ended; the error, where it failed.
    Attempted(Option<ModelLifecycleError>),
    /// The reconciliation that was asked for is done.
    Reconciled,
}

/// What is to be done next in the initialization of a generation.
#[derive(Debug)]
pub enum DriveAction {
    /// Go on with the attempt and the polls.
    Wait,
    Reconcile(SortedSet<String>),
    Return(InitializationAttemptOutcome),
}

/// Where the initialization of a generation stands.
#[derive(Debug)]
pub enum DriveStage {
    Attempting,
    /// The generation is no longer wanted and is being reconciled away.
    Leaving,
    /// The attempt has ended; the polls that came meanwhile are reconciled.
    Settling(Option<ModelLifecycleError>),
    Done,
}

/// The initialization of one generation. Polls that still want it are kept
/// until the attempt has ended.
#[derive(Debug)]
pub struct InitializationDrive {
    generation: ModelGeneration,
    deferred: Vec<SortedSet<String>>,
    stage: DriveStage,
}

/// The outcome of an attempt.
pub open spec fn attempt_outcome(outcome: InitializationAttemptOutcome, error: Option<ModelLifecycleError>) -> bool {
    match error {
        None => outcome is Ready,
        Some(error) => outcome == InitializationAttemptOutcome::Failed(error),
    }
}

impl InitializationDrive {
    pub closed spec fn generation(&self) -> GenerationId {
        self.generation@
    }

    /// The kept polls, oldest first.
    pub closed spec fn deferred(&self) -> Seq<Set<Seq<char>>> {
        crate::keyed::views(self.deferred@)
    }

    pub closed spec fn stage(&self) -> DriveStage {
        self.stage
    }

    /// The event can come at this stage.
    pub open spec fn expects(&self, event: DriveEvent) -> bool {
        match self.stage() {
            DriveStage::Attempting => !(event is Reconciled),
            DriveStage::Leaving => event is Reconciled,
            DriveStage::Settling(_) => event is Reconciled,
            DriveStage::Done => false,
        }
    }

    /// Starts with a generation that is live; one that is not has been
    /// retired.
    pub fn begin(supervisor: &ModelLifecycleSupervisor, generation: &ModelGeneration) -> (drive: Option<
        InitializationDrive,
    >)
        ensures
            match drive {
                Some(drive) => {
                    &&& live_generation(supervisor.live(), generation@)
                    &&& drive.generation() == generation@
                    &&& drive.deferred().len() == 0
                    &&& drive.stage() is Attempting
                },
                None => !live_generation(supervisor.live(), generation@),
            },
    {
        if !supervisor.is_current(generation) {
            return None;
        }
        Some(
            InitializationDrive {
                generation: generation.clone(),
                deferred: Vec::new(),
                stage: DriveStage::Attempting,
            },
        )
    }

    /// Takes the oldest kept poll.
    fn take_deferred(&mut self) -> (desired: Option<SortedSet<String>>)
        ensures
            final(self).generation() == old(self).generation(),
            final(self).stage() == old(self).stage(),
            match desired {
                Some(desired) => {
                    &&& old(self).deferred().len() > 0
                    &&& desired@ == old(self).deferred()[0]
                    &&& final(self).deferred() == old(self).deferred().drop_first()
                },
                None => old(self).deferred().len() == 0 && final(self).deferred() == old(self).deferred(),
            },
    {
        if self.deferred.len() == 0 {
            return None;
        }
        let ghost before = self.deferred();
        let desired = self.deferred.remove(0);
        assert(self.deferred() =~= before.drop_first());
        Some(desired)
    }

    /// Ends the attempt's aftermath or goes on to the next kept poll.
    fn settle(&mut self, error: Option<ModelLifecycleError>) -> (action: DriveAction)
        ensures
            final(self).generation() == old(self).generation(),
            if old(self).deferred().len() > 0 {
                &&& action matches DriveAction::Reconcile(desired) && desired@ == old(self).deferred()[0]
                &&& final(self).deferred() == old(self).deferred().drop_first()
                &&& final(self).stage() == DriveStage::Settling(error)
            } else {
                &&& action matches DriveAction::Return(outcome) && attempt_outcome(outcome, error)
                &&& final(self).deferred() == old(self).deferred()
                &&& final(self).stage() is Done
            },
    {
        match self.take_deferred() {
            Some(desired) => {
                self.stage = DriveStage::Settling(error);
                DriveAction::Reconcile(desired)
            },
            None => {
                self.stage = DriveStage::Done;
                DriveAction::Return(
                    match error {
                        None => InitializationAttemptOutcome::Ready,
                        Some(error) => InitializationAttemptOutcome::Failed(error),
                    },
                )
            },
        }
    }

    /// Moves the initialization on. A poll that no longer wants the model ends
    /// it at once; one that does waits for the attempt, and the same list is
    /// not kept twice in a row.
    pub fn step(&mut self, supervisor: &ModelLifecycleSupervisor, event: DriveEvent) -> (action: DriveAction)
        requires
            old(self).expects(event),
        ensures
            final(self).generation() == old(self).generation(),
            match (old(self).stage(), event) {
                (DriveStage::Attempting, DriveEvent::Cancelled) => {
                    &&& action matches DriveAction::Return(InitializationAttemptOutcome::Cancelled)
                    &&& final(self).stage() is Done
                },
                (DriveStage::Attempting, DriveEvent::Polled(None)) => {
                    &&& action is Wait
                    &&& final(self).stage() is Attempting
                    &&& final(self).deferred() == old(self).deferred()
                },
                (DriveStage::Attempting, DriveEvent::Polled(Some(desired))) => if desired@.contains(
                    old(self).generation().model_id,
                ) {
                    &&& action is Wait
                    &&& final(self).stage() is Attempting
                    &&& final(self).deferred() == (if old(self).deferred().len() > 0 && old(self).deferred().last()
                        == desired@ {
                        old(self).deferred()
                    } else {
                        old(self).deferred().push(desired@)
                    })
                } else {
                    &&& action matches DriveAction::Reconcile(wanted) && wanted@ == desired@
                    &&& final(self).stage() is Leaving
                },
                (DriveStage::Attempting, DriveEvent::Attempted(error)) => settles(*old(self), *final(self), error, action),
                (DriveStage::Leaving, _) => {
                    &&& action matches DriveAction::Return(InitializationAttemptOutcome::Retired)
                    &&& final(self).stage() is Done
                },
                (DriveStage::Settling(error), _) => if live_generation(supervisor.live(), old(self).generation()) {
                    settles(*old(self), *final(self), error, action)
                } else {
                    &&& action matches DriveAction::Return(InitializationAttemptOutcome::Retired)
                    &&& final(self).stage() is Done
                },
                _ => true,
            },
    {
        let mut stage = DriveStage::Done;
        std::mem::swap(&mut stage, &mut self.stage);
        match (stage, event) {
            (DriveStage::Attempting, DriveEvent::Polled(None)) => {
                self.stage = DriveStage::Attempting;
                DriveAction::Wait
            },
            (DriveStage::Attempting, DriveEvent::Polled(Some(desired))) => {
                if !desired.contains(&self.generation.model_id) {
                    self.stage = DriveStage::Leaving;
                    return DriveAction::Reconcile(desired);
                }
                self.stage = DriveStage::Attempting;
                let known = if self.deferred.len() > 0 {
                    let last = &self.deferred[self.deferred.len() - 1];
                    assert(self.deferred().last() == last@);
                    last.same(&desired)
                } else {
                    false
                };
                if !known {
                    let ghost before = self.deferred();
                    self.deferred.push(desired);
                    assert(self.deferred() =~= before.push(desired@));
                }
                DriveAction::Wait
            },
            (DriveStage::Attempting, DriveEvent::Attempted(error)) => self.settle(error),
            (DriveStage::Leaving, _) => DriveAction::Return(InitializationAttemptOutcome::Retired),
            (DriveStage::Settling(error), _) => {
                if !supervisor.is_current(&self.generation) {
                    return DriveAction::Return(InitializationAttemptOutcome::Retired);
                }
                self.settle(error)
            },
            _ => DriveAction::Return(InitializationAttemptOutcome::Cancelled),
        }
    }
}

/// The kept polls are reconciled one by one; after the last, the outcome of
/// the attempt stands.
pub open spec fn settles(
    before: InitializationDrive,
    after: InitializationDrive,
    error: Option<ModelLifecycleError>,
    action: DriveAction,
) -> bool {
    if before.deferred().len() > 0 {
        &&& action matches DriveAction::Reconcile(desired) && desired@ == before.deferred()[0]
        &&& after.deferred() == before.deferred().drop_first()
        &&& after.stage() == DriveStage::Settling(error)
    } else {
        &&& action matches DriveAction::Return(outcome) && attempt_outcome(outcome, error)
        &&& after.stage() is Done
    }
}

/// What the statistics answered when a generation was to be admitted.
#[derive(Clone, Copy, Debug, PartialEq, Eq, Structural)]
pub enum StatsFlush {
    Stopped,
    UnknownGeneration,
    Flushed,
}

/// Publishes a generation once its statistics are flushed.
pub fn admit_generation(runtime: &mut PylonRuntimeState, generation: &ModelGeneration, flush: StatsFlush) -> (result: Result<
    (),
    ModelLifecycleError,
>)
    requires
        old(runtime).wf(),
    ensures
        final(runtime).wf(),
        final(runtime).same_load(old(runtime)),
        match result {
            Ok(_) => {
                &&& flush is Flushed
                &&& crate::runtime_state::current(old(runtime).models(), generation@)
                &&& final(runtime).models() == crate::runtime_state::republished(
                    old(runtime).models(),
                    generation@.model_id,
                    crate::runtime_state::ModelPublication::Admitted { bringup_ready: true },
                )
            },
            Err(error) => {
                &&& final(runtime).models() == old(runtime).models()
                &&& match flush {
                    StatsFlush::Stopped => error is StatsCollectorStopped,
                    StatsFlush::UnknownGeneration => error is StaleGeneration,
                    StatsFlush::Flushed => error is StaleGeneration && !crate::runtime_state::current(
                        old(runtime).models(),
                        generation@,
                    ),
                }
            },
        },
{
    match flush {
        StatsFlush::Stopped => Err(ModelLifecycleError::StatsCollectorStopped),
        StatsFlush::UnknownGeneration => Err(ModelLifecycleError::StaleGeneration),
        StatsFlush::Flushed => if runtime.publish_generation(generation) {
            Ok(())
        } else {
            Err(ModelLifecycleError::StaleGeneration)
        },
    }
}

/// What is to be done next by the running supervisor.
#[derive(Debug)]
pub enum RunAction {
    Exit,
    Initialize(ModelGeneration),
    /// Wait for the stop, the next poll or the next retry, whichever is first.
    Wait { poll_at: Option<u64>, retry_at: Option<u64> },
}

impl ModelLifecycleSupervisor {
    /// The next thing for the running supervisor to do.
    pub fn run_action(&mut self, cancelled: bool, now: u64) -> (action: RunAction)
        ensures
            final(self).live() == old(self).live(),
            final(self).next_generation() == old(self).next_generation(),
            final(self).next_poll_at() == old(self).next_poll_at(),
            match action {
                RunAction::Exit => cancelled && final(self).pending() == old(self).pending(),
                RunAction::Initialize(generation) => !cancelled && exists|index: int| #[trigger]
                    is_earliest(old(self).pending(), index) && old(self).pending()[index].generation == generation@
                        && old(self).pending()[index].retry_at <= now && final(self).pending() == old(
                        self,
                    ).pending().remove(index),
                RunAction::Wait { poll_at, retry_at } => {
                    &&& !cancelled
                    &&& final(self).pending() == old(self).pending()
                    &&& poll_at == old(self).next_poll_at()
                    &&& retry_at is None <==> old(self).pending().len() == 0
                    &&& retry_at matches Some(at) ==> {
                        &&& at > now
                        &&& exists|i: int|
                            0 <= i < old(self).pending().len() && (#[trigger] old(self).pending()[i]).retry_at == at
                        &&& forall|i: int|
                            0 <= i < old(self).pending().len() ==> at <= (#[trigger] old(self).pending()[i]).retry_at
                    }
                },
            },
    {
        if cancelled {
            return RunAction::Exit;
        }
        match self.pop_ready_pending(now) {
            Some(next) => RunAction::Initialize(next.generation),
            None => RunAction::Wait { poll_at: self.next_poll_at, retry_at: self.next_retry_at() },
        }
    }

    /// Takes in how the initialization of a generation ended: a failed one is
    /// queued again after the retry interval. Whether the generation is to be
    /// admitted and watched.
    pub fn settle_pending(
        &mut self,
        generation: ModelGeneration,
        outcome: InitializationAttemptOutcome,
        source: &ModelSource,
        now: u64,
    ) -> (ready: bool)
        ensures
            final(self).live() == old(self).live(),
            final(self).next_generation() == old(self).next_generation(),
            final(self).next_poll_at() == old(self).next_poll_at(),
            ready == (outcome is Ready),
            final(self).pending() == (if outcome is Failed {
                old(self).pending().push(
                    PendingView {
                        generation: generation@,
                        retry_at: crate::queue_admission::saturating_sum(now, retry_interval_of(*source)),
                    },
                )
            } else {
                old(self).pending()
            }),
    {
        match outcome {
            InitializationAttemptOutcome::Ready => true,
            InitializationAttemptOutcome::Failed(_) => {
                let ghost before = self.pending();
                let retry_at: u64 = now.saturating_add(retry_interval(source));
                self.pending.push(PendingInitialization { generation, retry_at });
                assert(self.pending() =~= before.push(PendingView { generation: generation@, retry_at }));
                false
            },
            _ => false,
        }
    }

    /// Notes that a canary watches a live generation, where canaries are
    /// enabled. Whether one is to be started.
    pub fn start_canary(&mut self, generation: &ModelGeneration, enabled: bool) -> (start: Result<
        bool,
        ModelLifecycleError,
    >)
        requires
            old(self).wf(),
        ensures
            final(self).wf(),
            final(self).same_queue(old(self)),
            match start {
                Ok(start) => {
                    &&& start == enabled
                    &&& live_generation(old(self).live(), generation@)
                    &&& final(self).live() == old(self).live().insert(
                        generation@.model_id,
                        LiveModelView { generation: generation@, canary: enabled },
                    )
                },
                Err(error) => {
                    &&& error is StaleGeneration
                    &&& !live_generation(old(self).live(), generation@)
                    &&& final(self).live() == old(self).live()
                },
            },
    {
        if !self.is_current(generation) {
            return Err(ModelLifecycleError::StaleGeneration);
        }
        self.live.insert(
            generation.model_id.clone(),
            LiveModelGeneration { generation: generation.clone(), canary: enabled },
        );
        Ok(enabled)
    }

    /// The live and published generations that no canary watches yet, once
    /// each and in ascending order.
    pub fn unwatched(&self, runtime: &PylonRuntimeState) -> (generations: Vec<ModelGeneration>)
        requires
            self.wf(),
        ensures
            crate::keyed::ascending::<ModelGeneration>(crate::keyed::views(generations@)),
            forall|generation: GenerationId| #[trigger]
                crate::keyed::views(generations@).contains(generation) <==> is_unwatched(
                    self.live(),
                    runtime.models(),
                    generation,
                ),
    {
        let len: usize = self.live.len();
        let ghost order = self.live.order();
        let mut generations: Vec<ModelGeneration> = Vec::new();
        let mut i: usize = 0;
        while i < len
            invariant
                i <= len == order.len(),
                order == self.live.order(),
                order.to_set() == self.live@.dom(),
                self.wf(),
                crate::keyed::ascending::<String>(order),
                crate::keyed::ascending::<ModelGeneration>(crate::keyed::views(generations@)),
                forall|generation: GenerationId| #[trigger]
                    crate::keyed::views(generations@).contains(generation) <==> exists|j: int| 0 <= j < i
                        && listed_unwatched(self.live@, runtime.models(), #[trigger] order[j], generation),
            decreases len - i,
        {
            let model = self.live.value_at(i);
            let id = self.live.key_at(i);
            let ghost before = crate::keyed::views(generations@);
            let chosen = !model.canary && runtime.generation_is_published(&model.generation);
            if chosen {
                generations.push(model.generation.clone());
            }
            proof {
                let now = crate::keyed::views(generations@);
                if chosen {
                    assert(now =~= before.push(model.generation@));
                    assert(self.live().contains_key(order[i as int]));
                    assert forall|k: int| 0 <= k < before.len() implies crate::generation::generation_before(
                        #[trigger] before[k],
                        model.generation@,
                    ) by {
                        assert(before.contains(before[k]));
                        let j = choose|j: int| 0 <= j < i && listed_unwatched(
                            self.live@,
                            runtime.models(),
                            #[trigger] order[j],
                            before[k],
                        );
                        assert(self.live().contains_key(order[j]));
                        assert(crate::text::text_before(order[j], order[i as int]));
                    }
                }
                assert forall|generation: GenerationId| #[trigger]
                    now.contains(generation) <==> exists|j: int| 0 <= j < i + 1 && listed_unwatched(
                        self.live@,
                        runtime.models(),
                        #[trigger] order[j],
                        generation,
                    ) by {
                    if now.contains(generation) {
                        let k = choose|k: int| 0 <= k < now.len() && now[k] == generation;
                        if k < before.len() {
                            assert(before[k] == generation);
                            assert(before.contains(generation));
                        } else {
                            assert(listed_unwatched(self.live@, runtime.models(), order[i as int], generation));
                        }
                    }
                    if exists|j: int| 0 <= j < i + 1 && listed_unwatched(
                        self.live@,
                        runtime.models(),
                        #[trigger] order[j],
                        generation,
                    ) {
                        let j = choose|j: int| 0 <= j < i + 1 && listed_unwatched(
                            self.live@,
                            runtime.models(),
                            #[trigger] order[j],
                            generation,
                        );
                        if j < i {
                            assert(before.contains(generation));
                            let k = choose|k: int| 0 <= k < before.len() && before[k] == generation;
                            assert(now[k] == generation);
                        } else {
                            assert(chosen);
                            assert(now[before.len() as int] == generation);
                        }
                    }
                }
            }
            i += 1;
        }
        proof {
            assert forall|generation: GenerationId| #[trigger]
                crate::keyed::views(generations@).contains(generation) <==> is_unwatched(
                    self.live(),
                    runtime.models(),
                    generation,
                ) by {
                if is_unwatched(self.live(), runtime.models(), generation) {
                    let id = choose|id: Seq<char>| listed_unwatched(self.live(), runtime.models(), id, generation);
                    assert(order.to_set().contains(id));
                    let j = choose|j: int| 0 <= j < order.len() && order[j] == id;
                    assert(listed_unwatched(self.live@, runtime.models(), order[j], generation));
                }
            }
        }
        generations
    }
}

pub open spec fn listed_unwatched(
    live: LiveModels,
    models: crate::runtime_state::Models,
    id: Seq<char>,
    generation: GenerationId,
) -> bool {
    &&& live.contains_key(id)
    &&& live[id] == (LiveModelView { generation, canary: false })
    &&& crate::runtime_state::current(models, generation)
    &&& models[generation.model_id].publication is Admitted
}

/// The generation is live and published, and no canary watches it.
pub open spec fn is_unwatched(
    live: LiveModels,
    models: crate::runtime_state::Models,
    generation: GenerationId,
) -> bool {
    exists|id: Seq<char>| listed_unwatched(live, models, id, generation)
}

pub open spec fn retry_interval_of(source: ModelSource) -> u64 {
    match source {
        ModelSource::Static(_) => STATIC_RETRY_INTERVAL,
        ModelSource::Discovered(discovery) => discovery.poll_interval,
    }
}

/// How long after a failed attempt the next one is made.
pub fn retry_interval(source: &ModelSource) -> (interval: u64)
    ensures
        interval == retry_interval_of(*source),
{
    match source {
        ModelSource::Static(_) => STATIC_RETRY_INTERVAL,
        ModelSource::Discovered(discovery) => discovery.poll_interval,
    }
}

/// How a calibration attempt ended.
#[derive(Clone, Copy, Debug, PartialEq, Eq, Structural)]
pub enum CalibrationOutcome {
    Completed,
    Error,
    Cancelled,
}

/// The clock of one calibration attempt. Its duration is reported once: when
/// the attempt ends, or as cancelled when it is dropped before.
#[derive(Clone, Copy, Debug, PartialEq, Eq, Structural)]
pub struct CalibrationAttemptTimer {
    pub started_at: u64,
    pub running: bool,
}

impl CalibrationAttemptTimer {
    pub fn start(now: u64) -> (timer: Self)
        ensures
            timer.started_at == now,
            timer.running,
    {
        CalibrationAttemptTimer { started_at: now, running: true }
    }

    /// What is to be reported: the outcome and the time it took.
    pub fn record(&mut self, outcome: CalibrationOutcome, now: u64) -> (report: Option<(CalibrationOutcome, u64)>)
        ensures
            final(self).started_at == old(self).started_at,
            !final(self).running,
            report == (if old(self).running {
                Some(
                    (
                        outcome,
                        if now < old(self).started_at {
                            0
                        } else {
                            (now - old(self).started_at) as u64
                        },
                    ),
                )
            } else {
                None
            }),
    {
        if !self.running {
            return None;
        }
        self.running = false;
        Some((outcome, now.saturating_sub(self.started_at)))
    }

    /// The attempt has ended.
    pub fn finish(&mut self, completed: bool, now: u64) -> (report: Option<(CalibrationOutcome, u64)>)
        ensures
            !final(self).running,
            report is Some <==> old(self).running,
            report matches Some((outcome, elapsed)) ==> {
                &&& outcome == (if completed {
                    CalibrationOutcome::Completed
                } else {
                    CalibrationOutcome::Error
                })
                &&& elapsed == (if now < old(self).started_at {
                    0
                } else {
                    now - old(self).started_at
                })
            },
    {
        self.record(
            if completed {
                CalibrationOutcome::Completed
            } else {
                CalibrationOutcome::Error
            },
            now,
        )
    }
}

/// What an attempt to initialize a generation has to do, in this order: probe
/// the upstream within the timeout, then calibrate.
#[derive(Clone, Copy, Debug, PartialEq, Eq, Structural)]
pub struct InitializationPlan {
    pub probe_timeout: Option<u64>,
    pub calibration: Option<CalibrationConfig>,
}

pub fn initialization_plan(config: &ModelLifecycleConfig) -> (plan: InitializationPlan)
    ensures
        plan.probe_timeout == probe_timeout(config.initialization, config.bringup),
        plan.calibration == (match config.initialization {
            ModelInitialization::Calibration(calibration) => Some(calibration),
            _ => None,
        }),
{
    InitializationPlan {
        probe_timeout: health_probe_timeout(config),
        calibration: match config.initialization {
            ModelInitialization::Calibration(calibration) => Some(calibration),
            _ => None,
        },
    }
}

/// What startup does with the outcome of an initialization.
#[derive(Debug)]
pub enum StartupAction {
    Admit,
    Skip,
    Abort(ModelLifecycleError),
}

/// At startup a failed model ends the whole lifecycle. Nothing cancels startup.
pub fn startup_action(outcome: InitializationAttemptOutcome) -> (action: StartupAction)
    requires
        !(outcome is Cancelled),
    ensures
        match outcome {
            InitializationAttemptOutcome::Ready => action is Admit,
            InitializationAttemptOutcome::Failed(error) => action == StartupAction::Abort(error),
            _ => action is Skip,
        },
{
    match outcome {
        InitializationAttemptOutcome::Ready => StartupAction::Admit,
        InitializationAttemptOutcome::Failed(error) => StartupAction::Abort(error),
        _ => StartupAction::Skip,
    }
}

} // verus!
