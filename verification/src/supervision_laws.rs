//! What the supervisor of the models does, call by call.

use vstd::prelude::*;

use crate::binary64::Binary64;
use crate::generation::{GenerationId, ModelGeneration};
use crate::keyed::SortedSet;
use crate::model_lifecycle::{
    abort_startup, admit_generation, discovery_poll_outcome, earliest_pending_index, health_probe_timeout,
    initialization_plan, retry_interval, startup_action, stats_initialization, CalibrationAttemptTimer,
    CalibrationOutcome, DriveAction, DriveEvent, InitializationAttemptOutcome, InitializationDrive, InitializationPlan,
    ModelDiscoveryConfig, ModelInitialization, ModelLifecycleConfig, ModelLifecycleError, ModelLifecycleSupervisor,
    ModelSource, ModelStatsInitialization, PendingInitialization, ReconcileAction, ReconcileEvent, Reconciliation,
    RunAction, StartupAction, StartupHealthStep, StartupHealthWait, StatsFlush,
};
use crate::runtime_state::{ModelPublication, PylonRuntimeState};

verus! {

/// The statistics of a generation start with exactly the rate and the pin that
/// are configured, pinned or not, and start empty only where the model is to be
/// calibrated or stays uncalibrated.
pub proof fn law_statistics_start_with_the_configured_rate(
    initialization: ModelInitialization,
    start: ModelStatsInitialization,
    input_tps: Binary64,
    pin: bool,
)
    requires
        call_ensures(stats_initialization, (&initialization,), start),
    ensures
        initialization == (ModelInitialization::ConfiguredInputTps { input_tps, pin }) <==> start == (
        ModelStatsInitialization::ConfiguredInputTps { input_tps, pin }),
        start is Empty <==> initialization is Calibration || initialization is Uncalibrated,
{
}

/// A model that comes in is a wanted one that is not live, in a generation whose
/// number was never used, and its statistics start with the configured rate. It
/// is served unpublished from then on.
pub proof fn law_wanted_models_come_in_as_configured(
    supervisor: &mut ModelLifecycleSupervisor,
    runtime: &mut PylonRuntimeState,
    reconciliation: &mut Reconciliation,
    event: ReconcileEvent,
    initialization: ModelInitialization,
    now: u64,
    generation: ModelGeneration,
    start: ModelStatsInitialization,
    input_tps: Binary64,
    pin: bool,
)
    requires
        supervisor.wf(),
        runtime.wf(),
        supervisor.serves(&*runtime),
        reconciliation.expects(event),
        reconciliation.fits(&*supervisor, &*runtime),
        call_ensures(
            ModelLifecycleSupervisor::step,
            (supervisor, runtime, reconciliation, event, &initialization, now),
            ReconcileAction::BeginStats { generation, initialization: start },
        ),
    ensures
        old(reconciliation).desired().contains(generation.model_id@),
        !final(supervisor).live().contains_key(generation.model_id@),
        generation.sequence == old(supervisor).next_generation(),
        final(supervisor).next_generation() == generation.sequence + 1,
        initialization == (ModelInitialization::ConfiguredInputTps { input_tps, pin }) <==> start == (
        ModelStatsInitialization::ConfiguredInputTps { input_tps, pin }),
        start is Empty <==> !(initialization is ConfiguredInputTps),
        !old(runtime).models().contains_key(generation.model_id@),
        final(runtime).models().contains_key(generation.model_id@),
        final(runtime).models()[generation.model_id@].generation == generation.sequence,
        final(runtime).models()[generation.model_id@].publication is Pending,
        forall|id: Seq<char>| #[trigger]
            final(supervisor).live().contains_key(id) ==> old(reconciliation).desired().contains(id),
        forall|id: Seq<char>|
            id != generation.model_id@ && #[trigger] old(runtime).models().contains_key(id)
                ==> final(runtime).models().contains_key(id) && final(runtime).models()[id]
                == old(runtime).models()[id],
        final(runtime).requests() == old(runtime).requests(),
        final(runtime).requires_admitted(),
        final(runtime).base_status() == old(runtime).base_status(),
        forall|any: crate::generation::GenerationId| #[trigger]
            final(runtime).throughput(any) == old(runtime).throughput(any),
{
}

/// A step fails where the statistics have stopped, where they did not take the
/// generation, and where no generation can begin: the numbers are used up or the
/// model is served already.
pub proof fn law_failed_steps_say_why(
    supervisor: &mut ModelLifecycleSupervisor,
    runtime: &mut PylonRuntimeState,
    reconciliation: &mut Reconciliation,
    event: ReconcileEvent,
    initialization: ModelInitialization,
    now: u64,
    action: ReconcileAction,
)
    requires
        supervisor.wf(),
        runtime.wf(),
        supervisor.serves(&*runtime),
        reconciliation.expects(event),
        reconciliation.fits(&*supervisor, &*runtime),
        call_ensures(
            ModelLifecycleSupervisor::step,
            (supervisor, runtime, reconciliation, event, &initialization, now),
            action,
        ),
    ensures
        event is StatsStopped || event == ReconcileEvent::StatsBegan(false) ==> action is Failed,
        action matches ReconcileAction::Failed(error) ==> {
            &&& event is StatsStopped ==> error is StatsCollectorStopped && final(runtime).models() == old(
                runtime
            ).models()
            &&& event == ReconcileEvent::StatsBegan(false) ==> error is StaleGeneration
            &&& !(event is StatsStopped) && event != ReconcileEvent::StatsBegan(false) ==> {
                &&& error is GenerationCounterExhausted <==> old(supervisor).next_generation() == u64::MAX
                &&& error is GenerationCounterExhausted || error is StaleGeneration
                &&& final(runtime).models() == old(runtime).models()
            }
        },
{
}

/// A model that goes is a live one that is not wanted. Its canary is stopped
/// before it is served no more; it is live and pending no more at once. Its last
/// statistics come with it.
pub proof fn law_unwanted_models_go(
    supervisor: &mut ModelLifecycleSupervisor,
    runtime: &mut PylonRuntimeState,
    reconciliation: &mut Reconciliation,
    event: ReconcileEvent,
    initialization: ModelInitialization,
    now: u64,
    action: ReconcileAction,
    any: int,
)
    requires
        supervisor.wf(),
        runtime.wf(),
        supervisor.serves(&*runtime),
        reconciliation.expects(event),
        reconciliation.fits(&*supervisor, &*runtime),
        call_ensures(
            ModelLifecycleSupervisor::step,
            (supervisor, runtime, reconciliation, event, &initialization, now),
            action,
        ),
    ensures
        action matches ReconcileAction::StopCanary(generation) ==> {
            &&& !old(reconciliation).desired().contains(generation.model_id@)
            &&& !final(supervisor).live().contains_key(generation.model_id@)
            &&& 0 <= any < final(supervisor).pending().len() ==> final(supervisor).pending()[any].generation
                != generation@
            &&& final(runtime).models() == old(runtime).models()
            &&& final(runtime).models().contains_key(generation.model_id@)
            &&& final(runtime).models()[generation.model_id@].generation == generation.sequence
            &&& final(runtime).requests() == old(runtime).requests()
        },
        action matches ReconcileAction::RetireStats { generation, stats } ==> {
            &&& !old(reconciliation).desired().contains(generation.model_id@)
            &&& !final(supervisor).live().contains_key(generation.model_id@)
            &&& event is CanaryStopped || (0 <= any < final(supervisor).pending().len()
                ==> final(supervisor).pending()[any].generation != generation@)
            &&& old(runtime).models().contains_key(generation.model_id@)
            &&& old(runtime).models()[generation.model_id@].generation == generation.sequence
            &&& !final(runtime).models().contains_key(generation.model_id@)
            &&& stats is Some && stats->0@ == old(runtime).models()[generation.model_id@].stats
            &&& forall|id: Seq<char>|
                id != generation.model_id@ && #[trigger] old(runtime).models().contains_key(id)
                    ==> final(runtime).models().contains_key(id) && final(runtime).models()[id]
                    == old(runtime).models()[id]
            &&& forall|id: Seq<char>| #[trigger]
                final(runtime).requests().contains_key(id) ==> {
                    let request = final(runtime).requests()[id];
                    &&& old(runtime).requests().contains_key(id)
                    &&& request.queue == old(runtime).requests()[id].queue
                    &&& request.observed == old(runtime).requests()[id].observed
                    &&& request.queue is Some ==> request.queue->0.generation != generation@
                    &&& request.queue is None ==> request.observed->0.generation != generation@
                }
            &&& forall|id: Seq<char>|
                #[trigger] old(runtime).requests().contains_key(id) && old(runtime).requests()[id].generation()
                    != generation@ ==> final(runtime).requests().contains_key(id)
            &&& final(runtime).throughput(generation@) is None
            &&& final(runtime).requires_admitted() == old(runtime).requires_admitted()
        },
        event is CanaryStopped ==> action is RetireStats,
{
    let waiting = old(reconciliation).waiting();
    let pending = crate::model_lifecycle::pending_after(old(supervisor).pending(), waiting, event, now);
    if let ReconcileAction::StopCanary(generation) = action {
        lemma_without(pending, generation@, any);
    }
    if let ReconcileAction::RetireStats { generation, stats } = action {
        lemma_without(pending, generation@, any);
    }
}

proof fn lemma_without(pending: Seq<crate::model_lifecycle::PendingView>, generation: GenerationId, any: int)
    ensures
        ({
            let rest = crate::model_lifecycle::without_generation(pending, generation);
            0 <= any < rest.len() ==> rest[any].generation != generation
        }),
{
    broadcast use vstd::seq_lib::group_filter_ensures;

    let keep = |entry: crate::model_lifecycle::PendingView| entry.generation != generation;
    let rest = pending.filter(keep);
    if 0 <= any < rest.len() {
        assert(keep(rest[any]));
    }
}

/// No step touches a live model that is wanted, and the reconciliation ends
/// exactly where the live models are the wanted ones.
pub proof fn law_wanted_models_stay(
    supervisor: &mut ModelLifecycleSupervisor,
    runtime: &mut PylonRuntimeState,
    reconciliation: &mut Reconciliation,
    event: ReconcileEvent,
    initialization: ModelInitialization,
    now: u64,
    action: ReconcileAction,
    id: Seq<char>,
)
    requires
        supervisor.wf(),
        runtime.wf(),
        supervisor.serves(&*runtime),
        reconciliation.expects(event),
        reconciliation.fits(&*supervisor, &*runtime),
        call_ensures(
            ModelLifecycleSupervisor::step,
            (supervisor, runtime, reconciliation, event, &initialization, now),
            action,
        ),
    ensures
        old(supervisor).live().contains_key(id) && old(reconciliation).desired().contains(id) ==> {
            &&& final(supervisor).live().contains_key(id)
            &&& final(supervisor).live()[id] == old(supervisor).live()[id]
            &&& final(runtime).models().contains_key(id)
            &&& final(runtime).models()[id].generation == old(supervisor).live()[id].generation.sequence
        },
        final(supervisor).live().contains_key(id) && !old(supervisor).live().contains_key(id) ==> {
            &&& event == ReconcileEvent::StatsBegan(true)
            &&& !final(supervisor).live()[id].canary
        },
        action is Finished ==> (final(supervisor).live().contains_key(id) <==> old(reconciliation).desired().contains(id)),
        event is StatsStopped ==> action is Failed,
        event == ReconcileEvent::StatsBegan(false) ==> action is Failed,
        event is StatsStopped ==> action == ReconcileAction::Failed(ModelLifecycleError::StatsCollectorStopped),
        event == ReconcileEvent::StatsBegan(false) ==> action == ReconcileAction::Failed(
            ModelLifecycleError::StaleGeneration,
        ),
        action is Failed && !(event is StatsStopped) && event != ReconcileEvent::StatsBegan(false) ==> {
            &&& old(supervisor).next_generation() == u64::MAX <==> action == ReconcileAction::Failed(
                ModelLifecycleError::GenerationCounterExhausted,
            )
            &&& old(supervisor).next_generation() < u64::MAX <==> action == ReconcileAction::Failed(
                ModelLifecycleError::StaleGeneration,
            )
        },
        final(reconciliation).desired() == old(reconciliation).desired(),
        final(supervisor).next_poll_at() == old(supervisor).next_poll_at(),
{
    if old(supervisor).live().contains_key(id) {
        assert(crate::runtime_state::current(old(runtime).models(), old(supervisor).live()[id].generation));
    }
    if final(supervisor).live().contains_key(id) {
        assert(crate::runtime_state::current(final(runtime).models(), final(supervisor).live()[id].generation));
    }
}

/// A generation that the statistics took in is live, watched by no canary, and
/// queued to be initialized at once, behind those that were queued before.
pub proof fn law_generation_taken_in_is_queued(
    supervisor: &mut ModelLifecycleSupervisor,
    runtime: &mut PylonRuntimeState,
    reconciliation: &mut Reconciliation,
    initialization: ModelInitialization,
    now: u64,
    action: ReconcileAction,
    awaited: ModelGeneration,
)
    requires
        supervisor.wf(),
        runtime.wf(),
        supervisor.serves(&*runtime),
        reconciliation.waiting() == crate::model_lifecycle::ReconcileWait::StatsBegin(awaited),
        reconciliation.fits(&*supervisor, &*runtime),
        call_ensures(
            ModelLifecycleSupervisor::step,
            (supervisor, runtime, reconciliation, ReconcileEvent::StatsBegan(true), &initialization, now),
            action,
        ),
        action is BeginStats || action is Finished,
    ensures
        final(supervisor).live().contains_key(awaited.model_id@),
        final(supervisor).live()[awaited.model_id@].generation == awaited@,
        !final(supervisor).live()[awaited.model_id@].canary,
        final(supervisor).pending().len() == old(supervisor).pending().len() + 1,
        final(supervisor).pending().drop_last() == old(supervisor).pending(),
        final(supervisor).pending().last().generation == awaited@,
        final(supervisor).pending().last().retry_at == now,
{
    assert(final(supervisor).pending().drop_last() =~= old(supervisor).pending());
}

/// A new supervisor has no models and hands out the numbers from one on; where
/// models are discovered, the first poll is one interval away.
pub proof fn law_supervisor_starts_without_models(
    source: ModelSource,
    now: u64,
    supervisor: ModelLifecycleSupervisor,
    poll: Option<u64>,
    id: Seq<char>,
    interval: u64,
)
    requires
        call_ensures(ModelLifecycleSupervisor::new, (&source, now), supervisor),
        call_ensures(ModelLifecycleSupervisor::next_discovery_poll_at, (&supervisor,), poll),
        call_ensures(retry_interval, (&source,), interval),
    ensures
        !supervisor.live().contains_key(id),
        supervisor.pending().len() == 0,
        supervisor.next_generation() == 1,
        source is Static ==> poll is None && interval == 1_000_000_000,
        source matches ModelSource::Discovered(discovery) ==> {
            &&& poll is Some
            &&& now + discovery.poll_interval <= u64::MAX ==> poll->0 == now + discovery.poll_interval
            &&& now + discovery.poll_interval > u64::MAX ==> poll->0 == u64::MAX
            &&& interval == discovery.poll_interval
        },
{
}

/// A poll that found models is answered with them and one that failed with
/// nothing; either way the next one is an interval away and no model is touched.
pub proof fn law_failed_poll_keeps_the_models(
    supervisor: &mut ModelLifecycleSupervisor,
    discovery: ModelDiscoveryConfig,
    result: Result<SortedSet<String>, String>,
    now: u64,
    desired: Option<SortedSet<String>>,
    outcome: (&'static str, Option<usize>),
)
    requires
        call_ensures(ModelLifecycleSupervisor::record_discovery_poll, (supervisor, &discovery, result, now), desired),
        call_ensures(discovery_poll_outcome, (&result,), outcome),
    ensures
        desired is Some <==> result is Ok,
        result matches Ok(found) ==> desired->0@ == found@ && outcome.0@ == "success"@ && outcome.1 is Some
            && outcome.1->0 == found@.len(),
        result is Err ==> outcome.0@ == "error"@ && outcome.1 is None,
        final(supervisor).next_poll_at() is Some,
        now + discovery.poll_interval <= u64::MAX ==> final(supervisor).next_poll_at()->0 == now
            + discovery.poll_interval,
        now + discovery.poll_interval > u64::MAX ==> final(supervisor).next_poll_at()->0 == u64::MAX,
        final(supervisor).live() == old(supervisor).live(),
        final(supervisor).pending() == old(supervisor).pending(),
{
}

/// The generation whose turn it is has waited for the earliest moment, and of
/// those with the same moment it was queued first. It is taken out of the queue
/// alone, and at run time only once it is due.
pub proof fn law_pending_generations_take_turns(
    supervisor: &mut ModelLifecycleSupervisor,
    next: Option<PendingInitialization>,
    waiting: &mut ModelLifecycleSupervisor,
    now: u64,
    ready: Option<PendingInitialization>,
    i: int,
)
    requires
        call_ensures(ModelLifecycleSupervisor::pop_next_pending, (supervisor,), next),
        call_ensures(ModelLifecycleSupervisor::pop_ready_pending, (waiting, now), ready),
    ensures
        next is Some <==> old(supervisor).pending().len() > 0,
        next matches Some(next) ==> {
            &&& 0 <= i < old(supervisor).pending().len() ==> next.retry_at <= old(supervisor).pending()[i].retry_at
            &&& final(supervisor).pending().len() + 1 == old(supervisor).pending().len()
            &&& exists|place: int| #![auto]
                {
                    &&& 0 <= place < old(supervisor).pending().len()
                    &&& old(supervisor).pending()[place].generation == next.generation@
                    &&& old(supervisor).pending()[place].retry_at == next.retry_at
                    &&& 0 <= i < place ==> old(supervisor).pending()[i].retry_at > next.retry_at
                    &&& 0 <= i < place ==> final(supervisor).pending()[i] == old(supervisor).pending()[i]
                    &&& place < i < old(supervisor).pending().len() ==> final(supervisor).pending()[i - 1]
                        == old(supervisor).pending()[i]
                }
        },
        final(supervisor).live() == old(supervisor).live(),
        ready is None ==> final(waiting).pending() == old(waiting).pending() && (0 <= i < old(waiting).pending().len()
            ==> old(waiting).pending()[i].retry_at > now),
        ready matches Some(ready) ==> {
            &&& ready.retry_at <= now
            &&& 0 <= i < old(waiting).pending().len() ==> ready.retry_at <= old(waiting).pending()[i].retry_at
            &&& final(waiting).pending().len() + 1 == old(waiting).pending().len()
        },
        final(waiting).live() == old(waiting).live(),
{
    if let Some(next) = next {
        let place = choose|index: int| #[trigger]
            crate::model_lifecycle::is_earliest(old(supervisor).pending(), index) && next@
                == old(supervisor).pending()[index] && final(supervisor).pending()
                == old(supervisor).pending().remove(index);
        assert(crate::model_lifecycle::is_earliest(old(supervisor).pending(), place));
        assert(old(supervisor).pending()[place].generation == next.generation@);
    }
}

/// The earliest in a queue is found: nothing in the queue is due before it, and
/// nothing queued before it is due with it.
pub proof fn law_earliest_is_found(pending: &[PendingInitialization], index: Option<usize>, i: int)
    requires
        call_ensures(earliest_pending_index, (pending,), index),
    ensures
        index is None <==> pending@.len() == 0,
        index matches Some(index) ==> {
            &&& index < pending@.len()
            &&& 0 <= i < pending@.len() ==> pending@[index as int].retry_at <= pending@[i].retry_at
            &&& 0 <= i < index ==> pending@[index as int].retry_at < pending@[i].retry_at
        },
{
    let views = crate::keyed::views(pending@);
    assert(views.len() == pending@.len());
    if let Some(index) = index {
        assert(views[index as int] == pending@[index as int]@);
        if 0 <= i < pending@.len() {
            assert(views[i] == pending@[i]@);
        }
    }
}

/// The running supervisor leaves when it is stopped, initializes the generation
/// whose turn has come, and otherwise waits for the next poll or the earliest
/// turn.
pub proof fn law_supervisor_waits_for_the_earliest_turn(
    supervisor: &mut ModelLifecycleSupervisor,
    cancelled: bool,
    now: u64,
    action: RunAction,
    retry_at: Option<u64>,
    i: int,
)
    requires
        call_ensures(ModelLifecycleSupervisor::next_retry_at, (&*supervisor,), retry_at),
        call_ensures(ModelLifecycleSupervisor::run_action, (supervisor, cancelled, now), action),
    ensures
        action is Exit <==> cancelled,
        retry_at is None <==> old(supervisor).pending().len() == 0,
        retry_at matches Some(at) ==> 0 <= i < old(supervisor).pending().len()
            ==> at <= old(supervisor).pending()[i].retry_at,
        action is Initialize <==> !cancelled && retry_at is Some && retry_at->0 <= now,
        action matches RunAction::Initialize(generation) ==> {
            &&& final(supervisor).pending().len() + 1 == old(supervisor).pending().len()
            &&& exists|place: int| #![auto]
                0 <= place < old(supervisor).pending().len() && old(supervisor).pending()[place].generation
                    == generation@ && old(supervisor).pending()[place].retry_at == retry_at->0
        },
        action matches RunAction::Wait { poll_at, retry_at: told } ==> {
            &&& poll_at == old(supervisor).next_poll_at()
            &&& told == retry_at
            &&& final(supervisor).pending() == old(supervisor).pending()
        },
{
    if let Some(at) = retry_at {
        let i = choose|i: int|
            0 <= i < old(supervisor).pending().len() && (#[trigger] old(supervisor).pending()[i]).retry_at == at;
        assert(old(supervisor).pending()[i].retry_at == at);
    }
    if let RunAction::Initialize(generation) = action {
        let place = choose|index: int| #[trigger]
            crate::model_lifecycle::is_earliest(old(supervisor).pending(), index)
                && old(supervisor).pending()[index].generation == generation@
                && old(supervisor).pending()[index].retry_at <= now && final(supervisor).pending()
                == old(supervisor).pending().remove(index);
        assert(crate::model_lifecycle::is_earliest(old(supervisor).pending(), place));
    }
    if let RunAction::Wait { poll_at, retry_at: told } = action {
        if let Some(at) = told {
            let j = choose|j: int|
                0 <= j < old(supervisor).pending().len() && (#[trigger] old(supervisor).pending()[j]).retry_at == at;
            assert(old(supervisor).pending()[j].retry_at == at);
        }
    }
}

/// A failed generation is tried again after the interval of its source, behind
/// the others; one that is ready is admitted; any other leaves the queue as it
/// is.
pub proof fn law_failed_generation_is_tried_again(
    supervisor: &mut ModelLifecycleSupervisor,
    generation: ModelGeneration,
    outcome: InitializationAttemptOutcome,
    source: ModelSource,
    now: u64,
    ready: bool,
    interval: u64,
)
    requires
        call_ensures(ModelLifecycleSupervisor::settle_pending, (supervisor, generation, outcome, &source, now), ready),
        call_ensures(retry_interval, (&source,), interval),
    ensures
        ready <==> outcome is Ready,
        !(outcome is Failed) ==> final(supervisor).pending() == old(supervisor).pending(),
        outcome is Failed ==> {
            &&& final(supervisor).pending().len() == old(supervisor).pending().len() + 1
            &&& final(supervisor).pending().drop_last() == old(supervisor).pending()
            &&& final(supervisor).pending().last().generation == generation@
            &&& now + interval <= u64::MAX ==> final(supervisor).pending().last().retry_at == now + interval
            &&& now + interval > u64::MAX ==> final(supervisor).pending().last().retry_at == u64::MAX
        },
        final(supervisor).live() == old(supervisor).live(),
{
    if outcome is Failed {
        assert(final(supervisor).pending().drop_last() =~= old(supervisor).pending());
    }
}

/// A canary watches a generation only where it is live and canaries are on.
pub proof fn law_canaries_watch_live_generations(
    supervisor: &mut ModelLifecycleSupervisor,
    generation: ModelGeneration,
    enabled: bool,
    start: Result<bool, ModelLifecycleError>,
    current: bool,
    id: Seq<char>,
)
    requires
        supervisor.wf(),
        call_ensures(ModelLifecycleSupervisor::is_current, (&*supervisor, &generation), current),
        call_ensures(ModelLifecycleSupervisor::start_canary, (supervisor, &generation, enabled), start),
    ensures
        current <==> old(supervisor).live().contains_key(generation.model_id@)
            && old(supervisor).live()[generation.model_id@].generation == generation@,
        start is Ok <==> current,
        start matches Ok(start) ==> {
            &&& start == enabled
            &&& final(supervisor).live().contains_key(generation.model_id@)
            &&& final(supervisor).live()[generation.model_id@].generation == generation@
            &&& final(supervisor).live()[generation.model_id@].canary == enabled
        },
        start matches Err(error) ==> error is StaleGeneration && final(supervisor).live() == old(supervisor).live(),
        id != generation.model_id@ ==> {
            &&& final(supervisor).live().contains_key(id) == old(supervisor).live().contains_key(id)
            &&& old(supervisor).live().contains_key(id) ==> final(supervisor).live()[id] == old(supervisor).live()[id]
        },
        final(supervisor).pending() == old(supervisor).pending(),
{
}

/// The generations that still want a canary are the live ones that are served
/// and published and have none.
pub proof fn law_unwatched_generations_are_live_and_published(
    supervisor: ModelLifecycleSupervisor,
    runtime: PylonRuntimeState,
    generations: Vec<ModelGeneration>,
    generation: GenerationId,
)
    requires
        supervisor.wf(),
        call_ensures(ModelLifecycleSupervisor::unwatched, (&supervisor, &runtime), generations),
    ensures
        crate::keyed::views(generations@).no_duplicates(),
        crate::keyed::views(generations@).contains(generation) <==> {
            &&& supervisor.live().contains_key(generation.model_id)
            &&& supervisor.live()[generation.model_id].generation == generation
            &&& !supervisor.live()[generation.model_id].canary
            &&& runtime.models().contains_key(generation.model_id)
            &&& runtime.models()[generation.model_id].generation == generation.sequence
            &&& runtime.models()[generation.model_id].publication is Admitted
        },
{
    crate::keyed::lemma_ascending_distinct::<ModelGeneration>(crate::keyed::views(generations@));
    if crate::model_lifecycle::is_unwatched(supervisor.live(), runtime.models(), generation) {
        let id = choose|id: Seq<char>|
            crate::model_lifecycle::listed_unwatched(supervisor.live(), runtime.models(), id, generation);
        assert(supervisor.live()[id].generation.model_id == id);
    }
    let id = generation.model_id;
    if supervisor.live().contains_key(id) && supervisor.live()[id].generation == generation
        && !supervisor.live()[id].canary && crate::runtime_state::current(runtime.models(), generation)
        && runtime.models()[id].publication is Admitted {
        assert(crate::model_lifecycle::listed_unwatched(supervisor.live(), runtime.models(), id, generation));
    }
}

/// A generation is admitted exactly where its statistics were flushed and it is
/// still served; it is published as brought up then, and nothing changes
/// otherwise.
pub proof fn law_generation_is_admitted_once_flushed(
    runtime: &mut PylonRuntimeState,
    generation: ModelGeneration,
    flush: StatsFlush,
    result: Result<(), ModelLifecycleError>,
    id: Seq<char>,
)
    requires
        runtime.wf(),
        call_ensures(admit_generation, (runtime, &generation, flush), result),
    ensures
        ({
            let served = old(runtime).models().contains_key(generation.model_id@)
                && old(runtime).models()[generation.model_id@].generation == generation.sequence;
            &&& result is Ok <==> flush is Flushed && served
            &&& result is Err ==> final(runtime).models() == old(runtime).models()
            &&& result is Ok ==> {
                &&& final(runtime).models()[generation.model_id@].publication == (ModelPublication::Admitted {
                    bringup_ready: true,
                })
                &&& final(runtime).models()[generation.model_id@].generation == generation.sequence
                &&& final(runtime).models()[generation.model_id@].stats
                    == old(runtime).models()[generation.model_id@].stats
                &&& id != generation.model_id@ && old(runtime).models().contains_key(id)
                    ==> final(runtime).models().contains_key(id) && final(runtime).models()[id]
                    == old(runtime).models()[id]
            }
            &&& flush is Stopped ==> result == Err::<(), ModelLifecycleError>(
                ModelLifecycleError::StatsCollectorStopped,
            )
            &&& result is Err && !(flush is Stopped) ==> result == Err::<(), ModelLifecycleError>(
                ModelLifecycleError::StaleGeneration,
            )
            &&& final(runtime).requests() == old(runtime).requests()
        }),
{
}

/// The upstream is probed for its health where models are calibrated, within the
/// time of the calibration, and otherwise only where bring-up is on, within the
/// time of the canary. Only a calibration calibrates.
pub proof fn law_probe_is_planned_as_configured(
    config: ModelLifecycleConfig,
    timeout: Option<u64>,
    plan: InitializationPlan,
    now: u64,
    wait: Option<StartupHealthWait>,
)
    requires
        call_ensures(health_probe_timeout, (&config,), timeout),
        call_ensures(initialization_plan, (&config,), plan),
        call_ensures(StartupHealthWait::begin, (&config, now), wait),
    ensures
        config.initialization matches ModelInitialization::Calibration(calibration) ==> timeout == Some(
            calibration.health_timeout,
        ) && plan.calibration == Some(calibration),
        !(config.initialization is Calibration) ==> plan.calibration is None,
        !(config.initialization is Calibration) && config.bringup.enabled ==> timeout == Some(
            config.bringup.canary_timeout,
        ),
        !(config.initialization is Calibration) && !config.bringup.enabled ==> timeout is None,
        plan.probe_timeout == timeout,
        wait is Some <==> timeout is Some,
        wait matches Some(wait) ==> {
            &&& wait.timeout == timeout->0
            &&& !wait.reported
            &&& now + config.startup_health_wait <= u64::MAX ==> wait.deadline == now + config.startup_health_wait
            &&& now + config.startup_health_wait > u64::MAX ==> wait.deadline == u64::MAX
        },
{
}

/// The wait at startup ends with a healthy upstream or with the deadline, and
/// until then probes twice a second, telling the first failure apart.
pub proof fn law_startup_waits_until_the_deadline(
    wait: &mut StartupHealthWait,
    healthy: bool,
    now: u64,
    step: StartupHealthStep,
)
    requires
        call_ensures(StartupHealthWait::after_probe, (wait, healthy, now), step),
    ensures
        step is Healthy <==> healthy,
        step is Failed <==> !healthy && now >= old(wait).deadline,
        step is Retry <==> !healthy && now < old(wait).deadline,
        step matches StartupHealthStep::Retry { first, delay } ==> {
            &&& delay == 500_000_000
            &&& first <==> !old(wait).reported
            &&& final(wait).reported
        },
        step matches StartupHealthStep::Failed(error) ==> error == ModelLifecycleError::Bringup(
            crate::bringup::BringupError::UnhealthyUpstream,
        ),
        final(wait).deadline == old(wait).deadline,
        final(wait).timeout == old(wait).timeout,
{
}

/// A calibration attempt is reported once, with the time since it began.
pub proof fn law_attempt_is_reported_once(
    now: u64,
    started: CalibrationAttemptTimer,
    timer: &mut CalibrationAttemptTimer,
    completed: bool,
    end: u64,
    report: Option<(CalibrationOutcome, u64)>,
    again: &mut CalibrationAttemptTimer,
    outcome: CalibrationOutcome,
    later: u64,
    repeated: Option<(CalibrationOutcome, u64)>,
)
    requires
        call_ensures(CalibrationAttemptTimer::start, (now,), started),
        *timer == started,
        call_ensures(CalibrationAttemptTimer::finish, (timer, completed, end), report),
        *again == *final(timer),
        call_ensures(CalibrationAttemptTimer::record, (again, outcome, later), repeated),
    ensures
        report matches Some((how, took)) && {
            &&& completed <==> how is Completed
            &&& !completed <==> how is Error
            &&& now <= end ==> now + took == end
            &&& end < now ==> took == 0
        },
        repeated is None,
{
}

/// An attempt that is recorded while it runs is reported with its outcome.
pub proof fn law_running_attempt_is_reported(
    timer: &mut CalibrationAttemptTimer,
    outcome: CalibrationOutcome,
    now: u64,
    report: Option<(CalibrationOutcome, u64)>,
)
    requires
        call_ensures(CalibrationAttemptTimer::record, (timer, outcome, now), report),
    ensures
        report is Some <==> old(timer).running,
        report matches Some(report) ==> report.0 == outcome && (old(timer).started_at <= now ==> old(timer).started_at
            + report.1 == now) && (now < old(timer).started_at ==> report.1 == 0),
        !final(timer).running,
{
}

/// At startup a model that is ready is admitted, a failed one ends it, and one
/// that was retired is passed over. An aborted startup wants no model and fails
/// with what it was aborted for.
pub proof fn law_startup_fails_with_its_first_failure(
    outcome: InitializationAttemptOutcome,
    action: StartupAction,
    error: ModelLifecycleError,
    abort: (Reconciliation, ModelLifecycleError),
    id: Seq<char>,
)
    requires
        !(outcome is Cancelled),
        call_ensures(startup_action, (outcome,), action),
        call_ensures(abort_startup, (error,), abort),
    ensures
        action is Admit <==> outcome is Ready,
        action is Skip <==> outcome is Retired,
        action is Abort <==> outcome is Failed,
        outcome matches InitializationAttemptOutcome::Failed(error) ==> action == StartupAction::Abort(error),
        abort.1 == error,
        !abort.0.desired().contains(id),
        abort.0.expects(ReconcileEvent::Start),
{
}

/// While a generation is initialized, a poll that no longer wants it ends it at
/// once; polls that do are kept in their order until the attempt has ended, are
/// reconciled one by one, and the outcome of the attempt stands after the last.
pub proof fn law_initialization_ends_as_its_attempt(
    drive: &mut InitializationDrive,
    supervisor: ModelLifecycleSupervisor,
    event: DriveEvent,
    action: DriveAction,
)
    requires
        drive.expects(event),
        call_ensures(InitializationDrive::step, (drive, &supervisor, event), action),
        drive.stage() is Attempting,
    ensures
        event is Cancelled ==> action == DriveAction::Return(InitializationAttemptOutcome::Cancelled),
        event matches DriveEvent::Polled(found) ==> {
            &&& found is None ==> action is Wait && final(drive).deferred() == old(drive).deferred()
            &&& found matches Some(desired) ==> {
                let wanted = desired@.contains(old(drive).generation().model_id);
                &&& wanted ==> action is Wait && final(drive).deferred().len() > 0 && final(drive).deferred().last()
                    == desired@
                &&& wanted ==> final(drive).deferred() == old(drive).deferred() || final(drive).deferred().drop_last()
                    == old(drive).deferred()
                &&& !wanted ==> (action matches DriveAction::Reconcile(told) && told@ == desired@)
                &&& !wanted ==> final(drive).stage() is Leaving
            }
        },
        event matches DriveEvent::Attempted(error) ==> {
            &&& old(drive).deferred().len() == 0 && error is None ==> action == DriveAction::Return(
                InitializationAttemptOutcome::Ready,
            )
            &&& old(drive).deferred().len() == 0 && error is Some ==> action == DriveAction::Return(
                InitializationAttemptOutcome::Failed(error->0),
            )
            &&& old(drive).deferred().len() > 0 ==> (action matches DriveAction::Reconcile(told) && told@ == old(
                drive,
            ).deferred()[0])
            &&& old(drive).deferred().len() > 0 ==> final(drive).stage()
                == crate::model_lifecycle::DriveStage::Settling(error) && final(drive).deferred()
                    == old(drive).deferred().skip(1)
        },
        final(drive).generation() == old(drive).generation(),
{
    if let DriveEvent::Polled(Some(desired)) = event {
        if desired@.contains(old(drive).generation().model_id) {
            if !(old(drive).deferred().len() > 0 && old(drive).deferred().last() == desired@) {
                assert(final(drive).deferred().drop_last() =~= old(drive).deferred());
            }
        }
    }
    if let DriveEvent::Attempted(error) = event {
        if old(drive).deferred().len() > 0 {
            assert(old(drive).deferred().drop_first() =~= old(drive).deferred().skip(1));
        }
    }
}

/// After a reconciliation the generation is retired where it is live no more;
/// otherwise the next kept poll follows, and behind the last the outcome of the
/// attempt.
pub proof fn law_reconciled_initialization_goes_on(
    drive: &mut InitializationDrive,
    supervisor: ModelLifecycleSupervisor,
    action: DriveAction,
    error: Option<ModelLifecycleError>,
    current: bool,
    generation: ModelGeneration,
)
    requires
        drive.stage() is Leaving || drive.stage() == crate::model_lifecycle::DriveStage::Settling(error),
        generation@ == drive.generation(),
        call_ensures(ModelLifecycleSupervisor::is_current, (&supervisor, &generation), current),
        call_ensures(InitializationDrive::step, (drive, &supervisor, DriveEvent::Reconciled), action),
    ensures
        old(drive).stage() is Leaving || !current ==> action == DriveAction::Return(
            InitializationAttemptOutcome::Retired,
        ),
        old(drive).stage() is Settling && current && old(drive).deferred().len() > 0 ==> action is Reconcile
            && action->Reconcile_0@ == old(drive).deferred()[0],
        old(drive).stage() is Settling && current && old(drive).deferred().len() == 0 && error is None ==> action
            == DriveAction::Return(InitializationAttemptOutcome::Ready),
        old(drive).stage() is Settling && current && old(drive).deferred().len() == 0 && error is Some ==> action
            == DriveAction::Return(InitializationAttemptOutcome::Failed(error->0)),
{
}

/// The initialization of a generation starts only where it is live.
pub proof fn law_initialization_starts_with_a_live_generation(
    supervisor: ModelLifecycleSupervisor,
    generation: ModelGeneration,
    drive: Option<InitializationDrive>,
    current: bool,
)
    requires
        call_ensures(ModelLifecycleSupervisor::is_current, (&supervisor, &generation), current),
        call_ensures(InitializationDrive::begin, (&supervisor, &generation), drive),
    ensures
        drive is Some <==> current,
        drive matches Some(drive) ==> {
            &&& drive.generation() == generation@
            &&& drive.deferred().len() == 0
            &&& drive.stage() is Attempting
        },
{
}

/// What an error of the lifecycle says, and of what.
pub proof fn law_lifecycle_errors_say_what_failed(error: ModelLifecycleError, message: String)
    requires
        call_ensures(ModelLifecycleError::message, (&error,), message),
    ensures
        error matches ModelLifecycleError::Discovery(words) ==> message@ == "model discovery failed: "@ + words@,
        error matches ModelLifecycleError::Bringup(cause) ==> message@ == "model initialization failed: "@
            + cause.text(),
        error is StatsCollectorStopped ==> message@ == "stats collector stopped during model lifecycle transition"@,
        error is StaleGeneration ==> message@ == "model generation transition lost exact ownership"@,
        error is GenerationCounterExhausted ==> message@ == "model generation counter exhausted"@,
{
}

} // verus!
