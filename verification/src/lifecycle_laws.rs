//! What holds of the lifecycle of models over many steps.

use vstd::prelude::*;

use crate::generation::GenerationId;
use crate::model_lifecycle::{
    LiveModelView, LiveModels, ModelInitialization, ModelLifecycleSupervisor, PendingView, ReconcileAction,
    ReconcileEvent, ReconcileMoment, ReconcileWait,
};
use crate::model_stats::StatsView;
use crate::runtime_state::{ModelPublication, Models, RuntimeModelView};

verus! {

/// How many models are still to go or to come.
pub open spec fn distance(live: LiveModels, desired: Set<Seq<char>>) -> nat {
    live.dom().difference(desired).len() + desired.difference(live.dom()).len()
}

/// Retiring a model that is not wanted brings the live models one step closer to
/// the wanted ones.
pub proof fn law_retiring_comes_closer(live: LiveModels, desired: Set<Seq<char>>, id: Seq<char>)
    requires
        live.dom().finite(),
        desired.finite(),
        crate::model_lifecycle::first_unwanted(live, desired, id),
    ensures
        distance(live.remove(id), desired) + 1 == distance(live, desired),
{
    assert(live.remove(id).dom().difference(desired) =~= live.dom().difference(desired).remove(id));
    assert(desired.difference(live.remove(id).dom()) =~= desired.difference(live.dom()));
}

/// Taking a missing model in brings the live models one step closer to the
/// wanted ones.
pub proof fn law_bringing_in_comes_closer(
    live: LiveModels,
    desired: Set<Seq<char>>,
    id: Seq<char>,
    model: LiveModelView,
)
    requires
        live.dom().finite(),
        desired.finite(),
        crate::model_lifecycle::first_missing(live, desired, id),
    ensures
        distance(live.insert(id, model), desired) + 1 == distance(live, desired),
{
    assert(live.insert(id, model).dom().difference(desired) =~= live.dom().difference(desired));
    assert(desired.difference(live.insert(id, model).dom()) =~= desired.difference(live.dom()).remove(id));
}

/// Nothing is left to do exactly where the live models are the wanted ones.
pub proof fn law_reconciled_is_the_goal(live: LiveModels, desired: Set<Seq<char>>)
    requires
        live.dom().finite(),
        desired.finite(),
    ensures
        distance(live, desired) == 0 <==> live.dom() == desired,
{
    let gone = live.dom().difference(desired);
    let missing = desired.difference(live.dom());
    if live.dom() == desired {
        assert(gone =~= Set::empty());
        assert(missing =~= Set::empty());
    }
    if distance(live, desired) == 0 {
        assert forall|id: Seq<char>| live.dom().contains(id) == desired.contains(id) by {
            if live.dom().contains(id) && !desired.contains(id) {
                assert(gone.contains(id));
            }
            if desired.contains(id) && !live.dom().contains(id) {
                assert(missing.contains(id));
            }
        }
        assert(live.dom() =~= desired);
    }
}

/// A generation that is taken out of the queue is in it no more; the others
/// stay.
pub proof fn law_retired_generation_is_not_pending(
    pending: Seq<PendingView>,
    generation: GenerationId,
    entry: PendingView,
)
    ensures
        crate::model_lifecycle::without_generation(pending, generation).contains(entry) == (pending.contains(entry)
            && entry.generation != generation),
    decreases pending.len(),
{
    reveal(Seq::filter);
    let keep = |entry: PendingView| entry.generation != generation;
    let kept = crate::model_lifecycle::without_generation(pending, generation);
    if pending.len() > 0 {
        let rest = pending.drop_last();
        let last = pending.last();
        law_retired_generation_is_not_pending(rest, generation, entry);
        let before = crate::model_lifecycle::without_generation(rest, generation);
        assert(pending =~= rest.push(last));
        if keep(last) {
            assert(kept == before.push(last));
            assert(kept[kept.len() - 1] == last);
            if before.contains(entry) {
                let i = choose|i: int| 0 <= i < before.len() && before[i] == entry;
                assert(kept[i] == entry);
            }
        } else {
            assert(kept == before);
        }
        if rest.contains(entry) {
            let i = choose|i: int| 0 <= i < rest.len() && rest[i] == entry;
            assert(pending[i] == entry);
        }
        if pending.contains(entry) && entry != last {
            let i = choose|i: int| 0 <= i < pending.len() && pending[i] == entry;
            assert(rest[i] == entry);
        }
        if entry == last {
            assert(pending[pending.len() - 1] == last);
        }
    }
}

/// The next generation has a number that no live one has, so a retired
/// generation is never taken for a later one of the same model.
pub proof fn law_generation_numbers_are_fresh(supervisor: ModelLifecycleSupervisor, generation: GenerationId)
    requires
        supervisor.wf(),
        crate::model_lifecycle::live_generation(supervisor.live(), generation),
    ensures
        generation.sequence < supervisor.next_generation(),
{
}

/// A step of a reconciliation, and what stands after it.
pub struct ReconcileTurn {
    pub event: ReconcileEvent,
    pub now: u64,
    pub action: ReconcileAction,
    pub after: ReconcileMoment,
}

/// What stands before a step.
pub open spec fn moment_before(start: ReconcileMoment, turns: Seq<ReconcileTurn>, i: int) -> ReconcileMoment {
    if i <= 0 {
        start
    } else {
        turns[i - 1].after
    }
}

/// The supervisor, the served models and the reconciliation go together.
pub open spec fn sound(moment: ReconcileMoment) -> bool {
    &&& moment.supervisor.wf()
    &&& moment.supervisor.serves(&moment.runtime)
    &&& moment.reconciliation.fits(&moment.supervisor, &moment.runtime)
}

/// The reconciliation that starts here goes through these steps and finishes
/// with the last of them; nothing else happens in between.
pub open spec fn runs_to_its_end(
    start: ReconcileMoment,
    turns: Seq<ReconcileTurn>,
    initialization: ModelInitialization,
) -> bool {
    &&& turns.len() > 0
    &&& start.reconciliation.waiting() is Nothing
    &&& sound(start)
    &&& forall|i: int|
        0 <= i < turns.len() ==> {
            &&& moment_before(start, turns, i).reconciliation.expects((#[trigger] turns[i]).event)
            &&& crate::model_lifecycle::reconciles(
                moment_before(start, turns, i),
                turns[i].event,
                initialization,
                turns[i].now,
                turns[i].action,
                turns[i].after,
            )
            &&& sound(turns[i].after)
            &&& !(turns[i].action is Failed)
            &&& turns[i].action is Finished <==> i == turns.len() - 1
        }
}

/// The generation waits for its initialization.
pub open spec fn queued(pending: Seq<PendingView>, generation: GenerationId) -> bool {
    exists|entry: PendingView| #[trigger] pending.contains(entry) && entry.generation == generation
}

/// A model as it is served from the start of a generation.
pub open spec fn new_model(sequence: u64) -> RuntimeModelView {
    RuntimeModelView { generation: sequence, stats: StatsView::unknown(), publication: ModelPublication::Pending }
}

/// The models of a reconciliation that is under way or done: how they relate to
/// those that it started from. `stopping` has left the live models and is still
/// served; `coming` is served and not live yet.
spec fn along(
    start: ReconcileMoment,
    live: LiveModels,
    pending: Seq<PendingView>,
    next_generation: int,
    models: Models,
    stopping: Option<GenerationId>,
    coming: Option<GenerationId>,
) -> bool {
    let before = start.supervisor.live();
    let desired = start.reconciliation.desired();
    let first = start.supervisor.next_generation();
    &&& live.dom().finite()
    &&& forall|id: Seq<char>| #[trigger] live.contains_key(id) ==> before.contains_key(id) || desired.contains(id)
    &&& forall|id: Seq<char>| #[trigger]
        before.contains_key(id) && desired.contains(id) ==> live.contains_key(id) && live[id] == before[id]
    &&& forall|id: Seq<char>| #[trigger]
        before.contains_key(id) && !desired.contains(id) ==> if live.contains_key(id) {
            live[id] == before[id]
        } else {
            &&& stopping == Some(before[id].generation) || !models.contains_key(id)
            &&& !queued(pending, before[id].generation)
        }
    &&& forall|id: Seq<char>|
        before.contains_key(id) == desired.contains(id) ==> {
            &&& #[trigger] models.contains_key(id) == start.runtime.models().contains_key(id)
            &&& models.contains_key(id) ==> models[id] == start.runtime.models()[id]
        }
    &&& forall|id: Seq<char>| #[trigger]
        live.contains_key(id) && !before.contains_key(id) ==> {
            &&& !live[id].canary
            &&& live[id].generation.model_id == id
            &&& first <= live[id].generation.sequence < next_generation
            &&& coming is Some ==> live[id].generation.sequence + 1 < next_generation
            &&& models.contains_key(id)
            &&& models[id] == new_model(live[id].generation.sequence)
            &&& queued(pending, live[id].generation)
            &&& earlier_are_live(live, desired, id)
        }
    &&& forall|a: Seq<char>, b: Seq<char>|
        #![trigger live.contains_key(a), live.contains_key(b)]
        live.contains_key(a) && live.contains_key(b) && !before.contains_key(a) && !before.contains_key(b)
            && crate::text::text_before(a, b) ==> live[a].generation.sequence < live[b].generation.sequence
    &&& stopping matches Some(generation) ==> {
        &&& before.contains_key(generation.model_id)
        &&& !desired.contains(generation.model_id)
        &&& before[generation.model_id].generation == generation
        &&& !live.contains_key(generation.model_id)
    }
    &&& coming matches Some(generation) ==> {
        &&& desired.contains(generation.model_id)
        &&& !live.contains_key(generation.model_id)
        &&& !before.contains_key(generation.model_id)
        &&& first <= generation.sequence
        &&& generation.sequence + 1 == next_generation
        &&& models.contains_key(generation.model_id)
        &&& models[generation.model_id] == new_model(generation.sequence)
        &&& earlier_are_live(live, desired, generation.model_id)
    }
    &&& next_generation == first + live.dom().difference(before.dom()).len() + (if coming is Some {
        1int
    } else {
        0int
    })
}

/// The wanted models before this one are live.
spec fn earlier_are_live(live: LiveModels, desired: Set<Seq<char>>, id: Seq<char>) -> bool {
    forall|earlier: Seq<char>| #[trigger]
        desired.contains(earlier) && crate::text::text_before(earlier, id) ==> live.contains_key(earlier)
}

proof fn lemma_queued_without(pending: Seq<PendingView>, gone: GenerationId, generation: GenerationId)
    ensures
        queued(crate::model_lifecycle::without_generation(pending, gone), generation) == (queued(pending, generation)
            && generation != gone),
{
    let kept = crate::model_lifecycle::without_generation(pending, gone);
    if queued(kept, generation) {
        let entry = choose|entry: PendingView| #[trigger] kept.contains(entry) && entry.generation == generation;
        law_retired_generation_is_not_pending(pending, gone, entry);
    }
    if queued(pending, generation) && generation != gone {
        let entry = choose|entry: PendingView| #[trigger] pending.contains(entry) && entry.generation == generation;
        law_retired_generation_is_not_pending(pending, gone, entry);
    }
}

proof fn lemma_queued_push(pending: Seq<PendingView>, entry: PendingView, generation: GenerationId)
    ensures
        queued(pending.push(entry), generation) == (queued(pending, generation) || entry.generation == generation),
{
    let more = pending.push(entry);
    assert(more[pending.len() as int] == entry);
    assert(more.contains(entry));
    if queued(pending, generation) {
        let known = choose|known: PendingView| #[trigger] pending.contains(known) && known.generation == generation;
        let i = choose|i: int| 0 <= i < pending.len() && pending[i] == known;
        assert(more[i] == known);
        assert(more.contains(known));
    }
    if queued(more, generation) {
        let known = choose|known: PendingView| #[trigger] more.contains(known) && known.generation == generation;
        let i = choose|i: int| 0 <= i < more.len() && more[i] == known;
        if i < pending.len() {
            assert(pending[i] == known);
            assert(pending.contains(known));
        }
    }
}

/// A generation that has come is live.
proof fn lemma_along_arrival(
    start: ReconcileMoment,
    live: LiveModels,
    pending: Seq<PendingView>,
    next_generation: int,
    models: Models,
    generation: GenerationId,
    now: u64,
)
    requires
        start.supervisor.wf(),
        along(start, live, pending, next_generation, models, None, Some(generation)),
    ensures
        along(
            start,
            live.insert(generation.model_id, LiveModelView { generation, canary: false }),
            pending.push(PendingView { generation, retry_at: now }),
            next_generation,
            models,
            None,
            None,
        ),
{
    let id = generation.model_id;
    let entry = PendingView { generation, retry_at: now };
    let after = live.insert(id, LiveModelView { generation, canary: false });
    let before = start.supervisor.live();
    let desired = start.reconciliation.desired();
    assert forall|other: GenerationId| #[trigger] queued(pending.push(entry), other) == (queued(pending, other)
        || generation == other) by {
        lemma_queued_push(pending, entry, other);
    }
    assert(after.dom().difference(before.dom()) =~= live.dom().difference(before.dom()).insert(id));
    assert forall|other: Seq<char>| #[trigger] before.contains_key(other) && !desired.contains(other) implies {
        if after.contains_key(other) {
            after[other] == before[other]
        } else {
            !models.contains_key(other) && !queued(pending.push(entry), before[other].generation)
        }
    } by {
        assert(before[other].generation.model_id == other);
        assert(other != id);
    }
    assert forall|a: Seq<char>, b: Seq<char>|
        #![trigger after.contains_key(a), after.contains_key(b)]
        after.contains_key(a) && after.contains_key(b) && !before.contains_key(a) && !before.contains_key(b)
            && crate::text::text_before(a, b) implies after[a].generation.sequence < after[b].generation.sequence by {
        if a == id && b == id {
            crate::text::lemma_text_before_irreflexive(id);
        } else if a == id {
            assert(live.contains_key(b));
            assert(earlier_are_live(live, desired, b));
            assert(desired.contains(id));
        } else if b == id {
            assert(live.contains_key(a));
        } else {
            assert(live.contains_key(a) && live.contains_key(b));
        }
    }
}

/// A model that is not wanted leaves the live ones.
proof fn lemma_along_departure(
    start: ReconcileMoment,
    live: LiveModels,
    pending: Seq<PendingView>,
    next_generation: int,
    models: Models,
    generation: GenerationId,
)
    requires
        start.supervisor.wf(),
        along(start, live, pending, next_generation, models, None, None),
        live.contains_key(generation.model_id),
        live[generation.model_id].generation == generation,
        !start.reconciliation.desired().contains(generation.model_id),
    ensures
        along(
            start,
            live.remove(generation.model_id),
            crate::model_lifecycle::without_generation(pending, generation),
            next_generation,
            models,
            Some(generation),
            None,
        ),
{
    let id = generation.model_id;
    let after = live.remove(id);
    let kept = crate::model_lifecycle::without_generation(pending, generation);
    let before = start.supervisor.live();
    let desired = start.reconciliation.desired();
    assert forall|other: GenerationId| #[trigger]
        queued(kept, other) == (queued(pending, other) && other != generation) by {
        lemma_queued_without(pending, generation, other);
    }
    assert(before.contains_key(id));
    assert(after.dom().difference(before.dom()) =~= live.dom().difference(before.dom()));
    assert forall|a: Seq<char>, b: Seq<char>|
        #![trigger after.contains_key(a), after.contains_key(b)]
        after.contains_key(a) && after.contains_key(b) && !before.contains_key(a) && !before.contains_key(b)
            && crate::text::text_before(a, b) implies after[a].generation.sequence < after[b].generation.sequence by {
        assert(live.contains_key(a) && live.contains_key(b));
    }
    assert forall|other: Seq<char>| #[trigger] after.contains_key(other) && !before.contains_key(other) implies {
        &&& queued(kept, after[other].generation)
        &&& earlier_are_live(after, desired, other)
    } by {
        assert(live.contains_key(other));
        assert(earlier_are_live(live, desired, other));
    }
}

/// A generation that is not live any more is not served any more.
proof fn lemma_along_retirement(
    start: ReconcileMoment,
    live: LiveModels,
    pending: Seq<PendingView>,
    next_generation: int,
    models: Models,
    generation: GenerationId,
)
    requires
        start.supervisor.wf(),
        along(start, live, pending, next_generation, models, Some(generation), None),
    ensures
        along(start, live, pending, next_generation, models.remove(generation.model_id), None, None),
{
    let before = start.supervisor.live();
    let desired = start.reconciliation.desired();
    let after = models.remove(generation.model_id);
    assert forall|id: Seq<char>| #[trigger]
        before.contains_key(id) && !desired.contains(id) && !live.contains_key(id) implies !after.contains_key(id) by {
        assert(before[id].generation.model_id == id);
    }
    assert forall|id: Seq<char>| #[trigger]
        live.contains_key(id) && !before.contains_key(id) implies after.contains_key(id) && after[id]
        == models[id] by {
        assert(id != generation.model_id);
    }
}

/// A generation of a missing model begins.
proof fn lemma_along_beginning(
    start: ReconcileMoment,
    live: LiveModels,
    pending: Seq<PendingView>,
    next_generation: int,
    models: Models,
    generation: GenerationId,
)
    requires
        along(start, live, pending, next_generation, models, None, None),
        crate::model_lifecycle::first_missing(live, start.reconciliation.desired(), generation.model_id),
        generation.sequence == next_generation,
    ensures
        along(
            start,
            live,
            pending,
            next_generation + 1,
            crate::runtime_laws::begun(models, generation),
            None,
            Some(generation),
        ),
{
    let before = start.supervisor.live();
    let desired = start.reconciliation.desired();
    let after = crate::runtime_laws::begun(models, generation);
    let id = generation.model_id;
    assert(!before.contains_key(id));
    assert forall|other: Seq<char>| #[trigger] before.contains_key(other) && !desired.contains(other)
        && !live.contains_key(other) implies !after.contains_key(other) by {
        assert(other != id);
    }
    assert forall|other: Seq<char>| #[trigger]
        live.contains_key(other) && !before.contains_key(other) implies after.contains_key(other) && after[other]
        == models[other] by {
        assert(other != id);
    }
    assert(earlier_are_live(live, desired, id));
}

spec fn along_moment(start: ReconcileMoment, at: ReconcileMoment) -> bool {
    &&& at.reconciliation.desired() == start.reconciliation.desired()
    &&& along(
        start,
        at.supervisor.live(),
        at.supervisor.pending(),
        at.supervisor.next_generation() as int,
        at.runtime.models(),
        (match at.reconciliation.waiting() {
            ReconcileWait::CanaryStop(generation) => Some(generation@),
            _ => None,
        }),
        (match at.reconciliation.waiting() {
            ReconcileWait::StatsBegin(generation) => Some(generation@),
            _ => None,
        }),
    )
}

proof fn lemma_along_step(
    start: ReconcileMoment,
    at: ReconcileMoment,
    turn: ReconcileTurn,
    initialization: ModelInitialization,
)
    requires
        start.supervisor.wf(),
        along_moment(start, at),
        at.reconciliation.expects(turn.event),
        crate::model_lifecycle::reconciles(at, turn.event, initialization, turn.now, turn.action, turn.after),
        !(turn.action is Failed),
    ensures
        along_moment(start, turn.after),
{
    let waiting = at.reconciliation.waiting();
    let next = at.supervisor.next_generation() as int;
    let models = at.runtime.models();
    let live = crate::model_lifecycle::live_after(at.supervisor.live(), waiting, turn.event);
    let pending = crate::model_lifecycle::pending_after(at.supervisor.pending(), waiting, turn.event, turn.now);
    match waiting {
        ReconcileWait::CanaryStop(generation) => {
            lemma_along_retirement(start, live, pending, next, models, generation@);
        },
        _ => {
            if let ReconcileWait::StatsBegin(generation) = waiting {
                lemma_along_arrival(
                    start,
                    at.supervisor.live(),
                    at.supervisor.pending(),
                    next,
                    models,
                    generation@,
                    turn.now,
                );
            }
            assert(along(start, live, pending, next, models, None, None));
            match turn.action {
                ReconcileAction::StopCanary(generation) => {
                    lemma_along_departure(start, live, pending, next, models, generation@);
                },
                ReconcileAction::RetireStats { generation, stats } => {
                    lemma_along_departure(start, live, pending, next, models, generation@);
                    lemma_along_retirement(
                        start,
                        live.remove(generation@.model_id),
                        crate::model_lifecycle::without_generation(pending, generation@),
                        next,
                        models,
                        generation@,
                    );
                },
                ReconcileAction::BeginStats { generation, initialization: _ } => {
                    lemma_along_beginning(start, live, pending, next, models, generation@);
                },
                _ => {},
            }
        },
    }
}

proof fn lemma_along_run(
    start: ReconcileMoment,
    turns: Seq<ReconcileTurn>,
    initialization: ModelInitialization,
    steps: nat,
)
    requires
        runs_to_its_end(start, turns, initialization),
        steps <= turns.len(),
    ensures
        along_moment(start, moment_before(start, turns, steps as int)),
    decreases steps,
{
    if steps == 0 {
        start.supervisor.lemma_live_finite();
        let live = start.supervisor.live();
        assert(live.dom().difference(live.dom()) =~= Set::empty());
    } else {
        let i = steps - 1;
        lemma_along_run(start, turns, initialization, i as nat);
        lemma_along_step(start, moment_before(start, turns, i), turns[i], initialization);
    }
}

/// A reconciliation that finishes has made the live models the wanted ones. A
/// model that stays keeps its generation and its canary and is served as
/// before. A model that goes is served no more and waits for nothing. The
/// models that come have the next generation numbers, one after the other in
/// the order of their names; each has begun to be served, is watched by no
/// canary and waits for its initialization. No other served model changes.
pub proof fn law_finished_reconciliation(
    start: ReconcileMoment,
    turns: Seq<ReconcileTurn>,
    initialization: ModelInitialization,
)
    requires
        runs_to_its_end(start, turns, initialization),
    ensures
        ({
            let end = turns.last().after;
            let desired = start.reconciliation.desired();
            let before = start.supervisor.live();
            let after = end.supervisor.live();
            let models = end.runtime.models();
            let pending = end.supervisor.pending();
            &&& after.dom() == desired
            &&& end.reconciliation.waiting() is Nothing
            &&& forall|id: Seq<char>| #[trigger]
                before.contains_key(id) && desired.contains(id) ==> after[id] == before[id]
            &&& forall|id: Seq<char>| #[trigger]
                before.contains_key(id) && !desired.contains(id) ==> {
                    &&& !models.contains_key(id)
                    &&& !queued(pending, before[id].generation)
                }
            &&& forall|id: Seq<char>| #[trigger]
                desired.contains(id) && !before.contains_key(id) ==> {
                    &&& after[id].generation.model_id == id
                    &&& !after[id].canary
                    &&& start.supervisor.next_generation() <= after[id].generation.sequence
                        < end.supervisor.next_generation()
                    &&& models.contains_key(id)
                    &&& models[id] == new_model(after[id].generation.sequence)
                    &&& queued(pending, after[id].generation)
                }
            &&& forall|a: Seq<char>, b: Seq<char>|
                #![trigger desired.contains(a), desired.contains(b)]
                desired.contains(a) && desired.contains(b) && !before.contains_key(a) && !before.contains_key(b)
                    && crate::text::text_before(a, b) ==> after[a].generation.sequence
                    < after[b].generation.sequence
            &&& end.supervisor.next_generation() == start.supervisor.next_generation() + desired.difference(
                before.dom(),
            ).len()
            &&& forall|id: Seq<char>|
                before.contains_key(id) == desired.contains(id) ==> {
                    &&& #[trigger] models.contains_key(id) == start.runtime.models().contains_key(id)
                    &&& models.contains_key(id) ==> models[id] == start.runtime.models()[id]
                }
        }),
{
    lemma_along_run(start, turns, initialization, turns.len());
    let end = turns.last().after;
    assert(turns[turns.len() - 1] == turns.last());
    assert(moment_before(start, turns, turns.len() as int) == end);
    lemma_along_run(start, turns, initialization, (turns.len() - 1) as nat);
    let after = end.supervisor.live();
    let desired = start.reconciliation.desired();
    assert(after.dom() == desired);
    assert forall|id: Seq<char>| desired.contains(id) == #[trigger] after.contains_key(id) by {
        assert(after.dom().contains(id) == desired.contains(id));
    }
}

/// A reconciliation that wants nothing, as that of an aborted startup does,
/// leaves nothing: no model is live, and none that was live is served.
pub proof fn law_aborted_startup_leaves_nothing(
    start: ReconcileMoment,
    turns: Seq<ReconcileTurn>,
    initialization: ModelInitialization,
    id: Seq<char>,
)
    requires
        runs_to_its_end(start, turns, initialization),
        start.reconciliation.desired() == Set::<Seq<char>>::empty(),
    ensures
        !turns.last().after.supervisor.live().contains_key(id),
        start.supervisor.live().contains_key(id) ==> crate::runtime_state::generation_of(
            turns.last().after.runtime.models(),
            id,
        ) is None,
        start.supervisor.live().dom() == start.runtime.models().dom() ==> crate::runtime_state::admitted_ids(
            turns.last().after.runtime.models(),
        ) == Set::<Seq<char>>::empty(),
{
    law_finished_reconciliation(start, turns, initialization);
    let end = turns.last().after;
    assert(!end.supervisor.live().dom().contains(id));
    if start.supervisor.live().dom() == start.runtime.models().dom() {
        let models = end.runtime.models();
        assert forall|other: Seq<char>| !models.contains_key(other) by {
            assert(start.supervisor.live().dom().contains(other) == start.runtime.models().dom().contains(other));
            assert(start.supervisor.live().contains_key(other) == start.runtime.models().contains_key(other));
        }
        assert(crate::runtime_state::admitted_ids(models) =~= Set::<Seq<char>>::empty());
    }
}

} // verus!
