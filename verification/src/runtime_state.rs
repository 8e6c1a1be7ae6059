//! The runtime state of a pylon: which model generations it serves, what it
//! advertises of them, and the live requests.

use http::{HeaderMap, HeaderValue};
use vstd::prelude::*;

use crate::binary64::Binary64;
use crate::generation::{GenerationId, ModelGeneration};
use crate::keyed::SortedMap;
use crate::live_requests::{LiveRequestState, LiveView, Requests};
use crate::model_stats::{
    gated_model_status, CurrentModelStats, InferenceServerModelRegistration, InferenceServerStatus,
    RegistrationView, StatsView,
};
use crate::queue_admission::{
    PylonQueueMismatchRetryConfig, QueueAdmissionDecision, QueueTrackedRequestGuard, RequestObservationTransition,
};
use crate::queue_model::QueueModelSnapshot;
use crate::request_observation::{RequestObservation, RequiredTunnelHeaders};

verus! {

/// Whether a model is shown to the router, and as what.
#[derive(Clone, Copy, Debug, PartialEq, Eq, Structural)]
pub enum ModelPublication {
    Pending,
    Admitted { bringup_ready: bool },
}

/// One served model.
#[derive(Debug)]
pub struct RuntimeModelState {
    pub generation: u64,
    pub stats: CurrentModelStats,
    pub publication: ModelPublication,
}

#[verifier::ext_equal]
pub struct RuntimeModelView {
    pub generation: u64,
    pub stats: StatsView,
    pub publication: ModelPublication,
}

impl View for RuntimeModelState {
    type V = RuntimeModelView;

    open spec fn view(&self) -> RuntimeModelView {
        RuntimeModelView { generation: self.generation, stats: self.stats@, publication: self.publication }
    }
}

/// The served models by name.
pub type Models = Map<Seq<char>, RuntimeModelView>;

/// The generation is the one that its model is served in.
pub open spec fn current(models: Models, generation: GenerationId) -> bool {
    models.contains_key(generation.model_id) && models[generation.model_id].generation == generation.sequence
}

/// The generation in which a model is served.
pub open spec fn generation_of(models: Models, model_id: Seq<char>) -> Option<GenerationId> {
    if models.contains_key(model_id) {
        Some(GenerationId { model_id, sequence: models[model_id].generation })
    } else {
        None
    }
}

/// Every queued request is of a served generation, and so is every observation
/// that counts.
pub open spec fn owned(requests: Requests, models: Models) -> bool {
    forall|id: Seq<char>| #[trigger]
        requests.contains_key(id) ==> {
            &&& requests[id].queue matches Some(queue) ==> current(models, queue.generation)
            &&& requests[id].observed matches Some(observed) ==> requests[id].uncounted || current(
                models,
                observed.generation,
            )
        }
}

/// What became of one observation: the generation it was of, and the
/// generations whose load it changed.
#[derive(Debug)]
pub struct RequestObservationEvent {
    pub observation: RequestObservation,
    pub generation: Option<ModelGeneration>,
    pub changed_generations: Vec<ModelGeneration>,
}

impl RequestObservationEvent {
    pub fn observation(&self) -> (observation: &RequestObservation)
        ensures
            *observation == self.observation,
    {
        &self.observation
    }

    pub fn into_observation(self) -> (observation: RequestObservation)
        ensures
            observation == self.observation,
    {
        self.observation
    }
}

/// Whether a request for a model can be served.
#[derive(Debug)]
pub enum RequestGenerationAdmission {
    Admitted(ModelGeneration),
    Ungated,
    Unavailable,
}

/// The runtime state of a pylon.
#[derive(Debug)]
pub struct PylonRuntimeState {
    base_status: InferenceServerStatus,
    require_admitted_generation: bool,
    models: SortedMap<String, RuntimeModelState>,
    live_requests: LiveRequestState,
}

/// What is registered of a model.
pub open spec fn registration_of(base_status: InferenceServerStatus, model: RuntimeModelView) -> RegistrationView {
    RegistrationView {
        stats: Some(crate::model_stats::advertised_stats(model.stats)),
        status: crate::model_stats::gated_status(base_status, model.publication->bringup_ready),
    }
}

/// The registrations of all admitted models.
pub open spec fn registrations(base_status: InferenceServerStatus, models: Models) -> Map<
    Seq<char>,
    RegistrationView,
> {
    Map::new(
        |id: Seq<char>| models.contains_key(id) && models[id].publication is Admitted,
        |id: Seq<char>| registration_of(base_status, models[id]),
    )
}

/// The names of the admitted models.
pub open spec fn admitted_ids(models: Models) -> Set<Seq<char>> {
    Set::new(|id: Seq<char>| models.contains_key(id) && models[id].publication is Admitted)
}

/// The initial model under a name: the last of its places in the list is its
/// generation.
pub open spec fn initial_model(place: int) -> RuntimeModelView {
    RuntimeModelView {
        generation: place as u64,
        stats: StatsView::unknown(),
        publication: ModelPublication::Admitted { bringup_ready: true },
    }
}

/// `place` is the last at which `id` stands before `len`.
pub open spec fn last_place(ids: Seq<Seq<char>>, len: int, id: Seq<char>, place: int) -> bool {
    &&& 0 <= place < len
    &&& ids[place] == id
    &&& forall|other: int| place < other < len ==> ids[other] != id
}

/// The models that a list of names starts with.
pub open spec fn starts_with(models: Models, ids: Seq<Seq<char>>, len: int) -> bool {
    &&& forall|id: Seq<char>| #[trigger] models.contains_key(id) <==> exists|i: int| 0 <= i < len && ids[i] == id
    &&& forall|id: Seq<char>, place: int|
        last_place(ids, len, id, place) ==> models.contains_key(id) && #[trigger] models[id] == #[trigger] initial_model(
            place,
        )
}

/// The transition is the one that an observation makes of live requests: which
/// generations it touches, what was observed of the request before and is now,
/// and the input tokens that are told of the models concerned.
pub open spec fn reports(
    transition: RequestObservationTransition,
    requests: Requests,
    observation: RequestObservation,
    generation: Option<GenerationId>,
    changed_generations: Seq<GenerationId>,
) -> bool {
    let prior = crate::live_requests::observed_of(requests, observation.request_id@);
    let current = crate::queue_admission::current_view(requests, observation, generation);
    &&& crate::keyed::views(transition.changed_generations@) == changed_generations
    &&& crate::live_requests::observed_view(transition.prior) == prior
    &&& crate::live_requests::observed_view(transition.current) == current
    &&& crate::queue_admission::token_totals(
        transition.input_token_totals@,
        crate::queue_admission::observed_requests(requests, observation, generation),
        prior,
        current,
    )
}

impl PylonRuntimeState {
    pub closed spec fn base_status(&self) -> InferenceServerStatus {
        self.base_status
    }

    pub closed spec fn requires_admitted(&self) -> bool {
        self.require_admitted_generation
    }

    pub closed spec fn models(&self) -> Models {
        self.models@
    }

    pub closed spec fn requests(&self) -> Requests {
        self.live_requests.requests()
    }

    pub closed spec fn throughput(&self, generation: GenerationId) -> Option<Binary64> {
        self.live_requests.throughput(generation)
    }

    pub closed spec fn wf(&self) -> bool {
        &&& self.live_requests.wf()
        &&& forall|generation: GenerationId|
            #[trigger] self.live_requests.throughput(generation) is Some ==> current(self.models@, generation)
    }

    /// There are finitely many live requests. Each is queued or observed, and an
    /// observation among them is of a request that goes on.
    pub proof fn lemma_requests(&self)
        requires
            self.wf(),
        ensures
            self.requests().dom().finite(),
            crate::live_requests::all_valid(self.requests()),
    {
        self.live_requests.lemma_requests();
    }

    /// Nothing but the live requests differs.
    pub open spec fn same_models(&self, other: &PylonRuntimeState) -> bool {
        &&& self.base_status() == other.base_status()
        &&& self.requires_admitted() == other.requires_admitted()
        &&& self.models() == other.models()
    }

    /// The live requests and throughputs are the same.
    pub open spec fn same_load(&self, other: &PylonRuntimeState) -> bool {
        &&& self.requests() == other.requests()
        &&& self.same_rates(other)
    }

    pub open spec fn same_rates(&self, other: &PylonRuntimeState) -> bool {
        forall|generation: GenerationId| #[trigger] self.throughput(generation) == other.throughput(generation)
    }

    /// A state whose models are admitted from the start. A caller that brings
    /// models up starts with none and uses `begin_generation`.
    pub fn new(initial_status: InferenceServerStatus, model_ids: &[String]) -> (state: Self)
        ensures
            state.wf(),
            state.base_status() == initial_status,
            state.requires_admitted(),
            starts_with(state.models(), crate::keyed::views(model_ids@), model_ids@.len() as int),
            state.requests() == Map::<Seq<char>, LiveView>::empty(),
            forall|generation: GenerationId| #[trigger] state.throughput(generation) is None,
    {
        let ghost ids = crate::keyed::views(model_ids@);
        let mut models: SortedMap<String, RuntimeModelState> = SortedMap::new();
        let mut i: usize = 0;
        while i < model_ids.len()
            invariant
                i <= model_ids.len(),
                ids == crate::keyed::views(model_ids@),
                starts_with(models@, ids, i as int),
            decreases model_ids.len() - i,
        {
            let ghost before = models@;
            models.insert(
                model_ids[i].clone(),
                RuntimeModelState {
                    generation: i as u64,
                    stats: CurrentModelStats::default(),
                    publication: ModelPublication::Admitted { bringup_ready: true },
                },
            );
            proof {
                let key = ids[i as int];
                assert(models@ == before.insert(key, initial_model(i as int)));
                assert forall|id: Seq<char>| #[trigger]
                    models@.contains_key(id) <==> exists|j: int| 0 <= j < i + 1 && ids[j] == id by {
                    if models@.contains_key(id) {
                        if id == key {
                            assert(ids[i as int] == id);
                        } else {
                            assert(before.contains_key(id));
                        }
                    }
                }
                assert forall|id: Seq<char>, place: int| last_place(ids, i + 1, id, place) implies models@.contains_key(
                    id,
                ) && #[trigger] models@[id] == #[trigger] initial_model(place) by {
                    if id != key {
                        assert(place < i);
                        assert(last_place(ids, i as int, id, place));
                    } else {
                        assert(place == i) by {
                            if place < i {
                                assert(ids[i as int] != id);
                            }
                        }
                    }
                }
            }
            i += 1;
        }
        PylonRuntimeState {
            base_status: initial_status,
            require_admitted_generation: true,
            models,
            live_requests: LiveRequestState::new(),
        }
    }

    pub fn set_status(&mut self, status: InferenceServerStatus)
        requires
            old(self).wf(),
        ensures
            final(self).wf(),
            final(self).base_status() == status,
            final(self).requires_admitted() == old(self).requires_admitted(),
            final(self).models() == old(self).models(),
            final(self).same_load(old(self)),
    {
        self.base_status = status;
    }

    /// The names of all served models, in ascending order.
    pub fn model_ids(&self) -> (ids: Vec<String>)
        ensures
            crate::keyed::lists::<String>(crate::keyed::views(ids@), self.models().dom()),
    {
        self.models.keys()
    }

    /// Starts to serve a model, unpublished. Whether it was not served yet.
    pub fn begin_generation(&mut self, generation: ModelGeneration) -> (begun: bool)
        requires
            old(self).wf(),
        ensures
            final(self).wf(),
            begun == !old(self).models().contains_key(generation@.model_id),
            final(self).base_status() == old(self).base_status(),
            final(self).requires_admitted(),
            final(self).models() == (if begun {
                old(self).models().insert(
                    generation@.model_id,
                    RuntimeModelView {
                        generation: generation@.sequence,
                        stats: StatsView::unknown(),
                        publication: ModelPublication::Pending,
                    },
                )
            } else {
                old(self).models()
            }),
            final(self).same_load(old(self)),
    {
        self.require_admitted_generation = true;
        if self.models.contains_key(&generation.model_id) {
            return false;
        }
        self.models.insert(
            generation.model_id.clone(),
            RuntimeModelState {
                generation: generation.sequence,
                stats: CurrentModelStats::default(),
                publication: ModelPublication::Pending,
            },
        );
        true
    }

    /// The generation in which a model is served.
    pub fn current_generation(&self, model_id: &str) -> (generation: Option<ModelGeneration>)
        ensures
            match generation {
                Some(generation) => generation_of(self.models(), model_id@) == Some(generation@),
                None => generation_of(self.models(), model_id@) is None,
            },
    {
        match self.models.get(&model_id.to_string()) {
            Some(model) => Some(ModelGeneration::new(model_id, model.generation)),
            None => None,
        }
    }

    fn is_current(&self, generation: &ModelGeneration) -> (is_current: bool)
        ensures
            is_current == current(self.models(), generation@),
    {
        match self.models.get(&generation.model_id) {
            Some(model) => model.generation == generation.sequence,
            None => false,
        }
    }

    /// Whether a request for a model can be served, and in which generation:
    /// an unpublished model is not available, nor is an unknown one once
    /// generations are managed.
    pub fn request_generation_admission(&self, model_id: &str) -> (admission: RequestGenerationAdmission)
        ensures
            match admission {
                RequestGenerationAdmission::Admitted(generation) => {
                    &&& generation_of(self.models(), model_id@) == Some(generation@)
                    &&& self.models()[model_id@].publication is Admitted
                },
                RequestGenerationAdmission::Ungated => !self.models().contains_key(model_id@)
                    && !self.requires_admitted(),
                RequestGenerationAdmission::Unavailable => if self.models().contains_key(model_id@) {
                    self.models()[model_id@].publication is Pending
                } else {
                    self.requires_admitted()
                },
            },
    {
        match self.models.get(&model_id.to_string()) {
            Some(model) => match model.publication {
                ModelPublication::Admitted { .. } => RequestGenerationAdmission::Admitted(
                    ModelGeneration::new(model_id, model.generation),
                ),
                ModelPublication::Pending => RequestGenerationAdmission::Unavailable,
            },
            None => if self.require_admitted_generation {
                RequestGenerationAdmission::Unavailable
            } else {
                RequestGenerationAdmission::Ungated
            },
        }
    }

    /// Sets the publication of a served generation.
    fn set_publication(&mut self, generation: &ModelGeneration, publication: ModelPublication)
        requires
            old(self).wf(),
            current(old(self).models(), generation@),
        ensures
            final(self).wf(),
            final(self).base_status() == old(self).base_status(),
            final(self).requires_admitted() == old(self).requires_admitted(),
            final(self).models() == republished(old(self).models(), generation@.model_id, publication),
            final(self).same_load(old(self)),
    {
        if let Some(mut model) = self.models.remove(&generation.model_id) {
            model.publication = publication;
            proof {
                assert(old(self).models().remove(generation@.model_id).insert(generation@.model_id, model@)
                    =~= republished(old(self).models(), generation@.model_id, publication));
            }
            self.models.insert(generation.model_id.clone(), model);
            proof {
                lemma_same_generations(old(self).models(), self.models());
            }
        }
    }

    /// Publishes a generation that is being served. Whether it is.
    pub fn publish_generation(&mut self, generation: &ModelGeneration) -> (published: bool)
        requires
            old(self).wf(),
        ensures
            final(self).wf(),
            published == current(old(self).models(), generation@),
            final(self).base_status() == old(self).base_status(),
            final(self).requires_admitted() == old(self).requires_admitted(),
            final(self).models() == (if published {
                republished(
                    old(self).models(),
                    generation@.model_id,
                    ModelPublication::Admitted { bringup_ready: true },
                )
            } else {
                old(self).models()
            }),
            final(self).same_load(old(self)),
    {
        if !self.is_current(generation) {
            return false;
        }
        self.set_publication(generation, ModelPublication::Admitted { bringup_ready: true });
        true
    }

    pub fn generation_is_published(&self, generation: &ModelGeneration) -> (published: bool)
        ensures
            published == (current(self.models(), generation@)
                && self.models()[generation@.model_id].publication is Admitted),
    {
        match self.models.get(&generation.model_id) {
            Some(model) => model.generation == generation.sequence && match model.publication {
                ModelPublication::Admitted { .. } => true,
                ModelPublication::Pending => false,
            },
            None => false,
        }
    }

    /// Marks a published generation as brought up or not. Whether it is
    /// published.
    pub fn set_generation_bringup_ready(&mut self, generation: &ModelGeneration, ready: bool) -> (set: bool)
        requires
            old(self).wf(),
        ensures
            final(self).wf(),
            set == (current(old(self).models(), generation@)
                && old(self).models()[generation@.model_id].publication is Admitted),
            final(self).base_status() == old(self).base_status(),
            final(self).requires_admitted() == old(self).requires_admitted(),
            final(self).models() == (if set {
                republished(
                    old(self).models(),
                    generation@.model_id,
                    ModelPublication::Admitted { bringup_ready: ready },
                )
            } else {
                old(self).models()
            }),
            final(self).same_load(old(self)),
    {
        if !self.generation_is_published(generation) {
            return false;
        }
        self.set_publication(generation, ModelPublication::Admitted { bringup_ready: ready });
        true
    }

    /// Stops to serve a generation and rids the live requests of it. Its last
    /// statistics, where it was being served.
    pub fn retire_generation(&mut self, generation: &ModelGeneration) -> (stats: Option<CurrentModelStats>)
        requires
            old(self).wf(),
        ensures
            final(self).wf(),
            final(self).base_status() == old(self).base_status(),
            final(self).requires_admitted() == old(self).requires_admitted(),
            match stats {
                Some(stats) => {
                    &&& current(old(self).models(), generation@)
                    &&& stats@ == old(self).models()[generation@.model_id].stats
                    &&& final(self).models() == old(self).models().remove(generation@.model_id)
                    &&& final(self).requests() == crate::live_requests::retired(
                        old(self).requests(),
                        generation@,
                    )
                    &&& final(self).throughput(generation@) is None
                    &&& forall|other: GenerationId|
                        other != generation@ ==> #[trigger] final(self).throughput(other) == old(self).throughput(
                            other,
                        )
                },
                None => {
                    &&& !current(old(self).models(), generation@)
                    &&& final(self).models() == old(self).models()
                    &&& final(self).same_load(old(self))
                },
            },
    {
        if !self.is_current(generation) {
            return None;
        }
        let retired = match self.models.remove(&generation.model_id) {
            Some(retired) => retired,
            None => {
                return None;
            },
        };
        self.live_requests.retire_generation(generation);
        proof {
            assert forall|other: GenerationId| #[trigger]
                self.live_requests.throughput(other) is Some implies current(self.models@, other) by {
                assert(other != generation@);
                assert(old(self).live_requests.throughput(other) is Some);
            }
        }
        Some(retired.stats)
    }

    /// Sets the statistics of a generation that is being served, and with them
    /// the throughput of its queue. Whether it is.
    pub fn set_generation_stats(&mut self, generation: &ModelGeneration, stats: CurrentModelStats) -> (set: bool)
        requires
            old(self).wf(),
        ensures
            final(self).wf(),
            set == current(old(self).models(), generation@),
            final(self).base_status() == old(self).base_status(),
            final(self).requires_admitted() == old(self).requires_admitted(),
            final(self).requests() == old(self).requests(),
            if set {
                &&& final(self).models() == restated(old(self).models(), generation@.model_id, stats@)
                &&& final(self).throughput(generation@) == (if stats@.last_mean_input_tps.positive_finite() {
                    Some(stats@.last_mean_input_tps)
                } else {
                    None
                })
                &&& forall|other: GenerationId|
                    other != generation@ ==> #[trigger] final(self).throughput(other) == old(self).throughput(
                        other,
                    )
            } else {
                &&& final(self).models() == old(self).models()
                &&& final(self).same_rates(old(self))
            },
    {
        if !self.is_current(generation) {
            return false;
        }
        self.live_requests.update_generation_throughput(generation, stats.last_mean_input_tps);
        if let Some(mut model) = self.models.remove(&generation.model_id) {
            model.stats = stats;
            proof {
                assert(old(self).models().remove(generation@.model_id).insert(generation@.model_id, model@)
                    =~= restated(old(self).models(), generation@.model_id, stats@));
            }
            self.models.insert(generation.model_id.clone(), model);
        }
        proof {
            lemma_same_generations(old(self).models(), self.models());
            assert forall|other: GenerationId| #[trigger]
                self.live_requests.throughput(other) is Some implies current(self.models@, other) by {
                if other != generation@ {
                    assert(old(self).live_requests.throughput(other) is Some);
                }
            }
        }
        true
    }

    /// Sets the statistics of a model, where it is served.
    pub fn set_model_stats(&mut self, model_id: &str, stats: CurrentModelStats)
        requires
            old(self).wf(),
        ensures
            final(self).wf(),
            final(self).base_status() == old(self).base_status(),
            final(self).requires_admitted() == old(self).requires_admitted(),
            final(self).requests() == old(self).requests(),
            match generation_of(old(self).models(), model_id@) {
                Some(generation) => {
                    &&& final(self).models() == restated(old(self).models(), model_id@, stats@)
                    &&& final(self).throughput(generation) == (if stats@.last_mean_input_tps.positive_finite() {
                        Some(stats@.last_mean_input_tps)
                    } else {
                        None
                    })
                    &&& forall|other: GenerationId|
                        other != generation ==> #[trigger] final(self).throughput(other) == old(self).throughput(
                            other,
                        )
                },
                None => {
                    &&& final(self).models() == old(self).models()
                    &&& final(self).same_rates(old(self))
                },
            },
    {
        if let Some(generation) = self.current_generation(model_id) {
            let _ = self.set_generation_stats(&generation, stats);
        }
    }

    pub fn model_stats(&self, model_id: &str) -> (stats: Option<CurrentModelStats>)
        ensures
            match stats {
                Some(stats) => self.models().contains_key(model_id@) && stats@ == self.models()[model_id@].stats,
                None => !self.models().contains_key(model_id@),
            },
    {
        match self.models.get(&model_id.to_string()) {
            Some(model) => Some(model.stats.clone()),
            None => None,
        }
    }

    /// The registrations of the admitted models.
    pub fn advertised_models(&self) -> (registered: SortedMap<String, InferenceServerModelRegistration>)
        ensures
            registered@ == registrations(self.base_status(), self.models()),
    {
        let len: usize = self.models.len();
        let ghost order = self.models.order();
        let ghost all = registrations(self.base_status, self.models@);
        let mut registered: SortedMap<String, InferenceServerModelRegistration> = SortedMap::new();
        let mut i: usize = 0;
        while i < len
            invariant
                i <= len == order.len(),
                order == self.models.order(),
                order.to_set() == self.models@.dom(),
                crate::keyed::ascending::<String>(order),
                all == registrations(self.base_status, self.models@),
                forall|id: Seq<char>| #[trigger]
                    registered@.contains_key(id) <==> all.contains_key(id) && exists|j: int| 0 <= j < i && #[trigger] order[j]
                        == id,
                forall|id: Seq<char>| #[trigger] registered@.contains_key(id) ==> registered@[id] == all[id],
            decreases len - i,
        {
            let ghost before = registered@;
            let model_id = self.models.key_at(i);
            let model = self.models.value_at(i);
            if let ModelPublication::Admitted { bringup_ready } = model.publication {
                let registration = InferenceServerModelRegistration {
                    stats: Some(model.stats.advertise()),
                    status: gated_model_status(self.base_status, bringup_ready),
                };
                proof {
                    assert(registration@ == registration_of(self.base_status, model@));
                }
                registered.insert(model_id.clone(), registration);
            }
            proof {
                assert forall|id: Seq<char>| #[trigger]
                    registered@.contains_key(id) <==> all.contains_key(id) && exists|j: int| 0 <= j < i + 1
                        && #[trigger] order[j] == id by {
                    if registered@.contains_key(id) {
                        if before.contains_key(id) {
                        } else {
                            assert(order[i as int] == id);
                        }
                    }
                    if all.contains_key(id) && exists|j: int| 0 <= j < i + 1 && #[trigger] order[j] == id {
                        let j = choose|j: int| 0 <= j < i + 1 && #[trigger] order[j] == id;
                        if j < i {
                            assert(before.contains_key(id));
                        }
                    }
                }
            }
            i += 1;
        }
        proof {
            assert forall|id: Seq<char>| registered@.contains_key(id) == #[trigger] all.contains_key(id) by {
                if all.contains_key(id) {
                    assert(order.to_set().contains(id));
                    let j = choose|j: int| 0 <= j < order.len() && order[j] == id;
                    assert(order[j] == id);
                    assert(registered@.contains_key(id));
                }
            }
            assert(registered@ =~= all);
        }
        registered
    }

    /// The names of the admitted models, in ascending order.
    pub fn advertised_model_ids(&self) -> (ids: Vec<String>)
        ensures
            crate::keyed::lists::<String>(crate::keyed::views(ids@), admitted_ids(self.models())),
    {
        let registered = self.advertised_models();
        proof {
            assert(registrations(self.base_status(), self.models()).dom() =~= admitted_ids(self.models()));
        }
        registered.keys()
    }
}

/// The models once one of them has another publication.
pub open spec fn republished(models: Models, model_id: Seq<char>, publication: ModelPublication) -> Models {
    models.insert(model_id, RuntimeModelView { publication, ..models[model_id] })
}

/// The models once one of them has other statistics.
pub open spec fn restated(models: Models, model_id: Seq<char>, stats: StatsView) -> Models {
    models.insert(model_id, RuntimeModelView { stats, ..models[model_id] })
}

/// Where the generations are the same, so is what is current.
proof fn lemma_same_generations(before: Models, after: Models)
    requires
        before.dom() == after.dom(),
        forall|id: Seq<char>| #[trigger] before.contains_key(id) ==> before[id].generation == after[id].generation,
    ensures
        forall|generation: GenerationId| current(before, generation) == #[trigger] current(after, generation),
{
    assert forall|generation: GenerationId| current(before, generation) == #[trigger] current(after, generation) by {
        assert(before.contains_key(generation.model_id) == after.contains_key(generation.model_id));
    }
}

impl Default for PylonRuntimeState {
    /// A state without models, in which requests for unknown models pass
    /// until a generation begins.
    fn default() -> (state: Self)
        ensures
            state.wf(),
            state.base_status() is Unknown,
            !state.requires_admitted(),
            state.models() == Map::<Seq<char>, RuntimeModelView>::empty(),
            state.requests() == Map::<Seq<char>, LiveView>::empty(),
            forall|generation: GenerationId| #[trigger] state.throughput(generation) is None,
    {
        PylonRuntimeState {
            base_status: InferenceServerStatus::Unknown,
            require_admitted_generation: false,
            models: SortedMap::new(),
            live_requests: LiveRequestState::new(),
        }
    }
}

/// The generation that an observation names is not served any more.
pub open spec fn stale(models: Models, generation: Option<GenerationId>) -> bool {
    generation matches Some(generation) && !current(models, generation)
}

pub open spec fn owned_generation(generation: Option<ModelGeneration>) -> Option<GenerationId> {
    match generation {
        Some(generation) => Some(generation@),
        None => None,
    }
}

impl PylonRuntimeState {
    /// Takes in an observation of a request under the generation that it was
    /// accepted in. An observation from a generation that is not served any
    /// more changes nothing and has no transition.
    pub fn transition_request_observation_for_generation(
        &mut self,
        observation: RequestObservation,
        generation: Option<ModelGeneration>,
    ) -> (outcome: (RequestObservationEvent, Option<RequestObservationTransition>))
        requires
            old(self).wf(),
        ensures
            final(self).wf(),
            final(self).same_models(old(self)),
            final(self).same_rates(old(self)),
            outcome.0.observation == observation,
            outcome.0.generation == generation,
            if stale(old(self).models(), owned_generation(generation)) {
                &&& final(self).requests() == old(self).requests()
                &&& outcome.0.changed_generations@.len() == 0
                &&& outcome.1 is None
            } else {
                &&& final(self).requests() == crate::queue_admission::observed_requests(
                    old(self).requests(),
                    observation,
                    owned_generation(generation),
                )
                &&& crate::keyed::lists::<ModelGeneration>(
                    crate::keyed::views(outcome.0.changed_generations@),
                    crate::queue_admission::touched(
                        old(self).requests(),
                        observation.request_id@,
                        owned_generation(generation),
                    ),
                )
                &&& outcome.1 matches Some(transition) && reports(
                    transition,
                    old(self).requests(),
                    observation,
                    owned_generation(generation),
                    crate::keyed::views(outcome.0.changed_generations@),
                )
            },
    {
        let is_stale = match &generation {
            Some(generation) => !self.is_current(generation),
            None => false,
        };
        if is_stale {
            return (RequestObservationEvent { observation, generation, changed_generations: Vec::new() }, None);
        }
        let owner = generation.as_ref();
        let transition = self.live_requests.transition_observation(&observation, owner);
        let changed_generations = copy_generations(&transition.changed_generations);
        proof {
            assert(crate::queue_admission::generation_view(owner) == owned_generation(generation));
        }
        (RequestObservationEvent { observation, generation, changed_generations }, Some(transition))
    }

    /// Takes in an observation under the generation in which its model is
    /// served.
    pub fn observe_request(&mut self, observation: RequestObservation) -> (outcome: (
        RequestObservationEvent,
        Option<RequestObservationTransition>,
    ))
        requires
            old(self).wf(),
        ensures
            final(self).wf(),
            final(self).same_models(old(self)),
            final(self).same_rates(old(self)),
            outcome.0.observation == observation,
            owned_generation(outcome.0.generation) == generation_of(old(self).models(), observation.model_id@),
            final(self).requests() == crate::queue_admission::observed_requests(
                old(self).requests(),
                observation,
                generation_of(old(self).models(), observation.model_id@),
            ),
            crate::keyed::lists::<ModelGeneration>(
                crate::keyed::views(outcome.0.changed_generations@),
                crate::queue_admission::touched(
                    old(self).requests(),
                    observation.request_id@,
                    generation_of(old(self).models(), observation.model_id@),
                ),
            ),
            outcome.1 matches Some(transition) && reports(
                transition,
                old(self).requests(),
                observation,
                generation_of(old(self).models(), observation.model_id@),
                crate::keyed::views(outcome.0.changed_generations@),
            ),
    {
        let generation = self.current_generation(observation.model_id.as_str());
        self.transition_request_observation_for_generation(observation, generation)
    }

    /// Sets the output rate of a queued request. The request's model.
    pub fn update_request_active_output_tps(
        &mut self,
        request_id: &String,
        active_chat_output_tps: Option<Binary64>,
    ) -> (model_id: Option<String>)
        requires
            old(self).wf(),
        ensures
            final(self).wf(),
            final(self).same_models(old(self)),
            final(self).same_rates(old(self)),
            final(self).requests() == crate::live_requests::with_output_rate(
                old(self).requests(),
                request_id@,
                active_chat_output_tps,
            ),
            match (model_id, crate::live_requests::queue_of(old(self).requests(), request_id@)) {
                (Some(model_id), Some(queue)) => model_id@ == queue.generation.model_id,
                (None, None) => true,
                _ => false,
            },
    {
        self.live_requests.update_active_output_tps(request_id, active_chat_output_tps)
    }

    /// How many requests are queued.
    pub fn tracked_request_count(&self) -> (count: usize)
        ensures
            count == crate::sums::total(self.requests(), crate::live_requests::queued()),
    {
        self.live_requests.tracked_request_count()
    }

    /// The generation of a live request.
    pub fn request_generation(&self, request_id: &String) -> (generation: Option<ModelGeneration>)
        ensures
            match generation {
                Some(generation) => self.requests().contains_key(request_id@) && generation@
                    == self.requests()[request_id@].generation(),
                None => !self.requests().contains_key(request_id@),
            },
    {
        self.live_requests.request_generation(request_id)
    }

    /// The queue of a model in the generation in which it is served.
    pub fn snapshot_live_model<F: Fn(u64, Binary64) -> Option<u64>>(
        &self,
        model_id: &str,
        queue_time_delta_ms: &F,
    ) -> (snapshot: QueueModelSnapshot)
        requires
            self.wf(),
            forall|tokens: u64, rate: Binary64| call_requires(*queue_time_delta_ms, (tokens, rate)),
        ensures
            match generation_of(self.models(), model_id@) {
                Some(generation) => crate::live_requests::describes(
                    snapshot,
                    self.requests(),
                    generation,
                    self.throughput(generation),
                    *queue_time_delta_ms,
                ),
                None => snapshot.is_empty(),
            },
    {
        match self.current_generation(model_id) {
            Some(generation) => self.live_requests.snapshot_generation(&generation, queue_time_delta_ms),
            None => QueueModelSnapshot::default(),
        }
    }

    /// Decides on a request by the queue of its generation.
    pub fn evaluate_generation_queue_admission<F: Fn(u64, Binary64) -> Option<u64>, G: Fn(u64, Binary64) -> u64>(
        &self,
        config: &PylonQueueMismatchRetryConfig,
        required: &RequiredTunnelHeaders,
        generation: Option<&ModelGeneration>,
        headers: &HeaderMap<HeaderValue>,
        queue_time_delta_ms: &F,
        scale_ms: &G,
    ) -> (decision: QueueAdmissionDecision)
        requires
            self.wf(),
            forall|tokens: u64, rate: Binary64| call_requires(*queue_time_delta_ms, (tokens, rate)),
            forall|ms: u64, factor: Binary64| call_requires(*scale_ms, (ms, factor)),
        ensures
            crate::queue_admission::decides(
                decision,
                *config,
                crate::queue_admission::expected_queue(crate::headers::header_contents(*headers)),
                match generation {
                    Some(generation) => self.throughput(generation@),
                    None => None,
                },
                match generation {
                    Some(generation) => crate::live_requests::queued_work_through(
                        self.requests().remove(required.request_id@),
                        generation@,
                        required.spec_queue_priority() as int,
                    ),
                    None => 0,
                },
                *queue_time_delta_ms,
                *scale_ms,
            ),
    {
        self.live_requests.evaluate_generation(
            config,
            required,
            generation,
            headers,
            queue_time_delta_ms,
            scale_ms,
        )
    }

    /// Queues a request under a generation, where that is being served.
    pub fn track_generation_request(
        &mut self,
        required: &RequiredTunnelHeaders,
        generation: Option<&ModelGeneration>,
    ) -> (guard: Option<QueueTrackedRequestGuard>)
        requires
            old(self).wf(),
        ensures
            final(self).wf(),
            final(self).same_models(old(self)),
            final(self).same_rates(old(self)),
            match (guard, generation) {
                (Some(guard), Some(generation)) => {
                    &&& current(old(self).models(), generation@)
                    &&& guard.request_id() == required.request_id@
                    &&& !guard.finished()
                    &&& final(self).requests() == crate::queue_admission::tracked_requests(
                        old(self).requests(),
                        *required,
                        generation@,
                    )
                },
                (Some(_), None) => false,
                (None, Some(generation)) => !current(old(self).models(), generation@) && final(self).requests()
                    == old(self).requests(),
                (None, None) => final(self).requests() == old(self).requests(),
            },
    {
        match generation {
            Some(generation) => {
                if !self.is_current(generation) {
                    return None;
                }
                Some(self.live_requests.track_generation_request(required, generation.clone()))
            },
            None => None,
        }
    }

    /// A queued request has been sent upstream.
    pub fn on_upstream_send(&mut self, guard: &mut QueueTrackedRequestGuard)
        requires
            old(self).wf(),
        ensures
            final(self).wf(),
            final(self).same_models(old(self)),
            final(self).same_rates(old(self)),
            *final(guard) == *old(guard),
            final(self).requests() == crate::live_requests::advanced(
                old(self).requests(),
                old(guard).request_id(),
                crate::queue_model::TrackedPromptPhase::InputProcessing,
            ),
    {
        guard.on_upstream_send(&mut self.live_requests);
    }

    /// Output of a queued request has been seen.
    pub fn observe_output(&mut self, guard: &mut QueueTrackedRequestGuard)
        requires
            old(self).wf(),
        ensures
            final(self).wf(),
            final(self).same_models(old(self)),
            final(self).same_rates(old(self)),
            *final(guard) == *old(guard),
            final(self).requests() == crate::live_requests::advanced(
                old(self).requests(),
                old(guard).request_id(),
                crate::queue_model::TrackedPromptPhase::OutputGeneration,
            ),
    {
        guard.observe_output(&mut self.live_requests);
    }

    /// Ends the queue side of a request by its handle.
    pub fn finish_tracked(&mut self, guard: &mut QueueTrackedRequestGuard)
        requires
            old(self).wf(),
        ensures
            final(self).wf(),
            final(self).same_models(old(self)),
            final(self).same_rates(old(self)),
            final(guard).finished(),
            final(guard).request_id() == old(guard).request_id(),
            final(self).requests() == (if old(guard).finished() {
                old(self).requests()
            } else {
                crate::live_requests::without_queue(old(self).requests(), old(guard).request_id())
            }),
    {
        guard.finish(&mut self.live_requests);
    }

    /// Ends the queue side of a request.
    pub fn finish_queue_request(&mut self, request_id: &String)
        requires
            old(self).wf(),
        ensures
            final(self).wf(),
            final(self).same_models(old(self)),
            final(self).same_rates(old(self)),
            final(self).requests() == crate::live_requests::without_queue(old(self).requests(), request_id@),
    {
        self.live_requests.finish_queue_request(request_id);
    }
}

fn copy_generations(generations: &Vec<ModelGeneration>) -> (copy: Vec<ModelGeneration>)
    ensures
        crate::keyed::views(copy@) == crate::keyed::views(generations@),
{
    let mut copy: Vec<ModelGeneration> = Vec::new();
    let mut i: usize = 0;
    while i < generations.len()
        invariant
            i <= generations.len(),
            copy.len() == i,
            forall|j: int| 0 <= j < i ==> #[trigger] copy[j]@ == generations[j]@,
        decreases generations.len() - i,
    {
        copy.push(generations[i].clone());
        i += 1;
    }
    assert(crate::keyed::views(copy@) =~= crate::keyed::views(generations@));
    copy
}

} // verus!
