//! Controls over a mock engine: which models it shows, which requests it fails
//! or holds back, and how many of each kind it has seen.

use http::{HeaderMap, HeaderValue};
use vstd::prelude::*;

use crate::headers::header_text;
use crate::keyed::{OrderedKey, SortedMap, SortedSet};
use crate::text::{same_text, starts_with_text, text_rank, trim, Rank};

verus! {

pub const CALIBRATION_REQUEST_ID_PREFIX: &'static str = "calibration-";
pub const CANARY_REQUEST_ID_PREFIX: &'static str = "canary-";

#[derive(Clone, Copy, Debug, PartialEq, Eq, Structural)]
pub enum TestEndpoint {
    ChatCompletions,
    Responses,
    Embeddings,
}

#[derive(Clone, Copy, Debug, PartialEq, Eq, Structural)]
pub enum TestRequestClass {
    PylonGenerated,
    ApiGateway,
}

impl TestEndpoint {
    pub open spec fn number(self) -> int {
        match self {
            TestEndpoint::ChatCompletions => 0,
            TestEndpoint::Responses => 1,
            TestEndpoint::Embeddings => 2,
        }
    }

    fn place(self) -> (place: u8)
        ensures
            place == self.number(),
    {
        match self {
            TestEndpoint::ChatCompletions => 0,
            TestEndpoint::Responses => 1,
            TestEndpoint::Embeddings => 2,
        }
    }

    /// The name under which the endpoint is reported.
    pub fn label(self) -> (label: &'static str)
        ensures
            label@ == (match self {
                TestEndpoint::ChatCompletions => "chat_completions"@,
                TestEndpoint::Responses => "responses"@,
                TestEndpoint::Embeddings => "embeddings"@,
            }),
    {
        match self {
            TestEndpoint::ChatCompletions => "chat_completions",
            TestEndpoint::Responses => "responses",
            TestEndpoint::Embeddings => "embeddings",
        }
    }
}

impl TestRequestClass {
    pub open spec fn number(self) -> int {
        match self {
            TestRequestClass::PylonGenerated => 0,
            TestRequestClass::ApiGateway => 1,
        }
    }

    fn place(self) -> (place: u8)
        ensures
            place == self.number(),
    {
        match self {
            TestRequestClass::PylonGenerated => 0,
            TestRequestClass::ApiGateway => 1,
        }
    }

    /// The name under which the class is reported.
    pub fn label(self) -> (label: &'static str)
        ensures
            label@ == (match self {
                TestRequestClass::PylonGenerated => "pylon_generated"@,
                TestRequestClass::ApiGateway => "api_gateway"@,
            }),
    {
        match self {
            TestRequestClass::PylonGenerated => "pylon_generated",
            TestRequestClass::ApiGateway => "api_gateway",
        }
    }
}

/// What requests are counted by.
#[derive(Debug)]
pub struct TestCounterKey {
    pub endpoint: TestEndpoint,
    pub model: String,
    pub request_class: TestRequestClass,
}

#[verifier::ext_equal]
pub struct CounterId {
    pub endpoint: TestEndpoint,
    pub model: Seq<char>,
    pub request_class: TestRequestClass,
}

impl View for TestCounterKey {
    type V = CounterId;

    open spec fn view(&self) -> CounterId {
        CounterId { endpoint: self.endpoint, model: self.model@, request_class: self.request_class }
    }
}

impl OrderedKey for TestCounterKey {
    open spec fn before(a: CounterId, b: CounterId) -> bool {
        ||| a.endpoint.number() < b.endpoint.number()
        ||| a.endpoint == b.endpoint && crate::text::text_before(a.model, b.model)
        ||| a.endpoint == b.endpoint && a.model == b.model && a.request_class.number() < b.request_class.number()
    }

    proof fn before_irreflexive(a: CounterId) {
        crate::text::lemma_text_before_irreflexive(a.model);
    }

    proof fn before_transitive(a: CounterId, b: CounterId, c: CounterId) {
        if a.endpoint == b.endpoint && b.endpoint == c.endpoint {
            if crate::text::text_before(a.model, b.model) && crate::text::text_before(b.model, c.model) {
                crate::text::lemma_text_before_transitive(a.model, b.model, c.model);
            }
        }
    }

    fn rank(&self, other: &Self) -> (rank: Rank) {
        if self.endpoint.place() < other.endpoint.place() {
            return Rank::Before;
        }
        if other.endpoint.place() < self.endpoint.place() {
            return Rank::After;
        }
        match text_rank(self.model.as_str(), other.model.as_str()) {
            Rank::Before => Rank::Before,
            Rank::After => Rank::After,
            Rank::Same => if self.request_class.place() < other.request_class.place() {
                Rank::Before
            } else if other.request_class.place() < self.request_class.place() {
                Rank::After
            } else {
                Rank::Same
            },
        }
    }

    fn copy_key(&self) -> (key: Self) {
        TestCounterKey {
            endpoint: self.endpoint,
            model: self.model.clone(),
            request_class: self.request_class,
        }
    }
}

/// What is done to the requests of one model.
#[derive(Clone, Copy, Debug, PartialEq, Eq, Structural)]
pub struct ModelTestControl {
    pub chat_failure: bool,
    pub bringup_blocked: bool,
}

impl View for ModelTestControl {
    type V = ModelTestControl;

    open spec fn view(&self) -> ModelTestControl {
        *self
    }
}

impl Default for ModelTestControl {
    fn default() -> (control: Self)
        ensures
            control == uncontrolled(),
    {
        ModelTestControl { chat_failure: false, bringup_blocked: false }
    }
}

pub open spec fn uncontrolled() -> ModelTestControl {
    ModelTestControl { chat_failure: false, bringup_blocked: false }
}

/// A change of what is done; what is not named stays.
#[derive(Clone, Copy, Debug, PartialEq, Eq, Structural)]
pub struct ModelTestControlUpdate {
    pub chat_failure: Option<bool>,
    pub bringup_blocked: Option<bool>,
}

impl Default for ModelTestControlUpdate {
    fn default() -> (update: Self)
        ensures
            update.chat_failure is None,
            update.bringup_blocked is None,
    {
        ModelTestControlUpdate { chat_failure: None, bringup_blocked: None }
    }
}

pub open spec fn controlled(control: ModelTestControl, update: ModelTestControlUpdate) -> ModelTestControl {
    ModelTestControl {
        chat_failure: match update.chat_failure {
            Some(chat_failure) => chat_failure,
            None => control.chat_failure,
        },
        bringup_blocked: match update.bringup_blocked {
            Some(bringup_blocked) => bringup_blocked,
            None => control.bringup_blocked,
        },
    }
}

pub open spec fn control_of(models: Map<Seq<char>, ModelTestControl>, model: Seq<char>) -> ModelTestControl {
    if models.contains_key(model) {
        models[model]
    } else {
        uncontrolled()
    }
}

/// How often a kind of request was seen.
pub open spec fn count_of(counters: Map<CounterId, u64>, id: CounterId) -> u64 {
    if counters.contains_key(id) {
        counters[id]
    } else {
        0
    }
}

#[derive(Debug)]
pub struct TestCounterSnapshot {
    pub endpoint: TestEndpoint,
    pub model: String,
    pub request_class: TestRequestClass,
    pub count: u64,
}

impl TestCounterSnapshot {
    pub open spec fn id(&self) -> CounterId {
        CounterId { endpoint: self.endpoint, model: self.model@, request_class: self.request_class }
    }
}

#[derive(Debug)]
pub struct ModelControlSnapshot {
    pub model: String,
    pub control: ModelTestControl,
}

/// A picture of the controls and counters.
#[derive(Debug)]
pub struct TestControlSnapshot {
    pub discovered_models: Vec<String>,
    pub model_discovery_requests: u64,
    pub models: Vec<ModelControlSnapshot>,
    pub counters: Vec<TestCounterSnapshot>,
}

pub open spec fn counter_ids(counters: Seq<TestCounterSnapshot>) -> Seq<CounterId> {
    counters.map_values(|counter: TestCounterSnapshot| counter.id())
}

/// The count of the first counter of this kind, and zero where there is none.
pub open spec fn first_count(counters: Seq<TestCounterSnapshot>, id: CounterId) -> u64
    decreases counters.len(),
{
    if counters.len() == 0 {
        0
    } else if counters[0].id() == id {
        counters[0].count
    } else {
        first_count(counters.drop_first(), id)
    }
}

pub open spec fn model_names(models: Seq<ModelControlSnapshot>) -> Seq<Seq<char>> {
    models.map_values(|model: ModelControlSnapshot| model.model@)
}

impl TestControlSnapshot {
    /// The picture shows the counters.
    pub open spec fn shows_counters(&self, counters: Map<CounterId, u64>) -> bool {
        &&& crate::keyed::lists::<TestCounterKey>(counter_ids(self.counters@), counters.dom())
        &&& forall|i: int|
            0 <= i < self.counters.len() ==> (#[trigger] self.counters[i]).count == counters[self.counters[i].id()]
    }

    /// How often a kind of request was seen, by the first counter of its kind.
    pub fn counter(&self, endpoint: TestEndpoint, model: &str, request_class: TestRequestClass) -> (count: u64)
        ensures
            count == first_count(self.counters@, (CounterId { endpoint, model: model@, request_class })),
            forall|counters: Map<CounterId, u64>| #[trigger]
                self.shows_counters(counters) ==> count == count_of(
                    counters,
                    (CounterId { endpoint, model: model@, request_class }),
                ),
    {
        let ghost id = CounterId { endpoint, model: model@, request_class };
        let ghost ids = counter_ids(self.counters@);
        let mut i: usize = 0;
        assert(self.counters@.skip(0) =~= self.counters@);
        while i < self.counters.len()
            invariant
                i <= self.counters.len(),
                ids == counter_ids(self.counters@),
                first_count(self.counters@, id) == first_count(self.counters@.skip(i as int), id),
                id == (CounterId { endpoint, model: model@, request_class }),
                forall|j: int| 0 <= j < i ==> #[trigger] ids[j] != id,
            decreases self.counters.len() - i,
        {
            let counter = &self.counters[i];
            proof {
                assert(ids[i as int] == counter.id());
                assert(self.counters@.skip(i as int)[0] == counter);
                assert(self.counters@.skip(i as int).drop_first() =~= self.counters@.skip(i + 1));
            }
            if counter.endpoint == endpoint && counter.request_class == request_class && same_text(
                counter.model.as_str(),
                model,
            ) {
                proof {
                    assert forall|counters: Map<CounterId, u64>| #[trigger]
                        self.shows_counters(counters) implies counter.count == count_of(counters, id) by {
                        assert(ids.to_set().contains(ids[i as int]));
                        assert(counters.dom().contains(id));
                    }
                }
                return counter.count;
            }
            i += 1;
        }
        proof {
            assert forall|counters: Map<CounterId, u64>| #[trigger] self.shows_counters(counters) implies 0
                == count_of(counters, id) by {
                if counters.contains_key(id) {
                    assert(ids.to_set().contains(id));
                    let j = choose|j: int| 0 <= j < ids.len() && ids[j] == id;
                    assert(ids[j] != id);
                }
            }
        }
        0
    }
}

/// The controls and counters.
#[derive(Debug)]
pub struct TestControlState {
    discovered_models: SortedSet<String>,
    model_discovery_requests: u64,
    models: SortedMap<String, ModelTestControl>,
    counters: SortedMap<TestCounterKey, u64>,
}

impl Default for TestControlState {
    fn default() -> (state: Self)
        ensures
            state.discovered() == Set::<Seq<char>>::empty(),
            state.discovery_requests() == 0,
            state.models() == Map::<Seq<char>, ModelTestControl>::empty(),
            state.counters() == Map::<CounterId, u64>::empty(),
    {
        TestControlState {
            discovered_models: SortedSet::new(),
            model_discovery_requests: 0,
            models: SortedMap::new(),
            counters: SortedMap::new(),
        }
    }
}

/// The first `len` of the texts, without the white space around them.
pub open spec fn trimmed_members(texts: Seq<Seq<char>>, len: int) -> Set<Seq<char>> {
    Set::new(|text: Seq<char>| exists|i: int| 0 <= i < len && crate::text::trimmed(#[trigger] texts[i]) == text)
}

impl TestControlState {
    pub closed spec fn discovered(&self) -> Set<Seq<char>> {
        self.discovered_models@
    }

    pub closed spec fn discovery_requests(&self) -> u64 {
        self.model_discovery_requests
    }

    pub closed spec fn models(&self) -> Map<Seq<char>, ModelTestControl> {
        self.models@
    }

    pub closed spec fn counters(&self) -> Map<CounterId, u64> {
        self.counters@
    }

    pub fn with_discovered_models(model_ids: &[String]) -> (state: Self)
        ensures
            state.discovered() == crate::keyed::views(model_ids@).to_set(),
            state.discovery_requests() == 0,
            state.models() == Map::<Seq<char>, ModelTestControl>::empty(),
            state.counters() == Map::<CounterId, u64>::empty(),
    {
        let ghost ids = crate::keyed::views(model_ids@);
        let mut state = TestControlState::default();
        let mut i: usize = 0;
        while i < model_ids.len()
            invariant
                i <= model_ids.len(),
                ids == crate::keyed::views(model_ids@),
                state.discovery_requests() == 0,
                state.models() == Map::<Seq<char>, ModelTestControl>::empty(),
                state.counters() == Map::<CounterId, u64>::empty(),
                forall|id: Seq<char>| #[trigger]
                    state.discovered_models@.contains(id) <==> exists|j: int| 0 <= j < i && #[trigger] ids[j] == id,
            decreases model_ids.len() - i,
        {
            let ghost before = state.discovered_models@;
            let _ = state.discovered_models.insert(model_ids[i].clone());
            proof {
                assert(ids[i as int] == model_ids[i as int]@);
                assert forall|id: Seq<char>| #[trigger]
                    state.discovered_models@.contains(id) <==> exists|j: int|
                        0 <= j < i + 1 && #[trigger] ids[j] == id by {
                    if exists|j: int| 0 <= j < i + 1 && #[trigger] ids[j] == id {
                        let j = choose|j: int| 0 <= j < i + 1 && #[trigger] ids[j] == id;
                        if j < i {
                            assert(before.contains(id));
                        }
                    }
                }
            }
            i += 1;
        }
        proof {
            assert forall|id: Seq<char>| #[trigger]
                state.discovered_models@.contains(id) <==> ids.to_set().contains(id) by {
                if ids.to_set().contains(id) {
                    let j = choose|j: int| 0 <= j < ids.len() && ids[j] == id;
                    assert(ids[j] == id);
                }
                if exists|j: int| 0 <= j < ids.len() && #[trigger] ids[j] == id {
                    let j = choose|j: int| 0 <= j < ids.len() && #[trigger] ids[j] == id;
                    assert(ids.contains(ids[j]));
                }
            }
            assert(state.discovered_models@ =~= ids.to_set());
        }
        state
    }

    /// Puts other models in place of those that are shown. One without a name
    /// is refused, and nothing changes.
    pub fn replace_discovered_models(&mut self, model_ids: &[String]) -> (replaced: Result<(), &'static str>)
        ensures
            final(self).discovery_requests() == old(self).discovery_requests(),
            final(self).models() == old(self).models(),
            final(self).counters() == old(self).counters(),
            match replaced {
                Ok(()) => {
                    &&& forall|i: int|
                        0 <= i < model_ids.len() ==> crate::text::trimmed(#[trigger] model_ids[i]@).len() > 0
                    &&& final(self).discovered() == trimmed_members(
                        crate::keyed::views(model_ids@),
                        model_ids.len() as int,
                    )
                },
                Err(message) => {
                    &&& message@ == "model IDs must be non-empty"@
                    &&& exists|i: int|
                        0 <= i < model_ids.len() && crate::text::trimmed(#[trigger] model_ids[i]@).len() == 0
                    &&& final(self).discovered() == old(self).discovered()
                },
            },
    {
        let ghost ids = crate::keyed::views(model_ids@);
        let mut models: SortedSet<String> = SortedSet::new();
        let mut i: usize = 0;
        assert(models@ =~= trimmed_members(ids, 0));
        while i < model_ids.len()
            invariant
                i <= model_ids.len(),
                ids == crate::keyed::views(model_ids@),
                *self == *old(self),
                models@ == trimmed_members(ids, i as int),
                forall|j: int| 0 <= j < i ==> crate::text::trimmed(#[trigger] model_ids[j]@).len() > 0,
            decreases model_ids.len() - i,
        {
            let model_id = trim(model_ids[i].as_str());
            proof {
                reveal_strlit("");
                assert(model_id@.len() == 0 ==> model_id@ =~= ""@);
            }
            if same_text(model_id.as_str(), "") {
                assert(crate::text::trimmed(model_ids[i as int]@).len() == 0);
                return Err("model IDs must be non-empty");
            }
            let ghost before = models@;
            let _ = models.insert(model_id);
            proof {
                assert(ids[i as int] == model_ids[i as int]@);
                assert forall|text: Seq<char>| #[trigger]
                    models@.contains(text) <==> trimmed_members(ids, i + 1).contains(text) by {
                    if trimmed_members(ids, i + 1).contains(text) {
                        let j = choose|j: int|
                            0 <= j < i + 1 && crate::text::trimmed(#[trigger] ids[j]) == text;
                        if j < i {
                            assert(before.contains(text));
                        }
                    }
                    if models@.contains(text) && before.contains(text) {
                        let j = choose|j: int| 0 <= j < i && crate::text::trimmed(#[trigger] ids[j]) == text;
                        assert(crate::text::trimmed(ids[j]) == text);
                    }
                }
                assert(models@ =~= trimmed_members(ids, i + 1));
            }
            i += 1;
        }
        self.discovered_models = models;
        Ok(())
    }

    /// Counts a request for the models, and shows them in ascending order.
    pub fn record_model_discovery_request(&mut self) -> (models: Vec<String>)
        ensures
            final(self).discovery_requests() == crate::queue_admission::saturating_sum(
                old(self).discovery_requests(),
                1,
            ),
            final(self).discovered() == old(self).discovered(),
            final(self).models() == old(self).models(),
            final(self).counters() == old(self).counters(),
            crate::keyed::lists::<String>(crate::keyed::views(models@), old(self).discovered()),
    {
        self.model_discovery_requests = self.model_discovery_requests.saturating_add(1);
        self.discovered_models.to_vec()
    }

    /// Changes what is done to the requests of a model. Whether requests that
    /// wait for the model's bringup may go on.
    pub fn update_model(&mut self, model: &str, update: ModelTestControlUpdate) -> (released: bool)
        ensures
            final(self).models() == old(self).models().insert(
                model@,
                controlled(control_of(old(self).models(), model@), update),
            ),
            released == !final(self).models()[model@].bringup_blocked,
            final(self).discovered() == old(self).discovered(),
            final(self).discovery_requests() == old(self).discovery_requests(),
            final(self).counters() == old(self).counters(),
    {
        let mut control = self.control(model);
        if let Some(chat_failure) = update.chat_failure {
            control.chat_failure = chat_failure;
        }
        if let Some(bringup_blocked) = update.bringup_blocked {
            control.bringup_blocked = bringup_blocked;
        }
        self.models.insert(model.to_string(), control);
        !control.bringup_blocked
    }

    fn control(&self, model: &str) -> (control: ModelTestControl)
        ensures
            control == control_of(self.models(), model@),
    {
        match self.models.get(&model.to_string()) {
            Some(control) => *control,
            None => ModelTestControl::default(),
        }
    }

    /// Whether chat requests for a model fail.
    pub fn chat_failure_enabled(&self, model: &str) -> (enabled: bool)
        ensures
            enabled == control_of(self.models(), model@).chat_failure,
    {
        self.control(model).chat_failure
    }

    /// Whether the bringup requests for a model wait.
    pub fn bringup_blocked(&self, model: &str) -> (blocked: bool)
        ensures
            blocked == control_of(self.models(), model@).bringup_blocked,
    {
        self.control(model).bringup_blocked
    }

    /// Counts a request.
    pub fn record_request(&mut self, endpoint: TestEndpoint, model: &str, request_class: TestRequestClass)
        ensures
            ({
                let id = CounterId { endpoint, model: model@, request_class };
                final(self).counters() == old(self).counters().insert(
                    id,
                    crate::queue_admission::saturating_sum(count_of(old(self).counters(), id), 1),
                )
            }),
            final(self).discovered() == old(self).discovered(),
            final(self).discovery_requests() == old(self).discovery_requests(),
            final(self).models() == old(self).models(),
    {
        let key = TestCounterKey { endpoint, model: model.to_string(), request_class };
        let count: u64 = match self.counters.get(&key) {
            Some(count) => *count,
            None => 0,
        };
        self.counters.insert(key, count.saturating_add(1));
    }

    /// A picture of everything.
    pub fn snapshot(&self) -> (snapshot: TestControlSnapshot)
        ensures
            crate::keyed::lists::<String>(crate::keyed::views(snapshot.discovered_models@), self.discovered()),
            snapshot.model_discovery_requests == self.discovery_requests(),
            crate::keyed::lists::<String>(model_names(snapshot.models@), self.models().dom()),
            forall|i: int|
                0 <= i < snapshot.models.len() ==> (#[trigger] snapshot.models[i]).control
                    == self.models()[snapshot.models[i].model@],
            snapshot.shows_counters(self.counters()),
    {
        let mut models: Vec<ModelControlSnapshot> = Vec::new();
        let model_count: usize = self.models.len();
        let ghost order = self.models.order();
        let mut i: usize = 0;
        while i < model_count
            invariant
                i <= model_count == order.len(),
                order == self.models.order(),
                models.len() == i,
                forall|j: int| 0 <= j < i ==> (#[trigger] models[j]).model@ == order[j],
                forall|j: int| 0 <= j < i ==> (#[trigger] models[j]).control == self.models()[order[j]],
            decreases model_count - i,
        {
            models.push(
                ModelControlSnapshot {
                    model: self.models.key_at(i).clone(),
                    control: *self.models.value_at(i),
                },
            );
            i += 1;
        }
        assert(model_names(models@) =~= order);
        let mut counters: Vec<TestCounterSnapshot> = Vec::new();
        let counter_count: usize = self.counters.len();
        let ghost ids = self.counters.order();
        let mut i: usize = 0;
        while i < counter_count
            invariant
                i <= counter_count == ids.len(),
                ids == self.counters.order(),
                counters.len() == i,
                forall|j: int| 0 <= j < i ==> (#[trigger] counters[j]).id() == ids[j],
                forall|j: int| 0 <= j < i ==> (#[trigger] counters[j]).count == self.counters()[ids[j]],
            decreases counter_count - i,
        {
            let key = self.counters.key_at(i);
            counters.push(
                TestCounterSnapshot {
                    endpoint: key.endpoint,
                    model: key.model.clone(),
                    request_class: key.request_class,
                    count: *self.counters.value_at(i),
                },
            );
            i += 1;
        }
        assert(counter_ids(counters@) =~= ids);
        TestControlSnapshot {
            discovered_models: self.discovered_models.to_vec(),
            model_discovery_requests: self.model_discovery_requests,
            models,
            counters,
        }
    }
}

/// Requests that the pylon makes of its own accord are known by their id.
pub open spec fn class_of(contents: crate::headers::HeaderContents) -> TestRequestClass {
    match crate::headers::first_text(contents, crate::tunnel_contract::HEADER_REQUEST_ID@) {
        Some(id) => if crate::text::occurs_at(id, CALIBRATION_REQUEST_ID_PREFIX@, 0) || crate::text::occurs_at(
            id,
            CANARY_REQUEST_ID_PREFIX@,
            0,
        ) {
            TestRequestClass::PylonGenerated
        } else {
            TestRequestClass::ApiGateway
        },
        None => TestRequestClass::ApiGateway,
    }
}

pub fn request_class(headers: &HeaderMap<HeaderValue>) -> (class: TestRequestClass)
    ensures
        class == class_of(crate::headers::header_contents(*headers)),
{
    proof {
        crate::tunnel_contract::lemma_header_names();
    }
    match header_text(headers, crate::tunnel_contract::HEADER_REQUEST_ID) {
        Some(id) => if starts_with_text(id.as_str(), CALIBRATION_REQUEST_ID_PREFIX) || starts_with_text(
            id.as_str(),
            CANARY_REQUEST_ID_PREFIX,
        ) {
            TestRequestClass::PylonGenerated
        } else {
            TestRequestClass::ApiGateway
        },
        None => TestRequestClass::ApiGateway,
    }
}

/// Controls of one model do not touch another.
pub proof fn law_controls_are_isolated(
    models: Map<Seq<char>, ModelTestControl>,
    model: Seq<char>,
    other: Seq<char>,
    update: ModelTestControlUpdate,
)
    requires
        model != other,
    ensures
        control_of(models.insert(model, controlled(control_of(models, model), update)), other) == control_of(
            models,
            other,
        ),
{
}

} // verus!
