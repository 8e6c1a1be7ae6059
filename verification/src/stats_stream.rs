//! The load that an engine reports: what its requests have consumed and
//! produced since the last report, and what is live.

use vstd::prelude::*;

use crate::json_text::{json_string, json_truth};
use crate::keyed::{SortedMap, SortedSet};
use crate::relay::{
    metadata, model_registration, pool_identity, pool_load, DataStatus, LoadSnapshot, ModelRegistration, PoolIdentity,
    PoolLoad,
};
use crate::text::{decimal, join_texts, same_text};

verus! {

/// The time between two reports, in milliseconds.
pub const WINDOW_MS: u64 = 1_000;

/// What a request has consumed and produced so far.
#[derive(Debug)]
pub struct StatsStreamEvent {
    pub request_id: String,
    pub model: String,
    pub input_tokens: u64,
    pub output_tokens: u64,
    pub finished: bool,
}

/// A request that has not finished.
#[derive(Debug)]
pub struct LiveLoad {
    pub model: String,
    pub input_tokens: u64,
    pub output_tokens: u64,
}

#[verifier::ext_equal]
pub struct LiveLoadView {
    pub model: Seq<char>,
    pub input_tokens: u64,
    pub output_tokens: u64,
}

impl View for LiveLoad {
    type V = LiveLoadView;

    open spec fn view(&self) -> LiveLoadView {
        LiveLoadView { model: self.model@, input_tokens: self.input_tokens, output_tokens: self.output_tokens }
    }
}

/// What happened to the requests of a model since the last report.
#[derive(Clone, Copy, Debug, PartialEq, Eq, Structural)]
pub struct WindowCounters {
    pub requests_started: u64,
    pub requests_completed: u64,
    pub input_tokens: u64,
    pub output_tokens: u64,
}

impl View for WindowCounters {
    type V = WindowCounters;

    open spec fn view(&self) -> WindowCounters {
        *self
    }
}

pub open spec fn no_counts() -> WindowCounters {
    WindowCounters { requests_started: 0, requests_completed: 0, input_tokens: 0, output_tokens: 0 }
}

impl Default for WindowCounters {
    fn default() -> (counters: Self)
        ensures
            counters == no_counts(),
    {
        WindowCounters { requests_started: 0, requests_completed: 0, input_tokens: 0, output_tokens: 0 }
    }
}

/// The live requests by their id.
pub type LiveLoads = Map<Seq<char>, LiveLoadView>;

/// The counters by model.
pub type Windows = Map<Seq<char>, WindowCounters>;

pub open spec fn window_of(windows: Windows, model: Seq<char>) -> WindowCounters {
    if windows.contains_key(model) {
        windows[model]
    } else {
        no_counts()
    }
}

/// The amount by which `now` exceeds `before`.
pub open spec fn excess(now: u64, before: u64) -> u64 {
    if now > before {
        (now - before) as u64
    } else {
        0
    }
}

/// What an event adds to the counters of its model: a request counts with what
/// it has more than when it was last heard of.
pub open spec fn counted_window(live: LiveLoads, window: WindowCounters, event: StatsStreamEvent) -> WindowCounters {
    let known = live.contains_key(event.request_id@);
    let before = live[event.request_id@];
    WindowCounters {
        requests_started: if known {
            window.requests_started
        } else {
            crate::queue_admission::saturating_sum(window.requests_started, 1)
        },
        requests_completed: if event.finished {
            crate::queue_admission::saturating_sum(window.requests_completed, 1)
        } else {
            window.requests_completed
        },
        input_tokens: crate::queue_admission::saturating_sum(
            window.input_tokens,
            if known {
                excess(event.input_tokens, before.input_tokens)
            } else {
                event.input_tokens
            },
        ),
        output_tokens: crate::queue_admission::saturating_sum(
            window.output_tokens,
            if known {
                excess(event.output_tokens, before.output_tokens)
            } else {
                event.output_tokens
            },
        ),
    }
}

/// The live requests after an event.
pub open spec fn live_after(live: LiveLoads, event: StatsStreamEvent) -> LiveLoads {
    let id = event.request_id@;
    if event.finished {
        live.remove(id)
    } else if live.contains_key(id) {
        live.insert(
            id,
            LiveLoadView {
                model: live[id].model,
                input_tokens: crate::kv_cache::larger(live[id].input_tokens, event.input_tokens),
                output_tokens: crate::kv_cache::larger(live[id].output_tokens, event.output_tokens),
            },
        )
    } else {
        live.insert(
            id,
            LiveLoadView {
                model: event.model@,
                input_tokens: event.input_tokens,
                output_tokens: event.output_tokens,
            },
        )
    }
}

/// One for a request of the model that has produced nothing yet.
pub open spec fn waits(model: Seq<char>) -> spec_fn(LiveLoadView) -> nat {
    |request: LiveLoadView| if request.model == model && request.output_tokens == 0 { 1nat } else { 0nat }
}

/// One for a request of the model that has produced something.
pub open spec fn produces(model: Seq<char>) -> spec_fn(LiveLoadView) -> nat {
    |request: LiveLoadView| if request.model == model && request.output_tokens > 0 { 1nat } else { 0nat }
}

/// The input of a request of the model that has produced nothing yet.
pub open spec fn waiting_input(model: Seq<char>) -> spec_fn(LiveLoadView) -> nat {
    |request: LiveLoadView|
        if request.model == model && request.output_tokens == 0 { request.input_tokens as nat } else { 0nat }
}

/// The input of a request of the model.
pub open spec fn live_input(model: Seq<char>) -> spec_fn(LiveLoadView) -> nat {
    |request: LiveLoadView| if request.model == model { request.input_tokens as nat } else { 0nat }
}

/// The load of one model.
#[derive(Debug)]
pub struct ModelLoad {
    pub model: ModelRegistration,
    pub ready_frontends: Option<u64>,
    pub pending_first_output_requests: Option<u64>,
    pub pending_first_output_input_tokens: Option<u128>,
    pub live_input_tokens: Option<u128>,
    pub input_processing_requests: Option<u64>,
    pub output_generation_requests: Option<u64>,
    pub serving_pools: Vec<PoolIdentity>,
    pub requests_started: u64,
    pub requests_completed: u64,
    pub requests_failed: u64,
    pub requests_cancelled: u64,
    pub input_tokens: Option<u64>,
    pub output_tokens: u64,
    pub status: DataStatus,
    pub expected_frontends: u64,
    pub observed_frontends: u64,
    pub source_observed_at_unix_ms: u64,
}

impl ModelLoad {
    /// The load is that of the live requests and the counters, seen by the
    /// only frontend of the only pool.
    pub open spec fn describes(&self, live: LiveLoads, window: WindowCounters, now_unix_ms: u64) -> bool {
        let model = self.model.model@;
        &&& self.model.names(model)
        &&& self.ready_frontends == Some(1u64)
        &&& self.serving_pools@.len() == 1 && self.serving_pools@[0].only_pool()
        &&& self.requests_failed == 0
        &&& self.requests_cancelled == 0
        &&& self.status is Complete
        &&& self.expected_frontends == 1
        &&& self.observed_frontends == 1
        &&& self.source_observed_at_unix_ms == now_unix_ms
        &&& self.input_processing_requests matches Some(count) && count == crate::sums::total(live, waits(model))
        &&& self.pending_first_output_requests == self.input_processing_requests
        &&& self.output_generation_requests matches Some(count) && count == crate::sums::total(
            live,
            produces(model),
        )
        &&& self.pending_first_output_input_tokens matches Some(tokens) && tokens == crate::sums::total(
            live,
            waiting_input(model),
        )
        &&& self.live_input_tokens matches Some(tokens) && tokens == crate::sums::total(live, live_input(model))
        &&& self.requests_started == window.requests_started
        &&& self.requests_completed == window.requests_completed
        &&& self.input_tokens == Some(window.input_tokens)
        &&& self.output_tokens == window.output_tokens
    }
}

/// The models that a report speaks of: the configured one, those of the live
/// requests, and those with counters.
pub open spec fn reported(live: LiveLoads, windows: Windows, configured: Seq<char>) -> Set<Seq<char>> {
    Set::new(
        |model: Seq<char>|
            {
                ||| model == configured
                ||| windows.contains_key(model)
                ||| exists|id: Seq<char>| #[trigger] live.contains_key(id) && live[id].model == model
            },
    )
}

pub open spec fn names(models: Seq<ModelLoad>) -> Seq<Seq<char>> {
    models.map_values(|load: ModelLoad| load.model.model@)
}

/// Adds the events up.
#[derive(Debug)]
pub struct LoadAccumulator {
    live: SortedMap<String, LiveLoad>,
    windows: SortedMap<String, WindowCounters>,
}

impl Default for LoadAccumulator {
    fn default() -> (accumulator: Self)
        ensures
            accumulator.live() == Map::<Seq<char>, LiveLoadView>::empty(),
            accumulator.windows() == Map::<Seq<char>, WindowCounters>::empty(),
    {
        LoadAccumulator { live: SortedMap::new(), windows: SortedMap::new() }
    }
}

fn later(a: u64, b: u64) -> (max: u64)
    ensures
        max == crate::kv_cache::larger(a, b),
{
    if a < b {
        b
    } else {
        a
    }
}

impl LoadAccumulator {
    pub closed spec fn live(&self) -> LiveLoads {
        self.live@
    }

    pub closed spec fn windows(&self) -> Windows {
        self.windows@
    }

    /// Takes an event in.
    pub fn observe(&mut self, event: &StatsStreamEvent)
        ensures
            final(self).live() == live_after(old(self).live(), *event),
            final(self).windows() == old(self).windows().insert(
                event.model@,
                counted_window(
                    old(self).live(),
                    window_of(old(self).windows(), event.model@),
                    *event,
                ),
            ),
    {
        let mut window = match self.windows.get(&event.model) {
            Some(window) => *window,
            None => WindowCounters::default(),
        };
        let known = match self.live.get(&event.request_id) {
            Some(request) => Some(
                LiveLoad {
                    model: request.model.clone(),
                    input_tokens: request.input_tokens,
                    output_tokens: request.output_tokens,
                },
            ),
            None => None,
        };
        let next = match known {
            Some(request) => {
                window.input_tokens = window.input_tokens.saturating_add(
                    event.input_tokens.saturating_sub(request.input_tokens),
                );
                window.output_tokens = window.output_tokens.saturating_add(
                    event.output_tokens.saturating_sub(request.output_tokens),
                );
                LiveLoad {
                    model: request.model,
                    input_tokens: later(request.input_tokens, event.input_tokens),
                    output_tokens: later(request.output_tokens, event.output_tokens),
                }
            },
            None => {
                window.requests_started = window.requests_started.saturating_add(1);
                window.input_tokens = window.input_tokens.saturating_add(event.input_tokens);
                window.output_tokens = window.output_tokens.saturating_add(event.output_tokens);
                LiveLoad {
                    model: event.model.clone(),
                    input_tokens: event.input_tokens,
                    output_tokens: event.output_tokens,
                }
            },
        };
        if event.finished {
            let _ = self.live.remove(&event.request_id);
            window.requests_completed = window.requests_completed.saturating_add(1);
        } else {
            self.live.insert(event.request_id.clone(), next);
        }
        self.windows.insert(event.model.clone(), window);
    }

    fn reported_models(&self, configured_model: &str) -> (models: Vec<String>)
        ensures
            crate::keyed::lists::<String>(
                crate::keyed::views(models@),
                reported(self.live(), self.windows(), configured_model@),
            ),
    {
        let ghost live = self.live();
        let ghost windows = self.windows();
        let mut models: SortedSet<String> = SortedSet::new();
        let _ = models.insert(configured_model.to_string());
        let len: usize = self.live.len();
        let ghost order = self.live.order();
        let mut i: usize = 0;
        while i < len
            invariant
                i <= len == order.len(),
                order == self.live.order(),
                live == self.live@,
                forall|model: Seq<char>| #[trigger]
                    models@.contains(model) <==> model == configured_model@ || exists|j: int|
                        0 <= j < i && live[#[trigger] order[j]].model == model,
            decreases len - i,
        {
            let ghost before = models@;
            let model = self.live.value_at(i).model.clone();
            let _ = models.insert(model);
            proof {
                assert forall|other: Seq<char>| #[trigger]
                    models@.contains(other) <==> other == configured_model@ || exists|j: int|
                        0 <= j < i + 1 && live[#[trigger] order[j]].model == other by {
                    if models@.contains(other) && !before.contains(other) {
                        assert(live[order[i as int]].model == other);
                    }
                    if other != configured_model@ && exists|j: int|
                        0 <= j < i + 1 && live[#[trigger] order[j]].model == other {
                        let j = choose|j: int| 0 <= j < i + 1 && live[#[trigger] order[j]].model == other;
                        if j < i {
                            assert(before.contains(other));
                        }
                    }
                }
            }
            i += 1;
        }
        let ghost of_live = models@;
        proof {
            assert forall|model: Seq<char>| #[trigger]
                of_live.contains(model) <==> model == configured_model@ || exists|id: Seq<char>| #[trigger]
                    live.contains_key(id) && live[id].model == model by {
                if exists|j: int| 0 <= j < len && live[#[trigger] order[j]].model == model {
                    let j = choose|j: int| 0 <= j < len && live[#[trigger] order[j]].model == model;
                    assert(order.to_set().contains(order[j]));
                    assert(live.contains_key(order[j]));
                }
                if exists|id: Seq<char>| #[trigger] live.contains_key(id) && live[id].model == model {
                    let id = choose|id: Seq<char>| #[trigger] live.contains_key(id) && live[id].model == model;
                    assert(order.to_set().contains(id));
                    let j = choose|j: int| 0 <= j < order.len() && order[j] == id;
                    assert(live[order[j]].model == model);
                }
            }
        }
        let counted = self.windows.keys();
        let ghost order = crate::keyed::views(counted@);
        let mut i: usize = 0;
        while i < counted.len()
            invariant
                i <= counted.len(),
                order == crate::keyed::views(counted@),
                crate::keyed::lists::<String>(order, windows.dom()),
                forall|model: Seq<char>| #[trigger]
                    models@.contains(model) <==> of_live.contains(model) || exists|j: int|
                        0 <= j < i && #[trigger] order[j] == model,
            decreases counted.len() - i,
        {
            let ghost before = models@;
            let _ = models.insert(counted[i].clone());
            proof {
                assert(order[i as int] == counted[i as int]@);
                assert forall|other: Seq<char>| #[trigger]
                    models@.contains(other) <==> of_live.contains(other) || exists|j: int|
                        0 <= j < i + 1 && #[trigger] order[j] == other by {
                    if exists|j: int| 0 <= j < i + 1 && #[trigger] order[j] == other {
                        let j = choose|j: int| 0 <= j < i + 1 && #[trigger] order[j] == other;
                        if j < i {
                            assert(before.contains(other));
                        }
                    }
                }
            }
            i += 1;
        }
        proof {
            assert forall|model: Seq<char>| #[trigger]
                models@.contains(model) <==> reported(live, windows, configured_model@).contains(model) by {
                if windows.contains_key(model) {
                    assert(order.to_set().contains(model));
                    let j = choose|j: int| 0 <= j < order.len() && order[j] == model;
                    assert(order[j] == model);
                }
                if exists|j: int| 0 <= j < order.len() && #[trigger] order[j] == model {
                    let j = choose|j: int| 0 <= j < order.len() && #[trigger] order[j] == model;
                    assert(order.to_set().contains(order[j]));
                }
            }
            assert(models@ =~= reported(live, windows, configured_model@));
        }
        models.to_vec()
    }

    fn model_load(&self, model: &String, window: WindowCounters, now_unix_ms: u64) -> (load: ModelLoad)
        ensures
            load.model.model@ == model@,
            load.describes(self.live(), window, now_unix_ms),
    {
        let ghost live = self.live();
        let len: usize = self.live.len();
        let ghost order = self.live.order();
        let mut waiting: u64 = 0;
        let mut producing: u64 = 0;
        let mut waiting_tokens: u128 = 0;
        let mut tokens: u128 = 0;
        let mut i: usize = 0;
        assert(order.take(0) =~= Seq::<Seq<char>>::empty());
        while i < len
            invariant
                i <= len == order.len(),
                order == self.live.order(),
                live == self.live@,
                waiting <= i,
                producing <= i,
                waiting_tokens <= i * u64::MAX,
                tokens <= i * u64::MAX,
                waiting == crate::sums::listed(order.take(i as int), live, waits(model@)),
                producing == crate::sums::listed(order.take(i as int), live, produces(model@)),
                waiting_tokens == crate::sums::listed(order.take(i as int), live, waiting_input(model@)),
                tokens == crate::sums::listed(order.take(i as int), live, live_input(model@)),
            decreases len - i,
        {
            let request = self.live.value_at(i);
            proof {
                assert(order.take(i + 1).drop_last() =~= order.take(i as int));
                assert(order.take(i + 1).last() == order[i as int]);
                assert(i * u64::MAX + u64::MAX <= u128::MAX) by (nonlinear_arith)
                    requires
                        i < usize::MAX,
                        usize::MAX <= u64::MAX,
                ;
            }
            if same_text(request.model.as_str(), model.as_str()) {
                tokens = tokens + request.input_tokens as u128;
                if request.output_tokens == 0 {
                    waiting = waiting + 1;
                    waiting_tokens = waiting_tokens + request.input_tokens as u128;
                } else {
                    producing = producing + 1;
                }
            }
            i += 1;
        }
        proof {
            assert(order.take(len as int) =~= order);
            crate::keyed::lemma_ascending_distinct::<String>(order);
            crate::sums::lemma_listed(order, live, waits(model@));
            crate::sums::lemma_listed(order, live, produces(model@));
            crate::sums::lemma_listed(order, live, waiting_input(model@));
            crate::sums::lemma_listed(order, live, live_input(model@));
        }
        let mut serving_pools: Vec<PoolIdentity> = Vec::new();
        serving_pools.push(pool_identity());
        ModelLoad {
            model: model_registration(model.as_str()),
            ready_frontends: Some(1),
            pending_first_output_requests: Some(waiting),
            pending_first_output_input_tokens: Some(waiting_tokens),
            live_input_tokens: Some(tokens),
            input_processing_requests: Some(waiting),
            output_generation_requests: Some(producing),
            serving_pools,
            requests_started: window.requests_started,
            requests_completed: window.requests_completed,
            requests_failed: 0,
            requests_cancelled: 0,
            input_tokens: Some(window.input_tokens),
            output_tokens: window.output_tokens,
            status: DataStatus::Complete,
            expected_frontends: 1,
            observed_frontends: 1,
            source_observed_at_unix_ms: now_unix_ms,
        }
    }

    /// Reports the load and starts to count anew. What is live stays.
    pub fn snapshot(&mut self, configured_model: &str, now_unix_ms: u64) -> (snapshot: LoadSnapshot)
        ensures
            final(self).live() == old(self).live(),
            final(self).windows() == Map::<Seq<char>, WindowCounters>::empty(),
            snapshot.metadata.sent_at(now_unix_ms),
            snapshot.pools@.len() == 1 && snapshot.pools@[0].one_worker(now_unix_ms),
            snapshot.window_ms == WINDOW_MS,
            crate::keyed::lists::<String>(
                names(snapshot.models@),
                reported(old(self).live(), old(self).windows(), configured_model@),
            ),
            forall|i: int|
                0 <= i < snapshot.models.len() ==> (#[trigger] snapshot.models[i]).describes(
                    old(self).live(),
                    window_of(old(self).windows(), snapshot.models[i].model.model@),
                    now_unix_ms,
                ),
    {
        let ids = self.reported_models(configured_model);
        let mut models: Vec<ModelLoad> = Vec::new();
        let mut i: usize = 0;
        while i < ids.len()
            invariant
                i <= ids.len(),
                models.len() == i,
                *self == *old(self),
                forall|j: int| 0 <= j < i ==> (#[trigger] models[j]).model.model@ == ids[j]@,
                forall|j: int|
                    0 <= j < i ==> (#[trigger] models[j]).describes(
                        self.live(),
                        window_of(self.windows(), models[j].model.model@),
                        now_unix_ms,
                    ),
            decreases ids.len() - i,
        {
            let window = match self.windows.get(&ids[i]) {
                Some(window) => *window,
                None => WindowCounters::default(),
            };
            models.push(self.model_load(&ids[i], window, now_unix_ms));
            i += 1;
        }
        proof {
            assert(names(models@) =~= crate::keyed::views(ids@));
        }
        self.windows = SortedMap::new();
        let mut pools: Vec<PoolLoad> = Vec::new();
        pools.push(pool_load(now_unix_ms));
        LoadSnapshot { metadata: metadata(now_unix_ms), window_ms: WINDOW_MS, pools, models }
    }
}

/// One line of the statistics stream.
#[derive(Debug)]
pub enum StatsStreamLine {
    Stats {
        v: u32,
        request_id: String,
        model: String,
        tokens_processed: Option<u64>,
        tokens_generated: Option<u64>,
        finished: bool,
    },
}

/// A count in JSON.
pub open spec fn count_text(count: Option<u64>) -> Seq<char> {
    match count {
        Some(count) => crate::text::decimal_text(count as nat),
        None => "null"@,
    }
}

fn json_count(count: Option<u64>) -> (written: String)
    ensures
        written@ == count_text(count),
{
    match count {
        Some(count) => decimal(count),
        None => "null".to_string(),
    }
}

/// The JSON object of a line.
pub open spec fn line_object(line: StatsStreamLine) -> Seq<char> {
    match line {
        StatsStreamLine::Stats { v, request_id, model, tokens_processed, tokens_generated, finished } => {
            "{\"type\":\"stats\",\"v\":"@ + crate::text::decimal_text(v as nat) + ",\"request_id\":"@
                + crate::json_text::quoted(request_id@) + ",\"model\":"@ + crate::json_text::quoted(model@)
                + ",\"tokens_processed\":"@ + count_text(tokens_processed) + ",\"tokens_generated\":"@ + count_text(
                tokens_generated,
            ) + ",\"finished\":"@ + crate::json_text::truth(finished) + "}"@
        },
    }
}

/// Writes a line of the stream: a JSON object and a line break.
pub fn ndjson_event(line: &StatsStreamLine) -> (text: String)
    ensures
        text@ == line_object(*line) + "\n"@,
{
    match line {
        StatsStreamLine::Stats { v, request_id, model, tokens_processed, tokens_generated, finished } => {
            let text = join_texts("{\"type\":\"stats\",\"v\":", decimal(*v as u64).as_str());
            let text = join_texts(text.as_str(), ",\"request_id\":");
            let text = join_texts(text.as_str(), json_string(request_id.as_str()).as_str());
            let text = join_texts(text.as_str(), ",\"model\":");
            let text = join_texts(text.as_str(), json_string(model.as_str()).as_str());
            let text = join_texts(text.as_str(), ",\"tokens_processed\":");
            let text = join_texts(text.as_str(), json_count(*tokens_processed).as_str());
            let text = join_texts(text.as_str(), ",\"tokens_generated\":");
            let text = join_texts(text.as_str(), json_count(*tokens_generated).as_str());
            let text = join_texts(text.as_str(), ",\"finished\":");
            let text = join_texts(text.as_str(), json_truth(*finished));
            let text = join_texts(text.as_str(), "}");
            join_texts(text.as_str(), "\n")
        },
    }
}

proof fn lemma_count_line(count: Option<u64>)
    ensures
        crate::json_text::one_line(count_text(count)),
{
    reveal_strlit("null");
    if let Some(count) = count {
        crate::text::lemma_decimal_round_trip(count as nat);
    }
}

/// An event is written on one line, whatever it speaks of: the only line break
/// stands at its end.
pub proof fn law_event_is_one_line(line: StatsStreamLine)
    ensures
        crate::json_text::one_line(line_object(line)),
{
    match line {
        StatsStreamLine::Stats { v, request_id, model, tokens_processed, tokens_generated, finished } => {
            reveal_strlit("{\"type\":\"stats\",\"v\":");
            reveal_strlit(",\"request_id\":");
            reveal_strlit(",\"model\":");
            reveal_strlit(",\"tokens_processed\":");
            reveal_strlit(",\"tokens_generated\":");
            reveal_strlit(",\"finished\":");
            reveal_strlit("}");
            reveal_strlit("true");
            reveal_strlit("false");
            crate::text::lemma_decimal_round_trip(v as nat);
            crate::json_text::law_json_string_is_one_line(request_id@);
            crate::json_text::law_json_string_is_one_line(model@);
            lemma_count_line(tokens_processed);
            lemma_count_line(tokens_generated);
        },
    }
}

/// A report takes everything out of the counters and leaves what is live: a
/// second report right after it counts nothing, and shows the same live load.
pub proof fn law_report_starts_anew(live: LiveLoads, configured: Seq<char>, model: Seq<char>)
    ensures
        window_of(Map::<Seq<char>, WindowCounters>::empty(), model) == no_counts(),
        reported(live, Map::<Seq<char>, WindowCounters>::empty(), configured).contains(model) <==> {
            ||| model == configured
            ||| exists|id: Seq<char>| #[trigger] live.contains_key(id) && live[id].model == model
        },
{
}

/// An event that tells nothing new of a live request counts nothing.
pub proof fn law_repeated_event_counts_once(live: LiveLoads, window: WindowCounters, event: StatsStreamEvent)
    requires
        !event.finished,
    ensures
        counted_window(live_after(live, event), window, event) == window,
        live_after(live_after(live, event), event) == live_after(live, event),
{
    assert(live_after(live_after(live, event), event) =~= live_after(live, event));
}

} // verus!
