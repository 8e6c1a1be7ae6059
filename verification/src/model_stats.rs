//! The statistics of a model as they are kept and as they are advertised.

use vstd::prelude::*;

use crate::binary64::Binary64;
use crate::keyed::SortedMap;

verus! {

/// The standing of an inference server, or of one model on it.
#[derive(Clone, Copy, Debug, PartialEq, Eq, Structural, Hash)]
pub enum InferenceServerStatus {
    Unknown,
    Active,
    Inactive,
}

/// The key-value cache of an engine, as its own source reports it.
#[derive(Clone, Copy, Debug, PartialEq, Eq, Structural)]
pub struct CurrentKvCacheStats {
    pub capacity_tokens: u64,
    pub used_tokens: u64,
    pub free_tokens: u64,
    pub source_observed_at_unix_ms: u64,
}

/// What is known of a model at the moment.
#[derive(Debug)]
pub struct CurrentModelStats {
    /// The mean input rate last observed, which stays until another is.
    pub last_mean_input_tps: Binary64,
    /// Output tokens per second of streaming generation; embedding items are
    /// counted apart.
    pub output_tps: Binary64,
    pub embedding_item_tps: Binary64,
    pub queue_size: u64,
    pub queued_input_size: u64,
    pub max_output_tps: Binary64,
    pub max_embedding_item_tps: Binary64,
    pub kv_cache_capacity_tokens: u64,
    pub kv_cache_used_tokens: u64,
    pub kv_cache_free_tokens: u64,
    pub kv_cache: Option<CurrentKvCacheStats>,
    pub num_running_queries: u64,
    pub max_engine_concurrency: Option<u64>,
    pub total_query_input_size: u64,
    pub queue_time_estimate_ms_by_priority: Option<SortedMap<u32, u64>>,
    pub input_processing_queries: u64,
    pub output_generation_queries: u64,
    pub stats_observed_at_unix_ms: u64,
    pub stats_capabilities: Vec<String>,
    pub stats_sources: Vec<String>,
}

/// What `CurrentModelStats` stand for.
#[verifier::ext_equal]
pub struct StatsView {
    pub last_mean_input_tps: Binary64,
    pub output_tps: Binary64,
    pub embedding_item_tps: Binary64,
    pub queue_size: u64,
    pub queued_input_size: u64,
    pub max_output_tps: Binary64,
    pub max_embedding_item_tps: Binary64,
    pub kv_cache_capacity_tokens: u64,
    pub kv_cache_used_tokens: u64,
    pub kv_cache_free_tokens: u64,
    pub kv_cache: Option<CurrentKvCacheStats>,
    pub num_running_queries: u64,
    pub max_engine_concurrency: Option<u64>,
    pub total_query_input_size: u64,
    pub queue_time_estimate_ms_by_priority: Option<Map<u32, u64>>,
    pub input_processing_queries: u64,
    pub output_generation_queries: u64,
    pub stats_observed_at_unix_ms: u64,
    pub stats_capabilities: Seq<Seq<char>>,
    pub stats_sources: Seq<Seq<char>>,
}

pub open spec fn estimates_view(estimates: Option<SortedMap<u32, u64>>) -> Option<Map<u32, u64>> {
    match estimates {
        Some(estimates) => Some(estimates@),
        None => None,
    }
}

impl View for CurrentModelStats {
    type V = StatsView;

    open spec fn view(&self) -> StatsView {
        StatsView {
            last_mean_input_tps: self.last_mean_input_tps,
            output_tps: self.output_tps,
            embedding_item_tps: self.embedding_item_tps,
            queue_size: self.queue_size,
            queued_input_size: self.queued_input_size,
            max_output_tps: self.max_output_tps,
            max_embedding_item_tps: self.max_embedding_item_tps,
            kv_cache_capacity_tokens: self.kv_cache_capacity_tokens,
            kv_cache_used_tokens: self.kv_cache_used_tokens,
            kv_cache_free_tokens: self.kv_cache_free_tokens,
            kv_cache: self.kv_cache,
            num_running_queries: self.num_running_queries,
            max_engine_concurrency: self.max_engine_concurrency,
            total_query_input_size: self.total_query_input_size,
            queue_time_estimate_ms_by_priority: estimates_view(self.queue_time_estimate_ms_by_priority),
            input_processing_queries: self.input_processing_queries,
            output_generation_queries: self.output_generation_queries,
            stats_observed_at_unix_ms: self.stats_observed_at_unix_ms,
            stats_capabilities: crate::keyed::views(self.stats_capabilities@),
            stats_sources: crate::keyed::views(self.stats_sources@),
        }
    }
}

impl StatsView {
    /// Nothing is known.
    pub open spec fn unknown() -> StatsView {
        let zero = Binary64 { bits: 0 };
        StatsView {
            last_mean_input_tps: zero,
            output_tps: zero,
            embedding_item_tps: zero,
            queue_size: 0,
            queued_input_size: 0,
            max_output_tps: zero,
            max_embedding_item_tps: zero,
            kv_cache_capacity_tokens: 0,
            kv_cache_used_tokens: 0,
            kv_cache_free_tokens: 0,
            kv_cache: None,
            num_running_queries: 0,
            max_engine_concurrency: None,
            total_query_input_size: 0,
            queue_time_estimate_ms_by_priority: None,
            input_processing_queries: 0,
            output_generation_queries: 0,
            stats_observed_at_unix_ms: 0,
            stats_capabilities: Seq::empty(),
            stats_sources: Seq::empty(),
        }
    }
}

impl Default for CurrentModelStats {
    fn default() -> (stats: Self)
        ensures
            stats@ == StatsView::unknown(),
    {
        let zero = Binary64 { bits: 0 };
        let stats = CurrentModelStats {
            last_mean_input_tps: zero,
            output_tps: zero,
            embedding_item_tps: zero,
            queue_size: 0,
            queued_input_size: 0,
            max_output_tps: zero,
            max_embedding_item_tps: zero,
            kv_cache_capacity_tokens: 0,
            kv_cache_used_tokens: 0,
            kv_cache_free_tokens: 0,
            kv_cache: None,
            num_running_queries: 0,
            max_engine_concurrency: None,
            total_query_input_size: 0,
            queue_time_estimate_ms_by_priority: None,
            input_processing_queries: 0,
            output_generation_queries: 0,
            stats_observed_at_unix_ms: 0,
            stats_capabilities: Vec::new(),
            stats_sources: Vec::new(),
        };
        assert(stats@ =~= StatsView::unknown());
        stats
    }
}

/// A copy of a list of texts.
pub fn copy_texts(texts: &Vec<String>) -> (copy: Vec<String>)
    ensures
        crate::keyed::views(copy@) == crate::keyed::views(texts@),
{
    let mut copy: Vec<String> = Vec::new();
    let mut i: usize = 0;
    while i < texts.len()
        invariant
            i <= texts.len(),
            copy.len() == i,
            forall|j: int| 0 <= j < i ==> #[trigger] copy[j]@ == texts[j]@,
        decreases texts.len() - i,
    {
        copy.push(texts[i].clone());
        i += 1;
    }
    assert(crate::keyed::views(copy@) =~= crate::keyed::views(texts@));
    copy
}

/// A copy of the queue times by priority.
pub fn copy_estimates(estimates: &SortedMap<u32, u64>) -> (copy: SortedMap<u32, u64>)
    ensures
        copy@ == estimates@,
{
    let len: usize = estimates.len();
    let ghost order = estimates.order();
    let mut copy: SortedMap<u32, u64> = SortedMap::new();
    let mut i: usize = 0;
    while i < len
        invariant
            i <= len == order.len(),
            order == estimates.order(),
            order.to_set() == estimates@.dom(),
            forall|key: u32| #[trigger] copy@.contains_key(key) <==> order.take(i as int).contains(key),
            forall|key: u32| #[trigger] copy@.contains_key(key) ==> estimates@.contains_key(key) && copy@[key]
                == estimates@[key],
        decreases len - i,
    {
        let key: u32 = *estimates.key_at(i);
        let ghost before = copy@;
        copy.insert(key, *estimates.value_at(i));
        proof {
            let now = order.take(i + 1);
            assert(now =~= order.take(i as int).push(key));
            assert forall|other: u32| #[trigger] copy@.contains_key(other) <==> now.contains(other) by {
                if copy@.contains_key(other) {
                    if other == key {
                        assert(now[i as int] == other);
                    } else {
                        assert(before.contains_key(other));
                        let j = choose|j: int| 0 <= j < i && order.take(i as int)[j] == other;
                        assert(now[j] == other);
                    }
                }
                if now.contains(other) && other != key {
                    let j = choose|j: int| 0 <= j < now.len() && now[j] == other;
                    assert(order.take(i as int)[j] == other);
                    assert(before.contains_key(other));
                }
            }
        }
        i += 1;
    }
    proof {
        assert(order.take(len as int) =~= order);
        assert forall|key: u32| copy@.contains_key(key) == #[trigger] estimates@.contains_key(key) by {
            assert(order.to_set().contains(key) == order.contains(key));
            assert(copy@.contains_key(key) <==> order.take(len as int).contains(key));
        }
        assert(copy@ =~= estimates@);
    }
    copy
}

pub fn copy_optional_estimates(estimates: &Option<SortedMap<u32, u64>>) -> (copy: Option<SortedMap<u32, u64>>)
    ensures
        estimates_view(copy) == estimates_view(*estimates),
{
    match estimates {
        Some(estimates) => Some(copy_estimates(estimates)),
        None => None,
    }
}

impl Clone for CurrentModelStats {
    fn clone(&self) -> (copy: Self)
        ensures
            copy@ == self@,
    {
        let copy = CurrentModelStats {
            last_mean_input_tps: self.last_mean_input_tps,
            output_tps: self.output_tps,
            embedding_item_tps: self.embedding_item_tps,
            queue_size: self.queue_size,
            queued_input_size: self.queued_input_size,
            max_output_tps: self.max_output_tps,
            max_embedding_item_tps: self.max_embedding_item_tps,
            kv_cache_capacity_tokens: self.kv_cache_capacity_tokens,
            kv_cache_used_tokens: self.kv_cache_used_tokens,
            kv_cache_free_tokens: self.kv_cache_free_tokens,
            kv_cache: self.kv_cache,
            num_running_queries: self.num_running_queries,
            max_engine_concurrency: self.max_engine_concurrency,
            total_query_input_size: self.total_query_input_size,
            queue_time_estimate_ms_by_priority: copy_optional_estimates(&self.queue_time_estimate_ms_by_priority),
            input_processing_queries: self.input_processing_queries,
            output_generation_queries: self.output_generation_queries,
            stats_observed_at_unix_ms: self.stats_observed_at_unix_ms,
            stats_capabilities: copy_texts(&self.stats_capabilities),
            stats_sources: copy_texts(&self.stats_sources),
        };
        copy
    }
}

/// The statistics of a model as they are sent to the router.
#[derive(Debug)]
pub struct ModelStats {
    pub last_mean_input_tps: Binary64,
    pub output_tps: Binary64,
    pub max_output_tps: Binary64,
    pub queue_size: u64,
    pub queued_input_size: u64,
    pub kv_cache_capacity_tokens: u64,
    pub kv_cache_used_tokens: u64,
    pub kv_cache_free_tokens: u64,
    pub kv_cache: Option<CurrentKvCacheStats>,
    pub num_running_queries: u64,
    pub max_engine_concurrency: u64,
    pub total_query_input_size: u64,
    pub queue_time_estimate_ms_by_priority: SortedMap<u32, u64>,
    pub input_processing_queries: u64,
    pub output_generation_queries: u64,
    pub stats_observed_at_unix_ms: u64,
    pub stats_capabilities: Vec<String>,
    pub stats_sources: Vec<String>,
}

/// What `ModelStats` stand for.
#[verifier::ext_equal]
pub struct ModelStatsView {
    pub last_mean_input_tps: Binary64,
    pub output_tps: Binary64,
    pub max_output_tps: Binary64,
    pub queue_size: u64,
    pub queued_input_size: u64,
    pub kv_cache_capacity_tokens: u64,
    pub kv_cache_used_tokens: u64,
    pub kv_cache_free_tokens: u64,
    pub kv_cache: Option<CurrentKvCacheStats>,
    pub num_running_queries: u64,
    pub max_engine_concurrency: u64,
    pub total_query_input_size: u64,
    pub queue_time_estimate_ms_by_priority: Map<u32, u64>,
    pub input_processing_queries: u64,
    pub output_generation_queries: u64,
    pub stats_observed_at_unix_ms: u64,
    pub stats_capabilities: Seq<Seq<char>>,
    pub stats_sources: Seq<Seq<char>>,
}

impl View for ModelStats {
    type V = ModelStatsView;

    open spec fn view(&self) -> ModelStatsView {
        ModelStatsView {
            last_mean_input_tps: self.last_mean_input_tps,
            output_tps: self.output_tps,
            max_output_tps: self.max_output_tps,
            queue_size: self.queue_size,
            queued_input_size: self.queued_input_size,
            kv_cache_capacity_tokens: self.kv_cache_capacity_tokens,
            kv_cache_used_tokens: self.kv_cache_used_tokens,
            kv_cache_free_tokens: self.kv_cache_free_tokens,
            kv_cache: self.kv_cache,
            num_running_queries: self.num_running_queries,
            max_engine_concurrency: self.max_engine_concurrency,
            total_query_input_size: self.total_query_input_size,
            queue_time_estimate_ms_by_priority: self.queue_time_estimate_ms_by_priority@,
            input_processing_queries: self.input_processing_queries,
            output_generation_queries: self.output_generation_queries,
            stats_observed_at_unix_ms: self.stats_observed_at_unix_ms,
            stats_capabilities: crate::keyed::views(self.stats_capabilities@),
            stats_sources: crate::keyed::views(self.stats_sources@),
        }
    }
}

/// What is advertised of the statistics: absent limits and estimates are sent
/// as zero and as an empty map.
pub open spec fn advertised_stats(stats: StatsView) -> ModelStatsView {
    ModelStatsView {
        last_mean_input_tps: stats.last_mean_input_tps,
        output_tps: stats.output_tps,
        max_output_tps: stats.max_output_tps,
        queue_size: stats.queue_size,
        queued_input_size: stats.queued_input_size,
        kv_cache_capacity_tokens: stats.kv_cache_capacity_tokens,
        kv_cache_used_tokens: stats.kv_cache_used_tokens,
        kv_cache_free_tokens: stats.kv_cache_free_tokens,
        kv_cache: stats.kv_cache,
        num_running_queries: stats.num_running_queries,
        max_engine_concurrency: match stats.max_engine_concurrency {
            Some(limit) => limit,
            None => 0,
        },
        total_query_input_size: stats.total_query_input_size,
        queue_time_estimate_ms_by_priority: match stats.queue_time_estimate_ms_by_priority {
            Some(estimates) => estimates,
            None => Map::empty(),
        },
        input_processing_queries: stats.input_processing_queries,
        output_generation_queries: stats.output_generation_queries,
        stats_observed_at_unix_ms: stats.stats_observed_at_unix_ms,
        stats_capabilities: stats.stats_capabilities,
        stats_sources: stats.stats_sources,
    }
}

impl CurrentModelStats {
    /// The statistics as they are advertised.
    pub fn advertise(&self) -> (stats: ModelStats)
        ensures
            stats@ == advertised_stats(self@),
    {
        ModelStats {
            last_mean_input_tps: self.last_mean_input_tps,
            output_tps: self.output_tps,
            max_output_tps: self.max_output_tps,
            queue_size: self.queue_size,
            queued_input_size: self.queued_input_size,
            kv_cache_capacity_tokens: self.kv_cache_capacity_tokens,
            kv_cache_used_tokens: self.kv_cache_used_tokens,
            kv_cache_free_tokens: self.kv_cache_free_tokens,
            kv_cache: self.kv_cache,
            num_running_queries: self.num_running_queries,
            max_engine_concurrency: match self.max_engine_concurrency {
                Some(limit) => limit,
                None => 0,
            },
            total_query_input_size: self.total_query_input_size,
            queue_time_estimate_ms_by_priority: match &self.queue_time_estimate_ms_by_priority {
                Some(estimates) => copy_estimates(estimates),
                None => SortedMap::new(),
            },
            input_processing_queries: self.input_processing_queries,
            output_generation_queries: self.output_generation_queries,
            stats_observed_at_unix_ms: self.stats_observed_at_unix_ms,
            stats_capabilities: copy_texts(&self.stats_capabilities),
            stats_sources: copy_texts(&self.stats_sources),
        }
    }
}

/// One model as it is registered with the router.
#[derive(Debug)]
pub struct InferenceServerModelRegistration {
    pub stats: Option<ModelStats>,
    pub status: InferenceServerStatus,
}

/// What a registration stands for.
#[verifier::ext_equal]
pub struct RegistrationView {
    pub stats: Option<ModelStatsView>,
    pub status: InferenceServerStatus,
}

impl View for InferenceServerModelRegistration {
    type V = RegistrationView;

    open spec fn view(&self) -> RegistrationView {
        RegistrationView {
            stats: match self.stats {
                Some(stats) => Some(stats@),
                None => None,
            },
            status: self.status,
        }
    }
}

/// An active server keeps a model inactive until its bring-up is done.
pub open spec fn gated_status(base_status: InferenceServerStatus, bringup_ready: bool) -> InferenceServerStatus {
    if base_status is Active && !bringup_ready {
        InferenceServerStatus::Inactive
    } else {
        base_status
    }
}

pub fn gated_model_status(base_status: InferenceServerStatus, bringup_ready: bool) -> (status: InferenceServerStatus)
    ensures
        status == gated_status(base_status, bringup_ready),
{
    if base_status == InferenceServerStatus::Active && !bringup_ready {
        InferenceServerStatus::Inactive
    } else {
        base_status
    }
}

} // verus!
