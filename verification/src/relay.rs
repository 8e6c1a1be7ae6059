//! The messages in which an engine's relay reports the load and the cache of
//! its only pool.

use vstd::prelude::*;

use crate::kv_cache::KvCacheStats;
use crate::stats_stream::ModelLoad;

verus! {

/// How far a report covers what it speaks of.
#[derive(Clone, Copy, Debug, PartialEq, Eq, Structural)]
pub enum DataStatus {
    Complete,
}

/// What the workers of a pool do.
#[derive(Clone, Copy, Debug, PartialEq, Eq, Structural)]
pub enum WorkerRole {
    /// Both prompts and output.
    Aggregated,
}

/// Where a part of an identity comes from.
#[derive(Clone, Copy, Debug, PartialEq, Eq, Structural)]
pub enum IdentitySource {
    DefaultDerived,
}

/// Who sent a message, and when.
#[derive(Clone, Copy, Debug, PartialEq, Eq, Structural)]
pub struct RelayMessageMetadata {
    pub drt_instance_id: u64,
    pub relay_incarnation: u64,
    pub observed_at_unix_ms: u64,
}

/// A model by its names.
#[derive(Debug)]
pub struct ModelRegistration {
    pub model: String,
    pub base_model: String,
    pub adapter: Option<String>,
    pub aliases: Vec<String>,
}

/// A pool of workers.
#[derive(Debug)]
pub struct PoolIdentity {
    pub cache_semantics_digest: Vec<u8>,
    pub cache_semantics_source: IdentitySource,
    pub routing_scope_digest: Vec<u8>,
    pub routing_scope_source: IdentitySource,
    pub dc_id: u64,
}

/// The workers of a pool and what they carry.
#[derive(Debug)]
pub struct PoolLoad {
    pub pool: PoolIdentity,
    pub role: WorkerRole,
    pub live_workers: Option<u64>,
    pub active_prefill_tokens: Option<u64>,
    pub active_decode_blocks: Option<u64>,
    pub max_concurrency: Option<u64>,
    pub scheduler_status: DataStatus,
    pub scheduler_observed_at_unix_ms: u64,
}

/// One report of the load.
#[derive(Debug)]
pub struct LoadSnapshot {
    pub metadata: RelayMessageMetadata,
    pub window_ms: u64,
    pub pools: Vec<PoolLoad>,
    pub models: Vec<ModelLoad>,
}

/// The cache of a pool.
#[derive(Debug)]
pub struct PoolKvUsage {
    pub pool: PoolIdentity,
    pub models: Vec<ModelRegistration>,
    pub role: WorkerRole,
    pub block_size_tokens: u64,
    pub expected_ranks: u64,
    pub observed_ranks: u64,
    pub capacity_blocks: Option<u64>,
    pub used_blocks: Option<u64>,
    pub status: DataStatus,
    pub source_observed_at_unix_ms: u64,
}

/// One report of the cache.
#[derive(Debug)]
pub struct KvUsageSnapshot {
    pub metadata: RelayMessageMetadata,
    pub pools: Vec<PoolKvUsage>,
}

impl RelayMessageMetadata {
    /// The message comes from the only relay there is.
    pub open spec fn sent_at(self, now_unix_ms: u64) -> bool {
        self == (RelayMessageMetadata {
            drt_instance_id: 1,
            relay_incarnation: 1,
            observed_at_unix_ms: now_unix_ms,
        })
    }
}

pub fn metadata(now_unix_ms: u64) -> (metadata: RelayMessageMetadata)
    ensures
        metadata.sent_at(now_unix_ms),
{
    RelayMessageMetadata { drt_instance_id: 1, relay_incarnation: 1, observed_at_unix_ms: now_unix_ms }
}

impl ModelRegistration {
    /// The model has this name alone.
    pub open spec fn names(&self, model: Seq<char>) -> bool {
        &&& self.model@ == model
        &&& self.base_model@ == model
        &&& self.adapter is None
        &&& self.aliases@.len() == 0
    }
}

pub fn model_registration(model: &str) -> (registration: ModelRegistration)
    ensures
        registration.names(model@),
{
    ModelRegistration {
        model: model.to_string(),
        base_model: model.to_string(),
        adapter: None,
        aliases: Vec::new(),
    }
}

/// The same byte, sixteen times.
pub open spec fn digest_of(byte: u8) -> Seq<u8> {
    Seq::new(16, |i: int| byte)
}

fn repeated_byte(byte: u8) -> (digest: Vec<u8>)
    ensures
        digest@ == digest_of(byte),
{
    let mut digest: Vec<u8> = Vec::new();
    let mut i: usize = 0;
    while i < 16
        invariant
            i <= 16,
            digest@ == Seq::new(i as nat, |j: int| byte),
        decreases 16 - i,
    {
        digest.push(byte);
        i += 1;
        assert(digest@ =~= Seq::new(i as nat, |j: int| byte));
    }
    digest
}

impl PoolIdentity {
    /// The only pool there is.
    pub open spec fn only_pool(&self) -> bool {
        &&& self.cache_semantics_digest@ == digest_of(1)
        &&& self.cache_semantics_source is DefaultDerived
        &&& self.routing_scope_digest@ == digest_of(2)
        &&& self.routing_scope_source is DefaultDerived
        &&& self.dc_id == 1
    }
}

pub fn pool_identity() -> (pool: PoolIdentity)
    ensures
        pool.only_pool(),
{
    PoolIdentity {
        cache_semantics_digest: repeated_byte(1),
        cache_semantics_source: IdentitySource::DefaultDerived,
        routing_scope_digest: repeated_byte(2),
        routing_scope_source: IdentitySource::DefaultDerived,
        dc_id: 1,
    }
}

impl PoolLoad {
    /// The pool has one worker, which takes one request at a time.
    pub open spec fn one_worker(&self, now_unix_ms: u64) -> bool {
        &&& self.pool.only_pool()
        &&& self.role is Aggregated
        &&& self.live_workers == Some(1u64)
        &&& self.active_prefill_tokens is None
        &&& self.active_decode_blocks is None
        &&& self.max_concurrency == Some(1u64)
        &&& self.scheduler_status is Complete
        &&& self.scheduler_observed_at_unix_ms == now_unix_ms
    }
}

pub fn pool_load(now_unix_ms: u64) -> (load: PoolLoad)
    ensures
        load.one_worker(now_unix_ms),
{
    PoolLoad {
        pool: pool_identity(),
        role: WorkerRole::Aggregated,
        live_workers: Some(1),
        active_prefill_tokens: None,
        active_decode_blocks: None,
        max_concurrency: Some(1),
        scheduler_status: DataStatus::Complete,
        scheduler_observed_at_unix_ms: now_unix_ms,
    }
}

/// Reports a cache, whose blocks hold one token each.
pub fn usage_snapshot(stats: &KvCacheStats, now_unix_ms: u64) -> (snapshot: KvUsageSnapshot)
    ensures
        snapshot.metadata.sent_at(now_unix_ms),
        snapshot.pools@.len() == 1,
        ({
            let pool = snapshot.pools@[0];
            &&& pool.pool.only_pool()
            &&& pool.models@.len() == 1
            &&& pool.models@[0].names(stats.model@)
            &&& pool.role is Aggregated
            &&& pool.block_size_tokens == 1
            &&& pool.expected_ranks == 1
            &&& pool.observed_ranks == 1
            &&& pool.capacity_blocks == Some(stats.kv_cache_capacity_tokens)
            &&& pool.used_blocks == Some(stats.kv_cache_used_tokens)
            &&& pool.status is Complete
            &&& pool.source_observed_at_unix_ms == now_unix_ms
        }),
{
    let mut models: Vec<ModelRegistration> = Vec::new();
    models.push(model_registration(stats.model.as_str()));
    let mut pools: Vec<PoolKvUsage> = Vec::new();
    pools.push(
        PoolKvUsage {
            pool: pool_identity(),
            models,
            role: WorkerRole::Aggregated,
            block_size_tokens: 1,
            expected_ranks: 1,
            observed_ranks: 1,
            capacity_blocks: Some(stats.kv_cache_capacity_tokens),
            used_blocks: Some(stats.kv_cache_used_tokens),
            status: DataStatus::Complete,
            source_observed_at_unix_ms: now_unix_ms,
        },
    );
    KvUsageSnapshot { metadata: metadata(now_unix_ms), pools }
}

} // verus!
