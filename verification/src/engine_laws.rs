//! What a mock engine caches, counts, reports and waits for, call by call.

use http::{HeaderMap, HeaderValue};
use vstd::prelude::*;

use crate::binary64::Binary64;
use crate::kv_cache::{insert_kv_cache_headers, KvCacheAccess, KvCacheCommit, KvCacheState, KvCacheStats};
use crate::relay::{usage_snapshot, KvUsageSnapshot, LoadSnapshot};
use crate::stats_stream::{ndjson_event, LoadAccumulator, StatsStreamEvent, StatsStreamLine};
use crate::timing::{
    embedding_item_count, jitter_ms, optional_header, prefill_delay, request_embedding_tokens, request_input_tokens,
    request_output_tokens, EmbeddingInput, EmbeddingItem, MockTiming,
};

verus! {

/// The tokens retained under a key stand in the cache.
pub open spec fn holds(cache: KvCacheState, key: Seq<char>, tokens: u64) -> bool {
    exists|i: int|
        0 <= i < cache.prefixes().len() && (#[trigger] cache.prefixes()[i]).key == key && cache.prefixes()[i].tokens
            == tokens
}

proof fn lemma_retained(cache: KvCacheState, key: Seq<char>, tokens: u64)
    requires
        cache.wf(),
        holds(cache, key, tokens),
    ensures
        crate::kv_cache::retains(cache.prefixes(), key),
        crate::kv_cache::retained(cache.prefixes(), key) == tokens,
{
    cache.lemma_fits();
    let i = choose|i: int|
        0 <= i < cache.prefixes().len() && (#[trigger] cache.prefixes()[i]).key == key && cache.prefixes()[i].tokens
            == tokens;
    assert(crate::kv_cache::stands_at(cache.prefixes(), key, i));
    let j = choose|j: int| crate::kv_cache::stands_at(cache.prefixes(), key, j);
    assert(crate::kv_cache::stands_at(cache.prefixes(), key, j));
    assert(cache.prefixes()[i].key == cache.prefixes()[j].key);
    assert(i == j) by {
        if i < j {
            assert(cache.prefixes()[i].key != cache.prefixes()[j].key);
        } else if j < i {
            assert(cache.prefixes()[j].key != cache.prefixes()[i].key);
        }
    }
}

/// A prompt reuses what is retained under its key, up to its own length, and the
/// rest is not cached; it hits where anything is retained. Without a key, without
/// room, or without anything retained, nothing is reused. A look-up evicts
/// nothing and retains nothing new.
pub proof fn law_prompt_reuses_what_is_retained(
    cache: &mut KvCacheState,
    key: Option<&str>,
    input_tokens: usize,
    access: KvCacheAccess,
    tokens: u64,
    other: Seq<char>,
    kept: u64,
)
    requires
        cache.wf(),
        call_ensures(KvCacheState::access, (cache, key, input_tokens), access),
    ensures
        access.reused_input_tokens + access.uncached_input_tokens == input_tokens,
        access.evicted_entries == 0 && access.evicted_tokens == 0,
        key is None || old(cache).capacity() == 0 ==> !access.hit && access.reused_input_tokens == 0 && *final(cache)
            == *old(cache),
        key is Some && old(cache).capacity() > 0 && holds(*old(cache), key->0@, tokens) ==> {
            &&& access.hit
            &&& tokens <= input_tokens ==> access.reused_input_tokens == tokens
            &&& tokens > input_tokens ==> access.reused_input_tokens == input_tokens
            &&& old(cache).counts().hits < u64::MAX ==> final(cache).counts().hits == old(cache).counts().hits + 1
            &&& final(cache).counts().misses == old(cache).counts().misses
            &&& final(cache).prefixes().last().key == key->0@ && final(cache).prefixes().last().tokens == tokens
        },
        key is Some && old(cache).capacity() > 0 && !access.hit ==> {
            &&& access.reused_input_tokens == 0
            &&& !holds(*old(cache), key->0@, tokens)
            &&& old(cache).counts().misses < u64::MAX ==> final(cache).counts().misses == old(cache).counts().misses
                + 1
            &&& final(cache).counts().hits == old(cache).counts().hits
            &&& final(cache).prefixes() == old(cache).prefixes()
        },
        holds(*old(cache), other, kept) ==> holds(*final(cache), other, kept),
        final(cache).capacity() == old(cache).capacity(),
        final(cache).counts().evictions == old(cache).counts().evictions,
{
    old(cache).lemma_fits();
    if holds(*old(cache), other, kept) {
        lemma_retained(*old(cache), other, kept);
    }
    if key is Some && old(cache).capacity() > 0 {
        if holds(*old(cache), key->0@, tokens) {
            lemma_retained(*old(cache), key->0@, tokens);
        }
        crate::kv_cache::law_look_up_keeps_what_is_retained(old(cache).prefixes(), key->0@, other);
        if holds(*old(cache), other, kept) {
            let after = final(cache).prefixes();
            let i = choose|i: int| crate::kv_cache::stands_at(after, other, i);
            assert(crate::kv_cache::stands_at(after, other, i));
            assert(after[i].key == other && after[i].tokens == kept);
        }
    }
}

/// A prompt that fits is retained as the most recently used, with at least its
/// tokens and never fewer than before; what is retained stays within the room.
/// The least recently used go, and no more of them than must. A prompt that does
/// not fit, is empty or has no key changes nothing.
pub proof fn law_committed_prompt_is_retained_within_the_room(
    cache: &mut KvCacheState,
    key: Option<&str>,
    input_tokens: usize,
    commit: KvCacheCommit,
    before: u64,
)
    requires
        cache.wf(),
        call_ensures(KvCacheState::commit, (cache, key, input_tokens), commit),
    ensures
        key is None || input_tokens == 0 || input_tokens > old(cache).capacity() ==> {
            &&& *final(cache) == *old(cache)
            &&& commit.evicted_entries == 0 && commit.evicted_tokens == 0
        },
        key is Some && 0 < input_tokens <= old(cache).capacity() ==> {
            let last = final(cache).prefixes().last();
            &&& final(cache).prefixes().len() > 0
            &&& last.key == key->0@
            &&& last.tokens >= input_tokens
            &&& holds(*old(cache), key->0@, before) ==> last.tokens >= before && (last.tokens == before || last.tokens
                == input_tokens)
            &&& !crate::kv_cache::retains(old(cache).prefixes(), key->0@) ==> last.tokens == input_tokens
            &&& crate::kv_cache::held(final(cache).prefixes()) <= final(cache).capacity()
            &&& crate::kv_cache::held(old(cache).prefixes()) + input_tokens <= old(cache).capacity()
                ==> commit.evicted_entries == 0
            &&& commit.evicted_entries == 0 ==> commit.evicted_tokens == 0
            &&& final(cache).counts().hits == old(cache).counts().hits
            &&& final(cache).counts().misses == old(cache).counts().misses
            &&& old(cache).counts().evictions + commit.evicted_entries <= u64::MAX ==> final(cache).counts().evictions
                == old(cache).counts().evictions + commit.evicted_entries
            &&& old(cache).counts().evicted_tokens + commit.evicted_tokens <= u64::MAX
                ==> final(cache).counts().evicted_tokens == old(cache).counts().evicted_tokens + commit.evicted_tokens
        },
        final(cache).capacity() == old(cache).capacity(),
{
    old(cache).lemma_fits();
    if key is Some && 0 < input_tokens <= old(cache).capacity() {
        let prefixes = old(cache).prefixes();
        let capacity = old(cache).capacity();
        let name = key->0@;
        crate::kv_cache::law_committed_prompt_is_reused(prefixes, name, input_tokens as u64, capacity);
        if holds(*old(cache), name, before) {
            lemma_retained(*old(cache), name, before);
        }
        let others = crate::kv_cache::without(prefixes, name);
        let grown = crate::kv_cache::larger(crate::kv_cache::retained(prefixes, name), input_tokens as u64);
        if crate::kv_cache::held(prefixes) + input_tokens <= capacity {
            crate::kv_cache::law_look_up_keeps_what_is_retained(prefixes, name, name);
            old(cache).lemma_room_without(name);
            assert(crate::kv_cache::evictions(others, grown as nat, capacity as nat) == 0);
        }
        if commit.evicted_entries == 0 {
            assert(others.take(0) =~= Seq::<crate::kv_cache::PrefixView>::empty());
        }
    }
}

/// The prefixes that stay are the most recently used of the others in their
/// order: what goes, goes from the front, and the last to go had to.
pub proof fn law_least_recently_used_go_first(
    cache: &mut KvCacheState,
    key: &str,
    input_tokens: usize,
    commit: KvCacheCommit,
)
    requires
        cache.wf(),
        call_ensures(KvCacheState::commit, (cache, Some(key), input_tokens), commit),
        0 < input_tokens <= cache.capacity(),
        !crate::kv_cache::retains(cache.prefixes(), key@),
    ensures
        ({
            let gone = commit.evicted_entries as int;
            let before = old(cache).prefixes();
            let after = final(cache).prefixes();
            &&& 0 <= gone <= before.len()
            &&& after.len() == before.len() - gone + 1
            &&& after.drop_last() == before.skip(gone)
            &&& commit.evicted_tokens == crate::kv_cache::held(before.take(gone))
            &&& gone > 0 ==> crate::kv_cache::held(before.skip(gone - 1)) + input_tokens > old(cache).capacity()
        }),
{
    old(cache).lemma_fits();
    let before = old(cache).prefixes();
    let count = crate::kv_cache::evictions(before, input_tokens as nat, old(cache).capacity() as nat);
    lemma_evictions_bounded(before, input_tokens as nat, old(cache).capacity() as nat);
    assert(final(cache).prefixes().drop_last() =~= before.skip(count));
    if count > 0 {
        crate::kv_cache::law_evicts_no_more_than_needed(before, input_tokens as nat, old(cache).capacity() as nat);
    }
}

proof fn lemma_evictions_bounded(prefixes: crate::kv_cache::Prefixes, need: nat, capacity: nat)
    ensures
        0 <= crate::kv_cache::evictions(prefixes, need, capacity) <= prefixes.len(),
    decreases prefixes.len(),
{
    if prefixes.len() > 0 {
        lemma_evictions_bounded(prefixes.drop_first(), need, capacity);
    }
}

/// What is told of a cache is what it holds, and what it holds and has free is
/// its capacity. The relay tells the same in blocks of one token.
pub proof fn law_cache_is_told_as_it_stands(
    cache: KvCacheState,
    model: &str,
    stats: KvCacheStats,
    now: u64,
    usage: KvUsageSnapshot,
    access: KvCacheAccess,
    commit: KvCacheCommit,
    joined: KvCacheAccess,
)
    requires
        cache.wf(),
        call_ensures(KvCacheState::stats, (&cache, model), stats),
        call_ensures(usage_snapshot, (&stats, now), usage),
        call_ensures(KvCacheAccess::with_commit, (access, commit), joined),
    ensures
        stats.model@ == model@,
        stats.kv_cache_capacity_tokens == cache.capacity(),
        stats.kv_cache_used_tokens == crate::kv_cache::held(cache.prefixes()),
        stats.kv_cache_used_tokens + stats.kv_cache_free_tokens == stats.kv_cache_capacity_tokens,
        stats.kv_cache_entries == cache.prefixes().len(),
        stats.kv_cache_hit_count == cache.counts().hits,
        stats.kv_cache_miss_count == cache.counts().misses,
        stats.kv_cache_eviction_count == cache.counts().evictions,
        stats.kv_cache_evicted_tokens == cache.counts().evicted_tokens,
        usage.pools@.len() == 1,
        usage.pools@[0].block_size_tokens == 1,
        usage.pools@[0].capacity_blocks == Some(stats.kv_cache_capacity_tokens),
        usage.pools@[0].used_blocks == Some(stats.kv_cache_used_tokens),
        usage.pools@[0].models@.len() == 1 && usage.pools@[0].models@[0].model@ == model@,
        usage.pools@[0].source_observed_at_unix_ms == now,
        usage.metadata.observed_at_unix_ms == now,
        usage.pools@[0].expected_ranks == 1 && usage.pools@[0].observed_ranks == 1,
        joined.hit == access.hit,
        joined.reused_input_tokens == access.reused_input_tokens,
        joined.uncached_input_tokens == access.uncached_input_tokens,
        joined.evicted_entries == commit.evicted_entries,
        joined.evicted_tokens == commit.evicted_tokens,
{
}

/// A response says in three headers what its request found, and leaves the other
/// headers alone.
pub proof fn law_response_tells_what_was_found(
    headers: &mut HeaderMap<HeaderValue>,
    access: KvCacheAccess,
    name: Seq<char>,
)
    requires
        call_ensures(insert_kv_cache_headers, (headers, access), true),
    ensures
        ({
            let before = crate::headers::header_contents(*old(headers));
            let after = crate::headers::header_contents(*final(headers));
            &&& access.hit ==> crate::header_laws::says(after, "x-kv-cache-hit"@, "true"@)
            &&& !access.hit ==> crate::header_laws::says(after, "x-kv-cache-hit"@, "false"@)
            &&& crate::header_laws::says(
                after,
                "x-kv-cache-reused-input-tokens"@,
                crate::text::decimal_text(access.reused_input_tokens as nat),
            )
            &&& crate::header_laws::says(
                after,
                "x-kv-cache-uncached-input-tokens"@,
                crate::text::decimal_text(access.uncached_input_tokens as nat),
            )
            &&& name != "x-kv-cache-hit"@ && name != "x-kv-cache-reused-input-tokens"@ && name
                != "x-kv-cache-uncached-input-tokens"@ ==> {
                &&& after.contains_key(name) == before.contains_key(name)
                &&& before.contains_key(name) ==> after[name] == before[name]
            }
        }),
{
    reveal_strlit("x-kv-cache-hit");
    reveal_strlit("x-kv-cache-reused-input-tokens");
    reveal_strlit("x-kv-cache-uncached-input-tokens");
    reveal_strlit("true");
    reveal_strlit("false");
    assert("x-kv-cache-hit"@.len() == 14);
    assert("x-kv-cache-reused-input-tokens"@.len() == 30);
    assert("x-kv-cache-uncached-input-tokens"@.len() == 32);
    lemma_readable("true"@);
    lemma_readable("false"@);
    crate::text::lemma_decimal_round_trip(access.reused_input_tokens as nat);
    crate::text::lemma_decimal_round_trip(access.uncached_input_tokens as nat);
    lemma_readable(crate::text::decimal_text(access.reused_input_tokens as nat));
    lemma_readable(crate::text::decimal_text(access.uncached_input_tokens as nat));
}

proof fn lemma_readable(text: Seq<char>)
    requires
        crate::headers::printable(text),
    ensures
        crate::headers::value_text(crate::headers::ascii_bytes(text)) == Some(text),
{
    let bytes = crate::headers::ascii_bytes(text);
    assert forall|i: int| 0 <= i < bytes.len() implies crate::headers::visible(#[trigger] bytes[i]) && bytes[i] as char
        == text[i] by {
        assert(' ' <= text[i] <= '~');
    }
    assert(bytes.map_values(|b: u8| b as char) =~= text);
}

/// Of each request, input and output count once however often it is told of: an
/// event adds to the counters of its model what it has more than the last one.
/// A request starts with its first event and ends with the finished one.
pub proof fn law_events_count_what_is_new(
    load: &mut LoadAccumulator,
    event: StatsStreamEvent,
    out: (),
    other: Seq<char>,
)
    requires
        call_ensures(LoadAccumulator::observe, (load, &event), out),
    ensures
        ({
            let id = event.request_id@;
            let live = old(load).live();
            let known = live.contains_key(id);
            let before = crate::stats_stream::window_of(old(load).windows(), event.model@);
            let after = final(load).windows()[event.model@];
            &&& final(load).windows().contains_key(event.model@)
            &&& !known && before.requests_started < u64::MAX ==> after.requests_started == before.requests_started + 1
            &&& known ==> after.requests_started == before.requests_started
            &&& event.finished && before.requests_completed < u64::MAX ==> after.requests_completed
                == before.requests_completed + 1
            &&& !event.finished ==> after.requests_completed == before.requests_completed
            &&& !known && before.input_tokens + event.input_tokens <= u64::MAX ==> after.input_tokens
                == before.input_tokens + event.input_tokens
            &&& !known && before.output_tokens + event.output_tokens <= u64::MAX ==> after.output_tokens
                == before.output_tokens + event.output_tokens
            &&& known && event.input_tokens <= live[id].input_tokens ==> after.input_tokens == before.input_tokens
            &&& known && event.output_tokens <= live[id].output_tokens ==> after.output_tokens == before.output_tokens
            &&& known && event.input_tokens > live[id].input_tokens && before.input_tokens + (event.input_tokens
                - live[id].input_tokens) <= u64::MAX ==> after.input_tokens + live[id].input_tokens
                == before.input_tokens + event.input_tokens
            &&& known && event.output_tokens > live[id].output_tokens && before.output_tokens + (event.output_tokens
                - live[id].output_tokens) <= u64::MAX ==> after.output_tokens + live[id].output_tokens
                == before.output_tokens + event.output_tokens
            &&& other != event.model@ ==> crate::stats_stream::window_of(final(load).windows(), other)
                == crate::stats_stream::window_of(old(load).windows(), other)
        }),
{
}

/// A request is live from its first event to the finished one, with the most
/// input and output that any event told; its model is the one first told.
pub proof fn law_requests_are_live_until_finished(
    load: &mut LoadAccumulator,
    event: StatsStreamEvent,
    out: (),
    other: Seq<char>,
)
    requires
        call_ensures(LoadAccumulator::observe, (load, &event), out),
    ensures
        ({
            let id = event.request_id@;
            let before = old(load).live();
            let after = final(load).live();
            &&& after.contains_key(id) <==> !event.finished
            &&& !event.finished ==> {
                &&& after[id].input_tokens >= event.input_tokens
                &&& after[id].output_tokens >= event.output_tokens
                &&& !before.contains_key(id) ==> after[id].model == event.model@ && after[id].input_tokens
                    == event.input_tokens && after[id].output_tokens == event.output_tokens
                &&& before.contains_key(id) ==> {
                    &&& after[id].model == before[id].model
                    &&& after[id].input_tokens >= before[id].input_tokens
                    &&& after[id].output_tokens >= before[id].output_tokens
                    &&& after[id].input_tokens == event.input_tokens || after[id].input_tokens
                        == before[id].input_tokens
                    &&& after[id].output_tokens == event.output_tokens || after[id].output_tokens
                        == before[id].output_tokens
                }
            }
            &&& other != id ==> {
                &&& after.contains_key(other) == before.contains_key(other)
                &&& before.contains_key(other) ==> after[other] == before[other]
            }
        }),
{
}

/// A report speaks once of the configured model, of every model with live
/// requests and of every one with something counted. It tells what was counted
/// since the last report, which then starts from nothing; what is live stays.
pub proof fn law_report_tells_and_clears_the_counts(
    load: &mut LoadAccumulator,
    configured: &str,
    now: u64,
    snapshot: LoadSnapshot,
    model: Seq<char>,
    i: int,
)
    requires
        call_ensures(LoadAccumulator::snapshot, (load, configured, now), snapshot),
    ensures
        crate::stats_stream::names(snapshot.models@).no_duplicates(),
        crate::stats_stream::names(snapshot.models@).contains(model) <==> {
            ||| model == configured@
            ||| old(load).windows().contains_key(model)
            ||| exists|id: Seq<char>| #[trigger] old(load).live().contains_key(id) && old(load).live()[id].model
                == model
        },
        final(load).live() == old(load).live(),
        !final(load).windows().contains_key(model),
        snapshot.window_ms == 1_000,
        snapshot.metadata.observed_at_unix_ms == now,
        snapshot.metadata.drt_instance_id == 1 && snapshot.metadata.relay_incarnation == 1,
        snapshot.pools@.len() == 1,
        snapshot.pools@[0].live_workers == Some(1u64) && snapshot.pools@[0].max_concurrency == Some(1u64),
        0 <= i < snapshot.models@.len() ==> {
            let told = snapshot.models@[i];
            let window = crate::stats_stream::window_of(old(load).windows(), told.model.model@);
            &&& told.requests_started == window.requests_started
            &&& told.requests_completed == window.requests_completed
            &&& told.requests_failed == 0 && told.requests_cancelled == 0
            &&& told.input_tokens == Some(window.input_tokens)
            &&& told.output_tokens == window.output_tokens
            &&& told.source_observed_at_unix_ms == now
            &&& told.pending_first_output_requests == told.input_processing_requests
        },
{
    let names = crate::stats_stream::names(snapshot.models@);
    crate::keyed::lemma_ascending_distinct::<String>(names);
    assert(names.contains(model) <==> names.to_set().contains(model));
    if 0 <= i < snapshot.models@.len() {
        assert(snapshot.models.len() == snapshot.models@.len());
        assert(snapshot.models[i] == snapshot.models@[i]);
    }
}

/// The live load that is told of a model is that of its live requests: those
/// that wait for their first output, those that produce, and their input.
pub proof fn law_report_tells_the_live_load(
    load: &mut LoadAccumulator,
    configured: &str,
    now: u64,
    snapshot: LoadSnapshot,
    i: int,
)
    requires
        call_ensures(LoadAccumulator::snapshot, (load, configured, now), snapshot),
        0 <= i < snapshot.models@.len(),
    ensures
        ({
            let told = snapshot.models@[i];
            let model = told.model.model@;
            let live = old(load).live();
            let waiting = |r: crate::stats_stream::LiveLoadView|
                if r.model == model && r.output_tokens == 0 {
                    1nat
                } else {
                    0nat
                };
            let producing = |r: crate::stats_stream::LiveLoadView|
                if r.model == model && r.output_tokens != 0 {
                    1nat
                } else {
                    0nat
                };
            let waiting_tokens = |r: crate::stats_stream::LiveLoadView|
                if r.model == model && r.output_tokens == 0 {
                    r.input_tokens as nat
                } else {
                    0nat
                };
            let tokens = |r: crate::stats_stream::LiveLoadView|
                if r.model == model {
                    r.input_tokens as nat
                } else {
                    0nat
                };
            &&& told.input_processing_requests is Some
            &&& told.input_processing_requests->0 == crate::sums::total(live, waiting)
            &&& told.output_generation_requests is Some
            &&& told.output_generation_requests->0 == crate::sums::total(live, producing)
            &&& told.pending_first_output_input_tokens is Some
            &&& told.pending_first_output_input_tokens->0 == crate::sums::total(live, waiting_tokens)
            &&& told.live_input_tokens is Some
            &&& told.live_input_tokens->0 == crate::sums::total(live, tokens)
        }),
{
    assert(snapshot.models.len() == snapshot.models@.len());
    assert(snapshot.models[i] == snapshot.models@[i]);
    let told = snapshot.models@[i];
    let model = told.model.model@;
    let live = old(load).live();
    let waiting = |r: crate::stats_stream::LiveLoadView|
        if r.model == model && r.output_tokens == 0 {
            1nat
        } else {
            0nat
        };
    let producing = |r: crate::stats_stream::LiveLoadView|
        if r.model == model && r.output_tokens != 0 {
            1nat
        } else {
            0nat
        };
    let waiting_tokens = |r: crate::stats_stream::LiveLoadView|
        if r.model == model && r.output_tokens == 0 {
            r.input_tokens as nat
        } else {
            0nat
        };
    let tokens = |r: crate::stats_stream::LiveLoadView|
        if r.model == model {
            r.input_tokens as nat
        } else {
            0nat
        };
    assert(waiting =~= crate::stats_stream::waits(model));
    assert(producing =~= crate::stats_stream::produces(model));
    assert(waiting_tokens =~= crate::stats_stream::waiting_input(model));
    assert(tokens =~= crate::stats_stream::live_input(model));
}

/// A line of the stream is one JSON object with its members in order.
pub proof fn law_stream_lines_name_what_they_tell(line: StatsStreamLine, text: String)
    requires
        call_ensures(ndjson_event, (&line,), text),
    ensures
        line matches StatsStreamLine::Stats { v, request_id, model, tokens_processed, tokens_generated, finished }
            ==> text@ == "{\"type\":\"stats\",\"v\":"@ + crate::text::decimal_text(v as nat) + ",\"request_id\":"@
            + crate::json_text::quoted(request_id@) + ",\"model\":"@ + crate::json_text::quoted(model@)
            + ",\"tokens_processed\":"@ + (if tokens_processed is Some {
            crate::text::decimal_text(tokens_processed->0 as nat)
        } else {
            "null"@
        }) + ",\"tokens_generated\":"@ + (if tokens_generated is Some {
            crate::text::decimal_text(tokens_generated->0 as nat)
        } else {
            "null"@
        }) + ",\"finished\":"@ + (if finished {
            "true"@
        } else {
            "false"@
        }) + "}"@ + "\n"@,
{
}

/// The jitter is within its limit, none without one, and the same for the same
/// request and purpose.
pub proof fn law_jitter_is_steady_and_bounded(
    request_id: &str,
    salt: &str,
    max: u64,
    jitter: u64,
    again: u64,
    larger: u64,
    wider: u64,
)
    requires
        call_ensures(jitter_ms, (request_id, salt, max), jitter),
        call_ensures(jitter_ms, (request_id, salt, max), again),
        call_ensures(jitter_ms, (request_id, salt, larger), wider),
    ensures
        jitter <= max,
        again == jitter,
        max == 0 ==> jitter == 0,
        max + 1 == larger && larger < u64::MAX ==> wider <= larger,
{
}

/// The digest of bytes: each is mixed into the one before, which is multiplied.
pub open spec fn digest(start: u64, bytes: Seq<u8>) -> u64
    decreases bytes.len(),
{
    if bytes.len() == 0 {
        start
    } else {
        (((digest(start, bytes.drop_last()) ^ (bytes.last() as u64)) * 0x0000_0100_0000_01b3)
            % 0x1_0000_0000_0000_0000) as u64
    }
}

proof fn lemma_digest(start: u64, bytes: Seq<u8>)
    ensures
        digest(start, bytes) == crate::timing::hashed(start, bytes),
    decreases bytes.len(),
{
    if bytes.len() > 0 {
        lemma_digest(start, bytes.drop_last());
    }
}

/// The jitter is what is left of one number, the digest of the request and the
/// purpose in this order: all limits share it, so that a limit which divides
/// another leaves the same rest.
pub proof fn law_jitter_is_the_rest_of_a_digest(
    request_id: &str,
    salt: &str,
    max: u64,
    jitter: u64,
    larger: u64,
    wider: u64,
    times: nat,
)
    requires
        call_ensures(jitter_ms, (request_id, salt, max), jitter),
        call_ensures(jitter_ms, (request_id, salt, larger), wider),
        max < u64::MAX,
        larger < u64::MAX,
        times > 0,
        larger + 1 == (max + 1) * times,
    ensures
        jitter == wider as int % (max + 1),
        jitter == digest(
            digest(0x1465_0fb0_739d_0383, vstd::utf8::encode_utf8(request_id@)),
            vstd::utf8::encode_utf8(salt@),
        ) as int % (max + 1),
{
    let first = digest(0x1465_0fb0_739d_0383, vstd::utf8::encode_utf8(request_id@));
    lemma_digest(0x1465_0fb0_739d_0383, vstd::utf8::encode_utf8(request_id@));
    lemma_digest(first, vstd::utf8::encode_utf8(salt@));
    let number = crate::timing::request_hash(request_id@, salt@) as int;
    let part = (max + 1) as int;
    vstd::arithmetic::div_mod::lemma_mod_mod(number, part, times as int);
    assert(part * (times as int) == larger + 1);
    if max == 0 {
        assert(number % 1 == 0);
        assert((wider as int) % 1 == 0);
    }
    if larger == 0 {
        assert(max == 0) by (nonlinear_arith)
            requires
                1 == (max + 1) * times,
                times > 0,
        ;
    }
}

/// The first token comes after the configured time and the jitter of the request
/// for it, and each further one after its own time and its own jitter.
pub proof fn law_each_token_has_its_own_jitter(
    timing: MockTiming,
    request_id: &str,
    first: u128,
    index: usize,
    next: u128,
    opening: &str,
    opening_jitter: u64,
    own: &str,
    own_jitter: u64,
)
    requires
        call_ensures(MockTiming::first_token_delay, (&timing, request_id), first),
        call_ensures(MockTiming::token_delay, (&timing, request_id, index), next),
        opening@ == "ttft"@,
        own@ == "decode-"@ + crate::text::decimal_text(index as nat),
        call_ensures(jitter_ms, (request_id, opening, timing.ttft_jitter_ms), opening_jitter),
        call_ensures(jitter_ms, (request_id, own, timing.decode_jitter_ms), own_jitter),
    ensures
        timing.ttft + opening_jitter * 1_000_000 <= 18_446_744_073_709_551_615_999_999_999 ==> first == timing.ttft
            + opening_jitter * 1_000_000,
        timing.token_delay + own_jitter * 1_000_000 <= 18_446_744_073_709_551_615_999_999_999 ==> next
            == timing.token_delay + own_jitter * 1_000_000,
{
    reveal(MockTiming::delay_of_token);
}

/// The first token comes after the configured time and at most the jitter more;
/// so does each further one after the one before.
pub proof fn law_tokens_come_after_their_delay(
    timing: MockTiming,
    request_id: &str,
    first: u128,
    index: usize,
    next: u128,
)
    requires
        call_ensures(MockTiming::first_token_delay, (&timing, request_id), first),
        call_ensures(MockTiming::token_delay, (&timing, request_id, index), next),
        timing.ttft <= 18_446_744_073_709_551_615_999_999_999,
        timing.token_delay <= 18_446_744_073_709_551_615_999_999_999,
    ensures
        timing.ttft <= first <= timing.ttft + timing.ttft_jitter_ms * 1_000_000,
        timing.ttft_jitter_ms == 0 ==> first == timing.ttft,
        timing.token_delay <= next <= timing.token_delay + timing.decode_jitter_ms * 1_000_000,
        timing.decode_jitter_ms == 0 ==> next == timing.token_delay,
{
    reveal(MockTiming::delay_of_token);
    lemma_jitter(request_id@, "ttft"@, timing.ttft_jitter_ms);
    lemma_jitter(request_id@, crate::timing::token_salt(index as nat), timing.decode_jitter_ms);
}

proof fn lemma_jitter(request_id: Seq<char>, salt: Seq<char>, max: u64)
    ensures
        crate::timing::jitter_of(request_id, salt, max) <= max,
{
}

/// A response that is not streamed takes the time to its first token and that of
/// each further one: one token more takes one token's delay more.
pub proof fn law_response_takes_the_time_of_its_tokens(
    timing: MockTiming,
    request_id: &str,
    first: u128,
    tokens: usize,
    delay: u128,
    more: usize,
    longer: u128,
    next: u128,
)
    requires
        call_ensures(MockTiming::non_streaming_delay, (&timing, request_id, first, tokens), delay),
        call_ensures(MockTiming::non_streaming_delay, (&timing, request_id, first, more), longer),
        call_ensures(MockTiming::token_delay, (&timing, request_id, tokens), next),
        more == tokens + 1,
    ensures
        tokens <= 1 ==> delay == first,
        tokens >= 1 && delay + next <= 18_446_744_073_709_551_615_999_999_999 ==> longer == delay + next,
        tokens >= 1 && delay + next > 18_446_744_073_709_551_615_999_999_999 ==> longer
            == 18_446_744_073_709_551_615_999_999_999,
{
    reveal_with_fuel(MockTiming::delay_of_response, 2);
}

/// A prompt takes the time that its tokens take at the given rate, the longest
/// time where that is out of range, and none without a rate.
pub proof fn law_prompt_takes_the_time_of_its_tokens<D: Fn(u64, Binary64) -> Option<u128>>(
    tokens: usize,
    rate: Binary64,
    time_for: D,
    delay: u128,
)
    requires
        call_ensures(prefill_delay::<D>, (tokens, rate, &time_for), delay),
    ensures
        rate.bits == 0 || rate.bits >= 0x7FF0_0000_0000_0000 ==> delay == 0,
        0 < rate.bits < 0x7FF0_0000_0000_0000 ==> call_ensures(time_for, (tokens as u64, rate), Some(delay))
            || call_ensures(time_for, (tokens as u64, rate), None) && delay
            == 18_446_744_073_709_551_615_999_999_999,
{
}

/// A response has as many tokens as its header says, else as the request allows
/// and the engine makes.
pub proof fn law_header_sets_the_length_of_a_response(
    headers: HeaderMap<HeaderValue>,
    max: Option<usize>,
    default: usize,
    tokens: usize,
    said: usize,
)
    requires
        call_ensures(request_output_tokens, (&headers, max, default), tokens),
    ensures
        ({
            let contents = crate::headers::header_contents(headers);
            let name = "x-output-tokens"@;
            &&& crate::request_laws::written(contents, name) == crate::text::decimal_text(said as nat) ==> tokens
                == said
            &&& !contents.contains_key(name) && max is None ==> tokens == default
            &&& !contents.contains_key(name) && max is Some ==> tokens <= max->0 && tokens <= default && (tokens
                == max->0 || tokens == default)
        }),
{
    reveal_strlit("x-output-tokens");
    assert(crate::headers::valid_name("x-output-tokens"@));
    crate::text::lemma_decimal_round_trip(said as nat);
}

/// A prompt has as many tokens as its header says, else as its texts together,
/// and never less than one.
pub proof fn law_header_sets_the_length_of_a_prompt(
    headers: HeaderMap<HeaderValue>,
    lengths: Vec<usize>,
    tokens: usize,
    said: usize,
)
    requires
        call_ensures(request_input_tokens, (&headers, &lengths), tokens),
    ensures
        ({
            let contents = crate::headers::header_contents(headers);
            let name = "x-input-tokens"@;
            &&& tokens >= 1
            &&& said >= 1 && crate::request_laws::written(contents, name) == crate::text::decimal_text(said as nat)
                ==> tokens == said
            &&& !contents.contains_key(name) && lengths@.len() == 0 ==> tokens == 1
            &&& !contents.contains_key(name) && lengths@.len() == 1 && lengths@[0] >= 1 ==> tokens == lengths@[0]
            &&& !contents.contains_key(name) && lengths@.len() == 2 && 1 <= lengths@[0] + lengths@[1] <= usize::MAX
                ==> tokens == lengths@[0] + lengths@[1]
        }),
{
    reveal_strlit("x-input-tokens");
    assert(crate::headers::valid_name("x-input-tokens"@));
    crate::text::lemma_decimal_round_trip(said as nat);
    reveal_with_fuel(crate::timing::summed, 4);
}

/// One text more makes a prompt longer by its length, as far as that can be
/// counted.
pub proof fn law_texts_of_a_prompt_add_up(
    headers: HeaderMap<HeaderValue>,
    lengths: Vec<usize>,
    tokens: usize,
    longer: Vec<usize>,
    more: usize,
    length: usize,
)
    requires
        call_ensures(request_input_tokens, (&headers, &lengths), tokens),
        call_ensures(request_input_tokens, (&headers, &longer), more),
        longer@ == lengths@.push(length),
        !crate::headers::header_contents(headers).contains_key("x-input-tokens"@),
        lengths@.len() > 0,
        lengths@[0] >= 1,
    ensures
        tokens + length <= usize::MAX ==> more == tokens + length,
        tokens + length > usize::MAX ==> more == usize::MAX,
{
    assert(longer@.drop_last() =~= lengths@);
    lemma_summed_positive(lengths@);
}

proof fn lemma_summed_positive(lengths: Seq<usize>)
    requires
        lengths.len() > 0,
        lengths[0] >= 1,
    ensures
        1 <= crate::timing::summed(lengths) <= usize::MAX,
    decreases lengths.len(),
{
    reveal_with_fuel(crate::timing::summed, 2);
    if lengths.len() > 1 {
        lemma_summed_positive(lengths.drop_last());
    }
}

/// A batch of numbers is one text; any other batch has as many texts as items.
/// Anything else is one text.
pub proof fn law_a_list_of_numbers_is_one_text(input: EmbeddingInput, count: usize, i: int)
    requires
        call_ensures(embedding_item_count, (&input,), count),
    ensures
        !(input is Batch) ==> count == 1,
        input matches EmbeddingInput::Batch { items } ==> {
            &&& items@.len() == 0 ==> count == 0
            &&& 0 <= i < items@.len() && !(items@[i] is Number) ==> count == items@.len()
            &&& items@.len() > 0 && count != items@.len() ==> count == 1
            &&& items@.len() == 1 ==> count == 1
            &&& items@.len() > 0 && (forall|j: int| 0 <= j < items@.len() ==> #[trigger] items@[j] is Number) ==> count
                == 1
        },
{
}

/// The tokens to embed: what the header says, else the length of the text or, of
/// a batch, each item's; an item without a length counts as one.
pub proof fn law_items_to_embed_have_their_lengths(
    headers: HeaderMap<HeaderValue>,
    input: EmbeddingInput,
    tokens: usize,
    said: usize,
    item: EmbeddingItem,
)
    requires
        call_ensures(request_embedding_tokens, (&headers, &input), tokens),
    ensures
        ({
            let contents = crate::headers::header_contents(headers);
            let name = "x-input-tokens"@;
            &&& tokens >= 1
            &&& said >= 1 && crate::request_laws::written(contents, name) == crate::text::decimal_text(said as nat)
                ==> tokens == said
            &&& !contents.contains_key(name) && input is Other ==> tokens == 1
            &&& !contents.contains_key(name) && input is Text && input->Text_length >= 1 ==> tokens
                == input->Text_length
            &&& !contents.contains_key(name) && input is Text && input->Text_length == 0 ==> tokens == 1
            &&& !contents.contains_key(name) && input is Batch && input->items@ == seq![item] ==> {
                &&& item is Number || item is Other ==> tokens == 1
                &&& item matches EmbeddingItem::Text { length } ==> (if length == 0 {
                    tokens == 1
                } else {
                    tokens == length
                })
                &&& item matches EmbeddingItem::Tokens { count } ==> (if count == 0 {
                    tokens == 1
                } else {
                    tokens == count
                })
            }
        }),
{
    reveal_strlit("x-input-tokens");
    assert(crate::headers::valid_name("x-input-tokens"@));
    crate::text::lemma_decimal_round_trip(said as nat);
    reveal_with_fuel(crate::timing::summed, 3);
    if let EmbeddingInput::Batch { items } = input {
        let work = items@.map_values(|item: EmbeddingItem| crate::timing::item_tokens(item));
        if items@ == seq![item] {
            assert(work.len() == 1);
            assert(work.last() == crate::timing::item_tokens(item));
        }
    }
}

/// One item more makes a batch longer by its length, and by one where it has
/// none, as far as that can be counted.
pub proof fn law_items_of_a_batch_add_up(
    headers: HeaderMap<HeaderValue>,
    input: EmbeddingInput,
    tokens: usize,
    longer: EmbeddingInput,
    more: usize,
    item: EmbeddingItem,
    own: nat,
)
    requires
        call_ensures(request_embedding_tokens, (&headers, &input), tokens),
        call_ensures(request_embedding_tokens, (&headers, &longer), more),
        input is Batch && longer is Batch,
        input->items@.len() > 0,
        longer->items@ == input->items@.push(item),
        !crate::headers::header_contents(headers).contains_key("x-input-tokens"@),
        own == (match item {
            EmbeddingItem::Text { length } => if length == 0 {
                1
            } else {
                length as nat
            },
            EmbeddingItem::Tokens { count } => if count == 0 {
                1
            } else {
                count as nat
            },
            _ => 1,
        }),
    ensures
        tokens + own <= usize::MAX ==> more == tokens + own,
        tokens + own > usize::MAX ==> more == usize::MAX,
{
    let short = input->items@.map_values(|item: EmbeddingItem| crate::timing::item_tokens(item));
    let long = longer->items@.map_values(|item: EmbeddingItem| crate::timing::item_tokens(item));
    assert(long.drop_last() =~= short);
    assert(long.last() == crate::timing::item_tokens(item));
    assert(short[0] == crate::timing::item_tokens(input->items@[0]));
    lemma_summed_positive(short);
}

/// A header that is not asked for by any special name is read as it stands.
pub proof fn law_optional_header_is_read_as_it_stands(
    headers: HeaderMap<HeaderValue>,
    name: &str,
    text: Option<String>,
    read: Option<String>,
)
    requires
        call_ensures(optional_header, (&headers, name), text),
        call_ensures(crate::headers::header_text, (&headers, name), read),
    ensures
        text is Some <==> read is Some,
        text is Some ==> text->0@ == read->0@,
{
}

} // verus!
