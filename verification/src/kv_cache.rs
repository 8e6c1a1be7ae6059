//! A model of an engine's prefix cache: what prompts it retains, and which it
//! drops when room is needed.

use http::{HeaderMap, HeaderValue};
use vstd::prelude::*;

use crate::headers::{bytes_of_text, header_count, insert_header};
use crate::text::same_text;
use crate::tunnel_backend::bytes_of_decimal;

verus! {

/// One retained prompt prefix.
#[derive(Debug)]
pub struct CachedPrefix {
    pub key: String,
    pub tokens: u64,
}

pub struct PrefixView {
    pub key: Seq<char>,
    pub tokens: u64,
}

impl View for CachedPrefix {
    type V = PrefixView;

    open spec fn view(&self) -> PrefixView {
        PrefixView { key: self.key@, tokens: self.tokens }
    }
}

/// Retained prefixes, the least recently used first.
pub type Prefixes = Seq<PrefixView>;

/// The tokens that the prefixes take.
pub open spec fn held(prefixes: Prefixes) -> nat
    decreases prefixes.len(),
{
    if prefixes.len() == 0 {
        0
    } else {
        held(prefixes.drop_last()) + prefixes.last().tokens as nat
    }
}

/// The prefix of a key stands at `i`.
pub open spec fn stands_at(prefixes: Prefixes, key: Seq<char>, i: int) -> bool {
    0 <= i < prefixes.len() && prefixes[i].key == key
}

/// Something is retained under a key.
pub open spec fn retains(prefixes: Prefixes, key: Seq<char>) -> bool {
    exists|i: int| stands_at(prefixes, key, i)
}

/// How much is retained under a key.
pub open spec fn retained(prefixes: Prefixes, key: Seq<char>) -> u64 {
    if retains(prefixes, key) {
        prefixes[choose|i: int| stands_at(prefixes, key, i)].tokens
    } else {
        0
    }
}

/// The prefixes of the other keys.
pub open spec fn without(prefixes: Prefixes, key: Seq<char>) -> Prefixes {
    if retains(prefixes, key) {
        prefixes.remove(choose|i: int| stands_at(prefixes, key, i))
    } else {
        prefixes
    }
}

/// How many prefixes must go so that `need` more tokens fit: as few as will do,
/// from the least recently used on.
pub open spec fn evictions(prefixes: Prefixes, need: nat, capacity: nat) -> int
    decreases prefixes.len(),
{
    if prefixes.len() == 0 || held(prefixes) + need <= capacity {
        0
    } else {
        1 + evictions(prefixes.drop_first(), need, capacity)
    }
}

/// The prefixes once one has been looked up: it is the most recently used now.
pub open spec fn looked_up(prefixes: Prefixes, key: Seq<char>) -> Prefixes {
    if retains(prefixes, key) {
        without(prefixes, key).push(PrefixView { key, tokens: retained(prefixes, key) })
    } else {
        prefixes
    }
}

/// The prefixes once a prompt has been committed that fits in the cache.
pub open spec fn committed(prefixes: Prefixes, key: Seq<char>, tokens: u64, capacity: u64) -> Prefixes {
    let grown = larger(retained(prefixes, key), tokens);
    let others = without(prefixes, key);
    others.skip(evictions(others, grown as nat, capacity as nat)).push(PrefixView { key, tokens: grown })
}

/// No key is retained twice, nothing empty is retained.
pub open spec fn tidy(prefixes: Prefixes) -> bool {
    &&& forall|i: int, j: int|
        0 <= i < j < prefixes.len() ==> (#[trigger] prefixes[i]).key != (#[trigger] prefixes[j]).key
    &&& forall|i: int| 0 <= i < prefixes.len() ==> (#[trigger] prefixes[i]).tokens > 0
}

proof fn lemma_held_joined(a: Prefixes, b: Prefixes)
    ensures
        held(a + b) == held(a) + held(b),
    decreases b.len(),
{
    if b.len() == 0 {
        assert(a + b =~= a);
    } else {
        assert((a + b).drop_last() =~= a + b.drop_last());
        lemma_held_joined(a, b.drop_last());
    }
}

proof fn lemma_held_one(prefix: PrefixView)
    ensures
        held(seq![prefix]) == prefix.tokens,
{
    assert(seq![prefix].drop_last() =~= Seq::<PrefixView>::empty());
    assert(held(seq![prefix].drop_last()) == 0);
}

proof fn lemma_held_first(prefixes: Prefixes)
    requires
        prefixes.len() > 0,
    ensures
        held(prefixes) == prefixes[0].tokens + held(prefixes.drop_first()),
{
    assert(prefixes =~= seq![prefixes[0]] + prefixes.drop_first());
    lemma_held_one(prefixes[0]);
    lemma_held_joined(seq![prefixes[0]], prefixes.drop_first());
}

proof fn lemma_held_removed(prefixes: Prefixes, i: int)
    requires
        0 <= i < prefixes.len(),
    ensures
        held(prefixes.remove(i)) + prefixes[i].tokens == held(prefixes),
{
    let head = prefixes.take(i);
    let tail = prefixes.skip(i + 1);
    assert(prefixes =~= head + seq![prefixes[i]] + tail);
    assert(prefixes.remove(i) =~= head + tail);
    lemma_held_one(prefixes[i]);
    lemma_held_joined(head + seq![prefixes[i]], tail);
    lemma_held_joined(head, seq![prefixes[i]]);
    lemma_held_joined(head, tail);
}

proof fn lemma_placed(prefixes: Prefixes, key: Seq<char>, i: int)
    requires
        tidy(prefixes),
        stands_at(prefixes, key, i),
    ensures
        retained(prefixes, key) == prefixes[i].tokens,
        without(prefixes, key) == prefixes.remove(i),
{
    let j = choose|j: int| stands_at(prefixes, key, j);
    assert(stands_at(prefixes, key, j));
    if j < i {
        assert(prefixes[j].key != prefixes[i].key);
    } else if i < j {
        assert(prefixes[i].key != prefixes[j].key);
    }
}

proof fn lemma_without(prefixes: Prefixes, key: Seq<char>)
    requires
        tidy(prefixes),
    ensures
        tidy(without(prefixes, key)),
        !retains(without(prefixes, key), key),
        held(without(prefixes, key)) + retained(prefixes, key) == held(prefixes),
        retains(prefixes, key) ==> without(prefixes, key).len() == prefixes.len() - 1,
        forall|i: int|
            0 <= i < without(prefixes, key).len() ==> (#[trigger] without(prefixes, key)[i]).key != key,
{
    if retains(prefixes, key) {
        let at = choose|i: int| stands_at(prefixes, key, i);
        lemma_placed(prefixes, key, at);
        lemma_held_removed(prefixes, at);
        let rest = prefixes.remove(at);
        assert forall|i: int| 0 <= i < rest.len() implies (#[trigger] rest[i]).key != key by {
            if i < at {
                assert(rest[i] == prefixes[i]);
            } else {
                assert(rest[i] == prefixes[i + 1]);
            }
        }
        assert forall|i: int, j: int| 0 <= i < j < rest.len() implies (#[trigger] rest[i]).key != (
        #[trigger] rest[j]).key by {
            let a = if i < at { i } else { i + 1 };
            let b = if j < at { j } else { j + 1 };
            assert(rest[i] == prefixes[a] && rest[j] == prefixes[b]);
        }
        assert forall|i: int| 0 <= i < rest.len() implies (#[trigger] rest[i]).tokens > 0 by {
            let a = if i < at { i } else { i + 1 };
            assert(rest[i] == prefixes[a]);
        }
    } else {
        assert forall|i: int| 0 <= i < prefixes.len() implies (#[trigger] prefixes[i]).key != key by {
            assert(!stands_at(prefixes, key, i));
        }
    }
}

proof fn lemma_pushed(prefixes: Prefixes, prefix: PrefixView)
    requires
        tidy(prefixes),
        prefix.tokens > 0,
        forall|i: int| 0 <= i < prefixes.len() ==> (#[trigger] prefixes[i]).key != prefix.key,
    ensures
        tidy(prefixes.push(prefix)),
        held(prefixes.push(prefix)) == held(prefixes) + prefix.tokens,
        retains(prefixes.push(prefix), prefix.key),
        retained(prefixes.push(prefix), prefix.key) == prefix.tokens,
{
    let all = prefixes.push(prefix);
    assert(all.drop_last() =~= prefixes);
    assert(stands_at(all, prefix.key, prefixes.len() as int));
    lemma_placed(all, prefix.key, prefixes.len() as int);
}

proof fn lemma_evictions(prefixes: Prefixes, need: nat, capacity: nat)
    requires
        need <= capacity,
    ensures
        0 <= evictions(prefixes, need, capacity) <= prefixes.len(),
        held(prefixes.skip(evictions(prefixes, need, capacity))) + need <= capacity,
        held(prefixes.take(evictions(prefixes, need, capacity))) + held(
            prefixes.skip(evictions(prefixes, need, capacity)),
        ) == held(prefixes),
    decreases prefixes.len(),
{
    let count = evictions(prefixes, need, capacity);
    if prefixes.len() == 0 || held(prefixes) + need <= capacity {
        assert(prefixes.skip(0) =~= prefixes);
    } else {
        lemma_evictions(prefixes.drop_first(), need, capacity);
        assert(prefixes.skip(count) =~= prefixes.drop_first().skip(count - 1));
    }
    lemma_held_joined(prefixes.take(count), prefixes.skip(count));
    assert(prefixes =~= prefixes.take(count) + prefixes.skip(count));
}

/// What one request found in the cache and, once it has been committed, what
/// went for it.
#[derive(Clone, Copy, Debug, PartialEq, Eq, Structural)]
pub struct KvCacheAccess {
    pub hit: bool,
    pub reused_input_tokens: u64,
    pub uncached_input_tokens: u64,
    pub evicted_entries: u64,
    pub evicted_tokens: u64,
}

/// What went when a prompt was committed.
#[derive(Clone, Copy, Debug, PartialEq, Eq, Structural)]
pub struct KvCacheCommit {
    pub evicted_entries: u64,
    pub evicted_tokens: u64,
}

impl KvCacheAccess {
    pub fn with_commit(self, commit: KvCacheCommit) -> (access: Self)
        ensures
            access == (KvCacheAccess {
                evicted_entries: commit.evicted_entries,
                evicted_tokens: commit.evicted_tokens,
                ..self
            }),
    {
        KvCacheAccess {
            hit: self.hit,
            reused_input_tokens: self.reused_input_tokens,
            uncached_input_tokens: self.uncached_input_tokens,
            evicted_entries: commit.evicted_entries,
            evicted_tokens: commit.evicted_tokens,
        }
    }
}

/// What is reported of the cache.
#[derive(Debug)]
pub struct KvCacheStats {
    pub model: String,
    pub kv_cache_capacity_tokens: u64,
    pub kv_cache_used_tokens: u64,
    pub kv_cache_free_tokens: u64,
    pub kv_cache_entries: u64,
    pub kv_cache_hit_count: u64,
    pub kv_cache_miss_count: u64,
    pub kv_cache_eviction_count: u64,
    pub kv_cache_evicted_tokens: u64,
}

/// The cache. A capacity of zero switches it off.
#[derive(Debug)]
pub struct KvCacheState {
    capacity_tokens: u64,
    used_tokens: u64,
    prefixes: Vec<CachedPrefix>,
    hit_count: u64,
    miss_count: u64,
    eviction_count: u64,
    evicted_tokens: u64,
}

/// The counters of a cache.
pub struct CacheCounts {
    pub hits: u64,
    pub misses: u64,
    pub evictions: u64,
    pub evicted_tokens: u64,
}

pub open spec fn counted(count: u64, more: nat) -> u64 {
    if count + more > u64::MAX {
        u64::MAX
    } else {
        (count + more) as u64
    }
}

pub open spec fn smaller(a: u64, b: u64) -> u64 {
    if a < b {
        a
    } else {
        b
    }
}

pub open spec fn larger(a: u64, b: u64) -> u64 {
    if a < b {
        b
    } else {
        a
    }
}

impl KvCacheState {
    pub closed spec fn capacity(&self) -> u64 {
        self.capacity_tokens
    }

    pub closed spec fn prefixes(&self) -> Prefixes {
        crate::keyed::views(self.prefixes@)
    }

    pub closed spec fn counts(&self) -> CacheCounts {
        CacheCounts {
            hits: self.hit_count,
            misses: self.miss_count,
            evictions: self.eviction_count,
            evicted_tokens: self.evicted_tokens,
        }
    }

    /// What is retained fits, and each key is retained once.
    pub closed spec fn wf(&self) -> bool {
        &&& tidy(crate::keyed::views(self.prefixes@))
        &&& self.used_tokens == held(crate::keyed::views(self.prefixes@))
        &&& self.used_tokens <= self.capacity_tokens
    }

    /// The retained prefixes fit in the cache.
    pub proof fn lemma_fits(&self)
        requires
            self.wf(),
        ensures
            tidy(self.prefixes()),
            held(self.prefixes()) <= self.capacity(),
    {
    }

    /// The prefixes of the other keys leave the room that a key takes.
    pub proof fn lemma_room_without(&self, key: Seq<char>)
        requires
            self.wf(),
        ensures
            held(without(self.prefixes(), key)) + retained(self.prefixes(), key) == held(self.prefixes()),
    {
        lemma_without(self.prefixes(), key);
    }

    pub fn new(capacity_tokens: u64) -> (cache: Self)
        ensures
            cache.wf(),
            cache.capacity() == capacity_tokens,
            cache.prefixes() == Seq::<PrefixView>::empty(),
            cache.counts() == (CacheCounts { hits: 0, misses: 0, evictions: 0, evicted_tokens: 0 }),
    {
        let cache = KvCacheState {
            capacity_tokens,
            used_tokens: 0,
            prefixes: Vec::new(),
            hit_count: 0,
            miss_count: 0,
            eviction_count: 0,
            evicted_tokens: 0,
        };
        assert(crate::keyed::views(cache.prefixes@) =~= Seq::<PrefixView>::empty());
        cache
    }

    fn place(&self, key: &str) -> (place: Option<usize>)
        ensures
            match place {
                Some(place) => stands_at(self.prefixes(), key@, place as int),
                None => !retains(self.prefixes(), key@),
            },
    {
        let ghost all = self.prefixes();
        let mut i: usize = 0;
        while i < self.prefixes.len()
            invariant
                i <= self.prefixes.len(),
                all == crate::keyed::views(self.prefixes@),
                forall|j: int| 0 <= j < i ==> (#[trigger] all[j]).key != key@,
            decreases self.prefixes.len() - i,
        {
            if same_text(self.prefixes[i].key.as_str(), key) {
                assert(all[i as int] == self.prefixes[i as int]@);
                return Some(i);
            }
            assert(all[i as int] == self.prefixes[i as int]@);
            i += 1;
        }
        None
    }

    /// Takes the prefix of a key out. The tokens that were retained.
    fn take(&mut self, key: &str) -> (tokens: Option<u64>)
        requires
            old(self).wf(),
        ensures
            final(self).wf(),
            final(self).capacity() == old(self).capacity(),
            final(self).counts() == old(self).counts(),
            final(self).prefixes() == without(old(self).prefixes(), key@),
            tokens is Some == retains(old(self).prefixes(), key@),
            tokens matches Some(tokens) ==> tokens == retained(old(self).prefixes(), key@),
    {
        let ghost before = self.prefixes();
        match self.place(key) {
            Some(place) => {
                proof {
                    lemma_placed(before, key@, place as int);
                    lemma_without(before, key@);
                }
                let prefix = self.prefixes.remove(place);
                assert(before[place as int] == prefix@);
                assert(crate::keyed::views(self.prefixes@) =~= before.remove(place as int));
                self.used_tokens = self.used_tokens - prefix.tokens;
                Some(prefix.tokens)
            },
            None => None,
        }
    }

    /// Retains a prefix as the most recently used.
    fn put(&mut self, key: &str, tokens: u64)
        requires
            old(self).wf(),
            tokens > 0,
            held(old(self).prefixes()) + tokens <= old(self).capacity(),
            forall|i: int| 0 <= i < old(self).prefixes().len() ==> (#[trigger] old(self).prefixes()[i]).key != key@,
        ensures
            final(self).wf(),
            final(self).capacity() == old(self).capacity(),
            final(self).counts() == old(self).counts(),
            final(self).prefixes() == old(self).prefixes().push(PrefixView { key: key@, tokens }),
    {
        proof {
            lemma_pushed(self.prefixes(), PrefixView { key: key@, tokens });
        }
        let ghost before = self.prefixes();
        self.prefixes.push(CachedPrefix { key: key.to_string(), tokens });
        assert(crate::keyed::views(self.prefixes@) =~= before.push(PrefixView { key: key@, tokens }));
        self.used_tokens = self.used_tokens + tokens;
    }

    /// Looks a prompt up. What is retained of it is reused; nothing new is
    /// retained before the prompt has been processed and committed.
    pub fn access(&mut self, cache_affinity_key: Option<&str>, input_tokens: usize) -> (access: KvCacheAccess)
        requires
            old(self).wf(),
        ensures
            final(self).wf(),
            final(self).capacity() == old(self).capacity(),
            access.evicted_entries == 0,
            access.evicted_tokens == 0,
            access.reused_input_tokens + access.uncached_input_tokens == input_tokens,
            match cache_affinity_key {
                Some(key) if old(self).capacity() > 0 => {
                    &&& access.hit == retains(old(self).prefixes(), key@)
                    &&& access.reused_input_tokens == smaller(
                        retained(old(self).prefixes(), key@),
                        input_tokens as u64,
                    )
                    &&& final(self).prefixes() == looked_up(old(self).prefixes(), key@)
                    &&& final(self).counts() == (if access.hit {
                        CacheCounts { hits: counted(old(self).counts().hits, 1), ..old(self).counts() }
                    } else {
                        CacheCounts { misses: counted(old(self).counts().misses, 1), ..old(self).counts() }
                    })
                },
                _ => {
                    &&& !access.hit
                    &&& access.reused_input_tokens == 0
                    &&& *final(self) == *old(self)
                },
            },
    {
        let input: u64 = input_tokens as u64;
        let cold = KvCacheAccess {
            hit: false,
            reused_input_tokens: 0,
            uncached_input_tokens: input,
            evicted_entries: 0,
            evicted_tokens: 0,
        };
        let key = match cache_affinity_key {
            Some(key) => key,
            None => {
                return cold;
            },
        };
        if self.capacity_tokens == 0 {
            return cold;
        }
        proof {
            lemma_without(self.prefixes(), key@);
            self.lemma_fits();
        }
        match self.take(key) {
            Some(tokens) => {
                proof {
                    assert(without(old(self).prefixes(), key@).len() < old(self).prefixes().len());
                    let at = choose|i: int| stands_at(old(self).prefixes(), key@, i);
                    assert(stands_at(old(self).prefixes(), key@, at));
                    assert(old(self).prefixes()[at].tokens > 0);
                }
                self.put(key, tokens);
                self.hit_count = self.hit_count.saturating_add(1);
                let reused: u64 = if tokens < input {
                    tokens
                } else {
                    input
                };
                KvCacheAccess {
                    hit: true,
                    reused_input_tokens: reused,
                    uncached_input_tokens: input - reused,
                    evicted_entries: 0,
                    evicted_tokens: 0,
                }
            },
            None => {
                self.miss_count = self.miss_count.saturating_add(1);
                cold
            },
        }
    }

    /// Drops the least recently used prefix. Its tokens.
    fn drop_oldest(&mut self) -> (tokens: u64)
        requires
            old(self).wf(),
            old(self).prefixes().len() > 0,
        ensures
            final(self).wf(),
            final(self).capacity() == old(self).capacity(),
            final(self).counts() == old(self).counts(),
            final(self).prefixes() == old(self).prefixes().drop_first(),
            tokens == old(self).prefixes()[0].tokens,
    {
        let ghost here = self.prefixes();
        proof {
            lemma_held_first(here);
            assert(tidy(here.drop_first())) by {
                assert(forall|i: int| 0 <= i < here.drop_first().len() ==> here.drop_first()[i] == here[i + 1]);
            }
        }
        let gone = self.prefixes.remove(0);
        assert(here[0] == gone@);
        assert(crate::keyed::views(self.prefixes@) =~= here.drop_first());
        self.used_tokens = self.used_tokens - gone.tokens;
        gone.tokens
    }

    /// Drops the least recently used prefixes until `need` more tokens fit.
    fn make_room(&mut self, need: u64) -> (commit: KvCacheCommit)
        requires
            old(self).wf(),
            need <= old(self).capacity(),
        ensures
            final(self).wf(),
            final(self).capacity() == old(self).capacity(),
            ({
                let count = evictions(old(self).prefixes(), need as nat, old(self).capacity() as nat);
                &&& final(self).prefixes() == old(self).prefixes().skip(count)
                &&& commit.evicted_entries == count
                &&& commit.evicted_tokens == held(old(self).prefixes().take(count))
                &&& final(self).counts() == (CacheCounts {
                    evictions: counted(old(self).counts().evictions, count as nat),
                    evicted_tokens: counted(
                        old(self).counts().evicted_tokens,
                        held(old(self).prefixes().take(count)),
                    ),
                    ..old(self).counts()
                })
            }),
    {
        let ghost before = self.prefixes();
        let ghost capacity = self.capacity() as nat;
        let ghost count = evictions(before, need as nat, capacity);
        let mut entries: u64 = 0;
        let mut tokens: u64 = 0;
        proof {
            lemma_evictions(before, need as nat, capacity);
            assert(before.skip(0) =~= before);
            assert(before.take(0) =~= Seq::<PrefixView>::empty());
            assert(before.len() == self.prefixes.len());
        }
        while self.prefixes.len() > 0 && self.used_tokens > self.capacity_tokens - need
            invariant
                self.wf(),
                self.capacity() == capacity,
                self.counts() == old(self).counts(),
                need <= capacity,
                0 <= entries <= count <= before.len(),
                count == evictions(before, need as nat, capacity),
                evictions(self.prefixes(), need as nat, capacity) == count - entries,
                self.prefixes() == before.skip(entries as int),
                tokens == held(before.take(entries as int)),
                held(before) <= capacity,
                capacity <= u64::MAX,
                before.len() <= usize::MAX,
            decreases self.prefixes.len(),
        {
            let ghost here = self.prefixes();
            proof {
                lemma_evictions(here.drop_first(), need as nat, capacity);
                assert(here.drop_first() =~= before.skip(entries + 1));
                assert(before.take(entries + 1).drop_last() =~= before.take(entries as int));
                assert(here[0] == before[entries as int]);
                lemma_held_joined(before.take(entries + 1), before.skip(entries + 1));
                assert(before =~= before.take(entries + 1) + before.skip(entries + 1));
            }
            let gone: u64 = self.drop_oldest();
            entries = entries + 1;
            tokens = tokens + gone;
        }
        proof {
            assert(evictions(self.prefixes(), need as nat, capacity) == 0);
        }
        self.eviction_count = self.eviction_count.saturating_add(entries);
        self.evicted_tokens = self.evicted_tokens.saturating_add(tokens);
        KvCacheCommit { evicted_entries: entries, evicted_tokens: tokens }
    }

    /// Retains a prompt that has been processed, as the most recently used. What
    /// is retained under a key only grows. The least recently used prefixes make
    /// room. A prompt that is larger than the cache is not retained.
    pub fn commit(&mut self, cache_affinity_key: Option<&str>, input_tokens: usize) -> (commit: KvCacheCommit)
        requires
            old(self).wf(),
        ensures
            final(self).wf(),
            final(self).capacity() == old(self).capacity(),
            match cache_affinity_key {
                Some(key) if 0 < input_tokens <= old(self).capacity() => {
                    let grown = larger(retained(old(self).prefixes(), key@), input_tokens as u64);
                    let others = without(old(self).prefixes(), key@);
                    let count = evictions(others, grown as nat, old(self).capacity() as nat);
                    &&& final(self).prefixes() == committed(
                        old(self).prefixes(),
                        key@,
                        input_tokens as u64,
                        old(self).capacity(),
                    )
                    &&& commit.evicted_entries == count
                    &&& commit.evicted_tokens == held(others.take(count))
                    &&& final(self).counts() == (CacheCounts {
                        evictions: counted(old(self).counts().evictions, count as nat),
                        evicted_tokens: counted(old(self).counts().evicted_tokens, held(others.take(count))),
                        ..old(self).counts()
                    })
                },
                _ => {
                    &&& commit == (KvCacheCommit { evicted_entries: 0, evicted_tokens: 0 })
                    &&& *final(self) == *old(self)
                },
            },
    {
        let nothing = KvCacheCommit { evicted_entries: 0, evicted_tokens: 0 };
        let key = match cache_affinity_key {
            Some(key) => key,
            None => {
                return nothing;
            },
        };
        let input: u64 = input_tokens as u64;
        if input == 0 || input > self.capacity_tokens {
            return nothing;
        }
        proof {
            lemma_without(self.prefixes(), key@);
            self.lemma_fits();
        }
        let grown: u64 = match self.take(key) {
            Some(tokens) => if tokens < input {
                input
            } else {
                tokens
            },
            None => input,
        };
        let ghost others = self.prefixes();
        proof {
            lemma_evictions(others, grown as nat, self.capacity() as nat);
        }
        let commit = self.make_room(grown);
        self.put(key, grown);
        commit
    }

    pub fn stats(&self, model: &str) -> (stats: KvCacheStats)
        requires
            self.wf(),
        ensures
            stats.model@ == model@,
            stats.kv_cache_capacity_tokens == self.capacity(),
            stats.kv_cache_used_tokens == held(self.prefixes()),
            stats.kv_cache_free_tokens + stats.kv_cache_used_tokens == self.capacity(),
            stats.kv_cache_entries == self.prefixes().len(),
            stats.kv_cache_hit_count == self.counts().hits,
            stats.kv_cache_miss_count == self.counts().misses,
            stats.kv_cache_eviction_count == self.counts().evictions,
            stats.kv_cache_evicted_tokens == self.counts().evicted_tokens,
    {
        KvCacheStats {
            model: model.to_string(),
            kv_cache_capacity_tokens: self.capacity_tokens,
            kv_cache_used_tokens: self.used_tokens,
            kv_cache_free_tokens: self.capacity_tokens - self.used_tokens,
            kv_cache_entries: self.prefixes.len() as u64,
            kv_cache_hit_count: self.hit_count,
            kv_cache_miss_count: self.miss_count,
            kv_cache_eviction_count: self.eviction_count,
            kv_cache_evicted_tokens: self.evicted_tokens,
        }
    }
}

pub const HEADER_KV_CACHE_HIT: &'static str = "x-kv-cache-hit";
pub const HEADER_KV_CACHE_REUSED_INPUT_TOKENS: &'static str = "x-kv-cache-reused-input-tokens";
pub const HEADER_KV_CACHE_UNCACHED_INPUT_TOKENS: &'static str = "x-kv-cache-uncached-input-tokens";

/// The headers with what a request found in the cache.
pub open spec fn with_access(
    contents: crate::headers::HeaderContents,
    access: KvCacheAccess,
) -> crate::headers::HeaderContents {
    contents.insert(
        HEADER_KV_CACHE_HIT@,
        seq![crate::headers::ascii_bytes(if access.hit { "true"@ } else { "false"@ })],
    ).insert(
        HEADER_KV_CACHE_REUSED_INPUT_TOKENS@,
        seq![crate::headers::ascii_bytes(crate::text::decimal_text(access.reused_input_tokens as nat))],
    ).insert(
        HEADER_KV_CACHE_UNCACHED_INPUT_TOKENS@,
        seq![crate::headers::ascii_bytes(crate::text::decimal_text(access.uncached_input_tokens as nat))],
    )
}

/// Says in the headers of a response what the request found in the cache. A map
/// with very many names may refuse.
pub fn insert_kv_cache_headers(headers: &mut HeaderMap<HeaderValue>, access: KvCacheAccess) -> (inserted: bool)
    ensures
        inserted ==> crate::headers::header_contents(*final(headers)) == with_access(
            crate::headers::header_contents(*old(headers)),
            access,
        ),
        !inserted ==> crate::headers::header_contents(*old(headers)).len() + 2 > crate::headers::HEADER_ROOM,
{
    let _ = header_count(headers);
    let ghost before = crate::headers::header_contents(*headers);
    proof {
        reveal_strlit("x-kv-cache-hit");
        reveal_strlit("x-kv-cache-reused-input-tokens");
        reveal_strlit("x-kv-cache-uncached-input-tokens");
        reveal_strlit("true");
        reveal_strlit("false");
        crate::tunnel_contract::lemma_name_chars_canonical(HEADER_KV_CACHE_HIT@);
        crate::tunnel_contract::lemma_name_chars_canonical(HEADER_KV_CACHE_REUSED_INPUT_TOKENS@);
        crate::tunnel_contract::lemma_name_chars_canonical(HEADER_KV_CACHE_UNCACHED_INPUT_TOKENS@);
    }
    let hit = if access.hit {
        "true"
    } else {
        "false"
    };
    let hit_value = bytes_of_text(hit);
    if !insert_header(headers, HEADER_KV_CACHE_HIT, hit_value.as_slice()) {
        return false;
    }
    let reused_value = bytes_of_decimal(access.reused_input_tokens);
    if !insert_header(headers, HEADER_KV_CACHE_REUSED_INPUT_TOKENS, reused_value.as_slice()) {
        return false;
    }
    let uncached_value = bytes_of_decimal(access.uncached_input_tokens);
    insert_header(headers, HEADER_KV_CACHE_UNCACHED_INPUT_TOKENS, uncached_value.as_slice())
}

/// A committed prompt is found by the next look-up, as far as it was retained,
/// and what is retained never shrinks.
pub proof fn law_committed_prompt_is_reused(prefixes: Prefixes, key: Seq<char>, tokens: u64, capacity: u64)
    requires
        tidy(prefixes),
        held(prefixes) <= capacity,
        0 < tokens <= capacity,
    ensures
        retains(committed(prefixes, key, tokens, capacity), key),
        retained(committed(prefixes, key, tokens, capacity), key) == larger(retained(prefixes, key), tokens),
        tidy(committed(prefixes, key, tokens, capacity)),
        held(committed(prefixes, key, tokens, capacity)) <= capacity,
{
    let grown = larger(retained(prefixes, key), tokens);
    let others = without(prefixes, key);
    let count = evictions(others, grown as nat, capacity as nat);
    lemma_without(prefixes, key);
    lemma_evictions(others, grown as nat, capacity as nat);
    let kept = others.skip(count);
    assert forall|i: int| 0 <= i < kept.len() implies #[trigger] kept[i] == others[i + count] by {}
    lemma_pushed(kept, PrefixView { key, tokens: grown });
}

/// A look-up retains nothing that was not retained, and drops nothing.
pub proof fn law_look_up_keeps_what_is_retained(prefixes: Prefixes, key: Seq<char>, other: Seq<char>)
    requires
        tidy(prefixes),
    ensures
        retains(looked_up(prefixes, key), other) == retains(prefixes, other),
        retained(looked_up(prefixes, key), other) == retained(prefixes, other),
        held(looked_up(prefixes, key)) == held(prefixes),
        tidy(looked_up(prefixes, key)),
{
    if retains(prefixes, key) {
        let after = looked_up(prefixes, key);
        let others = without(prefixes, key);
        let at = choose|i: int| stands_at(prefixes, key, i);
        assert(stands_at(prefixes, key, at));
        lemma_placed(prefixes, key, at);
        lemma_without(prefixes, key);
        lemma_pushed(others, PrefixView { key, tokens: retained(prefixes, key) });
        if other != key {
            if retains(prefixes, other) {
                let i = choose|i: int| stands_at(prefixes, other, i);
                let j = if i < at { i } else { i - 1 };
                assert(others[j] == prefixes[i]);
                assert(stands_at(after, other, j));
                lemma_placed(after, other, j);
                lemma_placed(prefixes, other, i);
            }
            if retains(after, other) {
                let j = choose|j: int| stands_at(after, other, j);
                let i = if j < at { j } else { j + 1 };
                assert(after[j] == others[j]);
                assert(stands_at(prefixes, other, i));
            }
        }
    }
}

/// No more prefixes go than must: had the last of them stayed, the new one
/// would not fit.
pub proof fn law_evicts_no_more_than_needed(prefixes: Prefixes, need: nat, capacity: nat)
    requires
        need <= capacity,
        evictions(prefixes, need, capacity) > 0,
    ensures
        held(prefixes.skip(evictions(prefixes, need, capacity) - 1)) + need > capacity,
        held(prefixes.skip(evictions(prefixes, need, capacity))) + need <= capacity,
    decreases prefixes.len(),
{
    let count = evictions(prefixes, need, capacity);
    lemma_evictions(prefixes, need, capacity);
    if count == 1 {
        assert(prefixes.skip(0) =~= prefixes);
    } else {
        law_evicts_no_more_than_needed(prefixes.drop_first(), need, capacity);
        assert(prefixes.skip(count - 1) =~= prefixes.drop_first().skip(count - 2));
    }
}

} // verus!
