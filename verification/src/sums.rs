//! Sums of weights over the values of a finite map.

use vstd::prelude::*;

verus! {

/// The sum of `weight` over the values of `map`.
pub open spec fn total<K, V>(map: Map<K, V>, weight: spec_fn(V) -> nat) -> nat
    decreases map.dom().len(),
    when map.dom().finite()
{
    if map.dom().is_empty() {
        0
    } else {
        let key = map.dom().choose();
        weight(map[key]) + total(map.remove(key), weight)
    }
}

/// One value can be split off the sum.
pub proof fn lemma_total_remove<K, V>(map: Map<K, V>, weight: spec_fn(V) -> nat, key: K)
    requires
        map.dom().finite(),
        map.contains_key(key),
    ensures
        total(map, weight) == weight(map[key]) + total(map.remove(key), weight),
    decreases map.dom().len(),
{
    let first = map.dom().choose();
    if first != key {
        lemma_total_remove(map.remove(first), weight, key);
        lemma_total_remove(map.remove(key), weight, first);
        assert(map.remove(first).remove(key) =~= map.remove(key).remove(first));
    }
}

/// A new entry adds its weight to the sum.
pub proof fn lemma_total_insert<K, V>(map: Map<K, V>, weight: spec_fn(V) -> nat, key: K, value: V)
    requires
        map.dom().finite(),
        !map.contains_key(key),
    ensures
        total(map.insert(key, value), weight) == total(map, weight) + weight(value),
{
    lemma_total_remove(map.insert(key, value), weight, key);
    assert(map.insert(key, value).remove(key) =~= map);
}

/// The sum is at most the number of entries times a bound on the weights.
pub proof fn lemma_total_bound<K, V>(map: Map<K, V>, weight: spec_fn(V) -> nat, bound: nat)
    requires
        map.dom().finite(),
        forall|key: K| map.contains_key(key) ==> weight(#[trigger] map[key]) <= bound,
    ensures
        total(map, weight) <= map.len() * bound,
    decreases map.dom().len(),
{
    if map.dom().is_empty() {
        assert(map.dom().len() == 0);
    } else {
        let key = map.dom().choose();
        let rest = map.remove(key);
        assert forall|k: K| rest.contains_key(k) implies weight(#[trigger] rest[k]) <= bound by {
            assert(rest[k] == map[k]);
        }
        lemma_total_bound(rest, weight, bound);
        assert(map.len() == rest.len() + 1);
        assert((rest.len() + 1) * bound == rest.len() * bound + bound) by (nonlinear_arith);
    }
}

/// One weight function below another has the smaller sum.
pub proof fn lemma_total_le<K, V>(map: Map<K, V>, low: spec_fn(V) -> nat, high: spec_fn(V) -> nat)
    requires
        map.dom().finite(),
        forall|key: K| map.contains_key(key) ==> low(#[trigger] map[key]) <= high(map[key]),
    ensures
        total(map, low) <= total(map, high),
    decreases map.dom().len(),
{
    if !map.dom().is_empty() {
        let key = map.dom().choose();
        let rest = map.remove(key);
        assert forall|k: K| rest.contains_key(k) implies low(#[trigger] rest[k]) <= high(rest[k]) by {
            assert(rest[k] == map[k]);
        }
        lemma_total_le(rest, low, high);
        assert(low(map[key]) <= high(map[key]));
    }
}

/// Two weight functions that add up to a third have sums that do so too.
pub proof fn lemma_total_split<K, V>(
    map: Map<K, V>,
    left: spec_fn(V) -> nat,
    right: spec_fn(V) -> nat,
    whole: spec_fn(V) -> nat,
)
    requires
        map.dom().finite(),
        forall|key: K| map.contains_key(key) ==> whole(#[trigger] map[key]) == left(map[key]) + right(map[key]),
    ensures
        total(map, whole) == total(map, left) + total(map, right),
    decreases map.dom().len(),
{
    if !map.dom().is_empty() {
        let key = map.dom().choose();
        let rest = map.remove(key);
        assert forall|k: K| rest.contains_key(k) implies whole(#[trigger] rest[k]) == left(rest[k]) + right(
            rest[k],
        ) by {
            assert(rest[k] == map[k]);
        }
        lemma_total_split(rest, left, right, whole);
        assert(whole(map[key]) == left(map[key]) + right(map[key]));
    }
}

/// The sum is zero exactly where every weight is.
pub proof fn lemma_total_zero<K, V>(map: Map<K, V>, weight: spec_fn(V) -> nat)
    requires
        map.dom().finite(),
    ensures
        total(map, weight) == 0 <==> forall|key: K| map.contains_key(key) ==> weight(#[trigger] map[key]) == 0,
{
    if total(map, weight) == 0 {
        assert forall|key: K| map.contains_key(key) implies weight(#[trigger] map[key]) == 0 by {
            lemma_total_remove(map, weight, key);
        }
    } else if forall|key: K| map.contains_key(key) ==> weight(#[trigger] map[key]) == 0 {
        lemma_total_bound(map, weight, 0);
    }
}

/// The sum over the values of listed keys.
pub open spec fn listed<K, V>(keys: Seq<K>, map: Map<K, V>, weight: spec_fn(V) -> nat) -> nat
    decreases keys.len(),
{
    if keys.len() == 0 {
        0
    } else {
        listed(keys.drop_last(), map, weight) + weight(map[keys.last()])
    }
}

proof fn lemma_listed_same<K, V>(keys: Seq<K>, map: Map<K, V>, other: Map<K, V>, weight: spec_fn(V) -> nat)
    requires
        forall|i: int| 0 <= i < keys.len() ==> map[#[trigger] keys[i]] == other[keys[i]],
    ensures
        listed(keys, map, weight) == listed(keys, other, weight),
    decreases keys.len(),
{
    if keys.len() > 0 {
        assert(map[keys[keys.len() - 1]] == other[keys[keys.len() - 1]]);
        assert forall|i: int| 0 <= i < keys.drop_last().len() implies map[#[trigger] keys.drop_last()[i]]
            == other[keys.drop_last()[i]] by {
            assert(keys.drop_last()[i] == keys[i]);
        }
        lemma_listed_same(keys.drop_last(), map, other, weight);
    }
}

/// Going through all keys once gives the sum.
pub proof fn lemma_listed<K, V>(keys: Seq<K>, map: Map<K, V>, weight: spec_fn(V) -> nat)
    requires
        keys.no_duplicates(),
        keys.to_set() == map.dom(),
    ensures
        map.dom().finite(),
        listed(keys, map, weight) == total(map, weight),
    decreases keys.len(),
{
    keys.unique_seq_to_set();
    if keys.len() == 0 {
        assert(map.dom().len() == 0);
    } else {
        let last = keys.last();
        let rest = keys.drop_last();
        assert(keys.contains(last));
        assert(map.contains_key(last)) by {
            assert(keys.to_set().contains(last));
        }
        assert forall|key: K| rest.to_set().contains(key) == #[trigger] map.remove(last).dom().contains(key) by {
            if rest.to_set().contains(key) {
                let i = choose|i: int| 0 <= i < rest.len() && rest[i] == key;
                assert(keys[i] == key);
                assert(keys.to_set().contains(key));
            }
            if map.remove(last).dom().contains(key) {
                assert(keys.to_set().contains(key));
                let i = choose|i: int| 0 <= i < keys.len() && keys[i] == key;
                assert(rest[i] == key);
            }
        }
        assert(rest.to_set() =~= map.remove(last).dom());
        lemma_listed(rest, map.remove(last), weight);
        assert forall|i: int| 0 <= i < rest.len() implies map.remove(last)[#[trigger] rest[i]] == map[rest[i]] by {
            assert(rest[i] == keys[i]);
        }
        lemma_listed_same(rest, map.remove(last), map, weight);
        lemma_total_remove(map, weight, last);
    }
}

} // verus!
