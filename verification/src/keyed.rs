//! Maps and sets kept in ascending order of their keys.

use vstd::prelude::*;

use crate::text::{text_rank, Rank};

verus! {

/// A key type whose views are totally ordered.
pub trait OrderedKey: View + Sized {
    spec fn before(a: Self::V, b: Self::V) -> bool;

    proof fn before_irreflexive(a: Self::V)
        ensures
            !Self::before(a, a),
    ;

    proof fn before_transitive(a: Self::V, b: Self::V, c: Self::V)
        requires
            Self::before(a, b),
            Self::before(b, c),
        ensures
            Self::before(a, c),
    ;

    fn rank(&self, other: &Self) -> (rank: Rank)
        ensures
            match rank {
                Rank::Before => Self::before(self@, other@),
                Rank::Same => self@ == other@,
                Rank::After => Self::before(other@, self@),
            },
    ;

    fn copy_key(&self) -> (key: Self)
        ensures
            key@ == self@,
    ;
}

impl OrderedKey for String {
    open spec fn before(a: Seq<char>, b: Seq<char>) -> bool {
        crate::text::text_before(a, b)
    }

    proof fn before_irreflexive(a: Seq<char>) {
        crate::text::lemma_text_before_irreflexive(a);
    }

    proof fn before_transitive(a: Seq<char>, b: Seq<char>, c: Seq<char>) {
        crate::text::lemma_text_before_transitive(a, b, c);
    }

    fn rank(&self, other: &Self) -> (rank: Rank) {
        text_rank(self.as_str(), other.as_str())
    }

    fn copy_key(&self) -> (key: Self) {
        self.clone()
    }
}

impl OrderedKey for u32 {
    open spec fn before(a: u32, b: u32) -> bool {
        a < b
    }

    proof fn before_irreflexive(a: u32) {
    }

    proof fn before_transitive(a: u32, b: u32, c: u32) {
    }

    fn rank(&self, other: &Self) -> (rank: Rank) {
        if *self < *other {
            Rank::Before
        } else if *self == *other {
            Rank::Same
        } else {
            Rank::After
        }
    }

    fn copy_key(&self) -> (key: Self) {
        *self
    }
}

/// The sequence is strictly ascending.
pub open spec fn ascending<K: OrderedKey>(keys: Seq<K::V>) -> bool {
    forall|i: int, j: int| 0 <= i < j < keys.len() ==> K::before(#[trigger] keys[i], #[trigger] keys[j])
}

/// `keys` lists the members of `members`, each once, in ascending order.
pub open spec fn lists<K: OrderedKey>(keys: Seq<K::V>, members: Set<K::V>) -> bool {
    &&& ascending::<K>(keys)
    &&& keys.to_set() == members
}

/// An ascending sequence holds nothing twice.
pub proof fn lemma_ascending_distinct<K: OrderedKey>(keys: Seq<K::V>)
    requires
        ascending::<K>(keys),
    ensures
        keys.no_duplicates(),
{
    assert forall|i: int, j: int| 0 <= i < keys.len() && 0 <= j < keys.len() && i != j implies #[trigger] keys[i]
        != #[trigger] keys[j] by {
        K::before_irreflexive(keys[i]);
        if i < j {
            assert(K::before(keys[i], keys[j]));
        } else {
            assert(K::before(keys[j], keys[i]));
        }
    }
}

/// A map as a vector of entries in strictly ascending key order.
#[derive(Debug)]
pub struct SortedMap<K: OrderedKey, V: View> {
    entries: Vec<(K, V)>,
}

spec fn keys_of<K: View, V>(entries: Seq<(K, V)>) -> Seq<K::V> {
    entries.map_values(|entry: (K, V)| entry.0@)
}

spec fn map_of<K: View, V: View>(entries: Seq<(K, V)>) -> Map<K::V, V::V> {
    Map::new(
        |key: K::V| exists|i: int| 0 <= i < entries.len() && (#[trigger] entries[i]).0@ == key,
        |key: K::V| entries[choose|i: int| 0 <= i < entries.len() && (#[trigger] entries[i]).0@ == key].1@,
    )
}

spec fn sorted<K: OrderedKey, V>(entries: Seq<(K, V)>) -> bool {
    forall|i: int, j: int|
        0 <= i < j < entries.len() ==> K::before((#[trigger] entries[i]).0@, (#[trigger] entries[j]).0@)
}

proof fn lemma_map_of_entry<K: OrderedKey, V: View>(entries: Seq<(K, V)>, i: int)
    requires
        sorted(entries),
        0 <= i < entries.len(),
    ensures
        map_of(entries).contains_key(entries[i].0@),
        map_of(entries)[entries[i].0@] == entries[i].1@,
{
    let key = entries[i].0@;
    let j = choose|j: int| 0 <= j < entries.len() && (#[trigger] entries[j]).0@ == key;
    K::before_irreflexive(key);
    assert(j == i);
}

/// A gap at position `i` where `key` fits.
spec fn fits<K: OrderedKey, V>(entries: Seq<(K, V)>, i: int, key: K::V) -> bool {
    &&& 0 <= i <= entries.len()
    &&& forall|j: int| 0 <= j < i ==> K::before((#[trigger] entries[j]).0@, key)
    &&& forall|j: int| i <= j < entries.len() ==> K::before(key, (#[trigger] entries[j]).0@)
}

proof fn lemma_fits_absent<K: OrderedKey, V: View>(entries: Seq<(K, V)>, i: int, key: K::V)
    requires
        fits(entries, i, key),
    ensures
        !map_of(entries).contains_key(key),
{
    K::before_irreflexive(key);
}

proof fn lemma_insert_entry<K: OrderedKey, V: View>(entries: Seq<(K, V)>, i: int, entry: (K, V))
    requires
        sorted(entries),
        fits(entries, i, entry.0@),
    ensures
        sorted(entries.insert(i, entry)),
        map_of(entries.insert(i, entry)) == map_of(entries).insert(entry.0@, entry.1@),
{
    let more = entries.insert(i, entry);
    let key = entry.0@;
    assert forall|a: int, b: int| 0 <= a < b < more.len() implies K::before(
        (#[trigger] more[a]).0@,
        (#[trigger] more[b]).0@,
    ) by {
        let a0 = if a < i { a } else { a - 1 };
        let b0 = if b < i { b } else { b - 1 };
        if a != i && b != i {
            assert(entries[a0] == more[a] && entries[b0] == more[b]);
        } else if a == i {
            assert(entries[b0] == more[b]);
        } else {
            assert(entries[a0] == more[a]);
        }
    }
    lemma_fits_absent(entries, i, key);
    let left = map_of(more);
    let right = map_of(entries).insert(key, entry.1@);
    assert forall|k: K::V| left.contains_key(k) == #[trigger] right.contains_key(k) by {
        if left.contains_key(k) {
            let j = choose|j: int| 0 <= j < more.len() && (#[trigger] more[j]).0@ == k;
            if j < i {
                assert(entries[j] == more[j]);
            } else if j > i {
                assert(entries[j - 1] == more[j]);
            }
        }
        if right.contains_key(k) {
            if k == key {
                assert(more[i].0@ == k);
            } else {
                let j = choose|j: int| 0 <= j < entries.len() && (#[trigger] entries[j]).0@ == k;
                if j < i {
                    assert(more[j] == entries[j]);
                } else {
                    assert(more[j + 1] == entries[j]);
                }
            }
        }
    }
    assert forall|k: K::V| #[trigger] left.contains_key(k) implies left[k] == right[k] by {
        let j = choose|j: int| 0 <= j < more.len() && (#[trigger] more[j]).0@ == k;
        lemma_map_of_entry(more, j);
        if j < i {
            assert(entries[j] == more[j]);
            lemma_map_of_entry(entries, j);
        } else if j > i {
            assert(entries[j - 1] == more[j]);
            lemma_map_of_entry(entries, j - 1);
        }
    }
    assert(left =~= right);
}

proof fn lemma_remove_entry<K: OrderedKey, V: View>(entries: Seq<(K, V)>, i: int)
    requires
        sorted(entries),
        0 <= i < entries.len(),
    ensures
        sorted(entries.remove(i)),
        map_of(entries.remove(i)) == map_of(entries).remove(entries[i].0@),
        fits(entries.remove(i), i, entries[i].0@),
{
    let less = entries.remove(i);
    assert forall|a: int, b: int| 0 <= a < b < less.len() implies K::before(
        (#[trigger] less[a]).0@,
        (#[trigger] less[b]).0@,
    ) by {
        let a0 = if a < i { a } else { a + 1 };
        let b0 = if b < i { b } else { b + 1 };
        assert(entries[a0] == less[a] && entries[b0] == less[b]);
    }
    assert(fits(less, i, entries[i].0@)) by {
        assert forall|j: int| 0 <= j < i implies K::before((#[trigger] less[j]).0@, entries[i].0@) by {
            assert(less[j] == entries[j]);
        }
        assert forall|j: int| i <= j < less.len() implies K::before(entries[i].0@, (#[trigger] less[j]).0@) by {
            assert(less[j] == entries[j + 1]);
        }
    }
    lemma_insert_entry(less, i, entries[i]);
    lemma_fits_absent(less, i, entries[i].0@);
    assert(less.insert(i, entries[i]) =~= entries);
    assert(map_of(less) =~= map_of(entries).remove(entries[i].0@));
}

proof fn lemma_map_of_len<K: OrderedKey, V: View>(entries: Seq<(K, V)>)
    requires
        sorted(entries),
    ensures
        map_of(entries).dom().finite(),
        map_of(entries).len() == entries.len(),
    decreases entries.len(),
{
    if entries.len() == 0 {
        assert(map_of(entries).dom() =~= Set::empty());
    } else {
        let last = entries.len() - 1;
        lemma_remove_entry(entries, last);
        lemma_map_of_len(entries.remove(last));
        lemma_map_of_entry(entries, last);
        assert(map_of(entries).dom() =~= map_of(entries.remove(last)).dom().insert(entries[last].0@));
        lemma_fits_absent(entries.remove(last), last, entries[last].0@);
    }
}

impl<K: OrderedKey, V: View> View for SortedMap<K, V> {
    type V = Map<K::V, V::V>;

    closed spec fn view(&self) -> Map<K::V, V::V> {
        map_of(self.entries@)
    }
}

impl<K: OrderedKey, V: View> SortedMap<K, V> {
    /// A map has finitely many keys.
    pub proof fn lemma_finite(&self)
        ensures
            self@.dom().finite(),
    {
        let keys = keys_of(self.entries@);
        assert forall|key: K::V| #[trigger] self@.dom().contains(key) implies keys.to_set().contains(key) by {
            let i = choose|i: int| 0 <= i < self.entries@.len() && (#[trigger] self.entries@[i]).0@ == key;
            assert(keys[i] == key);
        }
        vstd::seq_lib::seq_to_set_is_finite(keys);
        vstd::set_lib::lemma_len_subset(self@.dom(), keys.to_set());
    }

    #[verifier::type_invariant]
    spec fn is_sorted(self) -> bool {
        sorted(self.entries@)
    }

    /// The keys in the order in which `key_at` and `value_at` give them.
    pub closed spec fn order(&self) -> Seq<K::V> {
        keys_of(self.entries@)
    }

    pub fn new() -> (map: Self)
        ensures
            map@ == Map::<K::V, V::V>::empty(),
    {
        let map = SortedMap { entries: Vec::new() };
        assert(map@ =~= Map::<K::V, V::V>::empty());
        map
    }

    /// The number of entries. The order lists the map's keys.
    pub fn len(&self) -> (len: usize)
        ensures
            self@.dom().finite(),
            len == self@.len(),
            len == self.order().len(),
            lists::<K>(self.order(), self@.dom()),
    {
        proof {
            use_type_invariant(self);
            lemma_map_of_len(self.entries@);
            assert forall|key: K::V| self.order().to_set().contains(key) == #[trigger] self@.dom().contains(key) by {
                if self.order().to_set().contains(key) {
                    let i = choose|i: int| 0 <= i < self.order().len() && self.order()[i] == key;
                    assert(self.entries@[i].0@ == key);
                }
                if self@.dom().contains(key) {
                    let i = choose|i: int| 0 <= i < self.entries@.len() && (#[trigger] self.entries@[i]).0@ == key;
                    assert(self.order()[i] == key);
                }
            }
            assert(self.order().to_set() =~= self@.dom());
        }
        self.entries.len()
    }

    pub fn key_at(&self, i: usize) -> (key: &K)
        requires
            i < self.order().len(),
        ensures
            key@ == self.order()[i as int],
            self@.contains_key(key@),
    {
        proof {
            use_type_invariant(self);
            lemma_map_of_entry(self.entries@, i as int);
        }
        &self.entries[i].0
    }

    pub fn value_at(&self, i: usize) -> (value: &V)
        requires
            i < self.order().len(),
        ensures
            self@.contains_key(self.order()[i as int]),
            value@ == self@[self.order()[i as int]],
    {
        proof {
            use_type_invariant(self);
            lemma_map_of_entry(self.entries@, i as int);
        }
        &self.entries[i].1
    }

    /// Finds where `key` stands or would stand.
    fn find(&self, key: &K) -> (found: (usize, bool))
        ensures
            found.1 ==> found.0 < self.entries@.len() && self.entries@[found.0 as int].0@ == key@,
            !found.1 ==> fits(self.entries@, found.0 as int, key@),
    {
        proof {
            use_type_invariant(self);
        }
        let mut low: usize = 0;
        let mut high: usize = self.entries.len();
        while low < high
            invariant
                sorted(self.entries@),
                low <= high <= self.entries@.len(),
                forall|j: int| 0 <= j < low ==> K::before((#[trigger] self.entries@[j]).0@, key@),
                forall|j: int| high <= j < self.entries@.len() ==> K::before(key@, (#[trigger] self.entries@[j]).0@),
            decreases high - low,
        {
            let mid: usize = low + (high - low) / 2;
            match self.entries[mid].0.rank(key) {
                Rank::Same => {
                    return (mid, true);
                },
                Rank::Before => {
                    proof {
                        assert forall|j: int| 0 <= j < mid + 1 implies K::before(
                            (#[trigger] self.entries@[j]).0@,
                            key@,
                        ) by {
                            if j < mid {
                                K::before_transitive(self.entries@[j].0@, self.entries@[mid as int].0@, key@);
                            }
                        }
                    }
                    low = mid + 1;
                },
                Rank::After => {
                    proof {
                        assert forall|j: int| mid <= j < self.entries@.len() implies K::before(
                            key@,
                            (#[trigger] self.entries@[j]).0@,
                        ) by {
                            if j > mid {
                                K::before_transitive(key@, self.entries@[mid as int].0@, self.entries@[j].0@);
                            }
                        }
                    }
                    high = mid;
                },
            }
        }
        (low, false)
    }

    pub fn get(&self, key: &K) -> (value: Option<&V>)
        ensures
            match value {
                Some(value) => self@.contains_key(key@) && value@ == self@[key@],
                None => !self@.contains_key(key@),
            },
    {
        let (i, found): (usize, bool) = self.find(key);
        proof {
            use_type_invariant(self);
            if found {
                lemma_map_of_entry(self.entries@, i as int);
            } else {
                lemma_fits_absent(self.entries@, i as int, key@);
            }
        }
        if found {
            Some(&self.entries[i].1)
        } else {
            None
        }
    }

    pub fn contains_key(&self, key: &K) -> (contains: bool)
        ensures
            contains == self@.contains_key(key@),
    {
        self.get(key).is_some()
    }

    /// Sets the value of `key`.
    pub fn insert(&mut self, key: K, value: V)
        ensures
            final(self)@ == old(self)@.insert(key@, value@),
    {
        let (i, found): (usize, bool) = self.find(&key);
        proof {
            use_type_invariant(&*self);
        }
        let ghost before = self.entries@;
        let mut entries: Vec<(K, V)> = Vec::new();
        std::mem::swap(&mut entries, &mut self.entries);
        if found {
            proof {
                lemma_remove_entry(before, i as int);
                lemma_insert_entry(before.remove(i as int), i as int, (key, value));
                assert(before.remove(i as int).insert(i as int, (key, value)) =~= before.update(
                    i as int,
                    (key, value),
                ));
                assert(map_of(before).remove(key@).insert(key@, value@) =~= map_of(before).insert(key@, value@));
            }
            entries[i] = (key, value);
        } else {
            proof {
                lemma_insert_entry(before, i as int, (key, value));
            }
            entries.insert(i, (key, value));
        }
        self.entries = entries;
    }

    /// Takes the value of `key` out of the map.
    pub fn remove(&mut self, key: &K) -> (value: Option<V>)
        ensures
            final(self)@ == old(self)@.remove(key@),
            match value {
                Some(value) => old(self)@.contains_key(key@) && value@ == old(self)@[key@],
                None => !old(self)@.contains_key(key@),
            },
    {
        let (i, found): (usize, bool) = self.find(key);
        proof {
            use_type_invariant(&*self);
        }
        if !found {
            proof {
                lemma_fits_absent(self.entries@, i as int, key@);
                assert(self@.remove(key@) =~= self@);
            }
            return None;
        }
        let ghost before = self.entries@;
        let mut entries: Vec<(K, V)> = Vec::new();
        std::mem::swap(&mut entries, &mut self.entries);
        proof {
            lemma_remove_entry(before, i as int);
            lemma_map_of_entry(before, i as int);
        }
        let (_, value) = entries.remove(i);
        self.entries = entries;
        Some(value)
    }
}

/// What the items of a sequence stand for.
pub open spec fn views<K: View>(items: Seq<K>) -> Seq<K::V> {
    items.map_values(|item: K| item@)
}

impl<K: OrderedKey, V: View> SortedMap<K, V> {
    /// Copies of the keys, in ascending order.
    pub fn keys(&self) -> (keys: Vec<K>)
        ensures
            views(keys@) == self.order(),
            lists::<K>(views(keys@), self@.dom()),
            self@.dom().finite(),
    {
        let len: usize = self.len();
        let mut keys: Vec<K> = Vec::new();
        let mut i: usize = 0;
        while i < len
            invariant
                i <= len == self.order().len(),
                views(keys@) == self.order().take(i as int),
            decreases len - i,
        {
            let ghost before = keys@;
            let key = self.key_at(i).copy_key();
            keys.push(key);
            proof {
                assert(views(keys@) =~= views(before).push(key@));
                assert(self.order().take(i + 1) =~= self.order().take(i as int).push(key@));
            }
            i += 1;
        }
        assert(views(keys@) =~= self.order());
        keys
    }
}

/// A set whose members are kept in ascending order.
#[derive(Debug)]
pub struct SortedSet<K: OrderedKey> {
    members: SortedMap<K, ()>,
}

impl<K: OrderedKey> View for SortedSet<K> {
    type V = Set<K::V>;

    closed spec fn view(&self) -> Set<K::V> {
        self.members@.dom()
    }
}

impl<K: OrderedKey> SortedSet<K> {
    /// A set has finitely many members.
    pub proof fn lemma_finite(&self)
        ensures
            self@.finite(),
    {
        self.members.lemma_finite();
    }

    pub fn new() -> (set: Self)
        ensures
            set@ == Set::<K::V>::empty(),
    {
        SortedSet { members: SortedMap::new() }
    }

    pub fn contains(&self, member: &K) -> (contains: bool)
        ensures
            contains == self@.contains(member@),
    {
        self.members.contains_key(member)
    }

    /// Adds a member; whether it is new.
    pub fn insert(&mut self, member: K) -> (added: bool)
        ensures
            final(self)@ == old(self)@.insert(member@),
            added == !old(self)@.contains(member@),
    {
        let added = !self.members.contains_key(&member);
        self.members.insert(member, ());
        added
    }

    /// Drops a member; whether it was there.
    pub fn remove(&mut self, member: &K) -> (removed: bool)
        ensures
            final(self)@ == old(self)@.remove(member@),
            removed == old(self)@.contains(member@),
    {
        self.members.remove(member).is_some()
    }

    pub fn len(&self) -> (len: usize)
        ensures
            self@.finite(),
            len == self@.len(),
    {
        self.members.len()
    }

    /// Copies of the members, in ascending order.
    pub fn to_vec(&self) -> (members: Vec<K>)
        ensures
            lists::<K>(views(members@), self@),
            self@.finite(),
    {
        self.members.keys()
    }
}

impl<K: OrderedKey> SortedSet<K> {
    /// Whether every member is one of `other`.
    pub fn within(&self, other: &SortedSet<K>) -> (within: bool)
        ensures
            within == self@.subset_of(other@),
    {
        match self.first_outside(other) {
            Some(_) => false,
            None => true,
        }
    }

    /// The first member that `other` does not hold.
    pub fn first_outside(&self, other: &SortedSet<K>) -> (outside: Option<K>)
        ensures
            match outside {
                Some(member) => {
                    &&& self@.contains(member@)
                    &&& !other@.contains(member@)
                    &&& forall|before: K::V| #[trigger]
                        self@.contains(before) && K::before(before, member@) ==> other@.contains(before)
                },
                None => self@.subset_of(other@),
            },
    {
        let members = self.to_vec();
        let ghost order = views(members@);
        let mut i: usize = 0;
        while i < members.len()
            invariant
                i <= members.len(),
                order == views(members@),
                lists::<K>(order, self@),
                forall|j: int| 0 <= j < i ==> other@.contains(#[trigger] order[j]),
            decreases members.len() - i,
        {
            if !other.contains(&members[i]) {
                let member = members[i].copy_key();
                proof {
                    assert(order[i as int] == member@);
                    assert(order.contains(member@));
                    assert(order.to_set().contains(member@));
                    assert forall|before: K::V| #[trigger]
                        self@.contains(before) && K::before(before, member@) implies other@.contains(before) by {
                        assert(order.to_set().contains(before));
                        let j = choose|j: int| 0 <= j < order.len() && order[j] == before;
                        if j > i {
                            K::before_transitive(before, member@, before);
                            K::before_irreflexive(before);
                        } else if j == i {
                            K::before_irreflexive(before);
                        }
                    }
                }
                return Some(member);
            }
            i += 1;
        }
        proof {
            assert forall|member: K::V| self@.contains(member) implies other@.contains(member) by {
                assert(order.to_set().contains(member));
                let j = choose|j: int| 0 <= j < order.len() && order[j] == member;
                assert(other@.contains(order[j]));
            }
        }
        None
    }

    /// Whether both hold the same members.
    pub fn same(&self, other: &SortedSet<K>) -> (same: bool)
        ensures
            same == (self@ == other@),
    {
        let within = self.within(other) && other.within(self);
        proof {
            if within {
                assert(self@ =~= other@);
            }
        }
        within
    }

    pub fn copy(&self) -> (copy: SortedSet<K>)
        ensures
            copy@ == self@,
    {
        let members = self.to_vec();
        let ghost order = views(members@);
        let mut copy: SortedSet<K> = SortedSet::new();
        let mut i: usize = 0;
        while i < members.len()
            invariant
                i <= members.len(),
                order == views(members@),
                lists::<K>(order, self@),
                forall|member: K::V| #[trigger] copy@.contains(member) <==> exists|j: int| 0 <= j < i && order[j] == member,
            decreases members.len() - i,
        {
            let member = members[i].copy_key();
            let ghost before = copy@;
            let _ = copy.insert(member);
            proof {
                assert(order[i as int] == member@);
                assert forall|other: K::V| #[trigger] copy@.contains(other) <==> exists|j: int| 0 <= j < i + 1 && order[j] == other by {
                    if copy@.contains(other) && other != member@ {
                        assert(before.contains(other));
                    }
                }
            }
            i += 1;
        }
        proof {
            assert forall|member: K::V| copy@.contains(member) == #[trigger] self@.contains(member) by {
                if copy@.contains(member) {
                    assert(order.contains(member));
                    assert(order.to_set().contains(member));
                }
                if self@.contains(member) {
                    assert(order.to_set().contains(member));
                    let j = choose|j: int| 0 <= j < order.len() && order[j] == member;
                    assert(order[j] == member);
                }
            }
            assert(copy@ =~= self@);
        }
        copy
    }
}

} // verus!
