//! A small map and set without a hash table: entries live in a vector of
//! slots, a lookup walks the slots, and a removal leaves an empty slot.
use vstd::prelude::*;

verus! {

/// The map that a sequence of slots stands for: every occupied slot maps
/// its key to its value (a later slot wins, though keys never repeat).
pub open spec fn slots_map<K: View, V>(s: Seq<Option<(K, V)>>) -> Map<K::V, V>
    decreases s.len(),
{
    if s.len() == 0 {
        Map::empty()
    } else {
        let m = slots_map(s.drop_last());
        match s.last() {
            Some(e) => m.insert(e.0@, e.1),
            None => m,
        }
    }
}

/// The number of occupied slots.
pub open spec fn slots_count<K, V>(s: Seq<Option<(K, V)>>) -> nat
    decreases s.len(),
{
    if s.len() == 0 {
        0
    } else {
        slots_count(s.drop_last()) + if s.last() is Some { 1nat } else { 0nat }
    }
}

/// Slot `i` is occupied and holds a key that reads as `k`.
pub open spec fn slot_has_key<K: View, V>(s: Seq<Option<(K, V)>>, i: int, k: K::V) -> bool {
    &&& 0 <= i < s.len()
    &&& s[i] is Some
    &&& s[i].unwrap().0@ == k
}

/// No key occupies two slots.
pub open spec fn keys_unique<K: View, V>(s: Seq<Option<(K, V)>>) -> bool {
    forall|i: int, j: int, k: K::V|
        #![trigger slot_has_key(s, i, k), slot_has_key(s, j, k)]
        slot_has_key(s, i, k) && slot_has_key(s, j, k) ==> i == j
}

proof fn lemma_prefix_unique<K: View, V>(s: Seq<Option<(K, V)>>)
    requires
        keys_unique(s),
        s.len() > 0,
    ensures
        keys_unique(s.drop_last()),
{
    let p = s.drop_last();
    assert forall|i: int, j: int, k: K::V|
        slot_has_key(p, i, k) && slot_has_key(p, j, k) implies i == j by {
        assert(slot_has_key(s, i, k) && slot_has_key(s, j, k));
    }
}

/// A key is in the map exactly when some slot holds it.
proof fn lemma_slots_map_dom<K: View, V>(s: Seq<Option<(K, V)>>, k: K::V)
    ensures
        slots_map(s).contains_key(k) <==> exists|i: int| slot_has_key(s, i, k),
    decreases s.len(),
{
    if s.len() > 0 {
        let p = s.drop_last();
        lemma_slots_map_dom(p, k);
        if slots_map(s).contains_key(k) {
            if s.last() is Some && s.last().unwrap().0@ == k {
                assert(slot_has_key(s, s.len() - 1, k));
            } else {
                let i = choose|i: int| slot_has_key(p, i, k);
                assert(slot_has_key(s, i, k));
            }
        }
        if exists|i: int| slot_has_key(s, i, k) {
            let i = choose|i: int| slot_has_key(s, i, k);
            if i < s.len() - 1 {
                assert(slot_has_key(p, i, k));
            }
        }
    }
}

/// With unique keys, the map gives an occupied slot's key that slot's value.
proof fn lemma_slots_map_value<K: View, V>(s: Seq<Option<(K, V)>>, i: int)
    requires
        keys_unique(s),
        0 <= i < s.len(),
        s[i] is Some,
    ensures
        slots_map(s).contains_key(s[i].unwrap().0@),
        slots_map(s)[s[i].unwrap().0@] == s[i].unwrap().1,
    decreases s.len(),
{
    let p = s.drop_last();
    let k = s[i].unwrap().0@;
    if i < s.len() - 1 {
        lemma_prefix_unique(s);
        assert(p[i] == s[i]);
        lemma_slots_map_value(p, i);
        if s.last() is Some && s.last().unwrap().0@ == k {
            assert(slot_has_key(s, i, k) && slot_has_key(s, s.len() - 1, k));
        }
    }
}

/// Rewriting an occupied slot with the same key (or emptying it) changes
/// the map at that key alone.
proof fn lemma_slots_map_update<K: View, V>(s: Seq<Option<(K, V)>>, i: int, new: Option<(K, V)>)
    requires
        keys_unique(s),
        0 <= i < s.len(),
        s[i] is Some,
        new is Some ==> new.unwrap().0@ == s[i].unwrap().0@,
    ensures
        keys_unique(s.update(i, new)),
        slots_map(s.update(i, new)) == (match new {
            Some(e) => slots_map(s).insert(e.0@, e.1),
            None => slots_map(s).remove(s[i].unwrap().0@),
        }),
    decreases s.len(),
{
    let t = s.update(i, new);
    let k = s[i].unwrap().0@;
    assert forall|a: int, b: int, kk: K::V|
        slot_has_key(t, a, kk) && slot_has_key(t, b, kk) implies a == b by {
        if a != i && b != i {
            assert(slot_has_key(s, a, kk) && slot_has_key(s, b, kk));
        } else if a == i && b != i {
            assert(slot_has_key(s, i, kk) && slot_has_key(s, b, kk));
        } else if a != i && b == i {
            assert(slot_has_key(s, i, kk) && slot_has_key(s, a, kk));
        }
    }
    let p = s.drop_last();
    lemma_prefix_unique(s);
    if i == s.len() - 1 {
        assert(t.drop_last() =~= p);
        lemma_slots_map_dom(p, k);
        if exists|j: int| slot_has_key(p, j, k) {
            let j = choose|j: int| slot_has_key(p, j, k);
            assert(slot_has_key(s, j, k) && slot_has_key(s, i, k));
        }
        match new {
            Some(e) => {
                assert(slots_map(t) =~= slots_map(s).insert(e.0@, e.1));
            },
            None => {
                assert(slots_map(t) =~= slots_map(s).remove(k));
            },
        }
    } else {
        assert(t.drop_last() =~= p.update(i, new));
        assert(p[i] == s[i]);
        lemma_slots_map_update(p, i, new);
        if s.last() is Some {
            let lk = s.last().unwrap().0@;
            if lk == k {
                assert(slot_has_key(s, i, k) && slot_has_key(s, s.len() - 1, k));
            }
        }
        match new {
            Some(e) => {
                assert(slots_map(t) =~= slots_map(s).insert(e.0@, e.1));
            },
            None => {
                assert(slots_map(t) =~= slots_map(s).remove(k));
            },
        }
    }
}

/// Appending a slot whose key is new keeps keys unique.
proof fn lemma_push_unique<K: View, V>(s: Seq<Option<(K, V)>>, e: (K, V))
    requires
        keys_unique(s),
        forall|i: int| !slot_has_key(s, i, e.0@),
    ensures
        keys_unique(s.push(Some(e))),
        s.push(Some(e)).drop_last() == s,
{
    let t = s.push(Some(e));
    assert(t.drop_last() =~= s);
    assert forall|a: int, b: int, kk: K::V|
        slot_has_key(t, a, kk) && slot_has_key(t, b, kk) implies a == b by {
        if a < s.len() && b < s.len() {
            assert(slot_has_key(s, a, kk) && slot_has_key(s, b, kk));
        } else if a < s.len() {
            assert(slot_has_key(s, a, kk));
        } else if b < s.len() {
            assert(slot_has_key(s, b, kk));
        }
    }
}

/// With unique keys, the map is finite and has one key per occupied slot.
proof fn lemma_slots_count<K: View, V>(s: Seq<Option<(K, V)>>)
    requires
        keys_unique(s),
    ensures
        slots_map(s).dom().finite(),
        slots_map(s).dom().len() == slots_count(s),
    decreases s.len(),
{
    if s.len() > 0 {
        let p = s.drop_last();
        lemma_prefix_unique(s);
        lemma_slots_count(p);
        if s.last() is Some {
            let k = s.last().unwrap().0@;
            lemma_slots_map_dom(p, k);
            if exists|j: int| slot_has_key(p, j, k) {
                let j = choose|j: int| slot_has_key(p, j, k);
                assert(slot_has_key(s, j, k) && slot_has_key(s, s.len() - 1, k));
            }
        }
    }
}

/// A key type whose equality is equality of its views: two keys are the
/// same key exactly when they read the same.
pub trait MapKey: View + Sized {
    /// Whether `self` and `other` are the same key.
    fn key_eq(&self, other: &Self) -> (r: bool)
        ensures
            r == (self@ == other@),
    ;
}

impl MapKey for u8 {
    fn key_eq(&self, other: &Self) -> (r: bool) {
        *self == *other
    }
}

impl MapKey for u16 {
    fn key_eq(&self, other: &Self) -> (r: bool) {
        *self == *other
    }
}

impl MapKey for u32 {
    fn key_eq(&self, other: &Self) -> (r: bool) {
        *self == *other
    }
}

impl MapKey for u64 {
    fn key_eq(&self, other: &Self) -> (r: bool) {
        *self == *other
    }
}

impl MapKey for u128 {
    fn key_eq(&self, other: &Self) -> (r: bool) {
        *self == *other
    }
}

impl MapKey for usize {
    fn key_eq(&self, other: &Self) -> (r: bool) {
        *self == *other
    }
}

impl MapKey for i8 {
    fn key_eq(&self, other: &Self) -> (r: bool) {
        *self == *other
    }
}

impl MapKey for i16 {
    fn key_eq(&self, other: &Self) -> (r: bool) {
        *self == *other
    }
}

impl MapKey for i32 {
    fn key_eq(&self, other: &Self) -> (r: bool) {
        *self == *other
    }
}

impl MapKey for i64 {
    fn key_eq(&self, other: &Self) -> (r: bool) {
        *self == *other
    }
}

impl MapKey for i128 {
    fn key_eq(&self, other: &Self) -> (r: bool) {
        *self == *other
    }
}

impl MapKey for isize {
    fn key_eq(&self, other: &Self) -> (r: bool) {
        *self == *other
    }
}

impl MapKey for bool {
    fn key_eq(&self, other: &Self) -> (r: bool) {
        *self == *other
    }
}

impl MapKey for char {
    fn key_eq(&self, other: &Self) -> (r: bool) {
        *self == *other
    }
}

impl MapKey for String {
    fn key_eq(&self, other: &Self) -> (r: bool) {
        *self == *other
    }
}

/// A map stored as a vector of slots (`None` marks a removed entry).
pub struct HashMap<K, V, S> {
    entries: Vec<Option<(K, V)>>,
    hasher: S,
}

impl<K: View, V, S> View for HashMap<K, V, S> {
    type V = Map<K::V, V>;

    closed spec fn view(&self) -> Map<K::V, V> {
        slots_map(self.entries@)
    }
}

impl<K: View, V, S> HashMap<K, V, S> {
    /// The map is well formed: no key occupies two slots.
    pub closed spec fn wf(&self) -> bool {
        keys_unique(self.entries@)
    }
}

impl<K: MapKey, V, S> HashMap<K, V, S> {
    /// Whether slot `i` holds `key`.
    fn slot_matches(&self, i: usize, key: &K) -> (r: bool)
        requires
            i < self.entries@.len(),
        ensures
            r == slot_has_key(self.entries@, i as int, key@),
    {
        match &self.entries[i] {
            Some(e) => e.0.key_eq(key),
            None => false,
        }
    }

    /// The index of the slot that holds `key`, if any.
    fn find(&self, key: &K) -> (r: Option<usize>)
        requires
        ensures
            match r {
                Some(i) => slot_has_key(self.entries@, i as int, key@),
                None => forall|j: int| !slot_has_key(self.entries@, j, key@),
            },
    {
        let n = self.entries.len();
        let mut i: usize = 0;
        while i < n
            invariant
                n == self.entries@.len(),
                i <= n,
                    forall|j: int| 0 <= j < i ==> !slot_has_key(self.entries@, j, key@),
            decreases n - i,
        {
            if self.slot_matches(i, key) {
                return Some(i);
            }
            i += 1;
        }
        None
    }

    /// Inserts `key` with `value`, returning the value it replaced, if any.
    pub fn insert(&mut self, key: K, value: V) -> (r: Option<V>)
        requires
            old(self).wf(),
        ensures
            final(self).wf(),
            final(self)@ == old(self)@.insert(key@, value),
            r == (if old(self)@.contains_key(key@) {
                Some(old(self)@[key@])
            } else {
                None
            }),
    {
        let found = self.find(&key);
        let mut entries: Vec<Option<(K, V)>> = Vec::new();
        std::mem::swap(&mut entries, &mut self.entries);
        let ghost s = entries@;
        match found {
            Some(i) => {
                proof {
                    lemma_slots_map_value(s, i as int);
                    lemma_slots_map_update(s, i as int, Some((key, value)));
                }
                let old_entry = entries[i].take();
                entries[i] = Some((key, value));
                proof {
                    assert(entries@ == s.update(i as int, Some((key, value))));
                }
                self.entries = entries;
                match old_entry {
                    Some(e) => Some(e.1),
                    None => None,
                }
            },
            None => {
                proof {
                    lemma_slots_map_dom(s, key@);
                    lemma_push_unique(s, (key, value));
                }
                entries.push(Some((key, value)));
                self.entries = entries;
                None
            },
        }
    }

    /// The value stored under `key`, if any.
    pub fn get(&self, key: &K) -> (r: Option<&V>)
        requires
            self.wf(),
        ensures
            r == (if self@.contains_key(key@) {
                Some(&self@[key@])
            } else {
                None
            }),
    {
        match self.find(key) {
            Some(i) => {
                proof {
                    lemma_slots_map_value(self.entries@, i as int);
                }
                match &self.entries[i] {
                    Some(e) => Some(&e.1),
                    None => None,
                }
            },
            None => {
                proof {
                    lemma_slots_map_dom(self.entries@, key@);
                }
                None
            },
        }
    }

    /// A mutable reference to the value stored under `key`, if any.
    pub fn get_mut(&mut self, key: &K) -> (r: Option<&mut V>)
        requires
            old(self).wf(),
        ensures
            final(self).wf(),
            match r {
                Some(v) => {
                    &&& old(self)@.contains_key(key@)
                    &&& *v == old(self)@[key@]
                    &&& final(self)@ == old(self)@.insert(key@, *final(v))
                },
                None => {
                    &&& !old(self)@.contains_key(key@)
                    &&& final(self)@ == old(self)@
                },
            },
    {
        match self.find(key) {
            Some(i) => {
                proof {
                    lemma_slots_map_value(self.entries@, i as int);
                }
                let ghost s = self.entries@;
                match &mut self.entries[i] {
                    Some(e) => {
                        let value = &mut e.1;
                        proof {
                            lemma_slots_map_update(s, i as int, Some((s[i as int].unwrap().0, *final(value))));
                        }
                        Some(value)
                    },
                    None => None,
                }
            },
            None => {
                proof {
                    lemma_slots_map_dom(self.entries@, key@);
                }
                None
            },
        }
    }

    /// Removes `key`, returning its value, if it was present.
    pub fn remove(&mut self, key: &K) -> (r: Option<V>)
        requires
            old(self).wf(),
        ensures
            final(self).wf(),
            final(self)@ == old(self)@.remove(key@),
            r == (if old(self)@.contains_key(key@) {
                Some(old(self)@[key@])
            } else {
                None
            }),
    {
        match self.find(key) {
            Some(i) => {
                let mut entries: Vec<Option<(K, V)>> = Vec::new();
                std::mem::swap(&mut entries, &mut self.entries);
                let ghost s = entries@;
                proof {
                    lemma_slots_map_value(s, i as int);
                    lemma_slots_map_update(s, i as int, None);
                }
                let old_entry = entries[i].take();
                proof {
                    assert(entries@ == s.update(i as int, None));
                }
                self.entries = entries;
                match old_entry {
                    Some(e) => Some(e.1),
                    None => None,
                }
            },
            None => {
                proof {
                    lemma_slots_map_dom(self.entries@, key@);
                    assert(self@.remove(key@) =~= self@);
                }
                None
            },
        }
    }

    /// Whether `key` is present.
    pub fn contains_key(&self, key: &K) -> (r: bool)
        requires
            self.wf(),
        ensures
            r == self@.contains_key(key@),
    {
        self.get(key).is_some()
    }
}

impl<K: View, V, S> HashMap<K, V, S> {
    /// The number of keys present.
    pub fn len(&self) -> (r: usize)
        requires
            self.wf(),
        ensures
            r == self@.len(),
            self@.dom().finite(),
    {
        proof {
            lemma_slots_count(self.entries@);
        }
        let n = self.entries.len();
        let mut count: usize = 0;
        let mut i: usize = 0;
        while i < n
            invariant
                n == self.entries@.len(),
                i <= n,
                count == slots_count(self.entries@.take(i as int)),
                count <= i,
            decreases n - i,
        {
            proof {
                assert(self.entries@.take(i + 1).drop_last() =~= self.entries@.take(i as int));
            }
            if self.entries[i].is_some() {
                count += 1;
            }
            i += 1;
        }
        proof {
            assert(self.entries@.take(n as int) =~= self.entries@);
        }
        count
    }

    /// Whether no key is present.
    pub fn is_empty(&self) -> (r: bool)
        requires
            self.wf(),
        ensures
            r == (self@.len() == 0),
    {
        self.len() == 0
    }
}

impl<K: View, V, S: Default> HashMap<K, V, S> {
    /// An empty map.
    pub fn new() -> (r: Self)
        ensures
            r.wf(),
            r@ == Map::<K::V, V>::empty(),
    {
        HashMap { entries: Vec::new(), hasher: S::default() }
    }
}

impl<K: View, V, S: Default> Default for HashMap<K, V, S> {
    fn default() -> (r: Self)
        ensures
            r.wf(),
            r@ == Map::<K::V, V>::empty(),
    {
        HashMap { entries: Vec::new(), hasher: S::default() }
    }
}

/// A set stored as a slot map whose values carry nothing.
pub struct HashSet<K, S> {
    map: HashMap<K, (), S>,
}

impl<K: View, S> View for HashSet<K, S> {
    type V = Set<K::V>;

    closed spec fn view(&self) -> Set<K::V> {
        self.map@.dom()
    }
}

impl<K: View, S> HashSet<K, S> {
    /// The set is well formed.
    pub closed spec fn wf(&self) -> bool {
        self.map.wf()
    }

    /// The number of members.
    pub fn len(&self) -> (r: usize)
        requires
            self.wf(),
        ensures
            self@.finite(),
            r == self@.len(),
    {
        self.map.len()
    }
}

impl<K: MapKey, S> HashSet<K, S> {
    /// Adds `key`; true when it was not already a member.
    pub fn insert(&mut self, key: K) -> (r: bool)
        requires
            old(self).wf(),
        ensures
            final(self).wf(),
            final(self)@ == old(self)@.insert(key@),
            r == !old(self)@.contains(key@),
    {
        let prev = self.map.insert(key, ());
        proof {
            assert(self@ =~= old(self)@.insert(key@));
        }
        prev.is_none()
    }

    /// Whether `key` is a member.
    pub fn contains(&self, key: &K) -> (r: bool)
        requires
            self.wf(),
        ensures
            r == self@.contains(key@),
    {
        self.map.contains_key(key)
    }

    /// Removes `key`; true when it was a member.
    pub fn remove(&mut self, key: &K) -> (r: bool)
        requires
            old(self).wf(),
        ensures
            final(self).wf(),
            final(self)@ == old(self)@.remove(key@),
            r == old(self)@.contains(key@),
    {
        let prev = self.map.remove(key);
        proof {
            assert(self@ =~= old(self)@.remove(key@));
        }
        prev.is_some()
    }
}

impl<K: View, S: Default> HashSet<K, S> {
    /// An empty set.
    pub fn new() -> (r: Self)
        ensures
            r.wf(),
            r@ == Set::<K::V>::empty(),
    {
        let r = HashSet { map: HashMap::new() };
        proof {
            assert(r@ =~= Set::<K::V>::empty());
        }
        r
    }
}

impl<K: View, S: Default> Default for HashSet<K, S> {
    fn default() -> (r: Self)
        ensures
            r.wf(),
            r@ == Set::<K::V>::empty(),
    {
        HashSet::new()
    }
}

/// A read after a write: after `insert(k, v)`, `get(k)` gives `v` and
/// every other key reads as before.
pub proof fn law_get_after_insert<K, V>(m: Map<K, V>, k: K, v: V, other: K)
    ensures
        m.insert(k, v).contains_key(k) && m.insert(k, v)[k] == v,
        other != k ==> (m.insert(k, v).contains_key(other) == m.contains_key(other)),
        other != k && m.contains_key(other) ==> m.insert(k, v)[other] == m[other],
{
}

/// After `remove(k)`, `get(k)` gives nothing and every other key reads as
/// before.
pub proof fn law_get_after_remove<K, V>(m: Map<K, V>, k: K, other: K)
    ensures
        !m.remove(k).contains_key(k),
        other != k ==> (m.remove(k).contains_key(other) == m.contains_key(other)),
        other != k && m.contains_key(other) ==> m.remove(k)[other] == m[other],
{
}

/// Inserting a key that was absent and removing it again gives back the
/// map; inserting adds one to the length exactly when the key is new.
pub proof fn law_insert_remove_len<K, V>(m: Map<K, V>, k: K, v: V)
    requires
        m.dom().finite(),
    ensures
        !m.contains_key(k) ==> m.insert(k, v).remove(k) == m,
        m.insert(k, v).len() == m.len() + (if m.contains_key(k) {
            0int
        } else {
            1int
        }),
{
    if !m.contains_key(k) {
        assert(m.insert(k, v).remove(k) =~= m);
    }
}

/// One step of a map's history, over the views of its keys: an `insert`,
/// a `remove`, or a write through the reference `get_mut` hands out.
pub enum MapOp<K, V> {
    Insert(K, V),
    Remove(K),
    WriteThrough(K, V),
}

/// What one step does to the map: `insert` and `remove` as their
/// contracts say; a write through `get_mut` changes a present key only
/// (for an absent key `get_mut` hands out nothing).
pub open spec fn apply_op<K, V>(m: Map<K, V>, op: MapOp<K, V>) -> Map<K, V> {
    match op {
        MapOp::Insert(k, v) => m.insert(k, v),
        MapOp::Remove(k) => m.remove(k),
        MapOp::WriteThrough(k, v) => if m.contains_key(k) {
            m.insert(k, v)
        } else {
            m
        },
    }
}

/// The map after the steps `ops`, in order, from `m`.
pub open spec fn apply_ops<K, V>(m: Map<K, V>, ops: Seq<MapOp<K, V>>) -> Map<K, V>
    decreases ops.len(),
{
    if ops.len() == 0 {
        m
    } else {
        apply_op(apply_ops(m, ops.drop_last()), ops.last())
    }
}

/// What a read of `k` gives after the steps `ops` from an empty map: the
/// value of the latest `insert` of `k`, or of a later write through
/// `get_mut(k)`, when no `remove` of `k` follows it; otherwise nothing.
pub open spec fn latest_value<K, V>(ops: Seq<MapOp<K, V>>, k: K) -> Option<V>
    decreases ops.len(),
{
    if ops.len() == 0 {
        None
    } else {
        let before = latest_value(ops.drop_last(), k);
        match ops.last() {
            MapOp::Insert(j, v) => if j == k {
                Some(v)
            } else {
                before
            },
            MapOp::Remove(j) => if j == k {
                None
            } else {
                before
            },
            MapOp::WriteThrough(j, v) => if j == k && before is Some {
                Some(v)
            } else {
                before
            },
        }
    }
}

/// A read gives back the last write: after any history of `insert`,
/// `remove` and writes through `get_mut` from a new map, the map holds a
/// key exactly when its latest value is defined, and then holds that
/// value.
pub proof fn law_read_latest_write<K, V>(ops: Seq<MapOp<K, V>>, k: K)
    ensures
        apply_ops(Map::<K, V>::empty(), ops).contains_key(k) == (latest_value(ops, k) is Some),
        latest_value(ops, k) matches Some(v) ==> apply_ops(Map::<K, V>::empty(), ops)[k] == v,
    decreases ops.len(),
{
    if ops.len() > 0 {
        law_read_latest_write(ops.drop_last(), k);
    }
}

} // verus!
