use std::collections::HashMap;
use vstd::prelude::*;

verus! {

broadcast use vstd::std_specs::hash::group_hash_axioms;

/// A map keyed by small integers that is walked in first-insertion order,
/// whatever the numeric order of its keys.
pub struct OrderedMap<V> {
    map: HashMap<u8, V>,
    keys: Vec<u8>,
}

/// The scene-global textures, keyed by their slot in the texture array.
pub type OrderedTexturesMap = OrderedMap<crate::model::Texture>;

/// The scene-global materials, keyed by their slot in the material array.
pub type OrderedMaterialsMap = OrderedMap<crate::material::MeshMaterial>;

impl<V> OrderedMap<V> {
    /// Keys in the order in which they were first inserted.
    pub closed spec fn key_order(&self) -> Seq<u8> {
        self.keys@
    }

    /// The entries as a mathematical map.
    pub closed spec fn entries(&self) -> Map<u8, V> {
        self.map@
    }

    pub closed spec fn wf(&self) -> bool {
        &&& self.keys@.no_duplicates()
        &&& forall|k: u8| #[trigger] self.map@.contains_key(k) <==> self.keys@.contains(k)
        &&& self.map@.dom().finite()
    }

    pub fn new() -> (r: Self)
        ensures
            r.wf(),
            r.key_order() == Seq::<u8>::empty(),
            r.entries() == Map::<u8, V>::empty(),
    {
        OrderedMap { map: HashMap::new(), keys: Vec::new() }
    }

    /// Inserts or replaces the value under `key`; a key seen for the first
    /// time goes to the end of the walking order.
    pub fn insert(&mut self, key: u8, value: V)
        requires
            old(self).wf(),
        ensures
            final(self).wf(),
            is_insert_of(*final(self), *old(self), key, value),
    {
        let result = self.map.insert(key, value);
        if result.is_none() {
            self.keys.push(key);
        }
        proof {
            assert forall|k: u8| #[trigger] self.map@.contains_key(k) <==> self.keys@.contains(k) by {
                if k != key {
                    assert(old(self).keys@.contains(k) ==> self.keys@.contains(k)) by {
                        if old(self).keys@.contains(k) {
                            let i = choose|i: int| 0 <= i < old(self).keys@.len() && old(self).keys@[i] == k;
                            assert(self.keys@[i] == k);
                        }
                    }
                    assert(self.keys@.contains(k) ==> old(self).keys@.contains(k)) by {
                        if self.keys@.contains(k) {
                            let i = choose|i: int| 0 <= i < self.keys@.len() && self.keys@[i] == k;
                            assert(old(self).keys@[i] == k);
                        }
                    }
                } else if result.is_none() {
                    assert(self.keys@[self.keys@.len() - 1] == key);
                }
            }
        }
    }

    pub fn get(&self, key: &u8) -> (r: Option<&V>)
        requires
            self.wf(),
        ensures
            r == (if self.entries().contains_key(*key) {
                Some(&self.entries()[*key])
            } else {
                None::<&V>
            }),
    {
        self.map.get(key)
    }

    /// Number of entries, as the one-byte count used for texture and
    /// material slots.
    pub fn len(&self) -> (r: u8)
        requires
            self.wf(),
        ensures
            r == self.key_order().len() as u8,
    {
        proof {
            lemma_keys_match_len(self);
        }
        self.keys.len() as u8
    }

    /// The entries in first-insertion order.
    pub fn iter(&self) -> (r: Vec<(u8, &V)>)
        requires
            self.wf(),
        ensures
            r@.len() == self.key_order().len(),
            forall|i: int|
                0 <= i < r@.len() ==> #[trigger] r@[i] == (
                self.key_order()[i],
                &self.entries()[self.key_order()[i]],
            ),
    {
        let mut out: Vec<(u8, &V)> = Vec::new();
        let mut i: usize = 0;
        while i < self.keys.len()
            invariant
                self.wf(),
                i <= self.keys@.len(),
                out@.len() == i,
                forall|j: int|
                    0 <= j < i ==> #[trigger] out@[j] == (
                    self.keys@[j],
                    &self.map@[self.keys@[j]],
                ),
            decreases self.keys@.len() - i,
        {
            let k = self.keys[i];
            assert(self.keys@.contains(k));
            match self.map.get(&k) {
                Some(v) => {
                    out.push((k, v));
                },
                None => {},
            }
            i = i + 1;
        }
        out
    }
}

/// `after` is `before` once `value` was inserted under `key`.
pub open spec fn is_insert_of<V>(after: OrderedMap<V>, before: OrderedMap<V>, key: u8, value: V) -> bool {
    &&& after.entries() == before.entries().insert(key, value)
    &&& after.key_order() == if before.entries().contains_key(key) {
        before.key_order()
    } else {
        before.key_order().push(key)
    }
}

/// Inserting distinct keys one after another into an empty map walks them
/// in exactly the order they were inserted, whatever their numeric order.
pub proof fn lemma_insertion_order<V>(maps: Seq<OrderedMap<V>>, keys: Seq<u8>, values: Seq<V>)
    requires
        maps.len() == keys.len() + 1,
        values.len() == keys.len(),
        keys.no_duplicates(),
        maps[0].key_order() == Seq::<u8>::empty(),
        maps[0].entries() == Map::<u8, V>::empty(),
        forall|i: int|
            1 <= i <= keys.len() ==> is_insert_of(#[trigger] maps[i], maps[i - 1], keys[i - 1], values[i - 1]),
    ensures
        maps[keys.len() as int].key_order() == keys,
{
    lemma_insertion_prefix(maps, keys, values, keys.len() as int);
    assert(keys.subrange(0, keys.len() as int) =~= keys);
}

proof fn lemma_insertion_prefix<V>(maps: Seq<OrderedMap<V>>, keys: Seq<u8>, values: Seq<V>, n: int)
    requires
        0 <= n <= keys.len(),
        maps.len() == keys.len() + 1,
        values.len() == keys.len(),
        keys.no_duplicates(),
        maps[0].key_order() == Seq::<u8>::empty(),
        maps[0].entries() == Map::<u8, V>::empty(),
        forall|i: int|
            1 <= i <= keys.len() ==> is_insert_of(#[trigger] maps[i], maps[i - 1], keys[i - 1], values[i - 1]),
    ensures
        maps[n].key_order() == keys.subrange(0, n),
        forall|k: u8| #[trigger] maps[n].entries().contains_key(k) <==> keys.subrange(0, n).contains(k),
    decreases n,
{
    if n == 0 {
        assert(keys.subrange(0, 0) =~= Seq::<u8>::empty());
    } else {
        lemma_insertion_prefix(maps, keys, values, n - 1);
        let prev = keys.subrange(0, n - 1);
        assert(is_insert_of(maps[n], maps[n - 1], keys[n - 1], values[n - 1]));
        assert(!prev.contains(keys[n - 1])) by {
            if prev.contains(keys[n - 1]) {
                let p = choose|p: int| 0 <= p < prev.len() && prev[p] == keys[n - 1];
                assert(keys[p] == keys[n - 1]);
            }
        }
        assert(keys.subrange(0, n) =~= prev.push(keys[n - 1]));
        assert forall|k: u8| #[trigger] maps[n].entries().contains_key(k) <==> keys.subrange(0, n).contains(k) by {
            if k == keys[n - 1] {
                assert(keys.subrange(0, n)[n - 1] == k);
            } else {
                if prev.contains(k) {
                    let p = choose|p: int| 0 <= p < prev.len() && prev[p] == k;
                    assert(keys.subrange(0, n)[p] == k);
                }
                if keys.subrange(0, n).contains(k) {
                    let p = choose|p: int| 0 <= p < n && keys.subrange(0, n)[p] == k;
                    assert(prev[p] == k);
                }
            }
        }
    }
}

/// In a well-formed map the keys that are walked are exactly the keys that
/// hold a value, each once.
pub proof fn lemma_key_order_is_domain<V>(m: &OrderedMap<V>)
    requires
        m.wf(),
    ensures
        m.key_order().no_duplicates(),
        forall|k: u8| #[trigger] m.entries().contains_key(k) <==> m.key_order().contains(k),
{
}

proof fn lemma_keys_match_len<V>(m: &OrderedMap<V>)
    requires
        m.wf(),
    ensures
        m.keys@.len() == m.map@.len(),
{
    m.keys@.unique_seq_to_set();
    assert(m.keys@.to_set() =~= m.map@.dom());
}

} // verus!
