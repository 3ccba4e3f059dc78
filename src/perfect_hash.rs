//! A perfect hash table over a fixed set of string keys, in the
//! compress-hash-displace layout: a seeded hash sends each key to a bucket,
//! each bucket has a displacement pair, and the pair turns the key's two other
//! hash words into a slot that no other key of the set occupies.
//!
//! The layout is searched for by `phf_generator` and hashed with `phf_shared`;
//! this module checks every layout it is handed before it builds a table, and
//! every lookup compares the stored key against the query.

use vstd::prelude::*;

verus! {

/// The hash words `(g, f1, f2)` that `phf_shared::hash` gives for a string
/// under a seed.
pub uninterp spec fn phf_hashes(key: Seq<char>, seed: u64) -> (u32, u32, u32);

/// The layout `(seed, displacements, slot map)` that
/// `phf_generator::generate_hash` finds for a sequence of keys.
pub uninterp spec fn phf_layout(keys: Seq<Seq<char>>) -> (u64, Seq<(u32, u32)>, Seq<usize>);

/// Relies on `phf_shared::hash`: SipHash-1-3 keyed by the seed over the
/// string's bytes, split into three words. It reads nothing but the string and
/// the seed.
#[verifier::external_body]
fn hash_str(s: &str, seed: u64) -> (r: (u32, u32, u32))
    ensures
        r == phf_hashes(s@, seed),
{
    let h = phf_shared::hash(s, &seed);
    (h.g, h.f1, h.f2)
}

/// Relies on `phf_generator::generate_hash`: it tries seeds drawn from a
/// generator with a fixed start until one admits a layout, so the layout is a
/// function of the keys alone. Two equal keys can never be placed, so the
/// search would not end; and the slot arithmetic is done in `u32`.
#[verifier::external_body]
fn generate_layout(keys: &Vec<String>) -> (r: (u64, Vec<(u32, u32)>, Vec<usize>))
    requires
        keys@.len() <= u32::MAX,
        distinct(key_views(keys@)),
    ensures
        (r.0, r.1@, r.2@) == phf_layout(key_views(keys@)),
{
    let state = phf_generator::generate_hash(keys.as_slice());
    (state.key, state.disps, state.map)
}

/// No two keys of the sequence are equal.
pub open spec fn distinct(keys: Seq<Seq<char>>) -> bool {
    forall|i: int, j: int| 0 <= i < keys.len() && 0 <= j < keys.len() && i != j ==> keys[i] != keys[j]
}

/// The characters of each string.
pub open spec fn key_views(keys: Seq<String>) -> Seq<Seq<char>> {
    keys.map_values(|k: String| k@)
}

/// `d2 + f1 * d1 + f2` in 32-bit wrapping arithmetic.
pub open spec fn displace(f1: u32, f2: u32, d1: u32, d2: u32) -> int {
    (d2 as int + f1 as int * d1 as int + f2 as int) % 0x1_0000_0000
}

/// The slot, among `len`, that hash words `h` reach through the displacement
/// pair of their bucket.
pub open spec fn slot_of(h: (u32, u32, u32), disps: Seq<(u32, u32)>, len: int) -> int {
    let d = disps[(h.0 as int) % (disps.len() as int)];
    displace(h.1, h.2, d.0, d.1) % len
}

/// The layout places key `i` in a slot whose map entry is `i`, for every key,
/// and every map entry names a key.
pub open spec fn layout_valid(
    keys: Seq<Seq<char>>,
    seed: u64,
    disps: Seq<(u32, u32)>,
    map: Seq<usize>,
) -> bool {
    &&& keys.len() <= u32::MAX
    &&& map.len() == keys.len()
    &&& disps.len() <= u32::MAX
    &&& keys.len() > 0 ==> disps.len() > 0
    &&& forall|j: int| 0 <= j < map.len() ==> (#[trigger] map[j] as int) < keys.len()
    &&& forall|i: int|
        0 <= i < keys.len() ==> map[slot_of(phf_hashes(#[trigger] keys[i], seed), disps, keys.len() as int)]
            == i
}

/// Why a table could not be built.
#[derive(Clone, Copy, Debug, PartialEq, Eq, Structural)]
pub enum TableError {
    /// The layout does not place every key in a slot of its own.
    InvalidLayout,
}

/// The slot that hash words `h` reach in a table of `len` slots.
fn slot(h: (u32, u32, u32), disps: &Vec<(u32, u32)>, len: usize) -> (r: usize)
    requires
        0 < disps@.len() <= u32::MAX,
        0 < len <= u32::MAX,
    ensures
        r as int == slot_of(h, disps@, len as int),
        r < len,
{
    let b = (h.0 % (disps.len() as u32)) as usize;
    let (d1, d2) = disps[b];
    assert((h.1 as int) * (d1 as int) <= 0xffff_ffff * 0xffff_ffff) by (nonlinear_arith)
        requires
            h.1 <= 0xffff_ffff,
            d1 <= 0xffff_ffff,
    ;
    let sum: u64 = d2 as u64 + (h.1 as u64) * (d1 as u64) + h.2 as u64;
    let wrapped: u64 = sum % 0x1_0000_0000;
    (wrapped % (len as u64)) as usize
}

/// Decides `layout_valid` for the keys and a layout.
fn check_layout(keys: &Vec<String>, seed: u64, disps: &Vec<(u32, u32)>, map: &Vec<usize>) -> (r: bool)
    ensures
        r == layout_valid(key_views(keys@), seed, disps@, map@),
{
    let ghost kv = key_views(keys@);
    let n = keys.len();
    if n > u32::MAX as usize || map.len() != n || disps.len() > u32::MAX as usize || (n > 0
        && disps.len() == 0) {
        return false;
    }
    let mut j: usize = 0;
    while j < n
        invariant
            map@.len() == n,
            j <= n,
            forall|jj: int| 0 <= jj < j ==> (#[trigger] map@[jj] as int) < n,
        decreases n - j,
    {
        if map[j] >= n {
            return false;
        }
        j = j + 1;
    }
    let mut i: usize = 0;
    while i < n
        invariant
            kv == key_views(keys@),
            kv.len() == n,
            n <= u32::MAX,
            map@.len() == n,
            disps@.len() <= u32::MAX,
            n > 0 ==> disps@.len() > 0,
            i <= n,
            forall|ii: int|
                0 <= ii < i ==> map@[slot_of(phf_hashes(#[trigger] kv[ii], seed), disps@, n as int)]
                    == ii,
        decreases n - i,
    {
        let h = hash_str(keys[i].as_str(), seed);
        let s = slot(h, disps, n);
        if map[s] != i {
            assert(kv[i as int] == keys@[i as int]@);
            return false;
        }
        i = i + 1;
    }
    true
}

/// An immutable table from a fixed set of distinct string keys to values.
pub struct PerfectHashTable<V> {
    seed: u64,
    disps: Vec<(u32, u32)>,
    map: Vec<usize>,
    keys: Vec<String>,
    values: Vec<V>,
}

impl<V> PerfectHashTable<V> {
    #[verifier::type_invariant]
    spec fn well_formed(&self) -> bool {
        &&& self.values@.len() == self.keys@.len()
        &&& layout_valid(key_views(self.keys@), self.seed, self.disps@, self.map@)
    }

    /// The keys, in the order they were given.
    pub closed spec fn key_seq(&self) -> Seq<Seq<char>> {
        key_views(self.keys@)
    }

    /// The values, in the order of their keys.
    pub closed spec fn value_seq(&self) -> Seq<V> {
        self.values@
    }

    /// The layout: seed, displacement pairs and slot map.
    pub closed spec fn layout(&self) -> (u64, Seq<(u32, u32)>, Seq<usize>) {
        (self.seed, self.disps@, self.map@)
    }

    /// The value stored under `k`, if `k` is one of the keys.
    pub open spec fn spec_get(&self, k: Seq<char>) -> Option<V> {
        if exists|i: int| 0 <= i < self.key_seq().len() && self.key_seq()[i] == k {
            let i = choose|i: int| 0 <= i < self.key_seq().len() && self.key_seq()[i] == k;
            Some(self.value_seq()[i])
        } else {
            None
        }
    }

    /// The table holds exactly these keys and values, in the layout that
    /// `phf_generator` finds for the keys.
    pub open spec fn built_from(&self, keys: Seq<Seq<char>>, values: Seq<V>) -> bool {
        &&& self.key_seq() == keys
        &&& self.value_seq() == values
        &&& self.layout() == phf_layout(keys)
    }

    /// Builds a table over `keys` and `values` with the given layout, which
    /// is checked first.
    pub fn with_layout(
        keys: Vec<String>,
        values: Vec<V>,
        seed: u64,
        disps: Vec<(u32, u32)>,
        map: Vec<usize>,
    ) -> (r: Result<Self, TableError>)
        requires
            keys@.len() == values@.len(),
        ensures
            r.is_ok() == layout_valid(key_views(keys@), seed, disps@, map@),
            r matches Ok(t) ==> t.key_seq() == key_views(keys@) && t.value_seq() == values@
                && t.layout() == (seed, disps@, map@),
            r matches Err(e) ==> e == TableError::InvalidLayout,
    {
        if check_layout(&keys, seed, &disps, &map) {
            Ok(PerfectHashTable { seed, disps, map, keys, values })
        } else {
            Err(TableError::InvalidLayout)
        }
    }

    /// Builds a table over distinct `keys`, the i-th of which maps to the
    /// i-th of `values`, in the layout that `phf_generator` finds for them.
    /// Slots are numbered in 32 bits, so no layout holds more keys than that.
    pub fn build(keys: Vec<String>, values: Vec<V>) -> (r: Result<Self, TableError>)
        requires
            keys@.len() == values@.len(),
            distinct(key_views(keys@)),
        ensures
            r.is_ok() == layout_valid(
                key_views(keys@),
                phf_layout(key_views(keys@)).0,
                phf_layout(key_views(keys@)).1,
                phf_layout(key_views(keys@)).2,
            ),
            r matches Ok(t) ==> t.built_from(key_views(keys@), values@),
            r matches Err(e) ==> e == TableError::InvalidLayout,
    {
        if keys.len() > u32::MAX as usize {
            return Err(TableError::InvalidLayout);
        }
        let (seed, disps, map) = generate_layout(&keys);
        Self::with_layout(keys, values, seed, disps, map)
    }

    /// The number of keys.
    pub fn len(&self) -> (r: usize)
        ensures
            r == self.key_seq().len(),
            r == self.value_seq().len(),
    {
        proof {
            use_type_invariant(self);
        }
        self.keys.len()
    }

    /// The value of key number `i`.
    pub fn value_at(&self, i: usize) -> (r: &V)
        requires
            i < self.value_seq().len(),
        ensures
            *r == self.value_seq()[i as int],
    {
        proof {
            use_type_invariant(self);
        }
        &self.values[i]
    }

    /// The seed of the hash.
    pub fn seed(&self) -> (r: u64)
        ensures
            r == self.layout().0,
    {
        self.seed
    }

    /// The displacement pair of each bucket.
    pub fn displacements(&self) -> (r: &Vec<(u32, u32)>)
        ensures
            r@ == self.layout().1,
    {
        &self.disps
    }

    /// The position of `key` among the keys, if it is one of them. The slot
    /// that the hash gives is confirmed by comparing the key stored there.
    pub fn find(&self, key: &str) -> (r: Option<usize>)
        ensures
            match r {
                Some(i) => i < self.key_seq().len() && self.key_seq()[i as int] == key@,
                None => !self.key_seq().contains(key@),
            },
    {
        proof {
            use_type_invariant(self);
        }
        let ghost kv = key_views(self.keys@);
        let n = self.keys.len();
        if n == 0 {
            return None;
        }
        let h = hash_str(key, self.seed);
        let s = slot(h, &self.disps, n);
        let i = self.map[s];
        let q = key.to_owned();
        if self.keys[i] == q {
            Some(i)
        } else {
            proof {
                if kv.contains(key@) {
                    let k = choose|k: int| 0 <= k < kv.len() && kv[k] == key@;
                    assert(self.map@[slot_of(phf_hashes(kv[k], self.seed), self.disps@, n as int)]
                        == k);
                }
            }
            None
        }
    }

    /// The value stored under `key`, if `key` is one of the keys.
    pub fn get(&self, key: &str) -> (r: Option<&V>)
        ensures
            match r {
                Some(v) => self.spec_get(key@) == Some(*v),
                None => self.spec_get(key@).is_none(),
            },
    {
        proof {
            use_type_invariant(self);
            lemma_valid_distinct(key_views(self.keys@), self.seed, self.disps@, self.map@);
        }
        match self.find(key) {
            Some(i) => {
                proof {
                    let kv = self.key_seq();
                    let j = choose|j: int| 0 <= j < kv.len() && kv[j] == key@;
                    assert(kv[j] == kv[i as int]);
                }
                Some(&self.values[i])
            },
            None => None,
        }
    }
}

/// A valid layout never places two equal keys, so its keys are distinct.
proof fn lemma_valid_distinct(keys: Seq<Seq<char>>, seed: u64, disps: Seq<(u32, u32)>, map: Seq<usize>)
    requires
        layout_valid(keys, seed, disps, map),
    ensures
        distinct(keys),
{
    assert forall|a: int, b: int|
        0 <= a < keys.len() && 0 <= b < keys.len() && a != b implies keys[a] != keys[b] by {
        let sa = map[slot_of(phf_hashes(keys[a], seed), disps, keys.len() as int)];
        let sb = map[slot_of(phf_hashes(keys[b], seed), disps, keys.len() as int)];
        assert(sa == a && sb == b);
    }
}

/// Looking up a table built from distinct keys gives each key's own value,
/// and gives nothing for any string that is not one of the keys.
pub proof fn lemma_lookup_exact<V>(t: PerfectHashTable<V>, keys: Seq<Seq<char>>, values: Seq<V>)
    requires
        t.built_from(keys, values),
        distinct(keys),
        values.len() == keys.len(),
    ensures
        forall|i: int| 0 <= i < keys.len() ==> t.spec_get(#[trigger] keys[i]) == Some(values[i]),
        forall|k: Seq<char>| !keys.contains(k) ==> t.spec_get(k).is_none(),
{
    assert forall|i: int| 0 <= i < keys.len() implies t.spec_get(#[trigger] keys[i]) == Some(
        values[i],
    ) by {
        let kv = t.key_seq();
        assert(kv[i] == keys[i]);
        let j = choose|j: int| 0 <= j < kv.len() && kv[j] == keys[i];
        assert(kv[j] == kv[i]);
    }
}

/// Two tables built from the same keys have the same layout: the same seed,
/// the same displacement pairs and the same slot map.
pub proof fn lemma_build_deterministic<V>(
    t1: PerfectHashTable<V>,
    t2: PerfectHashTable<V>,
    keys: Seq<Seq<char>>,
    values1: Seq<V>,
    values2: Seq<V>,
)
    requires
        t1.built_from(keys, values1),
        t2.built_from(keys, values2),
    ensures
        t1.layout() == t2.layout(),
{
}

} // verus!
