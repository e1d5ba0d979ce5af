use vstd::prelude::*;
use vstd::string::StringSliceAdditionalSpecFns;

verus! {

broadcast use vstd::string::group_string_axioms;

/// The mathematical content of a [`TypedMap`]: its entries in insertion
/// order, each a key together with the raw bytes stored under it.
pub type MapView = Seq<(Seq<char>, Seq<u8>)>;

/// First-match lookup over a sequence of entries. With unique keys — which
/// every reachable [`TypedMap`] has — this is the only match.
pub open spec fn lookup(m: MapView, k: Seq<char>) -> Option<Seq<u8>>
    decreases m.len(),
{
    if m.len() == 0 {
        None
    } else if m[0].0 == k {
        Some(m[0].1)
    } else {
        lookup(m.drop_first(), k)
    }
}

/// Whether some entry carries the key `k`.
pub open spec fn has_key(m: MapView, k: Seq<char>) -> bool {
    lookup(m, k) is Some
}

/// The position of the first entry carrying `k`; `m.len()` when absent.
pub open spec fn key_index(m: MapView, k: Seq<char>) -> int
    decreases m.len(),
{
    if m.len() == 0 {
        0
    } else if m[0].0 == k {
        0
    } else {
        1 + key_index(m.drop_first(), k)
    }
}

/// The view of a map after writing `v` under `k`: the entry for `k` is
/// overwritten in place when the key is present, and appended otherwise, so
/// insertion order is preserved.
pub open spec fn map_set(m: MapView, k: Seq<char>, v: Seq<u8>) -> MapView {
    if has_key(m, k) {
        m.update(key_index(m, k), (k, v))
    } else {
        m.push((k, v))
    }
}

/// No two entries share a key.
pub open spec fn keys_unique(m: MapView) -> bool {
    forall|i: int, j: int| 0 <= i < j < m.len() ==> m[i].0 != m[j].0
}

/// `key_index` points at the first entry for `k` exactly when the key is
/// present, and entries before it never carry `k`.
pub proof fn lemma_lookup_index(m: MapView, k: Seq<char>)
    ensures
        has_key(m, k) ==> 0 <= key_index(m, k) < m.len(),
        has_key(m, k) ==> m[key_index(m, k)].0 == k,
        has_key(m, k) ==> lookup(m, k) == Some(m[key_index(m, k)].1),
        !has_key(m, k) ==> key_index(m, k) == m.len(),
        forall|j: int| 0 <= j < key_index(m, k) ==> m[j].0 != k,
    decreases m.len(),
{
    if m.len() != 0 && m[0].0 != k {
        lemma_lookup_index(m.drop_first(), k);
        assert forall|j: int| 0 <= j < key_index(m, k) implies m[j].0 != k by {
            if j > 0 {
                assert(m.drop_first()[j - 1] == m[j]);
            }
        }
    }
}

/// A key found at an index before which it never occurs is the key that
/// `lookup` and `key_index` report.
pub proof fn lemma_lookup_at(m: MapView, k: Seq<char>, i: int)
    requires
        0 <= i < m.len(),
        m[i].0 == k,
        forall|j: int| 0 <= j < i ==> m[j].0 != k,
    ensures
        lookup(m, k) == Some(m[i].1),
        key_index(m, k) == i,
    decreases m.len(),
{
    if i > 0 {
        assert(forall|j: int| 0 <= j < m.drop_first().len() ==> m.drop_first()[j] == m[j + 1]);
        lemma_lookup_at(m.drop_first(), k, i - 1);
    }
}

/// When no entry carries `k`, `lookup` reports absence.
pub proof fn lemma_lookup_absent(m: MapView, k: Seq<char>)
    requires
        forall|j: int| 0 <= j < m.len() ==> m[j].0 != k,
    ensures
        !has_key(m, k),
    decreases m.len(),
{
    if m.len() != 0 {
        assert(forall|j: int| 0 <= j < m.drop_first().len() ==> m.drop_first()[j] == m[j + 1]);
        lemma_lookup_absent(m.drop_first(), k);
    }
}

/// Writing `v` under `k` makes `k` map to `v` and leaves every other key's
/// binding untouched.
pub proof fn lemma_map_set_lookup(m: MapView, k: Seq<char>, v: Seq<u8>, k2: Seq<char>)
    ensures
        lookup(map_set(m, k, v), k) == Some(v),
        k2 != k ==> lookup(map_set(m, k, v), k2) == lookup(m, k2),
    decreases m.len(),
{
    lemma_lookup_index(m, k);
    let m2 = map_set(m, k, v);
    if has_key(m, k) {
        let i = key_index(m, k);
        assert(m2[i].0 == k && m2[i].1 == v);
        assert(forall|j: int| 0 <= j < i ==> m2[j].0 != k);
        lemma_lookup_at(m2, k, i);
        if k2 != k {
            lemma_lookup_unaffected(m, k2, i, (k, v));
        }
    } else {
        assert(forall|j: int| 0 <= j < m.len() ==> m2[j].0 != k);
        lemma_lookup_at(m2, k, m.len() as int);
        if k2 != k {
            lemma_lookup_push_other(m, k2, (k, v));
        }
    }
}

/// Overwriting the entry at a position whose key is not `k2` does not change
/// what `k2` maps to.
proof fn lemma_lookup_unaffected(m: MapView, k2: Seq<char>, i: int, e: (Seq<char>, Seq<u8>))
    requires
        0 <= i < m.len(),
        m[i].0 != k2,
        e.0 != k2,
    ensures
        lookup(m.update(i, e), k2) == lookup(m, k2),
    decreases m.len(),
{
    let m2 = m.update(i, e);
    if m.len() != 0 {
        if i == 0 {
            assert(m2.drop_first() =~= m.drop_first());
        } else if m[0].0 != k2 {
            assert(m2.drop_first() =~= m.drop_first().update(i - 1, e));
            lemma_lookup_unaffected(m.drop_first(), k2, i - 1, e);
        }
    }
}

/// Appending an entry under a different key does not change what `k2` maps
/// to.
proof fn lemma_lookup_push_other(m: MapView, k2: Seq<char>, e: (Seq<char>, Seq<u8>))
    requires
        e.0 != k2,
    ensures
        lookup(m.push(e), k2) == lookup(m, k2),
    decreases m.len(),
{
    let m2 = m.push(e);
    if m.len() == 0 {
        assert(m2[0].0 != k2);
        assert(m2.drop_first() =~= Seq::<(Seq<char>, Seq<u8>)>::empty());
    } else if m[0].0 != k2 {
        assert(m2[0] == m[0]);
        assert(m2.drop_first() =~= m.drop_first().push(e));
        lemma_lookup_push_other(m.drop_first(), k2, e);
    } else {
        assert(m2[0] == m[0]);
    }
}

/// Writing preserves key uniqueness.
pub proof fn lemma_map_set_unique(m: MapView, k: Seq<char>, v: Seq<u8>)
    requires
        keys_unique(m),
    ensures
        keys_unique(map_set(m, k, v)),
{
    lemma_lookup_index(m, k);
    if !has_key(m, k) {
        lemma_lookup_absent_all(m, k);
    }
}

/// Absence of a key means no entry carries it.
pub proof fn lemma_lookup_absent_all(m: MapView, k: Seq<char>)
    requires
        !has_key(m, k),
    ensures
        forall|j: int| 0 <= j < m.len() ==> m[j].0 != k,
    decreases m.len(),
{
    if m.len() != 0 {
        assert(forall|j: int| 0 <= j < m.drop_first().len() ==> m.drop_first()[j] == m[j + 1]);
        lemma_lookup_absent_all(m.drop_first(), k);
        assert(forall|j: int| 1 <= j < m.len() ==> m[j] == m.drop_first()[j - 1]);
    }
}

/// String equality, decided on the UTF-8 bytes.
pub fn str_eq(a: &str, b: &str) -> (r: bool)
    ensures
        r == (a@ == b@),
{
    let ab = a.as_bytes();
    let bb = b.as_bytes();
    if ab.len() != bb.len() {
        proof {
            if a@ == b@ {
                assert(a.spec_bytes() == b.spec_bytes());
            }
        }
        return false;
    }
    let n = ab.len();
    let mut i: usize = 0;
    while i < n
        invariant
            ab@ == a.spec_bytes(),
            bb@ == b.spec_bytes(),
            n == ab@.len() == bb@.len(),
            0 <= i <= n,
            forall|j: int| 0 <= j < i ==> ab@[j] == bb@[j],
        decreases n - i,
    {
        if ab[i] != bb[i] {
            proof {
                if a@ == b@ {
                    assert(a.spec_bytes() == b.spec_bytes());
                }
            }
            return false;
        }
        i += 1;
    }
    proof {
        assert(ab@ =~= bb@);
        vstd::utf8::encode_utf8_decode_utf8(a@);
        vstd::utf8::encode_utf8_decode_utf8(b@);
    }
    true
}

/// An ordered-insertion, unique-key mapping from string keys to raw bytes.
///
/// One such map stands behind each data source of an invocation: the
/// persisted state, the incoming parameters, the outgoing results, and the
/// result map a cross-contract call hands back. The store is byte-oriented;
/// typed access on top of it is the accessors' and codecs' business.
pub struct TypedMap {
    entries: Vec<(String, Vec<u8>)>,
}

impl View for TypedMap {
    type V = MapView;

    closed spec fn view(&self) -> MapView {
        self.entries@.map(|i: int, e: (String, Vec<u8>)| (e.0@, e.1@))
    }
}

impl TypedMap {
    /// An empty map.
    pub fn new() -> (m: TypedMap)
        ensures
            m@ =~= MapView::empty(),
    {
        TypedMap { entries: Vec::new() }
    }

    /// How many keys are bound.
    pub fn len(&self) -> (n: usize)
        ensures
            n == self@.len(),
    {
        self.entries.len()
    }

    /// The bytes stored under `key`, when the key is bound.
    pub fn get(&self, key: &str) -> (r: Option<&Vec<u8>>)
        ensures
            (match lookup(self@, key@) {
                Some(v) => r matches Some(b) && b@ == v,
                None => r is None,
            }),
    {
        let n = self.entries.len();
        let mut i: usize = 0;
        while i < n
            invariant
                n == self.entries@.len(),
                self@.len() == n,
                0 <= i <= n,
                forall|j: int| 0 <= j < i ==> self@[j].0 != key@,
            decreases n - i,
        {
            if str_eq(self.entries[i].0.as_str(), key) {
                proof {
                    lemma_lookup_at(self@, key@, i as int);
                }
                return Some(&self.entries[i].1);
            }
            i += 1;
        }
        proof {
            lemma_lookup_absent(self@, key@);
        }
        None
    }

    /// Whether `key` is bound, without touching the stored bytes.
    pub fn has(&self, key: &str) -> (r: bool)
        ensures
            r == has_key(self@, key@),
    {
        self.get(key).is_some()
    }

    /// Binds `key` to `value`, overwriting in place when the key is already
    /// bound and appending otherwise.
    pub fn set(&mut self, key: &str, value: &[u8])
        ensures
            final(self)@ == map_set(old(self)@, key@, value@),
    {
        let n = self.entries.len();
        let mut i: usize = 0;
        while i < n
            invariant
                self == old(self),
                n == self.entries@.len(),
                self@.len() == n,
                0 <= i <= n,
                forall|j: int| 0 <= j < i ==> self@[j].0 != key@,
            decreases n - i,
        {
            if str_eq(self.entries[i].0.as_str(), key) {
                proof {
                    lemma_lookup_at(self@, key@, i as int);
                }
                self.entries[i].1 = vstd::slice::slice_to_vec(value);
                assert(self@ =~= map_set(old(self)@, key@, value@));
                return ;
            }
            i += 1;
        }
        proof {
            lemma_lookup_absent(self@, key@);
        }
        self.entries.push((key.to_owned(), vstd::slice::slice_to_vec(value)));
        assert(self@ =~= map_set(old(self)@, key@, value@));
    }
}

} // verus!
