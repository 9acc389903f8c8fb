//! An ordered mapping from wire field names to wire values, kept sorted by
//! key so that the serialised form is canonical.
use vstd::prelude::*;

verus! {

/// One field of a request: its name and its wire text.
pub type Entry = (Seq<char>, Seq<char>);

/// Lexicographic order on character sequences (the order of `str`).
pub open spec fn key_lt(a: Seq<char>, b: Seq<char>) -> bool
    decreases a.len(),
{
    if a.len() == 0 {
        b.len() > 0
    } else if b.len() == 0 {
        false
    } else if a[0] != b[0] {
        (a[0] as u32) < (b[0] as u32)
    } else {
        key_lt(a.drop_first(), b.drop_first())
    }
}

pub proof fn lemma_key_lt_irreflexive(a: Seq<char>)
    ensures
        !key_lt(a, a),
    decreases a.len(),
{
    if a.len() > 0 {
        lemma_key_lt_irreflexive(a.drop_first());
    }
}

pub proof fn lemma_key_lt_transitive(a: Seq<char>, b: Seq<char>, c: Seq<char>)
    requires
        key_lt(a, b),
        key_lt(b, c),
    ensures
        key_lt(a, c),
    decreases a.len(),
{
    if a.len() > 0 && b.len() > 0 && c.len() > 0 && a[0] == b[0] && b[0] == c[0] {
        lemma_key_lt_transitive(a.drop_first(), b.drop_first(), c.drop_first());
    }
}

pub proof fn lemma_key_lt_asymmetric(a: Seq<char>, b: Seq<char>)
    requires
        key_lt(a, b),
    ensures
        !key_lt(b, a),
        a != b,
{
    if key_lt(b, a) {
        lemma_key_lt_transitive(a, b, a);
        lemma_key_lt_irreflexive(a);
    }
    if a == b {
        lemma_key_lt_irreflexive(a);
    }
}

/// Equal prefixes of length `i` leave the order to what follows them.
proof fn lemma_key_lt_skip(a: Seq<char>, b: Seq<char>, i: int)
    requires
        0 <= i <= a.len(),
        i <= b.len(),
        a.subrange(0, i) == b.subrange(0, i),
    ensures
        key_lt(a, b) == key_lt(a.subrange(i, a.len() as int), b.subrange(i, b.len() as int)),
    decreases i,
{
    if i > 0 {
        assert(a[0] == a.subrange(0, i)[0]);
        assert(b[0] == b.subrange(0, i)[0]);
        let a1 = a.drop_first();
        let b1 = b.drop_first();
        assert(a1.subrange(0, i - 1) =~= a.subrange(0, i).drop_first());
        assert(b1.subrange(0, i - 1) =~= b.subrange(0, i).drop_first());
        lemma_key_lt_skip(a1, b1, i - 1);
        assert(a1.subrange(i - 1, a1.len() as int) =~= a.subrange(i, a.len() as int));
        assert(b1.subrange(i - 1, b1.len() as int) =~= b.subrange(i, b.len() as int));
    } else {
        assert(a.subrange(0, a.len() as int) =~= a);
        assert(b.subrange(0, b.len() as int) =~= b);
    }
}

/// Compares two keys: negative, zero or positive as `a` sorts before,
/// equal to, or after `b`.
pub fn compare_keys(a: &str, b: &str) -> (r: i8)
    ensures
        r < 0 <==> key_lt(a@, b@),
        r == 0 <==> a@ == b@,
        r > 0 <==> key_lt(b@, a@),
{
    let n = a.unicode_len();
    let m = b.unicode_len();
    let mut i: usize = 0;
    while i < n && i < m
        invariant
            n == a@.len(),
            m == b@.len(),
            i <= n,
            i <= m,
            a@.subrange(0, i as int) == b@.subrange(0, i as int),
        decreases n - i,
    {
        let x = a.get_char(i);
        let y = b.get_char(i);
        if x != y {
            proof {
                lemma_key_lt_skip(a@, b@, i as int);
                lemma_key_lt_skip(b@, a@, i as int);
                let sa = a@.subrange(i as int, n as int);
                let sb = b@.subrange(i as int, m as int);
                assert(sa[0] == x);
                assert(sb[0] == y);
                assert(a@ != b@) by {
                    assert(a@[i as int] != b@[i as int]);
                }
            }
            if (x as u32) < (y as u32) {
                return -1;
            } else {
                return 1;
            }
        }
        assert(a@.subrange(0, i + 1) =~= a@.subrange(0, i as int).push(x));
        assert(b@.subrange(0, i + 1) =~= b@.subrange(0, i as int).push(y));
        i = i + 1;
    }
    proof {
        lemma_key_lt_skip(a@, b@, i as int);
        lemma_key_lt_skip(b@, a@, i as int);
        if n == m {
            assert(a@ =~= a@.subrange(0, n as int));
            assert(b@ =~= b@.subrange(0, m as int));
        } else {
            assert(a@.len() != b@.len());
        }
    }
    if n < m {
        -1
    } else if n == m {
        0
    } else {
        1
    }
}

/// Keys strictly increase along the sequence.
pub open spec fn sorted_entries(s: Seq<Entry>) -> bool {
    forall|i: int, j: int| 0 <= i < j < s.len() ==> key_lt(#[trigger] s[i].0, #[trigger] s[j].0)
}

/// The sequence holds a field named `k`.
pub open spec fn has_key(s: Seq<Entry>, k: Seq<char>) -> bool {
    exists|i: int| 0 <= i < s.len() && #[trigger] s[i].0 == k
}

/// The key-to-value mapping that a sorted sequence of entries stands for.
pub open spec fn entries_map(s: Seq<Entry>) -> Map<Seq<char>, Seq<char>> {
    Map::new(
        |k: Seq<char>| has_key(s, k),
        |k: Seq<char>| s[key_index(s, k)].1,
    )
}

/// A position at which field `k` stands, where it does.
pub open spec fn key_index(s: Seq<Entry>, k: Seq<char>) -> int {
    choose|i: int| 0 <= i < s.len() && #[trigger] s[i].0 == k
}

pub proof fn lemma_sorted_keys_distinct(s: Seq<Entry>, i: int, j: int)
    requires
        sorted_entries(s),
        0 <= i < s.len(),
        0 <= j < s.len(),
        i != j,
    ensures
        s[i].0 != s[j].0,
{
    if i < j {
        lemma_key_lt_asymmetric(s[i].0, s[j].0);
    } else {
        lemma_key_lt_asymmetric(s[j].0, s[i].0);
    }
}

/// In a sorted sequence the entry at `i` is what the mapping gives for its key.
pub proof fn lemma_entries_map_at(s: Seq<Entry>, i: int)
    requires
        sorted_entries(s),
        0 <= i < s.len(),
    ensures
        entries_map(s).contains_key(s[i].0),
        entries_map(s)[s[i].0] == s[i].1,
{
    let k = s[i].0;
    assert(has_key(s, k));
    let j = key_index(s, k);
    if j != i {
        lemma_sorted_keys_distinct(s, i, j);
    }
}

/// The views of a vector of string pairs.
pub open spec fn entries_view(v: Seq<(String, String)>) -> Seq<Entry> {
    v.map_values(|e: (String, String)| (e.0@, e.1@))
}

/// A request's parameters: fields sorted by name, each name once.
pub struct ParameterSet {
    entries: Vec<(String, String)>,
}

impl View for ParameterSet {
    type V = Seq<Entry>;

    closed spec fn view(&self) -> Seq<Entry> {
        entries_view(self.entries@)
    }
}

impl ParameterSet {
    /// The entries are in canonical order; every parameter set is.
    #[verifier::type_invariant]
    pub open spec fn wf(&self) -> bool {
        sorted_entries(self@)
    }

    /// The fields as a mapping from name to wire text.
    pub open spec fn as_map(&self) -> Map<Seq<char>, Seq<char>> {
        entries_map(self@)
    }

    /// An empty set of parameters.
    pub fn new() -> (r: Self)
        ensures
            r.wf(),
            r@.len() == 0,
            r.as_map() == Map::<Seq<char>, Seq<char>>::empty(),
    {
        let r = ParameterSet { entries: Vec::new() };
        assert(r@ =~= Seq::<Entry>::empty());
        assert(r.as_map() =~= Map::<Seq<char>, Seq<char>>::empty());
        r
    }

    /// Number of fields.
    pub fn len(&self) -> (r: usize)
        ensures
            r == self@.len(),
    {
        self.entries.len()
    }

    /// The name and value of the field at position `i` in canonical order.
    pub fn entry(&self, i: usize) -> (r: (&str, &str))
        requires
            i < self@.len(),
        ensures
            r.0@ == self@[i as int].0,
            r.1@ == self@[i as int].1,
    {
        (self.entries[i].0.as_str(), self.entries[i].1.as_str())
    }

    /// Sets field `key` to `value`, replacing an earlier value of that field.
    pub fn insert(&mut self, key: String, value: String)
        ensures
            final(self).wf(),
            final(self).as_map() == old(self).as_map().insert(key@, value@),
    {
        proof {
            use_type_invariant(&*self);
        }
        let mut entries: Vec<(String, String)> = Vec::new();
        std::mem::swap(&mut entries, &mut self.entries);
        let ghost old_s = entries_view(entries@);
        assert(old_s == old(self)@);
        let mut i: usize = 0;
        let mut past: bool = false;
        let mut found: bool = false;
        while i < entries.len() && !past && !found
            invariant
                entries_view(entries@) == old_s,
                sorted_entries(old_s),
                i <= old_s.len(),
                past ==> i < old_s.len() && key_lt(key@, old_s[i as int].0),
                found ==> i < old_s.len() && old_s[i as int].0 == key@,
                forall|j: int| 0 <= j < i ==> key_lt(#[trigger] old_s[j].0, key@),
            decreases old_s.len() - i + (if past || found { 0int } else { 1int }),
        {
            let c = compare_keys(entries[i].0.as_str(), key.as_str());
            if c == 0 {
                found = true;
            } else if c > 0 {
                past = true;
            } else {
                i = i + 1;
            }
        }
        let ghost kv = key@;
        let ghost vv = value@;
        if found {
            entries.set(i, (key, value));
            proof {
                let s = entries_view(entries@);
                assert(s =~= old_s.update(i as int, (kv, vv)));
                assert forall|a: int, b: int| 0 <= a < b < s.len() implies key_lt(
                    #[trigger] s[a].0,
                    #[trigger] s[b].0,
                ) by {
                    assert(key_lt(old_s[a].0, old_s[b].0));
                }
                lemma_map_after_set(old_s, s, i as int);
                assert(s[i as int] == (kv, vv));
            }
        } else {
            entries.insert(i, (key, value));
            proof {
                let s = entries_view(entries@);
                assert(s =~= old_s.insert(i as int, (kv, vv)));
                assert forall|a: int, b: int| 0 <= a < b < s.len() implies key_lt(
                    #[trigger] s[a].0,
                    #[trigger] s[b].0,
                ) by {
                    if b < i {
                        assert(key_lt(old_s[a].0, old_s[b].0));
                    } else if b == i {
                        assert(key_lt(old_s[a].0, kv));
                    } else if a < i {
                        assert(key_lt(old_s[a].0, kv));
                        assert(key_lt(kv, old_s[i as int].0));
                        if b - 1 > i {
                            assert(key_lt(old_s[i as int].0, old_s[b - 1].0));
                            lemma_key_lt_transitive(kv, old_s[i as int].0, old_s[b - 1].0);
                        }
                        lemma_key_lt_transitive(old_s[a].0, kv, old_s[b - 1].0);
                    } else if a == i {
                        assert(key_lt(kv, old_s[i as int].0));
                        if b - 1 > i {
                            assert(key_lt(old_s[i as int].0, old_s[b - 1].0));
                            lemma_key_lt_transitive(kv, old_s[i as int].0, old_s[b - 1].0);
                        }
                    } else {
                        assert(key_lt(old_s[a - 1].0, old_s[b - 1].0));
                    }
                }
                lemma_map_after_insert(old_s, s, i as int);
            }
        }
        self.entries = entries;
    }
}

proof fn lemma_map_after_set(old_s: Seq<Entry>, s: Seq<Entry>, i: int)
    requires
        sorted_entries(old_s),
        sorted_entries(s),
        0 <= i < old_s.len(),
        s.len() == old_s.len(),
        s[i].0 == old_s[i].0,
        forall|j: int| 0 <= j < s.len() && j != i ==> s[j] == old_s[j],
    ensures
        entries_map(s) == entries_map(old_s).insert(s[i].0, s[i].1),
{
    let m = entries_map(s);
    let m0 = entries_map(old_s).insert(s[i].0, s[i].1);
    assert forall|k: Seq<char>| m.contains_key(k) <==> m0.contains_key(k) by {
        if has_key(s, k) {
            let j = choose|j: int| 0 <= j < s.len() && #[trigger] s[j].0 == k;
            if j != i {
                assert(old_s[j].0 == k);
            }
        }
        if has_key(old_s, k) {
            let j = choose|j: int| 0 <= j < old_s.len() && #[trigger] old_s[j].0 == k;
            if j != i {
                assert(s[j].0 == k);
            }
        }
    }
    assert forall|k: Seq<char>| m.contains_key(k) implies m[k] == m0[k] by {
        let j = choose|j: int| 0 <= j < s.len() && #[trigger] s[j].0 == k;
        lemma_entries_map_at(s, j);
        if j != i {
            assert(old_s[j] == s[j]);
            lemma_entries_map_at(old_s, j);
            lemma_sorted_keys_distinct(s, i, j);
        }
    }
    assert(m =~= m0);
}

proof fn lemma_map_after_insert(old_s: Seq<Entry>, s: Seq<Entry>, i: int)
    requires
        sorted_entries(old_s),
        sorted_entries(s),
        0 <= i <= old_s.len(),
        s.len() == old_s.len() + 1,
        forall|j: int| 0 <= j < i ==> s[j] == old_s[j],
        forall|j: int| i < j < s.len() ==> s[j] == old_s[j - 1],
    ensures
        entries_map(s) == entries_map(old_s).insert(s[i].0, s[i].1),
{
    let m = entries_map(s);
    let m0 = entries_map(old_s).insert(s[i].0, s[i].1);
    assert forall|k: Seq<char>| m.contains_key(k) <==> m0.contains_key(k) by {
        if has_key(s, k) {
            let j = choose|j: int| 0 <= j < s.len() && #[trigger] s[j].0 == k;
            if j < i {
                assert(old_s[j].0 == k);
            } else if j > i {
                assert(old_s[j - 1].0 == k);
            }
        }
        if has_key(old_s, k) {
            let j = choose|j: int| 0 <= j < old_s.len() && #[trigger] old_s[j].0 == k;
            if j < i {
                assert(s[j].0 == k);
            } else {
                assert(s[j + 1].0 == k);
            }
        }
    }
    assert forall|k: Seq<char>| m.contains_key(k) implies m[k] == m0[k] by {
        let j = choose|j: int| 0 <= j < s.len() && #[trigger] s[j].0 == k;
        lemma_entries_map_at(s, j);
        if j < i {
            lemma_entries_map_at(old_s, j);
            lemma_sorted_keys_distinct(s, i, j);
        } else if j > i {
            lemma_entries_map_at(old_s, j - 1);
            lemma_sorted_keys_distinct(s, i, j);
        }
    }
    assert(m =~= m0);
}

} // verus!
