//! Per-module severity overrides and their hierarchical resolution.
use crate::level::Level;
use vstd::prelude::*;

verus! {

/// There is a `::` separator at index `i` of `s`.
pub open spec fn is_sep_at(s: Seq<char>, i: int) -> bool {
    0 <= i && i + 1 < s.len() && s[i] == ':' && s[i + 1] == ':'
}

/// The start of the last `::` separator that begins below `n`, or -1.
pub open spec fn last_sep_below(s: Seq<char>, n: int) -> int
    decreases n,
{
    if n <= 0 {
        -1
    } else if is_sep_at(s, n - 1) {
        n - 1
    } else {
        last_sep_below(s, n - 1)
    }
}

/// The start of the last `::` separator of `s`, or -1 when it has none.
pub open spec fn last_sep(s: Seq<char>) -> int {
    last_sep_below(s, s.len() as int)
}

/// The parent of a module path: the part before its last `::`.
pub open spec fn parent_path(s: Seq<char>) -> Option<Seq<char>> {
    let i = last_sep(s);
    if 0 <= i < s.len() {
        Some(s.subrange(0, i))
    } else {
        None
    }
}

/// The override that applies to `path`: the one of the path itself, else
/// the one of its nearest ancestor that has one, else none.
pub open spec fn resolve_override(m: Map<Seq<char>, Level>, path: Seq<char>) -> Option<Level>
    decreases path.len(),
{
    if m.contains_key(path) {
        Some(m[path])
    } else {
        match parent_path(path) {
            Some(p) => if p.len() < path.len() {
                resolve_override(m, p)
            } else {
                None
            },
            None => None,
        }
    }
}

/// The severity in force for `path`: its resolved override, else the
/// default.
pub open spec fn effective_level(default: Level, m: Map<Seq<char>, Level>, path: Seq<char>) -> Level {
    match resolve_override(m, path) {
        Some(l) => l,
        None => default,
    }
}

/// `l` is the most verbose severity among `default` and the values of `m`.
pub open spec fn is_most_verbose(l: Level, default: Level, m: Map<Seq<char>, Level>) -> bool {
    &&& default.rank() <= l.rank()
    &&& forall|k: Seq<char>| #[trigger] m.contains_key(k) ==> m[k].rank() <= l.rank()
    &&& (l == default || exists|k: Seq<char>| #[trigger] m.contains_key(k) && m[k] == l)
}

/// The map that a list of distinct keys with their levels stands for.
pub open spec fn entries_map(s: Seq<(String, Level)>) -> Map<Seq<char>, Level> {
    Map::new(
        |k: Seq<char>| exists|i: int| 0 <= i < s.len() && (#[trigger] s[i]).0@ == k,
        |k: Seq<char>| s[choose|i: int| 0 <= i < s.len() && (#[trigger] s[i]).0@ == k].1,
    )
}

/// No key occurs twice.
pub open spec fn keys_distinct(s: Seq<(String, Level)>) -> bool {
    forall|i: int, j: int|
        0 <= i < s.len() && 0 <= j < s.len() && i != j ==> (#[trigger] s[i]).0@ != (#[trigger] s[j]).0@
}

/// A finite map from module paths to severities.
pub struct ModLevels {
    entries: Vec<(String, Level)>,
}

impl View for ModLevels {
    type V = Map<Seq<char>, Level>;

    closed spec fn view(&self) -> Map<Seq<char>, Level> {
        entries_map(self.entries@)
    }
}

proof fn lemma_entries_map_at(s: Seq<(String, Level)>, i: int)
    requires
        keys_distinct(s),
        0 <= i < s.len(),
    ensures
        entries_map(s).contains_key(s[i].0@),
        entries_map(s)[s[i].0@] == s[i].1,
{
    let k = s[i].0@;
    assert(0 <= i < s.len() && s[i].0@ == k);
    let j = choose|j: int| 0 <= j < s.len() && (#[trigger] s[j]).0@ == k;
    assert(j == i);
}

impl ModLevels {
    pub closed spec fn wf(&self) -> bool {
        keys_distinct(self.entries@)
    }

    /// An empty map.
    pub fn new() -> (r: ModLevels)
        ensures
            r.wf(),
            r@ == Map::<Seq<char>, Level>::empty(),
    {
        let r = ModLevels { entries: Vec::new() };
        assert(r@ =~= Map::<Seq<char>, Level>::empty());
        r
    }

    /// The number of modules in the map.
    pub fn len(&self) -> (r: usize)
        requires
            self.wf(),
        ensures
            r == self@.len(),
            self@.dom().finite(),
    {
        proof {
            self.lemma_len();
        }
        self.entries.len()
    }

    proof fn lemma_len(&self)
        requires
            self.wf(),
        ensures
            self@.dom().finite(),
            self@.len() == self.entries@.len(),
        decreases self.entries@.len(),
    {
        let s = self.entries@;
        let d = Set::new(|i: int| 0 <= i < s.len());
        let f = |i: int| s[i].0@;
        assert(self@.dom() =~= d.map(f)) by {
            assert forall|k: Seq<char>| self@.dom().contains(k) implies d.map(f).contains(k) by {
                let i = choose|i: int| 0 <= i < s.len() && (#[trigger] s[i]).0@ == k;
                assert(d.contains(i) && f(i) == k);
            }
            assert forall|k: Seq<char>| d.map(f).contains(k) implies self@.dom().contains(k) by {
                let i = choose|i: int| d.contains(i) && f(i) == k;
                assert(0 <= i < s.len() && s[i].0@ == k);
            }
        }
        assert(d =~= vstd::set_lib::set_int_range(0, s.len() as int));
        vstd::set_lib::lemma_int_range(0, s.len() as int);
        assert(vstd::relations::injective_on(f, d)) by {
            assert forall|a: int, b: int| d.contains(a) && d.contains(b) && #[trigger] f(a) == #[trigger] f(b) implies a == b by {
            }
        }
        vstd::set_lib::lemma_map_size(d, self@.dom(), f);
    }

    /// The map of a well-formed list is finite.
    pub proof fn lemma_len_finite(&self)
        requires
            self.wf(),
        ensures
            self@.dom().finite(),
    {
        self.lemma_len();
    }

    /// The index of the entry for `key`.
    fn find(&self, key: &String) -> (r: Option<usize>)
        requires
            self.wf(),
        ensures
            match r {
                Some(i) => i < self.entries@.len() && self.entries@[i as int].0@ == key@,
                None => !self@.contains_key(key@),
            },
    {
        let mut i: usize = 0;
        while i < self.entries.len()
            invariant
                i <= self.entries@.len(),
                forall|j: int| 0 <= j < i ==> (#[trigger] self.entries@[j]).0@ != key@,
            decreases self.entries@.len() - i,
        {
            if self.entries[i].0 == *key {
                return Some(i);
            }
            i = i + 1;
        }
        None
    }

    /// The level set for exactly `key`, if any.
    pub fn get(&self, key: &str) -> (r: Option<Level>)
        requires
            self.wf(),
        ensures
            r == (if self@.contains_key(key@) {
                Some(self@[key@])
            } else {
                None
            }),
    {
        let k = key.to_owned();
        match self.find(&k) {
            Some(i) => {
                proof {
                    lemma_entries_map_at(self.entries@, i as int);
                }
                Some(self.entries[i].1)
            },
            None => None,
        }
    }

    /// Sets the level of `key`, replacing any earlier one.
    pub fn insert(&mut self, key: &str, level: Level)
        requires
            old(self).wf(),
        ensures
            final(self).wf(),
            final(self)@ == old(self)@.insert(key@, level),
    {
        let k = key.to_owned();
        let ghost old_s = self.entries@;
        match self.find(&k) {
            Some(i) => {
                self.entries.set(i, (k, level));
                proof {
                    let s = self.entries@;
                    assert(s == old_s.update(i as int, s[i as int]));
                    assert forall|a: int, b: int|
                        0 <= a < s.len() && 0 <= b < s.len() && a != b implies (#[trigger] s[a]).0@
                        != (#[trigger] s[b]).0@ by {
                        assert(old_s[a].0@ != old_s[b].0@);
                    }
                    assert(self@ =~= old(self)@.insert(key@, level)) by {
                        assert forall|q: Seq<char>| #[trigger] self@.contains_key(q) implies old(self)@.insert(key@, level).contains_key(q) by {
                            let j = choose|j: int| 0 <= j < s.len() && (#[trigger] s[j]).0@ == q;
                            if j != i as int {
                                assert(0 <= j < old_s.len() && old_s[j].0@ == q);
                            }
                        }
                        assert forall|q: Seq<char>| #[trigger] old(self)@.insert(key@, level).contains_key(q) implies self@.contains_key(q) by {
                            if q != key@ {
                                let j = choose|j: int| 0 <= j < old_s.len() && (#[trigger] old_s[j]).0@ == q;
                                assert(0 <= j < s.len() && s[j].0@ == q);
                            } else {
                                assert(0 <= i < s.len() && s[i as int].0@ == q);
                            }
                        }
                        assert forall|q: Seq<char>| #[trigger] self@.contains_key(q) implies self@[q] == old(self)@.insert(key@, level)[q] by {
                            let j = choose|j: int| 0 <= j < s.len() && (#[trigger] s[j]).0@ == q;
                            lemma_entries_map_at(s, j);
                            if j != i as int {
                                lemma_entries_map_at(old_s, j);
                            }
                        }
                    }
                }
            },
            None => {
                self.entries.push((k, level));
                proof {
                    let s = self.entries@;
                    let n = old_s.len() as int;
                    assert(s == old_s.push(s[n]));
                    assert forall|a: int, b: int|
                        0 <= a < s.len() && 0 <= b < s.len() && a != b implies (#[trigger] s[a]).0@
                        != (#[trigger] s[b]).0@ by {
                        if a == n {
                            assert(old_s[b] == s[b]);
                            assert(!old(self)@.contains_key(old_s[b].0@) ==> false) by {
                                assert(0 <= b < old_s.len() && old_s[b].0@ == old_s[b].0@);
                            }
                        } else if b == n {
                            assert(old_s[a] == s[a]);
                            assert(0 <= a < old_s.len() && old_s[a].0@ == old_s[a].0@);
                        } else {
                            assert(old_s[a].0@ != old_s[b].0@);
                        }
                    }
                    assert(self@ =~= old(self)@.insert(key@, level)) by {
                        assert forall|q: Seq<char>| #[trigger] self@.contains_key(q) implies old(self)@.insert(key@, level).contains_key(q) by {
                            let j = choose|j: int| 0 <= j < s.len() && (#[trigger] s[j]).0@ == q;
                            if j != n {
                                assert(0 <= j < old_s.len() && old_s[j].0@ == q);
                            }
                        }
                        assert forall|q: Seq<char>| #[trigger] old(self)@.insert(key@, level).contains_key(q) implies self@.contains_key(q) by {
                            if q != key@ {
                                let j = choose|j: int| 0 <= j < old_s.len() && (#[trigger] old_s[j]).0@ == q;
                                assert(0 <= j < s.len() && s[j].0@ == q);
                            } else {
                                assert(0 <= n < s.len() && s[n].0@ == q);
                            }
                        }
                        assert forall|q: Seq<char>| #[trigger] self@.contains_key(q) implies self@[q] == old(self)@.insert(key@, level)[q] by {
                            let j = choose|j: int| 0 <= j < s.len() && (#[trigger] s[j]).0@ == q;
                            lemma_entries_map_at(s, j);
                            if j != n {
                                lemma_entries_map_at(old_s, j);
                            }
                        }
                    }
                }
            },
        }
    }
}

/// Taking one more entry of a list with distinct keys adds that entry to
/// the map.
proof fn lemma_entries_map_take(s: Seq<(String, Level)>, i: int)
    requires
        keys_distinct(s),
        0 <= i < s.len(),
    ensures
        entries_map(s.take(i + 1)) == entries_map(s.take(i)).insert(s[i].0@, s[i].1),
{
    let a = s.take(i + 1);
    let b = s.take(i);
    assert(keys_distinct(a));
    assert(keys_distinct(b));
    let m = entries_map(b).insert(s[i].0@, s[i].1);
    assert forall|q: Seq<char>| #[trigger] entries_map(a).contains_key(q) implies m.contains_key(q) by {
        let j = choose|j: int| 0 <= j < a.len() && (#[trigger] a[j]).0@ == q;
        if j < i {
            assert(0 <= j < b.len() && b[j].0@ == q);
        }
    }
    assert forall|q: Seq<char>| #[trigger] m.contains_key(q) implies entries_map(a).contains_key(q) by {
        if q == s[i].0@ {
            assert(0 <= i < a.len() && a[i].0@ == q);
        } else {
            let j = choose|j: int| 0 <= j < b.len() && (#[trigger] b[j]).0@ == q;
            assert(0 <= j < a.len() && a[j].0@ == q);
        }
    }
    assert forall|q: Seq<char>| #[trigger] entries_map(a).contains_key(q) implies entries_map(a)[q] == m[q] by {
        let j = choose|j: int| 0 <= j < a.len() && (#[trigger] a[j]).0@ == q;
        lemma_entries_map_at(a, j);
        if j < i {
            lemma_entries_map_at(b, j);
        }
    }
    assert(entries_map(a) =~= m);
}

/// Walking up from a path to its parent keeps the resolved override when the
/// path itself has none.
proof fn lemma_resolve_step(m: Map<Seq<char>, Level>, path: Seq<char>, i: int)
    requires
        !m.contains_key(path),
        i == last_sep(path),
        is_sep_at(path, i),
    ensures
        resolve_override(m, path) == resolve_override(m, path.subrange(0, i)),
{
}

impl ModLevels {
    /// The start of the last `::` in `s`.
    fn rfind_sep(s: &str) -> (r: Option<usize>)
        ensures
            match r {
                Some(i) => i as int == last_sep(s@) && is_sep_at(s@, i as int),
                None => last_sep(s@) == -1,
            },
    {
        let n = s.unicode_len();
        let mut j: usize = n;
        while j > 0
            invariant
                j <= n,
                n == s@.len(),
                last_sep(s@) == last_sep_below(s@, j as int),
            decreases j,
        {
            let i = j - 1;
            if i + 1 < n && s.get_char(i) == ':' && s.get_char(i + 1) == ':' {
                return Some(i);
            }
            j = i;
        }
        None
    }

    /// The override that applies to `module`: its own, else that of its
    /// nearest ancestor in the `::` hierarchy that has one.
    pub fn resolve(&self, module: &str) -> (r: Option<Level>)
        requires
            self.wf(),
        ensures
            r == resolve_override(self@, module@),
    {
        let mut path: &str = module;
        loop
            invariant
                self.wf(),
                resolve_override(self@, path@) == resolve_override(self@, module@),
            decreases path@.len(),
        {
            match self.get(path) {
                Some(l) => {
                    return Some(l);
                },
                None => {},
            }
            match ModLevels::rfind_sep(path) {
                Some(i) => {
                    proof {
                        lemma_resolve_step(self@, path@, i as int);
                    }
                    path = path.substring_char(0, i);
                },
                None => {
                    return None;
                },
            }
        }
    }

    /// The most verbose of `base` and every level in the map, computed from
    /// scratch.
    pub fn most_verbose(&self, base: Level) -> (r: Level)
        requires
            self.wf(),
        ensures
            is_most_verbose(r, base, self@),
    {
        let mut m = base;
        let mut i: usize = 0;
        while i < self.entries.len()
            invariant
                self.wf(),
                i <= self.entries@.len(),
                base.rank() <= m.rank(),
                forall|j: int| 0 <= j < i ==> (#[trigger] self.entries@[j]).1.rank() <= m.rank(),
                m == base || exists|j: int| 0 <= j < i && (#[trigger] self.entries@[j]).1 == m,
            decreases self.entries@.len() - i,
        {
            let l = self.entries[i].1;
            if m.verbosity() < l.verbosity() {
                m = l;
            }
            i = i + 1;
        }
        proof {
            let s = self.entries@;
            assert forall|k: Seq<char>| #[trigger] self@.contains_key(k) implies self@[k].rank() <= m.rank() by {
                let j = choose|j: int| 0 <= j < s.len() && (#[trigger] s[j]).0@ == k;
                lemma_entries_map_at(s, j);
            }
            if m != base {
                let j = choose|j: int| 0 <= j < s.len() && (#[trigger] s[j]).1 == m;
                lemma_entries_map_at(s, j);
                assert(self@.contains_key(s[j].0@) && self@[s[j].0@] == m);
            }
        }
        m
    }

    /// Sets every entry of `other`, replacing earlier levels of the same
    /// modules.
    pub fn merge(&mut self, other: &ModLevels)
        requires
            old(self).wf(),
            other.wf(),
        ensures
            final(self).wf(),
            final(self)@ == old(self)@.union_prefer_right(other@),
    {
        let mut i: usize = 0;
        let ghost s = other.entries@;
        assert(s.take(0) =~= Seq::<(String, Level)>::empty());
        assert(entries_map(s.take(0)) =~= Map::<Seq<char>, Level>::empty());
        assert(old(self)@.union_prefer_right(entries_map(s.take(0))) =~= old(self)@);
        while i < other.entries.len()
            invariant
                self.wf(),
                other.wf(),
                s == other.entries@,
                i <= s.len(),
                self@ == old(self)@.union_prefer_right(entries_map(s.take(i as int))),
            decreases s.len() - i,
        {
            let (k, l) = (&other.entries[i].0, other.entries[i].1);
            self.insert(k.as_str(), l);
            proof {
                lemma_entries_map_take(s, i as int);
                assert(self@ =~= old(self)@.union_prefer_right(entries_map(s.take(i + 1))));
            }
            i = i + 1;
        }
        assert(s.take(s.len() as int) =~= s);
    }
}

} // verus!
