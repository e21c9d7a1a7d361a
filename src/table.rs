use vstd::prelude::*;
use vstd::string::StringExecFns;
use crate::entry::JoshutoMimetypeEntry;

verus! {

/// A mapping from a string key (a MIME type or an extension) to the ordered list
/// of candidate entries for that key. Keys are unique; matching is exact and
/// case-sensitive.
#[derive(Debug)]
pub struct EntryMap {
    pairs: Vec<(String, Vec<JoshutoMimetypeEntry>)>,
}

/// No two pairs carry the same key.
pub open spec fn keys_unique(ps: Seq<(String, Vec<JoshutoMimetypeEntry>)>) -> bool {
    forall|i: int, j: int|
        0 <= i < ps.len() && 0 <= j < ps.len() && i != j ==> #[trigger] ps[i].0@ != #[trigger] ps[j].0@
}

/// Some pair of `ps` carries the key `k`.
pub open spec fn has_key(ps: Seq<(String, Vec<JoshutoMimetypeEntry>)>, k: Seq<char>) -> bool {
    exists|i: int| 0 <= i < ps.len() && #[trigger] ps[i].0@ == k
}

/// The map that a list of pairs with unique keys stands for.
pub open spec fn pairs_map(ps: Seq<(String, Vec<JoshutoMimetypeEntry>)>) -> Map<Seq<char>, Seq<JoshutoMimetypeEntry>> {
    Map::new(
        |k: Seq<char>| has_key(ps, k),
        |k: Seq<char>| ps[choose|i: int| 0 <= i < ps.len() && #[trigger] ps[i].0@ == k].1@,
    )
}

/// Every entry bound in `m` names a non-empty program.
pub open spec fn programs_nonempty(m: Map<Seq<char>, Seq<JoshutoMimetypeEntry>>) -> bool {
    forall|k: Seq<char>, i: int|
        m.contains_key(k) && 0 <= i < m[k].len() ==> #[trigger] m[k][i].program@.len() > 0
}

impl View for EntryMap {
    type V = Map<Seq<char>, Seq<JoshutoMimetypeEntry>>;

    closed spec fn view(&self) -> Map<Seq<char>, Seq<JoshutoMimetypeEntry>> {
        pairs_map(self.pairs@)
    }
}

proof fn lemma_pairs_map_at(ps: Seq<(String, Vec<JoshutoMimetypeEntry>)>, i: int)
    requires
        keys_unique(ps),
        0 <= i < ps.len(),
    ensures
        pairs_map(ps).contains_key(ps[i].0@),
        pairs_map(ps)[ps[i].0@] == ps[i].1@,
{
    let k = ps[i].0@;
    assert(has_key(ps, k));
    let j = choose|j: int| 0 <= j < ps.len() && #[trigger] ps[j].0@ == k;
    assert(j == i);
}

/// The position of the pair with key `k`, if there is one.
fn find_key(pairs: &Vec<(String, Vec<JoshutoMimetypeEntry>)>, k: &String) -> (r: Option<usize>)
    ensures
        match r {
            Some(i) => i < pairs@.len() && pairs@[i as int].0@ == k@,
            None => !has_key(pairs@, k@),
        },
{
    let mut i: usize = 0;
    while i < pairs.len()
        invariant
            i <= pairs@.len(),
            forall|j: int| 0 <= j < i ==> #[trigger] pairs@[j].0@ != k@,
        decreases pairs@.len() - i,
    {
        if pairs[i].0 == *k {
            return Some(i);
        }
        i = i + 1;
    }
    None
}

/// The pairs with `key` bound to `entries`: the pair of that key is replaced
/// where there is one, else a pair is added at the end.
fn bind_pairs(
    pairs: Vec<(String, Vec<JoshutoMimetypeEntry>)>,
    key: String,
    entries: Vec<JoshutoMimetypeEntry>,
) -> (r: Vec<(String, Vec<JoshutoMimetypeEntry>)>)
    requires
        keys_unique(pairs@),
    ensures
        keys_unique(r@),
        pairs_map(r@) == pairs_map(pairs@).insert(key@, entries@),
{
    let ghost old_pairs = pairs@;
    let ghost k = key@;
    let ghost e = entries@;
    let mut pairs = pairs;
    match find_key(&pairs, &key) {
        Some(i) => {
            pairs.set(i, (key, entries));
            proof {
                let ps = pairs@;
                assert(ps =~= old_pairs.update(i as int, ps[i as int]));
                assert forall|a: int, b: int|
                    0 <= a < ps.len() && 0 <= b < ps.len() && a != b implies
                    #[trigger] ps[a].0@ != #[trigger] ps[b].0@ by {
                    if a != i && b != i {
                        assert(old_pairs[a].0@ != old_pairs[b].0@);
                    }
                }
                assert forall|kk: Seq<char>| #[trigger] has_key(ps, kk) == has_key(old_pairs, kk) by {
                    if has_key(ps, kk) {
                        let j = choose|j: int| 0 <= j < ps.len() && #[trigger] ps[j].0@ == kk;
                        assert(old_pairs[j].0@ == kk);
                    }
                    if has_key(old_pairs, kk) {
                        let j = choose|j: int| 0 <= j < old_pairs.len() && #[trigger] old_pairs[j].0@ == kk;
                        assert(ps[j].0@ == kk);
                    }
                }
                assert forall|kk: Seq<char>| #[trigger] pairs_map(ps).contains_key(kk) && kk != k implies
                    pairs_map(ps)[kk] == pairs_map(old_pairs)[kk] by {
                    let j = choose|j: int| 0 <= j < ps.len() && #[trigger] ps[j].0@ == kk;
                    lemma_pairs_map_at(ps, j);
                    lemma_pairs_map_at(old_pairs, j);
                }
                lemma_pairs_map_at(ps, i as int);
                lemma_pairs_map_at(old_pairs, i as int);
                assert(pairs_map(ps) =~= pairs_map(old_pairs).insert(k, e));
            }
        },
        None => {
            pairs.push((key, entries));
            proof {
                let ps = pairs@;
                let n = old_pairs.len() as int;
                assert(ps =~= old_pairs.push(ps[n]));
                assert forall|a: int, b: int|
                    0 <= a < ps.len() && 0 <= b < ps.len() && a != b implies
                    #[trigger] ps[a].0@ != #[trigger] ps[b].0@ by {
                    if a != n && b != n {
                        assert(old_pairs[a].0@ != old_pairs[b].0@);
                    } else if a == n {
                        assert(old_pairs[b].0@ != k);
                    } else {
                        assert(old_pairs[a].0@ != k);
                    }
                }
                assert forall|kk: Seq<char>| #[trigger] has_key(ps, kk) == (has_key(old_pairs, kk) || kk == k) by {
                    if has_key(ps, kk) && kk != k {
                        let j = choose|j: int| 0 <= j < ps.len() && #[trigger] ps[j].0@ == kk;
                        assert(old_pairs[j].0@ == kk);
                    }
                    if has_key(old_pairs, kk) {
                        let j = choose|j: int| 0 <= j < old_pairs.len() && #[trigger] old_pairs[j].0@ == kk;
                        assert(ps[j].0@ == kk);
                    }
                    if kk == k {
                        assert(ps[n].0@ == kk);
                    }
                }
                assert forall|kk: Seq<char>| #[trigger] pairs_map(ps).contains_key(kk) && kk != k implies
                    pairs_map(ps)[kk] == pairs_map(old_pairs)[kk] by {
                    let j = choose|j: int| 0 <= j < old_pairs.len() && #[trigger] old_pairs[j].0@ == kk;
                    lemma_pairs_map_at(ps, j);
                    lemma_pairs_map_at(old_pairs, j);
                }
                lemma_pairs_map_at(ps, n);
                assert(pairs_map(ps) =~= pairs_map(old_pairs).insert(k, e));
            }
        },
    }
    pairs
}

impl EntryMap {
    #[verifier::type_invariant]
    spec fn inv(&self) -> bool {
        keys_unique(self.pairs@)
    }

    /// A mapping with no keys.
    pub fn new() -> (r: Self)
        ensures
            r@ == Map::<Seq<char>, Seq<JoshutoMimetypeEntry>>::empty(),
    {
        let r = EntryMap { pairs: Vec::new() };
        assert(r@ =~= Map::<Seq<char>, Seq<JoshutoMimetypeEntry>>::empty());
        r
    }

    /// Binds `key` to `entries`, replacing any list the key had before, so that
    /// a key given twice keeps the list given last.
    pub fn insert(&mut self, key: String, entries: Vec<JoshutoMimetypeEntry>)
        ensures
            final(self)@ == old(self)@.insert(key@, entries@),
    {
        let mut taken = EntryMap::new();
        core::mem::swap(self, &mut taken);
        proof {
            use_type_invariant(&taken);
        }
        let EntryMap { pairs } = taken;
        *self = EntryMap { pairs: bind_pairs(pairs, key, entries) };
    }

    /// The entries bound to `key`, or `None` when the key is absent. A key bound
    /// to an empty list gives `Some` of an empty slice.
    pub fn get(&self, key: &str) -> (r: Option<&[JoshutoMimetypeEntry]>)
        ensures
            match r {
                Some(v) => self@.contains_key(key@) && v@ == self@[key@],
                None => !self@.contains_key(key@),
            },
    {
        proof {
            use_type_invariant(self);
        }
        let k = String::from_str(key);
        match find_key(&self.pairs, &k) {
            Some(i) => {
                proof {
                    lemma_pairs_map_at(self.pairs@, i as int);
                }
                Some(self.pairs[i].1.as_slice())
            },
            None => None,
        }
    }

    /// Whether every entry of every key names a non-empty program.
    pub fn all_programs_nonempty(&self) -> (r: bool)
        ensures
            r == programs_nonempty(self@),
    {
        proof {
            use_type_invariant(self);
        }
        let ghost ps = self.pairs@;
        let mut i: usize = 0;
        while i < self.pairs.len()
            invariant
                ps == self.pairs@,
                keys_unique(ps),
                i <= ps.len(),
                forall|a: int, b: int|
                    0 <= a < i && 0 <= b < ps[a].1@.len() ==> #[trigger] ps[a].1@[b].program@.len() > 0,
            decreases ps.len() - i,
        {
            let entries = &self.pairs[i].1;
            let mut j: usize = 0;
            while j < entries.len()
                invariant
                    ps == self.pairs@,
                    keys_unique(ps),
                    i < ps.len(),
                    entries@ == ps[i as int].1@,
                    j <= entries@.len(),
                    forall|b: int| 0 <= b < j ==> #[trigger] entries@[b].program@.len() > 0,
                decreases entries@.len() - j,
            {
                if entries[j].program.as_str().is_empty() {
                    proof {
                        lemma_pairs_map_at(ps, i as int);
                        let k = ps[i as int].0@;
                        assert(self@[k][j as int].program@.len() == 0);
                    }
                    return false;
                }
                j = j + 1;
            }
            i = i + 1;
        }
        proof {
            assert forall|k: Seq<char>, b: int|
                self@.contains_key(k) && 0 <= b < self@[k].len() implies
                #[trigger] self@[k][b].program@.len() > 0 by {
                let a = choose|a: int| 0 <= a < ps.len() && #[trigger] ps[a].0@ == k;
                lemma_pairs_map_at(ps, a);
            }
        }
        true
    }
}

} // verus!
