//! The registry of scrapers, one per platform name.

use vstd::prelude::*;
use crate::text::str_eq;

verus! {

/// Scrapers keyed by the platform they handle; registering a platform again
/// replaces its scraper.
pub struct ScraperRegistry<S> {
    entries: Vec<(String, S)>,
}

/// Whether the platform names of `entries` are pairwise distinct.
pub open spec fn distinct_keys<S>(entries: Seq<(String, S)>) -> bool {
    forall|i: int, j: int|
        0 <= i < entries.len() && 0 <= j < entries.len() && i != j ==> #[trigger] entries[i].0@
            != #[trigger] entries[j].0@
}

/// Whether some entry is registered under `p`.
pub open spec fn has_key<S>(entries: Seq<(String, S)>, p: Seq<char>) -> bool {
    exists|i: int| 0 <= i < entries.len() && #[trigger] entries[i].0@ == p
}

/// The scraper registered under `p` (meaningful when `has_key`).
pub open spec fn value_of<S>(entries: Seq<(String, S)>, p: Seq<char>) -> S {
    entries[choose|i: int| 0 <= i < entries.len() && #[trigger] entries[i].0@ == p].1
}

/// The platform-to-scraper map held by `entries`.
pub open spec fn entries_map<S>(entries: Seq<(String, S)>) -> Map<Seq<char>, S> {
    Map::new(|p: Seq<char>| has_key(entries, p), |p: Seq<char>| value_of(entries, p))
}

impl<S> View for ScraperRegistry<S> {
    type V = Map<Seq<char>, S>;

    closed spec fn view(&self) -> Map<Seq<char>, S> {
        entries_map(self.entries@)
    }
}

impl<S> ScraperRegistry<S> {
    #[verifier::type_invariant]
    closed spec fn inv(self) -> bool {
        distinct_keys(self.entries@)
    }

    /// An empty registry.
    pub fn new() -> (r: Self)
        ensures
            r@ == Map::<Seq<char>, S>::empty(),
    {
        let r = ScraperRegistry { entries: Vec::new() };
        assert(entries_map(r.entries@) =~= Map::<Seq<char>, S>::empty());
        r
    }

    fn index_of(&self, platform: &str) -> (r: usize)
        ensures
            r <= self.entries@.len(),
            r < self.entries@.len() ==> self.entries@[r as int].0@ == platform@,
            r == self.entries@.len() ==> !has_key(self.entries@, platform@),
    {
        let mut i: usize = 0;
        while i < self.entries.len()
            invariant
                i <= self.entries@.len(),
                forall|k: int| 0 <= k < i ==> #[trigger] self.entries@[k].0@ != platform@,
            decreases self.entries@.len() - i,
        {
            if str_eq(self.entries[i].0.as_str(), platform) {
                return i;
            }
            i = i + 1;
        }
        i
    }

    /// Registers `scraper` for `platform`, replacing any scraper it had.
    pub fn register(&mut self, platform: String, scraper: S)
        ensures
            final(self)@ == old(self)@.insert(platform@, scraper),
    {
        proof {
            use_type_invariant(&*self);
        }
        let i = self.index_of(platform.as_str());
        let ghost old_entries = self.entries@;
        let ghost p = platform@;
        let mut entries: Vec<(String, S)> = Vec::new();
        std::mem::swap(&mut entries, &mut self.entries);
        assert(entries@ == old_entries);
        if i < entries.len() {
            entries.set(i, (platform, scraper));
            assert(entries@ == old_entries.update(i as int, entries@[i as int]));
        } else {
            entries.push((platform, scraper));
        }
        let ghost n = entries@;
        assert(distinct_keys(n));
        assert forall|q: Seq<char>| #![auto] q != p implies (has_key(n, q) == has_key(old_entries, q)
            && (has_key(n, q) ==> value_of(n, q) == value_of(old_entries, q))) by {
            if has_key(old_entries, q) {
                let k = choose|k: int| 0 <= k < old_entries.len() && #[trigger] old_entries[k].0@ == q;
                assert(n[k].0@ == q);
            }
            if has_key(n, q) {
                let k = choose|k: int| 0 <= k < n.len() && #[trigger] n[k].0@ == q;
                assert(old_entries[k].0@ == q);
            }
        }
        let ghost ii: int = if i < old_entries.len() { i as int } else { old_entries.len() as int };
        assert(n[ii].0@ == p);
        assert(has_key(n, p));
        assert(value_of(n, p) == scraper);
        assert(entries_map(n) =~= entries_map(old_entries).insert(p, scraper));
        self.entries = entries;
    }

    /// The scraper registered for `platform`.
    pub fn get(&self, platform: &str) -> (r: Option<&S>)
        ensures
            r is Some <==> self@.contains_key(platform@),
            r is Some ==> *r->0 == self@[platform@],
    {
        proof {
            use_type_invariant(self);
        }
        let i = self.index_of(platform);
        if i < self.entries.len() {
            assert(has_key(self.entries@, platform@));
            Some(&self.entries[i].1)
        } else {
            None
        }
    }

    /// Whether a scraper is registered for `platform`.
    pub fn has_scraper(&self, platform: &str) -> (r: bool)
        ensures
            r == self@.contains_key(platform@),
    {
        let i = self.index_of(platform);
        if i < self.entries.len() {
            assert(has_key(self.entries@, platform@));
        }
        i < self.entries.len()
    }

    /// The registered platform names, each once.
    pub fn platforms(&self) -> (r: Vec<&str>)
        ensures
            forall|p: Seq<char>| self@.contains_key(p) <==> exists|i: int|
                0 <= i < r@.len() && #[trigger] r@[i]@ == p,
            forall|i: int, j: int|
                0 <= i < r@.len() && 0 <= j < r@.len() && i != j ==> #[trigger] r@[i]@
                    != #[trigger] r@[j]@,
    {
        proof {
            use_type_invariant(self);
        }
        let mut r: Vec<&str> = Vec::new();
        let mut i: usize = 0;
        while i < self.entries.len()
            invariant
                i <= self.entries@.len(),
                r@.len() == i,
                distinct_keys(self.entries@),
                forall|k: int| 0 <= k < i ==> #[trigger] r@[k]@ == self.entries@[k].0@,
            decreases self.entries@.len() - i,
        {
            r.push(self.entries[i].0.as_str());
            i = i + 1;
        }
        assert forall|p: Seq<char>| self@.contains_key(p) <==> exists|k: int|
            0 <= k < r@.len() && #[trigger] r@[k]@ == p by {
            if self@.contains_key(p) {
                let k = choose|k: int| 0 <= k < self.entries@.len() && #[trigger] self.entries@[k].0@ == p;
                assert(r@[k]@ == p);
            }
            if exists|k: int| 0 <= k < r@.len() && #[trigger] r@[k]@ == p {
                let k = choose|k: int| 0 <= k < r@.len() && #[trigger] r@[k]@ == p;
                assert(self.entries@[k].0@ == p);
            }
        }
        assert forall|a: int, b: int|
            0 <= a < r@.len() && 0 <= b < r@.len() && a != b implies #[trigger] r@[a]@
                != #[trigger] r@[b]@ by {
            assert(self.entries@[a].0@ != self.entries@[b].0@);
        }
        r
    }
}

impl<S> Default for ScraperRegistry<S> {
    fn default() -> (r: Self)
        ensures
            r@ == Map::<Seq<char>, S>::empty(),
    {
        Self::new()
    }
}

/// After registering a scraper for a platform, that platform yields it, and
/// every other platform yields what it yielded before.
pub proof fn lemma_register_then_get<S>(before: Map<Seq<char>, S>, p: Seq<char>, s: S, q: Seq<char>)
    ensures
        before.insert(p, s).contains_key(p),
        before.insert(p, s)[p] == s,
        q != p ==> (before.insert(p, s).contains_key(q) == before.contains_key(q)),
        q != p && before.contains_key(q) ==> before.insert(p, s)[q] == before[q],
{
}

} // verus!
