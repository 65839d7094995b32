//! The append-only source cache: an arena of owned string buffers handed out
//! by index. Once inserted an entry is never mutated or removed, so a handle
//! stays valid, and reads through it stay unchanged, for the cache's whole
//! lifetime.

use vstd::prelude::*;

verus! {

/// An append-only arena of source texts. Entries are keyed by insertion
/// order; an index handed out by `insert` names the same text forever.
pub struct SourceCache {
    entries: Vec<String>,
}

impl View for SourceCache {
    type V = Seq<Seq<char>>;

    closed spec fn view(&self) -> Seq<Seq<char>> {
        self.entries.deep_view()
    }
}

impl SourceCache {
    /// An empty cache.
    pub fn new() -> (c: SourceCache)
        ensures
            c@ == Seq::<Seq<char>>::empty(),
    {
        SourceCache { entries: Vec::new() }
    }

    /// How many entries have been inserted.
    pub fn len(&self) -> (n: usize)
        ensures
            n == self@.len(),
    {
        self.entries.len()
    }

    /// Appends `content` and returns its handle. Every entry already present
    /// keeps its index and its text: the old view is a prefix of the new one.
    pub fn insert(&mut self, content: String) -> (i: usize)
        ensures
            i == old(self)@.len(),
            final(self)@ == old(self)@.push(content@),
            old(self)@.is_prefix_of(final(self)@),
    {
        let i = self.entries.len();
        self.entries.push(content);
        proof {
            assert(self@ =~= old(self)@.push(content@));
            assert(old(self)@.is_prefix_of(self@)) by {
                assert(self@.subrange(0, old(self)@.len() as int) =~= old(self)@);
            }
        }
        i
    }

    /// Reads the entry behind a handle.
    pub fn contents(&self, i: usize) -> (r: &String)
        requires
            i < self@.len(),
        ensures
            r@ == self@[i as int],
    {
        &self.entries[i]
    }
}

/// Cache stability: whatever is inserted after an entry, reading that entry
/// yields the same text. Growth only ever extends the view, so any earlier
/// view is a prefix of any later one, and a handle valid in the earlier view
/// names the same entry in the later.
pub proof fn lemma_cache_stability(before: Seq<Seq<char>>, after: Seq<Seq<char>>, i: int)
    requires
        before.is_prefix_of(after),
        0 <= i < before.len(),
    ensures
        after[i] == before[i],
{
    assert(before[i] == before.subrange(0, before.len() as int)[i]);
}

} // verus!
