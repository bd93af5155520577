//! Novelty memory: the fingerprints published lately.
//!
//! The memory is bounded. It keeps fingerprints in the order in which they
//! came, holds none twice, and forgets the oldest when a new one comes to a
//! full memory.

use crate::text::texts;
use vstd::prelude::*;

verus! {

/// The fingerprints published lately, oldest first.
pub struct NoveltyMemory {
    limit: usize,
    known: Vec<String>,
}

/// What a memory of `limit` places that holds `known` holds once `text` has
/// been published: nothing new where the text is known or the memory has no
/// place at all; else the text comes last, and the oldest leaves a full
/// memory.
pub open spec fn remembered(known: Seq<Seq<char>>, limit: nat, text: Seq<char>) -> Seq<Seq<char>> {
    if limit == 0 || known.contains(text) {
        known
    } else if known.len() >= limit {
        known.drop_first().push(text)
    } else {
        known.push(text)
    }
}

/// A memory within its limit that holds nothing twice stays so.
pub proof fn remembered_stays_sound(known: Seq<Seq<char>>, limit: nat, text: Seq<char>)
    requires
        known.len() <= limit,
        known.no_duplicates(),
    ensures
        remembered(known, limit, text).len() <= limit,
        remembered(known, limit, text).no_duplicates(),
        limit > 0 ==> remembered(known, limit, text).contains(text),
{
    if limit > 0 && !known.contains(text) {
        let after = remembered(known, limit, text);
        assert(after[after.len() - 1] == text);
    }
}

impl View for NoveltyMemory {
    type V = Seq<Seq<char>>;

    closed spec fn view(&self) -> Seq<Seq<char>> {
        texts(self.known@)
    }
}

impl NoveltyMemory {
    /// How many fingerprints the memory can hold.
    pub closed spec fn limit(&self) -> nat {
        self.limit as nat
    }

    /// The memory is within its limit and holds nothing twice.
    pub open spec fn wf(&self) -> bool {
        &&& self@.len() <= self.limit()
        &&& self@.no_duplicates()
    }

    /// An empty memory with room for `limit` fingerprints.
    pub fn new(limit: usize) -> (out: NoveltyMemory)
        ensures
            out.wf(),
            out@ == Seq::<Seq<char>>::empty(),
            out.limit() == limit,
    {
        let out = NoveltyMemory { limit, known: Vec::new() };
        out
    }

    /// How many fingerprints the memory holds.
    pub fn len(&self) -> (n: usize)
        ensures
            n == self@.len(),
    {
        self.known.len()
    }

    /// The room the memory was made with.
    pub fn capacity(&self) -> (n: usize)
        ensures
            n == self.limit(),
    {
        self.limit
    }

    /// Whether `text` is among the remembered fingerprints.
    pub fn contains(&self, text: &String) -> (found: bool)
        ensures
            found == self@.contains(text@),
    {
        let mut k: usize = 0;
        while k < self.known.len()
            invariant
                k <= self.known.len(),
                forall|j: int| 0 <= j < k ==> texts(self.known@)[j] != text@,
            decreases self.known.len() - k,
        {
            if self.known[k] == *text {
                assert(texts(self.known@)[k as int] == text@);
                return true;
            }
            k += 1;
        }
        false
    }

    /// Records that `text` has been published.
    pub fn remember(&mut self, text: String)
        requires
            old(self).wf(),
        ensures
            final(self).wf(),
            final(self).limit() == old(self).limit(),
            final(self)@ == remembered(old(self)@, old(self).limit(), text@),
    {
        proof {
            remembered_stays_sound(self@, self.limit(), text@);
        }
        if self.limit == 0 || self.contains(&text) {
            return ;
        }
        let ghost before = self.known@;
        if self.known.len() >= self.limit {
            self.known.remove(0);
            assert(texts(self.known@) =~= texts(before).drop_first());
        }
        let ghost kept = self.known@;
        self.known.push(text);
        assert(texts(self.known@) =~= texts(kept).push(text@));
    }
}

} // verus!
