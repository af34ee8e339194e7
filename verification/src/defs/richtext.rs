//! Rich-text facets: byte-range annotations over the UTF-8 text of a post.

use vstd::prelude::*;

verus! {

/// A facet feature that mentions another account.
#[derive(Debug, Clone)]
pub struct Mention {
    pub did: String,
}

/// A facet feature that links to a URL.
#[derive(Debug, Clone)]
pub struct Link {
    pub uri: String,
}

/// A facet feature that marks a hashtag.
#[derive(Debug, Clone)]
pub struct Tag {
    pub tag: String,
}

/// What a facet marks its range as.
#[derive(Debug, Clone)]
pub enum Feature {
    Mention(Mention),
    Link(Link),
    Tag(Tag),
}

/// The half-open byte range `[byte_start, byte_end)` that a facet covers.
#[derive(Debug, Clone, Copy)]
pub struct Index {
    pub byte_end: usize,
    pub byte_start: usize,
}

/// An annotation of a range of the text of a post.
#[derive(Debug, Clone)]
pub struct Facet {
    pub features: Vec<Feature>,
    pub index: Index,
}

/// The byte offsets at which the facets of `facets` start, in order.
pub open spec fn starts(facets: Seq<Facet>) -> Seq<int> {
    facets.map_values(|f: Facet| f.index.byte_start as int)
}

/// No facet starts before one that stands earlier in the sequence.
pub open spec fn sorted_by_start(facets: Seq<Facet>) -> bool {
    forall|i: int, j: int|
        0 <= i <= j < facets.len() ==> facets[i].index.byte_start <= facets[j].index.byte_start
}

/// Where a facet that starts at `start` goes into the ordered sequence
/// `sorted`: behind every facet that starts at or before `start`.
pub open spec fn insert_position(sorted: Seq<Facet>, start: usize) -> int
    decreases sorted.len(),
{
    if sorted.len() == 0 {
        0
    } else if sorted.last().index.byte_start <= start {
        sorted.len() as int
    } else {
        insert_position(sorted.drop_last(), start)
    }
}

/// `facets` ordered by ascending start offset; facets with equal starts
/// keep the order they came in.
pub open spec fn sort_by_start(facets: Seq<Facet>) -> Seq<Facet>
    decreases facets.len(),
{
    if facets.len() == 0 {
        Seq::empty()
    } else {
        let front = sort_by_start(facets.drop_last());
        front.insert(insert_position(front, facets.last().index.byte_start), facets.last())
    }
}

/// In an ordered sequence, every facet before the insert position starts at
/// or before `start`, and every facet from it on starts later.
pub proof fn lemma_insert_position(sorted: Seq<Facet>, start: usize)
    requires
        sorted_by_start(sorted),
    ensures
        0 <= insert_position(sorted, start) <= sorted.len(),
        forall|i: int|
            0 <= i < insert_position(sorted, start) ==> sorted[i].index.byte_start <= start,
        forall|i: int|
            insert_position(sorted, start) <= i < sorted.len() ==> sorted[i].index.byte_start
                > start,
    decreases sorted.len(),
{
    if sorted.len() > 0 && sorted.last().index.byte_start > start {
        let front = sorted.drop_last();
        assert(sorted_by_start(front)) by {
            assert forall|i: int, j: int| 0 <= i <= j < front.len() implies front[i].index.byte_start
                <= front[j].index.byte_start by {
                assert(front[i] == sorted[i] && front[j] == sorted[j]);
            }
        }
        lemma_insert_position(front, start);
        assert forall|i: int| 0 <= i < insert_position(sorted, start) implies sorted[i].index.byte_start
            <= start by {
            assert(front[i] == sorted[i]);
        }
        assert forall|i: int|
            insert_position(sorted, start) <= i < sorted.len() implies sorted[i].index.byte_start
            > start by {
            if i < front.len() {
                assert(front[i] == sorted[i]);
            }
        }
    } else if sorted.len() > 0 {
        assert forall|i: int| 0 <= i < sorted.len() implies sorted[i].index.byte_start <= start by {
            assert(sorted[i].index.byte_start <= sorted[sorted.len() - 1].index.byte_start);
        }
    }
}

/// Sorting orders the facets and neither drops nor adds one.
pub proof fn lemma_sort_by_start(facets: Seq<Facet>)
    ensures
        sorted_by_start(sort_by_start(facets)),
        sort_by_start(facets).len() == facets.len(),
        sort_by_start(facets).to_multiset() == facets.to_multiset(),
    decreases facets.len(),
{
    broadcast use vstd::seq_lib::group_to_multiset_ensures;

    if facets.len() == 0 {
        assert(facets =~= Seq::empty());
    } else {
        let rest = facets.drop_last();
        let last = facets.last();
        let front = sort_by_start(rest);
        lemma_sort_by_start(rest);
        lemma_insert_position(front, last.index.byte_start);
        let at = insert_position(front, last.index.byte_start);
        let out = front.insert(at, last);
        assert forall|i: int, j: int| 0 <= i <= j < out.len() implies out[i].index.byte_start
            <= out[j].index.byte_start by {
            if i < at && j > at {
                assert(out[i] == front[i] && out[j] == front[j - 1]);
            }
        }
        assert(facets =~= rest.push(last));
        assert(out.remove(at) =~= front);
        assert(out[at] == last);
        assert(out.contains(last));
        vstd::seq_lib::to_multiset_remove(out, at);
        vstd::seq_lib::to_multiset_build(rest, last);
        assert(out.to_multiset().count(last) > 0);
        assert(out.to_multiset() =~= out.to_multiset().remove(last).insert(last));
    }
}

/// Orders `facets` by ascending start offset, keeping the order of facets
/// that start at the same offset.
pub fn sort_facets(facets: Vec<Facet>) -> (sorted: Vec<Facet>)
    ensures
        sorted@ == sort_by_start(facets@),
{
    let ghost all = facets@;
    let mut rest = facets;
    let mut sorted: Vec<Facet> = Vec::new();
    let ghost mut taken: Seq<Facet> = Seq::empty();
    while rest.len() > 0
        invariant
            all == taken + rest@,
            sorted@ == sort_by_start(taken),
        decreases rest.len(),
    {
        let facet = rest.remove(0);
        proof {
            lemma_sort_by_start(taken);
            lemma_insert_position(sorted@, facet.index.byte_start);
        }
        let mut at: usize = sorted.len();
        assert(sorted@.subrange(0, at as int) =~= sorted@);
        while at > 0 && sorted[at - 1].index.byte_start > facet.index.byte_start
            invariant
                at <= sorted.len(),
                sorted_by_start(sorted@),
                insert_position(sorted@, facet.index.byte_start) == insert_position(
                    sorted@.subrange(0, at as int),
                    facet.index.byte_start,
                ),
            decreases at,
        {
            proof {
                let prefix = sorted@.subrange(0, at as int);
                assert(prefix.last() == sorted@[at - 1]);
                assert(prefix.drop_last() =~= sorted@.subrange(0, at - 1));
            }
            at = at - 1;
        }
        proof {
            let prefix = sorted@.subrange(0, at as int);
            if at > 0 {
                assert(prefix.last() == sorted@[at - 1]);
            }
            assert(insert_position(prefix, facet.index.byte_start) == at);
            let grown = taken.push(facet);
            assert(grown.drop_last() =~= taken);
            assert(grown.last() == facet);
            assert(all =~= grown + rest@);
            taken = grown;
        }
        sorted.insert(at, facet);
    }
    proof {
        assert(all =~= taken);
    }
    sorted
}

} // verus!
