use crate::vector::{views, Hypervector};
use embeddenator_retrieval::search::{two_stage_search, SearchConfig};
use embeddenator_retrieval::TernaryInvertedIndex;
use embeddenator_vsa::SparseVec;
use std::collections::HashMap;
use vstd::prelude::*;

verus! {

#[verifier::external_type_specification]
#[verifier::external_body]
pub struct ExTernaryInvertedIndex(TernaryInvertedIndex);

/// The postings of an inverted index: `(dimension, id, positive)` for each
/// dimension of each added vector that the index keeps, with its sign.
pub uninterp spec fn index_postings(index: TernaryInvertedIndex) -> Set<(usize, usize, bool)>;

/// The largest id that has been added to an inverted index, or 0.
pub uninterp spec fn index_max_id(index: TernaryInvertedIndex) -> usize;

/// Each posting list of an inverted index holds each id at most once.
pub uninterp spec fn index_deduplicated(index: TernaryInvertedIndex) -> bool;

/// The most query dimensions that a search takes: it keeps one `i32` score per
/// id, moved by at most two per query dimension.
pub const QUERY_LIMIT: usize = 1000000000;

/// The ids with a posting on some dimension of the query `q`.
pub open spec fn touched_ids(postings: Set<(usize, usize, bool)>, q: (Seq<usize>, Seq<usize>)) -> Set<
    usize,
> {
    Set::new(
        |id: usize|
            exists|p: (usize, usize, bool)|
                #![trigger postings.contains(p)]
                postings.contains(p) && p.1 == id && (q.0.contains(p.0) || q.1.contains(p.0)),
    )
}

/// `n`, capped at `k`.
pub open spec fn capped(n: nat, k: nat) -> nat {
    if n < k {
        n
    } else {
        k
    }
}

/// What the retrieval self-check reports for the field vectors `vs`: with more
/// than one field (and a query within `QUERY_LIMIT`), the number of fields that
/// share an indexed dimension with field 0, the query, capped at `SEARCH_LIMIT`.
pub open spec fn probe_result(vs: Seq<(Seq<usize>, Seq<usize>)>) -> Option<usize> {
    if vs.len() > 1 && vs[0].0.len() + vs[0].1.len() <= QUERY_LIMIT {
        Some(capped(touched_ids(all_postings(vs), vs[0]).len(), SEARCH_LIMIT as nat) as usize)
    } else {
        None
    }
}

/// The number of dimensions of the VSA library's vectors; the index keeps
/// only dimensions below it.
pub const DIMENSIONS: usize = 10000;

/// The postings that adding `v` under `id` records.
pub open spec fn postings_of(id: usize, v: (Seq<usize>, Seq<usize>)) -> Set<(usize, usize, bool)> {
    Set::new(
        |p: (usize, usize, bool)|
            p.1 == id && p.0 < DIMENSIONS && if p.2 {
                v.0.contains(p.0)
            } else {
                v.1.contains(p.0)
            },
    )
}

/// The postings of every vector, each added under its position.
pub open spec fn all_postings(vs: Seq<(Seq<usize>, Seq<usize>)>) -> Set<(usize, usize, bool)> {
    Set::new(|p: (usize, usize, bool)| p.1 < vs.len() && postings_of(p.1, vs[p.1 as int]).contains(p))
}

/// The most results that the retrieval self-check asks for.
pub const SEARCH_LIMIT: usize = 5;

/// Relies on `TernaryInvertedIndex::new`: an index with empty postings.
#[verifier::external_body]
pub(crate) fn index_new() -> (r: TernaryInvertedIndex)
    ensures
        index_postings(r) == Set::<(usize, usize, bool)>::empty(),
        index_max_id(r) == 0,
        index_deduplicated(r),
{
    TernaryInvertedIndex::new()
}

/// Relies on `TernaryInvertedIndex::add`: pushes `id` onto the positive posting
/// of each `pos` dimension and the negative posting of each `neg` dimension
/// below `DIMENSIONS`, and raises the largest id to `id`.
#[verifier::external_body]
pub(crate) fn index_add(index: &mut TernaryInvertedIndex, id: usize, v: &Hypervector)
    ensures
        index_postings(*final(index)) == index_postings(*old(index)).union(postings_of(id, v@)),
        index_max_id(*final(index)) == if index_max_id(*old(index)) < id {
            id
        } else {
            index_max_id(*old(index))
        },
{
    let s = SparseVec { pos: v.pos.clone(), neg: v.neg.clone() };
    index.add(id, &s)
}

/// Relies on `TernaryInvertedIndex::finalize`: sorts and deduplicates each
/// posting, which keeps the set of postings.
#[verifier::external_body]
pub(crate) fn index_finalize(index: &mut TernaryInvertedIndex)
    ensures
        index_postings(*final(index)) == index_postings(*old(index)),
        index_max_id(*final(index)) == index_max_id(*old(index)),
        index_deduplicated(*final(index)),
{
    index.finalize()
}

/// Relies on `two_stage_search` with `SearchConfig::default()`, over the vectors
/// keyed by their position. The candidates are the ids with a posting on a
/// query dimension, each once (at least `k` of them are kept, `candidate_k`
/// being 200 or `k`); all are found among the vectors, and the ranked results
/// are truncated to `k`. Scores are indexed by id up to the largest id.
#[verifier::external_body]
fn search_count(
    query: &Hypervector,
    index: &TernaryInvertedIndex,
    vectors: &Vec<Hypervector>,
    k: usize,
) -> (r: usize)
    requires
        index_max_id(*index) < vectors@.len(),
        forall|p: (usize, usize, bool)| #[trigger]
            index_postings(*index).contains(p) ==> p.1 < vectors@.len(),
        index_deduplicated(*index),
        query@.0.len() + query@.1.len() <= QUERY_LIMIT,
    ensures
        r == capped(touched_ids(index_postings(*index), query@).len(), k as nat),
{
    let q = SparseVec { pos: query.pos.clone(), neg: query.neg.clone() };
    let mut by_id: HashMap<usize, SparseVec> = HashMap::new();
    for (id, v) in vectors.iter().enumerate() {
        by_id.insert(id, SparseVec { pos: v.pos.clone(), neg: v.neg.clone() });
    }
    two_stage_search(&q, index, &by_id, &SearchConfig::default(), k).len()
}

/// Builds the finalised inverted index of the vectors, each under its position.
pub fn build_index(vectors: &Vec<Hypervector>) -> (r: TernaryInvertedIndex)
    ensures
        index_postings(r) == all_postings(views(vectors@)),
        index_max_id(r) == if vectors@.len() == 0 {
            0
        } else {
            (vectors@.len() - 1) as usize
        },
        index_deduplicated(r),
{
    let mut index = index_new();
    let mut id: usize = 0;
    assert(all_postings(views(vectors@.subrange(0, 0))) =~= Set::<(usize, usize, bool)>::empty());
    while id < vectors.len()
        invariant
            id <= vectors@.len(),
            index_postings(index) == all_postings(views(vectors@.subrange(0, id as int))),
            index_max_id(index) == if id == 0 {
                0
            } else {
                (id - 1) as usize
            },
        decreases vectors@.len() - id,
    {
        let ghost before = views(vectors@.subrange(0, id as int));
        let ghost after = views(vectors@.subrange(0, id + 1));
        index_add(&mut index, id, &vectors[id]);
        assert(all_postings(after) =~= all_postings(before).union(postings_of(id, vectors@[id as int]@)))
            by {
            assert forall|p: (usize, usize, bool)| #[trigger] all_postings(after).contains(p)
                <==> all_postings(before).union(postings_of(id, vectors@[id as int]@)).contains(p) by {
                if p.1 < id {
                    assert(after[p.1 as int] == before[p.1 as int]);
                }
                if p.1 == id {
                    assert(after[p.1 as int] == vectors@[id as int]@);
                }
            }
        }
        id = id + 1;
    }
    assert(vectors@.subrange(0, vectors@.len() as int) == vectors@);
    index_finalize(&mut index);
    index
}

/// The retrieval self-check: with more than one field, queries the index of
/// the field vectors with the vector of field 0, asking for at most
/// `SEARCH_LIMIT` results, and returns how many came back; with one field or
/// none, or a query over `QUERY_LIMIT` dimensions, it does not search.
pub fn probe_retrieval(index: &TernaryInvertedIndex, vectors: &Vec<Hypervector>) -> (r: Option<
    usize,
>)
    requires
        index_postings(*index) == all_postings(views(vectors@)),
        vectors@.len() > 0 ==> index_max_id(*index) < vectors@.len(),
        index_deduplicated(*index),
    ensures
        r == probe_result(views(vectors@)),
{
    if vectors.len() <= 1 {
        return None;
    }
    let query = &vectors[0];
    if query.pos.len() > QUERY_LIMIT || query.neg.len() > QUERY_LIMIT - query.pos.len() {
        return None;
    }
    assert(views(vectors@)[0] == query@);
    Some(search_count(query, index, vectors, SEARCH_LIMIT))
}

} // verus!
