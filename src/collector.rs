//! The append-only collection that gathers the results of every file.
use crate::scan::{result_views, ResultModel, SearchResult};
use vstd::prelude::*;
use vstd::seq_lib::{lemma_flatten_concat, lemma_multiset_commutative, to_multiset_remove};

verus! {

/// Gathers the results of the files of one search. Each file's results are
/// appended in one piece, so they stay together and in line order; the
/// order between files is the order in which their scans finished.
pub struct ResultCollector {
    results: Vec<SearchResult>,
}

impl View for ResultCollector {
    type V = Seq<ResultModel>;

    closed spec fn view(&self) -> Seq<ResultModel> {
        result_views(self.results@)
    }
}

impl ResultCollector {
    /// An empty collection.
    pub fn new() -> (r: ResultCollector)
        ensures
            r@ == Seq::<ResultModel>::empty(),
    {
        let r = ResultCollector { results: Vec::new() };
        assert(r@ =~= Seq::<ResultModel>::empty());
        r
    }

    /// Appends the results of one file.
    pub fn append(&mut self, file_results: Vec<SearchResult>)
        ensures
            final(self)@ == old(self)@ + result_views(file_results@),
    {
        let mut file_results = file_results;
        let ghost before = self.results@;
        let ghost added = file_results@;
        self.results.append(&mut file_results);
        assert(result_views(before + added) =~= result_views(before) + result_views(added));
    }

    /// Everything collected, in the order it was appended.
    pub fn into_results(self) -> (r: Vec<SearchResult>)
        ensures
            result_views(r@) == self@,
    {
        self.results
    }
}

/// What a collection holds after the batches of `batches` were appended in
/// that order.
pub open spec fn collected(batches: Seq<Seq<ResultModel>>) -> Seq<ResultModel> {
    batches.flatten()
}

/// Appending the same per-file batches in any order collects the same
/// results, up to their order: a search's results do not depend on which
/// worker finished first, nor on how many workers there were.
pub proof fn lemma_collection_ignores_completion_order(
    a: Seq<Seq<ResultModel>>,
    b: Seq<Seq<ResultModel>>,
)
    requires
        a.to_multiset() == b.to_multiset(),
    ensures
        collected(a).to_multiset() == collected(b).to_multiset(),
    decreases a.len(),
{
    broadcast use vstd::seq_lib::group_to_multiset_ensures;
    broadcast use vstd::multiset::group_multiset_axioms;

    if a.len() == 0 {
        assert(b.to_multiset().len() == 0);
        assert(b.len() == 0);
        assert(collected(b) =~= Seq::<ResultModel>::empty());
    } else {
        let x = a[0];
        assert(a.to_multiset().count(x) > 0) by {
            assert(a.contains(x));
        }
        assert(b.contains(x));
        let j = choose|j: int| 0 <= j < b.len() && b[j] == x;
        let rest_a = a.remove(0);
        let rest_b = b.remove(j);
        to_multiset_remove(a, 0);
        to_multiset_remove(b, j);
        assert(rest_a =~= a.drop_first());
        lemma_collection_ignores_completion_order(rest_a, rest_b);
        let b0 = b.subrange(0, j);
        let b1 = b.subrange(j + 1, b.len() as int);
        assert(b =~= b0 + seq![x] + b1);
        assert(rest_b =~= b0 + b1);
        lemma_flatten_concat(b0 + seq![x], b1);
        lemma_flatten_concat(b0, seq![x]);
        lemma_flatten_concat(b0, b1);
        seq![x].lemma_flatten_one_element();
        let fb0 = b0.flatten();
        let fb1 = b1.flatten();
        assert(collected(b) =~= fb0 + x + fb1);
        assert(collected(rest_b) =~= fb0 + fb1);
        assert(collected(a) =~= x + collected(rest_a));
        lemma_multiset_commutative(x, collected(rest_a));
        lemma_multiset_commutative(fb0 + x, fb1);
        lemma_multiset_commutative(fb0, x);
        lemma_multiset_commutative(fb0, fb1);
        assert(collected(b).to_multiset() =~= collected(a).to_multiset());
    }
}

} // verus!
