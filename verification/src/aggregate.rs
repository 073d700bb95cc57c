//! Merging per-entry outcomes into one summary. The combine operation is
//! associative, commutative up to ordering, and has an identity, so a
//! parallel tree-shaped reduction of immutable partial results needs no
//! lock and may combine in any order.

use vstd::prelude::*;
use vstd::seq_lib::lemma_seq_union_to_multiset_commutative;
use crate::fetch::{DownloadOutcome, DownloadStatus};

verus! {

/// Names of the successfully downloaded entries, in outcome order.
pub open spec fn successes_of(os: Seq<DownloadOutcome>) -> Seq<String>
    decreases os.len(),
{
    if os.len() == 0 {
        Seq::<String>::empty()
    } else {
        let rest = successes_of(os.drop_last());
        if os.last().status is Success {
            rest.push(os.last().name)
        } else {
            rest
        }
    }
}

/// Names of the failed entries, in outcome order.
pub open spec fn failures_of(os: Seq<DownloadOutcome>) -> Seq<String>
    decreases os.len(),
{
    if os.len() == 0 {
        Seq::<String>::empty()
    } else {
        let rest = failures_of(os.drop_last());
        if os.last().status is Failed {
            rest.push(os.last().name)
        } else {
            rest
        }
    }
}

/// Law: every completed run partitions its entries. The successes and the
/// failures of any outcome sequence together count exactly one per entry.
pub proof fn lemma_outcome_partition(os: Seq<DownloadOutcome>)
    ensures
        successes_of(os).len() + failures_of(os).len() == os.len(),
    decreases os.len(),
{
    if os.len() > 0 {
        lemma_outcome_partition(os.drop_last());
    }
}

/// The two disjoint collections a run is summarized into: names of the
/// entries that downloaded, and names of those whose mirrors were all
/// exhausted.
#[derive(Debug)]
pub struct AggregatedResult {
    pub successes: Vec<String>,
    pub failures: Vec<String>,
}

impl AggregatedResult {
    /// The identity element of `combine`: no outcome recorded yet.
    pub fn empty() -> (r: AggregatedResult)
        ensures
            r.successes@ == Seq::<String>::empty(),
            r.failures@ == Seq::<String>::empty(),
    {
        AggregatedResult { successes: Vec::new(), failures: Vec::new() }
    }

    /// Records one entry's outcome on the matching side.
    pub fn push_outcome(&mut self, o: &DownloadOutcome)
        ensures
            o.status is Success ==> (final(self).successes@ == old(self).successes@.push(o.name)
                && final(self).failures@ == old(self).failures@),
            o.status is Failed ==> (final(self).failures@ == old(self).failures@.push(o.name)
                && final(self).successes@ == old(self).successes@),
    {
        match o.status {
            DownloadStatus::Success { .. } => self.successes.push(o.name.clone()),
            DownloadStatus::Failed { .. } => self.failures.push(o.name.clone()),
        }
    }

    /// Merges two partial aggregations by concatenating each side, the
    /// left operand's entries first.
    pub fn combine(self, other: AggregatedResult) -> (r: AggregatedResult)
        ensures
            r.successes@ == self.successes@ + other.successes@,
            r.failures@ == self.failures@ + other.failures@,
    {
        let mut left = self;
        let mut right = other;
        left.successes.append(&mut right.successes);
        left.failures.append(&mut right.failures);
        left
    }

    /// Reduces a completed run's outcomes, in order, into one summary.
    /// The two sides together hold exactly one name per outcome.
    pub fn aggregate(outcomes: &Vec<DownloadOutcome>) -> (r: AggregatedResult)
        ensures
            r.successes@ == successes_of(outcomes@),
            r.failures@ == failures_of(outcomes@),
            r.successes@.len() + r.failures@.len() == outcomes@.len(),
    {
        let mut r = AggregatedResult::empty();
        let mut i: usize = 0;
        while i < outcomes.len()
            invariant
                0 <= i <= outcomes@.len(),
                r.successes@ == successes_of(outcomes@.take(i as int)),
                r.failures@ == failures_of(outcomes@.take(i as int)),
            decreases outcomes@.len() - i,
        {
            proof {
                assert(outcomes@.take(i + 1).drop_last() =~= outcomes@.take(i as int));
                assert(outcomes@.take(i + 1).last() == outcomes@[i as int]);
            }
            r.push_outcome(&outcomes[i]);
            i = i + 1;
        }
        proof {
            assert(outcomes@.take(outcomes@.len() as int) =~= outcomes@);
            lemma_outcome_partition(outcomes@);
        }
        r
    }
}

/// Law: combining is associative. Each side of an aggregation is merged
/// by sequence concatenation, and concatenation associates, so a tree
/// reduction may parenthesize partial results in any way.
pub proof fn lemma_combine_associative(a: Seq<String>, b: Seq<String>, c: Seq<String>)
    ensures
        (a + b) + c == a + (b + c),
{
    assert((a + b) + c =~= a + (b + c));
}

/// Law: combining is commutative up to ordering. The two operand orders
/// yield the same names on each side, so a parallel reduction may combine
/// partial results in any order.
pub proof fn lemma_combine_commutative(a: Seq<String>, b: Seq<String>)
    ensures
        (a + b).to_multiset() == (b + a).to_multiset(),
{
    lemma_seq_union_to_multiset_commutative(a, b);
}

/// Law: the empty aggregation is the identity of combining, on both
/// sides.
pub proof fn lemma_combine_identity(a: Seq<String>)
    ensures
        Seq::<String>::empty() + a == a,
        a + Seq::<String>::empty() == a,
{
    assert(Seq::<String>::empty() + a =~= a);
    assert(a + Seq::<String>::empty() =~= a);
}

} // verus!
