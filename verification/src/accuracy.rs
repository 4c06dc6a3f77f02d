//! Test accuracy: how many rows were given the class that their result names.

use vstd::prelude::*;

verus! {

/// Among the first `n` rows, the number whose predicted class is the class
/// of its result.
pub open spec fn matches_upto(predicted: Seq<u32>, results: Seq<u32>, n: nat) -> nat
    decreases n,
{
    if n == 0 {
        0
    } else {
        let before = matches_upto(predicted, results, (n - 1) as nat);
        if predicted[n - 1] == results[n - 1] {
            before + 1
        } else {
            before
        }
    }
}

/// The number of rows, among those that have both a predicted class and a
/// result, whose predicted class is the class of its result.
pub open spec fn count_matches(predicted: Seq<u32>, results: Seq<u32>) -> nat {
    if predicted.len() <= results.len() {
        matches_upto(predicted, results, predicted.len())
    } else {
        matches_upto(predicted, results, results.len())
    }
}

/// No more rows match than were looked at.
pub proof fn lemma_matches_bounded(predicted: Seq<u32>, results: Seq<u32>, n: nat)
    ensures
        matches_upto(predicted, results, n) <= n,
    decreases n,
{
    if n > 0 {
        lemma_matches_bounded(predicted, results, (n - 1) as nat);
    }
}

/// Every row matches exactly when the count of matches is the number of
/// rows looked at.
pub proof fn lemma_all_match(predicted: Seq<u32>, results: Seq<u32>, n: nat)
    ensures
        matches_upto(predicted, results, n) == n <==> forall|i: int|
            0 <= i < n ==> predicted[i] == results[i],
    decreases n,
{
    if n > 0 {
        lemma_all_match(predicted, results, (n - 1) as nat);
        lemma_matches_bounded(predicted, results, (n - 1) as nat);
    }
}

/// Counts the rows whose predicted class is the class of its result.
pub fn count_correct(predicted: &Vec<u32>, results: &Vec<u32>) -> (correct: usize)
    ensures
        correct == count_matches(predicted@, results@),
        correct <= predicted@.len(),
        correct <= results@.len(),
{
    let n = if predicted.len() <= results.len() {
        predicted.len()
    } else {
        results.len()
    };
    let mut correct: usize = 0;
    let mut i: usize = 0;
    while i < n
        invariant
            i <= n,
            n <= predicted@.len(),
            n <= results@.len(),
            correct == matches_upto(predicted@, results@, i as nat),
            correct <= i,
        decreases n - i,
    {
        if predicted[i] == results[i] {
            correct += 1;
        }
        i += 1;
    }
    correct
}

} // verus!
