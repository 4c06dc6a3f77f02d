//! Training again from fresh weights until an attempt succeeds.

use crate::accuracy::lemma_all_match;
use crate::dataset::Dataset;
use crate::model::architecture;
use crate::training::{
    failure_follows, has_empty_split, train, trained_follows, FailedAttempt, Trained,
};
use candle_core::Device;
use vstd::prelude::*;

verus! {

/// What a search for a trained model came to.
pub struct Search {
    /// The attempts that failed, in the order in which they were made.
    pub failed: Vec<FailedAttempt>,
    /// The attempt that succeeded, if one did. It was the last one made.
    pub trained: Option<Trained>,
}

/// A search on `m` that was allowed `max_attempts` attempts: every failed
/// attempt failed as `train` says, and the search ended either with the
/// first attempt that succeeded or when all its attempts had failed.
pub open spec fn search_follows(m: Dataset, max_attempts: usize, s: Search) -> bool {
    &&& forall|i: int| 0 <= i < s.failed@.len() ==> failure_follows(m, #[trigger] s.failed@[i])
    &&& match s.trained {
        Some(t) => trained_follows(m, t) && s.failed@.len() < max_attempts,
        None => s.failed@.len() == max_attempts,
    }
}

/// Trains on `m` from fresh weights, again and again, until an attempt
/// succeeds or `max_attempts` attempts have failed. Whatever makes an attempt
/// fail, the next one is made.
pub fn train_until_success(m: &Dataset, dev: &Device, max_attempts: usize) -> (s: Search)
    ensures
        search_follows(*m, max_attempts, s),
{
    let mut failed: Vec<FailedAttempt> = Vec::new();
    while failed.len() < max_attempts
        invariant
            failed@.len() <= max_attempts,
            forall|i: int| 0 <= i < failed@.len() ==> failure_follows(*m, #[trigger] failed@[i]),
        decreases max_attempts - failed@.len(),
    {
        match train(m, dev) {
            Ok(t) => {
                return Search { failed, trained: Some(t) };
            },
            Err(f) => {
                failed.push(f);
            },
        }
    }
    Search { failed, trained: None }
}

/// A search hands back a model only from an attempt that succeeded: there
/// are test rows, and at the last epoch of that attempt every one of them
/// was given the class of its result. The model has the widths of
/// `architecture`. The dataset was valid, and the attempts that failed
/// before it left room for it within the allowance.
pub proof fn lemma_search_returns_trained_model(m: Dataset, max_attempts: usize, s: Search)
    requires
        search_follows(m, max_attempts, s),
        s.trained is Some,
    ensures
        m.wf(),
        m.test_results@.len() > 0,
        s.failed@.len() + 1 <= max_attempts,
        s.trained->0.reports@.len() >= 1,
        s.trained->0.reports@.last().total == m.test_results@.len(),
        s.trained->0.reports@.last().correct == m.test_results@.len(),
        s.trained->0.reports@.last().predicted@ == m.test_results@,
        s.trained->0.model.widths() == architecture(),
{
    let last = s.trained->0.reports@.last();
    lemma_all_match(last.predicted@, m.test_results@, m.test_results@.len());
}

/// A search on a valid dataset with a split that has no rows never finds a
/// model: every one of its attempts fails in the backend before its first
/// report.
pub proof fn lemma_search_on_empty_split_fails(m: Dataset, max_attempts: usize, s: Search)
    requires
        search_follows(m, max_attempts, s),
        m.wf(),
        has_empty_split(m),
    ensures
        s.trained is None,
        s.failed@.len() == max_attempts,
        forall|i: int|
            0 <= i < s.failed@.len() ==> (#[trigger] s.failed@[i]).error is Backend
                && s.failed@[i].reports@.len() == 0,
{
}

} // verus!
