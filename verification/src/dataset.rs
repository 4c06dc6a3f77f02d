//! The votes and results that the classifier learns from.
//!
//! A row of votes is `VOTE_DIM` counts; its result is the class that the row
//! belongs to. Rows are kept flat, one after the other, in a single buffer.

use vstd::prelude::*;

verus! {

/// Number of vote counts in one row.
pub const VOTE_DIM: usize = 2;

/// The largest class that a result names; classes count from zero.
pub const RESULTS: usize = 1;

/// A flat buffer of votes and the results of its rows fit together: there
/// are `VOTE_DIM` votes for each result, and every result names a class.
pub open spec fn split_fits(votes: Seq<u32>, results: Seq<u32>) -> bool {
    &&& votes.len() == VOTE_DIM * results.len()
    &&& forall|i: int| 0 <= i < results.len() ==> results[i] <= RESULTS
}

/// The rows to train on and the rows to test with.
#[derive(Clone, Debug)]
pub struct Dataset {
    pub train_votes: Vec<u32>,
    pub train_results: Vec<u32>,
    pub test_votes: Vec<u32>,
    pub test_results: Vec<u32>,
}

impl Dataset {
    /// Both splits fit together.
    pub open spec fn wf(&self) -> bool {
        &&& split_fits(self.train_votes@, self.train_results@)
        &&& split_fits(self.test_votes@, self.test_results@)
    }

    /// Number of rows in the training split, counted on its votes.
    pub fn train_rows(&self) -> (rows: usize)
        ensures
            rows == self.train_votes@.len() / VOTE_DIM as nat,
            self.wf() ==> rows * VOTE_DIM == self.train_votes@.len() && rows
                == self.train_results@.len(),
    {
        self.train_votes.len() / VOTE_DIM
    }

    /// Number of rows in the test split, counted on its votes.
    pub fn test_rows(&self) -> (rows: usize)
        ensures
            rows == self.test_votes@.len() / VOTE_DIM as nat,
            self.wf() ==> rows * VOTE_DIM == self.test_votes@.len() && rows
                == self.test_results@.len(),
    {
        self.test_votes.len() / VOTE_DIM
    }

    /// Whether both splits fit together.
    pub fn is_valid(&self) -> (valid: bool)
        ensures
            valid == self.wf(),
    {
        fits(&self.train_votes, &self.train_results) && fits(&self.test_votes, &self.test_results)
    }
}

/// Whether a buffer of votes and the results of its rows fit together.
pub fn fits(votes: &Vec<u32>, results: &Vec<u32>) -> (ok: bool)
    ensures
        ok == split_fits(votes@, results@),
{
    if votes.len() % VOTE_DIM != 0 || votes.len() / VOTE_DIM != results.len() {
        return false;
    }
    let mut i: usize = 0;
    while i < results.len()
        invariant
            i <= results.len(),
            forall|j: int| 0 <= j < i ==> results@[j] <= RESULTS,
        decreases results.len() - i,
    {
        if results[i] > RESULTS as u32 {
            return false;
        }
        i += 1;
    }
    true
}

/// The eight rows to train on and the three rows to test with.
pub fn build_dataset() -> (d: Dataset)
    ensures
        d.wf(),
        d.train_votes@ == seq![15u32, 10, 10, 15, 5, 12, 30, 20, 16, 12, 13, 25, 6, 14, 31, 21],
        d.train_results@ == seq![1u32, 0, 0, 1, 1, 0, 0, 1],
        d.test_votes@ == seq![13u32, 9, 8, 14, 3, 10],
        d.test_results@ == seq![1u32, 0, 0],
{
    let train_votes: Vec<u32> = vec![15, 10, 10, 15, 5, 12, 30, 20, 16, 12, 13, 25, 6, 14, 31, 21];
    let train_results: Vec<u32> = vec![1, 0, 0, 1, 1, 0, 0, 1];
    let test_votes: Vec<u32> = vec![13, 9, 8, 14, 3, 10];
    let test_results: Vec<u32> = vec![1, 0, 0];
    Dataset { train_votes, train_results, test_votes, test_results }
}

} // verus!
