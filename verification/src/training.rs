//! One attempt to train a perceptron: up to `EPOCHS` descent steps on the
//! training rows, each followed by a count of the test rows that the model
//! now gets right.

use crate::accuracy::{count_correct, count_matches};
use crate::backend::{
    backward_step, error_text, log_softmax_rows, new_sgd, tensor_dims, tensor_dtype,
    tensor_from_vec, tensor_on_cpu, tensor_u32_values,
};
use crate::dataset::{Dataset, RESULTS, VOTE_DIM};
use crate::model::{architecture, votes_tensor, MultiLevelPerceptron};
use candle_core::{DType, Device, Error, Tensor};
use candle_nn::loss::nll;
use candle_nn::VarMap;
use vstd::prelude::*;

verus! {

/// The largest number of epochs in one attempt.
pub const EPOCHS: usize = 10;

/// The step width of the descent, as decimal text.
pub const LEARNING_RATE: &'static str = "0.05";

/// What to do once an epoch's test rows are counted.
#[derive(Clone, Copy, Debug, PartialEq, Eq, Structural)]
pub enum Verdict {
    /// Run the next epoch.
    Continue,
    /// Stop: the attempt has succeeded.
    Trained,
    /// Stop: the attempt has failed.
    NotTrainedWellEnough,
}

/// Every test row was given the class of its result, and there is at least
/// one test row.
pub open spec fn is_perfect(correct: int, total: int) -> bool {
    total > 0 && correct == total
}

/// The verdict after epoch number `epoch`, counted from one, in which
/// `correct` of `total` test rows were right.
///
/// An attempt succeeds at once when every test row is right, and only
/// then. Otherwise it goes on until `EPOCHS` epochs are done, and then
/// fails. Where there is no test row at all, no epoch is perfect.
pub open spec fn verdict_after(epoch: int, correct: int, total: int) -> Verdict {
    if is_perfect(correct, total) {
        Verdict::Trained
    } else if epoch < EPOCHS {
        Verdict::Continue
    } else {
        Verdict::NotTrainedWellEnough
    }
}

/// The verdict after epoch number `epoch`, in which `correct` of `total`
/// test rows were right.
pub fn decide(epoch: usize, correct: usize, total: usize) -> (v: Verdict)
    ensures
        v == verdict_after(epoch as int, correct as int, total as int),
{
    if total > 0 && correct == total {
        Verdict::Trained
    } else if epoch < EPOCHS {
        Verdict::Continue
    } else {
        Verdict::NotTrainedWellEnough
    }
}

/// What one epoch came to.
pub struct EpochReport {
    /// Number of the epoch, counted from one.
    pub epoch: usize,
    /// Training loss before the epoch's descent step, a scalar held as a
    /// 32-bit real.
    pub loss: Tensor,
    /// The class predicted for each test row after the step.
    pub predicted: Vec<u32>,
    /// Number of test rows whose predicted class is that of its result.
    pub correct: usize,
    /// Number of test rows.
    pub total: usize,
}

impl EpochReport {
    /// The verdict that follows from this report.
    pub open spec fn verdict(&self) -> Verdict {
        verdict_after(self.epoch as int, self.correct as int, self.total as int)
    }

    /// The report counts its predictions against `results`: one class for
    /// each test row, `correct` of them that of the row's result.
    pub open spec fn scored_on(&self, results: Seq<u32>) -> bool {
        &&& self.total == results.len()
        &&& self.predicted@.len() == results.len()
        &&& forall|i: int| 0 <= i < self.predicted@.len() ==> self.predicted@[i] <= RESULTS
        &&& self.correct == count_matches(self.predicted@, results)
        &&& self.correct <= self.total
        &&& tensor_dims(self.loss).len() == 0
        &&& tensor_dtype(self.loss) == DType::F32
    }
}

/// The reports of one attempt, in order: epochs are numbered from one, each
/// is scored on `results`, there are at most `EPOCHS` of them, and after
/// every epoch but the last the verdict was to continue.
pub open spec fn epochs_follow(reports: Seq<EpochReport>, results: Seq<u32>) -> bool {
    &&& reports.len() <= EPOCHS
    &&& forall|i: int|
        0 <= i < reports.len() ==> (#[trigger] reports[i]).epoch == i + 1 && reports[i].scored_on(
            results,
        )
    &&& forall|i: int|
        0 <= i < reports.len() - 1 ==> (#[trigger] reports[i]).verdict() == Verdict::Continue
}

/// The accuracy that a report stands for, `correct` rows in `total`, is a
/// whole number of rows out of the test rows: zero, one row in `n`, two in
/// `n`, and so on up to all `n` of them.
pub proof fn lemma_accuracy_is_a_step(reports: Seq<EpochReport>, results: Seq<u32>, i: int)
    requires
        epochs_follow(reports, results),
        0 <= i < reports.len(),
    ensures
        reports[i].total == results.len(),
        0 <= reports[i].correct <= results.len(),
        reports[i].correct == count_matches(reports[i].predicted@, results),
{
}

/// An epoch in which every test row was right is the last one of its
/// attempt: no epoch runs after it.
pub proof fn lemma_stops_at_first_perfect_epoch(
    reports: Seq<EpochReport>,
    results: Seq<u32>,
    i: int,
)
    requires
        epochs_follow(reports, results),
        0 <= i < reports.len(),
        is_perfect(reports[i].correct as int, reports[i].total as int),
    ensures
        i == reports.len() - 1,
        reports[i].verdict() == Verdict::Trained,
{
}

/// No attempt runs more than `EPOCHS` epochs. One that is to go on after
/// its last report has not yet run them all, one that fails for want of
/// accuracy has, and one succeeds only with a perfect epoch.
pub proof fn lemma_epochs_bounded(reports: Seq<EpochReport>, results: Seq<u32>)
    requires
        epochs_follow(reports, results),
    ensures
        reports.len() <= EPOCHS,
        reports.len() > 0 ==> {
            &&& reports.last().verdict() == Verdict::Continue ==> reports.len() < EPOCHS
            &&& reports.last().verdict() == Verdict::NotTrainedWellEnough ==> reports.len()
                == EPOCHS
            &&& reports.last().verdict() == Verdict::Trained <==> is_perfect(
                reports.last().correct as int,
                reports.last().total as int,
            )
        },
{
}

/// Why an attempt gave no model.
pub enum TrainError {
    /// The dataset's splits do not fit together.
    InvalidDataset,
    /// The last epoch was not perfect.
    NotTrainedWellEnough,
    /// The backend failed.
    Backend(Error),
}

impl TrainError {
    /// The error in words.
    pub fn message(&self) -> (text: String)
        ensures
            self is InvalidDataset ==> text@ == "The dataset is not valid."@,
            self is NotTrainedWellEnough ==> text@ == "The model is not trained well enough."@,
    {
        match self {
            TrainError::InvalidDataset => "The dataset is not valid.".to_string(),
            TrainError::NotTrainedWellEnough => "The model is not trained well enough.".to_string(),
            TrainError::Backend(e) => error_text(e),
        }
    }
}

/// An attempt that succeeded.
pub struct Trained {
    /// One report for each epoch that ran.
    pub reports: Vec<EpochReport>,
    /// The model after the last of them.
    pub model: MultiLevelPerceptron,
}

/// An attempt that failed.
pub struct FailedAttempt {
    /// One report for each epoch that ran to its end.
    pub reports: Vec<EpochReport>,
    /// Why the attempt stopped.
    pub error: TrainError,
}

/// A split of `m` has no rows. The backend takes no maximum over nothing,
/// so an attempt on such a dataset fails before its first report.
pub open spec fn has_empty_split(m: Dataset) -> bool {
    m.train_results@.len() == 0 || m.test_results@.len() == 0
}

/// A successful attempt on `m` ends with a perfect epoch, the only one
/// whose verdict is `Trained`, and hands back a model of the widths of
/// `architecture`.
pub open spec fn trained_follows(m: Dataset, t: Trained) -> bool {
    &&& m.wf()
    &&& !has_empty_split(m)
    &&& epochs_follow(t.reports@, m.test_results@)
    &&& t.reports@.len() > 0
    &&& t.reports@.last().verdict() == Verdict::Trained
    &&& is_perfect(t.reports@.last().correct as int, t.reports@.last().total as int)
    &&& t.model.widths() == architecture()
}

/// An attempt on a valid dataset that left `reports` stopped for the reason
/// that `error` names: an unsatisfying last epoch, or a failure of the
/// backend before an attempt that was to continue could do so.
pub open spec fn stopped_for(reports: Seq<EpochReport>, error: TrainError) -> bool {
    match error {
        TrainError::InvalidDataset => false,
        TrainError::NotTrainedWellEnough => reports.len() > 0 && reports.last().verdict()
            == Verdict::NotTrainedWellEnough,
        TrainError::Backend(_) => reports.len() == 0 || reports.last().verdict()
            == Verdict::Continue,
    }
}

/// A failed attempt on `m` stopped for the reason it names: an invalid
/// dataset before any epoch, or one of the reasons of `stopped_for`. Where
/// a split has no rows, it is the backend that failed, before any report.
pub open spec fn failure_follows(m: Dataset, f: FailedAttempt) -> bool {
    &&& epochs_follow(f.reports@, m.test_results@)
    &&& if m.wf() {
        &&& stopped_for(f.reports@, f.error)
        &&& has_empty_split(m) ==> f.error is Backend && f.reports@.len() == 0
    } else {
        f.error is InvalidDataset && f.reports@.len() == 0
    }
}

/// Makes a failure of the backend a failure of the attempt.
fn backend<T>(r: Result<T, Error>) -> (out: Result<T, TrainError>)
    ensures
        match r {
            Ok(v) => out == Ok::<T, TrainError>(v),
            Err(e) => out == Err::<T, TrainError>(TrainError::Backend(e)),
        },
{
    match r {
        Ok(v) => Ok(v),
        Err(e) => Err(TrainError::Backend(e)),
    }
}

/// The vector of classes that the rows of a split belong to: a tensor of
/// unsigned integers that holds `results` in their order, kept on `dev`. In
/// the processor's own memory the vector is always made.
fn results_tensor(results: &Vec<u32>, dev: &Device) -> (r: Result<Tensor, Error>)
    ensures
        *dev is Cpu ==> r is Ok,
        r matches Ok(t) ==> {
            &&& tensor_dims(t) == seq![results@.len() as usize]
            &&& tensor_dtype(t) == DType::U32
            &&& tensor_on_cpu(t) == (*dev is Cpu)
            &&& tensor_u32_values(t) == results@
        },
{
    let shape: Vec<usize> = vec![results.len()];
    tensor_from_vec(results.clone(), shape, dev)
}

/// Runs the epochs of one attempt on a valid dataset, adding a report to
/// `reports` for each epoch that ran to its end.
fn run_epochs(m: &Dataset, dev: &Device, reports: &mut Vec<EpochReport>) -> (r: Result<
    MultiLevelPerceptron,
    TrainError,
>)
    requires
        m.wf(),
        old(reports)@.len() == 0,
    ensures
        epochs_follow(final(reports)@, m.test_results@),
        match r {
            Ok(model) => final(reports)@.len() > 0 && final(reports)@.last().verdict()
                == Verdict::Trained && model.widths() == architecture(),
            Err(error) => stopped_for(final(reports)@, error),
        },
        has_empty_split(*m) ==> r is Err && r->Err_0 is Backend && final(reports)@.len() == 0,
{
    let train_results = backend(results_tensor(&m.train_results, dev))?;
    let train_votes = backend(votes_tensor(&m.train_votes, dev))?;
    let varmap = VarMap::new();
    let model = backend(MultiLevelPerceptron::new(&varmap, dev))?;
    let mut sgd = backend(new_sgd(varmap.all_vars(), LEARNING_RATE))?;
    let test_votes = backend(votes_tensor(&m.test_votes, dev))?;
    let total = m.test_results.len();
    let mut epoch: usize = 1;
    loop
        invariant
            m.wf(),
            1 <= epoch <= EPOCHS,
            total == m.test_results@.len(),
            tensor_dims(train_votes) == seq![m.train_results@.len() as usize, VOTE_DIM],
            tensor_dtype(train_votes) == DType::F32,
            model.widths() == architecture(),
            has_empty_split(*m) ==> reports@.len() == 0,
            tensor_dims(test_votes) == seq![total, VOTE_DIM],
            reports@.len() == epoch - 1,
            epochs_follow(reports@, m.test_results@),
            reports@.len() > 0 ==> reports@.last().verdict() == Verdict::Continue,
        decreases EPOCHS - epoch,
    {
        let logits = backend(model.forward(&train_votes))?;
        let log_sm = backend(log_softmax_rows(&logits))?;
        let loss = backend(nll(&log_sm, &train_results))?;
        backend(backward_step(&mut sgd, &loss))?;
        let predicted = backend(model.classify(&test_votes))?;
        let correct = count_correct(&predicted, &m.test_results);
        let verdict = decide(epoch, correct, total);
        reports.push(EpochReport { epoch, loss, predicted, correct, total });
        match verdict {
            Verdict::Continue => {
                epoch += 1;
            },
            Verdict::Trained => {
                return Ok(model);
            },
            Verdict::NotTrainedWellEnough => {
                return Err(TrainError::NotTrainedWellEnough);
            },
        }
    }
}

/// One attempt to train a fresh perceptron on `m`.
///
/// Each epoch takes one descent step on the training rows and then counts
/// the test rows that the model gets right. The attempt succeeds at the
/// first perfect epoch and runs no epoch after it; it fails when the
/// verdict is `NotTrainedWellEnough`, when the backend fails, as it does
/// on a split without rows, or, before any epoch, when the dataset is not
/// valid.
pub fn train(m: &Dataset, dev: &Device) -> (r: Result<Trained, FailedAttempt>)
    ensures
        match r {
            Ok(t) => trained_follows(*m, t),
            Err(f) => failure_follows(*m, f),
        },
        !m.wf() ==> r is Err,
{
    let mut reports: Vec<EpochReport> = Vec::new();
    if !m.is_valid() {
        return Err(FailedAttempt { reports, error: TrainError::InvalidDataset });
    }
    match run_epochs(m, dev, &mut reports) {
        Ok(model) => Ok(Trained { reports, model }),
        Err(error) => Err(FailedAttempt { reports, error }),
    }
}

} // verus!
