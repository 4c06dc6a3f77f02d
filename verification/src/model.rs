//! The perceptron: three dense layers with a rectifier after the first two.

use crate::backend::{
    argmax_rows, linear_bias_dims, linear_forward, linear_weight_dims, new_linear, tensor_dims,
    tensor_dtype, tensor_from_vec, tensor_on_cpu,
};
use crate::dataset::{RESULTS, VOTE_DIM};
use candle_core::{DType, Device, Error, Tensor};
use candle_nn::{Linear, VarMap};
use vstd::prelude::*;

verus! {

/// Width of the first hidden layer.
pub const LAYER1_OUT_SIZE: usize = 4;

/// Width of the second hidden layer.
pub const LAYER2_OUT_SIZE: usize = 2;

/// Number of scores that the last layer gives for a row: one for each class.
pub const CLASSES: usize = RESULTS + 1;

/// A dense layer takes `in_dim` features to `out_dim`: its weight is a
/// matrix of `out_dim` rows and `in_dim` columns, its bias a vector of
/// `out_dim` entries.
pub open spec fn is_dense(l: Linear, in_dim: usize, out_dim: usize) -> bool {
    &&& linear_weight_dims(l) == seq![out_dim, in_dim]
    &&& linear_bias_dims(l) == Some(seq![out_dim])
}

/// The widths of a perceptron: `VOTE_DIM` features go in, the hidden layers
/// give `LAYER1_OUT_SIZE` and `LAYER2_OUT_SIZE` features, and `CLASSES`
/// scores come out.
pub open spec fn architecture() -> Seq<usize> {
    seq![VOTE_DIM, LAYER1_OUT_SIZE, LAYER2_OUT_SIZE, CLASSES]
}

/// A classifier of rows of votes. Its layers always have the widths that
/// `new` gives them.
pub struct MultiLevelPerceptron {
    ln1: Linear,
    ln2: Linear,
    ln3: Linear,
}

/// Why a class could not be predicted.
pub enum PredictError {
    /// The input is not one row of `VOTE_DIM` votes.
    NotOneRow,
    /// The backend failed.
    Backend(Error),
}

impl MultiLevelPerceptron {
    #[verifier::type_invariant]
    spec fn layers_fit(&self) -> bool {
        &&& is_dense(self.ln1, VOTE_DIM, LAYER1_OUT_SIZE)
        &&& is_dense(self.ln2, LAYER1_OUT_SIZE, LAYER2_OUT_SIZE)
        &&& is_dense(self.ln3, LAYER2_OUT_SIZE, CLASSES)
    }

    /// The number of features that go into the first layer, followed by
    /// the number that comes out of each layer in turn, where every layer
    /// is dense and takes what the layer before it gives. Empty otherwise.
    pub closed spec fn widths(&self) -> Seq<usize> {
        let w1 = linear_weight_dims(self.ln1);
        let w2 = linear_weight_dims(self.ln2);
        let w3 = linear_weight_dims(self.ln3);
        if w1.len() == 2 && is_dense(self.ln1, w1[1], w1[0]) && is_dense(self.ln2, w1[0], w2[0])
            && is_dense(self.ln3, w2[0], w3[0]) {
            seq![w1[1], w1[0], w2[0], w3[0]]
        } else {
            Seq::empty()
        }
    }

    /// A perceptron with fresh weights, 32-bit reals drawn at random and
    /// kept in `varmap` under the names `ln1`, `ln2` and `ln3`. It takes
    /// `VOTE_DIM` features through hidden layers of `LAYER1_OUT_SIZE` and
    /// `LAYER2_OUT_SIZE` units to `CLASSES` scores.
    pub fn new(varmap: &VarMap, dev: &Device) -> (r: Result<Self, Error>)
        ensures
            r matches Ok(model) ==> model.widths() == architecture(),
    {
        let ln1 = new_linear(VOTE_DIM, LAYER1_OUT_SIZE, varmap, DType::F32, "ln1", dev)?;
        let ln2 = new_linear(LAYER1_OUT_SIZE, LAYER2_OUT_SIZE, varmap, DType::F32, "ln2", dev)?;
        let ln3 = new_linear(LAYER2_OUT_SIZE, CLASSES, varmap, DType::F32, "ln3", dev)?;
        Ok(Self { ln1, ln2, ln3 })
    }

    /// The scores of each row of `xs`: a dense layer, a rectifier, a dense
    /// layer, a rectifier and a last dense layer. For a matrix of rows the
    /// scores form a matrix with as many rows and `CLASSES` columns, of the
    /// element type of `xs`. A matrix with rows and columns whose rows are
    /// not `VOTE_DIM` wide is refused.
    pub fn forward(&self, xs: &Tensor) -> (r: Result<Tensor, Error>)
        ensures
            tensor_dims(*xs).len() == 2 && tensor_dims(*xs)[0] > 0 && tensor_dims(*xs)[1] > 0
                && tensor_dims(*xs)[1] != VOTE_DIM ==> r is Err,
            r matches Ok(logits) ==> tensor_dtype(logits) == tensor_dtype(*xs),
            r matches Ok(logits) ==> (tensor_dims(*xs).len() == 2 ==> tensor_dims(logits) == seq![
                tensor_dims(*xs)[0],
                CLASSES,
            ]),
    {
        proof {
            use_type_invariant(self);
        }
        let xs = linear_forward(&self.ln1, xs)?;
        let xs = xs.relu()?;
        let xs = linear_forward(&self.ln2, &xs)?;
        let xs = xs.relu()?;
        linear_forward(&self.ln3, &xs)
    }

    /// The class with the highest score for each row of a matrix `xs`. A
    /// matrix without rows is refused, and so is one with rows and columns
    /// whose rows are not `VOTE_DIM` wide.
    pub(crate) fn classify(&self, xs: &Tensor) -> (r: Result<Vec<u32>, Error>)
        requires
            tensor_dims(*xs).len() == 2,
        ensures
            tensor_dims(*xs)[0] == 0 ==> r is Err,
            tensor_dims(*xs)[0] > 0 && tensor_dims(*xs)[1] > 0 && tensor_dims(*xs)[1] != VOTE_DIM
                ==> r is Err,
            r matches Ok(classes) ==> {
                &&& classes@.len() == tensor_dims(*xs)[0]
                &&& forall|i: int| 0 <= i < classes@.len() ==> classes@[i] <= RESULTS
            },
    {
        let logits = self.forward(xs)?;
        argmax_rows(&logits)
    }
}

/// The matrix of 32-bit reals whose rows are the rows of `votes`, kept on
/// `dev`. In the processor's own memory the matrix is always made.
pub(crate) fn votes_tensor(votes: &Vec<u32>, dev: &Device) -> (r: Result<Tensor, Error>)
    requires
        votes@.len() % VOTE_DIM as nat == 0,
    ensures
        *dev is Cpu ==> r is Ok,
        r matches Ok(t) ==> {
            &&& tensor_dims(t) == seq![(votes@.len() / VOTE_DIM as nat) as usize, VOTE_DIM]
            &&& tensor_dtype(t) == DType::F32
            &&& tensor_on_cpu(t) == (*dev is Cpu)
        },
{
    let shape: Vec<usize> = vec![votes.len() / VOTE_DIM, VOTE_DIM];
    let counts = tensor_from_vec(votes.clone(), shape, dev)?;
    counts.to_dtype(DType::F32)
}

/// The class that `model` predicts for one row of votes.
///
/// A class comes back only for a row of exactly `VOTE_DIM` votes, and it
/// is one of the classes that results name.
pub fn predict(model: &MultiLevelPerceptron, votes: &Vec<u32>, dev: &Device) -> (r: Result<
    u32,
    PredictError,
>)
    ensures
        votes@.len() != VOTE_DIM <==> r is Err && r->Err_0 is NotOneRow,
        r matches Ok(class) ==> class <= RESULTS,
{
    if votes.len() != VOTE_DIM {
        return Err(PredictError::NotOneRow);
    }
    let row = match votes_tensor(votes, dev) {
        Ok(t) => t,
        Err(e) => {
            return Err(PredictError::Backend(e));
        },
    };
    match model.classify(&row) {
        Ok(classes) => Ok(classes[0]),
        Err(e) => Err(PredictError::Backend(e)),
    }
}

} // verus!
