//! The numeric backend: tensors, dense layers and the optimizer come from
//! `candle_core` and `candle_nn`. Nothing in this file is proved. Each item
//! states what the backend's source shows of one of its functions, and the
//! rest of the crate is verified against these statements.
//!
//! What a tensor of real numbers holds is never stated: the crate reasons
//! about shapes and about the integers that come back, not about weights.

use candle_core::{CudaDevice, DType, Device, Error, MetalDevice, Tensor, Var, D};
use candle_nn::{Linear, Module, Optimizer, VarBuilder, VarMap, SGD};
use vstd::prelude::*;

verus! {

/// `candle_core::Tensor`: an array of numbers with a shape.
#[verifier::external_type_specification]
#[verifier::external_body]
pub struct ExTensor(Tensor);

/// `candle_core::Device`: where tensors are kept and computed, the
/// processor's own memory (`Cpu`) or an accelerator.
#[verifier::external_type_specification]
pub struct ExDevice(Device);

/// `candle_core::CudaDevice`: an accelerator that a `Device` may name.
#[verifier::external_type_specification]
#[verifier::external_body]
pub struct ExCudaDevice(CudaDevice);

/// `candle_core::MetalDevice`: an accelerator that a `Device` may name.
#[verifier::external_type_specification]
#[verifier::external_body]
pub struct ExMetalDevice(MetalDevice);

/// `candle_core::Error`: what the backend reports when it fails.
#[verifier::external_type_specification]
#[verifier::external_body]
pub struct ExError(Error);

/// `candle_core::Var`: a tensor whose values an optimizer may change.
#[verifier::external_type_specification]
#[verifier::external_body]
pub struct ExVar(Var);

/// `candle_nn::Linear`: a dense layer, a weight and a bias.
#[verifier::external_type_specification]
#[verifier::external_body]
pub struct ExLinear(Linear);

/// `candle_nn::VarMap`: a store of named variables.
#[verifier::external_type_specification]
#[verifier::external_body]
pub struct ExVarMap(VarMap);

/// `candle_nn::SGD`: gradient descent with a fixed learning rate.
#[verifier::external_type_specification]
#[verifier::external_body]
pub struct ExSgd(SGD);

/// `candle_core::DType`: the types that a tensor's elements can have.
#[verifier::external_type_specification]
pub struct ExDType(DType);

/// The sizes of a tensor's axes, outermost first: what `Tensor::dims`
/// returns. A tensor keeps its shape for as long as it lives.
pub uninterp spec fn tensor_dims(t: Tensor) -> Seq<usize>;

/// The type of a tensor's elements: what `Tensor::dtype` returns.
pub uninterp spec fn tensor_dtype(t: Tensor) -> DType;

/// Whether a tensor is kept in the processor's own memory: what
/// `Tensor::device` returns, asked with `Device::is_cpu`.
pub uninterp spec fn tensor_on_cpu(t: Tensor) -> bool;

/// The elements of a tensor of unsigned 32-bit integers, row by row: what
/// `Tensor::flatten_all` and then `Tensor::to_vec1` return. No function of
/// this crate writes into such a tensor once it is made.
pub uninterp spec fn tensor_u32_values(t: Tensor) -> Seq<u32>;

/// The shape of a dense layer's weight: what `Linear::weight` returns, taken
/// by its `dims`.
pub uninterp spec fn linear_weight_dims(l: Linear) -> Seq<usize>;

/// The shape of a dense layer's bias, `None` for a layer without one: what
/// `Linear::bias` returns, taken by its `dims`.
pub uninterp spec fn linear_bias_dims(l: Linear) -> Option<Seq<usize>>;

/// The number of elements that a buffer must hold to fill a shape of one or
/// two axes.
pub open spec fn shape_size(shape: Seq<usize>) -> int {
    if shape.len() == 1 {
        shape[0] as int
    } else {
        shape[0] * shape[1]
    }
}

/// `Tensor::from_vec` on a buffer of unsigned integers and a shape of one or
/// two axes. The backend does not compare the buffer's length with the
/// shape, so the caller has to. In the processor's own memory the call
/// cannot fail: the buffer becomes the tensor's storage as it is. A tensor
/// that comes back has the shape asked for, holds the buffer's integers in
/// their order, and is kept on the device given.
#[verifier::external_body]
pub(crate) fn tensor_from_vec(data: Vec<u32>, shape: Vec<usize>, dev: &Device) -> (r: Result<
    Tensor,
    Error,
>)
    requires
        shape@.len() == 1 || shape@.len() == 2,
        data@.len() == shape_size(shape@),
    ensures
        *dev is Cpu ==> r is Ok,
        r matches Ok(t) ==> {
            &&& tensor_dims(t) == shape@
            &&& tensor_dtype(t) == DType::U32
            &&& tensor_on_cpu(t) == (*dev is Cpu)
            &&& tensor_u32_values(t) == data@
        },
{
    Tensor::from_vec(data, shape, dev)
}

/// `Tensor::to_dtype`: the converted tensor has the shape of the given one,
/// elements of the type asked for, and stays on its device. The call cannot
/// fail where the elements have that type already, nor where unsigned
/// 32-bit integers in the processor's own memory are made 32-bit reals.
pub assume_specification[ Tensor::to_dtype ](t: &Tensor, dtype: DType) -> (r: Result<Tensor, Error>)
    ensures
        tensor_dtype(*t) == dtype ==> r is Ok,
        tensor_on_cpu(*t) && tensor_dtype(*t) == DType::U32 && dtype == DType::F32 ==> r is Ok,
        r matches Ok(out) ==> {
            &&& tensor_dims(out) == tensor_dims(*t)
            &&& tensor_dtype(out) == dtype
            &&& tensor_on_cpu(out) == tensor_on_cpu(*t)
        },
;

/// `Tensor::relu`: the result has the shape and the element type of the
/// given tensor.
pub assume_specification[ Tensor::relu ](t: &Tensor) -> (r: Result<Tensor, Error>)
    ensures
        r matches Ok(out) ==> {
            &&& tensor_dims(out) == tensor_dims(*t)
            &&& tensor_dtype(out) == tensor_dtype(*t)
        },
;

/// `Tensor::argmax` over the last axis, read back with `Tensor::to_vec1`. For
/// a matrix there is one index for each row, each of them below the number
/// of columns. Which column wins where two hold the same value is left
/// open. The backend refuses a matrix without rows or without columns.
#[verifier::external_body]
pub(crate) fn argmax_rows(t: &Tensor) -> (r: Result<Vec<u32>, Error>)
    ensures
        tensor_dims(*t).len() == 2 && (tensor_dims(*t)[0] == 0 || tensor_dims(*t)[1] == 0)
            ==> r is Err,
        r matches Ok(v) ==> (tensor_dims(*t).len() == 2 ==> {
            &&& v@.len() == tensor_dims(*t)[0]
            &&& forall|i: int| 0 <= i < v@.len() ==> v@[i] < tensor_dims(*t)[1]
        }),
{
    t.argmax(D::Minus1)?.to_vec1()
}

/// `VarMap::new`: an empty store of named variables.
pub assume_specification[ VarMap::new ]() -> (r: VarMap)
;

/// `VarMap::all_vars`: the variables in the store, in no stated order.
pub assume_specification[ VarMap::all_vars ](varmap: &VarMap) -> (r: Vec<Var>)
;

/// `candle_nn::linear` on a builder made with `VarBuilder::from_varmap` for
/// elements of type `dtype` and moved to `name` with `VarBuilder::pp`: a
/// dense layer whose weight has the shape `[out_dim, in_dim]` and whose bias
/// has the shape `[out_dim]`. The values are drawn at random where the store
/// has no variable of that name yet.
#[verifier::external_body]
pub(crate) fn new_linear(
    in_dim: usize,
    out_dim: usize,
    varmap: &VarMap,
    dtype: DType,
    name: &str,
    dev: &Device,
) -> (r: Result<Linear, Error>)
    requires
        0 < in_dim,
        0 < out_dim,
        in_dim * out_dim <= usize::MAX,
    ensures
        r matches Ok(l) ==> {
            &&& linear_weight_dims(l) == seq![out_dim, in_dim]
            &&& linear_bias_dims(l) == Some(seq![out_dim])
        },
{
    candle_nn::linear(in_dim, out_dim, VarBuilder::from_varmap(varmap, dtype, dev).pp(name))
}

/// `Module::forward` of `Linear`. A result that comes back has the element
/// type of the input. On a matrix, where the layer's weight is a matrix of
/// `out` rows and its bias a vector of `out` entries, it has one row for
/// each row of the input and `out` columns. The backend refuses a matrix
/// with rows and columns whose rows are not as wide as the rows of the
/// layer's weight, unless that weight has no rows.
#[verifier::external_body]
pub(crate) fn linear_forward(l: &Linear, x: &Tensor) -> (r: Result<Tensor, Error>)
    ensures
        tensor_dims(*x).len() == 2 && linear_weight_dims(*l).len() == 2 && tensor_dims(*x)[0] > 0
            && tensor_dims(*x)[1] > 0 && linear_weight_dims(*l)[0] > 0 && tensor_dims(*x)[1]
            != linear_weight_dims(*l)[1] ==> r is Err,
        r matches Ok(y) ==> tensor_dtype(y) == tensor_dtype(*x),
        r matches Ok(y) ==> (tensor_dims(*x).len() == 2 && linear_weight_dims(*l).len() == 2
            && linear_bias_dims(*l) == Some(seq![linear_weight_dims(*l)[0]]) ==> tensor_dims(y)
            == seq![tensor_dims(*x)[0], linear_weight_dims(*l)[0]]),
{
    l.forward(x)
}

/// `candle_nn::ops::log_softmax` over the last axis of a tensor of 32-bit
/// reals: the result has the shape and the element type of the given
/// tensor. The backend refuses a matrix without rows or without columns. It
/// has no exponential for whole numbers, so the caller has to hand over
/// reals.
#[verifier::external_body]
pub(crate) fn log_softmax_rows(t: &Tensor) -> (r: Result<Tensor, Error>)
    requires
        tensor_dtype(*t) == DType::F32,
    ensures
        tensor_dims(*t).len() == 2 && (tensor_dims(*t)[0] == 0 || tensor_dims(*t)[1] == 0)
            ==> r is Err,
        r matches Ok(out) ==> {
            &&& tensor_dims(out) == tensor_dims(*t)
            &&& tensor_dtype(out) == tensor_dtype(*t)
        },
{
    candle_nn::ops::log_softmax(t, D::Minus1)
}

/// `candle_nn::loss::nll` on log-probabilities held as 32-bit reals: the
/// loss that comes back is a scalar, a tensor without axes, of the same
/// element type.
pub assume_specification[ candle_nn::loss::nll ](inp: &Tensor, target: &Tensor) -> (r: Result<
    Tensor,
    Error,
>)
    requires
        tensor_dtype(*inp) == DType::F32,
    ensures
        r matches Ok(loss) ==> {
            &&& tensor_dims(loss).len() == 0
            &&& tensor_dtype(loss) == tensor_dtype(*inp)
        },
;

/// `Optimizer::new` of `SGD`, with the learning rate given as decimal text
/// that `str::parse` reads. Nothing is stated of the optimizer.
#[verifier::external_body]
pub(crate) fn new_sgd(vars: Vec<Var>, learning_rate: &str) -> (r: Result<SGD, Error>)
{
    SGD::new(vars, learning_rate.parse().map_err(Error::wrap)?)
}

/// `Optimizer::backward_step` of `SGD` on a loss held as a 32-bit real: one
/// descent step on the variables that the optimizer was made with. They are
/// shared with the layers built from the same store, whose weights change
/// with them; shapes do not.
#[verifier::external_body]
pub(crate) fn backward_step(sgd: &mut SGD, loss: &Tensor) -> (r: Result<(), Error>)
    requires
        tensor_dtype(*loss) == DType::F32,
{
    sgd.backward_step(loss)
}

/// The backend's own wording of an error, as its `Display` writes it.
#[verifier::external_body]
pub(crate) fn error_text(e: &Error) -> (s: String)
{
    format!("{}", e)
}

} // verus!
