//! The layers and elementwise operations of the tensor engine.  Each item
//! here states what the engine does to the extent of a tensor, and to its
//! elements where that can be said exactly; none of it is proved.
//!
//! Running out of memory is outside these contracts.

use crate::double::Double;
use crate::scalar::as_number;
use crate::scalar::numbers;
use crate::scalar::Scalar;
use crate::scalar::CANONICAL_NAN_BITS;
use crate::scalar::NEGATIVE_INFINITY_BITS;
use crate::scalar::NEGATIVE_ZERO_BITS;
use crate::scalar::ONE_BITS;
use crate::scalar::POSITIVE_INFINITY_BITS;
use crate::tensor::indexable3;
use crate::tensor::tensor2_bits;
use crate::tensor::tensor2_extent;
use crate::tensor::tensor3_bits;
use crate::tensor::tensor3_extent;
use crate::tensor::Tensor2;
use crate::tensor::Tensor3;
use burn::backend::NdArray;
use burn::record::DoublePrecisionSettings;
use burn::record::PrecisionSettings;
use burn::tensor::backend::Backend;
use vstd::prelude::*;

verus! {

/// An affine layer of the engine: a weight matrix and a bias vector.
#[derive(Debug)]
#[verifier::external_body]
pub struct Linear {
    inner: burn::nn::Linear<NdArray>,
}

/// Extent of the weight matrix of an affine layer: the width it accepts,
/// then the width it produces.
pub uninterp spec fn linear_extent(layer: Linear) -> (nat, nat);

/// Elements of the weight matrix of an affine layer as binary32 bit
/// patterns, row by row.
pub uninterp spec fn linear_weight(layer: Linear) -> Seq<u32>;

/// Elements of the bias vector of an affine layer as binary32 bit patterns.
pub uninterp spec fn linear_bias(layer: Linear) -> Seq<u32>;

/// A bias-free convolution of the engine along one axis.
#[derive(Debug)]
#[verifier::external_body]
pub struct Conv1d {
    inner: burn::nn::conv::Conv1d<NdArray>,
}

/// Extent of the weight tensor of a convolution: the channels it produces,
/// the channels it accepts, and the width of its window.
pub uninterp spec fn conv1d_extent(layer: Conv1d) -> (nat, nat, nat);

/// Elements of the weight tensor of a convolution as binary32 bit patterns,
/// the innermost axis running fastest.
pub uninterp spec fn conv1d_weight(layer: Conv1d) -> Seq<u32>;

/// The dropout layer of the engine, `burn::nn::Dropout`, carried as it is.
#[verifier::external_type_specification]
#[verifier::external_body]
pub struct ExDropout(burn::nn::Dropout);

/// The rectifier of the engine, `burn::nn::Relu`, carried as it is.
#[verifier::external_type_specification]
#[verifier::external_body]
pub struct ExRelu(burn::nn::Relu);

/// What the rectifier makes of one element: a number below zero becomes
/// positive zero, everything else (negative zero and NaN included) stays.
pub open spec fn rectified(bits: u32) -> u32 {
    if NEGATIVE_ZERO_BITS < bits <= NEGATIVE_INFINITY_BITS {
        0
    } else {
        bits
    }
}

/// The product of two numbers, rounded to the nearest binary32 number as
/// IEEE 754 prescribes.
pub uninterp spec fn binary32_product(a: u32, b: u32) -> u32;

/// The sum of two numbers, rounded to the nearest binary32 number as IEEE 754
/// prescribes.
pub uninterp spec fn binary32_sum(a: u32, b: u32) -> u32;

/// The sum of a number and a whole number, the whole number first rounded
/// to binary32 and the sum rounded as IEEE 754 prescribes.
pub uninterp spec fn binary32_plus_whole(a: u32, n: i32) -> u32;

/// One divided by a number, rounded to the nearest binary32 number as
/// IEEE 754 prescribes.
pub uninterp spec fn binary32_reciprocal(a: u32) -> u32;

/// The product of the numbers that two patterns stand for.
pub open spec fn number_product(a: u32, b: u32) -> u32 {
    as_number(binary32_product(as_number(a), as_number(b)))
}

/// The sum of the numbers that two patterns stand for.
pub open spec fn number_sum(a: u32, b: u32) -> u32 {
    as_number(binary32_sum(as_number(a), as_number(b)))
}

/// The sum of the number that a pattern stands for and a whole number.
pub open spec fn number_plus(a: u32, n: i32) -> u32 {
    as_number(binary32_plus_whole(as_number(a), n))
}

/// One divided by the number that a pattern stands for.
pub open spec fn number_reciprocal(a: u32) -> u32 {
    as_number(binary32_reciprocal(as_number(a)))
}

/// The number that a pattern stands for with its sign switched: the sign
/// bit flipped, and a NaN left a NaN.
pub open spec fn number_negated(a: u32) -> u32 {
    if (Scalar { bits: a }).is_nan() {
        CANONICAL_NAN_BITS
    } else if a >= NEGATIVE_ZERO_BITS {
        (a - NEGATIVE_ZERO_BITS) as u32
    } else {
        (a + NEGATIVE_ZERO_BITS) as u32
    }
}

/// A number of at least one, positive infinity included.
pub open spec fn is_at_least_one(bits: u32) -> bool {
    ONE_BITS <= bits <= POSITIVE_INFINITY_BITS
}

/// What holds of `raised`, the sum of `element` and a whole number of at
/// least one: it is a NaN when `element` is one, and a number of at least one
/// when `element` is a number that is not below zero.
pub open spec fn sum_at_least_one(element: u32, raised: u32) -> bool {
    &&& (Scalar { bits: element }).is_nan() ==> (Scalar { bits: raised }).is_nan()
    &&& !(Scalar { bits: element }).is_nan() && !(Scalar { bits: element }).is_negative()
        ==> is_at_least_one(raised)
}

/// What holds of `inverse`, one divided by `element`: it is a NaN when
/// `element` is one, and a number from zero to one when `element` is a number
/// of at least one.
pub open spec fn reciprocal_in_unit_interval(element: u32, inverse: u32) -> bool {
    &&& (Scalar { bits: element }).is_nan() ==> (Scalar { bits: inverse }).is_nan()
    &&& is_at_least_one(element) ==> (Scalar { bits: inverse }).is_probability()
}

/// `LinearConfig::init`, with a bias: an affine layer from `d_input` to
/// `d_output` columns, its weights and biases drawn at random when they are
/// first read.  The sizes are such that the engine can index the weights.
#[verifier::external_body]
pub(crate) fn linear_init(d_input: usize, d_output: usize) -> (r: Linear)
    requires
        d_input >= 1,
        d_output >= 1,
        d_input * d_output <= isize::MAX,
    ensures
        linear_extent(r) == (d_input as nat, d_output as nat),
        linear_weight(r).len() == d_input * d_output,
        linear_bias(r).len() == d_output,
{
    Linear { inner: burn::nn::LinearConfig::new(d_input, d_output).init(&Default::default()) }
}

/// `Param::from_data` on `Data::new`, for both fields of a `Linear`: the
/// affine layer with the given weights, row by row, and the given biases.  The engine refuses a count of values other than what the
/// extents ask for.
#[verifier::external_body]
pub(crate) fn linear_from_bits(d_input: usize, d_output: usize, weight: Vec<u32>, bias: Vec<u32>)
    -> (r: Linear)
    requires
        d_input >= 1,
        d_output >= 1,
        d_input * d_output <= isize::MAX,
        weight@.len() == d_input * d_output,
        bias@.len() == d_output,
    ensures
        linear_extent(r) == (d_input as nat, d_output as nat),
        linear_weight(r) == weight@,
        linear_bias(r) == bias@,
{
    let weight: Vec<<NdArray as Backend>::FloatElem> =
        weight.into_iter().map(<NdArray as Backend>::FloatElem::from_bits).collect();
    let weight = burn::tensor::Data::new(weight, burn::tensor::Shape::new([d_input, d_output]));
    let bias: Vec<<NdArray as Backend>::FloatElem> =
        bias.into_iter().map(<NdArray as Backend>::FloatElem::from_bits).collect();
    let bias = burn::tensor::Data::new(bias, burn::tensor::Shape::new([d_output]));
    let device = Default::default();
    let weight = burn::module::Param::from_data(weight, &device);
    let bias = Some(burn::module::Param::from_data(bias, &device));
    Linear { inner: burn::nn::Linear { weight, bias } }
}

/// `Param::val` and `Tensor::to_data` on the weight of a `Linear`: its
/// elements, row by row.
#[verifier::external_body]
pub(crate) fn linear_weight_bits(layer: &Linear) -> (r: Vec<u32>)
    ensures
        r@ == linear_weight(*layer),
{
    layer.inner.weight.val().to_data().value.into_iter().map(|v| v.to_bits()).collect()
}

/// `Param::val` and `Tensor::to_data` on the bias of a `Linear`: its
/// elements.
#[verifier::external_body]
pub(crate) fn linear_bias_bits(layer: &Linear) -> (r: Vec<u32>)
    ensures
        r@ == linear_bias(*layer),
{
    let bias = layer.inner.bias.as_ref().unwrap();
    bias.val().to_data().value.into_iter().map(|v| v.to_bits()).collect()
}

/// `Linear::forward`: every row times the weight matrix, plus the bias.  The
/// engine refuses rows of another width than the layer accepts and a result
/// that it cannot index, and divides by the number of elements of either
/// factor.
#[verifier::external_body]
pub(crate) fn linear_forward(layer: &Linear, x: Tensor2) -> (r: Tensor2)
    requires
        tensor2_extent(x).0 >= 1,
        tensor2_extent(x).1 == linear_extent(*layer).0,
        linear_extent(*layer).0 >= 1,
        linear_extent(*layer).1 >= 1,
        tensor2_extent(x).0 * linear_extent(*layer).1 <= isize::MAX,
    ensures
        tensor2_extent(r) == (tensor2_extent(x).0, linear_extent(*layer).1),
        tensor2_bits(r).len() == tensor2_extent(x).0 * linear_extent(*layer).1,
{
    Tensor2 { inner: layer.inner.forward(x.inner) }
}

/// `DropoutConfig::init`: a dropout layer with the given probability.
#[verifier::external_body]
pub(crate) fn dropout_init(probability: Double) -> (r: burn::nn::Dropout)
{
    let p = <DoublePrecisionSettings as PrecisionSettings>::FloatElem::from_bits(probability.bits);
    burn::nn::DropoutConfig::new(p).init()
}

/// `Dropout::forward`: on this engine, which records no gradients, the
/// input itself.
#[verifier::external_body]
pub(crate) fn dropout_forward(layer: &burn::nn::Dropout, x: Tensor2) -> (r: Tensor2)
    ensures
        tensor2_extent(r) == tensor2_extent(x),
        tensor2_bits(r) == tensor2_bits(x),
{
    Tensor2 { inner: layer.forward(x.inner) }
}

/// `Relu::new`: the rectifier, which holds no state.
#[verifier::external_body]
pub(crate) fn relu_new() -> (r: burn::nn::Relu)
{
    burn::nn::Relu::new()
}

/// `Relu::forward` on a rank-two tensor: each element rectified.
#[verifier::external_body]
pub(crate) fn relu_forward2(layer: &burn::nn::Relu, x: Tensor2) -> (r: Tensor2)
    ensures
        tensor2_extent(r) == tensor2_extent(x),
        tensor2_bits(r) == tensor2_bits(x).map_values(|b: u32| rectified(b)),
{
    Tensor2 { inner: layer.forward(x.inner) }
}

/// `Relu::forward` on a rank-three tensor: each element rectified.
#[verifier::external_body]
pub(crate) fn relu_forward3(layer: &burn::nn::Relu, x: Tensor3) -> (r: Tensor3)
    ensures
        tensor3_extent(r) == tensor3_extent(x),
        tensor3_bits(r) == tensor3_bits(x).map_values(|b: u32| rectified(b)),
{
    Tensor3 { inner: layer.forward(x.inner) }
}

/// `Tensor::add`: the elementwise sum of two tensors of one extent, each
/// element the sum of the two numbers at its place.
#[verifier::external_body]
pub(crate) fn tensor_add(x: Tensor2, y: Tensor2) -> (r: Tensor2)
    requires
        tensor2_extent(x) == tensor2_extent(y),
    ensures
        tensor2_extent(r) == tensor2_extent(x),
        tensor2_bits(r).len() == tensor2_bits(y).len(),
        numbers(tensor2_bits(r)) == Seq::new(
            tensor2_bits(x).len(),
            |i: int|
                as_number(
                    binary32_sum(as_number(tensor2_bits(x)[i]), as_number(tensor2_bits(y)[i])),
                ),
        ),
{
    Tensor2 { inner: x.inner.add(y.inner) }
}

/// `Tensor::mul_scalar`: each element times `factor`.
#[verifier::external_body]
pub(crate) fn tensor_mul_scalar(x: Tensor2, factor: Scalar) -> (r: Tensor2)
    ensures
        tensor2_extent(r) == tensor2_extent(x),
        numbers(tensor2_bits(r)) == tensor2_bits(x).map_values(
            |b: u32| as_number(binary32_product(as_number(b), as_number(factor.bits))),
        ),
{
    Tensor2 { inner: x.inner.mul_scalar(<NdArray as Backend>::FloatElem::from_bits(factor.bits)) }
}

/// `Tensor::neg`: each element with its sign switched.  The engine
/// multiplies by minus one, which is exact.
#[verifier::external_body]
pub(crate) fn tensor_neg(x: Tensor2) -> (r: Tensor2)
    ensures
        tensor2_extent(r) == tensor2_extent(x),
        numbers(tensor2_bits(r)) == tensor2_bits(x).map_values(|b: u32| number_negated(b)),
{
    Tensor2 { inner: x.inner.neg() }
}

/// `Tensor::exp`: the exponential of each element, to a precision that the
/// platform decides.  Whatever the precision, no element is a number below
/// zero.
#[verifier::external_body]
pub(crate) fn tensor_exp(x: Tensor2) -> (r: Tensor2)
    ensures
        tensor2_extent(r) == tensor2_extent(x),
        tensor2_bits(r).len() == tensor2_bits(x).len(),
        forall|i: int|
            0 <= i < tensor2_bits(r).len() ==> !(Scalar {
                bits: #[trigger] tensor2_bits(r)[i],
            }).is_negative(),
{
    Tensor2 { inner: x.inner.exp() }
}

/// `Tensor::add_scalar`: each element plus the whole number `addend`.
/// Rounding keeps the order of numbers: a number that is not below zero,
/// plus a whole number of at least one, is a number of at least one.
#[verifier::external_body]
pub(crate) fn tensor_add_scalar(x: Tensor2, addend: i32) -> (r: Tensor2)
    ensures
        tensor2_extent(r) == tensor2_extent(x),
        numbers(tensor2_bits(r)) == tensor2_bits(x).map_values(
            |b: u32| as_number(binary32_plus_whole(as_number(b), addend)),
        ),
        addend >= 1 ==> forall|i: int|
            0 <= i < tensor2_bits(r).len() ==> sum_at_least_one(
                tensor2_bits(x)[i],
                #[trigger] tensor2_bits(r)[i],
            ),
{
    Tensor2 { inner: x.inner.add_scalar(addend) }
}

/// `Tensor::recip`: one divided by each element.  One divided by a number
/// of at least one lies between zero and one, and so does its rounding.
#[verifier::external_body]
pub(crate) fn tensor_recip(x: Tensor2) -> (r: Tensor2)
    ensures
        tensor2_extent(r) == tensor2_extent(x),
        numbers(tensor2_bits(r)) == tensor2_bits(x).map_values(
            |b: u32| as_number(binary32_reciprocal(as_number(b))),
        ),
        forall|i: int|
            0 <= i < tensor2_bits(r).len() ==> reciprocal_in_unit_interval(
                tensor2_bits(x)[i],
                #[trigger] tensor2_bits(r)[i],
            ),
{
    Tensor2 { inner: x.inner.recip() }
}

/// The mean over all elements of the squared difference of two sequences
/// of numbers, as the engine rounds it: it subtracts and squares element by
/// element, sums in storage order and divides by the count.
pub uninterp spec fn mean_square(output: Seq<u32>, targets: Seq<u32>) -> u32;

/// The mean-square loss, as a number, of the numbers that two sequences of
/// patterns stand for.
pub open spec fn loss_number(output: Seq<u32>, targets: Seq<u32>) -> u32 {
    as_number(mean_square(numbers(output), numbers(targets)))
}

/// Whether every pattern of a sequence stands for a finite number.
pub open spec fn all_finite(bits: Seq<u32>) -> bool {
    forall|i: int| 0 <= i < bits.len() ==> (Scalar { bits: #[trigger] bits[i] }).is_finite()
}

/// `MseLoss::forward` with `Reduction::Mean`, read out by
/// `Tensor::into_scalar`: the mean square of the two operands.  The engine
/// refuses operands of different extent, and a mean over no element.  A
/// difference and its opposite have one square, so the operands may change
/// places; and finite operands that agree everywhere differ by positive
/// zero everywhere, which squares, sums and divides to positive zero.
#[verifier::external_body]
pub(crate) fn mse_mean(output: Tensor2, targets: Tensor2) -> (r: Scalar)
    requires
        tensor2_extent(output) == tensor2_extent(targets),
        tensor2_extent(output).0 >= 1,
        tensor2_extent(output).1 >= 1,
    ensures
        as_number(r.bits) == as_number(
            mean_square(numbers(tensor2_bits(output)), numbers(tensor2_bits(targets))),
        ),
        as_number(r.bits) == as_number(
            mean_square(numbers(tensor2_bits(targets)), numbers(tensor2_bits(output))),
        ),
        tensor2_bits(output) == tensor2_bits(targets) && all_finite(tensor2_bits(output))
            ==> r.bits == 0,
{
    let loss = burn::nn::loss::MseLoss::new().forward(
        output.inner,
        targets.inner,
        burn::nn::loss::Reduction::Mean,
    );
    Scalar { bits: loss.into_scalar().to_bits() }
}

/// `Conv1dConfig::init`, without bias, with unit stride and no padding: a
/// convolution from `channels_in` to `channels_out` channels with a window
/// of `kernel_size` positions, its weights drawn at random when they are
/// first read.  The sizes are such that the engine can index the weights.
#[verifier::external_body]
pub(crate) fn conv1d_init(channels_in: usize, channels_out: usize, kernel_size: usize) -> (r:
    Conv1d)
    requires
        channels_in >= 1,
        channels_out >= 1,
        kernel_size >= 1,
        channels_out * channels_in * kernel_size <= isize::MAX,
    ensures
        conv1d_extent(r) == (channels_out as nat, channels_in as nat, kernel_size as nat),
        conv1d_weight(r).len() == channels_out * channels_in * kernel_size,
{
    let config = burn::nn::conv::Conv1dConfig::new(channels_in, channels_out, kernel_size);
    Conv1d { inner: config.with_bias(false).init(&Default::default()) }
}

/// `Conv1dConfig::init` as above, its weight then replaced through
/// `Param::from_data` by the given values, the innermost axis running
/// fastest.  The engine refuses a count of values other than what the
/// extents ask for.
#[verifier::external_body]
pub(crate) fn conv1d_from_bits(
    channels_in: usize,
    channels_out: usize,
    kernel_size: usize,
    weight: Vec<u32>,
) -> (r: Conv1d)
    requires
        channels_in >= 1,
        channels_out >= 1,
        kernel_size >= 1,
        channels_out * channels_in * kernel_size <= isize::MAX,
        weight@.len() == channels_out * channels_in * kernel_size,
    ensures
        conv1d_extent(r) == (channels_out as nat, channels_in as nat, kernel_size as nat),
        conv1d_weight(r) == weight@,
{
    let config = burn::nn::conv::Conv1dConfig::new(channels_in, channels_out, kernel_size);
    let mut inner = config.with_bias(false).init(&Default::default());
    let weight: Vec<<NdArray as Backend>::FloatElem> =
        weight.into_iter().map(<NdArray as Backend>::FloatElem::from_bits).collect();
    let shape = burn::tensor::Shape::new([channels_out, channels_in, kernel_size]);
    let weight = burn::tensor::Data::new(weight, shape);
    inner.weight = burn::module::Param::from_data(weight, &Default::default());
    Conv1d { inner }
}

/// `Param::val` and `Tensor::to_data` on the weight of a `Conv1d`: its
/// elements, the innermost axis running fastest.
#[verifier::external_body]
pub(crate) fn conv1d_weight_bits(layer: &Conv1d) -> (r: Vec<u32>)
    ensures
        r@ == conv1d_weight(*layer),
{
    layer.inner.weight.val().to_data().value.into_iter().map(|v| v.to_bits()).collect()
}

/// What a bias-free convolution with unit stride and without padding makes
/// of a batch of sequences: for each sample and output channel, at each
/// position, the products of the window's weights with the elements under
/// it, summed over the input channels in turn and the window from its first
/// position on, each step rounded.  Weights and elements are given as
/// numbers, each with its extent.
pub uninterp spec fn conv1d_result(
    weight: Seq<u32>,
    weight_extent: (nat, nat, nat),
    input: Seq<u32>,
    input_extent: (nat, nat, nat),
) -> Seq<u32>;

/// `Conv1d::forward`: slides the window along the sequence axis of every
/// sample.  The engine refuses another channel count than the layer accepts,
/// a sequence shorter than the window and a result that it cannot index.
#[verifier::external_body]
pub(crate) fn conv1d_forward(layer: &Conv1d, x: Tensor3) -> (r: Tensor3)
    requires
        conv1d_extent(*layer).0 >= 1,
        conv1d_extent(*layer).1 >= 1,
        conv1d_extent(*layer).2 >= 1,
        tensor3_extent(x).1 == conv1d_extent(*layer).1,
        tensor3_extent(x).2 >= conv1d_extent(*layer).2,
        indexable3(
            tensor3_extent(x).0 as int,
            conv1d_extent(*layer).0 as int,
            tensor3_extent(x).2 - conv1d_extent(*layer).2 + 1,
        ),
    ensures
        tensor3_extent(r) == (
            tensor3_extent(x).0,
            conv1d_extent(*layer).0,
            (tensor3_extent(x).2 - conv1d_extent(*layer).2 + 1) as nat,
        ),
        numbers(tensor3_bits(r)) == numbers(
            conv1d_result(
                numbers(conv1d_weight(*layer)),
                conv1d_extent(*layer),
                numbers(tensor3_bits(x)),
                tensor3_extent(x),
            ),
        ),
{
    Tensor3 { inner: layer.inner.forward(x.inner) }
}

} // verus!
