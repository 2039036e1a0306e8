//! A reusable convolutional block: a bias-free convolution along one axis,
//! then a rectifier.  It stands apart from the classifier.

use crate::engine::conv1d_extent;
use crate::engine::conv1d_forward;
use crate::engine::conv1d_from_bits;
use crate::engine::conv1d_init;
use crate::engine::conv1d_weight;
use crate::engine::conv1d_result;
use crate::engine::conv1d_weight_bits;
use crate::engine::rectified;
use crate::engine::relu_forward3;
use crate::engine::relu_new;
use crate::engine::Conv1d;
use crate::error::ModelError;
use crate::params::conv_count;
use crate::params::conv_parameter_count;
use crate::scalar::as_number;
use crate::scalar::numbers;
use crate::scalar::Scalar;
use crate::tensor::extents_fit;
use crate::tensor::indexable3;
use crate::tensor::tensor3_bits;
use crate::tensor::tensor3_extent;
use crate::tensor::Tensor3;
use vstd::prelude::*;

verus! {

/// The first reason to refuse a convolutional block of the given channel
/// counts and window width, if there is one.
pub open spec fn conv_error(in_channels: usize, out_channels: usize, kernel_size: usize) -> Option<
    ModelError,
> {
    if in_channels == 0 || out_channels == 0 {
        Some(ModelError::InvalidWidth)
    } else if kernel_size == 0 {
        Some(ModelError::InvalidKernel)
    } else if conv_count(in_channels as nat, out_channels as nat, kernel_size as nat)
        > isize::MAX {
        Some(ModelError::TooLarge)
    } else {
        None
    }
}

/// The first reason to refuse a convolutional block that is to hold `given`
/// trainable numbers, if there is one: what `conv_error` says, or another
/// count than the block holds.
pub open spec fn conv_restore_error(
    in_channels: usize,
    out_channels: usize,
    kernel_size: usize,
    given: nat,
) -> Option<ModelError> {
    if conv_error(in_channels, out_channels, kernel_size).is_some() {
        conv_error(in_channels, out_channels, kernel_size)
    } else if given != conv_count(in_channels as nat, out_channels as nat, kernel_size as nat) {
        Some(ModelError::ShapeMismatch)
    } else {
        None
    }
}

/// The first reason to refuse a batch of sequences handed to a convolution
/// that accepts `channels` channels, produces `out_channels` and slides a
/// window of `kernel_size` positions, if there is one: another channel
/// count, a sequence shorter than the window, or a result that the engine
/// cannot index.
pub open spec fn sequence_error(
    input: Tensor3,
    channels: nat,
    out_channels: nat,
    kernel_size: nat,
) -> Option<ModelError> {
    if input.channels() != channels || input.length() < kernel_size {
        Some(ModelError::ShapeMismatch)
    } else if !indexable3(
        input.batch() as int,
        out_channels as int,
        input.length() - kernel_size + 1,
    ) {
        Some(ModelError::TooLarge)
    } else {
        None
    }
}

/// A rectified element is never a number below zero.
pub proof fn lemma_rectified_not_negative(bits: u32)
    ensures
        !(Scalar { bits: rectified(bits) }).is_negative(),
{
}

/// Rectifying looks only at the number that a pattern stands for.
pub proof fn lemma_rectified_number(bits: u32)
    ensures
        as_number(rectified(bits)) == rectified(as_number(bits)),
{
}

/// What the block makes of a batch, as numbers: the convolution of the
/// input with the weights, each element rectified.
pub open spec fn rectified_convolution(
    weight: Seq<u32>,
    weight_extent: (nat, nat, nat),
    input: Seq<u32>,
    input_extent: (nat, nat, nat),
) -> Seq<u32> {
    numbers(conv1d_result(numbers(weight), weight_extent, numbers(input), input_extent))
        .map_values(|b: u32| rectified(b))
}

/// A convolution without bias, with unit stride and without padding,
/// followed by `max(0, x)` on every element.
#[derive(Debug)]
pub struct ConvBlock {
    conv: Conv1d,
    activation: burn::nn::Relu,
    in_channels: usize,
    out_channels: usize,
    kernel_size: usize,
}

impl ConvBlock {
    #[verifier::type_invariant]
    spec fn well_formed(&self) -> bool {
        &&& self.in_channels >= 1
        &&& self.out_channels >= 1
        &&& self.kernel_size >= 1
        &&& conv1d_extent(self.conv) == (
            self.out_channels as nat,
            self.in_channels as nat,
            self.kernel_size as nat,
        )
        &&& conv1d_weight(self.conv).len() == self.out_channels * self.in_channels
            * self.kernel_size
    }

    /// The number of channels that the block accepts.
    pub closed spec fn in_channels(&self) -> usize {
        self.in_channels
    }

    /// The number of channels that the block produces.
    pub closed spec fn out_channels(&self) -> usize {
        self.out_channels
    }

    /// The width of the window.
    pub closed spec fn kernel_size(&self) -> usize {
        self.kernel_size
    }

    /// The trainable numbers of the block: for each output channel and each
    /// input channel in turn, the weights of the window.
    pub closed spec fn parameter_bits(&self) -> Seq<u32> {
        conv1d_weight(self.conv)
    }

    /// Whether a tensor is a batch that the block accepts.
    pub open spec fn accepts(&self, input: Tensor3) -> bool {
        sequence_error(
            input,
            self.in_channels() as nat,
            self.out_channels() as nat,
            self.kernel_size() as nat,
        ).is_none()
    }

    /// Builds a block with weights drawn at random, refusing a channel count
    /// or a window width of zero, and sizes too large for the engine.
    pub fn new(in_channels: usize, out_channels: usize, kernel_size: usize) -> (r: Result<
        ConvBlock,
        ModelError,
    >)
        ensures
            match r {
                Ok(built) => conv_error(in_channels, out_channels, kernel_size).is_none()
                    && built.in_channels() == in_channels && built.out_channels() == out_channels
                    && built.kernel_size() == kernel_size,
                Err(e) => conv_error(in_channels, out_channels, kernel_size) == Some(e),
            },
    {
        if in_channels == 0 || out_channels == 0 {
            return Err(ModelError::InvalidWidth);
        }
        if kernel_size == 0 {
            return Err(ModelError::InvalidKernel);
        }
        if conv_parameter_count(in_channels, out_channels, kernel_size).is_none() {
            return Err(ModelError::TooLarge);
        }
        Ok(
            ConvBlock {
                conv: conv1d_init(in_channels, out_channels, kernel_size),
                activation: relu_new(),
                in_channels,
                out_channels,
                kernel_size,
            },
        )
    }

    /// Builds a block that holds the given trainable numbers, listed as
    /// `parameters` lists them.  Besides what `new` refuses, a list of
    /// another length than the block holds is refused.
    pub fn from_parameters(
        in_channels: usize,
        out_channels: usize,
        kernel_size: usize,
        params: Vec<u32>,
    ) -> (r: Result<ConvBlock, ModelError>)
        ensures
            match r {
                Ok(built) => conv_restore_error(
                    in_channels,
                    out_channels,
                    kernel_size,
                    params@.len(),
                ).is_none() && built.in_channels() == in_channels && built.out_channels()
                    == out_channels && built.kernel_size() == kernel_size
                    && built.parameter_bits() == params@,
                Err(e) => conv_restore_error(
                    in_channels,
                    out_channels,
                    kernel_size,
                    params@.len(),
                ) == Some(e),
            },
    {
        if in_channels == 0 || out_channels == 0 {
            return Err(ModelError::InvalidWidth);
        }
        if kernel_size == 0 {
            return Err(ModelError::InvalidKernel);
        }
        match conv_parameter_count(in_channels, out_channels, kernel_size) {
            Some(count) => {
                if params.len() != count {
                    return Err(ModelError::ShapeMismatch);
                }
            },
            None => {
                return Err(ModelError::TooLarge);
            },
        }
        Ok(
            ConvBlock {
                conv: conv1d_from_bits(in_channels, out_channels, kernel_size, params),
                activation: relu_new(),
                in_channels,
                out_channels,
                kernel_size,
            },
        )
    }

    /// Lists the trainable numbers of the block: for each output channel and
    /// each input channel in turn, the weights of the window.
    pub fn parameters(&self) -> (r: Vec<u32>)
        ensures
            r@ == self.parameter_bits(),
            r@.len() == conv_count(
                self.in_channels() as nat,
                self.out_channels() as nat,
                self.kernel_size() as nat,
            ),
    {
        proof {
            use_type_invariant(self);
        }
        conv1d_weight_bits(&self.conv)
    }

    /// Whether `output` is what the block makes of `input`: the batch kept,
    /// the block's number of output channels, a sequence shortened by the
    /// window width less one, and as elements the rectified convolution of
    /// the input with the block's weights, none of them a number below zero.
    pub open spec fn convolves(&self, input: Tensor3, output: Tensor3) -> bool {
        &&& tensor3_extent(output) == (
            input.batch(),
            self.out_channels() as nat,
            (input.length() - self.kernel_size() + 1) as nat,
        )
        &&& numbers(tensor3_bits(output)) == rectified_convolution(
            self.parameter_bits(),
            (self.out_channels() as nat, self.in_channels() as nat, self.kernel_size() as nat),
            tensor3_bits(input),
            tensor3_extent(input),
        )
        &&& forall|i: int|
            0 <= i < tensor3_bits(output).len() ==> !(Scalar {
                bits: #[trigger] tensor3_bits(output)[i],
            }).is_negative()
    }

    /// Convolves and rectifies a batch of samples, each with the block's
    /// number of input channels and a sequence no shorter than the window.
    /// The batch may be empty.  The result is as `convolves` says.
    pub fn forward(&self, input: Tensor3) -> (r: Tensor3)
        requires
            self.accepts(input),
        ensures
            self.convolves(input, r),
    {
        proof {
            use_type_invariant(self);
        }
        let x = conv1d_forward(&self.conv, input);
        let r = relu_forward3(&self.activation, x);
        proof {
            let convolved = numbers(
                conv1d_result(
                    numbers(self.parameter_bits()),
                    conv1d_extent(self.conv),
                    numbers(tensor3_bits(input)),
                    tensor3_extent(input),
                ),
            );
            assert(numbers(tensor3_bits(x)).len() == tensor3_bits(x).len());
            assert(numbers(tensor3_bits(r)).len() == tensor3_bits(r).len());
            assert forall|i: int| 0 <= i < tensor3_bits(r).len() implies !(Scalar {
                bits: #[trigger] tensor3_bits(r)[i],
            }).is_negative() by {
                lemma_rectified_not_negative(tensor3_bits(x)[i]);
            }
            assert forall|i: int| 0 <= i < tensor3_bits(r).len() implies numbers(
                tensor3_bits(r),
            )[i] == rectified(convolved[i]) by {
                lemma_rectified_number(tensor3_bits(x)[i]);
                assert(numbers(tensor3_bits(x))[i] == as_number(tensor3_bits(x)[i]));
            }
            assert(numbers(tensor3_bits(r)) =~= convolved.map_values(|b: u32| rectified(b)));
        }
        r
    }

    /// As `forward`, after testing the extent of the input: another channel
    /// count than the block accepts, a sequence shorter than the window and
    /// a batch too large for the engine are refused.
    pub fn try_forward(&self, input: Tensor3) -> (r: Result<Tensor3, ModelError>)
        ensures
            match r {
                Ok(output) => self.accepts(input) && self.convolves(input, output),
                Err(e) => sequence_error(
                    input,
                    self.in_channels() as nat,
                    self.out_channels() as nat,
                    self.kernel_size() as nat,
                ) == Some(e),
            },
    {
        proof {
            use_type_invariant(self);
        }
        let (batch, channels, length) = input.dims();
        if channels != self.in_channels || length < self.kernel_size {
            Err(ModelError::ShapeMismatch)
        } else if !extents_fit(batch, self.out_channels, length - self.kernel_size + 1) {
            Err(ModelError::TooLarge)
        } else {
            Ok(self.forward(input))
        }
    }
}

} // verus!
