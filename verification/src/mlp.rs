//! The hidden stack: residual blocks of one width, applied in order.

use crate::engine::dropout_forward;
use crate::engine::dropout_init;
use crate::engine::linear_bias;
use crate::engine::linear_bias_bits;
use crate::engine::linear_extent;
use crate::engine::linear_forward;
use crate::engine::linear_from_bits;
use crate::engine::linear_init;
use crate::engine::linear_weight;
use crate::engine::linear_weight_bits;
use crate::engine::number_sum;
use crate::engine::rectified;
use crate::engine::relu_forward2;
use crate::engine::relu_new;
use crate::engine::tensor_add;
use crate::engine::Linear;
use crate::error::ModelError;
use crate::params::block_count;
use crate::params::linear_parameter_count;
use crate::params::product_fits;
use crate::params::stack_count;
use crate::params::stack_parameter_count;
use crate::scalar::as_number;
use crate::scalar::numbers;
use crate::double::Double;
use crate::tensor::tensor2_bits;
use crate::tensor::tensor2_extent;
use crate::tensor::Tensor2;
use vstd::prelude::*;

verus! {

/// The first reason to refuse a residual block of the given widths and
/// dropout probability, if there is one.  A block adds its input to what it
/// computes from it, so both widths must agree; and the engine must be able
/// to index its trainable numbers.
pub open spec fn block_error(in_width: usize, out_width: usize, dropout: Double) -> Option<
    ModelError,
> {
    if in_width != out_width {
        Some(ModelError::ShapeMismatch)
    } else if in_width == 0 {
        Some(ModelError::InvalidWidth)
    } else if block_count(in_width as nat) > isize::MAX {
        Some(ModelError::TooLarge)
    } else if !dropout.is_probability() {
        Some(ModelError::InvalidDropout)
    } else {
        None
    }
}

/// The first reason to refuse a residual block that is to hold `given`
/// trainable numbers, if there is one: what `block_error` says, or another
/// count than the block holds.
pub open spec fn block_restore_error(
    in_width: usize,
    out_width: usize,
    dropout: Double,
    given: nat,
) -> Option<ModelError> {
    if block_error(in_width, out_width, dropout).is_some() {
        block_error(in_width, out_width, dropout)
    } else if given != block_count(in_width as nat) {
        Some(ModelError::ShapeMismatch)
    } else {
        None
    }
}

/// The first reason to refuse a batch handed to a layer that accepts rows of
/// `width` columns, if there is one: no row at all, rows of another width,
/// or more elements than the engine can index.
pub open spec fn batch_error(input: Tensor2, width: nat) -> Option<ModelError> {
    if input.rows() == 0 {
        Some(ModelError::EmptyBatch)
    } else if input.cols() != width {
        Some(ModelError::ShapeMismatch)
    } else if input.rows() * width > isize::MAX {
        Some(ModelError::TooLarge)
    } else {
        None
    }
}

/// Whether `output` holds, place by place, the sum of the element of
/// `input` and the rectified element of `projected`.
pub open spec fn is_residual(input: Seq<u32>, projected: Seq<u32>, output: Seq<u32>) -> bool {
    &&& input.len() == output.len()
    &&& projected.len() == output.len()
    &&& forall|i: int|
        0 <= i < output.len() ==> as_number(#[trigger] output[i]) == number_sum(
            input[i],
            rectified(projected[i]),
        )
}

/// One residual unit: `y = x + dropout(relu(linear(x)))`.
#[derive(Debug)]
pub struct ResidualBlock {
    linear: Linear,
    dropout: burn::nn::Dropout,
    activation: burn::nn::Relu,
    width: usize,
    probability: Double,
}

impl ResidualBlock {
    #[verifier::type_invariant]
    spec fn well_formed(&self) -> bool {
        &&& self.width >= 1
        &&& linear_extent(self.linear) == (self.width as nat, self.width as nat)
        &&& linear_weight(self.linear).len() == self.width * self.width
        &&& linear_bias(self.linear).len() == self.width
        &&& self.probability.is_probability()
    }

    /// The width of the rows that the block accepts and returns.
    pub closed spec fn width(&self) -> usize {
        self.width
    }

    /// The dropout probability that the block was built with.
    pub closed spec fn probability(&self) -> Double {
        self.probability
    }

    /// The trainable numbers of the block: the weights of its affine layer,
    /// row by row, then its biases.
    pub closed spec fn parameter_bits(&self) -> Seq<u32> {
        linear_weight(self.linear) + linear_bias(self.linear)
    }

    /// Builds a block from `in_width` to `out_width` columns with weights
    /// drawn at random, refusing widths that differ, a width of zero, a width
    /// too large for the engine and a dropout probability outside the closed
    /// interval from zero to one.
    pub fn new(in_width: usize, out_width: usize, dropout: Double) -> (r: Result<
        ResidualBlock,
        ModelError,
    >)
        ensures
            match r {
                Ok(built) => block_error(in_width, out_width, dropout).is_none() && built.width()
                    == in_width && built.probability() == dropout,
                Err(e) => block_error(in_width, out_width, dropout) == Some(e),
            },
    {
        if in_width != out_width {
            return Err(ModelError::ShapeMismatch);
        }
        if in_width == 0 {
            return Err(ModelError::InvalidWidth);
        }
        if linear_parameter_count(in_width, in_width).is_none() {
            return Err(ModelError::TooLarge);
        }
        if !dropout.check_probability() {
            return Err(ModelError::InvalidDropout);
        }
        Ok(
            ResidualBlock {
                linear: linear_init(in_width, out_width),
                dropout: dropout_init(dropout),
                activation: relu_new(),
                width: in_width,
                probability: dropout,
            },
        )
    }

    /// Builds a block that holds the given trainable numbers, listed as
    /// `parameters` lists them.  Besides what `new` refuses, a list of
    /// another length than the block holds is refused.
    pub fn from_parameters(in_width: usize, out_width: usize, dropout: Double, params: Vec<u32>)
        -> (r: Result<ResidualBlock, ModelError>)
        ensures
            match r {
                Ok(built) => block_restore_error(in_width, out_width, dropout, params@.len())
                    .is_none() && built.width() == in_width && built.probability() == dropout
                    && built.parameter_bits() == params@,
                Err(e) => block_restore_error(in_width, out_width, dropout, params@.len())
                    == Some(e),
            },
    {
        if in_width != out_width {
            return Err(ModelError::ShapeMismatch);
        }
        if in_width == 0 {
            return Err(ModelError::InvalidWidth);
        }
        let count = match linear_parameter_count(in_width, in_width) {
            Some(count) => count,
            None => {
                return Err(ModelError::TooLarge);
            },
        };
        if !dropout.check_probability() {
            return Err(ModelError::InvalidDropout);
        }
        let mut weight = params;
        if weight.len() != count {
            return Err(ModelError::ShapeMismatch);
        }
        let bias = weight.split_off(in_width * in_width);
        assert(weight@ + bias@ =~= params@);
        Ok(
            ResidualBlock {
                linear: linear_from_bits(in_width, in_width, weight, bias),
                dropout: dropout_init(dropout),
                activation: relu_new(),
                width: in_width,
                probability: dropout,
            },
        )
    }

    /// The width of the rows that the block accepts and returns.
    pub fn row_width(&self) -> (r: usize)
        ensures
            r == self.width(),
            r >= 1,
    {
        proof {
            use_type_invariant(self);
        }
        self.width
    }

    /// Lists the trainable numbers of the block: the weights of its affine
    /// layer, row by row, then its biases.
    pub fn parameters(&self) -> (r: Vec<u32>)
        ensures
            r@ == self.parameter_bits(),
            r@.len() == block_count(self.width() as nat),
    {
        proof {
            use_type_invariant(self);
        }
        let mut listed = linear_weight_bits(&self.linear);
        let mut bias = linear_bias_bits(&self.linear);
        listed.append(&mut bias);
        listed
    }

    /// Adds to the input what the rectifier and the dropout make of the
    /// rows that the affine layer returned for it.  Both tensors have one
    /// extent, which the result keeps.  Dropout leaves every element as it
    /// is, since the engine records no gradients.
    pub fn combine(&self, input: Tensor2, projected: Tensor2) -> (r: Tensor2)
        requires
            tensor2_extent(input) == tensor2_extent(projected),
        ensures
            tensor2_extent(r) == tensor2_extent(input),
            is_residual(tensor2_bits(input), tensor2_bits(projected), tensor2_bits(r)),
    {
        let active = relu_forward2(&self.activation, projected);
        let kept = dropout_forward(&self.dropout, active);
        let r = tensor_add(input, kept);
        proof {
            assert(tensor2_bits(r).len() == tensor2_bits(input).len()) by {
                assert(numbers(tensor2_bits(r)).len() == tensor2_bits(r).len());
            }
            assert forall|i: int| 0 <= i < tensor2_bits(r).len() implies as_number(
                #[trigger] tensor2_bits(r)[i],
            ) == number_sum(tensor2_bits(input)[i], rectified(tensor2_bits(projected)[i])) by {
                assert(numbers(tensor2_bits(r))[i] == as_number(tensor2_bits(r)[i]));
            }
        }
        r
    }

    /// Adds to the input what the affine layer, the rectifier and the
    /// dropout make of it, in that order.  The input is a batch of at least
    /// one row of the block's width; the result has the same extent, and
    /// each of its elements is the sum of the input's element and the
    /// rectified element that the affine layer returned at its place.
    pub fn forward(&self, input: Tensor2) -> (r: Tensor2)
        requires
            batch_error(input, self.width() as nat).is_none(),
        ensures
            tensor2_extent(r) == tensor2_extent(input),
            exists|projected: Seq<u32>| #[trigger]
                is_residual(tensor2_bits(input), projected, tensor2_bits(r)),
    {
        proof {
            use_type_invariant(self);
        }
        let skip = input.duplicate();
        let projected = linear_forward(&self.linear, input);
        let r = self.combine(skip, projected);
        assert(is_residual(tensor2_bits(input), tensor2_bits(projected), tensor2_bits(r)));
        r
    }

    /// As `forward`, after testing the extent of the input: an empty batch,
    /// rows of another width than the block's and a batch too large for the
    /// engine are refused.
    pub fn try_forward(&self, input: Tensor2) -> (r: Result<Tensor2, ModelError>)
        ensures
            match r {
                Ok(output) => batch_error(input, self.width() as nat).is_none() && tensor2_extent(
                    output,
                ) == tensor2_extent(input) && exists|projected: Seq<u32>| #[trigger]
                    is_residual(tensor2_bits(input), projected, tensor2_bits(output)),
                Err(e) => batch_error(input, self.width() as nat) == Some(e),
            },
    {
        let (rows, cols) = input.dims();
        let fits = product_fits(rows, self.width);
        assert(fits == (input.rows() * self.width() <= isize::MAX));
        if rows == 0 {
            Err(ModelError::EmptyBatch)
        } else if cols != self.width {
            Err(ModelError::ShapeMismatch)
        } else if !fits {
            Err(ModelError::TooLarge)
        } else {
            Ok(self.forward(input))
        }
    }
}

/// Whether `output` is what `steps` residual units in a row make of
/// `input`: each unit adds to what it receives the rectified rows that its
/// affine layer returned for it, and hands the sum to the next.
pub open spec fn passes(input: Seq<u32>, steps: nat, output: Seq<u32>) -> bool
    decreases steps,
{
    if steps == 0 {
        output == input
    } else {
        exists|before: Seq<u32>, projected: Seq<u32>| #[trigger]
            is_residual(before, projected, output) && passes(
                input,
                (steps - 1) as nat,
                before,
            )
    }
}

/// The first reason to refuse a hidden stack of the given depth, width and
/// dropout probability, if there is one.
pub open spec fn stack_error(layers: usize, width: usize, dropout: Double) -> Option<ModelError> {
    if layers == 0 {
        Some(ModelError::InvalidLayerCount)
    } else if width == 0 {
        Some(ModelError::InvalidWidth)
    } else if stack_count(layers as nat, width as nat) > isize::MAX {
        Some(ModelError::TooLarge)
    } else if !dropout.is_probability() {
        Some(ModelError::InvalidDropout)
    } else {
        None
    }
}

/// The first reason to refuse a hidden stack that is to hold `given`
/// trainable numbers, if there is one: what `stack_error` says, or another
/// count than the stack holds.
pub open spec fn stack_restore_error(layers: usize, width: usize, dropout: Double, given: nat)
    -> Option<ModelError> {
    if stack_error(layers, width, dropout).is_some() {
        stack_error(layers, width, dropout)
    } else if given != stack_count(layers as nat, width as nat) {
        Some(ModelError::ShapeMismatch)
    } else {
        None
    }
}

/// The trainable numbers of a sequence of blocks: those of the first block,
/// then those of the second, and so on.
pub open spec fn blocks_bits(blocks: Seq<ResidualBlock>) -> Seq<u32>
    decreases blocks.len(),
{
    if blocks.len() == 0 {
        Seq::empty()
    } else {
        blocks_bits(blocks.drop_last()) + blocks.last().parameter_bits()
    }
}

/// Where `n` blocks fit, with `n` at least one, one block fits.
proof fn lemma_one_block_fits(n: int, c: int)
    requires
        n >= 1,
        c >= 0,
    ensures
        c <= n * c,
{
    assert(c <= n * c) by (nonlinear_arith)
        requires
            n >= 1,
            c >= 0,
    ;
}

/// A product with one more factor: `(n + 1) * c == n * c + c`.
proof fn lemma_next_multiple(n: int, c: int)
    ensures
        (n + 1) * c == n * c + c,
{
    assert((n + 1) * c == n * c + c) by (nonlinear_arith);
}

/// An ordered sequence of residual blocks of one width.  Depth and width are
/// fixed when the stack is built.
#[derive(Debug)]
pub struct Mlp {
    blocks: Vec<ResidualBlock>,
    width: usize,
    probability: Double,
}

impl Mlp {
    #[verifier::type_invariant]
    spec fn well_formed(&self) -> bool {
        &&& self.width >= 1
        &&& self.blocks@.len() >= 1
        &&& self.probability.is_probability()
        &&& forall|i: int|
            0 <= i < self.blocks@.len() ==> (#[trigger] self.blocks@[i]).width() == self.width
                && self.blocks@[i].probability() == self.probability
    }

    /// The number of blocks.
    pub closed spec fn depth(&self) -> nat {
        self.blocks@.len()
    }

    /// The width of the rows that the stack accepts and returns.
    pub closed spec fn width(&self) -> usize {
        self.width
    }

    /// The dropout probability of every block.
    pub closed spec fn probability(&self) -> Double {
        self.probability
    }

    /// The trainable numbers of the stack: those of its blocks, in the order
    /// in which a batch passes them.
    pub closed spec fn parameter_bits(&self) -> Seq<u32> {
        blocks_bits(self.blocks@)
    }

    /// Builds a stack of `layers` blocks of `width` columns with weights
    /// drawn at random, refusing a depth or width of zero, sizes too large
    /// for the engine and a dropout probability outside the closed interval
    /// from zero to one.
    pub fn new(layers: usize, width: usize, dropout: Double) -> (r: Result<Mlp, ModelError>)
        ensures
            match r {
                Ok(built) => stack_error(layers, width, dropout).is_none() && built.depth()
                    == layers && built.width() == width && built.probability() == dropout,
                Err(e) => stack_error(layers, width, dropout) == Some(e),
            },
    {
        if layers == 0 {
            return Err(ModelError::InvalidLayerCount);
        }
        if width == 0 {
            return Err(ModelError::InvalidWidth);
        }
        if stack_parameter_count(layers, width).is_none() {
            return Err(ModelError::TooLarge);
        }
        if !dropout.check_probability() {
            return Err(ModelError::InvalidDropout);
        }
        proof {
            lemma_one_block_fits(layers as int, block_count(width as nat) as int);
        }
        let mut blocks: Vec<ResidualBlock> = Vec::new();
        while blocks.len() < layers
            invariant
                layers >= 1,
                blocks@.len() <= layers,
                block_error(width, width, dropout).is_none(),
                forall|i: int|
                    0 <= i < blocks@.len() ==> (#[trigger] blocks@[i]).width() == width
                        && blocks@[i].probability() == dropout,
            decreases layers - blocks@.len(),
        {
            match ResidualBlock::new(width, width, dropout) {
                Ok(block) => {
                    blocks.push(block);
                },
                Err(e) => {
                    return Err(e);
                },
            }
        }
        Ok(Mlp { blocks, width, probability: dropout })
    }

    /// Builds a stack that holds the given trainable numbers, listed as
    /// `parameters` lists them.  Besides what `new` refuses, a list of
    /// another length than the stack holds is refused; no part of a refused
    /// list is used.
    pub fn from_parameters(layers: usize, width: usize, dropout: Double, params: Vec<u32>) -> (r:
        Result<Mlp, ModelError>)
        ensures
            match r {
                Ok(built) => stack_restore_error(layers, width, dropout, params@.len()).is_none()
                    && built.depth() == layers && built.width() == width && built.probability()
                    == dropout && built.parameter_bits() == params@,
                Err(e) => stack_restore_error(layers, width, dropout, params@.len()) == Some(e),
            },
    {
        if layers == 0 {
            return Err(ModelError::InvalidLayerCount);
        }
        if width == 0 {
            return Err(ModelError::InvalidWidth);
        }
        let count = match stack_parameter_count(layers, width) {
            Some(count) => count,
            None => {
                return Err(ModelError::TooLarge);
            },
        };
        if !dropout.check_probability() {
            return Err(ModelError::InvalidDropout);
        }
        let mut rest = params;
        if rest.len() != count {
            return Err(ModelError::ShapeMismatch);
        }
        let ghost per_block = block_count(width as nat) as int;
        proof {
            lemma_next_multiple(layers as int - 1, per_block);
            assert((layers - 1) * per_block >= 0) by (nonlinear_arith)
                requires
                    layers >= 1,
                    per_block >= 0,
            ;
        }
        let block_len: usize = width * width + width;
        let mut blocks: Vec<ResidualBlock> = Vec::new();
        proof {
            assert(0 * per_block == 0);
            assert(rest@ =~= params@.subrange(0, params@.len() as int));
            assert(blocks_bits(blocks@) =~= params@.subrange(0, 0));
        }
        while blocks.len() < layers
            invariant
                layers >= 1,
                width >= 1,
                dropout.is_probability(),
                per_block == block_count(width as nat),
                block_len == per_block,
                per_block <= isize::MAX,
                blocks@.len() <= layers,
                params@.len() == layers * per_block,
                0 <= blocks@.len() * per_block <= params@.len(),
                rest@ == params@.subrange(blocks@.len() * per_block, params@.len() as int),
                blocks_bits(blocks@) == params@.subrange(0, blocks@.len() * per_block),
                forall|i: int|
                    0 <= i < blocks@.len() ==> (#[trigger] blocks@[i]).width() == width
                        && blocks@[i].probability() == dropout,
            decreases layers - blocks@.len(),
        {
            let ghost done = blocks@.len() as int;
            let ghost before = blocks@;
            proof {
                lemma_next_multiple(done, per_block);
                assert((done + 1) * per_block <= layers * per_block) by (nonlinear_arith)
                    requires
                        done + 1 <= layers,
                        per_block >= 0,
                ;
                assert(done * per_block >= 0) by (nonlinear_arith)
                    requires
                        done >= 0,
                        per_block >= 0,
                ;
            }
            let tail = rest.split_off(block_len);
            let ghost head = rest@;
            match ResidualBlock::from_parameters(width, width, dropout, rest) {
                Ok(block) => {
                    blocks.push(block);
                },
                Err(e) => {
                    return Err(e);
                },
            }
            rest = tail;
            proof {
                assert(blocks@.drop_last() =~= before);
                assert(head =~= params@.subrange(done * per_block, (done + 1) * per_block));
                assert(params@.subrange(0, done * per_block) + head =~= params@.subrange(
                    0,
                    (done + 1) * per_block,
                ));
                assert(rest@ =~= params@.subrange((done + 1) * per_block, params@.len() as int));
            }
        }
        assert(blocks_bits(blocks@) =~= params@);
        Ok(Mlp { blocks, width, probability: dropout })
    }

    /// The number of blocks, which is at least one.
    pub fn layers(&self) -> (r: usize)
        ensures
            r == self.depth(),
            r >= 1,
    {
        proof {
            use_type_invariant(self);
        }
        self.blocks.len()
    }

    /// The width of the rows that the stack accepts and returns.
    pub fn row_width(&self) -> (r: usize)
        ensures
            r == self.width(),
            r >= 1,
    {
        proof {
            use_type_invariant(self);
        }
        self.width
    }

    /// Lists the trainable numbers of the stack: those of its blocks, in the
    /// order in which a batch passes them.
    pub fn parameters(&self) -> (r: Vec<u32>)
        ensures
            r@ == self.parameter_bits(),
            r@.len() == stack_count(self.depth(), self.width() as nat),
    {
        proof {
            use_type_invariant(self);
        }
        let ghost per_block = block_count(self.width as nat) as int;
        let mut listed: Vec<u32> = Vec::new();
        let mut i: usize = 0;
        assert(self.blocks@.take(0) =~= Seq::empty());
        while i < self.blocks.len()
            invariant
                i <= self.blocks@.len(),
                per_block == block_count(self.width as nat),
                listed@ == blocks_bits(self.blocks@.take(i as int)),
                listed@.len() == i * per_block,
                forall|j: int|
                    0 <= j < self.blocks@.len() ==> (#[trigger] self.blocks@[j]).width()
                        == self.width,
            decreases self.blocks@.len() - i,
        {
            let mut part = self.blocks[i].parameters();
            listed.append(&mut part);
            proof {
                lemma_next_multiple(i as int, per_block);
                assert(self.blocks@.take(i + 1).drop_last() =~= self.blocks@.take(i as int));
            }
            i += 1;
        }
        assert(self.blocks@.take(i as int) =~= self.blocks@);
        listed
    }

    /// Applies the blocks in order, each to the result of the one before.
    /// The input is a batch of at least one row of the stack's width; the
    /// result has the same extent, and is what as many residual units in a
    /// row as the stack has blocks make of the input.
    pub fn forward(&self, input: Tensor2) -> (r: Tensor2)
        requires
            batch_error(input, self.width() as nat).is_none(),
        ensures
            tensor2_extent(r) == tensor2_extent(input),
            passes(tensor2_bits(input), self.depth(), tensor2_bits(r)),
    {
        proof {
            use_type_invariant(self);
        }
        let ghost extent = tensor2_extent(input);
        let ghost entered = tensor2_bits(input);
        let mut x = input;
        let mut i: usize = 0;
        while i < self.blocks.len()
            invariant
                i <= self.blocks@.len(),
                tensor2_extent(x) == extent,
                passes(entered, i as nat, tensor2_bits(x)),
                extent.0 != 0,
                extent.1 == self.width,
                extent.0 * self.width <= isize::MAX,
                forall|j: int|
                    0 <= j < self.blocks@.len() ==> (#[trigger] self.blocks@[j]).width()
                        == self.width,
            decreases self.blocks@.len() - i,
        {
            let ghost before = tensor2_bits(x);
            x = self.blocks[i].forward(x);
            proof {
                let projected = choose|projected: Seq<u32>| #[trigger]
                    is_residual(before, projected, tensor2_bits(x));
                assert(is_residual(before, projected, tensor2_bits(x)) && passes(
                    entered,
                    i as nat,
                    before,
                ));
            }
            i += 1;
        }
        x
    }

    /// As `forward`, after testing the extent of the input: an empty batch,
    /// rows of another width than the stack's and a batch too large for the
    /// engine are refused.
    pub fn try_forward(&self, input: Tensor2) -> (r: Result<Tensor2, ModelError>)
        ensures
            match r {
                Ok(output) => batch_error(input, self.width() as nat).is_none() && tensor2_extent(
                    output,
                ) == tensor2_extent(input) && passes(
                    tensor2_bits(input),
                    self.depth(),
                    tensor2_bits(output),
                ),
                Err(e) => batch_error(input, self.width() as nat) == Some(e),
            },
    {
        let (rows, cols) = input.dims();
        let fits = product_fits(rows, self.width);
        assert(fits == (input.rows() * self.width() <= isize::MAX));
        if rows == 0 {
            Err(ModelError::EmptyBatch)
        } else if cols != self.width {
            Err(ModelError::ShapeMismatch)
        } else if !fits {
            Err(ModelError::TooLarge)
        } else {
            Ok(self.forward(input))
        }
    }
}

} // verus!
