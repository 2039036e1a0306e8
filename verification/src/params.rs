//! How many trainable numbers each component holds, and in which order a
//! component lists them: an affine layer its weights row by row and then its
//! biases, a compound its parts in the order in which a batch passes them.

use crate::INPUT_SPACE_SIZE;
use crate::NUM_CLASSES;
use vstd::prelude::*;

verus! {

/// Trainable numbers of an affine layer: one weight for each pair of an
/// input and an output column, and one bias for each output column.
pub open spec fn linear_count(d_input: nat, d_output: nat) -> nat {
    d_input * d_output + d_output
}

/// Trainable numbers of a residual block of the given width.
pub open spec fn block_count(width: nat) -> nat {
    linear_count(width, width)
}

/// Trainable numbers of a hidden stack.
pub open spec fn stack_count(layers: nat, width: nat) -> nat {
    layers * block_count(width)
}

/// Trainable numbers of a classifier: the input projection, the hidden
/// stack and the output projection.
pub open spec fn model_count(layers: nat, width: nat) -> nat {
    linear_count(INPUT_SPACE_SIZE as nat, width) + stack_count(layers, width) + linear_count(
        width,
        NUM_CLASSES as nat,
    )
}

/// Trainable numbers of a bias-free convolution.
pub open spec fn conv_count(in_channels: nat, out_channels: nat, kernel_size: nat) -> nat {
    out_channels * in_channels * kernel_size
}

/// A count that the engine can index, or nothing.
fn indexable(count: usize) -> (r: Option<usize>)
    ensures
        r == (if count <= isize::MAX {
            Some(count)
        } else {
            None
        }),
{
    if count <= isize::MAX as usize {
        Some(count)
    } else {
        None
    }
}

/// Whether the engine can index a tensor of `rows` by `width`, neither of
/// them zero.
pub fn product_fits(rows: usize, width: usize) -> (r: bool)
    ensures
        r == (rows * width <= isize::MAX),
{
    match rows.checked_mul(width) {
        Some(count) => count <= isize::MAX as usize,
        None => false,
    }
}

/// Computes `linear_count`, or nothing when the engine cannot index that
/// many numbers.
pub fn linear_parameter_count(d_input: usize, d_output: usize) -> (r: Option<usize>)
    ensures
        r.is_some() <==> linear_count(d_input as nat, d_output as nat) <= isize::MAX,
        r.is_some() ==> r.unwrap() == linear_count(d_input as nat, d_output as nat),
{
    match d_input.checked_mul(d_output) {
        Some(weights) => match weights.checked_add(d_output) {
            Some(count) => indexable(count),
            None => None,
        },
        None => {
            None
        },
    }
}

/// Computes `stack_count`, or nothing when the engine cannot index that
/// many numbers.
pub fn stack_parameter_count(layers: usize, width: usize) -> (r: Option<usize>)
    ensures
        r.is_some() <==> stack_count(layers as nat, width as nat) <= isize::MAX,
        r.is_some() ==> r.unwrap() == stack_count(layers as nat, width as nat),
{
    if layers == 0 {
        return Some(0);
    }
    match linear_parameter_count(width, width) {
        Some(block) => match layers.checked_mul(block) {
            Some(count) => indexable(count),
            None => None,
        },
        None => {
            assert(layers * block_count(width as nat) >= block_count(width as nat))
                by (nonlinear_arith)
                requires
                    layers >= 1,
                    block_count(width as nat) >= 0,
            ;
            None
        },
    }
}

/// Computes `model_count`, or nothing when the engine cannot index that
/// many numbers.
pub fn model_parameter_count(layers: usize, width: usize) -> (r: Option<usize>)
    ensures
        r.is_some() <==> model_count(layers as nat, width as nat) <= isize::MAX,
        r.is_some() ==> r.unwrap() == model_count(layers as nat, width as nat),
{
    let input = match linear_parameter_count(INPUT_SPACE_SIZE, width) {
        Some(count) => count,
        None => {
            return None;
        },
    };
    let stack = match stack_parameter_count(layers, width) {
        Some(count) => count,
        None => {
            return None;
        },
    };
    let output = match linear_parameter_count(width, NUM_CLASSES) {
        Some(count) => count,
        None => {
            return None;
        },
    };
    match input.checked_add(stack) {
        Some(front) => match front.checked_add(output) {
            Some(count) => indexable(count),
            None => None,
        },
        None => None,
    }
}

/// Computes `conv_count`, or nothing when the engine cannot index that many
/// numbers.
pub fn conv_parameter_count(in_channels: usize, out_channels: usize, kernel_size: usize) -> (r:
    Option<usize>)
    ensures
        r.is_some() <==> conv_count(in_channels as nat, out_channels as nat, kernel_size as nat)
            <= isize::MAX,
        r.is_some() ==> r.unwrap() == conv_count(
            in_channels as nat,
            out_channels as nat,
            kernel_size as nat,
        ),
{
    if in_channels == 0 || out_channels == 0 || kernel_size == 0 {
        return Some(0);
    }
    match out_channels.checked_mul(in_channels) {
        Some(plane) => match plane.checked_mul(kernel_size) {
            Some(count) => indexable(count),
            None => None,
        },
        None => {
            assert(out_channels * in_channels * kernel_size >= out_channels * in_channels)
                by (nonlinear_arith)
                requires
                    kernel_size >= 1,
                    out_channels * in_channels >= 0,
            ;
            None
        },
    }
}

} // verus!
