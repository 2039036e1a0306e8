//! The training objective: a mean-square loss over the scores of a batch.
//! Inference needs nothing of this module.

use crate::engine::all_finite;
use crate::engine::loss_number;
use crate::engine::mse_mean;
use crate::error::ModelError;
use crate::model::KordModel;
use crate::params::product_fits;
use crate::scalar::as_number;
use crate::scalar::Scalar;
use crate::tensor::tensor2_bits;
use crate::tensor::tensor2_extent;
use crate::tensor::Tensor2;
use crate::INPUT_SPACE_SIZE;
use crate::NUM_CLASSES;
use vstd::prelude::*;

verus! {

/// One training step's worth of data: a batch of feature rows and, for each,
/// a row of target scores.
#[derive(Debug)]
pub struct KordBatch {
    pub samples: Tensor2,
    pub targets: Tensor2,
}

/// What one training step yields: the loss, the scores it was computed
/// from, and the targets it was computed against.
#[derive(Debug)]
pub struct KordClassificationOutput {
    pub loss: Scalar,
    pub output: Tensor2,
    pub targets: Tensor2,
}

/// Whether `loss` is the mean-square loss of `output` against `targets`: as
/// a number it is the named mean square of the two, in either order, and it
/// is positive zero where the two agree everywhere and are finite.
pub open spec fn is_loss(output: Seq<u32>, targets: Seq<u32>, loss: u32) -> bool {
    &&& as_number(loss) == loss_number(output, targets)
    &&& as_number(loss) == loss_number(targets, output)
    &&& output == targets && all_finite(output) ==> loss == 0
}

/// The mean over all elements of the squared difference between scores and
/// targets.
#[derive(Debug, Clone, Copy)]
pub struct MeanSquareLoss {}

impl Default for MeanSquareLoss {
    fn default() -> (r: MeanSquareLoss)
        ensures
            r == (MeanSquareLoss {  }),
    {
        MeanSquareLoss {  }
    }
}

impl MeanSquareLoss {
    /// Whether the loss is defined for a pair of tensors: one extent, and
    /// at least one element.
    pub open spec fn comparable(output: Tensor2, targets: Tensor2) -> bool {
        &&& tensor2_extent(output) == tensor2_extent(targets)
        &&& output.rows() >= 1
        &&& output.cols() >= 1
    }

    /// The loss of `output` against `targets`.  It is the same with the two
    /// in the other order, and zero where they agree and are finite.
    pub fn forward(&self, output: Tensor2, targets: Tensor2) -> (r: Scalar)
        requires
            MeanSquareLoss::comparable(output, targets),
        ensures
            is_loss(tensor2_bits(output), tensor2_bits(targets), r.bits),
    {
        mse_mean(output, targets)
    }

    /// As `forward`, after testing the extents: tensors of different extent
    /// are refused, and so is a pair without elements.
    pub fn try_forward(&self, output: Tensor2, targets: Tensor2) -> (r: Result<Scalar, ModelError>)
        ensures
            match r {
                Ok(loss) => MeanSquareLoss::comparable(output, targets) && is_loss(
                    tensor2_bits(output),
                    tensor2_bits(targets),
                    loss.bits,
                ),
                Err(e) => !MeanSquareLoss::comparable(output, targets) && e == (
                    if tensor2_extent(output) != tensor2_extent(targets) {
                        ModelError::ShapeMismatch
                    } else {
                        ModelError::EmptyBatch
                    }
                ),
            },
    {
        let (rows, cols) = output.dims();
        let (target_rows, target_cols) = targets.dims();
        if rows != target_rows || cols != target_cols {
            Err(ModelError::ShapeMismatch)
        } else if rows == 0 || cols == 0 {
            Err(ModelError::EmptyBatch)
        } else {
            Ok(self.forward(output, targets))
        }
    }
}

impl KordModel {
    /// The first reason to refuse a training batch, if there is one: samples
    /// that `forward` refuses, or targets that are not one row of
    /// `NUM_CLASSES` scores for each sample.
    pub open spec fn training_error(&self, item: KordBatch) -> Option<ModelError> {
        if self.input_error(item.samples).is_some() {
            self.input_error(item.samples)
        } else if tensor2_extent(item.targets) != (item.samples.rows(), NUM_CLASSES as nat) {
            Some(ModelError::ShapeMismatch)
        } else {
            None
        }
    }

    /// Scores the samples of a batch and measures the scores against the
    /// targets.  The batch holds at least one sample of `INPUT_SPACE_SIZE`
    /// features and, for each sample, a row of `NUM_CLASSES` targets.  The
    /// targets are handed back as they came, beside the scores that `forward`
    /// returns for the samples and the mean-square loss of these scores
    /// against the targets.
    pub fn forward_classification(&self, item: KordBatch) -> (r: KordClassificationOutput)
        requires
            self.training_error(item).is_none(),
        ensures
            r.targets == item.targets,
            self.scores(item.samples, r.output),
            is_loss(tensor2_bits(r.output), tensor2_bits(r.targets), r.loss.bits),
    {
        let targets = item.targets;
        let output = self.forward(item.samples);
        let loss = MeanSquareLoss::default();
        let loss = loss.forward(output.duplicate(), targets.duplicate());
        KordClassificationOutput { loss, output, targets }
    }

    /// As `forward_classification`, after testing the extents of the batch.
    pub fn try_forward_classification(&self, item: KordBatch) -> (r: Result<
        KordClassificationOutput,
        ModelError,
    >)
        ensures
            match r {
                Ok(step) => self.training_error(item).is_none() && step.targets == item.targets
                    && self.scores(item.samples, step.output) && is_loss(
                    tensor2_bits(step.output),
                    tensor2_bits(step.targets),
                    step.loss.bits,
                ),
                Err(e) => self.training_error(item) == Some(e),
            },
    {
        let (rows, cols) = item.samples.dims();
        let (target_rows, target_cols) = item.targets.dims();
        let fits = product_fits(rows, INPUT_SPACE_SIZE) && product_fits(rows, self.mlp_size())
            && product_fits(rows, NUM_CLASSES);
        assert(fits == (item.samples.rows() * INPUT_SPACE_SIZE <= isize::MAX && item.samples.rows()
            * self.hidden_width() <= isize::MAX && item.samples.rows() * NUM_CLASSES
            <= isize::MAX));
        if rows == 0 {
            Err(ModelError::EmptyBatch)
        } else if cols != INPUT_SPACE_SIZE {
            Err(ModelError::ShapeMismatch)
        } else if !fits {
            Err(ModelError::TooLarge)
        } else if target_rows != rows || target_cols != NUM_CLASSES {
            Err(ModelError::ShapeMismatch)
        } else {
            Ok(self.forward_classification(item))
        }
    }
}

} // verus!
