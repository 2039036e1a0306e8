//! The classifier: input projection, hidden stack, output projection and
//! bounded activation, in that order.

use crate::activation::Sigmoid;
use crate::engine::linear_bias;
use crate::engine::linear_bias_bits;
use crate::engine::linear_extent;
use crate::engine::linear_forward;
use crate::engine::linear_from_bits;
use crate::engine::linear_init;
use crate::engine::linear_weight;
use crate::engine::linear_weight_bits;
use crate::engine::Linear;
use crate::error::ModelError;
use crate::activation::bounds;
use crate::activation::is_score;
use crate::mlp::batch_error;
use crate::mlp::passes;
use crate::mlp::Mlp;
use crate::params::model_count;
use crate::params::model_parameter_count;
use crate::params::product_fits;
use crate::params::stack_count;
use crate::params::stack_parameter_count;
use crate::double::Double;
use crate::scalar::Scalar;
use crate::tensor::tensor2_bits;
use crate::tensor::tensor2_extent;
use crate::tensor::Tensor2;
use crate::INPUT_SPACE_SIZE;
use crate::NUM_CLASSES;
use vstd::prelude::*;

verus! {

/// The first reason to refuse the four hyperparameters of a classifier, if
/// there is one: a depth of zero, a width of zero, sizes that ask for more
/// trainable numbers than the engine can index, a dropout probability
/// outside the closed interval from zero to one, or a steepness that is not
/// a finite positive number.
pub open spec fn hyperparameter_error(
    mlp_layers: usize,
    mlp_size: usize,
    mlp_dropout: Double,
    sigmoid_strength: Scalar,
) -> Option<ModelError> {
    if mlp_layers == 0 {
        Some(ModelError::InvalidLayerCount)
    } else if mlp_size == 0 {
        Some(ModelError::InvalidWidth)
    } else if model_count(mlp_layers as nat, mlp_size as nat) > isize::MAX {
        Some(ModelError::TooLarge)
    } else if !mlp_dropout.is_probability() {
        Some(ModelError::InvalidDropout)
    } else if !sigmoid_strength.is_positive_finite() {
        Some(ModelError::InvalidSteepness)
    } else {
        None
    }
}

/// The first reason to refuse a classifier that is to hold `given` trainable
/// numbers, if there is one: what `hyperparameter_error` says, or
/// another count than the classifier holds.
pub open spec fn restore_error(
    mlp_layers: usize,
    mlp_size: usize,
    mlp_dropout: Double,
    sigmoid_strength: Scalar,
    given: nat,
) -> Option<ModelError> {
    if hyperparameter_error(mlp_layers, mlp_size, mlp_dropout, sigmoid_strength).is_some() {
        hyperparameter_error(mlp_layers, mlp_size, mlp_dropout, sigmoid_strength)
    } else if given != model_count(mlp_layers as nat, mlp_size as nat) {
        Some(ModelError::ShapeMismatch)
    } else {
        None
    }
}

/// The first reason to refuse a classifier that is to be restored from a
/// whole parameter tree, if there is one: a tree that lacks even the
/// steepness, or what `restore_error` says of the steepness at the end of
/// the tree and the trainable numbers before it.
pub open spec fn tree_error(
    mlp_layers: usize,
    mlp_size: usize,
    mlp_dropout: Double,
    tree: Seq<u32>,
) -> Option<ModelError> {
    if tree.len() == 0 {
        Some(ModelError::ShapeMismatch)
    } else {
        restore_error(
            mlp_layers,
            mlp_size,
            mlp_dropout,
            Scalar { bits: tree.last() },
            (tree.len() - 1) as nat,
        )
    }
}

/// Hyperparameters are accepted exactly when the depth and the width are at
/// least one, the engine can index the trainable numbers, the dropout
/// probability lies in the closed interval from zero to one, and the
/// steepness is a finite positive number.
pub proof fn lemma_accepted_hyperparameters(
    mlp_layers: usize,
    mlp_size: usize,
    mlp_dropout: Double,
    sigmoid_strength: Scalar,
)
    ensures
        hyperparameter_error(mlp_layers, mlp_size, mlp_dropout, sigmoid_strength).is_none() <==> (
        mlp_layers >= 1 && mlp_size >= 1 && model_count(mlp_layers as nat, mlp_size as nat)
            <= isize::MAX && mlp_dropout.is_probability()
            && sigmoid_strength.is_positive_finite()),
{
}

/// Where the engine can index the trainable numbers of a classifier, it can
/// index those of each part.
pub proof fn lemma_parts_fit(layers: nat, width: nat)
    requires
        model_count(layers, width) <= isize::MAX,
    ensures
        INPUT_SPACE_SIZE * width <= isize::MAX,
        width * NUM_CLASSES <= isize::MAX,
        stack_count(layers, width) <= isize::MAX,
{
    assert(INPUT_SPACE_SIZE * width >= 0 && width * NUM_CLASSES >= 0 && layers * (width * width
        + width) >= 0) by (nonlinear_arith);
}

/// Decides `hyperparameter_error`.
pub fn check_hyperparameters(
    mlp_layers: usize,
    mlp_size: usize,
    mlp_dropout: Double,
    sigmoid_strength: Scalar,
) -> (r: Result<(), ModelError>)
    ensures
        match r {
            Ok(_) => hyperparameter_error(mlp_layers, mlp_size, mlp_dropout, sigmoid_strength)
                .is_none(),
            Err(e) => hyperparameter_error(mlp_layers, mlp_size, mlp_dropout, sigmoid_strength)
                == Some(e),
        },
{
    if mlp_layers == 0 {
        Err(ModelError::InvalidLayerCount)
    } else if mlp_size == 0 {
        Err(ModelError::InvalidWidth)
    } else if model_parameter_count(mlp_layers, mlp_size).is_none() {
        Err(ModelError::TooLarge)
    } else if !mlp_dropout.check_probability() {
        Err(ModelError::InvalidDropout)
    } else if !sigmoid_strength.check_positive_finite() {
        Err(ModelError::InvalidSteepness)
    } else {
        Ok(())
    }
}

/// A feed-forward classifier from rows of `INPUT_SPACE_SIZE` features to
/// rows of `NUM_CLASSES` scores.
#[derive(Debug)]
pub struct KordModel {
    input: Linear,
    mlp: Mlp,
    output: Linear,
    sigmoid: Sigmoid,
}

impl KordModel {
    #[verifier::type_invariant]
    spec fn well_formed(&self) -> bool {
        &&& self.mlp.width() >= 1
        &&& linear_extent(self.input) == (INPUT_SPACE_SIZE as nat, self.mlp.width() as nat)
        &&& linear_extent(self.output) == (self.mlp.width() as nat, NUM_CLASSES as nat)
        &&& linear_weight(self.input).len() == INPUT_SPACE_SIZE * self.mlp.width()
        &&& linear_bias(self.input).len() == self.mlp.width()
        &&& linear_weight(self.output).len() == self.mlp.width() * NUM_CLASSES
        &&& linear_bias(self.output).len() == NUM_CLASSES
    }

    /// The number of residual blocks in the hidden stack.
    pub closed spec fn depth(&self) -> nat {
        self.mlp.depth()
    }

    /// The width of the hidden representation.
    pub closed spec fn hidden_width(&self) -> usize {
        self.mlp.width()
    }

    /// The dropout probability of the hidden stack.
    pub closed spec fn dropout(&self) -> Double {
        self.mlp.probability()
    }

    /// The steepness of the bounded activation.
    pub closed spec fn steepness(&self) -> Scalar {
        self.sigmoid.strength()
    }

    /// The trainable numbers of the classifier: the weights and biases of
    /// the input projection, those of the hidden stack, and the weights and
    /// biases of the output projection.  The steepness is not among them.
    pub closed spec fn parameter_bits(&self) -> Seq<u32> {
        linear_weight(self.input) + linear_bias(self.input) + self.mlp.parameter_bits()
            + linear_weight(self.output) + linear_bias(self.output)
    }

    /// The whole parameter tree, to be kept and restored as one: the
    /// trainable numbers, then the steepness of the activation.
    pub closed spec fn tree_bits(&self) -> Seq<u32> {
        self.parameter_bits().push(self.steepness().bits)
    }

    /// Whether `output` can be what the classifier returns for `input`: one
    /// row of `NUM_CLASSES` scores for each row of the input, each score
    /// `1 / (1 + e)` for some number `e`, behind a hidden stack that rows of
    /// the hidden width entered and passed block by block.
    pub open spec fn scores(&self, input: Tensor2, output: Tensor2) -> bool {
        &&& tensor2_extent(output) == (input.rows(), NUM_CLASSES as nat)
        &&& tensor2_bits(output).len() == input.rows() * NUM_CLASSES
        &&& exists|entered: Seq<u32>, left: Seq<u32>| #[trigger]
            passes(entered, self.depth(), left) && entered.len() == input.rows()
                * self.hidden_width()
        &&& exists|decay: Seq<u32>| #[trigger] bounds(decay, tensor2_bits(output))
        &&& forall|i: int|
            0 <= i < tensor2_bits(output).len() ==> is_score(#[trigger] tensor2_bits(output)[i])
    }

    /// The first reason to refuse a batch handed to the classifier, if there
    /// is one: no row at all, rows of another width than `INPUT_SPACE_SIZE`,
    /// or so many rows that the engine cannot index what a stage returns.
    pub open spec fn input_error(&self, input: Tensor2) -> Option<ModelError> {
        if batch_error(input, INPUT_SPACE_SIZE as nat).is_some() {
            batch_error(input, INPUT_SPACE_SIZE as nat)
        } else if input.rows() * self.hidden_width() > isize::MAX || input.rows() * NUM_CLASSES
            > isize::MAX {
            Some(ModelError::TooLarge)
        } else {
            None
        }
    }

    /// Whether a tensor is a batch that the classifier accepts.
    pub open spec fn accepts(&self, input: Tensor2) -> bool {
        self.input_error(input).is_none()
    }

    /// Builds a classifier with weights drawn at random, refusing
    /// hyperparameters as `hyperparameter_error` says.  The parts are built
    /// in the order in which a batch passes them.
    pub fn new(mlp_layers: usize, mlp_size: usize, mlp_dropout: Double, sigmoid_strength: Scalar)
        -> (r: Result<KordModel, ModelError>)
        ensures
            match r {
                Ok(model) => hyperparameter_error(
                    mlp_layers,
                    mlp_size,
                    mlp_dropout,
                    sigmoid_strength,
                ).is_none() && model.depth() == mlp_layers && model.hidden_width() == mlp_size
                    && model.dropout() == mlp_dropout && model.steepness() == sigmoid_strength,
                Err(e) => hyperparameter_error(
                    mlp_layers,
                    mlp_size,
                    mlp_dropout,
                    sigmoid_strength,
                ) == Some(e),
            },
    {
        match check_hyperparameters(mlp_layers, mlp_size, mlp_dropout, sigmoid_strength) {
            Ok(_) => {},
            Err(e) => {
                return Err(e);
            },
        }
        proof {
            lemma_parts_fit(mlp_layers as nat, mlp_size as nat);
        }
        let input = linear_init(INPUT_SPACE_SIZE, mlp_size);
        let mlp = match Mlp::new(mlp_layers, mlp_size, mlp_dropout) {
            Ok(mlp) => mlp,
            Err(e) => {
                return Err(e);
            },
        };
        let output = linear_init(mlp_size, NUM_CLASSES);
        let sigmoid = match Sigmoid::new(sigmoid_strength) {
            Ok(sigmoid) => sigmoid,
            Err(e) => {
                return Err(e);
            },
        };
        Ok(KordModel { input, mlp, output, sigmoid })
    }

    /// Builds a classifier that holds the given trainable numbers, listed as
    /// `parameters` lists them.  Besides what `new` refuses, a list of
    /// another length than the classifier holds is refused: the numbers are
    /// taken as a whole or not at all.
    pub fn from_parameters(
        mlp_layers: usize,
        mlp_size: usize,
        mlp_dropout: Double,
        sigmoid_strength: Scalar,
        params: Vec<u32>,
    ) -> (r: Result<KordModel, ModelError>)
        ensures
            match r {
                Ok(model) => restore_error(
                    mlp_layers,
                    mlp_size,
                    mlp_dropout,
                    sigmoid_strength,
                    params@.len(),
                ).is_none() && model.depth() == mlp_layers && model.hidden_width() == mlp_size
                    && model.dropout() == mlp_dropout && model.steepness() == sigmoid_strength
                    && model.parameter_bits() == params@,
                Err(e) => restore_error(
                    mlp_layers,
                    mlp_size,
                    mlp_dropout,
                    sigmoid_strength,
                    params@.len(),
                ) == Some(e),
            },
    {
        match check_hyperparameters(mlp_layers, mlp_size, mlp_dropout, sigmoid_strength) {
            Ok(_) => {},
            Err(e) => {
                return Err(e);
            },
        }
        proof {
            lemma_parts_fit(mlp_layers as nat, mlp_size as nat);
        }
        let mut input_weight = params;
        match model_parameter_count(mlp_layers, mlp_size) {
            Some(count) => {
                if input_weight.len() != count {
                    return Err(ModelError::ShapeMismatch);
                }
            },
            None => {
                return Err(ModelError::TooLarge);
            },
        }
        let stack_len = match stack_parameter_count(mlp_layers, mlp_size) {
            Some(count) => count,
            None => {
                return Err(ModelError::TooLarge);
            },
        };
        let mut input_bias = input_weight.split_off(INPUT_SPACE_SIZE * mlp_size);
        let mut stack = input_bias.split_off(mlp_size);
        let mut output_weight = stack.split_off(stack_len);
        let output_bias = output_weight.split_off(mlp_size * NUM_CLASSES);
        assert(input_weight@ + input_bias@ + stack@ + output_weight@ + output_bias@ =~= params@);
        let input = linear_from_bits(INPUT_SPACE_SIZE, mlp_size, input_weight, input_bias);
        let mlp = match Mlp::from_parameters(mlp_layers, mlp_size, mlp_dropout, stack) {
            Ok(mlp) => mlp,
            Err(e) => {
                return Err(e);
            },
        };
        let output = linear_from_bits(mlp_size, NUM_CLASSES, output_weight, output_bias);
        let sigmoid = match Sigmoid::new(sigmoid_strength) {
            Ok(sigmoid) => sigmoid,
            Err(e) => {
                return Err(e);
            },
        };
        Ok(KordModel { input, mlp, output, sigmoid })
    }

    /// Lists the trainable numbers of the classifier: the weights and biases
    /// of the input projection, those of the hidden stack, and the weights
    /// and biases of the output projection.
    pub fn parameters(&self) -> (r: Vec<u32>)
        ensures
            r@ == self.parameter_bits(),
            r@.len() == model_count(self.depth(), self.hidden_width() as nat),
    {
        proof {
            use_type_invariant(self);
        }
        let mut listed = linear_weight_bits(&self.input);
        let mut input_bias = linear_bias_bits(&self.input);
        let mut stack = self.mlp.parameters();
        let mut output_weight = linear_weight_bits(&self.output);
        let mut output_bias = linear_bias_bits(&self.output);
        listed.append(&mut input_bias);
        listed.append(&mut stack);
        listed.append(&mut output_weight);
        listed.append(&mut output_bias);
        listed
    }

    /// Lists the whole parameter tree: the trainable numbers as `parameters`
    /// lists them, then the steepness of the activation.
    pub fn parameter_tree(&self) -> (r: Vec<u32>)
        ensures
            r@ == self.tree_bits(),
            r@.len() == model_count(self.depth(), self.hidden_width() as nat) + 1,
    {
        let mut listed = self.parameters();
        listed.push(self.sigmoid.steepness().to_bits());
        listed
    }

    /// Builds a classifier from a whole parameter tree, listed as
    /// `parameter_tree` lists it: the steepness is taken from its end, the
    /// trainable numbers from what stands before.  The tree is taken as a
    /// whole or not at all.
    pub fn from_parameter_tree(
        mlp_layers: usize,
        mlp_size: usize,
        mlp_dropout: Double,
        tree: Vec<u32>,
    ) -> (r: Result<KordModel, ModelError>)
        ensures
            match r {
                Ok(model) => tree_error(mlp_layers, mlp_size, mlp_dropout, tree@).is_none()
                    && model.depth() == mlp_layers && model.hidden_width() == mlp_size
                    && model.dropout() == mlp_dropout && model.tree_bits() == tree@,
                Err(e) => tree_error(mlp_layers, mlp_size, mlp_dropout, tree@) == Some(e),
            },
    {
        let mut params = tree;
        match params.pop() {
            Some(steepness) => {
                let built = KordModel::from_parameters(
                    mlp_layers,
                    mlp_size,
                    mlp_dropout,
                    Scalar::from_bits(steepness),
                    params,
                );
                proof {
                    assert(params@.push(steepness) =~= tree@);
                }
                built
            },
            None => Err(ModelError::ShapeMismatch),
        }
    }

    /// The width of the hidden representation, which is at least one.
    pub fn mlp_size(&self) -> (r: usize)
        ensures
            r == self.hidden_width(),
            r >= 1,
    {
        self.mlp.row_width()
    }

    /// The number of residual blocks, which is at least one.
    pub fn mlp_layers(&self) -> (r: usize)
        ensures
            r == self.depth(),
            r >= 1,
    {
        self.mlp.layers()
    }

    /// The steepness of the bounded activation, which is finite and positive.
    pub fn sigmoid_strength(&self) -> (r: Scalar)
        ensures
            r == self.steepness(),
            r.is_positive_finite(),
    {
        self.sigmoid.steepness()
    }

    /// Scores a batch: the input projection, the hidden stack, the output
    /// projection and the bounded activation, each applied to the result of
    /// the one before.  The result has one row of `NUM_CLASSES` scores for
    /// each row of the input, as `scores` says.
    pub fn forward(&self, input: Tensor2) -> (r: Tensor2)
        requires
            self.accepts(input),
        ensures
            self.scores(input, r),
    {
        proof {
            use_type_invariant(self);
        }
        let mut x = input;
        x = linear_forward(&self.input, x);
        let ghost entered = tensor2_bits(x);
        x = self.mlp.forward(x);
        assert(passes(entered, self.depth(), tensor2_bits(x)) && entered.len() == input.rows()
            * self.hidden_width());
        x = linear_forward(&self.output, x);
        x = self.sigmoid.forward(x);
        x
    }

    /// As `forward`, after testing the extent of the input: an empty batch,
    /// rows of another width than `INPUT_SPACE_SIZE` and a batch too large
    /// for the engine are refused.
    pub fn try_forward(&self, input: Tensor2) -> (r: Result<Tensor2, ModelError>)
        ensures
            match r {
                Ok(output) => self.accepts(input) && self.scores(input, output),
                Err(e) => self.input_error(input) == Some(e),
            },
    {
        let (rows, cols) = input.dims();
        let fits = product_fits(rows, INPUT_SPACE_SIZE) && product_fits(
            rows,
            self.mlp.row_width(),
        ) && product_fits(rows, NUM_CLASSES);
        assert(fits == (input.rows() * INPUT_SPACE_SIZE <= isize::MAX && input.rows()
            * self.hidden_width() <= isize::MAX && input.rows() * NUM_CLASSES <= isize::MAX));
        if rows == 0 {
            Err(ModelError::EmptyBatch)
        } else if cols != INPUT_SPACE_SIZE {
            Err(ModelError::ShapeMismatch)
        } else if !fits {
            Err(ModelError::TooLarge)
        } else {
            Ok(self.forward(input))
        }
    }
}

} // verus!
