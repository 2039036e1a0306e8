//! A feed-forward classifier over fixed-width feature vectors: an input
//! projection, a stack of residual blocks, an output projection and a
//! bounded activation, together with a mean-square training objective and a
//! reusable convolutional block.
//!
//! Numbers cross the library's boundary as IEEE-754 bit patterns, binary32
//! for tensor elements and the steepness, binary64 for the dropout probability;
//! the numeric work itself is done by the tensor engine.  What is proved
//! here is the architecture: which hyperparameters are accepted, in which
//! order the stages run, and that every stage receives a tensor of the
//! extent it expects.

use vstd::prelude::*;

pub mod activation;
pub mod conv;
pub mod double;
pub mod engine;
pub mod error;
pub mod mlp;
pub mod model;
pub mod params;
pub mod scalar;
pub mod tensor;
pub mod train;

verus! {

/// Width of one feature vector handed to the classifier.
pub const INPUT_SPACE_SIZE: usize = 24;

/// Number of classes the classifier scores.
pub const NUM_CLASSES: usize = 12;

} // verus!
