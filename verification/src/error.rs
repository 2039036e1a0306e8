//! The ways in which building or invoking a component can be refused.

use vstd::prelude::*;

verus! {

/// Why a component could not be built or invoked.
#[derive(Debug, Clone, Copy, PartialEq, Eq, Structural)]
pub enum ModelError {
    /// The hidden stack was asked to hold no block at all.
    InvalidLayerCount,
    /// A layer width or channel count of zero.
    InvalidWidth,
    /// A convolution window of zero positions.
    InvalidKernel,
    /// Sizes that ask for more trainable numbers than the engine can index.
    TooLarge,
    /// A dropout probability outside the closed interval from zero to one.
    InvalidDropout,
    /// An activation steepness that is not a finite positive number.
    InvalidSteepness,
    /// A tensor whose extent disagrees with what the receiving layer expects.
    ShapeMismatch,
    /// A batch without a single sample.
    EmptyBatch,
}

} // verus!
