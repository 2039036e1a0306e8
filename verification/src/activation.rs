//! The bounded activation: a logistic curve with a tunable steepness.

use crate::engine::number_negated;
use crate::engine::number_plus;
use crate::engine::number_product;
use crate::engine::number_reciprocal;
use crate::engine::reciprocal_in_unit_interval;
use crate::engine::sum_at_least_one;
use crate::engine::tensor_add_scalar;
use crate::engine::tensor_exp;
use crate::engine::tensor_mul_scalar;
use crate::engine::tensor_neg;
use crate::engine::tensor_recip;
use crate::error::ModelError;
use crate::scalar::as_number;
use crate::scalar::numbers;
use crate::scalar::Scalar;
use crate::tensor::tensor2_bits;
use crate::tensor::tensor2_extent;
use crate::tensor::Tensor2;
use vstd::prelude::*;

verus! {

/// What is handed to the exponential for an element `x` and a steepness
/// `k`: the number `-(k x)`.
pub open spec fn decay_argument(x: u32, strength: u32) -> u32 {
    number_negated(number_product(x, strength))
}

/// What the curve makes of an exponential `e`: the number `1 / (1 + e)`.
pub open spec fn bounded(decay: u32) -> u32 {
    number_reciprocal(number_plus(decay, 1))
}

/// Whether `scores` holds, place by place, what the curve makes of the
/// exponentials in `decay`.
pub open spec fn bounds(decay: Seq<u32>, scores: Seq<u32>) -> bool {
    &&& decay.len() == scores.len()
    &&& forall|i: int|
        0 <= i < scores.len() ==> as_number(#[trigger] scores[i]) == bounded(decay[i])
}

/// What a score can be: a number from zero to one, or a NaN.
pub open spec fn is_score(bits: u32) -> bool {
    (Scalar { bits }).is_nan() || (Scalar { bits }).is_probability()
}

/// The map `x -> 1 / (1 + exp(-k x))`, applied to every element, for a
/// steepness `k` fixed at construction.  The steepness is a hyperparameter:
/// it is not trained.
#[derive(Debug)]
pub struct Sigmoid {
    strength: Scalar,
}

impl Sigmoid {
    #[verifier::type_invariant]
    spec fn well_formed(&self) -> bool {
        self.strength.is_positive_finite()
    }

    /// The steepness `k`.
    pub closed spec fn strength(&self) -> Scalar {
        self.strength
    }

    /// Builds the activation, refusing a steepness that is not a finite
    /// positive number.
    pub fn new(strength: Scalar) -> (r: Result<Sigmoid, ModelError>)
        ensures
            match r {
                Ok(built) => strength.is_positive_finite() && built.strength() == strength,
                Err(e) => !strength.is_positive_finite() && e == ModelError::InvalidSteepness,
            },
    {
        if strength.check_positive_finite() {
            Ok(Sigmoid { strength })
        } else {
            Err(ModelError::InvalidSteepness)
        }
    }

    /// The steepness `k`, which is finite and positive.
    pub fn steepness(&self) -> (r: Scalar)
        ensures
            r == self.strength(),
            r.is_positive_finite(),
    {
        proof {
            use_type_invariant(self);
        }
        self.strength
    }

    /// The argument of the exponential: every element scaled by the
    /// steepness, with its sign switched.
    pub fn exponent(&self, input: Tensor2) -> (r: Tensor2)
        ensures
            tensor2_extent(r) == tensor2_extent(input),
            numbers(tensor2_bits(r)) == tensor2_bits(input).map_values(
                |x: u32| decay_argument(x, self.strength().bits),
            ),
    {
        let scaled = tensor_mul_scalar(input, self.strength);
        let r = tensor_neg(scaled);
        proof {
            let k = self.strength.bits;
            assert(tensor2_bits(scaled).len() == tensor2_bits(input).len()) by {
                assert(numbers(tensor2_bits(scaled)).len() == tensor2_bits(scaled).len());
            }
            assert forall|i: int| 0 <= i < tensor2_bits(input).len() implies as_number(
                tensor2_bits(scaled)[i],
            ) == number_product(tensor2_bits(input)[i], k) by {
                assert(numbers(tensor2_bits(scaled))[i] == as_number(tensor2_bits(scaled)[i]));
            }
            assert forall|i: int| 0 <= i < tensor2_bits(scaled).len() implies number_negated(
                tensor2_bits(scaled)[i],
            ) == decay_argument(tensor2_bits(input)[i], k) by {
                lemma_negated_number(tensor2_bits(scaled)[i]);
            }
            assert(numbers(tensor2_bits(r)) =~= tensor2_bits(input).map_values(
                |x: u32| decay_argument(x, k),
            ));
        }
        r
    }

    /// Bounds the exponentials that the engine returned: adds one to each
    /// and takes the reciprocal.  Where an exponential is not a number below
    /// zero, the result is a score.
    pub fn bound(decay: Tensor2) -> (r: Tensor2)
        ensures
            tensor2_extent(r) == tensor2_extent(decay),
            bounds(tensor2_bits(decay), tensor2_bits(r)),
            forall|i: int|
                0 <= i < tensor2_bits(r).len() ==> (Scalar { bits: tensor2_bits(decay)[i] })
                    .is_negative() || is_score(#[trigger] tensor2_bits(r)[i]),
    {
        let raised = tensor_add_scalar(decay, 1);
        let r = tensor_recip(raised);
        proof {
            assert(tensor2_bits(raised).len() == tensor2_bits(decay).len()) by {
                assert(numbers(tensor2_bits(raised)).len() == tensor2_bits(raised).len());
            }
            assert(tensor2_bits(r).len() == tensor2_bits(raised).len()) by {
                assert(numbers(tensor2_bits(r)).len() == tensor2_bits(r).len());
            }
            assert forall|i: int| 0 <= i < tensor2_bits(r).len() implies as_number(
                #[trigger] tensor2_bits(r)[i],
            ) == bounded(tensor2_bits(decay)[i]) by {
                assert(numbers(tensor2_bits(raised))[i] == as_number(tensor2_bits(raised)[i]));
                assert(numbers(tensor2_bits(r))[i] == as_number(tensor2_bits(r)[i]));
            }
            assert forall|i: int| 0 <= i < tensor2_bits(r).len() implies (Scalar {
                bits: tensor2_bits(decay)[i],
            }).is_negative() || is_score(#[trigger] tensor2_bits(r)[i]) by {
                assert(sum_at_least_one(tensor2_bits(decay)[i], tensor2_bits(raised)[i]));
                assert(reciprocal_in_unit_interval(tensor2_bits(raised)[i], tensor2_bits(r)[i]));
            }
        }
        r
    }

    /// Applies the curve to every element: hands `-(k x)` to the engine's
    /// exponential and bounds what comes back.  The result has the extent of
    /// the input, and each of its elements is `1 / (1 + e)` for the number
    /// `e` that the exponential returned at its place: a score.
    pub fn forward(&self, input: Tensor2) -> (r: Tensor2)
        ensures
            tensor2_extent(r) == tensor2_extent(input),
            tensor2_bits(r).len() == tensor2_bits(input).len(),
            exists|decay: Seq<u32>| #[trigger] bounds(decay, tensor2_bits(r)),
            forall|i: int| 0 <= i < tensor2_bits(r).len() ==> is_score(#[trigger] tensor2_bits(r)[i]),
    {
        let argument = self.exponent(input);
        proof {
            assert(numbers(tensor2_bits(argument)).len() == tensor2_bits(argument).len());
        }
        let decay = tensor_exp(argument);
        let r = Sigmoid::bound(decay);
        assert(bounds(tensor2_bits(decay), tensor2_bits(r)));
        r
    }
}

/// Switching the sign looks only at the number that a pattern stands for.
proof fn lemma_negated_number(bits: u32)
    ensures
        number_negated(as_number(bits)) == number_negated(bits),
{
}

} // verus!
