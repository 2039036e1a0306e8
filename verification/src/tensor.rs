//! Tensors of the engine, seen from the library as an extent and a row-major
//! sequence of binary32 bit patterns.

use burn::backend::NdArray;
use burn::tensor::backend::Backend;
use vstd::prelude::*;

verus! {

/// An extent as the engine counts it when it sizes a tensor: an empty axis
/// counts as one.
pub open spec fn at_least_one(n: int) -> int {
    if n == 0 {
        1
    } else {
        n
    }
}

/// Whether the engine can index a tensor of `rows` by `cols`: the product of
/// its non-empty extents fits a signed machine word.
pub open spec fn indexable2(rows: int, cols: int) -> bool {
    at_least_one(rows) * at_least_one(cols) <= isize::MAX
}

/// Whether the engine can index a tensor of the three given extents.
pub open spec fn indexable3(batch: int, channels: int, length: int) -> bool {
    at_least_one(batch) * at_least_one(channels) * at_least_one(length) <= isize::MAX
}

/// The product of two extents, each empty one counted as one, when it fits a
/// signed machine word.
fn checked_extent(a: usize, b: usize) -> (r: Option<usize>)
    ensures
        r.is_some() <==> at_least_one(a as int) * at_least_one(b as int) <= isize::MAX,
        r.is_some() ==> r.unwrap() == at_least_one(a as int) * at_least_one(b as int),
        r.is_some() ==> r.unwrap() >= 1,
{
    let a1: usize = if a == 0 {
        1
    } else {
        a
    };
    let b1: usize = if b == 0 {
        1
    } else {
        b
    };
    proof {
        lemma_product_monotone(1, a1 as int, b1 as int);
    }
    match a1.checked_mul(b1) {
        Some(product) => {
            if product <= isize::MAX as usize {
                Some(product)
            } else {
                None
            }
        },
        None => None,
    }
}

/// Decides `indexable3`.
pub fn extents_fit(batch: usize, channels: usize, length: usize) -> (r: bool)
    ensures
        r == indexable3(batch as int, channels as int, length as int),
{
    match checked_extent(batch, channels) {
        Some(plane) => checked_extent(plane, length).is_some(),
        None => {
            proof {
                lemma_product_monotone(
                    isize::MAX as int + 1,
                    at_least_one(batch as int) * at_least_one(channels as int),
                    at_least_one(length as int),
                );
                lemma_product_monotone(1, at_least_one(length as int), isize::MAX as int + 1);
                assert((isize::MAX as int + 1) * at_least_one(length as int) == at_least_one(
                    length as int,
                ) * (isize::MAX as int + 1)) by (nonlinear_arith);
            }
            false
        },
    }
}

/// Multiplying by a non-negative factor keeps the order.
proof fn lemma_product_monotone(a: int, b: int, c: int)
    requires
        0 <= a <= b,
        0 <= c,
    ensures
        a * c <= b * c,
{
    assert(a * c <= b * c) by (nonlinear_arith)
        requires
            0 <= a <= b,
            0 <= c,
    ;
}

/// A rank-two tensor of the engine: a batch of rows.
#[derive(Debug)]
#[verifier::external_body]
pub struct Tensor2 {
    pub(crate) inner: burn::tensor::Tensor<burn::backend::NdArray, 2>,
}

/// Extent of a rank-two tensor: its rows, then its columns.
pub uninterp spec fn tensor2_extent(t: Tensor2) -> (nat, nat);

/// Elements of a rank-two tensor as binary32 bit patterns, row by row.
pub uninterp spec fn tensor2_bits(t: Tensor2) -> Seq<u32>;

/// `Tensor::dims`: the two extents of the tensor, rows first.
#[verifier::external_body]
fn engine_dims2(t: &Tensor2) -> (r: [usize; 2])
    ensures
        tensor2_extent(*t) == (r[0] as nat, r[1] as nat),
{
    t.inner.dims()
}

/// `Tensor::from_data` on `Data::new`: a tensor of `rows` by `cols` whose
/// elements are the given patterns, row by row.  The engine refuses a count
/// of values other than `rows * cols`, and extents that are not indexable.
#[verifier::external_body]
fn engine_from_bits2(rows: usize, cols: usize, bits: Vec<u32>) -> (r: Tensor2)
    requires
        bits@.len() == rows * cols,
        indexable2(rows as int, cols as int),
    ensures
        tensor2_extent(r) == (rows as nat, cols as nat),
        tensor2_bits(r) == bits@,
{
    let values: Vec<<NdArray as Backend>::FloatElem> =
        bits.into_iter().map(<NdArray as Backend>::FloatElem::from_bits).collect();
    let data = burn::tensor::Data::new(values, burn::tensor::Shape::new([rows, cols]));
    Tensor2 { inner: burn::tensor::Tensor::from_data(data, &Default::default()) }
}

/// `Tensor::to_data`: the elements of the tensor, row by row.
#[verifier::external_body]
fn engine_to_bits2(t: &Tensor2) -> (r: Vec<u32>)
    ensures
        r@ == tensor2_bits(*t),
        r@.len() == tensor2_extent(*t).0 * tensor2_extent(*t).1,
{
    t.inner.to_data().value.into_iter().map(|v| v.to_bits()).collect()
}

/// `Clone::clone` of a tensor: the same extent and the same elements.
#[verifier::external_body]
fn engine_clone2(t: &Tensor2) -> (r: Tensor2)
    ensures
        tensor2_extent(r) == tensor2_extent(*t),
        tensor2_bits(r) == tensor2_bits(*t),
{
    Tensor2 { inner: t.inner.clone() }
}

impl Tensor2 {
    /// Builds the tensor of `rows` by `cols` that holds the given patterns
    /// row by row, or nothing when their count is not `rows * cols` or the
    /// extents are not indexable.
    pub fn from_bits(rows: usize, cols: usize, bits: Vec<u32>) -> (r: Option<Tensor2>)
        ensures
            r.is_some() <==> bits@.len() == rows * cols && indexable2(rows as int, cols as int),
            r.is_some() ==> tensor2_extent(r.unwrap()) == (rows as nat, cols as nat)
                && tensor2_bits(r.unwrap()) == bits@,
    {
        let given: usize = bits.len();
        match checked_extent(rows, cols) {
            Some(_) => {
                let count: usize = rows * cols;
                if given == count {
                    Some(engine_from_bits2(rows, cols, bits))
                } else {
                    None
                }
            },
            None => None,
        }
    }

    /// The elements as bit patterns, row by row.
    pub fn to_bits(&self) -> (r: Vec<u32>)
        ensures
            r@ == tensor2_bits(*self),
            r@.len() == self.rows() * self.cols(),
    {
        engine_to_bits2(self)
    }

    /// A second handle on the same extent and elements.
    pub fn duplicate(&self) -> (r: Tensor2)
        ensures
            tensor2_extent(r) == tensor2_extent(*self),
            tensor2_bits(r) == tensor2_bits(*self),
    {
        engine_clone2(self)
    }

    /// Number of rows.
    pub open spec fn rows(self) -> nat {
        tensor2_extent(self).0
    }

    /// Number of columns.
    pub open spec fn cols(self) -> nat {
        tensor2_extent(self).1
    }

    /// The two extents, rows first.
    pub fn dims(&self) -> (r: (usize, usize))
        ensures
            tensor2_extent(*self) == (r.0 as nat, r.1 as nat),
    {
        let d = engine_dims2(self);
        (d[0], d[1])
    }
}

/// A rank-three tensor of the engine: for each sample of a batch, one
/// sequence per channel.
#[derive(Debug)]
#[verifier::external_body]
pub struct Tensor3 {
    pub(crate) inner: burn::tensor::Tensor<burn::backend::NdArray, 3>,
}

/// Extent of a rank-three tensor, outermost axis first.
pub uninterp spec fn tensor3_extent(t: Tensor3) -> (nat, nat, nat);

/// Elements of a rank-three tensor as binary32 bit patterns, the innermost
/// axis running fastest.
pub uninterp spec fn tensor3_bits(t: Tensor3) -> Seq<u32>;

/// `Tensor::dims`: the three extents of the tensor, outermost first.
#[verifier::external_body]
fn engine_dims3(t: &Tensor3) -> (r: [usize; 3])
    ensures
        tensor3_extent(*t) == (r[0] as nat, r[1] as nat, r[2] as nat),
{
    t.inner.dims()
}

/// `Tensor::from_data` on `Data::new`: a tensor of the given extents whose
/// elements are the given patterns, the innermost axis running fastest.  The
/// engine refuses a count of values other than the product of the extents,
/// and extents that are not indexable.
#[verifier::external_body]
fn engine_from_bits3(batch: usize, channels: usize, length: usize, bits: Vec<u32>) -> (r: Tensor3)
    requires
        bits@.len() == batch * channels * length,
        indexable3(batch as int, channels as int, length as int),
    ensures
        tensor3_extent(r) == (batch as nat, channels as nat, length as nat),
        tensor3_bits(r) == bits@,
{
    let values: Vec<<NdArray as Backend>::FloatElem> =
        bits.into_iter().map(<NdArray as Backend>::FloatElem::from_bits).collect();
    let data = burn::tensor::Data::new(values, burn::tensor::Shape::new([batch, channels, length]));
    Tensor3 { inner: burn::tensor::Tensor::from_data(data, &Default::default()) }
}

/// `Tensor::to_data`: the elements of the tensor, the innermost axis running
/// fastest.
#[verifier::external_body]
fn engine_to_bits3(t: &Tensor3) -> (r: Vec<u32>)
    ensures
        r@ == tensor3_bits(*t),
        r@.len() == tensor3_extent(*t).0 * tensor3_extent(*t).1 * tensor3_extent(*t).2,
{
    t.inner.to_data().value.into_iter().map(|v| v.to_bits()).collect()
}

impl Tensor3 {
    /// Number of samples.
    pub open spec fn batch(self) -> nat {
        tensor3_extent(self).0
    }

    /// Number of channels of each sample.
    pub open spec fn channels(self) -> nat {
        tensor3_extent(self).1
    }

    /// Number of positions of each channel.
    pub open spec fn length(self) -> nat {
        tensor3_extent(self).2
    }

    /// Builds the tensor of the given extents that holds the given patterns,
    /// the innermost axis running fastest, or nothing when their count is not
    /// the product of the extents or the extents are not indexable.
    pub fn from_bits(batch: usize, channels: usize, length: usize, bits: Vec<u32>) -> (r: Option<
        Tensor3,
    >)
        ensures
            r.is_some() <==> bits@.len() == batch * channels * length && indexable3(
                batch as int,
                channels as int,
                length as int,
            ),
            r.is_some() ==> tensor3_extent(r.unwrap()) == (
                batch as nat,
                channels as nat,
                length as nat,
            ) && tensor3_bits(r.unwrap()) == bits@,
    {
        let given: usize = bits.len();
        match checked_extent(batch, channels) {
            Some(plane) => match checked_extent(plane, length) {
                Some(_) => {
                    proof {
                        lemma_product_monotone(
                            (batch * channels) as int,
                            plane as int,
                            length as int,
                        );
                    }
                    let count: usize = batch * channels * length;
                    if given == count {
                        Some(engine_from_bits3(batch, channels, length, bits))
                    } else {
                        None
                    }
                },
                None => None,
            },
            None => {
                proof {
                    lemma_product_monotone(
                        isize::MAX as int + 1,
                        at_least_one(batch as int) * at_least_one(channels as int),
                        at_least_one(length as int),
                    );
                }
                None
            },
        }
    }

    /// The elements as bit patterns, the innermost axis running fastest.
    pub fn to_bits(&self) -> (r: Vec<u32>)
        ensures
            r@ == tensor3_bits(*self),
            r@.len() == self.batch() * self.channels() * self.length(),
    {
        engine_to_bits3(self)
    }

    /// The three extents, outermost first.
    pub fn dims(&self) -> (r: (usize, usize, usize))
        ensures
            tensor3_extent(*self) == (r.0 as nat, r.1 as nat, r.2 as nat),
    {
        let d = engine_dims3(self);
        (d[0], d[1], d[2])
    }
}

} // verus!
