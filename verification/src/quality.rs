//! Quality assessment: how close converted samples are to the original
//! ones, in exact integer measures. Each measure falls back to its floor on
//! empty input and on inputs of different lengths, and never fails.

use crate::types::ImageDimensions;
use vstd::prelude::*;

verus! {

/// A non-negative fraction, kept exact as a numerator over a denominator
/// that is never zero.
#[derive(Debug, Clone, Copy, PartialEq, Eq, Structural)]
pub struct Ratio {
    pub numerator: u64,
    pub denominator: u64,
}

impl Ratio {
    /// The fraction stands for `n / d`.
    pub open spec fn is(self, n: int, d: int) -> bool {
        self.denominator > 0 && d > 0 && self.numerator * d == n * self.denominator
    }

    /// The fraction is exactly one.
    pub open spec fn is_one(self) -> bool {
        self.denominator > 0 && self.numerator == self.denominator
    }

    /// The fraction is exactly zero.
    pub open spec fn is_zero(self) -> bool {
        self.denominator > 0 && self.numerator == 0
    }

    /// The fraction lies between zero and one.
    pub open spec fn is_unit(self) -> bool {
        self.denominator > 0 && self.numerator <= self.denominator
    }

    /// One.
    pub fn one() -> (r: Self)
        ensures
            r.is_one(),
            r == (Ratio { numerator: 1, denominator: 1 }),
    {
        Ratio { numerator: 1, denominator: 1 }
    }

    /// Zero.
    pub fn zero() -> (r: Self)
        ensures
            r.is_zero(),
            r == (Ratio { numerator: 0, denominator: 1 }),
    {
        Ratio { numerator: 0, denominator: 1 }
    }

    /// The fraction in thousandths, rounded down, or `u64::MAX` where that
    /// does not fit.
    pub fn per_mille(&self) -> (t: u64)
        requires
            self.denominator > 0,
        ensures
            t == if self.numerator * 1000 / (self.denominator as int) <= u64::MAX {
                self.numerator * 1000 / (self.denominator as int)
            } else {
                u64::MAX as int
            },
    {
        let scaled: u128 = (self.numerator as u128) * 1000;
        let t: u128 = scaled / (self.denominator as u128);
        if t > u64::MAX as u128 {
            u64::MAX
        } else {
            t as u64
        }
    }
}

/// The peak signal-to-noise ratio of two sample sequences, up to the
/// logarithm: `10 * log10(255 * 255 * sample_count / squared_error_sum)`
/// decibels where it is finite.
#[derive(Debug, Clone, Copy, PartialEq, Eq, Structural)]
pub enum Psnr {
    /// The floor, 0.0: the inputs are empty or differ in length.
    Floor,
    /// The sentinel, 100.0: the inputs are equal.
    Identical,
    /// A finite value, given by the sum of the squared differences, which
    /// is not zero, and the number of samples.
    Finite { squared_error_sum: u128, sample_count: u64 },
}

/// The sum of the squared differences of the first `n` samples of `a` and
/// `b`.
pub open spec fn squared_error_sum(a: Seq<u8>, b: Seq<u8>, n: int) -> int
    decreases n,
{
    if n <= 0 {
        0
    } else {
        squared_error_sum(a, b, n - 1) + (a[n - 1] - b[n - 1]) * (a[n - 1] - b[n - 1])
    }
}

/// The number of positions among the first `n` at which `a` and `b` hold
/// the same sample.
pub open spec fn matching_count(a: Seq<u8>, b: Seq<u8>, n: int) -> int
    decreases n,
{
    if n <= 0 {
        0
    } else {
        matching_count(a, b, n - 1) + if a[n - 1] == b[n - 1] {
            1int
        } else {
            0int
        }
    }
}

/// Whether two sequences can be compared: same length, not empty.
pub open spec fn comparable(a: Seq<u8>, b: Seq<u8>) -> bool {
    a.len() == b.len() && a.len() > 0
}

/// The peak signal-to-noise ratio of `a` and `b`.
pub open spec fn psnr_of(a: Seq<u8>, b: Seq<u8>) -> Psnr {
    if !comparable(a, b) {
        Psnr::Floor
    } else if squared_error_sum(a, b, a.len() as int) == 0 {
        Psnr::Identical
    } else {
        Psnr::Finite {
            squared_error_sum: squared_error_sum(a, b, a.len() as int) as u128,
            sample_count: a.len() as u64,
        }
    }
}

/// The share of positions at which `a` and `b` hold the same sample, and
/// zero where they cannot be compared.
pub open spec fn similarity_of(a: Seq<u8>, b: Seq<u8>) -> Ratio {
    if !comparable(a, b) {
        Ratio { numerator: 0, denominator: 1 }
    } else {
        Ratio { numerator: matching_count(a, b, a.len() as int) as u64, denominator: a.len() as u64 }
    }
}

/// The sum of squared differences is never negative, at most 65025 for
/// each sample, and zero exactly where the samples agree.
pub proof fn lemma_squared_error_sum(a: Seq<u8>, b: Seq<u8>, n: int)
    requires
        0 <= n <= a.len(),
        n <= b.len(),
    ensures
        0 <= squared_error_sum(a, b, n) <= 65025 * n,
        squared_error_sum(a, b, n) == 0 <==> a.subrange(0, n) == b.subrange(0, n),
    decreases n,
{
    if n > 0 {
        lemma_squared_error_sum(a, b, n - 1);
        let d = a[n - 1] - b[n - 1];
        assert(0 <= d * d <= 65025) by (nonlinear_arith)
            requires
                -255 <= d <= 255,
        ;
        assert(d * d == 0 <==> d == 0) by (nonlinear_arith);
        if squared_error_sum(a, b, n) == 0 {
            assert(a.subrange(0, n - 1) == b.subrange(0, n - 1));
            assert(a.subrange(0, n) =~= a.subrange(0, n - 1).push(a[n - 1]));
            assert(b.subrange(0, n) =~= b.subrange(0, n - 1).push(b[n - 1]));
        }
        if a.subrange(0, n) == b.subrange(0, n) {
            assert(a.subrange(0, n)[n - 1] == b.subrange(0, n)[n - 1]);
            assert(a.subrange(0, n - 1) =~= a.subrange(0, n).subrange(0, n - 1));
            assert(b.subrange(0, n - 1) =~= b.subrange(0, n).subrange(0, n - 1));
        }
    } else {
        assert(a.subrange(0, n) =~= b.subrange(0, n));
    }
}

/// The number of matching positions lies between zero and the number of
/// positions, and reaches it exactly where the samples agree.
pub proof fn lemma_matching_count(a: Seq<u8>, b: Seq<u8>, n: int)
    requires
        0 <= n <= a.len(),
        n <= b.len(),
    ensures
        0 <= matching_count(a, b, n) <= n,
        matching_count(a, b, n) == n <==> a.subrange(0, n) == b.subrange(0, n),
    decreases n,
{
    if n > 0 {
        lemma_matching_count(a, b, n - 1);
        if matching_count(a, b, n) == n {
            assert(a.subrange(0, n - 1) == b.subrange(0, n - 1));
            assert(a.subrange(0, n) =~= a.subrange(0, n - 1).push(a[n - 1]));
            assert(b.subrange(0, n) =~= b.subrange(0, n - 1).push(b[n - 1]));
        }
        if a.subrange(0, n) == b.subrange(0, n) {
            assert(a.subrange(0, n)[n - 1] == b.subrange(0, n)[n - 1]);
            assert(a.subrange(0, n - 1) =~= a.subrange(0, n).subrange(0, n - 1));
            assert(b.subrange(0, n - 1) =~= b.subrange(0, n).subrange(0, n - 1));
        }
    } else {
        assert(a.subrange(0, n) =~= b.subrange(0, n));
    }
}

/// A sequence that is not empty, measured against itself, reaches the
/// sentinel; sequences of different lengths get the floor, and so does the
/// empty sequence.
pub proof fn lemma_psnr_of_self_and_mismatch(x: Seq<u8>, y: Seq<u8>)
    ensures
        x.len() > 0 ==> psnr_of(x, x) == Psnr::Identical,
        x.len() != y.len() ==> psnr_of(x, y) == Psnr::Floor,
        x.len() == 0 ==> psnr_of(x, y) == Psnr::Floor,
{
    if x.len() > 0 {
        lemma_squared_error_sum(x, x, x.len() as int);
    }
}

/// A sequence that is not empty is wholly similar to itself, and
/// sequences of different lengths are not similar at all. The sequences
/// are the contents of slices, so their lengths fit a machine word.
pub proof fn lemma_similarity_of_self_and_mismatch(x: Seq<u8>, y: Seq<u8>)
    requires
        x.len() <= usize::MAX,
    ensures
        x.len() > 0 ==> similarity_of(x, x).is_one(),
        x.len() != y.len() ==> similarity_of(x, y).is_zero(),
{
    if x.len() > 0 {
        lemma_matching_count(x, x, x.len() as int);
    }
}

/// The sentinel is reached by equal inputs only.
pub proof fn lemma_identical_means_equal(x: Seq<u8>, y: Seq<u8>)
    requires
        psnr_of(x, y) == Psnr::Identical,
    ensures
        x == y,
        x.len() > 0,
{
    lemma_squared_error_sum(x, y, x.len() as int);
    assert(x.subrange(0, x.len() as int) =~= x);
    assert(y.subrange(0, x.len() as int) =~= y);
}

/// A similarity lies between zero and one.
pub proof fn lemma_similarity_is_unit(x: Seq<u8>, y: Seq<u8>)
    requires
        x.len() <= usize::MAX,
    ensures
        similarity_of(x, y).is_unit(),
{
    if comparable(x, y) {
        lemma_matching_count(x, y, x.len() as int);
    }
}

/// The measures of one conversion.
#[derive(Debug, Clone, Copy, PartialEq, Eq, Structural)]
pub struct QualityMetrics {
    psnr: Psnr,
    ssim: Ratio,
    perceptual_similarity: Ratio,
}

impl QualityMetrics {
    pub closed spec fn spec_psnr(self) -> Psnr {
        self.psnr
    }

    pub closed spec fn spec_ssim(self) -> Ratio {
        self.ssim
    }

    pub closed spec fn spec_perceptual_similarity(self) -> Ratio {
        self.perceptual_similarity
    }

    /// Metrics made of the given measures.
    pub fn new(psnr: Psnr, ssim: Ratio, perceptual_similarity: Ratio) -> (m: Self)
        ensures
            m.spec_psnr() == psnr,
            m.spec_ssim() == ssim,
            m.spec_perceptual_similarity() == perceptual_similarity,
    {
        QualityMetrics { psnr, ssim, perceptual_similarity }
    }

    /// The peak signal-to-noise ratio.
    pub fn psnr(&self) -> (p: Psnr)
        ensures
            p == self.spec_psnr(),
    {
        self.psnr
    }

    /// The structural similarity.
    pub fn ssim(&self) -> (s: Ratio)
        ensures
            s == self.spec_ssim(),
    {
        self.ssim
    }

    /// The perceptual similarity.
    pub fn perceptual_similarity(&self) -> (s: Ratio)
        ensures
            s == self.spec_perceptual_similarity(),
    {
        self.perceptual_similarity
    }
}

/// Computes the quality measures.
pub struct QualityAssessor;

impl QualityAssessor {
    /// The peak signal-to-noise ratio of `converted` against `original`.
    pub fn calculate_psnr(original: &[u8], converted: &[u8]) -> (p: Psnr)
        ensures
            p == psnr_of(original@, converted@),
    {
        if original.len() != converted.len() || original.len() == 0 {
            return Psnr::Floor;
        }
        let n = original.len();
        let mut sum: u128 = 0;
        let mut i: usize = 0;
        while i < n
            invariant
                i <= n,
                n == original@.len(),
                n == converted@.len(),
                sum == squared_error_sum(original@, converted@, i as int),
                sum <= 65025 * i,
            decreases n - i,
        {
            let a = original[i];
            let b = converted[i];
            let d: u128 = if a >= b {
                (a - b) as u128
            } else {
                (b - a) as u128
            };
            proof {
                lemma_squared_error_sum(original@, converted@, i as int + 1);
                assert(d * d == (a - b) * (a - b)) by (nonlinear_arith)
                    requires
                        d == a - b || d == b - a,
                ;
                assert(d * d <= 65025) by (nonlinear_arith)
                    requires
                        0 <= d <= 255,
                ;
            }
            sum = sum + d * d;
            i += 1;
        }
        if sum == 0 {
            Psnr::Identical
        } else {
            Psnr::Finite { squared_error_sum: sum, sample_count: n as u64 }
        }
    }

    /// The structural similarity of `converted` to `original`: the share
    /// of samples that are the same. The dimensions play no part.
    pub fn calculate_ssim(original: &[u8], converted: &[u8], width: u32, height: u32) -> (s: Ratio)
        ensures
            s == similarity_of(original@, converted@),
            s.is_unit(),
    {
        if original.len() != converted.len() || original.len() == 0 {
            return Ratio { numerator: 0, denominator: 1 };
        }
        let n = original.len();
        let mut same: u64 = 0;
        let mut i: usize = 0;
        while i < n
            invariant
                i <= n,
                n == original@.len(),
                n == converted@.len(),
                same == matching_count(original@, converted@, i as int),
                same <= i,
            decreases n - i,
        {
            if original[i] == converted[i] {
                same = same + 1;
            }
            i += 1;
        }
        Ratio { numerator: same, denominator: n as u64 }
    }

    /// The perceptual similarity of `converted` to `original`, which is
    /// their structural similarity.
    pub fn calculate_perceptual_similarity(original: &[u8], converted: &[u8]) -> (s: Ratio)
        ensures
            s == similarity_of(original@, converted@),
            s.is_unit(),
    {
        Self::calculate_ssim(original, converted, 0, 0)
    }

    /// All three measures of `converted_data` against `original_data`.
    pub fn assess_quality(original_data: &[u8], converted_data: &[u8], dimensions: ImageDimensions) -> (m:
        QualityMetrics)
        ensures
            m.spec_psnr() == psnr_of(original_data@, converted_data@),
            m.spec_ssim() == similarity_of(original_data@, converted_data@),
            m.spec_perceptual_similarity() == similarity_of(original_data@, converted_data@),
    {
        let psnr = Self::calculate_psnr(original_data, converted_data);
        let ssim = Self::calculate_ssim(
            original_data,
            converted_data,
            dimensions.width,
            dimensions.height,
        );
        let perceptual_similarity = Self::calculate_perceptual_similarity(
            original_data,
            converted_data,
        );
        QualityMetrics { psnr, ssim, perceptual_similarity }
    }
}

} // verus!
