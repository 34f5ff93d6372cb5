use vstd::prelude::*;
use crate::double::F64_EPSILON_BITS;
use crate::double::abs_bits;
use crate::double::f64_abs;
use crate::double::f64_lt;
use crate::double::f64_sub;
use crate::double::is_finite_bits;
use crate::double::lt_bits;
use crate::double::sub_bits;

verus! {

/// Equality up to a tolerance. `approx_eq_eps` compares two values within a
/// caller-supplied tolerance, in whatever sense the implementing type gives
/// that; `approx_eq` is the same comparison at the type's default
/// tolerance, never a separate rule.
pub trait ApproxEq<T>: Sized {
    /// What comparing within tolerance `eps` means for this type.
    spec fn approx_eq_eps_spec(self, other: T, eps: T) -> bool;

    /// The type's default tolerance.
    spec fn default_eps() -> T;

    /// Whether the two values differ by less than the default tolerance.
    fn approx_eq(self, other: T) -> (r: bool)
        ensures
            r == self.approx_eq_eps_spec(other, Self::default_eps()),
    ;

    /// Whether the two values differ by less than `eps`.
    fn approx_eq_eps(self, other: T, eps: T) -> (r: bool)
        ensures
            r == self.approx_eq_eps_spec(other, eps),
    ;
}

/// Compares two doubles, given by bit pattern, within tolerance `eps`: true
/// iff |a - b| < eps under IEEE-754 arithmetic and ordering, so false
/// whenever the computed difference or the tolerance is a NaN. The second
/// clause is the reflexivity law: a finite value is approximately equal to
/// itself under every tolerance above positive zero.
pub fn f64_approx_eq_eps(a: u64, b: u64, eps: u64) -> (r: bool)
    ensures
        r == lt_bits(abs_bits(sub_bits(a, b)), eps),
        a == b && is_finite_bits(a) && lt_bits(0, eps) ==> r,
{
    let d = f64_sub(a, b);
    let m = f64_abs(d);
    proof {
        if a == b && is_finite_bits(a) {
            assert(0u64 & 0x7FFF_FFFF_FFFF_FFFF == 0u64) by (bit_vector);
        }
    }
    f64_lt(m, eps)
}

/// Compares two doubles, given by bit pattern, within the default
/// tolerance: true iff |a - b| < machine epsilon under IEEE-754 arithmetic
/// and ordering.
pub fn f64_approx_eq(a: u64, b: u64) -> (r: bool)
    ensures
        r == lt_bits(abs_bits(sub_bits(a, b)), F64_EPSILON_BITS),
{
    f64_approx_eq_eps(a, b, F64_EPSILON_BITS)
}

impl ApproxEq<u64> for u64 {
    /// For a scalar double: the absolute difference is below `eps`.
    open spec fn approx_eq_eps_spec(self, other: u64, eps: u64) -> bool {
        lt_bits(abs_bits(sub_bits(self, other)), eps)
    }

    /// The machine epsilon.
    open spec fn default_eps() -> u64 {
        F64_EPSILON_BITS
    }

    fn approx_eq(self, other: u64) -> (r: bool) {
        f64_approx_eq(self, other)
    }

    fn approx_eq_eps(self, other: u64, eps: u64) -> (r: bool) {
        f64_approx_eq_eps(self, other, eps)
    }
}

} // verus!
