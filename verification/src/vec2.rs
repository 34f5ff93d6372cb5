use vstd::prelude::*;
use crate::approx_eq::ApproxEq;
use crate::approx_eq::f64_approx_eq_eps;
use crate::double::F64_EPSILON_BITS;
use crate::double::abs_bits;
use crate::double::add_bits;
use crate::double::div_bits;
use crate::double::f64_add;
use crate::double::f64_div;
use crate::double::f64_mul;
use crate::double::f64_sqrt;
use crate::double::f64_sub;
use crate::double::is_nan_bits;
use crate::double::lt_bits;
use crate::double::mul_bits;
use crate::double::sqrt_bits;
use crate::double::sub_bits;

verus! {

/// A 2D vector of double-precision coordinates, each carried as its
/// IEEE-754 binary64 bit pattern. A plain value: operations build new
/// vectors and never mutate in place.
#[derive(Clone, Copy, Debug, PartialEq, Eq, Structural)]
pub struct Vec2 {
    pub x: u64,
    pub y: u64,
}

/// The dot product of two vectors: x1*x2 + y1*y2 in binary64 arithmetic.
pub open spec fn dot_bits(v: Vec2, w: Vec2) -> u64 {
    add_bits(mul_bits(v.x, w.x), mul_bits(v.y, w.y))
}

/// The length of a vector: the binary64 square root of its dot product
/// with itself.
pub open spec fn length_bits(v: Vec2) -> u64 {
    sqrt_bits(dot_bits(v, v))
}

impl Vec2 {
    /// Builds the vector with the given coordinates. Nothing is validated:
    /// any bit pattern, finite or not, is accepted.
    pub fn new(x: u64, y: u64) -> (r: Vec2)
        ensures
            r.x == x,
            r.y == y,
    {
        Vec2 { x, y }
    }

    /// The dot product of the two vectors. It is commutative: unless a
    /// coordinate pair holds two NaNs, whose payloads propagate by operand
    /// order, swapping the operands gives the same result.
    pub fn dot(&self, other: &Vec2) -> (r: u64)
        ensures
            r == dot_bits(*self, *other),
            !(is_nan_bits(self.x) && is_nan_bits(other.x)) && !(is_nan_bits(self.y)
                && is_nan_bits(other.y)) ==> r == dot_bits(*other, *self),
    {
        let xs = f64_mul(self.x, other.x);
        let ys = f64_mul(self.y, other.y);
        f64_add(xs, ys)
    }

    /// The length of the vector: sqrt(x*x + y*y), never negative, a NaN if
    /// a coordinate is a NaN and an infinity if one is infinite.
    pub fn length(&self) -> (r: u64)
        ensures
            r == length_bits(*self),
    {
        let d = self.dot(self);
        f64_sqrt(d)
    }

    /// Alias for `length`.
    pub fn magnitude(&self) -> (r: u64)
        ensures
            r == length_bits(*self),
    {
        self.length()
    }

    /// The vector scaled by dividing each coordinate by the length. The
    /// length of a zero vector is zero and 0/0 makes each resulting
    /// coordinate a NaN: that is the defined behaviour, no guard is added.
    pub fn normalized(&self) -> (r: Vec2)
        ensures
            r.x == div_bits(self.x, length_bits(*self)),
            r.y == div_bits(self.y, length_bits(*self)),
    {
        let length = self.length();
        Vec2::new(f64_div(self.x, length), f64_div(self.y, length))
    }

    /// The componentwise sum of the two vectors.
    pub fn add(&self, other: &Vec2) -> (r: Vec2)
        ensures
            r.x == add_bits(self.x, other.x),
            r.y == add_bits(self.y, other.y),
    {
        Vec2 { x: f64_add(self.x, other.x), y: f64_add(self.y, other.y) }
    }

    /// The scalar added to both coordinates.
    pub fn add_scalar(&self, value: u64) -> (r: Vec2)
        ensures
            r.x == add_bits(self.x, value),
            r.y == add_bits(self.y, value),
    {
        Vec2 { x: f64_add(self.x, value), y: f64_add(self.y, value) }
    }

    /// The componentwise difference of the two vectors.
    pub fn sub(&self, other: &Vec2) -> (r: Vec2)
        ensures
            r.x == sub_bits(self.x, other.x),
            r.y == sub_bits(self.y, other.y),
    {
        Vec2 { x: f64_sub(self.x, other.x), y: f64_sub(self.y, other.y) }
    }

    /// The scalar subtracted from both coordinates; only this direction is
    /// defined, there is no scalar-minus-vector form.
    pub fn sub_scalar(&self, value: u64) -> (r: Vec2)
        ensures
            r.x == sub_bits(self.x, value),
            r.y == sub_bits(self.y, value),
    {
        Vec2 { x: f64_sub(self.x, value), y: f64_sub(self.y, value) }
    }
}

impl ApproxEq<Vec2> for Vec2 {
    /// Componentwise conjunction: each coordinate pair differs by less
    /// than the tolerance on its own axis, under the strict IEEE-754
    /// comparison; never a combined euclidean distance.
    open spec fn approx_eq_eps_spec(self, other: Vec2, eps: Vec2) -> bool {
        lt_bits(abs_bits(sub_bits(self.x, other.x)), eps.x)
            && lt_bits(abs_bits(sub_bits(self.y, other.y)), eps.y)
    }

    /// The machine epsilon on both axes.
    open spec fn default_eps() -> Vec2 {
        Vec2 { x: F64_EPSILON_BITS, y: F64_EPSILON_BITS }
    }

    fn approx_eq(self, other: Vec2) -> (r: bool) {
        self.approx_eq_eps(other, Vec2 { x: F64_EPSILON_BITS, y: F64_EPSILON_BITS })
    }

    fn approx_eq_eps(self, other: Vec2, eps: Vec2) -> (r: bool) {
        let on_x = f64_approx_eq_eps(self.x, other.x, eps.x);
        let on_y = f64_approx_eq_eps(self.y, other.y, eps.y);
        on_x && on_y
    }
}

/// The length of a vector is the square root of the dot product of the
/// vector with itself.
pub proof fn lemma_length_is_sqrt_of_self_dot(v: Vec2)
    ensures
        length_bits(v) == sqrt_bits(dot_bits(v, v)),
{
}

} // verus!
