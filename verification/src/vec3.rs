//! Three-component vectors over the fixed-point scalars.

use vstd::prelude::*;
use crate::fixed;
use crate::fixed::{fx_add, fx_sub, fx_neg, fx_mul, fx_div, fx_sqrt};

verus! {

/// A vector of three fixed-point scalars.
#[derive(Clone, Copy, Debug, PartialEq, Eq, Structural)]
pub struct Vec3Fx {
    pub x: i64,
    pub y: i64,
    pub z: i64,
}

/// Scalar sum at the representation type.
pub open spec fn s_add(a: i64, b: i64) -> i64 {
    fx_add(a as int, b as int) as i64
}

/// Scalar difference at the representation type.
pub open spec fn s_sub(a: i64, b: i64) -> i64 {
    fx_sub(a as int, b as int) as i64
}

/// Scalar negation at the representation type.
pub open spec fn s_neg(a: i64) -> i64 {
    fx_neg(a as int) as i64
}

/// Scalar product at the representation type.
pub open spec fn s_mul(a: i64, b: i64) -> i64 {
    fx_mul(a as int, b as int) as i64
}

/// Scalar quotient at the representation type.
pub open spec fn s_div(a: i64, b: i64) -> i64 {
    fx_div(a as int, b as int) as i64
}

/// Scalar square root at the representation type.
pub open spec fn s_sqrt(a: i64) -> i64 {
    fx_sqrt(a as int) as i64
}

pub broadcast proof fn lemma_s_add(a: i64, b: i64)
    ensures
        (#[trigger] s_add(a, b)) as int == fx_add(a as int, b as int),
{
    fixed::lemma_fx_clamp_in_range(a as int + b as int);
}

pub broadcast proof fn lemma_s_sub(a: i64, b: i64)
    ensures
        (#[trigger] s_sub(a, b)) as int == fx_sub(a as int, b as int),
{
    fixed::lemma_fx_clamp_in_range(a as int - b as int);
}

pub broadcast proof fn lemma_s_neg(a: i64)
    ensures
        (#[trigger] s_neg(a)) as int == fx_neg(a as int),
{
    fixed::lemma_fx_clamp_in_range(-(a as int));
}

pub broadcast proof fn lemma_s_mul(a: i64, b: i64)
    ensures
        (#[trigger] s_mul(a, b)) as int == fx_mul(a as int, b as int),
{
    fixed::lemma_fx_clamp_in_range(fixed::div_tz(a as int * b as int, fixed::FX_SCALE as int));
}

pub broadcast proof fn lemma_s_div(a: i64, b: i64)
    ensures
        (#[trigger] s_div(a, b)) as int == fx_div(a as int, b as int),
{
    if b != 0 {
        fixed::lemma_fx_clamp_in_range(fixed::div_tz(a as int * fixed::FX_SCALE, b as int));
    }
}

pub broadcast proof fn lemma_s_sqrt(a: i64)
    ensures
        (#[trigger] s_sqrt(a)) as int == fx_sqrt(a as int),
        0 <= s_sqrt(a),
{
    fixed::lemma_fx_sqrt_props(a as int);
}

pub broadcast group group_s_ops {
    lemma_s_add,
    lemma_s_sub,
    lemma_s_neg,
    lemma_s_mul,
    lemma_s_div,
    lemma_s_sqrt,
}

/// Componentwise vector sum.
pub open spec fn v_add(a: Vec3Fx, b: Vec3Fx) -> Vec3Fx {
    Vec3Fx { x: s_add(a.x, b.x), y: s_add(a.y, b.y), z: s_add(a.z, b.z) }
}

/// Componentwise vector difference.
pub open spec fn v_sub(a: Vec3Fx, b: Vec3Fx) -> Vec3Fx {
    Vec3Fx { x: s_sub(a.x, b.x), y: s_sub(a.y, b.y), z: s_sub(a.z, b.z) }
}

/// Componentwise vector negation.
pub open spec fn v_neg(a: Vec3Fx) -> Vec3Fx {
    Vec3Fx { x: s_neg(a.x), y: s_neg(a.y), z: s_neg(a.z) }
}

/// Vector scaled by a scalar.
pub open spec fn v_scale(a: Vec3Fx, s: i64) -> Vec3Fx {
    Vec3Fx { x: s_mul(a.x, s), y: s_mul(a.y, s), z: s_mul(a.z, s) }
}

/// Vector divided componentwise by a scalar.
pub open spec fn v_div(a: Vec3Fx, s: i64) -> Vec3Fx {
    Vec3Fx { x: s_div(a.x, s), y: s_div(a.y, s), z: s_div(a.z, s) }
}

/// Dot product: the fixed-point sum of the componentwise products.
pub open spec fn v_dot(a: Vec3Fx, b: Vec3Fx) -> i64 {
    s_add(s_add(s_mul(a.x, b.x), s_mul(a.y, b.y)), s_mul(a.z, b.z))
}

/// Euclidean length: the square root of the self dot product.
pub open spec fn v_len(a: Vec3Fx) -> i64 {
    s_sqrt(v_dot(a, a))
}

/// All components representable (negation of such a vector is exact).
pub open spec fn vec_in_range(a: Vec3Fx) -> bool {
    fixed::fx_in_range(a.x as int) && fixed::fx_in_range(a.y as int) && fixed::fx_in_range(
        a.z as int,
    )
}

/// Swapping the operands of a difference negates it exactly.
pub proof fn lemma_v_sub_antisym(a: Vec3Fx, b: Vec3Fx)
    ensures
        v_sub(b, a) == v_neg(v_sub(a, b)),
        vec_in_range(v_sub(a, b)),
{
    broadcast use group_s_ops;

}

/// Negating a representable vector negates its scaling exactly.
pub proof fn lemma_v_neg_scale(a: Vec3Fx, s: i64)
    requires
        vec_in_range(a),
    ensures
        v_scale(v_neg(a), s) == v_neg(v_scale(a, s)),
        vec_in_range(v_scale(a, s)),
{
    broadcast use group_s_ops;

    fixed::lemma_fx_mul_neg(a.x as int, s as int);
    fixed::lemma_fx_mul_neg(a.y as int, s as int);
    fixed::lemma_fx_mul_neg(a.z as int, s as int);
}

/// Negating a representable vector negates its scalar quotient exactly.
pub proof fn lemma_v_neg_div(a: Vec3Fx, s: i64)
    requires
        vec_in_range(a),
    ensures
        v_div(v_neg(a), s) == v_neg(v_div(a, s)),
        vec_in_range(v_div(a, s)),
{
    broadcast use group_s_ops;

    fixed::lemma_fx_div_neg(a.x as int, s as int);
    fixed::lemma_fx_div_neg(a.y as int, s as int);
    fixed::lemma_fx_div_neg(a.z as int, s as int);
}

/// The self dot product is invariant under negation.
pub proof fn lemma_v_dot_neg(a: Vec3Fx)
    requires
        vec_in_range(a),
    ensures
        v_dot(v_neg(a), v_neg(a)) == v_dot(a, a),
{
    broadcast use group_s_ops;

    fixed::lemma_fx_mul_neg(a.x as int, a.x as int);
    fixed::lemma_fx_mul_neg(a.x as int, -(a.x as int));
    fixed::lemma_fx_mul_neg(a.y as int, a.y as int);
    fixed::lemma_fx_mul_neg(a.y as int, -(a.y as int));
    fixed::lemma_fx_mul_neg(a.z as int, a.z as int);
    fixed::lemma_fx_mul_neg(a.z as int, -(a.z as int));
}

impl Vec3Fx {
    /// The zero vector.
    pub open spec fn spec_zero() -> Vec3Fx {
        Vec3Fx { x: 0, y: 0, z: 0 }
    }

    /// The zero vector.
    pub fn zero() -> (r: Vec3Fx)
        ensures
            r == Vec3Fx::spec_zero(),
    {
        Vec3Fx { x: 0, y: 0, z: 0 }
    }

    pub fn new(x: i64, y: i64, z: i64) -> (r: Vec3Fx)
        ensures
            r == (Vec3Fx { x, y, z }),
    {
        Vec3Fx { x, y, z }
    }

    pub fn add(self, b: Vec3Fx) -> (r: Vec3Fx)
        ensures
            r == v_add(self, b),
    {
        proof {
            broadcast use group_s_ops;

        }
        Vec3Fx { x: fixed::add(self.x, b.x), y: fixed::add(self.y, b.y), z: fixed::add(
            self.z,
            b.z,
        ) }
    }

    pub fn sub(self, b: Vec3Fx) -> (r: Vec3Fx)
        ensures
            r == v_sub(self, b),
    {
        proof {
            broadcast use group_s_ops;

        }
        Vec3Fx { x: fixed::sub(self.x, b.x), y: fixed::sub(self.y, b.y), z: fixed::sub(
            self.z,
            b.z,
        ) }
    }

    pub fn neg(self) -> (r: Vec3Fx)
        ensures
            r == v_neg(self),
    {
        proof {
            broadcast use group_s_ops;

        }
        Vec3Fx { x: fixed::neg(self.x), y: fixed::neg(self.y), z: fixed::neg(self.z) }
    }

    pub fn scale(self, s: i64) -> (r: Vec3Fx)
        ensures
            r == v_scale(self, s),
    {
        proof {
            broadcast use group_s_ops;

        }
        Vec3Fx { x: fixed::mul(self.x, s), y: fixed::mul(self.y, s), z: fixed::mul(self.z, s) }
    }

    pub fn div_scalar(self, s: i64) -> (r: Vec3Fx)
        ensures
            r == v_div(self, s),
    {
        proof {
            broadcast use group_s_ops;

        }
        Vec3Fx { x: fixed::div(self.x, s), y: fixed::div(self.y, s), z: fixed::div(self.z, s) }
    }

    pub fn dot(self, b: Vec3Fx) -> (r: i64)
        ensures
            r == v_dot(self, b),
    {
        proof {
            broadcast use group_s_ops;

        }
        let px = fixed::mul(self.x, b.x);
        let py = fixed::mul(self.y, b.y);
        let pz = fixed::mul(self.z, b.z);
        fixed::add(fixed::add(px, py), pz)
    }

    pub fn length(self) -> (r: i64)
        ensures
            r == v_len(self),
    {
        proof {
            broadcast use group_s_ops;

        }
        let d = self.dot(self);
        fixed::sqrt(d)
    }
}

} // verus!
