//! SPH smoothing kernels, immutable once constructed from a support
//! radius `h`.
//!
//! The closed forms divide by high powers of `h` (`h^9` for Poly6, `h^6`
//! for Spiky). To keep every intermediate value representable in fixed
//! point, those denominators are distributed across the factors: for
//! example `k * (h^2 - r^2)^3 / h^9` is evaluated as
//! `k * ((h^2 - r^2) / h^3)^3` with `k = 315 / (64 pi)`. Every function
//! below is specified exactly by that evaluation order over the
//! fixed-point operations.

use vstd::prelude::*;
use crate::config::ConfigError;
use crate::fixed;
use crate::vec3::{Vec3Fx, s_sub, s_neg, s_mul, s_div, v_dot, v_len, v_div, v_neg, v_scale,
    vec_in_range, lemma_v_dot_neg, lemma_v_neg_div, lemma_v_neg_scale, group_s_ops};

verus! {

/// `pi`, to fixed-point precision.
pub const FX_PI: i64 = 3_141_593;

/// Fixed-point images of the small integer constants of the closed forms.
pub const FX_3: i64 = 3_000_000;

pub const FX_7: i64 = 7_000_000;

pub const FX_10: i64 = 10_000_000;

pub const FX_32: i64 = 32_000_000;

pub const FX_45: i64 = 45_000_000;

pub const FX_64: i64 = 64_000_000;

pub const FX_315: i64 = 315_000_000;

pub const FX_945: i64 = 945_000_000;

/// Poly6 scale constant `315 / (64 pi)`.
pub open spec fn spec_poly6_k() -> i64 {
    s_div(FX_315, s_mul(FX_64, FX_PI))
}

/// Poly6 derivative constant `-945 / (32 pi)`.
pub open spec fn spec_poly6_l() -> i64 {
    s_neg(s_div(FX_945, s_mul(FX_32, FX_PI)))
}

/// Spiky gradient constant `-45 / pi`.
pub open spec fn spec_spiky_l() -> i64 {
    s_neg(s_div(FX_45, FX_PI))
}

/// The Poly6 density kernel and its derivatives.
#[derive(Clone, Copy, Debug)]
pub struct Poly6 {
    pub radius: i64,
    pub radius_sqr: i64,
    pub radius_cube: i64,
    pub k: i64,
    pub l: i64,
}

impl Poly6 {
    /// The cached powers and constants are the fixed-point evaluations
    /// of their closed forms.
    pub open spec fn wf(self) -> bool {
        &&& self.radius > 0
    &&& self.radius_sqr == s_mul(self.radius, self.radius)
    &&& self.radius_cube == s_mul(self.radius_sqr, self.radius)
    &&& self.k == spec_poly6_k()
    &&& self.l == spec_poly6_l()
    }

    /// Density weight `k * (h^2 - r^2)^3 / h^9` of a scalar separation,
    /// clamped to 0 outside the support radius.
    pub open spec fn spec_w(self, r: i64) -> i64 {
        let d = s_mul(r, r);
        let m = s_sub(self.radius_sqr, d);
        if m <= 0 {
            0
        } else {
            let u = s_div(m, self.radius_cube);
            s_mul(self.k, s_mul(u, s_mul(u, u)))
        }
    }

    /// Density weight of a displacement vector, on its squared length.
    pub open spec fn spec_w_vec(self, r: Vec3Fx) -> i64 {
        let d = v_dot(r, r);
        let m = s_sub(self.radius_sqr, d);
        if m <= 0 {
            0
        } else {
            let u = s_div(m, self.radius_cube);
            s_mul(self.k, s_mul(u, s_mul(u, u)))
        }
    }

    /// Gradient `l * r * (h^2 - |r|^2)^2 / h^9`.
    pub open spec fn spec_grad_w(self, r: Vec3Fx) -> Vec3Fx {
        let d = v_dot(r, r);
        let u = s_div(s_sub(self.radius_sqr, d), self.radius_cube);
        let a = s_div(s_mul(self.l, s_mul(u, u)), self.radius_cube);
        v_scale(r, a)
    }

    /// Laplacian `l * (h^2 - |r|^2) * (3 h^2 - 7 |r|^2) / h^9`.
    pub open spec fn spec_laplacian_w(self, r: Vec3Fx) -> i64 {
        let d = v_dot(r, r);
        let u = s_div(s_sub(self.radius_sqr, d), self.radius_cube);
        let v = s_div(s_sub(s_mul(FX_3, self.radius_sqr), s_mul(FX_7, d)), self.radius_cube);
        s_div(s_mul(s_mul(self.l, u), v), self.radius_cube)
    }

    pub fn new(radius: i64) -> (r: Poly6)
        requires
            radius > 0,
        ensures
            r.wf(),
            r.radius == radius,
    {
        proof {
            broadcast use group_s_ops;

        }
        let radius_sqr = fixed::mul(radius, radius);
        Poly6 {
            radius,
            radius_sqr,
            radius_cube: fixed::mul(radius_sqr, radius),
            k: fixed::div(FX_315, fixed::mul(FX_64, FX_PI)),
            l: fixed::neg(fixed::div(FX_945, fixed::mul(FX_32, FX_PI))),
        }
    }

    /// Density weight of a scalar separation.
    pub fn w(&self, r: i64) -> (res: i64)
        ensures
            res == self.spec_w(r),
    {
        proof {
            broadcast use group_s_ops;

        }
        let d = fixed::mul(r, r);
        let m = fixed::sub(self.radius_sqr, d);
        if m <= 0 {
            0
        } else {
            let u = fixed::div(m, self.radius_cube);
            fixed::mul(self.k, fixed::mul(u, fixed::mul(u, u)))
        }
    }

    /// Density weight of a displacement vector.
    pub fn w_vec(&self, r: Vec3Fx) -> (res: i64)
        ensures
            res == self.spec_w_vec(r),
    {
        proof {
            broadcast use group_s_ops;

        }
        let d = r.dot(r);
        let m = fixed::sub(self.radius_sqr, d);
        if m <= 0 {
            0
        } else {
            let u = fixed::div(m, self.radius_cube);
            fixed::mul(self.k, fixed::mul(u, fixed::mul(u, u)))
        }
    }

    pub fn grad_w(&self, r: Vec3Fx) -> (res: Vec3Fx)
        ensures
            res == self.spec_grad_w(r),
    {
        proof {
            broadcast use group_s_ops;

        }
        let d = r.dot(r);
        let u = fixed::div(fixed::sub(self.radius_sqr, d), self.radius_cube);
        let a = fixed::div(fixed::mul(self.l, fixed::mul(u, u)), self.radius_cube);
        r.scale(a)
    }

    pub fn laplacian_w(&self, r: Vec3Fx) -> (res: i64)
        ensures
            res == self.spec_laplacian_w(r),
    {
        proof {
            broadcast use group_s_ops;

        }
        let d = r.dot(r);
        let u = fixed::div(fixed::sub(self.radius_sqr, d), self.radius_cube);
        let v = fixed::div(
            fixed::sub(fixed::mul(FX_3, self.radius_sqr), fixed::mul(FX_7, d)),
            self.radius_cube,
        );
        fixed::div(fixed::mul(fixed::mul(self.l, u), v), self.radius_cube)
    }
}

/// The Spiky kernel, of which only the gradient is used.
#[derive(Clone, Copy, Debug)]
pub struct Spiky {
    pub radius: i64,
    pub radius_sqr: i64,
    pub l: i64,
}

impl Spiky {
    pub open spec fn wf(self) -> bool {
        &&& self.radius > 0
    &&& self.radius_sqr == s_mul(self.radius, self.radius)
    &&& self.l == spec_spiky_l()
    }

    /// Gradient `l * (h - |r|)^2 * (r / |r|) / h^6` (meaningful only
    /// away from the origin, where `|r| > 0`).
    pub open spec fn spec_grad_w(self, r: Vec3Fx) -> Vec3Fx {
        let rl = v_len(r);
        let s = s_div(s_sub(self.radius, rl), self.radius_sqr);
        let a = s_div(s_mul(self.l, s_mul(s, s)), self.radius_sqr);
        v_scale(v_div(r, rl), a)
    }

    pub fn new(radius: i64) -> (r: Spiky)
        requires
            radius > 0,
        ensures
            r.wf(),
            r.radius == radius,
    {
        proof {
            broadcast use group_s_ops;

        }
        Spiky {
            radius,
            radius_sqr: fixed::mul(radius, radius),
            l: fixed::neg(fixed::div(FX_45, FX_PI)),
        }
    }

    pub fn grad_w(&self, r: Vec3Fx) -> (res: Vec3Fx)
        requires
            v_dot(r, r) > 0,
        ensures
            res == self.spec_grad_w(r),
    {
        proof {
            broadcast use group_s_ops;

        }
        let rl = r.length();
        let s = fixed::div(fixed::sub(self.radius, rl), self.radius_sqr);
        let a = fixed::div(fixed::mul(self.l, fixed::mul(s, s)), self.radius_sqr);
        r.div_scalar(rl).scale(a)
    }
}

/// The viscosity kernel's Laplacian surrogate.
#[derive(Clone, Copy, Debug)]
pub struct Viscosity {
    pub radius: i64,
    pub radius_sqr: i64,
    pub l: i64,
}

impl Viscosity {
    pub open spec fn wf(self) -> bool {
        &&& self.radius > 0
    &&& self.radius_sqr == s_mul(self.radius, self.radius)
    &&& self.l == FX_10
    }

    /// Laplacian surrogate `l * (h * |r|)` with `l = 10`: a simplified,
    /// non-standard stand-in for the full viscosity-kernel Laplacian,
    /// and deliberately so.
    pub open spec fn spec_laplacian_w(self, r: Vec3Fx) -> i64 {
        s_mul(self.l, s_mul(self.radius, v_len(r)))
    }

    pub fn new(radius: i64) -> (r: Viscosity)
        requires
            radius > 0,
        ensures
            r.wf(),
            r.radius == radius,
    {
        proof {
            broadcast use group_s_ops;

        }
        Viscosity { radius, radius_sqr: fixed::mul(radius, radius), l: FX_10 }
    }

    pub fn laplacian_w(&self, r: Vec3Fx) -> (res: i64)
        ensures
            res == self.spec_laplacian_w(r),
    {
        proof {
            broadcast use group_s_ops;

        }
        let rl = r.length();
        fixed::mul(self.l, fixed::mul(self.radius, rl))
    }
}

/// The three smoothing kernels over a common support radius, with the
/// precomputed self-density term `w0 = w(0)`.
#[derive(Clone, Copy, Debug)]
pub struct Kernel {
    pub w0: i64,
    pub poly6: Poly6,
    pub spiky: Spiky,
    pub viscosity: Viscosity,
}

impl Kernel {
    /// All three kernels were built from one radius, and `w0` is the
    /// Poly6 weight of the zero displacement.
    pub open spec fn wf(self) -> bool {
        &&& self.poly6.wf()
    &&& self.spiky.wf()
    &&& self.viscosity.wf()
    &&& self.spiky.radius == self.poly6.radius
    &&& self.viscosity.radius == self.poly6.radius
    &&& self.w0 == self.spec_w(Vec3Fx::spec_zero())
    }

    pub open spec fn spec_radius(self) -> i64 {
        self.poly6.radius
    }

    pub open spec fn spec_radius_sqr(self) -> i64 {
        self.poly6.radius_sqr
    }

    pub open spec fn spec_w0(self) -> i64 {
        self.w0
    }

    /// Poly6 density weight of a displacement.
    pub open spec fn spec_w(self, r: Vec3Fx) -> i64 {
        self.poly6.spec_w_vec(r)
    }

    pub open spec fn spec_poly6_grad_w(self, r: Vec3Fx) -> Vec3Fx {
        self.poly6.spec_grad_w(r)
    }

    pub open spec fn spec_poly6_laplacian_w(self, r: Vec3Fx) -> i64 {
        self.poly6.spec_laplacian_w(r)
    }

    pub open spec fn spec_spiky_grad_w(self, r: Vec3Fx) -> Vec3Fx {
        self.spiky.spec_grad_w(r)
    }

    pub open spec fn spec_viscosity_laplacian_w(self, r: Vec3Fx) -> i64 {
        self.viscosity.spec_laplacian_w(r)
    }

    /// Law: the Poly6 weight is zero on and beyond the support radius —
    /// whether the test is on the squared distance or on the Euclidean
    /// length — and the precomputed `w0` is the weight of the zero
    /// displacement (the closed form `k * h^6`).
    pub proof fn lemma_w_outside_support(self, r: Vec3Fx)
        requires
            self.wf(),
        ensures
            v_dot(r, r) >= self.poly6.radius_sqr ==> self.spec_w(r) == 0,
            v_len(r) >= self.poly6.radius ==> self.spec_w(r) == 0,
            self.w0 == self.spec_w(Vec3Fx::spec_zero()),
    {
        broadcast use group_s_ops;

        let d = v_dot(r, r);
        let rl = v_len(r);
        if rl >= self.poly6.radius {
            fixed::lemma_fx_sqrt_props(d as int);
            if d <= 0 {
                assert(rl == 0);
            } else {
                let n = d as int * fixed::FX_SCALE as int;
                assert(fixed::is_sqrt_floor(n, rl as int));
                assert(self.poly6.radius as int * self.poly6.radius as int <= rl as int
                    * rl as int) by (nonlinear_arith)
                    requires
                        0 < self.poly6.radius as int <= rl as int,
                ;
                let hh = self.poly6.radius as int * self.poly6.radius as int;
                vstd::arithmetic::div_mod::lemma_fundamental_div_mod(hh, fixed::FX_SCALE as int);
                assert(hh % (fixed::FX_SCALE as int) >= 0);
                assert((hh / (fixed::FX_SCALE as int)) * (fixed::FX_SCALE as int) <= hh);
                assert(self.poly6.radius_sqr as int <= hh / (fixed::FX_SCALE as int));
                assert(self.poly6.radius_sqr as int * fixed::FX_SCALE as int <= hh)
                    by (nonlinear_arith)
                    requires
                        self.poly6.radius_sqr as int <= hh / (fixed::FX_SCALE as int) && (hh / (
                        fixed::FX_SCALE as int)) * (fixed::FX_SCALE as int) <= hh,
                ;
                assert(self.poly6.radius_sqr as int <= d as int) by (nonlinear_arith)
                    requires
                        self.poly6.radius_sqr as int * fixed::FX_SCALE as int <= d as int
                            * fixed::FX_SCALE as int,
                ;
            }
        }
    }

    /// Law: the Poly6 weight is nonnegative — the clamped factor is
    /// cubed only when positive, and every constant is nonnegative.
    pub proof fn lemma_w_nonneg(self, r: Vec3Fx)
        requires
            self.wf(),
        ensures
            self.spec_w(r) >= 0,
    {
        broadcast use group_s_ops;

        let d = v_dot(r, r);
        let m = s_sub(self.poly6.radius_sqr, d);
        if m > 0 {
            fixed::lemma_fx_mul_nonneg(FX_64 as int, FX_PI as int);
            fixed::lemma_fx_div_nonneg(FX_315 as int, fixed::fx_mul(FX_64 as int, FX_PI as int));
            fixed::lemma_fx_mul_nonneg(self.poly6.radius as int, self.poly6.radius as int);
            fixed::lemma_fx_mul_nonneg(self.poly6.radius_sqr as int, self.poly6.radius as int);
            fixed::lemma_fx_div_nonneg(m as int, self.poly6.radius_cube as int);
            let u = s_div(m, self.poly6.radius_cube);
            fixed::lemma_fx_mul_nonneg(u as int, u as int);
            fixed::lemma_fx_mul_nonneg(u as int, s_mul(u, u) as int);
            fixed::lemma_fx_mul_nonneg(self.poly6.k as int, s_mul(u, s_mul(u, u)) as int);
        }
    }

    /// The Poly6 weight depends on the displacement only through its
    /// squared length, so it is symmetric under negation.
    pub proof fn lemma_w_symmetric(self, r: Vec3Fx)
        requires
            self.wf(),
            vec_in_range(r),
        ensures
            self.spec_w(v_neg(r)) == self.spec_w(r),
    {
        lemma_v_dot_neg(r);
    }

    /// The viscosity Laplacian surrogate is symmetric under negation.
    pub proof fn lemma_viscosity_symmetric(self, r: Vec3Fx)
        requires
            self.wf(),
            vec_in_range(r),
        ensures
            self.spec_viscosity_laplacian_w(v_neg(r)) == self.spec_viscosity_laplacian_w(r),
    {
        lemma_v_dot_neg(r);
    }

    /// The Spiky gradient is antisymmetric: negating the displacement
    /// negates the gradient.
    pub proof fn lemma_spiky_grad_antisym(self, r: Vec3Fx)
        requires
            self.wf(),
            vec_in_range(r),
        ensures
            self.spec_spiky_grad_w(v_neg(r)) == v_neg(self.spec_spiky_grad_w(r)),
    {
        broadcast use group_s_ops;

        lemma_v_dot_neg(r);
        let rl = v_len(r);
        let s = s_div(s_sub(self.spiky.radius, rl), self.spiky.radius_sqr);
        let a = s_div(s_mul(self.spiky.l, s_mul(s, s)), self.spiky.radius_sqr);
        lemma_v_neg_div(r, rl);
        lemma_v_neg_scale(v_div(r, rl), a);
    }

    /// Build the kernels; fails exactly on a non-positive support radius.
    pub fn new(radius: i64) -> (r: Result<Kernel, ConfigError>)
        ensures
            radius <= 0 ==> r == Err::<Kernel, ConfigError>(ConfigError::NonPositiveRadius),
            radius > 0 ==> r is Ok && r->Ok_0.wf() && r->Ok_0.spec_radius() == radius,
    {
        proof {
            broadcast use group_s_ops;

        }
        if radius <= 0 {
            return Err(ConfigError::NonPositiveRadius);
        }
        let poly6 = Poly6::new(radius);
        let spiky = Spiky::new(radius);
        let viscosity = Viscosity::new(radius);
        let w0 = poly6.w(0);
        proof {
            assert(s_mul(0, 0) == 0);
            assert(v_dot(Vec3Fx::spec_zero(), Vec3Fx::spec_zero()) == 0);
            assert(poly6.spec_w(0) == poly6.spec_w_vec(Vec3Fx::spec_zero()));
        }
        Ok(Kernel { w0, poly6, spiky, viscosity })
    }

    /// The precomputed self-density term `w(0)`.
    pub fn w0(&self) -> (res: i64)
        requires
            self.wf(),
        ensures
            res == self.spec_w0(),
            res == self.spec_w(Vec3Fx::spec_zero()),
    {
        self.w0
    }

    /// Poly6 density weight of a displacement.
    pub fn w(&self, r: Vec3Fx) -> (res: i64)
        requires
            self.wf(),
        ensures
            res == self.spec_w(r),
    {
        self.poly6.w_vec(r)
    }

    /// Poly6 gradient of a displacement.
    pub fn poly6_grad_w(&self, r: Vec3Fx) -> (res: Vec3Fx)
        requires
            self.wf(),
        ensures
            res == self.spec_poly6_grad_w(r),
    {
        self.poly6.grad_w(r)
    }

    /// Poly6 Laplacian of a displacement.
    pub fn poly6_laplacian_w(&self, r: Vec3Fx) -> (res: i64)
        requires
            self.wf(),
        ensures
            res == self.spec_poly6_laplacian_w(r),
    {
        self.poly6.laplacian_w(r)
    }

    /// Spiky gradient of a displacement; undefined at the origin, so the
    /// caller must exclude exact-zero separations.
    pub fn spiky_grad_w(&self, r: Vec3Fx) -> (res: Vec3Fx)
        requires
            self.wf(),
            v_dot(r, r) > 0,
        ensures
            res == self.spec_spiky_grad_w(r),
    {
        self.spiky.grad_w(r)
    }

    /// Viscosity Laplacian surrogate of a displacement.
    pub fn viscosity_laplacian_w(&self, r: Vec3Fx) -> (res: i64)
        requires
            self.wf(),
        ensures
            res == self.spec_viscosity_laplacian_w(r),
    {
        self.viscosity.laplacian_w(r)
    }
}

} // verus!
