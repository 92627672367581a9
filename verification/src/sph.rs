//! The SPH engine: the particle store with its rendering-facing
//! instance projection, and the four-pass stepper.

use vstd::prelude::*;
use crate::config::{Config, ConfigError, FluidType, SimulationConfig};
use crate::kernel::Kernel;
use crate::vec3::{Vec3Fx, s_add, s_sub, s_neg, s_mul, s_div, v_add, v_sub, v_neg, v_scale, v_div,
    v_dot, v_len, group_s_ops};
use crate::world_map::{Tile, WorldMap, spec_tile_at};
use crate::fixed;

verus! {

/// One fixed-point unit; scaling by it is the identity.
pub const FX_ONE: i64 = 1_000_000;

/// The fixed-point image of 2, the divisor of the symmetrized pressures.
pub const FX_TWO: i64 = 2_000_000;

/// One tracked fluid parcel. Density and boundary-corrected density are
/// transient per-tick values, recomputed by the stepper.
#[derive(Clone, Copy, Debug, PartialEq, Eq, Structural)]
pub struct SimulationParticle {
    pub position: Vec3Fx,
    pub velocity: Vec3Fx,
    pub acceleration: Vec3Fx,
    pub forces: Vec3Fx,
    pub density: i64,
    pub density_correction: i64,
    pub temperature: i64,
    pub fluid_type: FluidType,
    pub size: i64,
    pub color: Vec3Fx,
}

impl SimulationParticle {
    /// A freshly emitted parcel: no accumulated force, acceleration or
    /// derived density yet.
    pub fn new(
        position: Vec3Fx,
        velocity: Vec3Fx,
        temperature: i64,
        fluid_type: FluidType,
        size: i64,
        color: Vec3Fx,
    ) -> (r: SimulationParticle)
        ensures
            r == (SimulationParticle {
                position,
                velocity,
                acceleration: Vec3Fx::spec_zero(),
                forces: Vec3Fx::spec_zero(),
                density: 0,
                density_correction: 0,
                temperature,
                fluid_type,
                size,
                color,
            }),
    {
        SimulationParticle {
            position,
            velocity,
            acceleration: Vec3Fx::zero(),
            forces: Vec3Fx::zero(),
            density: 0,
            density_correction: 0,
            temperature,
            fluid_type,
            size,
            color,
        }
    }
}

/// The rendering-facing projection of a particle: index-stable with the
/// particle list, one entry per particle.
#[derive(Clone, Copy, Debug, PartialEq, Eq, Structural)]
pub struct ParticleInstance {
    pub position: Vec3Fx,
    pub size: i64,
    pub color: Vec3Fx,
}

/// The projection a particle contributes to the instance list.
pub open spec fn instance_of(p: SimulationParticle) -> ParticleInstance {
    ParticleInstance { position: p.position, size: p.size, color: p.color }
}

/// A particle with its uncorrected density replaced.
pub open spec fn with_density(p: SimulationParticle, d: i64) -> SimulationParticle {
    SimulationParticle { density: d, ..p }
}

/// The pass-1 term particle `j` contributes to particle `i`'s density:
/// `mass * w(pos_i - pos_j)`, counted only for a distinct same-phase
/// neighbor at Euclidean distance in `(0, h]`.
pub open spec fn density_term(
    parts: Seq<SimulationParticle>,
    cfg: SimulationConfig,
    kern: Kernel,
    i: int,
    j: int,
    acc: i64,
) -> i64 {
    if j == i {
        acc
    } else {
        let diff = v_sub(parts[i].position, parts[j].position);
        let r = v_len(diff);
        if parts[i].fluid_type == parts[j].fluid_type && 0 < r && r <= cfg.radius {
            s_add(acc, s_mul(cfg.mass, kern.spec_w(diff)))
        } else {
            acc
        }
    }
}

/// Pass-1 accumulator: the self term `w0` plus the contributions of the
/// neighbors with index below `j`, folded in index order.
pub open spec fn density_sum(
    parts: Seq<SimulationParticle>,
    cfg: SimulationConfig,
    kern: Kernel,
    i: int,
    j: int,
) -> i64
    decreases j,
{
    if j <= 0 {
        kern.w0
    } else {
        density_term(parts, cfg, kern, i, j - 1, density_sum(parts, cfg, kern, i, j - 1))
    }
}

/// The uncorrected density of particle `i`: all neighbors considered.
pub open spec fn spec_density(
    parts: Seq<SimulationParticle>,
    cfg: SimulationConfig,
    kern: Kernel,
    i: int,
) -> i64 {
    density_sum(parts, cfg, kern, i, parts.len() as int)
}

/// The whole uncorrected density pass.
pub open spec fn spec_pass_density(
    parts: Seq<SimulationParticle>,
    cfg: SimulationConfig,
    kern: Kernel,
) -> Seq<SimulationParticle> {
    Seq::new(parts.len(), |i: int| with_density(parts[i], spec_density(parts, cfg, kern, i)))
}

/// A particle with its boundary-corrected density replaced.
pub open spec fn with_correction(p: SimulationParticle, dc: i64) -> SimulationParticle {
    SimulationParticle { density_correction: dc, ..p }
}

/// The pass-2 term particle `j` contributes to particle `i`'s density
/// gradient: `-(mass / density_j) * poly6_grad_w(pos_i - pos_j)` for a
/// distinct gaseous neighbor at Euclidean distance in `(0, h]`.
pub open spec fn density_grad_term(
    parts: Seq<SimulationParticle>,
    cfg: SimulationConfig,
    kern: Kernel,
    i: int,
    j: int,
    acc: Vec3Fx,
) -> Vec3Fx {
    if j == i {
        acc
    } else {
        let diff = v_sub(parts[i].position, parts[j].position);
        let r = v_len(diff);
        if parts[j].fluid_type != FluidType::Liquid && 0 < r && r <= cfg.radius {
            v_sub(acc, v_scale(kern.spec_poly6_grad_w(diff), s_div(cfg.mass, parts[j].density)))
        } else {
            acc
        }
    }
}

/// Pass-2 accumulator: the density gradient folded over the neighbors
/// with index below `j`, in index order.
pub open spec fn density_grad_sum(
    parts: Seq<SimulationParticle>,
    cfg: SimulationConfig,
    kern: Kernel,
    i: int,
    j: int,
) -> Vec3Fx
    decreases j,
{
    if j <= 0 {
        Vec3Fx::spec_zero()
    } else {
        density_grad_term(parts, cfg, kern, i, j - 1, density_grad_sum(parts, cfg, kern, i, j - 1))
    }
}

/// The boundary-corrected density of gaseous particle `i`: the density
/// scaled by `1 + v0 * w(virtual_particle)`, where the virtual-particle
/// ratio `v0` compares the accumulated gradient against the gradient at
/// the fixed virtual-particle offset.
pub open spec fn spec_density_correction(
    parts: Seq<SimulationParticle>,
    cfg: SimulationConfig,
    kern: Kernel,
    i: int,
) -> i64 {
    let g = density_grad_sum(parts, cfg, kern, i, parts.len() as int);
    let v0 = s_div(v_len(g), v_len(kern.spec_poly6_grad_w(cfg.virtual_particle)));
    s_mul(parts[i].density, s_add(FX_ONE, s_mul(v0, kern.spec_w(cfg.virtual_particle))))
}

/// The whole boundary-corrected density pass; liquid particles are
/// untouched.
pub open spec fn spec_pass_correction(
    parts: Seq<SimulationParticle>,
    cfg: SimulationConfig,
    kern: Kernel,
) -> Seq<SimulationParticle> {
    Seq::new(
        parts.len(),
        |i: int|
            if parts[i].fluid_type == FluidType::Liquid {
                parts[i]
            } else {
                with_correction(parts[i], spec_density_correction(parts, cfg, kern, i))
            },
    )
}

/// The four running sums of the force-assembly pass.
#[derive(Clone, Copy, Debug, PartialEq, Eq, Structural)]
pub struct ForceAccum {
    pub atmospheric: Vec3Fx,
    pub pressure: Vec3Fx,
    pub viscosity: Vec3Fx,
    pub temperature: i64,
}

/// Pressure of a particle against the rest density:
/// `gas_constant * (density - rest_density)`.
pub open spec fn spec_pressure_of(cfg: SimulationConfig, density: i64) -> i64 {
    s_mul(cfg.gas_constant, s_sub(density, cfg.rest_density))
}

/// The symmetric pairwise pressure contribution of neighbor `j` on
/// particle `i`: `-(mass / density_j) * ((P_i + P_j) / 2) * spiky_grad_w(diff)`
/// (returned un-negated; the accumulator subtracts it).
pub open spec fn pressure_pair_term(
    pi: SimulationParticle,
    pj: SimulationParticle,
    cfg: SimulationConfig,
    kern: Kernel,
) -> Vec3Fx {
    let diff = v_sub(pi.position, pj.position);
    let pressure_i = spec_pressure_of(cfg, pi.density);
    let pressure_j = spec_pressure_of(cfg, pj.density);
    v_scale(
        kern.spec_spiky_grad_w(diff),
        s_mul(s_div(cfg.mass, pj.density), s_div(s_add(pressure_i, pressure_j), FX_TWO)),
    )
}

/// The pairwise viscosity contribution of neighbor `j` on particle `i`:
/// `mass * (vel_j - vel_i) / density_j * viscosity_laplacian_w(diff)`.
pub open spec fn viscosity_pair_term(
    pi: SimulationParticle,
    pj: SimulationParticle,
    cfg: SimulationConfig,
    kern: Kernel,
) -> Vec3Fx {
    let diff = v_sub(pi.position, pj.position);
    v_scale(
        v_div(v_scale(v_sub(pj.velocity, pi.velocity), cfg.mass), pj.density),
        kern.spec_viscosity_laplacian_w(diff),
    )
}

/// The pass-3 contribution of neighbor `j` to particle `i`'s running
/// sums, counted for a distinct same-phase neighbor whose squared
/// distance lies in `(0, h^2]` (the squared-distance gate of this pass).
pub open spec fn force_term(
    parts: Seq<SimulationParticle>,
    cfg: SimulationConfig,
    kern: Kernel,
    i: int,
    j: int,
    acc: ForceAccum,
) -> ForceAccum {
    if j == i {
        acc
    } else {
        let pi = parts[i];
        let pj = parts[j];
        if pi.fluid_type != pj.fluid_type {
            acc
        } else {
            let diff = v_sub(pi.position, pj.position);
            let r = v_dot(diff, diff);
            if !(0 < r && r <= s_mul(cfg.radius, cfg.radius)) {
                acc
            } else {
                let pressure_i = spec_pressure_of(cfg, pi.density);
                let pressure_j = spec_pressure_of(cfg, pj.density);
                let pressure_k = spec_pressure_of(cfg, pi.density_correction);
                match pi.fluid_type {
                    FluidType::Gaseous => ForceAccum {
                        atmospheric: v_add(
                            acc.atmospheric,
                            v_scale(kern.spec_spiky_grad_w(diff), s_div(cfg.mass, pressure_j)),
                        ),
                        pressure: v_sub(
                            acc.pressure,
                            v_add(
                                pressure_pair_term(pi, pj, cfg, kern),
                                v_scale(
                                    kern.spec_spiky_grad_w(cfg.virtual_particle),
                                    s_mul(
                                        s_div(cfg.mass, pi.density_correction),
                                        s_div(s_add(pressure_i, pressure_k), FX_TWO),
                                    ),
                                ),
                            ),
                        ),
                        viscosity: v_add(acc.viscosity, viscosity_pair_term(pi, pj, cfg, kern)),
                        temperature: s_add(
                            acc.temperature,
                            s_mul(
                                s_mul(
                                    s_mul(
                                        s_div(cfg.mass, s_mul(pressure_i, pressure_j)),
                                        cfg.thermal_conductivity,
                                    ),
                                    s_sub(pi.temperature, pj.temperature),
                                ),
                                s_div(
                                    v_dot(diff, kern.spec_spiky_grad_w(diff)),
                                    s_add(v_dot(diff, diff), cfg.small_positive),
                                ),
                            ),
                        ),
                    },
                    FluidType::Liquid => ForceAccum {
                        pressure: v_sub(acc.pressure, pressure_pair_term(pi, pj, cfg, kern)),
                        viscosity: v_add(acc.viscosity, viscosity_pair_term(pi, pj, cfg, kern)),
                        ..acc
                    },
                }
            }
        }
    }
}

/// Pass-3 accumulator: the running sums folded over the neighbors with
/// index below `j`, in index order.
pub open spec fn force_sum(
    parts: Seq<SimulationParticle>,
    cfg: SimulationConfig,
    kern: Kernel,
    i: int,
    j: int,
) -> ForceAccum
    decreases j,
{
    if j <= 0 {
        ForceAccum {
            atmospheric: Vec3Fx::spec_zero(),
            pressure: Vec3Fx::spec_zero(),
            viscosity: Vec3Fx::spec_zero(),
            temperature: 0,
        }
    } else {
        force_term(parts, cfg, kern, i, j - 1, force_sum(parts, cfg, kern, i, j - 1))
    }
}

/// Particle `i` after force assembly, given the state `parts` in which
/// the particles before `i` already carry their updated temperature.
pub open spec fn spec_force_one(
    parts: Seq<SimulationParticle>,
    cfg: SimulationConfig,
    kern: Kernel,
    i: int,
) -> SimulationParticle {
    let pi = parts[i];
    let acc = force_sum(parts, cfg, kern, i, parts.len() as int);
    let viscosity = v_scale(acc.viscosity, cfg.viscosity);
    match pi.fluid_type {
        FluidType::Gaseous => {
            let damped = v_len(acc.atmospheric) > cfg.damping_threshold;
            let temp_acc = if damped {
                s_sub(acc.temperature, s_div(pi.temperature, cfg.radiation_half_life))
            } else {
                acc.temperature
            };
            let damping = if damped {
                v_scale(pi.velocity, s_neg(cfg.damping_coefficient))
            } else {
                Vec3Fx::spec_zero()
            };
            let new_temp = s_add(pi.temperature, temp_acc);
            let buoyancy = v_scale(
                cfg.buoyancy_direction,
                s_mul(cfg.buoyancy_coefficient, new_temp),
            );
            let body = v_scale(v_add(v_add(cfg.gravity, buoyancy), damping), pi.density);
            let forces = v_add(
                v_add(v_add(acc.pressure, v_scale(acc.atmospheric, FX_ONE)), viscosity),
                body,
            );
            SimulationParticle { temperature: new_temp, forces, ..pi }
        },
        FluidType::Liquid => {
            let forces = v_add(v_add(acc.pressure, viscosity), v_scale(cfg.gravity, pi.density));
            SimulationParticle { forces, ..pi }
        },
    }
}

/// The force pass up to particle `i`: each particle in turn is replaced
/// by its assembled value, so later particles read the already-updated
/// temperatures of earlier ones, as the in-place pass does.
pub open spec fn spec_pass_forces(
    parts: Seq<SimulationParticle>,
    cfg: SimulationConfig,
    kern: Kernel,
    i: int,
) -> Seq<SimulationParticle>
    decreases i,
{
    if i <= 0 {
        parts
    } else {
        let prev = spec_pass_forces(parts, cfg, kern, i - 1);
        prev.update(i - 1, spec_force_one(prev, cfg, kern, i - 1))
    }
}

/// The force pass changes only forces and temperatures: length,
/// positions and appearance are untouched.
pub proof fn lemma_pass_forces_frame(
    parts: Seq<SimulationParticle>,
    cfg: SimulationConfig,
    kern: Kernel,
    i: int,
)
    requires
        0 <= i <= parts.len(),
    ensures
        spec_pass_forces(parts, cfg, kern, i).len() == parts.len(),
        forall|k: int|
            0 <= k < parts.len() ==> {
                let q = #[trigger] spec_pass_forces(parts, cfg, kern, i)[k];
                q.position == parts[k].position && q.size == parts[k].size && q.color
                    == parts[k].color
            },
    decreases i,
{
    if i > 0 {
        lemma_pass_forces_frame(parts, cfg, kern, i - 1);
    }
}

/// One particle integrated forward: `accel = force / density`, the
/// velocity advanced by the averaged accelerations scaled by `dt * dt`
/// (the `dt`-squared factor is deliberate; this is a semi-implicit
/// Euler-like scheme, not canonical Verlet), and the position advanced
/// by the previous velocity and half the previous acceleration.
pub open spec fn spec_integrate_one(p: SimulationParticle, dt: i64) -> SimulationParticle {
    let accel = v_div(p.forces, p.density);
    let velocity = v_add(
        p.velocity,
        v_scale(v_scale(v_div(v_add(p.acceleration, accel), FX_TWO), dt), dt),
    );
    let position = v_add(
        p.position,
        v_add(v_scale(p.velocity, dt), v_scale(v_scale(v_div(p.acceleration, FX_TWO), dt), dt)),
    );
    SimulationParticle { acceleration: accel, velocity, position, ..p }
}

/// The whole integration pass.
pub open spec fn spec_pass_integrate(parts: Seq<SimulationParticle>, dt: i64) -> Seq<
    SimulationParticle,
> {
    Seq::new(parts.len(), |i: int| spec_integrate_one(parts[i], dt))
}

/// One full tick: uncorrected densities, boundary-corrected densities,
/// force assembly, integration — in that fixed order. (Opaque: the
/// composition expands into every pass; provers reveal it where they
/// establish it.)
#[verifier::opaque]
pub open spec fn spec_step(
    parts: Seq<SimulationParticle>,
    cfg: SimulationConfig,
    kern: Kernel,
    dt: i64,
) -> Seq<SimulationParticle> {
    let with_densities = spec_pass_density(parts, cfg, kern);
    let with_corrections = spec_pass_correction(with_densities, cfg, kern);
    let with_forces = spec_pass_forces(
        with_corrections,
        cfg,
        kern,
        with_corrections.len() as int,
    );
    spec_pass_integrate(with_forces, dt)
}

/// The pass-1 accumulator stays representable, never falls below the
/// self term, and is exactly the self term when no neighbor below `j`
/// qualifies.
proof fn lemma_density_sum_props(
    parts: Seq<SimulationParticle>,
    cfg: SimulationConfig,
    kern: Kernel,
    i: int,
    j: int,
)
    requires
        kern.wf(),
        cfg.mass > 0,
    ensures
        fixed::fx_in_range(density_sum(parts, cfg, kern, i, j) as int),
        density_sum(parts, cfg, kern, i, j) >= kern.w0,
        (forall|l: int|
            0 <= l < j && l != i && parts[l].fluid_type == parts[i].fluid_type ==> !(0 < v_len(
                v_sub(parts[i].position, #[trigger] parts[l].position),
            ) <= cfg.radius)) ==> density_sum(parts, cfg, kern, i, j) == kern.w0,
    decreases j,
{
    broadcast use group_s_ops;

    if j <= 0 {
    } else {
        lemma_density_sum_props(parts, cfg, kern, i, j - 1);
        let acc = density_sum(parts, cfg, kern, i, j - 1);
        if j - 1 != i {
            let diff = v_sub(parts[i].position, parts[j - 1].position);
            let r = v_len(diff);
            if parts[i].fluid_type == parts[j - 1].fluid_type && 0 < r && r <= cfg.radius {
                kern.lemma_w_nonneg(diff);
                fixed::lemma_fx_mul_nonneg(cfg.mass as int, kern.spec_w(diff) as int);
                fixed::lemma_fx_add_increases(
                    acc as int,
                    fixed::fx_mul(cfg.mass as int, kern.spec_w(diff) as int),
                );
                fixed::lemma_fx_clamp_in_range(
                    acc as int + fixed::fx_mul(cfg.mass as int, kern.spec_w(diff) as int),
                );
            }
        }
    }
}

/// Law: after the uncorrected density pass, a particle's density is at
/// least the self term `w0`.
pub proof fn lemma_density_at_least_self(
    parts: Seq<SimulationParticle>,
    cfg: SimulationConfig,
    kern: Kernel,
    i: int,
)
    requires
        kern.wf(),
        cfg.valid(),
    ensures
        spec_density(parts, cfg, kern, i) >= kern.w0,
{
    lemma_density_sum_props(parts, cfg, kern, i, parts.len() as int);
}

/// Law: with no same-phase neighbor inside the support radius, the
/// density reduces to exactly the self term.
pub proof fn lemma_density_isolated(
    parts: Seq<SimulationParticle>,
    cfg: SimulationConfig,
    kern: Kernel,
    i: int,
)
    requires
        kern.wf(),
        cfg.valid(),
        forall|l: int|
            0 <= l < parts.len() && l != i && parts[l].fluid_type == parts[i].fluid_type ==> !(0
                < v_len(v_sub(parts[i].position, #[trigger] parts[l].position)) <= cfg.radius),
    ensures
        spec_density(parts, cfg, kern, i) == kern.w0,
{
    lemma_density_sum_props(parts, cfg, kern, i, parts.len() as int);
}

/// Law (pairwise symmetry): between two same-density particles, the
/// pairwise pressure and viscosity contributions are equal in magnitude
/// and opposite in direction — Newton's third law at the pairwise level,
/// apart from the asymmetric virtual-particle correction, which this
/// statement deliberately leaves out.
pub proof fn lemma_pairwise_symmetry(
    pi: SimulationParticle,
    pj: SimulationParticle,
    cfg: SimulationConfig,
    kern: Kernel,
)
    requires
        kern.wf(),
        pi.density == pj.density,
    ensures
        pressure_pair_term(pj, pi, cfg, kern) == v_neg(pressure_pair_term(pi, pj, cfg, kern)),
        viscosity_pair_term(pj, pi, cfg, kern) == v_neg(viscosity_pair_term(pi, pj, cfg, kern)),
{
    broadcast use group_s_ops;

    let diff = v_sub(pi.position, pj.position);
    crate::vec3::lemma_v_sub_antisym(pi.position, pj.position);
    kern.lemma_spiky_grad_antisym(diff);
    let pressure_i = spec_pressure_of(cfg, pi.density);
    let pressure_j = spec_pressure_of(cfg, pj.density);
    let scalar = s_mul(s_div(cfg.mass, pj.density), s_div(s_add(pressure_i, pressure_j), FX_TWO));
    crate::vec3::lemma_v_neg_scale(kern.spec_spiky_grad_w(diff), scalar);
    kern.lemma_viscosity_symmetric(diff);
    crate::vec3::lemma_v_sub_antisym(pj.velocity, pi.velocity);
    crate::vec3::lemma_v_neg_scale(v_sub(pj.velocity, pi.velocity), cfg.mass);
    crate::vec3::lemma_v_neg_div(v_scale(v_sub(pj.velocity, pi.velocity), cfg.mass), pj.density);
    crate::vec3::lemma_v_neg_scale(
        v_div(v_scale(v_sub(pj.velocity, pi.velocity), cfg.mass), pj.density),
        kern.spec_viscosity_laplacian_w(diff),
    );
}

/// In a two-particle system the uncorrected densities agree whenever the
/// particles share a phase: the Poly6 weight is symmetric.
pub proof fn lemma_two_particle_densities_equal(
    parts: Seq<SimulationParticle>,
    cfg: SimulationConfig,
    kern: Kernel,
)
    requires
        kern.wf(),
        parts.len() == 2,
        parts[0].fluid_type == parts[1].fluid_type,
    ensures
        spec_density(parts, cfg, kern, 0) == spec_density(parts, cfg, kern, 1),
{
    broadcast use group_s_ops;

    reveal_with_fuel(density_sum, 3);
    let diff = v_sub(parts[0].position, parts[1].position);
    crate::vec3::lemma_v_sub_antisym(parts[0].position, parts[1].position);
    kern.lemma_w_symmetric(diff);
    crate::vec3::lemma_v_dot_neg(diff);
    assert(density_sum(parts, cfg, kern, 0, 1) == kern.w0);
    assert(density_sum(parts, cfg, kern, 1, 1) == density_term(parts, cfg, kern, 1, 0, kern.w0));
}

/// Law (two-particle symmetry): in a two-particle same-phase system with
/// the shared mass and any temperatures, the densities the first pass
/// assigns are equal, and the pairwise pressure and viscosity
/// contributions of each particle on the other are then equal in
/// magnitude and opposite in direction — apart from the asymmetric
/// virtual-particle correction, which this statement leaves out.
pub proof fn lemma_two_particle_pairwise_opposition(
    parts: Seq<SimulationParticle>,
    cfg: SimulationConfig,
    kern: Kernel,
)
    requires
        kern.wf(),
        parts.len() == 2,
        parts[0].fluid_type == parts[1].fluid_type,
    ensures
        ({
            let dense = spec_pass_density(parts, cfg, kern);
            &&& dense[0].density == dense[1].density
            &&& pressure_pair_term(dense[1], dense[0], cfg, kern) == v_neg(
                pressure_pair_term(dense[0], dense[1], cfg, kern),
            )
            &&& viscosity_pair_term(dense[1], dense[0], cfg, kern) == v_neg(
                viscosity_pair_term(dense[0], dense[1], cfg, kern),
            )
        }),
{
    lemma_two_particle_densities_equal(parts, cfg, kern);
    let dense = spec_pass_density(parts, cfg, kern);
    assert(dense[0].density == dense[1].density);
    lemma_pairwise_symmetry(dense[0], dense[1], cfg, kern);
}

/// Pass-3 accumulation for a liquid particle never reads the particle's
/// boundary-corrected density.
#[verifier::rlimit(100)]
proof fn lemma_force_sum_ignores_correction(
    parts: Seq<SimulationParticle>,
    cfg: SimulationConfig,
    kern: Kernel,
    i: int,
    j: int,
    dc: i64,
)
    requires
        0 <= i < parts.len(),
        0 <= j <= parts.len(),
        parts[i].fluid_type == FluidType::Liquid,
    ensures
        force_sum(parts.update(i, with_correction(parts[i], dc)), cfg, kern, i, j) == force_sum(
            parts,
            cfg,
            kern,
            i,
            j,
        ),
    decreases j,
{
    if j > 0 {
        lemma_force_sum_ignores_correction(parts, cfg, kern, i, j - 1, dc);
        let q = parts.update(i, with_correction(parts[i], dc));
        assert(q.len() == parts.len());
        assert(q[i].fluid_type == FluidType::Liquid);
        if j - 1 != i {
            assert(q[j - 1] == parts[j - 1]);
        }
    }
}

/// Law: a liquid particle acquires no `density_correction`-derived force
/// term — its assembled force is invariant under any change of that
/// field — and the gaseous-only post-processing never touches it: its
/// temperature and velocity stay exactly as they were.
pub proof fn lemma_liquid_ignores_correction(
    parts: Seq<SimulationParticle>,
    cfg: SimulationConfig,
    kern: Kernel,
    i: int,
    dc: i64,
)
    requires
        0 <= i < parts.len(),
        parts[i].fluid_type == FluidType::Liquid,
    ensures
        spec_force_one(parts, cfg, kern, i).temperature == parts[i].temperature,
        spec_force_one(parts, cfg, kern, i).velocity == parts[i].velocity,
        spec_force_one(parts.update(i, with_correction(parts[i], dc)), cfg, kern, i).forces
            == spec_force_one(parts, cfg, kern, i).forces,
{
    lemma_force_sum_ignores_correction(parts, cfg, kern, i, parts.len() as int, dc);
}

/// Law: appending a particle and removing the last index restores both
/// the particle list and the instance list exactly.
pub proof fn lemma_add_remove_restores(
    parts: Seq<SimulationParticle>,
    insts: Seq<ParticleInstance>,
    p: SimulationParticle,
)
    ensures
        parts.push(p).remove(parts.len() as int) == parts,
        insts.push(instance_of(p)).remove(insts.len() as int) == insts,
{
    assert(parts.push(p).remove(parts.len() as int) =~= parts);
    assert(insts.push(instance_of(p)).remove(insts.len() as int) =~= insts);
}

/// The hard vertical ceiling: a particle above it (or below 0) is
/// always out of bounds.
pub const FX_CEILING: i64 = 3_000_000;

/// The culling predicate: off the floor, or outside the hard vertical
/// band `[0, 3]` even on the floor.
pub open spec fn should_remove(p: SimulationParticle, tiles: Seq<Seq<Tile>>) -> bool {
    match spec_tile_at(tiles, p.position) {
        Tile::Floor => p.position.y > FX_CEILING || p.position.y < 0,
        _ => true,
    }
}

/// The particles that survive a cull, in order.
pub open spec fn remaining(parts: Seq<SimulationParticle>, tiles: Seq<Seq<Tile>>) -> Seq<
    SimulationParticle,
>
    decreases parts.len(),
{
    if parts.len() == 0 {
        Seq::empty()
    } else {
        let rest = remaining(parts.subrange(1, parts.len() as int), tiles);
        if should_remove(parts[0], tiles) {
            rest
        } else {
            seq![parts[0]] + rest
        }
    }
}

/// The SPH solver: smoothing kernels, the particle store, its instance
/// projection, and the physical constants.
pub struct SPH {
    pub kernel: Kernel,
    pub particles: Vec<SimulationParticle>,
    pub instances: Vec<ParticleInstance>,
    pub config: SimulationConfig,
}

impl SPH {
    /// Established by the constructor and preserved by every operation:
    /// the constants are valid, the kernels were built from the
    /// configured radius, and the instance list mirrors the particle
    /// list index for index.
    pub open spec fn wf(self) -> bool {
        &&& self.config.valid()
    &&& self.kernel.wf()
    &&& self.kernel.spec_radius() == self.config.radius
    &&& self.instances@.len() == self.particles@.len()
    &&& forall|i: int|
        0 <= i < self.particles@.len() ==> self.instances@[i] == instance_of(
            #[trigger] self.particles@[i],
        )
    }

    /// Build a solver with an empty store; fails exactly on the
    /// configuration errors that `SimulationConfig::validate` rejects.
    pub fn new(config: &Config) -> (r: Result<SPH, ConfigError>)
        ensures
            match r {
                Ok(sph) => {
                    &&& config.spec_simulation().valid()
                    &&& sph.wf()
                    &&& sph.config == config.spec_simulation()
                    &&& sph.particles@.len() == 0
                    &&& sph.instances@.len() == 0
                },
                Err(e) => {
                    &&& !config.spec_simulation().valid()
                    &&& Err::<(), ConfigError>(e) == config.spec_simulation().spec_validate()
                },
            },
    {
        let config = *config.get_simulation_config();
        if let Err(e) = config.validate() {
            return Err(e);
        }
        let kernel = match Kernel::new(config.radius) {
            Ok(k) => k,
            Err(e) => {
                return Err(e);
            },
        };
        Ok(SPH { kernel, particles: Vec::new(), instances: Vec::new(), config })
    }

    pub fn get_particles(&self) -> (r: &Vec<SimulationParticle>)
        ensures
            r@ == self.particles@,
    {
        &self.particles
    }

    pub fn get_particle_instances(&self) -> (r: &Vec<ParticleInstance>)
        ensures
            r@ == self.instances@,
    {
        &self.instances
    }

    /// Append a particle and its projection, preserving the index
    /// correspondence; O(1).
    pub fn add_particle(&mut self, particle: SimulationParticle)
        requires
            old(self).wf(),
        ensures
            final(self).wf(),
            final(self).particles@ == old(self).particles@.push(particle),
            final(self).instances@ == old(self).instances@.push(instance_of(particle)),
            final(self).kernel == old(self).kernel,
            final(self).config == old(self).config,
    {
        let position = particle.position;
        let size = particle.size;
        let color = particle.color;
        self.particles.push(particle);
        self.instances.push(ParticleInstance { position, size, color });
    }

    /// Uncorrected density pass: every particle's density becomes the
    /// self term plus the same-phase neighbor weights.
    pub fn compute_uncorrected_densities(&mut self)
        requires
            old(self).wf(),
        ensures
            final(self).wf(),
            final(self).particles@ == spec_pass_density(
                old(self).particles@,
                old(self).config,
                old(self).kernel,
            ),
            final(self).instances@ == old(self).instances@,
            final(self).kernel == old(self).kernel,
            final(self).config == old(self).config,
    {
        proof {
            broadcast use group_s_ops;

        }
        let ghost orig = self.particles@;
        let ghost cfg = self.config;
        let ghost kern = self.kernel;
        let n = self.particles.len();
        let mut i: usize = 0;
        while i < n
            invariant
                0 <= i <= n,
                n == self.particles@.len(),
                n == orig.len(),
                self.kernel == kern,
                self.config == cfg,
                kern.wf(),
                self.instances@ == old(self).instances@,
                forall|k: int|
                    0 <= k < n ==> #[trigger] self.particles@[k] == if k < i {
                        with_density(orig[k], spec_density(orig, cfg, kern, k))
                    } else {
                        orig[k]
                    },
            decreases n - i,
        {
            proof {
                broadcast use group_s_ops;

            }
            let pi_pos = self.particles[i].position;
            let pi_type = self.particles[i].fluid_type;
            let mut acc = self.kernel.w0();
            let mut j: usize = 0;
            while j < n
                invariant
                    0 <= j <= n,
                    0 <= i < n,
                    n == self.particles@.len(),
                    n == orig.len(),
                    self.kernel == kern,
                    self.config == cfg,
                    kern.wf(),
                    pi_pos == orig[i as int].position,
                    pi_type == orig[i as int].fluid_type,
                    forall|k: int|
                        0 <= k < n ==> (#[trigger] self.particles@[k]).position == orig[k].position
                            && self.particles@[k].fluid_type == orig[k].fluid_type,
                    acc == density_sum(orig, cfg, kern, i as int, j as int),
                decreases n - j,
            {
                proof {
                    broadcast use group_s_ops;

                }
                if j != i {
                    let pj_pos = self.particles[j].position;
                    let pj_type = self.particles[j].fluid_type;
                    if pi_type == pj_type {
                        let diff = pi_pos.sub(pj_pos);
                        let r = diff.length();
                        if r > 0 && r <= self.config.radius {
                            acc = crate::fixed::add(
                                acc,
                                crate::fixed::mul(self.config.mass, self.kernel.w(diff)),
                            );
                        }
                    }
                }
                j = j + 1;
            }
            let mut p = self.particles[i];
            p.density = acc;
            self.particles.set(i, p);
            i = i + 1;
        }
        proof {
            assert(self.particles@ =~= spec_pass_density(orig, cfg, kern));
        }
    }

    /// Boundary-corrected density pass (gaseous particles only): an
    /// approximation of a ghost-particle boundary condition driven by the
    /// fixed virtual-particle offset of the configuration.
    pub fn compute_densities(&mut self)
        requires
            old(self).wf(),
        ensures
            final(self).wf(),
            final(self).particles@ == spec_pass_correction(
                old(self).particles@,
                old(self).config,
                old(self).kernel,
            ),
            final(self).instances@ == old(self).instances@,
            final(self).kernel == old(self).kernel,
            final(self).config == old(self).config,
    {
        proof {
            broadcast use group_s_ops;

        }
        let ghost orig = self.particles@;
        let ghost cfg = self.config;
        let ghost kern = self.kernel;
        let n = self.particles.len();
        let mut i: usize = 0;
        while i < n
            invariant
                0 <= i <= n,
                n == self.particles@.len(),
                n == orig.len(),
                self.kernel == kern,
                self.config == cfg,
                kern.wf(),
                self.instances@ == old(self).instances@,
                forall|k: int|
                    0 <= k < n ==> #[trigger] self.particles@[k] == if k < i && orig[k].fluid_type
                        != FluidType::Liquid {
                        with_correction(orig[k], spec_density_correction(orig, cfg, kern, k))
                    } else {
                        orig[k]
                    },
            decreases n - i,
        {
            proof {
                broadcast use group_s_ops;

            }
            if matches!(self.particles[i].fluid_type, FluidType::Liquid) {
                i = i + 1;
                continue ;
            }
            let pi_pos = self.particles[i].position;
            let mut acc = Vec3Fx::zero();
            let mut j: usize = 0;
            while j < n
                invariant
                    0 <= j <= n,
                    0 <= i < n,
                    n == self.particles@.len(),
                    n == orig.len(),
                    self.kernel == kern,
                    self.config == cfg,
                    kern.wf(),
                    pi_pos == orig[i as int].position,
                    forall|k: int|
                        0 <= k < n ==> (#[trigger] self.particles@[k]).position == orig[k].position
                            && self.particles@[k].fluid_type == orig[k].fluid_type
                            && self.particles@[k].density == orig[k].density,
                    acc == density_grad_sum(orig, cfg, kern, i as int, j as int),
                decreases n - j,
            {
                proof {
                    broadcast use group_s_ops;

                }
                if j != i {
                    let pj = self.particles[j];
                    if !matches!(pj.fluid_type, FluidType::Liquid) {
                        let diff = pi_pos.sub(pj.position);
                        let r = diff.length();
                        if r > 0 && r <= self.config.radius {
                            let g = self.kernel.poly6_grad_w(diff);
                            acc = acc.sub(g.scale(crate::fixed::div(self.config.mass, pj.density)));
                        }
                    }
                }
                j = j + 1;
            }
            let vp = self.config.virtual_particle;
            let denom = self.kernel.poly6_grad_w(vp).length();
            let v0 = crate::fixed::div(acc.length(), denom);
            let mut p = self.particles[i];
            p.density_correction = crate::fixed::mul(
                p.density,
                crate::fixed::add(FX_ONE, crate::fixed::mul(v0, self.kernel.w(vp))),
            );
            self.particles.set(i, p);
            i = i + 1;
        }
        proof {
            assert(self.particles@ =~= spec_pass_correction(orig, cfg, kern));
        }
    }

    /// Force assembly pass: phase-dependent pressure, viscosity,
    /// atmospheric and thermal terms, folded particle by particle.
    #[verifier::rlimit(100)]
    pub fn compute_forces(&mut self)
        requires
            old(self).wf(),
        ensures
            final(self).wf(),
            final(self).particles@ == spec_pass_forces(
                old(self).particles@,
                old(self).config,
                old(self).kernel,
                old(self).particles@.len() as int,
            ),
            final(self).instances@ == old(self).instances@,
            final(self).kernel == old(self).kernel,
            final(self).config == old(self).config,
    {
        proof {
            broadcast use group_s_ops;

        }
        let ghost orig = self.particles@;
        let ghost cfg = self.config;
        let ghost kern = self.kernel;
        let n = self.particles.len();
        let mut i: usize = 0;
        while i < n
            invariant
                0 <= i <= n,
                n == orig.len(),
                self.kernel == kern,
                self.config == cfg,
                kern.wf(),
                cfg.valid(),
                kern.spec_radius() == cfg.radius,
                self.instances@ == old(self).instances@,
                self.particles@ == spec_pass_forces(orig, cfg, kern, i as int),
            decreases n - i,
        {
            proof {
                broadcast use group_s_ops;

                lemma_pass_forces_frame(orig, cfg, kern, i as int);
            }
            let ghost prev = self.particles@;
            let pi = self.particles[i];
            let pressure_i = crate::fixed::mul(
                self.config.gas_constant,
                crate::fixed::sub(pi.density, self.config.rest_density),
            );
            let pressure_k = crate::fixed::mul(
                self.config.gas_constant,
                crate::fixed::sub(pi.density_correction, self.config.rest_density),
            );
            let radius_sqr = crate::fixed::mul(self.config.radius, self.config.radius);
            let mut atmospheric = Vec3Fx::zero();
            let mut pressure = Vec3Fx::zero();
            let mut viscosity = Vec3Fx::zero();
            let mut temperature: i64 = 0;
            let mut j: usize = 0;
            while j < n
                invariant
                    0 <= j <= n,
                    0 <= i < n,
                    n == self.particles@.len(),
                    self.kernel == kern,
                    self.config == cfg,
                    kern.wf(),
                    cfg.valid(),
                    self.particles@ == prev,
                    pi == prev[i as int],
                    pressure_i == spec_pressure_of(cfg, pi.density),
                    pressure_k == spec_pressure_of(cfg, pi.density_correction),
                    radius_sqr == s_mul(cfg.radius, cfg.radius),
                    (ForceAccum { atmospheric, pressure, viscosity, temperature }) == force_sum(
                        prev,
                        cfg,
                        kern,
                        i as int,
                        j as int,
                    ),
                decreases n - j,
            {
                proof {
                    broadcast use group_s_ops;

                }
                if j != i {
                    let pj = self.particles[j];
                    if pi.fluid_type == pj.fluid_type {
                        let diff = pi.position.sub(pj.position);
                        let r = diff.dot(diff);
                        if r > 0 && r <= radius_sqr {
                            let pressure_j = crate::fixed::mul(
                                self.config.gas_constant,
                                crate::fixed::sub(pj.density, self.config.rest_density),
                            );
                            match pi.fluid_type {
                                FluidType::Gaseous => {
                                    let grad = self.kernel.spiky_grad_w(diff);
                                    let grad_vp = self.kernel.spiky_grad_w(
                                        self.config.virtual_particle,
                                    );
                                    atmospheric = atmospheric.add(
                                        grad.scale(crate::fixed::div(self.config.mass, pressure_j)),
                                    );
                                    pressure = pressure.sub(
                                        grad.scale(
                                            crate::fixed::mul(
                                                crate::fixed::div(self.config.mass, pj.density),
                                                crate::fixed::div(
                                                    crate::fixed::add(pressure_i, pressure_j),
                                                    FX_TWO,
                                                ),
                                            ),
                                        ).add(
                                            grad_vp.scale(
                                                crate::fixed::mul(
                                                    crate::fixed::div(
                                                        self.config.mass,
                                                        pi.density_correction,
                                                    ),
                                                    crate::fixed::div(
                                                        crate::fixed::add(pressure_i, pressure_k),
                                                        FX_TWO,
                                                    ),
                                                ),
                                            ),
                                        ),
                                    );
                                    viscosity = viscosity.add(
                                        pj.velocity.sub(pi.velocity).scale(
                                            self.config.mass,
                                        ).div_scalar(pj.density).scale(
                                            self.kernel.viscosity_laplacian_w(diff),
                                        ),
                                    );
                                    temperature = crate::fixed::add(
                                        temperature,
                                        crate::fixed::mul(
                                            crate::fixed::mul(
                                                crate::fixed::mul(
                                                    crate::fixed::div(
                                                        self.config.mass,
                                                        crate::fixed::mul(pressure_i, pressure_j),
                                                    ),
                                                    self.config.thermal_conductivity,
                                                ),
                                                crate::fixed::sub(pi.temperature, pj.temperature),
                                            ),
                                            crate::fixed::div(
                                                diff.dot(grad),
                                                crate::fixed::add(
                                                    diff.dot(diff),
                                                    self.config.small_positive,
                                                ),
                                            ),
                                        ),
                                    );
                                },
                                FluidType::Liquid => {
                                    let grad = self.kernel.spiky_grad_w(diff);
                                    pressure = pressure.sub(
                                        grad.scale(
                                            crate::fixed::mul(
                                                crate::fixed::div(self.config.mass, pj.density),
                                                crate::fixed::div(
                                                    crate::fixed::add(pressure_i, pressure_j),
                                                    FX_TWO,
                                                ),
                                            ),
                                        ),
                                    );
                                    viscosity = viscosity.add(
                                        pj.velocity.sub(pi.velocity).scale(
                                            self.config.mass,
                                        ).div_scalar(pj.density).scale(
                                            self.kernel.viscosity_laplacian_w(diff),
                                        ),
                                    );
                                },
                            }
                        }
                    }
                }
                j = j + 1;
            }
            let viscosity_total = viscosity.scale(self.config.viscosity);
            let mut p = pi;
            match pi.fluid_type {
                FluidType::Gaseous => {
                    let mut temp_acc = temperature;
                    let mut damping = Vec3Fx::zero();
                    if atmospheric.length() > self.config.damping_threshold {
                        temp_acc = crate::fixed::sub(
                            temp_acc,
                            crate::fixed::div(pi.temperature, self.config.radiation_half_life),
                        );
                        damping = pi.velocity.scale(
                            crate::fixed::neg(self.config.damping_coefficient),
                        );
                    }
                    let new_temp = crate::fixed::add(pi.temperature, temp_acc);
                    let buoyancy = self.config.buoyancy_direction.scale(
                        crate::fixed::mul(self.config.buoyancy_coefficient, new_temp),
                    );
                    let body = self.config.gravity.add(buoyancy).add(damping).scale(pi.density);
                    p.temperature = new_temp;
                    p.forces = pressure.add(atmospheric.scale(FX_ONE)).add(viscosity_total).add(
                        body,
                    );
                },
                FluidType::Liquid => {
                    p.forces = pressure.add(viscosity_total).add(
                        self.config.gravity.scale(pi.density),
                    );
                },
            }
            self.particles.set(i, p);
            proof {
                assert(p == spec_force_one(prev, cfg, kern, i as int));
            }
            i = i + 1;
        }
        proof {
            lemma_pass_forces_frame(orig, cfg, kern, n as int);
        }
    }

    /// Integration pass: advance every particle and refresh its
    /// instance-projection position at the same index.
    pub fn integrate(&mut self, time_step: i64)
        requires
            old(self).wf(),
        ensures
            final(self).wf(),
            final(self).particles@ == spec_pass_integrate(old(self).particles@, time_step),
            final(self).kernel == old(self).kernel,
            final(self).config == old(self).config,
    {
        let ghost orig = self.particles@;
        let n = self.particles.len();
        let mut i: usize = 0;
        while i < n
            invariant
                0 <= i <= n,
                n == self.particles@.len(),
                n == orig.len(),
                n == self.instances@.len(),
                self.kernel == old(self).kernel,
                self.config == old(self).config,
                forall|k: int|
                    0 <= k < n ==> #[trigger] self.particles@[k] == if k < i {
                        spec_integrate_one(orig[k], time_step)
                    } else {
                        orig[k]
                    },
                forall|k: int|
                    0 <= k < n ==> #[trigger] self.instances@[k] == instance_of(
                        self.particles@[k],
                    ),
            decreases n - i,
        {
            let p = self.particles[i];
            let prev_acceleration = p.acceleration;
            let prev_velocity = p.velocity;
            let accel = p.forces.div_scalar(p.density);
            let velocity = p.velocity.add(
                prev_acceleration.add(accel).div_scalar(FX_TWO).scale(time_step).scale(time_step),
            );
            let position = p.position.add(
                prev_velocity.scale(time_step).add(
                    prev_acceleration.div_scalar(FX_TWO).scale(time_step).scale(time_step),
                ),
            );
            let mut q = p;
            q.acceleration = accel;
            q.velocity = velocity;
            q.position = position;
            self.particles.set(i, q);
            let mut inst = self.instances[i];
            inst.position = position;
            self.instances.set(i, inst);
            i = i + 1;
        }
        proof {
            assert(self.particles@ =~= spec_pass_integrate(orig, time_step));
        }
    }

    /// One simulation tick: exactly four passes over the whole particle
    /// list, each pass reading the committed writes of the one before.
    pub fn step(&mut self, time_step: i64)
        requires
            old(self).wf(),
        ensures
            final(self).wf(),
            final(self).particles@ == spec_step(
                old(self).particles@,
                old(self).config,
                old(self).kernel,
                time_step,
            ),
            final(self).kernel == old(self).kernel,
            final(self).config == old(self).config,
    {
        proof {
            reveal(spec_step);
        }
        self.compute_uncorrected_densities();
        self.compute_densities();
        self.compute_forces();
        self.integrate(time_step);
    }

    /// Cull particles: flag everyone outside the hard vertical band or
    /// off a floor tile, and remove the flagged ones in descending index
    /// order, keeping both lists in lock-step.
    pub fn check_particles(&mut self, world_map: &WorldMap)
        requires
            old(self).wf(),
        ensures
            final(self).wf(),
            final(self).particles@ == remaining(old(self).particles@, world_map.spec_tiles()),
            final(self).kernel == old(self).kernel,
            final(self).config == old(self).config,
    {
        let ghost orig = self.particles@;
        let ghost tiles = world_map.spec_tiles();
        let n = self.particles.len();
        let mut i: usize = n;
        proof {
            assert(orig.subrange(n as int, n as int) =~= Seq::<SimulationParticle>::empty());
            assert(self.particles@ =~= orig.subrange(0, n as int) + remaining(
                orig.subrange(n as int, n as int),
                tiles,
            ));
        }
        while i > 0
            invariant
                0 <= i <= n,
                n == orig.len(),
                self.wf(),
                self.kernel == old(self).kernel,
                self.config == old(self).config,
                self.particles@ == orig.subrange(0, i as int) + remaining(
                    orig.subrange(i as int, n as int),
                    tiles,
                ),
                tiles == world_map.spec_tiles(),
            decreases i,
        {
            let idx = i - 1;
            proof {
                assert(self.particles@[idx as int] == orig[idx as int]);
            }
            let pos = self.particles[idx].position;
            let tile = world_map.get_tile_in_position(pos);
            let flagged = match tile {
                Tile::Floor => pos.y > FX_CEILING || pos.y < 0,
                _ => true,
            };
            proof {
                assert(flagged == should_remove(orig[idx as int], tiles));
                assert(orig.subrange(idx as int, n as int).subrange(1, (n - idx) as int)
                    =~= orig.subrange(idx as int + 1, n as int));
                assert(orig.subrange(idx as int, n as int)[0] == orig[idx as int]);
            }
            if flagged {
                self.remove_particle(idx);
                proof {
                    assert(self.particles@ =~= orig.subrange(0, idx as int) + remaining(
                        orig.subrange(idx as int, n as int),
                        tiles,
                    ));
                }
            } else {
                proof {
                    assert(self.particles@ =~= orig.subrange(0, idx as int) + remaining(
                        orig.subrange(idx as int, n as int),
                        tiles,
                    ));
                }
            }
            i = idx;
        }
        proof {
            assert(orig.subrange(0, n as int) =~= orig);
            assert(self.particles@ =~= remaining(orig, tiles));
        }
    }

    /// Remove the particle and its projection at `index` in one
    /// operation, keeping the two lists in lock-step. Batch callers must
    /// remove in descending index order.
    pub fn remove_particle(&mut self, index: usize)
        requires
            old(self).wf(),
            index < old(self).particles@.len(),
        ensures
            final(self).wf(),
            final(self).particles@ == old(self).particles@.remove(index as int),
            final(self).instances@ == old(self).instances@.remove(index as int),
            final(self).kernel == old(self).kernel,
            final(self).config == old(self).config,
    {
        self.particles.remove(index);
        self.instances.remove(index);
    }
}

} // verus!
