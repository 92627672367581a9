//! End-to-end behavior of the four-pass stepper.

use fluidsense::config::{Config, FluidType, SimulationConfig};
use rand::{Rng, SeedableRng};
use fluidsense::sph::{SimulationParticle, SPH};
use fluidsense::vec3::Vec3Fx;

fn base_simulation_config() -> SimulationConfig {
    SimulationConfig {
        radius: 1_000_000,
        mass: 1_000_000,
        gas_constant: 1_000_000,
        rest_density: 0,
        thermal_conductivity: 0,
        small_positive: 1,
        viscosity: 1_000_000,
        damping_coefficient: 0,
        damping_threshold: 9_223_372_036_854_775_807,
        radiation_half_life: 1_000_000,
        buoyancy_coefficient: 0,
        buoyancy_direction: Vec3Fx { x: 0, y: 1_000_000, z: 0 },
        gravity: Vec3Fx { x: 0, y: -9_800_000, z: 0 },
        virtual_particle: Vec3Fx { x: 100_000, y: 0, z: 0 },
    }
}

fn solver(sim: SimulationConfig) -> SPH {
    let config = Config::new(String::from("."), Vec::new(), Vec::new(), sim);
    SPH::new(&config).unwrap()
}

fn gas_at(x: i64, y: i64, z: i64, temperature: i64) -> SimulationParticle {
    SimulationParticle::new(
        Vec3Fx { x, y, z },
        Vec3Fx { x: 0, y: 0, z: 0 },
        temperature,
        FluidType::Gaseous,
        100_000,
        Vec3Fx { x: 1_000_000, y: 0, z: 0 },
    )
}

fn liquid_at(x: i64, y: i64, z: i64, temperature: i64) -> SimulationParticle {
    SimulationParticle::new(
        Vec3Fx { x, y, z },
        Vec3Fx { x: 0, y: 0, z: 0 },
        temperature,
        FluidType::Liquid,
        100_000,
        Vec3Fx { x: 0, y: 0, z: 1_000_000 },
    )
}

#[test]
fn single_gaseous_particle_reduces_to_gravity() {
    // One gaseous particle at the origin, zero velocity, temperature 25,
    // rest density 0, gravity (0, -9.8, 0), dt = 0.001.
    let mut sph = solver(base_simulation_config());
    sph.add_particle(gas_at(0, 0, 0, 25_000_000));
    sph.step(1_000);
    let p = &sph.get_particles()[0];
    // density is the self term alone
    assert_eq!(p.density, 1_566_681);
    // the force reduces to density * gravity
    assert_eq!((p.forces.x, p.forces.y, p.forces.z), (0, -15_353_473, 0));
    assert_eq!(p.acceleration.y, -9_799_999);
    assert_eq!(p.temperature, 25_000_000);
    // the integrator moves the position by the previous velocity and
    // acceleration, both zero on the first tick...
    assert_eq!(p.position.y, 0);
    assert_eq!(p.velocity.y, -4);
    // ...so the fall in y shows from the second tick on
    sph.step(1_000);
    let p = &sph.get_particles()[0];
    assert_eq!(p.position.y, -4);
    assert!(p.position.y < 0);
}

#[test]
fn coincident_particles_contribute_no_mutual_force() {
    // Two particles at the identical position: the r > 0 gate excludes
    // the pair everywhere, so each behaves as if alone.
    let mut sph = solver(base_simulation_config());
    sph.add_particle(gas_at(1_000_000, 1_000_000, 1_000_000, 25_000_000));
    sph.add_particle(gas_at(1_000_000, 1_000_000, 1_000_000, 25_000_000));
    sph.step(1_000);
    let a = &sph.get_particles()[0];
    let b = &sph.get_particles()[1];
    assert_eq!(a.density, 1_566_681);
    assert_eq!(b.density, 1_566_681);
    assert_eq!((a.forces.x, a.forces.y, a.forces.z), (0, -15_353_473, 0));
    assert_eq!((b.forces.x, b.forces.y, b.forces.z), (0, -15_353_473, 0));
}

#[test]
fn neighbor_densities_are_symmetric_and_exceed_self_term() {
    let mut sph = solver(base_simulation_config());
    sph.add_particle(gas_at(0, 0, 0, 25_000_000));
    sph.add_particle(gas_at(500_000, 0, 0, 25_000_000));
    sph.compute_uncorrected_densities();
    let a = &sph.get_particles()[0];
    let b = &sph.get_particles()[1];
    // w0 + mass * w(0.5) with w(0.5) = 0.660943
    assert_eq!(a.density, 2_227_624);
    assert_eq!(b.density, 2_227_624);
    assert!(a.density > 1_566_681);
}

#[test]
fn liquid_pairwise_forces_oppose() {
    // Two liquid particles: no virtual-particle term, so the pairwise
    // pressure and viscosity contributions cancel exactly, and only
    // gravity remains asymmetric in y.
    let mut sph = solver(base_simulation_config());
    sph.add_particle(liquid_at(0, 0, 0, 25_000_000));
    sph.add_particle(liquid_at(500_000, 0, 0, 25_000_000));
    sph.step(1_000);
    let a = &sph.get_particles()[0];
    let b = &sph.get_particles()[1];
    assert_eq!(a.forces.x, -b.forces.x);
    assert_ne!(a.forces.x, 0);
    assert_eq!(a.forces.y, b.forces.y);
    assert_eq!(a.forces.z, -b.forces.z);
}

#[test]
fn liquid_particles_keep_temperature_and_skip_gas_post_processing() {
    // An all-liquid system: no thermal term, no radiative cooling, no
    // buoyancy or damping enters the force.
    let mut sph = solver(base_simulation_config());
    sph.add_particle(liquid_at(0, 0, 0, 30_000_000));
    sph.add_particle(liquid_at(400_000, 0, 0, 50_000_000));
    sph.step(1_000);
    assert_eq!(sph.get_particles()[0].temperature, 30_000_000);
    assert_eq!(sph.get_particles()[1].temperature, 50_000_000);
    // liquid density correction stays at its initialized default
    assert_eq!(sph.get_particles()[0].density_correction, 0);
    assert_eq!(sph.get_particles()[1].density_correction, 0);
}

#[test]
fn gaseous_particles_receive_density_correction() {
    let mut sph = solver(base_simulation_config());
    sph.add_particle(gas_at(0, 0, 0, 25_000_000));
    sph.add_particle(gas_at(500_000, 0, 0, 25_000_000));
    sph.compute_uncorrected_densities();
    sph.compute_densities();
    let a = &sph.get_particles()[0];
    assert!(a.density_correction >= a.density);
}

#[test]
fn step_handles_randomized_mixed_populations() {
    // Randomized (seeded) positions, both phases mixed: a full step
    // completes for every population size, and every density carries at
    // least the self term — the stepper's guards keep the Spiky gradient
    // away from zero separations throughout.
    let mut rng = rand::rngs::StdRng::seed_from_u64(7);
    for count in [0usize, 1, 2, 50] {
        let mut sph = solver(base_simulation_config());
        for i in 0..count {
            let x = rng.gen_range(0..2_000_000i64);
            let y = rng.gen_range(0..2_000_000i64);
            let z = rng.gen_range(0..2_000_000i64);
            if i % 2 == 0 {
                sph.add_particle(gas_at(x, y, z, 25_000_000));
            } else {
                sph.add_particle(liquid_at(x, y, z, 25_000_000));
            }
        }
        sph.step(1_000);
        assert_eq!(sph.get_particles().len(), count);
        for p in sph.get_particles() {
            assert!(p.density >= 1_566_681);
        }
    }
}

#[test]
fn step_handles_many_distinct_particles_without_corruption() {
    // Particle counts 0, 1, 2 and 50 at distinct positions: a full step
    // completes, and every density carries at least the self term.
    for count in [0usize, 1, 2, 50] {
        let mut sph = solver(base_simulation_config());
        for i in 0..count {
            let x = (i as i64 % 10) * 300_000;
            let z = (i as i64 / 10) * 300_000;
            sph.add_particle(gas_at(x, 1_000_000, z, 25_000_000));
        }
        sph.step(1_000);
        assert_eq!(sph.get_particles().len(), count);
        for p in sph.get_particles() {
            assert!(p.density >= 1_566_681);
        }
    }
}
