//! The particle store and its instance projection.

use fluidsense::config::{Config, ConfigError, FluidType, SimulationConfig};
use fluidsense::sph::{SimulationParticle, SPH};
use fluidsense::vec3::Vec3Fx;

fn sim_config() -> SimulationConfig {
    SimulationConfig {
        radius: 1_000_000,
        mass: 1_000_000,
        gas_constant: 1_000_000,
        rest_density: 0,
        thermal_conductivity: 0,
        small_positive: 1,
        viscosity: 1_000_000,
        damping_coefficient: 0,
        damping_threshold: 9_223_372_036_854_775_807,
        radiation_half_life: 1_000_000,
        buoyancy_coefficient: 0,
        buoyancy_direction: Vec3Fx { x: 0, y: 1_000_000, z: 0 },
        gravity: Vec3Fx { x: 0, y: -9_800_000, z: 0 },
        virtual_particle: Vec3Fx { x: 100_000, y: 0, z: 0 },
    }
}

fn empty_solver() -> SPH {
    let config = Config::new(String::from("."), Vec::new(), Vec::new(), sim_config());
    SPH::new(&config).unwrap()
}

fn particle(x: i64, size: i64) -> SimulationParticle {
    SimulationParticle::new(
        Vec3Fx { x, y: 500_000, z: 0 },
        Vec3Fx { x: 0, y: 0, z: 0 },
        25_000_000,
        FluidType::Gaseous,
        size,
        Vec3Fx { x: 1_000_000, y: 0, z: 0 },
    )
}

#[test]
fn validation_rejects_each_bad_constant() {
    let mut c = sim_config();
    c.radius = 0;
    assert_eq!(c.validate(), Err(ConfigError::NonPositiveRadius));
    let mut c = sim_config();
    c.mass = -1;
    assert_eq!(c.validate(), Err(ConfigError::NonPositiveMass));
    let mut c = sim_config();
    c.gas_constant = 0;
    assert_eq!(c.validate(), Err(ConfigError::ZeroGasConstant));
    let mut c = sim_config();
    c.virtual_particle = Vec3Fx { x: 0, y: 0, z: 0 };
    assert_eq!(c.validate(), Err(ConfigError::ZeroVirtualParticle));
    assert_eq!(sim_config().validate(), Ok(()));
    assert_eq!(
        ConfigError::NonPositiveRadius.message(),
        "support radius must be positive"
    );
}

#[test]
fn solver_new_rejects_invalid_configuration() {
    let mut c = sim_config();
    c.gas_constant = 0;
    let config = Config::new(String::from("."), Vec::new(), Vec::new(), c);
    assert!(matches!(SPH::new(&config), Err(ConfigError::ZeroGasConstant)));
}

#[test]
fn add_then_remove_last_restores_both_lists() {
    let mut sph = empty_solver();
    sph.add_particle(particle(0, 100_000));
    sph.add_particle(particle(500_000, 200_000));
    let particles_before: Vec<_> = sph.get_particles().clone();
    let instances_before: Vec<_> = sph.get_particle_instances().clone();

    sph.add_particle(particle(900_000, 300_000));
    let last = sph.get_particles().len() - 1;
    sph.remove_particle(last);

    assert_eq!(*sph.get_particles(), particles_before);
    assert_eq!(*sph.get_particle_instances(), instances_before);
}

#[test]
fn add_keeps_lists_in_lock_step() {
    let mut sph = empty_solver();
    sph.add_particle(particle(0, 111_111));
    sph.add_particle(particle(700_000, 222_222));
    let particles = sph.get_particles();
    let instances = sph.get_particle_instances();
    assert_eq!(particles.len(), instances.len());
    for i in 0..particles.len() {
        assert_eq!(instances[i].position, particles[i].position);
        assert_eq!(instances[i].size, particles[i].size);
        assert_eq!(instances[i].color, particles[i].color);
    }
}

#[test]
fn remove_middle_index_removes_same_particle_from_both_lists() {
    let mut sph = empty_solver();
    sph.add_particle(particle(0, 1));
    sph.add_particle(particle(100_000, 2));
    sph.add_particle(particle(200_000, 3));
    sph.remove_particle(1);
    let particles = sph.get_particles();
    let instances = sph.get_particle_instances();
    assert_eq!(particles.len(), 2);
    assert_eq!(instances.len(), 2);
    assert_eq!(particles[0].size, 1);
    assert_eq!(particles[1].size, 3);
    assert_eq!(instances[0].size, 1);
    assert_eq!(instances[1].size, 3);
}
