//! The tile map, device placement, emission, culling and the headless
//! driver.

use fluidsense::config::{
    ActuatorConfig, Config, ConfigError, FluidType, ParticleConfig, SensorConfig, SimulationConfig,
};
use fluidsense::run_headless;
use fluidsense::sph::{SimulationParticle, SPH};
use fluidsense::vec3::Vec3Fx;
use fluidsense::world_map::{Actuator, ActuatorParticle, Sensor, Tile, WorldMap};

fn sim() -> SimulationConfig {
    SimulationConfig {
        radius: 1_000_000,
        mass: 1_000_000,
        gas_constant: 1_000_000,
        rest_density: 0,
        thermal_conductivity: 0,
        small_positive: 1,
        viscosity: 1_000_000,
        damping_coefficient: 0,
        damping_threshold: 9_223_372_036_854_775_807,
        radiation_half_life: 1_000_000,
        buoyancy_coefficient: 0,
        buoyancy_direction: Vec3Fx { x: 0, y: 1_000_000, z: 0 },
        gravity: Vec3Fx { x: 0, y: -9_800_000, z: 0 },
        virtual_particle: Vec3Fx { x: 100_000, y: 0, z: 0 },
    }
}

fn actuator_config(temperature: Option<i64>) -> ActuatorConfig {
    ActuatorConfig {
        height: 1_000_000,
        direction: Vec3Fx { x: 0, y: 1_000_000, z: 0 },
        initial_velocity: 2_000_000,
        temperature,
        range: Vec3Fx { x: 0, y: 0, z: 0 },
        fluid_type: FluidType::Gaseous,
        interval: 10_000,
        particle: ParticleConfig { size: 50_000, color: Vec3Fx { x: 0, y: 0, z: 1_000_000 } },
    }
}

fn config_with_devices(env: &str) -> Config {
    let actuators = vec![('A', actuator_config(None))];
    let sensors = vec![(
        'S',
        SensorConfig {
            height: 1_000_000,
            range: Vec3Fx { x: 1_000_000, y: 1_000_000, z: 1_000_000 },
            output: None,
        },
    )];
    Config::new(String::from(env), actuators, sensors, sim())
}

fn gas_particle_at(x: i64, y: i64, z: i64) -> SimulationParticle {
    SimulationParticle::new(
        Vec3Fx { x, y, z },
        Vec3Fx { x: 0, y: 0, z: 0 },
        25_000_000,
        FluidType::Gaseous,
        100_000,
        Vec3Fx { x: 1_000_000, y: 0, z: 0 },
    )
}

#[test]
fn tile_from_maps_every_character() {
    assert!(matches!(Tile::from(' '), Ok(Tile::Empty)));
    assert!(matches!(Tile::from('#'), Ok(Tile::Wall)));
    assert!(matches!(Tile::from('.'), Ok(Tile::Floor)));
    assert!(matches!(Tile::from('@'), Ok(Tile::User)));
    assert!(matches!(Tile::from('A'), Ok(Tile::Device('A'))));
    assert!(matches!(Tile::from('7'), Ok(Tile::Device('7'))));
}

#[test]
fn tile_queries_follow_the_layout() {
    let config = config_with_devices("#.@\nA S");
    let map = WorldMap::new(&config);
    // row 0: wall, floor, user (answers floor)
    assert_eq!(map.get_tile_in_position(Vec3Fx { x: 500_000, y: 0, z: 500_000 }), Tile::Wall);
    assert_eq!(map.get_tile_in_position(Vec3Fx { x: 1_500_000, y: 0, z: 500_000 }), Tile::Floor);
    assert_eq!(map.get_tile_in_position(Vec3Fx { x: 2_500_000, y: 0, z: 500_000 }), Tile::Floor);
    // row 1: device (answers floor), empty, device
    assert_eq!(map.get_tile_in_position(Vec3Fx { x: 500_000, y: 0, z: 1_500_000 }), Tile::Floor);
    assert_eq!(map.get_tile_in_position(Vec3Fx { x: 1_500_000, y: 0, z: 1_500_000 }), Tile::Empty);
    // off the map: empty, on every side
    assert_eq!(map.get_tile_in_position(Vec3Fx { x: 9_500_000, y: 0, z: 500_000 }), Tile::Empty);
    assert_eq!(map.get_tile_in_position(Vec3Fx { x: 500_000, y: 0, z: 9_500_000 }), Tile::Empty);
    assert_eq!(
        map.get_tile_in_position(Vec3Fx { x: -1_500_000, y: 0, z: 500_000 }),
        Tile::Empty,
    );
    assert_eq!(
        map.get_tile_in_position(Vec3Fx { x: 500_000, y: 0, z: -500_000 }),
        Tile::Empty,
    );
}

#[test]
fn device_lookup_answers_labels() {
    let config = config_with_devices("#.@\nA S");
    let map = WorldMap::new(&config);
    assert_eq!(map.get_device_in_position(Vec3Fx { x: 500_000, y: 0, z: 1_500_000 }), Some('A'));
    assert_eq!(map.get_device_in_position(Vec3Fx { x: 2_500_000, y: 0, z: 1_500_000 }), Some('S'));
    assert_eq!(map.get_device_in_position(Vec3Fx { x: 1_500_000, y: 0, z: 500_000 }), None);
    assert_eq!(map.get_device_in_position(Vec3Fx { x: -500_000, y: 0, z: 1_500_000 }), None);
    assert!(map.get_sensor_by_label(&'S').is_some());
    assert!(map.get_sensor_by_label(&'A').is_none());
}

#[test]
fn ceiling_violation_is_always_removed() {
    // A particle at y = 5, above the hard ceiling of 3, is flagged and
    // removed even though it stands on a floor tile.
    let config = config_with_devices("...");
    let map = WorldMap::new(&config);
    let mut sph = SPH::new(&config).unwrap();
    sph.add_particle(gas_particle_at(500_000, 5_000_000, 500_000));
    sph.add_particle(gas_particle_at(1_500_000, 1_000_000, 500_000));
    sph.add_particle(gas_particle_at(2_500_000, -500_000, 500_000));
    sph.check_particles(&map);
    // only the in-band particle on the floor survives
    assert_eq!(sph.get_particles().len(), 1);
    assert_eq!(sph.get_particles()[0].position.x, 1_500_000);
    assert_eq!(sph.get_particle_instances().len(), 1);
}

#[test]
fn off_floor_particles_are_removed() {
    let config = config_with_devices("#. ");
    let map = WorldMap::new(&config);
    let mut sph = SPH::new(&config).unwrap();
    sph.add_particle(gas_particle_at(500_000, 1_000_000, 500_000)); // wall
    sph.add_particle(gas_particle_at(1_500_000, 1_000_000, 500_000)); // floor
    sph.add_particle(gas_particle_at(2_500_000, 1_000_000, 500_000)); // empty
    sph.add_particle(gas_particle_at(8_500_000, 1_000_000, 500_000)); // off map
    sph.add_particle(gas_particle_at(-1_500_000, 1_000_000, 500_000)); // negative x
    sph.add_particle(gas_particle_at(1_500_000, 1_000_000, -500_000)); // negative z
    sph.check_particles(&map);
    assert_eq!(sph.get_particles().len(), 1);
    assert_eq!(sph.get_particles()[0].position.x, 1_500_000);
    assert_eq!(sph.get_particles()[0].position.z, 500_000);
}

#[test]
fn actuator_emits_after_interval_with_configured_state() {
    let config = config_with_devices("A");
    let mut map = WorldMap::new(&config);
    // 16 ms elapsed >= the 10 ms interval: exactly one emission, and the
    // zero jitter range pins the position to the tile center.
    let emitted = map.emit_particles(16_000);
    assert_eq!(emitted.len(), 1);
    let p = &emitted[0];
    assert_eq!(p.position, Vec3Fx { x: 500_000, y: 1_000_000, z: 500_000 });
    assert_eq!(p.velocity, Vec3Fx { x: 0, y: 2_000_000, z: 0 });
    assert_eq!(p.temperature, 25_000_000);
    assert_eq!(p.fluid_type, FluidType::Gaseous);
    assert_eq!(p.size, 50_000);
    assert_eq!(p.density, 0);
}

#[test]
fn every_firing_actuator_emits_in_order() {
    let mut a = actuator_config(None);
    a.height = 1_000_000;
    let mut b = actuator_config(None);
    b.height = 2_000_000;
    let config = Config::new(String::from("AB"), vec![('A', a), ('B', b)], Vec::new(), sim());
    let mut map = WorldMap::new(&config);
    // both clocks reach their interval: exactly two particles, in the
    // actuators' placement order
    let emitted = map.emit_particles(16_000);
    assert_eq!(emitted.len(), 2);
    assert_eq!(emitted[0].position, Vec3Fx { x: 500_000, y: 1_000_000, z: 500_000 });
    assert_eq!(emitted[1].position, Vec3Fx { x: 1_500_000, y: 2_000_000, z: 500_000 });
}

#[test]
fn actuator_waits_for_its_interval() {
    let config = config_with_devices("A");
    let mut map = WorldMap::new(&config);
    assert_eq!(map.emit_particles(4_000).len(), 0);
    assert_eq!(map.emit_particles(4_000).len(), 0);
    // the clock accumulates: 4 + 4 + 4 >= 10
    assert_eq!(map.emit_particles(4_000).len(), 1);
}

#[test]
fn jitter_stays_inside_the_configured_range() {
    let mut acfg = actuator_config(Some(40_000_000));
    acfg.range = Vec3Fx { x: 1_000_000, y: 2_000_000, z: 0 };
    let config = Config::new(String::from("A"), vec![('A', acfg)], Vec::new(), sim());
    let mut map = WorldMap::new(&config);
    for _ in 0..20 {
        for p in map.emit_particles(16_000) {
            assert!(p.position.x >= 500_000 && p.position.x < 1_500_000);
            assert!(p.position.y >= 1_000_000 && p.position.y < 3_000_000);
            assert_eq!(p.position.z, 500_000);
            assert_eq!(p.temperature, 40_000_000);
        }
    }
}

#[test]
fn layout_rows_follow_newlines() {
    // a trailing row without a newline still counts, and an empty line
    // makes an empty row
    let config = config_with_devices("#\n\n.");
    let map = WorldMap::new(&config);
    assert_eq!(map.get_tile_in_position(Vec3Fx { x: 0, y: 0, z: 0 }), Tile::Wall);
    // row 1 is empty: column 0 is off that row
    assert_eq!(map.get_tile_in_position(Vec3Fx { x: 0, y: 0, z: 1_000_000 }), Tile::Empty);
    assert_eq!(map.get_tile_in_position(Vec3Fx { x: 0, y: 0, z: 2_000_000 }), Tile::Floor);
    assert_eq!(map.get_tile_in_position(Vec3Fx { x: 0, y: 0, z: 3_000_000 }), Tile::Empty);
}

#[test]
fn constructors_copy_their_configuration() {
    let acfg = actuator_config(Some(30_000_000));
    let a = Actuator::new(500_000, 1_500_000, &acfg);
    assert_eq!(a.position, Vec3Fx { x: 500_000, y: 1_000_000, z: 1_500_000 });
    assert_eq!(a.interval, 10_000);
    assert_eq!(a.dt, 0);
    assert_eq!(a.temperature, Some(30_000_000));
    let ap = ActuatorParticle::new(&acfg.particle);
    assert_eq!(ap.size, 50_000);
    let scfg = SensorConfig {
        height: 2_000_000,
        range: Vec3Fx { x: 1, y: 2, z: 3 },
        output: Some(String::from("out")),
    };
    let s = Sensor::new(0, 0, &scfg);
    assert_eq!(s.position.y, 2_000_000);
    assert_eq!(s.output, Some(String::from("out")));
    let p = gas_particle_at(0, 0, 0);
    s.inspect_particle(&p);
}

#[test]
fn config_lookups_answer_by_label() {
    let config = config_with_devices("AS");
    assert!(config.get_actuator_by_label(&'A').is_some());
    assert!(config.get_actuator_by_label(&'S').is_none());
    assert!(config.get_sensor_by_label(&'S').is_some());
    assert!(config.get_sensor_by_label(&'B').is_none());
    assert_eq!(config.get_environment().as_str(), "AS");
    assert_eq!(config.get_simulation_config().radius, 1_000_000);
}

#[test]
fn headless_run_accumulates_emissions() {
    let config = config_with_devices("A..");
    let sph = run_headless(&config, 3).unwrap();
    // one emission per tick; nothing falls out of the band this early
    assert_eq!(sph.get_particles().len(), 3);
}

#[test]
fn headless_run_rejects_invalid_configuration() {
    let mut bad = sim();
    bad.radius = -1;
    let config = Config::new(String::from("."), Vec::new(), Vec::new(), bad);
    assert!(matches!(run_headless(&config, 1), Err(ConfigError::NonPositiveRadius)));
}
