//! Physical configuration: immutable value objects of scalar and vector
//! constants, validated once when the simulation is assembled.

use vstd::prelude::*;
use crate::vec3::{Vec3Fx, v_dot};

verus! {

/// The phase of a fluid parcel.
#[derive(Clone, Copy, Debug, PartialEq, Eq, Structural)]
pub enum FluidType {
    Gaseous,
    Liquid,
}

/// Scalar and vector physical constants consumed by the solver.
#[derive(Clone, Copy, Debug, PartialEq, Eq, Structural)]
pub struct SimulationConfig {
    pub radius: i64,
    pub mass: i64,
    pub gas_constant: i64,
    pub rest_density: i64,
    pub thermal_conductivity: i64,
    pub small_positive: i64,
    pub viscosity: i64,
    pub damping_coefficient: i64,
    pub damping_threshold: i64,
    pub radiation_half_life: i64,
    pub buoyancy_coefficient: i64,
    pub buoyancy_direction: Vec3Fx,
    pub gravity: Vec3Fx,
    pub virtual_particle: Vec3Fx,
}

/// Appearance of the particles an actuator emits.
#[derive(Clone, Copy, Debug, PartialEq, Eq, Structural)]
pub struct ParticleConfig {
    pub size: i64,
    pub color: Vec3Fx,
}

/// Description of a periodic particle emitter.
#[derive(Clone, Copy, Debug, PartialEq, Eq, Structural)]
pub struct ActuatorConfig {
    pub height: i64,
    pub direction: Vec3Fx,
    pub initial_velocity: i64,
    pub temperature: Option<i64>,
    pub range: Vec3Fx,
    pub fluid_type: FluidType,
    pub interval: i64,
    pub particle: ParticleConfig,
}

/// Description of a read-only particle observer.
#[derive(Clone, Debug)]
pub struct SensorConfig {
    pub height: i64,
    pub range: Vec3Fx,
    pub output: Option<String>,
}

/// A configuration error, rejected when the configuration is validated,
/// never surfaced from inside the solver's hot loop.
#[derive(Clone, Copy, Debug, PartialEq, Eq, Structural)]
pub enum ConfigError {
    NonPositiveRadius,
    NonPositiveMass,
    ZeroGasConstant,
    ZeroVirtualParticle,
}

impl ConfigError {
    /// A short description of the failed validation.
    pub fn message(&self) -> (r: &'static str) {
        match self {
            ConfigError::NonPositiveRadius => "support radius must be positive",
            ConfigError::NonPositiveMass => "particle mass must be positive",
            ConfigError::ZeroGasConstant => "gas constant must be nonzero",
            ConfigError::ZeroVirtualParticle => "virtual particle offset must be nonzero",
        }
    }
}

impl SimulationConfig {
    /// The constants a simulation may legally run with. The virtual
    /// particle offset must have a nonzero squared length: the force
    /// pass evaluates the Spiky gradient at that offset, and the
    /// gradient is undefined at the origin.
    pub open spec fn valid(self) -> bool {
        self.radius > 0 && self.mass > 0 && self.gas_constant != 0 && v_dot(
            self.virtual_particle,
            self.virtual_particle,
        ) > 0
    }

    /// The verdict `validate` must reach, error by error.
    pub open spec fn spec_validate(self) -> Result<(), ConfigError> {
        if self.radius <= 0 {
            Err(ConfigError::NonPositiveRadius)
        } else if self.mass <= 0 {
            Err(ConfigError::NonPositiveMass)
        } else if self.gas_constant == 0 {
            Err(ConfigError::ZeroGasConstant)
        } else if v_dot(self.virtual_particle, self.virtual_particle) <= 0 {
            Err(ConfigError::ZeroVirtualParticle)
        } else {
            Ok(())
        }
    }

    /// Reject, eagerly and descriptively, constants that would force a
    /// division by zero or a kernel singularity inside the solver.
    pub fn validate(&self) -> (r: Result<(), ConfigError>)
        ensures
            r == self.spec_validate(),
            r is Ok <==> self.valid(),
    {
        if self.radius <= 0 {
            Err(ConfigError::NonPositiveRadius)
        } else if self.mass <= 0 {
            Err(ConfigError::NonPositiveMass)
        } else if self.gas_constant == 0 {
            Err(ConfigError::ZeroGasConstant)
        } else if self.virtual_particle.dot(self.virtual_particle) <= 0 {
            Err(ConfigError::ZeroVirtualParticle)
        } else {
            Ok(())
        }
    }
}

/// The first value bound to `label`, if any.
pub open spec fn lookup<T>(s: Seq<(char, T)>, label: char) -> Option<T>
    decreases s.len(),
{
    if s.len() == 0 {
        None
    } else if s[0].0 == label {
        Some(s[0].1)
    } else {
        lookup(s.subrange(1, s.len() as int), label)
    }
}

/// The whole configuration: an environment layout, the devices keyed by
/// the map character that places them, and the physical constants.
pub struct Config {
    environment: String,
    actuators: Vec<(char, ActuatorConfig)>,
    sensors: Vec<(char, SensorConfig)>,
    simulation: SimulationConfig,
}

impl Config {
    pub closed spec fn spec_environment(&self) -> Seq<char> {
        self.environment@
    }

    pub closed spec fn spec_actuators(&self) -> Seq<(char, ActuatorConfig)> {
        self.actuators@
    }

    pub closed spec fn spec_sensors(&self) -> Seq<(char, SensorConfig)> {
        self.sensors@
    }

    pub closed spec fn spec_simulation(&self) -> SimulationConfig {
        self.simulation
    }

    /// Assemble a configuration from already-parsed parts.
    pub fn new(
        environment: String,
        actuators: Vec<(char, ActuatorConfig)>,
        sensors: Vec<(char, SensorConfig)>,
        simulation: SimulationConfig,
    ) -> (r: Config)
        ensures
            r.spec_environment() == environment@,
            r.spec_actuators() == actuators@,
            r.spec_sensors() == sensors@,
            r.spec_simulation() == simulation,
    {
        Config { environment, actuators, sensors, simulation }
    }

    pub fn get_environment(&self) -> (r: &String)
        ensures
            r@ == self.spec_environment(),
    {
        &self.environment
    }

    pub fn get_simulation_config(&self) -> (r: &SimulationConfig)
        ensures
            *r == self.spec_simulation(),
    {
        &self.simulation
    }

    pub fn get_actuator_by_label(&self, label: &char) -> (r: Option<&ActuatorConfig>)
        ensures
            match r {
                Some(a) => lookup(self.spec_actuators(), *label) == Some(*a),
                None => lookup(self.spec_actuators(), *label) is None,
            },
    {
        let n = self.actuators.len();
        let mut i: usize = 0;
        proof {
            assert(self.spec_actuators().subrange(0, n as int) =~= self.spec_actuators());
        }
        while i < n
            invariant
                0 <= i <= n,
                n == self.actuators.len(),
                lookup(self.spec_actuators(), *label) == lookup(
                    self.spec_actuators().subrange(i as int, n as int),
                    *label,
                ),
            decreases n - i,
        {
            proof {
                assert(self.spec_actuators().subrange(i as int, n as int)[0]
                    == self.spec_actuators()[i as int]);
            }
            if self.actuators[i].0 == *label {
                return Some(&self.actuators[i].1);
            }
            proof {
                assert(self.spec_actuators().subrange(i as int, n as int).subrange(
                    1,
                    (n - i) as int,
                ) =~= self.spec_actuators().subrange(i as int + 1, n as int));
            }
            i = i + 1;
        }
        None
    }

    pub fn get_sensor_by_label(&self, label: &char) -> (r: Option<&SensorConfig>)
        ensures
            match r {
                Some(a) => lookup(self.spec_sensors(), *label) == Some(*a),
                None => lookup(self.spec_sensors(), *label) is None,
            },
    {
        let n = self.sensors.len();
        let mut i: usize = 0;
        proof {
            assert(self.spec_sensors().subrange(0, n as int) =~= self.spec_sensors());
        }
        while i < n
            invariant
                0 <= i <= n,
                n == self.sensors.len(),
                lookup(self.spec_sensors(), *label) == lookup(
                    self.spec_sensors().subrange(i as int, n as int),
                    *label,
                ),
            decreases n - i,
        {
            proof {
                assert(self.spec_sensors().subrange(i as int, n as int)[0]
                    == self.spec_sensors()[i as int]);
            }
            if self.sensors[i].0 == *label {
                return Some(&self.sensors[i].1);
            }
            proof {
                assert(self.spec_sensors().subrange(i as int, n as int).subrange(1, (n - i) as int)
                    =~= self.spec_sensors().subrange(i as int + 1, n as int));
            }
            i = i + 1;
        }
        None
    }
}

} // verus!
