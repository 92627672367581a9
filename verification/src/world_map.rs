//! The environment: a tile map parsed from a textual layout, with the
//! particle emitters (actuators) and observers (sensors) placed on it.

use vstd::prelude::*;
use rand::Rng;
use vstd::arithmetic::power2::lemma2_to64;
use vstd::bits::lemma_u64_shr_is_div;
use crate::config::{ActuatorConfig, Config, FluidType, ParticleConfig, SensorConfig, lookup};
use crate::fixed;
use crate::fixed::{FX_SCALE, fx_clamp};
use crate::sph::SimulationParticle;
use crate::vec3::{Vec3Fx, s_add, s_mul, v_scale, group_s_ops};

verus! {

/// The fixed-point image of the default emission temperature 25.
pub const FX_25: i64 = 25_000_000;

/// Half a tile, in fixed point: actuators sit at the tile's center.
pub const FX_HALF: i64 = 500_000;

/// One cell of the environment layout.
#[derive(Clone, Copy, Debug, PartialEq, Eq, Structural)]
pub enum Tile {
    Empty,
    Wall,
    Floor,
    User,
    Device(char),
}

/// The tile a layout character denotes; any unreserved character places
/// a device labelled by that character.
pub open spec fn spec_tile_from(c: char) -> Tile {
    if c == ' ' {
        Tile::Empty
    } else if c == '#' {
        Tile::Wall
    } else if c == '.' {
        Tile::Floor
    } else if c == '@' {
        Tile::User
    } else {
        Tile::Device(c)
    }
}

impl Tile {
    /// Classify a layout character; total over all characters.
    pub fn from(c: char) -> (r: Result<Tile, char>)
        ensures
            r == Ok::<Tile, char>(spec_tile_from(c)),
    {
        match c {
            ' ' => Ok(Tile::Empty),
            '#' => Ok(Tile::Wall),
            '.' => Ok(Tile::Floor),
            '@' => Ok(Tile::User),
            _ => Ok(Tile::Device(c)),
        }
    }
}

/// The rows parsed from the characters seen so far, and the tiles of the
/// still-open row: a newline closes the open row.
pub open spec fn parse_rows(s: Seq<char>) -> (Seq<Seq<Tile>>, Seq<Tile>)
    decreases s.len(),
{
    if s.len() == 0 {
        (Seq::empty(), Seq::empty())
    } else {
        let (rows, cur) = parse_rows(s.drop_last());
        let c = s.last();
        if c == '\n' {
            (rows.push(cur), Seq::empty())
        } else {
            (rows, cur.push(spec_tile_from(c)))
        }
    }
}

/// The tile rows of a layout: every newline-terminated row, and the
/// trailing row if the layout does not end in a newline.
pub open spec fn spec_env_rows(s: Seq<char>) -> Seq<Seq<Tile>> {
    let (rows, cur) = parse_rows(s);
    if cur.len() > 0 {
        rows.push(cur)
    } else {
        rows
    }
}

/// The tile index a nonnegative fixed-point coordinate falls in.
pub open spec fn coord_index(v: i64) -> int
    recommends
        v >= 0,
{
    v as int / (FX_SCALE as int)
}

/// A position outside the map's quadrant: a negative horizontal
/// coordinate lies off the map, like an index beyond a row's end.
pub open spec fn off_map(position: Vec3Fx) -> bool {
    position.x < 0 || position.z < 0
}

/// The tile under a position, seen by the solver: device and user cells
/// count as floor, and every off-map position — beyond the rows, beyond
/// a row's end, or at a negative coordinate — is empty (non-floor).
pub open spec fn spec_tile_at(tiles: Seq<Seq<Tile>>, position: Vec3Fx) -> Tile {
    if off_map(position) {
        Tile::Empty
    } else {
        let x = coord_index(position.x);
        let z = coord_index(position.z);
        if z < tiles.len() && x < tiles[z].len() {
            match tiles[z][x] {
                Tile::User => Tile::Floor,
                Tile::Device(_) => Tile::Floor,
                t => t,
            }
        } else {
            Tile::Empty
        }
    }
}

/// The label of the device under a position, if any.
pub open spec fn spec_device_at(tiles: Seq<Seq<Tile>>, position: Vec3Fx) -> Option<char> {
    if off_map(position) {
        None
    } else {
        let x = coord_index(position.x);
        let z = coord_index(position.z);
        if z < tiles.len() && x < tiles[z].len() {
            match tiles[z][x] {
                Tile::Device(c) => Some(c),
                _ => None,
            }
        } else {
            None
        }
    }
}

#[verifier::external_type_specification]
#[verifier::external_body]
pub struct ExThreadRng(rand::rngs::ThreadRng);

/// Relies on rand::thread_rng: a handle to the thread-local generator.
/// Nothing is promised of it. It can panic only if the operating
/// system's entropy source fails — an environmental condition that
/// depends on no input, like running out of memory.
#[verifier::external_body]
fn fresh_rng() -> rand::rngs::ThreadRng {
    rand::thread_rng()
}

/// Relies on rand::Rng::gen::<u32>: a random draw; nothing can be
/// promised of its value. A failed reseed can panic, again only on an
/// operating-system entropy failure independent of any input.
#[verifier::external_body]
fn draw_u32(rng: &mut rand::rngs::ThreadRng) -> u32 {
    rng.gen::<u32>()
}

/// The fixed-point fraction in `[0, 1)` that a 32-bit draw denotes.
pub open spec fn spec_unit_fraction(u: u32) -> i64 {
    ((u as int * FX_SCALE as int) / 0x1_0000_0000) as i64
}

/// Turn a 32-bit draw into a fixed-point fraction in `[0, 1)`.
fn unit_fraction(u: u32) -> (r: i64)
    ensures
        r == spec_unit_fraction(u),
        0 <= r < FX_SCALE,
{
    let wide: u64 = (u as u64) * 1_000_000u64;
    proof {
        lemma2_to64();
        lemma_u64_shr_is_div(wide, 32u64);
    }
    (wide >> 32u64) as i64
}

/// Appearance of the particles one actuator emits.
pub struct ActuatorParticle {
    pub size: i64,
    pub color: Vec3Fx,
}

impl ActuatorParticle {
    pub fn new(config: &ParticleConfig) -> (r: ActuatorParticle)
        ensures
            r.size == config.size,
            r.color == config.color,
    {
        ActuatorParticle { size: config.size, color: config.color }
    }
}

/// A periodic particle emitter standing on a device tile.
pub struct Actuator {
    pub rng: rand::rngs::ThreadRng,
    pub position: Vec3Fx,
    pub direction: Vec3Fx,
    pub initial_velocity: i64,
    pub temperature: Option<i64>,
    pub range: Vec3Fx,
    pub fluid_type: FluidType,
    pub interval: i64,
    pub dt: i64,
    pub particle: ActuatorParticle,
}

/// The non-random fields an actuator takes from its configuration when
/// placed at a position.
pub open spec fn actuator_matches(a: Actuator, x: i64, z: i64, config: ActuatorConfig) -> bool {
    &&& a.position == (Vec3Fx { x, y: config.height, z })
&&& a.direction == config.direction
&&& a.initial_velocity == config.initial_velocity
&&& a.temperature == config.temperature
&&& a.range == config.range
&&& a.fluid_type == config.fluid_type
&&& a.interval == config.interval
&&& a.dt == 0
&&& a.particle.size == config.particle.size
&&& a.particle.color == config.particle.color
}

/// What every emitted particle looks like: the configured velocity,
/// temperature, phase and appearance, at the actuator's position plus a
/// jitter of at most the configured range (the jitter fractions are the
/// only random part).
pub open spec fn emission_of(a: Actuator, p: SimulationParticle) -> bool {
    &&& (exists|fx: i64, fy: i64, fz: i64|
        {
            &&& 0 <= fx < FX_SCALE
            &&& 0 <= fy < FX_SCALE
            &&& 0 <= fz < FX_SCALE
            &&& p.position == (Vec3Fx {
                x: s_add(a.position.x, s_mul(fx, a.range.x)),
                y: s_add(a.position.y, s_mul(fy, a.range.y)),
                z: s_add(a.position.z, s_mul(fz, a.range.z)),
            })
        })
&&& p.velocity == v_scale(a.direction, a.initial_velocity)
&&& p.temperature == (match a.temperature {
    Option::None => FX_25,
    Option::Some(t) => t,
})
&&& p.fluid_type == a.fluid_type
&&& p.size == a.particle.size
&&& p.color == a.particle.color
&&& p.acceleration == Vec3Fx::spec_zero()
&&& p.forces == Vec3Fx::spec_zero()
&&& p.density == 0
&&& p.density_correction == 0
}

impl Actuator {
    pub fn new(x: i64, z: i64, config: &ActuatorConfig) -> (r: Actuator)
        ensures
            actuator_matches(r, x, z, *config),
    {
        Actuator {
            rng: fresh_rng(),
            position: Vec3Fx { x, y: config.height, z },
            direction: config.direction,
            initial_velocity: config.initial_velocity,
            temperature: config.temperature,
            range: config.range,
            fluid_type: config.fluid_type,
            interval: config.interval,
            dt: 0,
            particle: ActuatorParticle::new(&config.particle),
        }
    }

    /// Advance the emitter's clock by `dt`; once the configured interval
    /// has elapsed, reset the clock and emit one jittered particle.
    pub fn emit_particle(&mut self, dt: i64) -> (r: Option<SimulationParticle>)
        ensures
            final(self).position == old(self).position,
            final(self).direction == old(self).direction,
            final(self).initial_velocity == old(self).initial_velocity,
            final(self).temperature == old(self).temperature,
            final(self).range == old(self).range,
            final(self).fluid_type == old(self).fluid_type,
            final(self).interval == old(self).interval,
            final(self).particle.size == old(self).particle.size,
            final(self).particle.color == old(self).particle.color,
            match r {
                Option::None => {
                    &&& final(self).dt == s_add(old(self).dt, dt)
                    &&& s_add(old(self).dt, dt) < old(self).interval
                },
                Option::Some(p) => {
                    &&& s_add(old(self).dt, dt) >= old(self).interval
                    &&& final(self).dt == 0
                    &&& emission_of(*old(self), p)
                },
            },
    {
        proof {
            broadcast use group_s_ops;

        }
        self.dt = fixed::add(self.dt, dt);
        if self.dt < self.interval {
            return None;
        }
        self.dt = 0;
        let fx = unit_fraction(draw_u32(&mut self.rng));
        let fy = unit_fraction(draw_u32(&mut self.rng));
        let fz = unit_fraction(draw_u32(&mut self.rng));
        let jitter_x = fixed::mul(fx, self.range.x);
        let jitter_y = fixed::mul(fy, self.range.y);
        let jitter_z = fixed::mul(fz, self.range.z);
        let position = Vec3Fx::new(
            fixed::add(self.position.x, jitter_x),
            fixed::add(self.position.y, jitter_y),
            fixed::add(self.position.z, jitter_z),
        );
        let velocity = self.direction.scale(self.initial_velocity);
        let temperature = match self.temperature {
            None => FX_25,
            Some(t) => t,
        };
        let particle = SimulationParticle::new(
            position,
            velocity,
            temperature,
            self.fluid_type,
            self.particle.size,
            self.particle.color,
        );
        proof {
            assert(0 <= fx < FX_SCALE && 0 <= fy < FX_SCALE && 0 <= fz < FX_SCALE
                && particle.position == (Vec3Fx {
                x: s_add(old(self).position.x, s_mul(fx, old(self).range.x)),
                y: s_add(old(self).position.y, s_mul(fy, old(self).range.y)),
                z: s_add(old(self).position.z, s_mul(fz, old(self).range.z)),
            }));
        }
        Some(particle)
    }
}

/// A read-only particle observer standing on a device tile.
pub struct Sensor {
    pub position: Vec3Fx,
    pub range: Vec3Fx,
    pub output: Option<String>,
}

impl Sensor {
    pub fn new(x: i64, z: i64, config: &SensorConfig) -> (r: Sensor)
        ensures
            r.position == (Vec3Fx { x, y: config.height, z }),
            r.range == config.range,
            r.output == config.output,
    {
        let output = match &config.output {
            None => None,
            Some(s) => Some(s.clone()),
        };
        Sensor { position: Vec3Fx { x, y: config.height, z }, range: config.range, output }
    }

    /// Observe a particle located in the sensor's activation volume.
    /// An observation has no effect of its own; an embedding application
    /// may attach one.
    pub fn inspect_particle(&self, _particle: &SimulationParticle) {
    }
}

/// The fixed-point coordinate of a device placed at the center of tile
/// column or row `v`.
pub open spec fn device_center(v: int) -> i64 {
    fx_clamp(v * (FX_SCALE as int) + FX_HALF as int) as i64
}

/// The fixed-point coordinate of a device placed at the corner of tile
/// column or row `v`.
pub open spec fn device_corner(v: int) -> i64 {
    fx_clamp(v * (FX_SCALE as int)) as i64
}

/// A placed actuator entry: its label names an actuator configuration,
/// the map has a device tile with that label, and the actuator stands at
/// that tile's center with the configured fields.
pub open spec fn placed_actuator(
    tiles: Seq<Seq<Tile>>,
    configs: Seq<(char, ActuatorConfig)>,
    entry: (char, Actuator),
) -> bool {
    exists|x: int, z: int|
        {
            &&& 0 <= z < tiles.len()
            &&& 0 <= x < tiles[z].len()
            &&& tiles[z][x] == Tile::Device(entry.0)
            &&& match lookup(configs, entry.0) {
                Option::Some(cfg) => actuator_matches(
                    entry.1,
                    device_center(x),
                    device_center(z),
                    cfg,
                ),
                Option::None => false,
            }
        }
}

/// The fields a sensor takes from its configuration when placed at a
/// position.
pub open spec fn sensor_matches(s: Sensor, x: i64, z: i64, config: SensorConfig) -> bool {
    &&& s.position == (Vec3Fx { x, y: config.height, z })
&&& s.range == config.range
&&& s.output == config.output
}

/// A placed sensor entry, at its device tile's corner.
pub open spec fn placed_sensor(
    tiles: Seq<Seq<Tile>>,
    configs: Seq<(char, SensorConfig)>,
    entry: (char, Sensor),
) -> bool {
    exists|x: int, z: int|
        {
            &&& 0 <= z < tiles.len()
            &&& 0 <= x < tiles[z].len()
            &&& tiles[z][x] == Tile::Device(entry.0)
            &&& match lookup(configs, entry.0) {
                Option::Some(cfg) => sensor_matches(
                    entry.1,
                    device_corner(x),
                    device_corner(z),
                    cfg,
                ),
                Option::None => false,
            }
        }
}

/// Conversely, a device tile whose label the configuration knows is
/// covered: some entry of the placed lists stands on it.
pub open spec fn cell_covered(
    tiles: Seq<Seq<Tile>>,
    acfgs: Seq<(char, ActuatorConfig)>,
    scfgs: Seq<(char, SensorConfig)>,
    acts: Seq<(char, Actuator)>,
    sens: Seq<(char, Sensor)>,
    z: int,
    x: int,
) -> bool {
    match tiles[z][x] {
        Tile::Device(c) => {
            &&& (lookup(acfgs, c) is Some ==> exists|k: int|
                0 <= k < acts.len() && (#[trigger] acts[k]).0 == c && actuator_matches(
                    acts[k].1,
                    device_center(x),
                    device_center(z),
                    lookup(acfgs, c)->Some_0,
                ))
            &&& (lookup(scfgs, c) is Some ==> exists|k: int|
                0 <= k < sens.len() && (#[trigger] sens[k]).0 == c && sensor_matches(
                    sens[k].1,
                    device_corner(x),
                    device_corner(z),
                    lookup(scfgs, c)->Some_0,
                ))
        },
        _ => true,
    }
}

/// Coverage survives appending further entries to the placed lists.
proof fn lemma_cell_covered_grows(
    tiles: Seq<Seq<Tile>>,
    acfgs: Seq<(char, ActuatorConfig)>,
    scfgs: Seq<(char, SensorConfig)>,
    acts1: Seq<(char, Actuator)>,
    sens1: Seq<(char, Sensor)>,
    acts2: Seq<(char, Actuator)>,
    sens2: Seq<(char, Sensor)>,
    z: int,
    x: int,
)
    requires
        cell_covered(tiles, acfgs, scfgs, acts1, sens1, z, x),
        acts1.len() <= acts2.len(),
        sens1.len() <= sens2.len(),
        forall|k: int| 0 <= k < acts1.len() ==> acts2[k] == acts1[k],
        forall|k: int| 0 <= k < sens1.len() ==> sens2[k] == sens1[k],
    ensures
        cell_covered(tiles, acfgs, scfgs, acts2, sens2, z, x),
{
    if let Tile::Device(c) = tiles[z][x] {
        if lookup(acfgs, c) is Some {
            let k = choose|k: int|
                0 <= k < acts1.len() && (#[trigger] acts1[k]).0 == c && actuator_matches(
                    acts1[k].1,
                    device_center(x),
                    device_center(z),
                    lookup(acfgs, c)->Some_0,
                );
            assert(acts2[k] == acts1[k]);
        }
        if lookup(scfgs, c) is Some {
            let k = choose|k: int|
                0 <= k < sens1.len() && (#[trigger] sens1[k]).0 == c && sensor_matches(
                    sens1[k].1,
                    device_corner(x),
                    device_corner(z),
                    lookup(scfgs, c)->Some_0,
                );
            assert(sens2[k] == sens1[k]);
        }
    }
}

/// Whether crediting `dt` more time brings the actuator's clock up to
/// its interval, so that it emits.
pub open spec fn fires(a: Actuator, dt: i64) -> bool {
    s_add(a.dt, dt) >= a.interval
}

/// The indices of the actuators that fire when `dt` is credited, in
/// ascending index order.
pub open spec fn firing_indices(acts: Seq<(char, Actuator)>, dt: i64) -> Seq<int>
    decreases acts.len(),
{
    if acts.len() == 0 {
        Seq::empty()
    } else {
        let front = firing_indices(acts.drop_last(), dt);
        if fires(acts.last().1, dt) {
            front.push(acts.len() - 1)
        } else {
            front
        }
    }
}

/// The firing indices are in range and each names an actuator that
/// does fire.
pub proof fn lemma_firing_indices_props(acts: Seq<(char, Actuator)>, dt: i64)
    ensures
        firing_indices(acts, dt).len() <= acts.len(),
        forall|i: int|
            0 <= i < firing_indices(acts, dt).len() ==> {
                let j = #[trigger] firing_indices(acts, dt)[i];
                0 <= j < acts.len() && fires(acts[j].1, dt)
            },
    decreases acts.len(),
{
    if acts.len() > 0 {
        lemma_firing_indices_props(acts.drop_last(), dt);
        assert(forall|j: int| 0 <= j < acts.len() - 1 ==> #[trigger] acts.drop_last()[j] == acts[j]);
    }
}

/// What a map built from a configuration carries on its device tiles:
/// every placed actuator and sensor stands on a matching device tile
/// (soundness), and every device tile whose label the configuration
/// knows is covered by a placed entry (completeness).
pub open spec fn placed_devices(
    tiles: Seq<Seq<Tile>>,
    acfgs: Seq<(char, ActuatorConfig)>,
    scfgs: Seq<(char, SensorConfig)>,
    acts: Seq<(char, Actuator)>,
    sens: Seq<(char, Sensor)>,
) -> bool {
    &&& forall|k: int|
        0 <= k < acts.len() ==> placed_actuator(tiles, acfgs, #[trigger] acts[k])
&&& forall|k: int| 0 <= k < sens.len() ==> placed_sensor(tiles, scfgs, #[trigger] sens[k])
&&& forall|z: int, x: int|
    0 <= z < tiles.len() && 0 <= x < tiles[z].len() ==> #[trigger] cell_covered(
        tiles,
        acfgs,
        scfgs,
        acts,
        sens,
        z,
        x,
    )
}

/// The environment: the parsed tile rows and the devices placed on them.
pub struct WorldMap {
    tiles: Vec<Vec<Tile>>,
    actuators: Vec<(char, Actuator)>,
    sensors: Vec<(char, Sensor)>,
}

impl WorldMap {
    pub closed spec fn spec_tiles(&self) -> Seq<Seq<Tile>> {
        self.tiles@.map_values(|row: Vec<Tile>| row@)
    }

    pub closed spec fn spec_actuators(&self) -> Seq<(char, Actuator)> {
        self.actuators@
    }

    pub closed spec fn spec_sensors(&self) -> Seq<(char, Sensor)> {
        self.sensors@
    }

    /// Parse the environment layout into tile rows, then place an
    /// actuator or a sensor on every device tile whose label the
    /// configuration knows. A label that stands on several device tiles
    /// places an emitter (and an observer) on each such tile; lookups by
    /// label answer the first placed entry.
    pub fn new(config: &Config) -> (r: WorldMap)
        ensures
            r.spec_tiles() == spec_env_rows(config.spec_environment()),
            placed_devices(
                r.spec_tiles(),
                config.spec_actuators(),
                config.spec_sensors(),
                r.spec_actuators(),
                r.spec_sensors(),
            ),
    {
        let env = config.get_environment();
        let n = env.as_str().unicode_len();
        let ghost env_chars = env@;
        let mut tiles: Vec<Vec<Tile>> = Vec::new();
        let mut current: Vec<Tile> = Vec::new();
        let mut i: usize = 0;
        proof {
            assert(env_chars.subrange(0, 0) =~= Seq::<char>::empty());
        }
        while i < n
            invariant
                0 <= i <= n,
                n == env_chars.len(),
                env@ == env_chars,
                tiles@.map_values(|row: Vec<Tile>| row@) == parse_rows(
                    env_chars.subrange(0, i as int),
                ).0,
                current@ == parse_rows(env_chars.subrange(0, i as int)).1,
            decreases n - i,
        {
            let c = env.as_str().get_char(i);
            let ghost prefix = env_chars.subrange(0, i as int);
            let ghost prefix1 = env_chars.subrange(0, i as int + 1);
            proof {
                assert(prefix1.drop_last() =~= prefix);
                assert(prefix1.last() == env_chars[i as int]);
            }
            if c == '\n' {
                let ghost old_tiles = tiles@;
                tiles.push(current);
                current = Vec::new();
                proof {
                    assert(tiles@.map_values(|row: Vec<Tile>| row@) =~= parse_rows(prefix1).0);
                    assert(current@ =~= parse_rows(prefix1).1);
                }
            } else {
                let t = match Tile::from(c) {
                    Ok(t) => t,
                    Err(_) => Tile::Empty,
                };
                current.push(t);
                proof {
                    assert(tiles@.map_values(|row: Vec<Tile>| row@) =~= parse_rows(prefix1).0);
                }
            }
            i = i + 1;
        }
        proof {
            assert(env_chars.subrange(0, n as int) =~= env_chars);
        }
        if current.len() > 0 {
            tiles.push(current);
        }
        let ghost tile_rows = tiles@.map_values(|row: Vec<Tile>| row@);
        proof {
            assert(tile_rows =~= spec_env_rows(env_chars));
        }
        let mut actuators: Vec<(char, Actuator)> = Vec::new();
        let mut sensors: Vec<(char, Sensor)> = Vec::new();
        let rows = tiles.len();
        let mut z: usize = 0;
        while z < rows
            invariant
                0 <= z <= rows,
                rows == tiles@.len(),
                tile_rows == tiles@.map_values(|row: Vec<Tile>| row@),
                forall|k: int|
                    0 <= k < actuators@.len() ==> placed_actuator(
                        tile_rows,
                        config.spec_actuators(),
                        #[trigger] actuators@[k],
                    ),
                forall|k: int|
                    0 <= k < sensors@.len() ==> placed_sensor(
                        tile_rows,
                        config.spec_sensors(),
                        #[trigger] sensors@[k],
                    ),
                forall|z2: int, x2: int|
                    0 <= z2 < z && 0 <= x2 < tile_rows[z2].len() ==> #[trigger] cell_covered(
                        tile_rows,
                        config.spec_actuators(),
                        config.spec_sensors(),
                        actuators@,
                        sensors@,
                        z2,
                        x2,
                    ),
            decreases rows - z,
        {
            let cols = tiles[z].len();
            let mut x: usize = 0;
            while x < cols
                invariant
                    0 <= x <= cols,
                    0 <= z < rows,
                    rows == tiles@.len(),
                    cols == tiles@[z as int]@.len(),
                    tile_rows == tiles@.map_values(|row: Vec<Tile>| row@),
                    forall|k: int|
                        0 <= k < actuators@.len() ==> placed_actuator(
                            tile_rows,
                            config.spec_actuators(),
                            #[trigger] actuators@[k],
                        ),
                    forall|k: int|
                        0 <= k < sensors@.len() ==> placed_sensor(
                            tile_rows,
                            config.spec_sensors(),
                            #[trigger] sensors@[k],
                        ),
                    forall|z2: int, x2: int|
                        0 <= z2 < z && 0 <= x2 < tile_rows[z2].len() ==> #[trigger] cell_covered(
                            tile_rows,
                            config.spec_actuators(),
                            config.spec_sensors(),
                            actuators@,
                            sensors@,
                            z2,
                            x2,
                        ),
                    forall|x2: int|
                        0 <= x2 < x ==> #[trigger] cell_covered(
                            tile_rows,
                            config.spec_actuators(),
                            config.spec_sensors(),
                            actuators@,
                            sensors@,
                            z as int,
                            x2,
                        ),
                decreases cols - x,
            {
                let ghost acts0 = actuators@;
                let ghost sens0 = sensors@;
                if let Tile::Device(label) = tiles[z][x] {
                    proof {
                        assert(tile_rows[z as int][x as int] == Tile::Device(label));
                    }
                    match config.get_actuator_by_label(&label) {
                        Some(acfg) => {
                            let cx = fixed::saturate(
                                (x as i128) * (FX_SCALE as i128) + (FX_HALF as i128),
                            );
                            let cz = fixed::saturate(
                                (z as i128) * (FX_SCALE as i128) + (FX_HALF as i128),
                            );
                            let actuator = Actuator::new(cx, cz, acfg);
                            actuators.push((label, actuator));
                            proof {
                                fixed::lemma_fx_clamp_in_range(
                                    (x as int) * (fixed::FX_SCALE as int) + (FX_HALF as int),
                                );
                                fixed::lemma_fx_clamp_in_range(
                                    (z as int) * (fixed::FX_SCALE as int) + (FX_HALF as int),
                                );
                                assert(cx == device_center(x as int));
                                assert(cz == device_center(z as int));
                                assert(actuators@[acts0.len() as int] == (label, actuator));
                                assert(placed_actuator(
                                    tile_rows,
                                    config.spec_actuators(),
                                    (label, actuator),
                                ));
                            }
                        },
                        None => {},
                    }
                    match config.get_sensor_by_label(&label) {
                        Some(scfg) => {
                            let cx = fixed::saturate((x as i128) * (FX_SCALE as i128));
                            let cz = fixed::saturate((z as i128) * (FX_SCALE as i128));
                            let sensor = Sensor::new(cx, cz, scfg);
                            sensors.push((label, sensor));
                            proof {
                                fixed::lemma_fx_clamp_in_range(
                                    (x as int) * (fixed::FX_SCALE as int),
                                );
                                fixed::lemma_fx_clamp_in_range(
                                    (z as int) * (fixed::FX_SCALE as int),
                                );
                                assert(cx == device_corner(x as int));
                                assert(cz == device_corner(z as int));
                                assert(sensors@[sens0.len() as int] == (label, sensors@.last().1));
                                assert(placed_sensor(
                                    tile_rows,
                                    config.spec_sensors(),
                                    (label, sensors@.last().1),
                                ));
                            }
                        },
                        None => {},
                    }
                }
                proof {
                    assert forall|z2: int, x2: int|
                        (0 <= z2 < z && 0 <= x2 < tile_rows[z2].len()) || (z2 == z && 0 <= x2
                            < x) implies #[trigger] cell_covered(
                        tile_rows,
                        config.spec_actuators(),
                        config.spec_sensors(),
                        actuators@,
                        sensors@,
                        z2,
                        x2,
                    ) by {
                        lemma_cell_covered_grows(
                            tile_rows,
                            config.spec_actuators(),
                            config.spec_sensors(),
                            acts0,
                            sens0,
                            actuators@,
                            sensors@,
                            z2,
                            x2,
                        );
                    }
                    assert(cell_covered(
                        tile_rows,
                        config.spec_actuators(),
                        config.spec_sensors(),
                        actuators@,
                        sensors@,
                        z as int,
                        x as int,
                    ));
                }
                x = x + 1;
            }
            z = z + 1;
        }
        WorldMap { tiles, actuators, sensors }
    }

    /// The tile under a position, for any position: device and user
    /// tiles answer as floor, and off-map positions — including those at
    /// negative coordinates — as empty.
    pub fn get_tile_in_position(&self, position: Vec3Fx) -> (r: Tile)
        ensures
            r == spec_tile_at(self.spec_tiles(), position),
    {
        if position.x < 0 || position.z < 0 {
            return Tile::Empty;
        }
        let x = coord_of(position.x);
        let z = coord_of(position.z);
        if z < self.tiles.len() as u64 {
            let zi = z as usize;
            if x < self.tiles[zi].len() as u64 {
                let xi = x as usize;
                match self.tiles[zi][xi] {
                    Tile::User => Tile::Floor,
                    Tile::Device(_) => Tile::Floor,
                    t => t,
                }
            } else {
                Tile::Empty
            }
        } else {
            Tile::Empty
        }
    }

    /// The label of the device tile under a position, if any.
    pub fn get_device_in_position(&self, position: Vec3Fx) -> (r: Option<char>)
        ensures
            r == spec_device_at(self.spec_tiles(), position),
    {
        if position.x < 0 || position.z < 0 {
            return None;
        }
        let x = coord_of(position.x);
        let z = coord_of(position.z);
        if z < self.tiles.len() as u64 {
            let zi = z as usize;
            if x < self.tiles[zi].len() as u64 {
                let xi = x as usize;
                match self.tiles[zi][xi] {
                    Tile::Device(c) => Some(c),
                    _ => None,
                }
            } else {
                None
            }
        } else {
            None
        }
    }

    /// The first placed sensor labelled `label`, if any.
    pub fn get_sensor_by_label(&self, label: &char) -> (r: Option<&Sensor>)
        ensures
            match r {
                Option::Some(s) => lookup(self.spec_sensors(), *label) == Some(*s),
                Option::None => lookup(self.spec_sensors(), *label) is None,
            },
    {
        let n = self.sensors.len();
        let mut i: usize = 0;
        proof {
            assert(self.spec_sensors().subrange(0, n as int) =~= self.spec_sensors());
        }
        while i < n
            invariant
                0 <= i <= n,
                n == self.sensors.len(),
                lookup(self.spec_sensors(), *label) == lookup(
                    self.spec_sensors().subrange(i as int, n as int),
                    *label,
                ),
            decreases n - i,
        {
            proof {
                assert(self.spec_sensors().subrange(i as int, n as int)[0]
                    == self.spec_sensors()[i as int]);
            }
            if self.sensors[i].0 == *label {
                return Some(&self.sensors[i].1);
            }
            proof {
                assert(self.spec_sensors().subrange(i as int, n as int).subrange(1, (n - i) as int)
                    =~= self.spec_sensors().subrange(i as int + 1, n as int));
            }
            i = i + 1;
        }
        None
    }

    /// Run every actuator's emitter once with the elapsed time `dt` and
    /// collect what was emitted: exactly one particle per actuator whose
    /// clock reaches its interval, in actuator order, and every clock
    /// either accumulates (below its interval) or fires and resets.
    pub fn emit_particles(&mut self, dt: i64) -> (r: Vec<SimulationParticle>)
        ensures
            final(self).spec_tiles() == old(self).spec_tiles(),
            final(self).spec_sensors() == old(self).spec_sensors(),
            final(self).spec_actuators().len() == old(self).spec_actuators().len(),
            r@.len() == firing_indices(old(self).spec_actuators(), dt).len(),
            forall|i: int|
                0 <= i < r@.len() ==> {
                    let fired = firing_indices(old(self).spec_actuators(), dt);
                    emission_of(
                        old(self).spec_actuators()[fired[i]].1,
                        #[trigger] r@[i],
                    )
                },
            forall|j: int|
                0 <= j < old(self).spec_actuators().len() ==> {
                    let before = old(self).spec_actuators()[j].1;
                    let after = (#[trigger] final(self).spec_actuators()[j]).1;
                    &&& final(self).spec_actuators()[j].0 == old(self).spec_actuators()[j].0
                    &&& (s_add(before.dt, dt) < before.interval ==> after.dt == s_add(
                        before.dt,
                        dt,
                    ))
                    &&& (s_add(before.dt, dt) >= before.interval ==> after.dt == 0)
                },
    {
        let mut out: Vec<SimulationParticle> = Vec::new();
        let n = self.actuators.len();
        let mut k: usize = 0;
        proof {
            assert(old(self).spec_actuators().subrange(0, 0) =~= Seq::<(char, Actuator)>::empty());
        }
        while k < n
            invariant
                0 <= k <= n,
                n == self.actuators@.len(),
                n == old(self).spec_actuators().len(),
                self.tiles@ == old(self).tiles@,
                self.sensors@ == old(self).sensors@,
                forall|j: int|
                    k <= j < n ==> #[trigger] self.actuators@[j] == old(self).spec_actuators()[j],
                forall|j: int|
                    0 <= j < k ==> {
                        let before = old(self).spec_actuators()[j].1;
                        let after = (#[trigger] self.actuators@[j]).1;
                        &&& self.actuators@[j].0 == old(self).spec_actuators()[j].0
                        &&& (s_add(before.dt, dt) < before.interval ==> after.dt == s_add(
                            before.dt,
                            dt,
                        ))
                        &&& (s_add(before.dt, dt) >= before.interval ==> after.dt == 0)
                    },
                out@.len() == firing_indices(
                    old(self).spec_actuators().subrange(0, k as int),
                    dt,
                ).len(),
                forall|i: int|
                    0 <= i < out@.len() ==> {
                        let fired = firing_indices(
                            old(self).spec_actuators().subrange(0, k as int),
                            dt,
                        );
                        0 <= fired[i] < k && emission_of(
                            old(self).spec_actuators()[fired[i]].1,
                            #[trigger] out@[i],
                        )
                    },
            decreases n - k,
        {
            let ghost pre = old(self).spec_actuators().subrange(0, k as int);
            let ghost pre1 = old(self).spec_actuators().subrange(0, k as int + 1);
            proof {
                assert(pre1.drop_last() =~= pre);
                assert(pre1.last() == old(self).spec_actuators()[k as int]);
                lemma_firing_indices_props(pre, dt);
            }
            let pair = &mut self.actuators[k];
            let emitted = pair.1.emit_particle(dt);
            match emitted {
                Some(p) => {
                    proof {
                        assert(emission_of(
                            (old(self).spec_actuators()[k as int]).1,
                            p,
                        ));
                        assert(fires(old(self).spec_actuators()[k as int].1, dt));
                        assert(firing_indices(pre1, dt) == firing_indices(pre, dt).push(k as int));
                    }
                    out.push(p);
                },
                None => {
                    proof {
                        assert(!fires(old(self).spec_actuators()[k as int].1, dt));
                        assert(firing_indices(pre1, dt) == firing_indices(pre, dt));
                    }
                },
            }
            k = k + 1;
        }
        proof {
            assert(old(self).spec_actuators().subrange(0, n as int) =~= old(
                self,
            ).spec_actuators());
        }
        out
    }
}

/// The tile index a nonnegative fixed-point coordinate falls in,
/// widened so that it is exact on every platform.
fn coord_of(v: i64) -> (r: u64)
    requires
        v >= 0,
    ensures
        r as int == coord_index(v),
{
    (v / FX_SCALE) as u64
}

} // verus!
