//! A smoothed-particle-hydrodynamics (SPH) engine for a two-phase
//! (gaseous/liquid) fluid, with all arithmetic carried out in a
//! fixed-point integer representation so that every formula has an
//! exact, machine-checked meaning.

use vstd::prelude::*;

pub mod fixed;
pub mod vec3;
pub mod config;
pub mod kernel;
pub mod sph;
pub mod world_map;

use crate::config::{Config, ConfigError, SimulationConfig};
use crate::kernel::Kernel;
use crate::sph::{SimulationParticle, SPH, remaining, spec_step};
use crate::vec3::s_add;
use crate::world_map::{Actuator, Sensor, Tile, WorldMap, emission_of, fires, firing_indices,
    placed_devices, spec_env_rows};

verus! {

/// The fixed integration step of the headless loop (a millisecond).
pub const HEADLESS_STEP_DT: i64 = 1_000;

/// The fixed frame time handed to the emitters each tick (16 ms).
pub const HEADLESS_EMIT_DT: i64 = 16_000;

/// One headless tick of the particle state: the list is stepped by
/// `HEADLESS_STEP_DT` and culled against the map, and then one emission
/// per firing actuator is appended, in actuator order. (Opaque: the
/// stepped list expands into the whole pass pipeline; provers reveal it
/// where they establish it.)
#[verifier::opaque]
pub open spec fn spec_tick_particles(
    parts: Seq<SimulationParticle>,
    acts: Seq<(char, Actuator)>,
    post: Seq<SimulationParticle>,
    cfg: SimulationConfig,
    kern: Kernel,
    tiles: Seq<Seq<Tile>>,
) -> bool {
    let culled = remaining(spec_step(parts, cfg, kern, HEADLESS_STEP_DT), tiles);
    let fired = firing_indices(acts, HEADLESS_EMIT_DT);
    &&& post.len() == culled.len() + fired.len()
&&& post.subrange(0, culled.len() as int) == culled
&&& forall|i: int|
    0 <= i < fired.len() ==> emission_of(
        acts[fired[i]].1,
        #[trigger] post[culled.len() + i],
    )
}

/// One headless tick of the actuator clocks: below its interval a clock
/// accumulates the frame time, otherwise it fires and resets; labels and
/// positions stay.
pub open spec fn spec_tick_clocks(pre: Seq<(char, Actuator)>, post: Seq<(char, Actuator)>) -> bool {
    &&& post.len() == pre.len()
&&& forall|j: int|
    0 <= j < pre.len() ==> {
        let before = (#[trigger] pre[j]).1;
        let after = post[j].1;
        &&& post[j].0 == pre[j].0
        &&& (!fires(before, HEADLESS_EMIT_DT) ==> after.dt == s_add(
            before.dt,
            HEADLESS_EMIT_DT,
        ))
        &&& (fires(before, HEADLESS_EMIT_DT) ==> after.dt == 0)
    }
}

/// One whole headless tick: the particle state advances and the
/// actuator clocks advance.
pub open spec fn spec_tick(
    pre_parts: Seq<SimulationParticle>,
    pre_acts: Seq<(char, Actuator)>,
    post_parts: Seq<SimulationParticle>,
    post_acts: Seq<(char, Actuator)>,
    cfg: SimulationConfig,
    kern: Kernel,
    tiles: Seq<Seq<Tile>>,
) -> bool {
    &&& spec_tick_particles(pre_parts, pre_acts, post_parts, cfg, kern, tiles)
&&& spec_tick_clocks(pre_acts, post_acts)
}

/// The states reachable from `(pre_parts, pre_acts)` by exactly `ticks`
/// headless ticks.
pub open spec fn spec_runs(
    pre_parts: Seq<SimulationParticle>,
    pre_acts: Seq<(char, Actuator)>,
    post_parts: Seq<SimulationParticle>,
    post_acts: Seq<(char, Actuator)>,
    cfg: SimulationConfig,
    kern: Kernel,
    tiles: Seq<Seq<Tile>>,
    ticks: int,
) -> bool
    decreases ticks,
{
    if ticks <= 0 {
        post_parts == pre_parts && post_acts == pre_acts
    } else {
        exists|mid_parts: Seq<SimulationParticle>, mid_acts: Seq<(char, Actuator)>|
            {
                &&& spec_runs(pre_parts, pre_acts, mid_parts, mid_acts, cfg, kern, tiles, ticks - 1)
                &&& #[trigger] spec_tick(
                    mid_parts,
                    mid_acts,
                    post_parts,
                    post_acts,
                    cfg,
                    kern,
                    tiles,
                )
            }
    }
}

/// One more tick extends a run.
proof fn lemma_runs_step(
    init_parts: Seq<SimulationParticle>,
    init_acts: Seq<(char, Actuator)>,
    pre_parts: Seq<SimulationParticle>,
    pre_acts: Seq<(char, Actuator)>,
    post_parts: Seq<SimulationParticle>,
    post_acts: Seq<(char, Actuator)>,
    cfg: SimulationConfig,
    kern: Kernel,
    tiles: Seq<Seq<Tile>>,
    ticks: int,
)
    requires
        ticks >= 0,
        spec_runs(init_parts, init_acts, pre_parts, pre_acts, cfg, kern, tiles, ticks),
        spec_tick_particles(pre_parts, pre_acts, post_parts, cfg, kern, tiles),
        spec_tick_clocks(pre_acts, post_acts),
    ensures
        spec_runs(init_parts, init_acts, post_parts, post_acts, cfg, kern, tiles, ticks + 1),
{
    assert(spec_tick(pre_parts, pre_acts, post_parts, post_acts, cfg, kern, tiles));
}

/// Drive the solver without a renderer for `ticks` ticks. Each tick, in
/// this order: one `step`, one cull against the map, one emission round
/// (every firing actuator's particle appended in actuator order), and a
/// read-only sensor observation of every particle standing on a device
/// tile. Fails exactly on an invalid configuration; on success the
/// returned solver's particles are a `ticks`-tick run from the empty
/// store and a device placement that covers the configured map.
#[verifier::rlimit(100)]
pub fn run_headless(config: &Config, ticks: u64) -> (r: Result<SPH, ConfigError>)
    ensures
        match r {
            Ok(sph) => {
                &&& config.spec_simulation().valid()
                &&& sph.wf()
                &&& sph.config == config.spec_simulation()
                &&& exists|
                    acts0: Seq<(char, Actuator)>,
                    sens0: Seq<(char, Sensor)>,
                    acts1: Seq<(char, Actuator)>,
                |
                    #![trigger placed_devices(
                        spec_env_rows(config.spec_environment()),
                        config.spec_actuators(),
                        config.spec_sensors(),
                        acts0,
                        sens0,
                    ), spec_runs(
                        Seq::empty(),
                        acts0,
                        sph.particles@,
                        acts1,
                        sph.config,
                        sph.kernel,
                        spec_env_rows(config.spec_environment()),
                        ticks as int,
                    )]
                    {
                        &&& placed_devices(
                            spec_env_rows(config.spec_environment()),
                            config.spec_actuators(),
                            config.spec_sensors(),
                            acts0,
                            sens0,
                        )
                        &&& spec_runs(
                            Seq::empty(),
                            acts0,
                            sph.particles@,
                            acts1,
                            sph.config,
                            sph.kernel,
                            spec_env_rows(config.spec_environment()),
                            ticks as int,
                        )
                    }
            },
            Err(e) => !config.spec_simulation().valid() && Err::<(), ConfigError>(e)
                == config.spec_simulation().spec_validate(),
        },
{
    let mut sph = match SPH::new(config) {
        Ok(s) => s,
        Err(e) => {
            return Err(e);
        },
    };
    let mut world_map = WorldMap::new(config);
    let ghost acts0 = world_map.spec_actuators();
    let ghost sens0 = world_map.spec_sensors();
    let ghost tiles = world_map.spec_tiles();
    let ghost cfg = sph.config;
    let ghost kern = sph.kernel;
    proof {
        assert(sph.particles@ =~= Seq::<SimulationParticle>::empty());
    }
    let mut t: u64 = 0;
    while t < ticks
        invariant
            0 <= t <= ticks,
            sph.wf(),
            sph.config == cfg,
            sph.kernel == kern,
            world_map.spec_tiles() == tiles,
            spec_runs(
                Seq::empty(),
                acts0,
                sph.particles@,
                world_map.spec_actuators(),
                cfg,
                kern,
                tiles,
                t as int,
            ),
        decreases ticks - t,
    {
        let ghost pre_parts = sph.particles@;
        let ghost pre_acts = world_map.spec_actuators();
        sph.step(HEADLESS_STEP_DT);
        sph.check_particles(&world_map);
        let ghost culled = sph.particles@;
        let emitted = world_map.emit_particles(HEADLESS_EMIT_DT);
        let mut k: usize = 0;
        while k < emitted.len()
            invariant
                sph.wf(),
                sph.config == cfg,
                sph.kernel == kern,
                0 <= k <= emitted.len(),
                sph.particles@ == culled + emitted@.subrange(0, k as int),
            decreases emitted.len() - k,
        {
            proof {
                assert(emitted@.subrange(0, k as int + 1) =~= emitted@.subrange(0, k as int).push(
                    emitted@[k as int],
                ));
                assert(culled + emitted@.subrange(0, k as int + 1) =~= (culled + emitted@.subrange(
                    0,
                    k as int,
                )).push(emitted@[k as int]));
            }
            sph.add_particle(emitted[k]);
            k = k + 1;
        }
        proof {
            reveal(spec_tick_particles);
            assert(emitted@.subrange(0, emitted@.len() as int) =~= emitted@);
            assert(sph.particles@.subrange(0, culled.len() as int) =~= culled);
            assert(spec_tick_particles(
                pre_parts,
                pre_acts,
                sph.particles@,
                cfg,
                kern,
                tiles,
            ));
            assert(spec_tick_clocks(pre_acts, world_map.spec_actuators()));
            lemma_runs_step(
                Seq::empty(),
                acts0,
                pre_parts,
                pre_acts,
                sph.particles@,
                world_map.spec_actuators(),
                cfg,
                kern,
                tiles,
                t as int,
            );
        }
        let particles = sph.get_particles();
        let mut p: usize = 0;
        while p < particles.len()
            invariant
                0 <= p <= particles.len(),
            decreases particles.len() - p,
        {
            match world_map.get_device_in_position(particles[p].position) {
                Some(label) => {
                    match world_map.get_sensor_by_label(&label) {
                        Some(sensor) => sensor.inspect_particle(&particles[p]),
                        None => {},
                    }
                },
                None => {},
            }
            p = p + 1;
        }
        t = t + 1;
    }
    proof {
        assert(placed_devices(
            spec_env_rows(config.spec_environment()),
            config.spec_actuators(),
            config.spec_sensors(),
            acts0,
            sens0,
        ));
        assert(spec_runs(
            Seq::empty(),
            acts0,
            sph.particles@,
            world_map.spec_actuators(),
            sph.config,
            sph.kernel,
            spec_env_rows(config.spec_environment()),
            ticks as int,
        ));
    }
    Ok(sph)
}

} // verus!
