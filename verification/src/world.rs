//! What the recorded GPU work does to the buffers, and what that makes of the
//! simulated world.
//!
//! The shaders stand here as arbitrary functions on whole buffers; everything
//! else (which buffer each reads and writes, in which order) is taken from the
//! recorded work and the bind groups it names.
//!
//! The agent pass senses the trail while other agents deposit on it, a
//! deliberate race, so two dispatches on the same buffers may differ. The laws
//! speak of one fixed outcome of the race for each content of the buffers,
//! whichever it is. They do not speak of runs in which the same contents come
//! out differently a second time.

use crate::params::SimParams;
use crate::pipeline::{ComputePass, ShaderFileView};
use crate::resources::{
    bind_group_view, bound_buffers, buffer_view, layout_view, usage_of, BindGroupId, BindingKind,
    BufferId,
};
use crate::sim::{
    law_setup_is_what_was_asked_for, seed_ops, step_ops, EncoderOp, SimSetup, SimView, SimWorkView,
    UploadView,
};
use crate::single::Single;
use crate::wire::words_bytes;
use vstd::prelude::*;

verus! {

/// What the buffers hold, for any notion `A` of the agents in one half and `T`
/// of the trail in one half.
pub ghost struct World<A, T> {
    pub agents: Map<usize, A>,
    pub trail: Map<usize, T>,
    pub params: Seq<u8>,
    pub camera: Seq<u8>,
}

/// The shaders.
#[verifier::reject_recursive_types(A)]
#[verifier::reject_recursive_types(T)]
pub ghost struct Shaders<A, T> {
    /// Agents seeded by the parameters.
    pub seed: spec_fn(Seq<u8>) -> A,
    /// Agents moved on a trail, and the trail with their deposits on it.
    pub update: spec_fn(A, T, Seq<u8>) -> (A, T),
    /// A trail diffused and decayed.
    pub diffuse: spec_fn(T, Seq<u8>) -> T,
    /// A trail of zeros.
    pub empty: T,
}

/// The slot of a pass's bind group that its shader reads the parameters from.
pub open spec fn params_slot(pass: ComputePass) -> int {
    match pass {
        ComputePass::Init => 1,
        ComputePass::Agents => 2,
        ComputePass::Diffuse => 2,
    }
}

/// The half of the agents that a buffer is.
pub open spec fn agents_half(buffer: BufferId) -> usize {
    buffer->Agents_half
}

/// The half of the trail that a buffer is.
pub open spec fn trail_half(buffer: BufferId) -> usize {
    buffer->Trail_half
}

impl<A, T> World<A, T> {
    /// What a shader reads through a uniform slot with this buffer behind it.
    pub open spec fn uniform(self, buffer: BufferId) -> Seq<u8> {
        match buffer {
            BufferId::Params => self.params,
            BufferId::Camera => self.camera,
            _ => seq![],
        }
    }

    /// An upload, carried out.
    pub open spec fn upload(self, upload: UploadView) -> World<A, T> {
        match upload.buffer {
            BufferId::Params => World { params: upload.bytes, ..self },
            BufferId::Camera => World { camera: upload.bytes, ..self },
            _ => self,
        }
    }

    /// One recorded command, carried out.
    ///
    /// The seeding pass writes the agents in slot 0. The agent pass reads the
    /// agents in slot 0 and the trail in slot 3, and writes the agents in slot
    /// 1 and that trail. The diffuse pass reads the trail in slot 0 and writes
    /// that in slot 1. Each takes its parameters from the buffer in its uniform
    /// slot.
    pub open spec fn run_op(self, shaders: Shaders<A, T>, op: EncoderOp) -> World<A, T> {
        match op {
            EncoderOp::Clear { buffer } => World {
                trail: self.trail.insert(trail_half(buffer), shaders.empty),
                ..self
            },
            EncoderOp::Compute { pass, bind_group, .. } => {
                let bound = bound_buffers(bind_group);
                let params = self.uniform(bound[params_slot(pass)]);
                match pass {
                    ComputePass::Init => World {
                        agents: self.agents.insert(
                            agents_half(bound[0]),
                            (shaders.seed)(params),
                        ),
                        ..self
                    },
                    ComputePass::Agents => {
                        let (moved, marked) = (shaders.update)(
                            self.agents[agents_half(bound[0])],
                            self.trail[trail_half(bound[3])],
                            params,
                        );
                        World {
                            agents: self.agents.insert(agents_half(bound[1]), moved),
                            trail: self.trail.insert(trail_half(bound[3]), marked),
                            ..self
                        }
                    },
                    ComputePass::Diffuse => World {
                        trail: self.trail.insert(
                            trail_half(bound[1]),
                            (shaders.diffuse)(self.trail[trail_half(bound[0])], params),
                        ),
                        ..self
                    },
                }
            },
        }
    }

    /// Recorded commands, carried out in order.
    pub open spec fn run_ops(self, shaders: Shaders<A, T>, ops: Seq<EncoderOp>) -> World<A, T>
        decreases ops.len(),
    {
        if ops.len() == 0 {
            self
        } else {
            self.run_op(shaders, ops[0]).run_ops(shaders, ops.drop_first())
        }
    }

    /// The upload and then the encoder of one call, carried out.
    pub open spec fn run(self, shaders: Shaders<A, T>, work: SimWorkView) -> World<A, T> {
        let uploaded = self.upload(work.upload);
        match work.submission {
            Some(submission) => uploaded.run_ops(shaders, submission.ops),
            None => uploaded,
        }
    }

    /// The live state: the agents and the trail in half `slot`.
    pub open spec fn live(self, slot: usize) -> (A, T) {
        (self.agents[slot], self.trail[slot])
    }
}

/// One step of the model itself, without any halves: the agents sense, steer,
/// move and deposit, and then the trail diffuses and decays.
pub open spec fn model_step<A, T>(
    shaders: Shaders<A, T>,
    state: (A, T),
    params: SimParams,
) -> (A, T) {
    let bytes = words_bytes(params.word_seq());
    let (moved, marked) = (shaders.update)(state.0, state.1, bytes);
    (moved, (shaders.diffuse)(marked, bytes))
}

/// The model's state after a step of each of the durations `dts`, in order.
pub open spec fn model_steps<A, T>(
    shaders: Shaders<A, T>,
    state: (A, T),
    sim: SimView,
    dts: Seq<Single>,
) -> (A, T)
    decreases dts.len(),
{
    if dts.len() == 0 {
        state
    } else {
        model_steps(
            shaders,
            model_step(shaders, state, sim.step_params(dts[0])),
            sim.after_step(dts[0]),
            dts.drop_first(),
        )
    }
}

/// The simulation and the world after a step of each of the durations `dts`.
pub open spec fn run_steps<A, T>(
    shaders: Shaders<A, T>,
    world: World<A, T>,
    sim: SimView,
    dts: Seq<Single>,
) -> (SimView, World<A, T>)
    decreases dts.len(),
{
    if dts.len() == 0 {
        (sim, world)
    } else {
        run_steps(
            shaders,
            world.run(shaders, sim.step_work(dts[0])),
            sim.after_step(dts[0]),
            dts.drop_first(),
        )
    }
}

/// A step takes the live state one step further in the model, whichever half
/// it is in, and what was written is what is live afterwards: one index keeps
/// tracking both pairs.
pub proof fn law_step_advances_live_state<A, T>(
    shaders: Shaders<A, T>,
    world: World<A, T>,
    sim: SimView,
    dt: Single,
)
    requires
        sim.wf(),
        sim.can_step(),
    ensures
        world.run(shaders, sim.step_work(dt)).live(sim.after_step(dt).slot) == model_step(
            shaders,
            world.live(sim.slot),
            sim.step_params(dt),
        ),
        sim.after_step(dt).slot != sim.slot,
        sim.after_step(dt).wf(),
{
    let params = sim.step_params(dt);
    let ops = step_ops(params, sim.slot);
    let uploaded = World { params: words_bytes(params.word_seq()), ..world };
    let moved = uploaded.run_op(shaders, ops[0]);
    assert(ops.drop_first() =~= seq![ops[1]]);
    assert(ops.drop_first().drop_first() =~= seq![]);
    reveal_with_fuel(World::run_ops, 3);
    assert(uploaded.run_ops(shaders, ops) == moved.run_op(shaders, ops[1]));
}

/// Any number of steps takes the live state as many steps further in the
/// model.
pub proof fn law_steps_advance_live_state<A, T>(
    shaders: Shaders<A, T>,
    world: World<A, T>,
    sim: SimView,
    dts: Seq<Single>,
)
    requires
        sim.wf(),
        sim.can_step(),
    ensures
        ({
            let (last_sim, last_world) = run_steps(shaders, world, sim, dts);
            last_world.live(last_sim.slot) == model_steps(
                shaders,
                world.live(sim.slot),
                sim,
                dts,
            )
        }),
    decreases dts.len(),
{
    if dts.len() > 0 {
        law_step_advances_live_state(shaders, world, sim, dts[0]);
        law_steps_advance_live_state(
            shaders,
            world.run(shaders, sim.step_work(dts[0])),
            sim.after_step(dts[0]),
            dts.drop_first(),
        );
    }
}

/// While a pass of the step has no pipeline, a step uploads the next frame's
/// parameters and leaves the world alone.
pub proof fn law_disabled_step_changes_no_state<A, T>(
    shaders: Shaders<A, T>,
    world: World<A, T>,
    sim: SimView,
    dt: Single,
)
    requires
        !sim.can_step(),
    ensures
        sim.after_step(dt).slot == sim.slot,
        world.run(shaders, sim.step_work(dt)).agents == world.agents,
        world.run(shaders, sim.step_work(dt)).trail == world.trail,
        world.run(shaders, sim.step_work(dt)).params == words_bytes(
            sim.step_params(dt).word_seq(),
        ),
{
}

/// A reset, carried out: both halves of the trail are cleared, and the first
/// half of the agents is seeded where the seeding pass has a pipeline.
proof fn lemma_reset_effect<A, T>(shaders: Shaders<A, T>, world: World<A, T>, sim: SimView)
    ensures
        ({
            let fresh = world.run(shaders, sim.reset_work());
            let bytes = words_bytes(sim.params.word_seq());
            &&& fresh.trail == world.trail.insert(0, shaders.empty).insert(1, shaders.empty)
            &&& fresh.agents == (if sim.init_ready {
                world.agents.insert(0, (shaders.seed)(bytes))
            } else {
                world.agents
            })
            &&& fresh.params == bytes
            &&& fresh.camera == world.camera
        }),
{
    let ops = seed_ops(sim.params, sim.init_ready);
    let uploaded = World { params: words_bytes(sim.params.word_seq()), ..world };
    let cleared = uploaded.run_op(shaders, ops[0]).run_op(shaders, ops[1]);
    let rest = ops.drop_first().drop_first();
    reveal_with_fuel(World::run_ops, 4);
    assert(ops.drop_first()[0] == ops[1]);
    assert(uploaded.run_ops(shaders, ops) == cleared.run_ops(shaders, rest));
    if sim.init_ready {
        assert(rest =~= seq![ops[2]]);
        assert(rest.drop_first() =~= seq![]);
        assert(cleared.run_ops(shaders, rest) == cleared.run_op(shaders, ops[2]));
    } else {
        assert(rest =~= seq![]);
    }
}

/// After any reset, nothing is left of either half of the trail.
pub proof fn law_reset_clears_trail<A, T>(
    shaders: Shaders<A, T>,
    world: World<A, T>,
    sim: SimView,
)
    ensures
        world.run(shaders, sim.reset_work()).trail[0] == shaders.empty,
        world.run(shaders, sim.reset_work()).trail[1] == shaders.empty,
{
    lemma_reset_effect(shaders, world, sim);
}

/// After a reset half 0 is live, and its agents are freshly seeded by the
/// parameters in use on an empty trail. Without a seeding pipeline that pass
/// does nothing: the agents stay as they were.
pub proof fn law_reset_starts_afresh<A, T>(
    shaders: Shaders<A, T>,
    world: World<A, T>,
    sim: SimView,
)
    ensures
        ({
            let fresh = world.run(shaders, sim.reset_work());
            &&& sim.after_reset().slot == 0
            &&& sim.init_ready ==> fresh.live(0) == (
                (shaders.seed)(words_bytes(sim.params.word_seq())),
                shaders.empty,
            )
            &&& !sim.init_ready ==> fresh.agents == world.agents
            &&& fresh.params == words_bytes(sim.params.word_seq())
        }),
{
    lemma_reset_effect(shaders, world, sim);
}

/// Whatever a reset comes after, a simulation that is reset twice is as one
/// that is reset once.
pub proof fn law_reset_is_idempotent<A, T>(
    shaders: Shaders<A, T>,
    world: World<A, T>,
    sim: SimView,
)
    ensures
        ({
            let once = world.run(shaders, sim.reset_work());
            let twice = once.run(shaders, sim.after_reset().reset_work());
            &&& sim.after_reset().after_reset() == sim.after_reset()
            &&& twice == once
        }),
{
    let once = world.run(shaders, sim.reset_work());
    let twice = once.run(shaders, sim.after_reset().reset_work());
    lemma_reset_effect(shaders, world, sim);
    lemma_reset_effect(shaders, once, sim.after_reset());
    assert(twice.trail =~= once.trail);
    assert(twice.agents =~= once.agents);
}

/// Two steps bring the live state back to the half it was in.
pub proof fn law_two_steps_restore_slot(sim: SimView, first: Single, second: Single)
    requires
        sim.wf(),
    ensures
        sim.after_step(first).after_step(second).slot == sim.slot,
{
}

/// The frame counter counts steps, taken or not, and starts over at 2^32.
pub proof fn law_frame_counts_steps(sim: SimView, dt: Single)
    ensures
        sim.after_step(dt).params.frame == (sim.params.frame + 1) % 0x1_0000_0000,
        sim.after_step(dt).params.dt == dt,
        sim.after_reset().params == sim.params,
{
}

/// Everything that is written by a copy allows it: the uploads and the clears
/// go to buffers that can be copied to.
pub proof fn law_written_buffers_allow_it(sim: SimView, dt: Single)
    ensures
        usage_of(sim.step_work(dt).upload.buffer).copy_dst,
        usage_of(sim.reset_work().upload.buffer).copy_dst,
        forall|i: int|
            0 <= i < seed_ops(sim.params, sim.init_ready).len() ==> (#[trigger] seed_ops(
                sim.params,
                sim.init_ready,
            )[i] matches EncoderOp::Clear { buffer } ==> usage_of(buffer).copy_dst),
{
}

/// Every pass is dispatched with a bind group made for its own layout.
pub proof fn law_passes_get_their_bind_groups(sim: SimView, dt: Single)
    requires
        sim.wf(),
    ensures
        forall|i: int|
            0 <= i < seed_ops(sim.params, sim.init_ready).len() ==> (#[trigger] seed_ops(
                sim.params,
                sim.init_ready,
            )[i] matches EncoderOp::Compute { pass, bind_group, .. } ==> bind_group.wf()
                && bind_group.layout_id() == pass.layout_id()),
        forall|i: int|
            0 <= i < step_ops(sim.step_params(dt), sim.slot).len() ==> (#[trigger] step_ops(
                sim.step_params(dt),
                sim.slot,
            )[i] matches EncoderOp::Compute { pass, bind_group, .. } ==> bind_group.wf()
                && bind_group.layout_id() == pass.layout_id()),
{
}

/// The parameters that are uploaded fill their buffer exactly.
pub proof fn law_uploads_fill_their_buffer(sim: SimView, dt: Single, n_agents: u32, grid: Seq<u32>)
    ensures
        sim.step_work(dt).upload.bytes.len() == buffer_view(
            sim.step_work(dt).upload.buffer,
            n_agents,
            grid,
        ).size,
        sim.reset_work().upload.bytes.len() == buffer_view(
            sim.reset_work().upload.buffer,
            n_agents,
            grid,
        ).size,
{
}

/// Every compute pass sees the parameters that were uploaded for it: the one
/// uniform slot of its layout is the one its shader reads them from, and behind
/// it is the buffer that steps and resets upload to.
pub proof fn law_passes_see_what_was_uploaded(
    sim: SimView,
    dt: Single,
    pass: ComputePass,
    id: BindGroupId,
    i: int,
)
    requires
        id.wf(),
        bind_group_view(id).layout == pass.layout_id(),
        0 <= i < bind_group_view(id).entries.len(),
    ensures
        layout_view(bind_group_view(id).layout).entries[i].kind == BindingKind::Uniform <==> i
            == params_slot(pass),
        i == params_slot(pass) ==> {
            &&& bind_group_view(id).entries[i].buffer == sim.step_work(dt).upload.buffer
            &&& bind_group_view(id).entries[i].buffer == sim.reset_work().upload.buffer
        },
{
}

/// All that a step does to the buffers: the agents of the live half are moved
/// into the other half, on the trail of the live half, which takes their
/// deposits; that trail is diffused into the other half; and the parameters are
/// the step's. The agents that were live and the camera stay as they are.
pub proof fn law_step_effect<A, T>(
    shaders: Shaders<A, T>,
    world: World<A, T>,
    sim: SimView,
    dt: Single,
)
    requires
        sim.wf(),
        sim.can_step(),
    ensures
        ({
            let after = world.run(shaders, sim.step_work(dt));
            let bytes = words_bytes(sim.after_step(dt).params.word_seq());
            let (moved, marked) = (shaders.update)(
                world.agents[sim.slot],
                world.trail[sim.slot],
                bytes,
            );
            let other: usize = if sim.slot == 0 {
                1
            } else {
                0
            };
            &&& sim.after_step(dt).slot == other
            &&& after.agents[other] == moved
            &&& after.agents[sim.slot] == world.agents[sim.slot]
            &&& after.trail[sim.slot] == marked
            &&& after.trail[other] == (shaders.diffuse)(marked, bytes)
            &&& after.params == bytes
            &&& after.camera == world.camera
        }),
{
    let params = sim.step_params(dt);
    let ops = step_ops(params, sim.slot);
    let uploaded = World { params: words_bytes(params.word_seq()), ..world };
    let moved = uploaded.run_op(shaders, ops[0]);
    assert(ops.drop_first() =~= seq![ops[1]]);
    assert(ops.drop_first().drop_first() =~= seq![]);
    reveal_with_fuel(World::run_ops, 3);
    assert(uploaded.run_ops(shaders, ops) == moved.run_op(shaders, ops[1]));
}

/// All that a reset does to the buffers: both halves of the trail are empty, the
/// half that is live from then on holds agents seeded by the parameters in use
/// where the seeding pass can run, the other half of the agents and the camera
/// stay as they are.
pub proof fn law_reset_effect<A, T>(shaders: Shaders<A, T>, world: World<A, T>, sim: SimView)
    ensures
        ({
            let after = world.run(shaders, sim.reset_work());
            let bytes = words_bytes(sim.params.word_seq());
            &&& after.trail[0] == shaders.empty
            &&& after.trail[1] == shaders.empty
            &&& sim.init_ready ==> after.agents[sim.after_reset().slot] == (shaders.seed)(bytes)
            &&& !sim.init_ready ==> after.agents[0] == world.agents[0]
            &&& after.agents[1] == world.agents[1]
            &&& after.params == bytes
            &&& after.camera == world.camera
        }),
{
    lemma_reset_effect(shaders, world, sim);
}

/// A new simulation starts afresh on whatever the buffers hold: once it is
/// seeded, its live half has agents seeded by its own parameters, where the
/// seeding shader is ready, and the trail is empty.
pub proof fn law_new_simulation_starts_afresh<A, T>(
    shaders: Shaders<A, T>,
    world: World<A, T>,
    setup: SimSetup,
    grid: [u32; 2],
    n_agents: u32,
    world_half: [Single; 2],
    init_rad: Single,
    agents: ShaderFileView,
    diffuse: ShaderFileView,
    init: ShaderFileView,
)
    requires
        setup.sets_up(grid, n_agents, world_half, init_rad, agents, diffuse, init),
    ensures
        ({
            let seeded = world.run(shaders, setup.seed@);
            &&& seeded.trail[0] == shaders.empty
            &&& seeded.trail[1] == shaders.empty
            &&& setup.sim@.init_ready ==> seeded.live(setup.sim@.slot) == (
                (shaders.seed)(words_bytes(setup.sim@.params.word_seq())),
                shaders.empty,
            )
        }),
{
    law_setup_is_what_was_asked_for(
        setup,
        grid,
        n_agents,
        world_half,
        init_rad,
        agents,
        diffuse,
        init,
    );
    law_reset_effect(shaders, world, setup.sim@);
}

} // verus!
