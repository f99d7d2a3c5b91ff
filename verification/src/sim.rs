//! The simulation: which GPU work each step is.

use crate::dispatch::{
    agent_groups, ceil_div, dispatch_2d, dispatch_shape, div_ceil, flat_index,
    law_agent_dispatch_fits, law_dispatch_covers, law_each_agent_dispatched_once,
    law_each_cell_diffused_once, lemma_ceil_div_bounds, DIFFUSE_WORKGROUP, MAX_WORKGROUPS_PER_DIM,
    WORKGROUP_SIZE,
};
use crate::params::{law_parameters_read_back, SimParams};
use crate::pipeline::{
    compute_outcome, compute_pipeline, law_compute_pass_is_gated,
    law_compute_pipeline_runs_its_file, outcome_view, ComputePass, ComputePipelinePlan, ShaderFile,
    ShaderFileView,
};
use crate::resources::{
    bind_group_plan, bind_group_view, buffer_plan, buffer_view, flip, layout_plan, layout_view,
    other_half, trail_bytes, views, BindGroupId, BindGroupPlan, BufferId, BufferPlan, LayoutId,
    LayoutPlan,
};
use crate::shader::declares;
use crate::single::Single;
use crate::wire::{read_word, words_bytes};
use vstd::prelude::*;

verus! {

/// How many workgroups a dispatch has in each dimension.
#[derive(Clone, Copy, Debug, PartialEq, Eq, Structural)]
pub struct Workgroups {
    pub x: u32,
    pub y: u32,
    pub z: u32,
}

/// Something to record in a command encoder.
#[derive(Clone, Copy, Debug, PartialEq, Eq, Structural)]
pub enum EncoderOp {
    /// Set a whole buffer to zero.
    Clear { buffer: BufferId },
    /// One compute pass with one dispatch.
    Compute { pass: ComputePass, bind_group: BindGroupId, groups: Workgroups },
}

/// Bytes to write to the start of a buffer.
#[derive(Debug, PartialEq, Eq)]
pub struct Upload {
    pub buffer: BufferId,
    pub bytes: Vec<u8>,
}

pub ghost struct UploadView {
    pub buffer: BufferId,
    pub bytes: Seq<u8>,
}

impl View for Upload {
    type V = UploadView;

    open spec fn view(&self) -> UploadView {
        UploadView { buffer: self.buffer, bytes: self.bytes@ }
    }
}

/// One encoder to record and submit.
#[derive(Debug, PartialEq, Eq)]
pub struct Submission {
    pub label: &'static str,
    pub ops: Vec<EncoderOp>,
}

pub ghost struct SubmissionView {
    pub label: Seq<char>,
    pub ops: Seq<EncoderOp>,
}

impl View for Submission {
    type V = SubmissionView;

    open spec fn view(&self) -> SubmissionView {
        SubmissionView { label: self.label@, ops: self.ops@ }
    }
}

/// The GPU work of one call: an upload, and then, unless a step lacks a
/// pipeline, one encoder.
#[derive(Debug, PartialEq, Eq)]
pub struct SimWork {
    pub upload: Upload,
    pub submission: Option<Submission>,
}

pub ghost struct SimWorkView {
    pub upload: UploadView,
    pub submission: Option<SubmissionView>,
}

impl View for SimWork {
    type V = SimWorkView;

    open spec fn view(&self) -> SimWorkView {
        SimWorkView {
            upload: self.upload@,
            submission: match self.submission {
                Some(submission) => Some(submission@),
                None => None,
            },
        }
    }
}

/// The dispatch of one invocation per agent. It is rounded up, in both
/// dimensions once it goes 2D, so the shader guards the overhang.
pub open spec fn agent_dispatch(n_agents: u32) -> Workgroups {
    let shape = dispatch_shape(agent_groups(n_agents as int));
    Workgroups { x: shape.0 as u32, y: shape.1 as u32, z: 1 }
}

/// The dispatch of one invocation per trail cell, rounded up.
pub open spec fn diffuse_dispatch(grid: Seq<u32>) -> Workgroups {
    Workgroups {
        x: ceil_div(grid[0] as int, DIFFUSE_WORKGROUP as int) as u32,
        y: ceil_div(grid[1] as int, DIFFUSE_WORKGROUP as int) as u32,
        z: 1,
    }
}

/// The upload of the parameters.
pub open spec fn params_upload(params: SimParams) -> UploadView {
    UploadView { buffer: BufferId::Params, bytes: words_bytes(params.word_seq()) }
}

/// What is recorded to clear the trail and, where the seeding pass has a
/// pipeline, to seed the agents.
pub open spec fn seed_ops(params: SimParams, init_ready: bool) -> Seq<EncoderOp> {
    let clears = seq![
        EncoderOp::Clear { buffer: BufferId::Trail { half: 0 } },
        EncoderOp::Clear { buffer: BufferId::Trail { half: 1 } },
    ];
    if init_ready {
        clears.push(
            EncoderOp::Compute {
                pass: ComputePass::Init,
                bind_group: BindGroupId::InitPass,
                groups: agent_dispatch(params.n_agents),
            },
        )
    } else {
        clears
    }
}

/// What is recorded for one step from the state in half `slot`.
pub open spec fn step_ops(params: SimParams, slot: usize) -> Seq<EncoderOp> {
    seq![
        EncoderOp::Compute {
            pass: ComputePass::Agents,
            bind_group: BindGroupId::AgentPass { half: slot },
            groups: agent_dispatch(params.n_agents),
        },
        EncoderOp::Compute {
            pass: ComputePass::Diffuse,
            bind_group: BindGroupId::DiffusePass { half: slot },
            groups: diffuse_dispatch(params.grid@),
        },
    ]
}

/// The simulation, as far as it is kept on the CPU: the parameters, which
/// passes have a pipeline, and which half of every ping-pong pair currently
/// holds live state.
#[derive(Debug)]
pub struct Sim {
    params: SimParams,
    slot: usize,
    agent_ready: bool,
    diffuse_ready: bool,
    init_ready: bool,
}

pub ghost struct SimView {
    pub params: SimParams,
    pub slot: usize,
    pub agent_ready: bool,
    pub diffuse_ready: bool,
    pub init_ready: bool,
}

impl View for Sim {
    type V = SimView;

    closed spec fn view(&self) -> SimView {
        SimView {
            params: self.params,
            slot: self.slot,
            agent_ready: self.agent_ready,
            diffuse_ready: self.diffuse_ready,
            init_ready: self.init_ready,
        }
    }
}

impl SimView {
    /// There are two halves.
    pub open spec fn wf(self) -> bool {
        self.slot < 2
    }

    /// Both passes of a step have a pipeline.
    pub open spec fn can_step(self) -> bool {
        self.agent_ready && self.diffuse_ready
    }

    /// The simulation after a reset: half 0 is live.
    pub open spec fn after_reset(self) -> SimView {
        SimView { slot: 0, ..self }
    }

    /// The GPU work of a reset.
    pub open spec fn reset_work(self) -> SimWorkView {
        SimWorkView {
            upload: params_upload(self.params),
            submission: Some(
                SubmissionView { label: "seed"@, ops: seed_ops(self.params, self.init_ready) },
            ),
        }
    }

    /// The parameters of a step of `dt` seconds: the next frame's.
    pub open spec fn step_params(self, dt: Single) -> SimParams {
        SimParams { dt, frame: self.params.frame.wrapping_add(1), ..self.params }
    }

    /// The simulation after a step of `dt` seconds. The live half changes where
    /// the step could be taken.
    pub open spec fn after_step(self, dt: Single) -> SimView {
        SimView {
            params: self.step_params(dt),
            slot: if self.can_step() {
                other_half(self.slot)
            } else {
                self.slot
            },
            ..self
        }
    }

    /// The GPU work of a step of `dt` seconds.
    pub open spec fn step_work(self, dt: Single) -> SimWorkView {
        SimWorkView {
            upload: params_upload(self.step_params(dt)),
            submission: if self.can_step() {
                Some(
                    SubmissionView {
                        label: "sim step"@,
                        ops: step_ops(self.step_params(dt), self.slot),
                    },
                )
            } else {
                None
            },
        }
    }
}

/// The shader files of the simulation's passes.
#[derive(Debug)]
pub struct SimShaders {
    pub agents: ShaderFile,
    pub diffuse: ShaderFile,
    pub init: ShaderFile,
}

/// A new simulation, with the GPU resources to create for it, in order, and
/// the work that seeds it.
#[derive(Debug)]
pub struct SimSetup {
    pub sim: Sim,
    pub buffers: Vec<BufferPlan>,
    pub layouts: Vec<LayoutPlan>,
    pub bind_groups: Vec<BindGroupPlan>,
    pub agent_pipeline: Result<ComputePipelinePlan, String>,
    pub diffuse_pipeline: Result<ComputePipelinePlan, String>,
    pub init_pipeline: Result<ComputePipelinePlan, String>,
    pub seed: SimWork,
}

/// The buffers of a simulation.
pub open spec fn sim_buffers() -> Seq<BufferId> {
    seq![
        BufferId::Agents { half: 0 },
        BufferId::Agents { half: 1 },
        BufferId::Trail { half: 0 },
        BufferId::Trail { half: 1 },
        BufferId::Params,
    ]
}

/// The bind group layouts of a simulation.
pub open spec fn sim_layouts() -> Seq<LayoutId> {
    seq![LayoutId::AgentPass, LayoutId::DiffusePass, LayoutId::InitPass]
}

/// The bind groups of a simulation.
pub open spec fn sim_bind_groups() -> Seq<BindGroupId> {
    seq![
        BindGroupId::AgentPass { half: 0 },
        BindGroupId::AgentPass { half: 1 },
        BindGroupId::DiffusePass { half: 0 },
        BindGroupId::DiffusePass { half: 1 },
        BindGroupId::InitPass,
    ]
}

impl SimSetup {
    /// This is what it takes to set up a simulation of `n_agents` agents on a
    /// trail map of `grid` cells, with these shader files.
    pub open spec fn sets_up(
        self,
        grid: [u32; 2],
        n_agents: u32,
        world_half: [Single; 2],
        init_rad: Single,
        agents: ShaderFileView,
        diffuse: ShaderFileView,
        init: ShaderFileView,
    ) -> bool {
        &&& self.sim@.wf()
        &&& self.sim@.params.starts_with(grid, n_agents, world_half, init_rad)
        &&& self.sim@.slot == 0
        &&& self.sim@.agent_ready == self.agent_pipeline is Ok
        &&& self.sim@.diffuse_ready == self.diffuse_pipeline is Ok
        &&& self.sim@.init_ready == self.init_pipeline is Ok
        &&& views(self.buffers@) == sim_buffers().map_values(
            |id: BufferId| buffer_view(id, n_agents, grid@),
        )
        &&& views(self.layouts@) == sim_layouts().map_values(|id: LayoutId| layout_view(id))
        &&& views(self.bind_groups@) == sim_bind_groups().map_values(
            |id: BindGroupId| bind_group_view(id),
        )
        &&& outcome_view(self.agent_pipeline) == compute_outcome(ComputePass::Agents, agents)
        &&& outcome_view(self.diffuse_pipeline) == compute_outcome(ComputePass::Diffuse, diffuse)
        &&& outcome_view(self.init_pipeline) == compute_outcome(ComputePass::Init, init)
        &&& self.seed@ == self.sim@.reset_work()
    }
}

impl Sim {
    /// A simulation of `n_agents` agents on a trail map of `grid` cells.
    ///
    /// There is no CPU-side agent array: the seeding pass fills half 0 of the
    /// agents on the GPU. Both halves of the trail start zeroed, an empty
    /// world. A pass whose shader is not ready has no pipeline, and a notice
    /// in its place.
    pub fn new(
        grid: [u32; 2],
        n_agents: u32,
        world_half: [Single; 2],
        init_rad: Single,
        shaders: SimShaders,
    ) -> (setup: SimSetup)
        requires
            trail_bytes(grid@) <= u64::MAX,
        ensures
            setup.sets_up(
                grid,
                n_agents,
                world_half,
                init_rad,
                shaders.agents@,
                shaders.diffuse@,
                shaders.init@,
            ),
    {
        let params: SimParams = SimParams::new(grid, n_agents, world_half, init_rad);
        let buffers: Vec<BufferPlan> = vec![
            buffer_plan(BufferId::Agents { half: 0 }, n_agents, grid),
            buffer_plan(BufferId::Agents { half: 1 }, n_agents, grid),
            buffer_plan(BufferId::Trail { half: 0 }, n_agents, grid),
            buffer_plan(BufferId::Trail { half: 1 }, n_agents, grid),
            buffer_plan(BufferId::Params, n_agents, grid),
        ];
        let layouts: Vec<LayoutPlan> = vec![
            layout_plan(LayoutId::AgentPass),
            layout_plan(LayoutId::DiffusePass),
            layout_plan(LayoutId::InitPass),
        ];
        let bind_groups: Vec<BindGroupPlan> = vec![
            bind_group_plan(BindGroupId::AgentPass { half: 0 }),
            bind_group_plan(BindGroupId::AgentPass { half: 1 }),
            bind_group_plan(BindGroupId::DiffusePass { half: 0 }),
            bind_group_plan(BindGroupId::DiffusePass { half: 1 }),
            bind_group_plan(BindGroupId::InitPass),
        ];
        let agent_pipeline: Result<ComputePipelinePlan, String> = compute_pipeline(
            ComputePass::Agents,
            shaders.agents,
        );
        let diffuse_pipeline: Result<ComputePipelinePlan, String> = compute_pipeline(
            ComputePass::Diffuse,
            shaders.diffuse,
        );
        let init_pipeline: Result<ComputePipelinePlan, String> = compute_pipeline(
            ComputePass::Init,
            shaders.init,
        );
        let mut sim: Sim = Sim {
            params,
            slot: 0,
            agent_ready: agent_pipeline.is_ok(),
            diffuse_ready: diffuse_pipeline.is_ok(),
            init_ready: init_pipeline.is_ok(),
        };
        let seed: SimWork = sim.reset();
        proof {
            assert(views(buffers@) =~= sim_buffers().map_values(
                |id: BufferId| buffer_view(id, n_agents, grid@),
            ));
            assert(views(layouts@) =~= sim_layouts().map_values(|id: LayoutId| layout_view(id)));
            assert(views(bind_groups@) =~= sim_bind_groups().map_values(
                |id: BindGroupId| bind_group_view(id),
            ));
        }
        SimSetup {
            sim,
            buffers,
            layouts,
            bind_groups,
            agent_pipeline,
            diffuse_pipeline,
            init_pipeline,
            seed,
        }
    }

    /// Seed the agents and clear the trail. Also called from `new`.
    ///
    /// The seeding shader reads the parameters out of the uniform, so they are
    /// uploaded before its dispatch, not on the first step. Without a seeding
    /// pipeline that pass does nothing, and the trail is cleared all the same.
    pub fn reset(&mut self) -> (work: SimWork)
        ensures
            final(self)@ == old(self)@.after_reset(),
            work@ == old(self)@.reset_work(),
    {
        self.slot = 0;
        let upload: Upload = Upload { buffer: BufferId::Params, bytes: self.params.bytes() };
        let mut ops: Vec<EncoderOp> = vec![
            EncoderOp::Clear { buffer: BufferId::Trail { half: 0 } },
            EncoderOp::Clear { buffer: BufferId::Trail { half: 1 } },
        ];
        if self.init_ready {
            let (gx, gy): (u32, u32) = dispatch_2d(div_ceil(self.params.n_agents, WORKGROUP_SIZE));
            ops.push(
                EncoderOp::Compute {
                    pass: ComputePass::Init,
                    bind_group: BindGroupId::InitPass,
                    groups: Workgroups { x: gx, y: gy, z: 1 },
                },
            );
        }
        assert(ops@ =~= seed_ops(self.params, self.init_ready));
        SimWork { upload, submission: Some(Submission { label: "seed", ops }) }
    }

    /// One simulation step: sense / steer / move / deposit, then diffuse +
    /// decay.
    ///
    /// Both passes go in one encoder. wgpu inserts the barrier between them,
    /// so the diffuse pass is guaranteed to see every deposit. Both pairs flip
    /// together: pass 1 writes the other half of the agents and pass 2 the
    /// other half of the trail, so one index keeps tracking both. While either
    /// pass has no pipeline, nothing is recorded and nothing flips.
    pub fn step(&mut self, dt: Single) -> (work: SimWork)
        requires
            old(self)@.wf(),
        ensures
            final(self)@ == old(self)@.after_step(dt),
            final(self)@.wf(),
            work@ == old(self)@.step_work(dt),
    {
        self.params.dt = dt;
        self.params.frame = self.params.frame.wrapping_add(1);
        let upload: Upload = Upload { buffer: BufferId::Params, bytes: self.params.bytes() };
        if !(self.agent_ready && self.diffuse_ready) {
            return SimWork { upload, submission: None };
        }
        let (gx, gy): (u32, u32) = dispatch_2d(div_ceil(self.params.n_agents, WORKGROUP_SIZE));
        let ops: Vec<EncoderOp> = vec![
            EncoderOp::Compute {
                pass: ComputePass::Agents,
                bind_group: BindGroupId::AgentPass { half: self.slot },
                groups: Workgroups { x: gx, y: gy, z: 1 },
            },
            EncoderOp::Compute {
                pass: ComputePass::Diffuse,
                bind_group: BindGroupId::DiffusePass { half: self.slot },
                groups: Workgroups {
                    x: div_ceil(self.params.grid[0], DIFFUSE_WORKGROUP),
                    y: div_ceil(self.params.grid[1], DIFFUSE_WORKGROUP),
                    z: 1,
                },
            },
        ];
        assert(ops@ =~= step_ops(self.params, self.slot));
        self.slot = flip(self.slot);
        SimWork { upload, submission: Some(Submission { label: "sim step", ops }) }
    }

    pub fn params(&self) -> (params: &SimParams)
        ensures
            *params == self@.params,
    {
        &self.params
    }

    pub fn params_mut(&mut self) -> (params: &mut SimParams)
        ensures
            *params == old(self)@.params,
            final(self)@ == (SimView { params: *final(params), ..old(self)@ }),
    {
        &mut self.params
    }

    pub fn n_agents(&self) -> (n: u32)
        ensures
            n == self@.params.n_agents,
    {
        self.params.n_agents
    }

    /// Which half of each ping-pong pair holds live state: what the renderer
    /// should read.
    pub fn current_slot(&self) -> (slot: usize)
        ensures
            slot == self@.slot,
    {
        self.slot
    }

    /// The halves of the agents.
    pub fn agent_buffers(&self) -> (buffers: [BufferId; 2])
        ensures
            buffers@ == seq![BufferId::Agents { half: 0 }, BufferId::Agents { half: 1 }],
    {
        [BufferId::Agents { half: 0 }, BufferId::Agents { half: 1 }]
    }

    /// The halves of the trail map.
    pub fn trail_buffers(&self) -> (buffers: [BufferId; 2])
        ensures
            buffers@ == seq![BufferId::Trail { half: 0 }, BufferId::Trail { half: 1 }],
    {
        [BufferId::Trail { half: 0 }, BufferId::Trail { half: 1 }]
    }

    /// The uniform that holds the parameters.
    pub fn params_buffer(&self) -> (buffer: BufferId)
        ensures
            buffer == BufferId::Params,
    {
        BufferId::Params
    }
}

/// The agents are dispatched in the shape that their number asks for, within
/// the limit of each dimension, whatever their number.
pub proof fn law_agent_dispatch_is_exact(n_agents: u32)
    ensures
        ({
            let groups = agent_dispatch(n_agents);
            &&& (groups.x as int, groups.y as int) == dispatch_shape(agent_groups(n_agents as int))
            &&& groups.x <= MAX_WORKGROUPS_PER_DIM
            &&& groups.y <= MAX_WORKGROUPS_PER_DIM
            &&& groups.z == 1
        }),
{
    law_agent_dispatch_fits(n_agents);
}

/// The trail is dispatched in one workgroup per eight cells either way, and
/// stays within the limit of each dimension while no side of the map has more
/// than 65535 * 8 = 524,280 cells.
pub proof fn law_diffuse_dispatch_is_exact(grid: Seq<u32>)
    ensures
        ({
            let groups = diffuse_dispatch(grid);
            &&& groups.x == ceil_div(grid[0] as int, DIFFUSE_WORKGROUP as int)
            &&& groups.y == ceil_div(grid[1] as int, DIFFUSE_WORKGROUP as int)
            &&& groups.x <= MAX_WORKGROUPS_PER_DIM <==> grid[0] <= 524_280
            &&& groups.y <= MAX_WORKGROUPS_PER_DIM <==> grid[1] <= 524_280
            &&& groups.z == 1
        }),
{
    lemma_ceil_div_bounds(grid[0] as int, DIFFUSE_WORKGROUP as int);
    lemma_ceil_div_bounds(grid[1] as int, DIFFUSE_WORKGROUP as int);
}

/// A step moves the time on and nothing else: of the parameters only `dt` and
/// the frame change, and no pass gains or loses its pipeline.
pub proof fn law_step_changes_time_alone(sim: SimView, dt: Single)
    ensures
        ({
            let (before, after) = (sim.params, sim.after_step(dt).params);
            &&& after.dt == dt
            &&& after.frame == (before.frame + 1) % 0x1_0000_0000
            &&& after.grid == before.grid
            &&& after.n_agents == before.n_agents
            &&& after.world_half == before.world_half
            &&& after.sensor_angle == before.sensor_angle
            &&& after.sensor_dist == before.sensor_dist
            &&& after.turn_speed == before.turn_speed
            &&& after.move_speed == before.move_speed
            &&& after.sensitivity == before.sensitivity
            &&& after.deposit == before.deposit
            &&& after.decay_rate == before.decay_rate
            &&& after.diffuse_rate == before.diffuse_rate
            &&& after.row_width == before.row_width
            &&& after.init_rad == before.init_rad
            &&& after._pad == before._pad
        }),
        sim.after_step(dt).agent_ready == sim.agent_ready,
        sim.after_step(dt).diffuse_ready == sim.diffuse_ready,
        sim.after_step(dt).init_ready == sim.init_ready,
{
}

/// The shaders of a step work with its time and frame, and otherwise with the
/// parameters there were: that is what is read of the bytes it uploads.
pub proof fn law_step_uploads_its_parameters(sim: SimView, dt: Single)
    ensures
        ({
            let upload = sim.step_work(dt).upload;
            let before = sim.params;
            &&& upload.buffer == BufferId::Params
            &&& upload.bytes.len() == 80
            &&& read_word(upload.bytes, 0) == before.grid@[0]
            &&& read_word(upload.bytes, 1) == before.grid@[1]
            &&& read_word(upload.bytes, 2) == before.n_agents
            &&& read_word(upload.bytes, 3) == (before.frame + 1) % 0x1_0000_0000
            &&& read_word(upload.bytes, 4) == before.world_half@[0].bits
            &&& read_word(upload.bytes, 5) == before.world_half@[1].bits
            &&& read_word(upload.bytes, 6) == dt.bits
            &&& read_word(upload.bytes, 7) == before.sensor_angle.bits
            &&& read_word(upload.bytes, 8) == before.sensor_dist.bits
            &&& read_word(upload.bytes, 9) == before.turn_speed.bits
            &&& read_word(upload.bytes, 10) == before.move_speed.bits
            &&& read_word(upload.bytes, 11) == before.sensitivity.bits
            &&& read_word(upload.bytes, 12) == before.deposit.bits
            &&& read_word(upload.bytes, 13) == before.decay_rate.bits
            &&& read_word(upload.bytes, 14) == before.diffuse_rate.bits
            &&& read_word(upload.bytes, 15) == before.row_width
            &&& read_word(upload.bytes, 16) == before.init_rad.bits
            &&& read_word(upload.bytes, 17) == before._pad@[0].bits
            &&& read_word(upload.bytes, 18) == before._pad@[1].bits
            &&& read_word(upload.bytes, 19) == before._pad@[2].bits
        }),
{
    let after = sim.after_step(dt).params;
    law_step_changes_time_alone(sim, dt);
    law_parameters_read_back(after);
    assert(sim.step_work(dt).upload.bytes == words_bytes(after.word_seq()));
}

/// A reset changes which half is live and nothing else.
pub proof fn law_reset_changes_the_half_alone(sim: SimView)
    ensures
        sim.after_reset().slot == 0,
        sim.after_reset().params == sim.params,
        sim.after_reset().agent_ready == sim.agent_ready,
        sim.after_reset().diffuse_ready == sim.diffuse_ready,
        sim.after_reset().init_ready == sim.init_ready,
{
}

/// The seeding shader works with the parameters there are: that is what is read
/// of the bytes that a reset uploads.
pub proof fn law_reset_uploads_the_parameters(sim: SimView)
    ensures
        ({
            let upload = sim.reset_work().upload;
            let params = sim.params;
            &&& upload.buffer == BufferId::Params
            &&& upload.bytes.len() == 80
            &&& read_word(upload.bytes, 0) == params.grid@[0]
            &&& read_word(upload.bytes, 1) == params.grid@[1]
            &&& read_word(upload.bytes, 2) == params.n_agents
            &&& read_word(upload.bytes, 3) == params.frame
            &&& read_word(upload.bytes, 4) == params.world_half@[0].bits
            &&& read_word(upload.bytes, 5) == params.world_half@[1].bits
            &&& read_word(upload.bytes, 6) == params.dt.bits
            &&& read_word(upload.bytes, 7) == params.sensor_angle.bits
            &&& read_word(upload.bytes, 8) == params.sensor_dist.bits
            &&& read_word(upload.bytes, 9) == params.turn_speed.bits
            &&& read_word(upload.bytes, 10) == params.move_speed.bits
            &&& read_word(upload.bytes, 11) == params.sensitivity.bits
            &&& read_word(upload.bytes, 12) == params.deposit.bits
            &&& read_word(upload.bytes, 13) == params.decay_rate.bits
            &&& read_word(upload.bytes, 14) == params.diffuse_rate.bits
            &&& read_word(upload.bytes, 15) == params.row_width
            &&& read_word(upload.bytes, 16) == params.init_rad.bits
            &&& read_word(upload.bytes, 17) == params._pad@[0].bits
            &&& read_word(upload.bytes, 18) == params._pad@[1].bits
            &&& read_word(upload.bytes, 19) == params._pad@[2].bits
        }),
{
    law_parameters_read_back(sim.params);
}

/// A step records the agent pass and then the diffuse pass in one encoder, where
/// both have a pipeline, and otherwise nothing.
pub proof fn law_step_records_both_passes(sim: SimView, dt: Single)
    ensures
        sim.step_work(dt).submission is Some <==> sim.agent_ready && sim.diffuse_ready,
        sim.step_work(dt).submission matches Some(encoder) ==> {
            &&& encoder.label == "sim step"@
            &&& encoder.ops.len() == 2
            &&& encoder.ops[0] matches EncoderOp::Compute { pass, .. } && pass
                == ComputePass::Agents
            &&& encoder.ops[1] matches EncoderOp::Compute { pass, .. } && pass
                == ComputePass::Diffuse
        },
{
}

/// A reset records the clearing of both halves of the trail in one encoder, and
/// after it the seeding pass where that has a pipeline.
pub proof fn law_reset_records_clears_and_seeding(sim: SimView)
    ensures
        sim.reset_work().submission matches Some(encoder) && {
            &&& encoder.label == "seed"@
            &&& encoder.ops.len() == (if sim.init_ready {
                3
            } else {
                2int
            })
            &&& encoder.ops[0] matches EncoderOp::Clear { buffer } && buffer == (
            BufferId::Trail { half: 0 })
            &&& encoder.ops[1] matches EncoderOp::Clear { buffer } && buffer == (
            BufferId::Trail { half: 1 })
            &&& sim.init_ready ==> (encoder.ops[2] matches EncoderOp::Compute { pass, .. } && pass
                == ComputePass::Init)
        },
{
}

/// One invocation of a dispatch in workgroups of 64, in rows of `row_width`, and
/// no other, has the flat index of `agent`.
pub open spec fn reaches_once(groups: Workgroups, row_width: int, agent: int) -> bool {
    &&& groups.z == 1
    &&& exists|x: int, y: int|
        0 <= x < 64 * groups.x && 0 <= y < groups.y && #[trigger] flat_index(x, y, row_width)
            == agent
    &&& forall|x: int, y: int, x2: int, y2: int|
        0 <= x < 64 * groups.x && 0 <= x2 < 64 * groups.x && #[trigger] flat_index(
            x,
            y,
            row_width,
        ) == agent && #[trigger] flat_index(x2, y2, row_width) == agent ==> x == x2 && y == y2
}

/// Every agent is seeded by a reset and moved by a step: the seeding pass and
/// the agent pass hold exactly one invocation for it, by the row width that a
/// fresh simulation of as many agents uploads. No dimension is over its limit,
/// and no row is dispatched for nothing.
pub proof fn law_every_agent_is_reached(
    sim: SimView,
    dt: Single,
    fresh: SimParams,
    world_half: [Single; 2],
    init_rad: Single,
    grid: [u32; 2],
    agent: int,
)
    requires
        fresh.starts_with(grid, sim.params.n_agents, world_half, init_rad),
        0 <= agent < sim.params.n_agents,
    ensures
        sim.init_ready ==> (sim.reset_work().submission matches Some(encoder) && (
        encoder.ops[2] matches EncoderOp::Compute { pass, groups, .. } && {
            &&& pass == ComputePass::Init
            &&& reaches_once(groups, fresh.row_width as int, agent)
            &&& groups.x <= 65535 && groups.y <= 65535
            &&& (groups.y - 1) * fresh.row_width < sim.params.n_agents
        })),
        sim.can_step() ==> (sim.step_work(dt).submission matches Some(encoder) && (
        encoder.ops[0] matches EncoderOp::Compute { pass, groups, .. } && {
            &&& pass == ComputePass::Agents
            &&& reaches_once(groups, fresh.row_width as int, agent)
            &&& groups.x <= 65535 && groups.y <= 65535
            &&& (groups.y - 1) * fresh.row_width < sim.params.n_agents
        })),
{
    let n = sim.params.n_agents;
    let groups = agent_dispatch(n);
    let width = fresh.row_width as int;
    let total = agent_groups(n as int);
    law_agent_dispatch_is_exact(n);
    law_agent_dispatch_fits(n);
    law_each_agent_dispatched_once(n as int, agent);
    law_dispatch_covers(total);
    lemma_ceil_div_bounds(n as int, WORKGROUP_SIZE as int);
    let (gx, gy) = (groups.x as int, groups.y as int);
    assert(width == 64 * gx);
    assert(flat_index(agent % width, agent / width, width) == agent);
    assert(reaches_once(groups, width, agent));
    assert((gy - 1) * width < n) by (nonlinear_arith)
        requires
            width == 64 * gx,
            gx * gy < total + gx,
            total * 64 < n + 64,
    ;
}

/// Every cell of the trail is diffused by a step: along each side of the map,
/// one workgroup of eight and one place in it are the cell's, no others are,
/// and no workgroup lies beyond the map.
pub proof fn law_every_cell_is_reached(sim: SimView, dt: Single, x: int, y: int)
    requires
        sim.can_step(),
        0 <= x < sim.params.grid@[0],
        0 <= y < sim.params.grid@[1],
    ensures
        sim.step_work(dt).submission matches Some(encoder) && (
        encoder.ops[1] matches EncoderOp::Compute { pass, groups, .. } && {
            &&& pass == ComputePass::Diffuse
            &&& groups.z == 1
            &&& exists|g: int, l: int|
                0 <= g < groups.x && 0 <= l < 8 && #[trigger] flat_index(l, g, 8) == x
            &&& exists|g: int, l: int|
                0 <= g < groups.y && 0 <= l < 8 && #[trigger] flat_index(l, g, 8) == y
            &&& 8 * (groups.x - 1) < sim.params.grid@[0] <= 8 * groups.x
            &&& 8 * (groups.y - 1) < sim.params.grid@[1] <= 8 * groups.y
        }),
{
    let (w, h) = (sim.params.grid@[0] as int, sim.params.grid@[1] as int);
    law_diffuse_dispatch_is_exact(sim.params.grid@);
    law_each_cell_diffused_once(w, h, x, y);
    lemma_ceil_div_bounds(w, 8);
    lemma_ceil_div_bounds(h, 8);
    assert(flat_index(x % 8, x / 8, 8) == x);
    assert(flat_index(y % 8, y / 8, 8) == y);
}

/// A simulation is set up as it was asked for: half 0 is live, the parameters
/// are fresh ones, a pass can run exactly when its shader declares `@compute`,
/// and the work that seeds it is that of a reset.
pub proof fn law_setup_is_what_was_asked_for(
    setup: SimSetup,
    grid: [u32; 2],
    n_agents: u32,
    world_half: [Single; 2],
    init_rad: Single,
    agents: ShaderFileView,
    diffuse: ShaderFileView,
    init: ShaderFileView,
)
    requires
        setup.sets_up(grid, n_agents, world_half, init_rad, agents, diffuse, init),
    ensures
        setup.sim@.slot == 0,
        setup.sim@.params.starts_with(grid, n_agents, world_half, init_rad),
        setup.sim@.agent_ready <==> (agents.read matches Ok(source) && declares(
            source,
            "@compute"@,
        )),
        setup.sim@.diffuse_ready <==> (diffuse.read matches Ok(source) && declares(
            source,
            "@compute"@,
        )),
        setup.sim@.init_ready <==> (init.read matches Ok(source) && declares(
            source,
            "@compute"@,
        )),
        setup.agent_pipeline matches Ok(plan) ==> plan.pass == ComputePass::Agents && agents.read
            == Ok::<Seq<char>, Seq<char>>(plan.source@),
        setup.diffuse_pipeline matches Ok(plan) ==> plan.pass == ComputePass::Diffuse
            && diffuse.read == Ok::<Seq<char>, Seq<char>>(plan.source@),
        setup.init_pipeline matches Ok(plan) ==> plan.pass == ComputePass::Init && init.read
            == Ok::<Seq<char>, Seq<char>>(plan.source@),
        outcome_view(setup.agent_pipeline) == compute_outcome(ComputePass::Agents, agents),
        outcome_view(setup.diffuse_pipeline) == compute_outcome(ComputePass::Diffuse, diffuse),
        outcome_view(setup.init_pipeline) == compute_outcome(ComputePass::Init, init),
        setup.agent_pipeline is Ok <==> setup.sim@.agent_ready,
        setup.diffuse_pipeline is Ok <==> setup.sim@.diffuse_ready,
        setup.init_pipeline is Ok <==> setup.sim@.init_ready,
        setup.seed@ == setup.sim@.reset_work(),
{
    law_compute_pass_is_gated(ComputePass::Agents, agents);
    law_compute_pass_is_gated(ComputePass::Diffuse, diffuse);
    law_compute_pass_is_gated(ComputePass::Init, init);
    law_compute_pipeline_runs_its_file(ComputePass::Agents, agents);
    law_compute_pipeline_runs_its_file(ComputePass::Diffuse, diffuse);
    law_compute_pipeline_runs_its_file(ComputePass::Init, init);
}

/// A setup creates all that its passes use, and each once: every buffer but the
/// camera's, as large as it has to be, and the layout and the bind groups of
/// every compute pass.
pub proof fn law_setup_creates_what_is_used(
    setup: SimSetup,
    grid: [u32; 2],
    n_agents: u32,
    world_half: [Single; 2],
    init_rad: Single,
    agents: ShaderFileView,
    diffuse: ShaderFileView,
    init: ShaderFileView,
)
    requires
        setup.sets_up(grid, n_agents, world_half, init_rad, agents, diffuse, init),
    ensures
        setup.buffers@.len() == 5,
        setup.layouts@.len() == 3,
        setup.bind_groups@.len() == 5,
        forall|id: BufferId|
            #![trigger id.wf()]
            id.wf() && !(id is Camera) ==> exists|i: int|
                0 <= i < 5 && (#[trigger] setup.buffers@[i]).id == id,
        forall|i: int, j: int|
            0 <= i < j < 5 ==> (#[trigger] setup.buffers@[i]).id != (
            #[trigger] setup.buffers@[j]).id,
        forall|i: int|
            0 <= i < 5 ==> (#[trigger] setup.buffers@[i])@ == buffer_view(
                setup.buffers@[i].id,
                n_agents,
                grid@,
            ),
        forall|id: BindGroupId|
            #![trigger id.wf()]
            id.wf() && !(id is TrailDraw) && !(id is AgentDraw) ==> exists|i: int|
                0 <= i < 5 && (#[trigger] setup.bind_groups@[i]).id == id,
        forall|i: int|
            0 <= i < 5 ==> (#[trigger] setup.bind_groups@[i])@ == bind_group_view(
                setup.bind_groups@[i].id,
            ),
        forall|i: int|
            0 <= i < 5 ==> exists|k: int|
                0 <= k < 3 && (#[trigger] setup.layouts@[k]).id == (
                #[trigger] setup.bind_groups@[i]).layout,
        forall|k: int|
            0 <= k < 3 ==> (#[trigger] setup.layouts@[k])@ == layout_view(setup.layouts@[k].id),
{
    let (b, l, g) = (setup.buffers@, setup.layouts@, setup.bind_groups@);
    assert(b.len() == views(b).len() && l.len() == views(l).len() && g.len() == views(g).len());
    assert forall|i: int| 0 <= i < 5 implies (#[trigger] b[i])@ == buffer_view(
        sim_buffers()[i],
        n_agents,
        grid@,
    ) by {
        assert(views(b)[i] == b[i]@);
    }
    assert forall|i: int| 0 <= i < 5 implies (#[trigger] g[i])@ == bind_group_view(
        sim_bind_groups()[i],
    ) by {
        assert(views(g)[i] == g[i]@);
    }
    assert forall|k: int| 0 <= k < 3 implies (#[trigger] l[k])@ == layout_view(
        sim_layouts()[k],
    ) by {
        assert(views(l)[k] == l[k]@);
    }
    assert(b[0].id == sim_buffers()[0] && b[1].id == sim_buffers()[1] && b[2].id
        == sim_buffers()[2] && b[3].id == sim_buffers()[3] && b[4].id == sim_buffers()[4]);
    assert(g[0].id == sim_bind_groups()[0] && g[1].id == sim_bind_groups()[1] && g[2].id
        == sim_bind_groups()[2] && g[3].id == sim_bind_groups()[3] && g[4].id
        == sim_bind_groups()[4]);
    assert(l[0].id == LayoutId::AgentPass && l[1].id == LayoutId::DiffusePass && l[2].id
        == LayoutId::InitPass);
}

} // verus!
