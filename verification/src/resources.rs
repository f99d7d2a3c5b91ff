//! The GPU resources: which buffers there are, how shaders see them, and which
//! are bound to which pass.

use crate::agent::AGENT_BYTES;
use crate::camera::CAMERA_BYTES;
use crate::params::SIM_PARAMS_BYTES;
use vstd::prelude::*;

verus! {

/// Trail channels per cell. Four, because a `vec4<f32>` is the natural GPU
/// unit and costs the same as one float: the spare three are what multiple
/// species will deposit into.
pub const TRAIL_CHANNELS: u64 = 4;

/// Size of one channel of one trail cell, in bytes.
pub const CHANNEL_BYTES: u64 = 4;

/// One of the buffers. Agents and trail are ping-ponged: there are two halves
/// of each, numbered 0 and 1.
#[derive(Clone, Copy, Debug, PartialEq, Eq, Structural)]
pub enum BufferId {
    Agents { half: usize },
    Trail { half: usize },
    Params,
    Camera,
}

impl BufferId {
    /// A half is 0 or 1.
    pub open spec fn wf(self) -> bool {
        match self {
            BufferId::Agents { half } => half < 2,
            BufferId::Trail { half } => half < 2,
            BufferId::Params => true,
            BufferId::Camera => true,
        }
    }
}

/// What a buffer may be used for.
#[derive(Clone, Copy, Debug, PartialEq, Eq, Structural)]
pub struct BufferUsage {
    pub uniform: bool,
    pub storage: bool,
    pub copy_src: bool,
    pub copy_dst: bool,
}

/// A buffer to create.
#[derive(Clone, Copy, Debug, PartialEq, Eq)]
pub struct BufferPlan {
    pub id: BufferId,
    pub label: &'static str,
    pub size: u64,
    pub usage: BufferUsage,
    pub mapped_at_creation: bool,
}

pub ghost struct BufferView {
    pub id: BufferId,
    pub label: Seq<char>,
    pub size: int,
    pub usage: BufferUsage,
    pub mapped_at_creation: bool,
}

impl View for BufferPlan {
    type V = BufferView;

    open spec fn view(&self) -> BufferView {
        BufferView {
            id: self.id,
            label: self.label@,
            size: self.size as int,
            usage: self.usage,
            mapped_at_creation: self.mapped_at_creation,
        }
    }
}

/// Size of a buffer of `n_agents` agents, in bytes.
pub open spec fn agents_bytes(n_agents: u32) -> int {
    n_agents * AGENT_BYTES
}

/// Size of a trail map of `grid` cells, in bytes.
pub open spec fn trail_bytes(grid: Seq<u32>) -> int {
    grid[0] * grid[1] * TRAIL_CHANNELS * CHANNEL_BYTES
}

/// The buffer `id` of a simulation of `n_agents` agents on a trail map of
/// `grid` cells.
pub open spec fn buffer_view(id: BufferId, n_agents: u32, grid: Seq<u32>) -> BufferView {
    BufferView {
        id,
        label: buffer_label_text(id),
        size: match id {
            BufferId::Agents { .. } => agents_bytes(n_agents),
            BufferId::Trail { .. } => trail_bytes(grid),
            BufferId::Params => SIM_PARAMS_BYTES as int,
            BufferId::Camera => CAMERA_BYTES as int,
        },
        usage: usage_of(id),
        mapped_at_creation: false,
    }
}

/// What a buffer is called.
pub open spec fn buffer_label_text(id: BufferId) -> Seq<char> {
    match id {
        BufferId::Agents { half } => if half == 0 {
            "agents A"@
        } else {
            "agents B"@
        },
        BufferId::Trail { half } => if half == 0 {
            "trail A"@
        } else {
            "trail B"@
        },
        BufferId::Params => "sim params"@,
        BufferId::Camera => "camera uniform"@,
    }
}

/// What each buffer is used for. The agents are read back by copies too; a
/// storage buffer needs no vertex usage to be pulled from a vertex stage.
pub open spec fn usage_of(id: BufferId) -> BufferUsage {
    match id {
        BufferId::Agents { .. } => BufferUsage {
            uniform: false,
            storage: true,
            copy_src: true,
            copy_dst: true,
        },
        BufferId::Trail { .. } => BufferUsage {
            uniform: false,
            storage: true,
            copy_src: false,
            copy_dst: true,
        },
        BufferId::Params => BufferUsage {
            uniform: true,
            storage: false,
            copy_src: false,
            copy_dst: true,
        },
        BufferId::Camera => BufferUsage {
            uniform: true,
            storage: false,
            copy_src: false,
            copy_dst: true,
        },
    }
}

/// The buffer `id` of a simulation of `n_agents` agents on a trail map of
/// `grid` cells.
pub fn buffer_plan(id: BufferId, n_agents: u32, grid: [u32; 2]) -> (plan: BufferPlan)
    requires
        id is Trail ==> trail_bytes(grid@) <= u64::MAX,
    ensures
        plan@ == buffer_view(id, n_agents, grid@),
{
    match id {
        BufferId::Agents { half } => BufferPlan {
            id,
            label: if half == 0 {
                "agents A"
            } else {
                "agents B"
            },
            size: n_agents as u64 * AGENT_BYTES,
            usage: BufferUsage { uniform: false, storage: true, copy_src: true, copy_dst: true },
            mapped_at_creation: false,
        },
        BufferId::Trail { half } => {
            let cells: u64 = grid_cells(grid);
            BufferPlan {
                id,
                label: if half == 0 {
                    "trail A"
                } else {
                    "trail B"
                },
                size: cells * TRAIL_CHANNELS * CHANNEL_BYTES,
                usage: BufferUsage {
                    uniform: false,
                    storage: true,
                    copy_src: false,
                    copy_dst: true,
                },
                mapped_at_creation: false,
            }
        },
        BufferId::Params => BufferPlan {
            id,
            label: "sim params",
            size: SIM_PARAMS_BYTES,
            usage: BufferUsage { uniform: true, storage: false, copy_src: false, copy_dst: true },
            mapped_at_creation: false,
        },
        BufferId::Camera => BufferPlan {
            id,
            label: "camera uniform",
            size: CAMERA_BYTES,
            usage: BufferUsage { uniform: true, storage: false, copy_src: false, copy_dst: true },
            mapped_at_creation: false,
        },
    }
}

/// The number of cells of a trail map.
fn grid_cells(grid: [u32; 2]) -> (cells: u64)
    ensures
        cells == grid[0] * grid[1],
{
    let (w, h): (u32, u32) = (grid[0], grid[1]);
    assert(w * h <= 0xffff_ffff * 0xffff_ffff) by (nonlinear_arith)
        requires
            w <= 0xffff_ffff,
            h <= 0xffff_ffff,
    ;
    w as u64 * h as u64
}

/// The shader stages that see a binding.
#[derive(Clone, Copy, Debug, PartialEq, Eq, Structural)]
pub struct Stages {
    pub vertex: bool,
    pub fragment: bool,
    pub compute: bool,
}

/// How a shader sees a buffer.
#[derive(Clone, Copy, Debug, PartialEq, Eq, Structural)]
pub enum BindingKind {
    Uniform,
    Storage { read_only: bool },
}

/// One entry of a bind group layout: a single buffer.
#[derive(Clone, Copy, Debug, PartialEq, Eq, Structural)]
pub struct LayoutEntry {
    pub binding: u32,
    pub visibility: Stages,
    pub kind: BindingKind,
    pub has_dynamic_offset: bool,
    /// The least size of the buffer that is bound, if there is one.
    pub min_binding_size: Option<u64>,
}

/// An entry for a storage buffer.
pub open spec fn storage_at(binding: u32, read_only: bool, visibility: Stages) -> LayoutEntry {
    LayoutEntry {
        binding,
        visibility,
        kind: BindingKind::Storage { read_only },
        has_dynamic_offset: false,
        min_binding_size: None,
    }
}

/// An entry for a uniform buffer.
pub open spec fn uniform_at(binding: u32, visibility: Stages) -> LayoutEntry {
    LayoutEntry {
        binding,
        visibility,
        kind: BindingKind::Uniform,
        has_dynamic_offset: false,
        min_binding_size: None,
    }
}

/// A layout entry for a storage buffer.
pub fn storage_entry(binding: u32, read_only: bool, visibility: Stages) -> (entry: LayoutEntry)
    ensures
        entry == storage_at(binding, read_only, visibility),
{
    LayoutEntry {
        binding,
        visibility,
        kind: BindingKind::Storage { read_only },
        has_dynamic_offset: false,
        min_binding_size: None,
    }
}

/// A layout entry for a uniform buffer.
pub fn uniform_entry(binding: u32, visibility: Stages) -> (entry: LayoutEntry)
    ensures
        entry == uniform_at(binding, visibility),
{
    LayoutEntry {
        binding,
        visibility,
        kind: BindingKind::Uniform,
        has_dynamic_offset: false,
        min_binding_size: None,
    }
}

/// Compute shaders alone.
pub open spec fn compute_only() -> Stages {
    Stages { vertex: false, fragment: false, compute: true }
}

/// Vertex and fragment shaders.
pub open spec fn vertex_fragment() -> Stages {
    Stages { vertex: true, fragment: true, compute: false }
}

/// Fragment shaders alone.
pub open spec fn fragment_only() -> Stages {
    Stages { vertex: false, fragment: true, compute: false }
}

/// Vertex shaders alone.
pub open spec fn vertex_only() -> Stages {
    Stages { vertex: true, fragment: false, compute: false }
}

/// One of the bind group layouts, by the pass it is for.
#[derive(Clone, Copy, Debug, PartialEq, Eq, Structural)]
pub enum LayoutId {
    AgentPass,
    DiffusePass,
    InitPass,
    TrailDraw,
    AgentDraw,
}

/// A bind group layout to create.
#[derive(Debug, PartialEq, Eq)]
pub struct LayoutPlan {
    pub id: LayoutId,
    pub label: &'static str,
    pub entries: Vec<LayoutEntry>,
}

pub ghost struct LayoutView {
    pub id: LayoutId,
    pub label: Seq<char>,
    pub entries: Seq<LayoutEntry>,
}

impl View for LayoutPlan {
    type V = LayoutView;

    open spec fn view(&self) -> LayoutView {
        LayoutView { id: self.id, label: self.label@, entries: self.entries@ }
    }
}

/// What the shaders of a pass see.
///
/// The agent pass senses the trail and deposits on it in the same dispatch.
/// That is a deliberate race: an agent may or may not see a deposit made by
/// another agent in the same step. The diffuse pass launders it. The diffuse
/// pass itself is a stencil, so it reads one half of the trail and writes the
/// other.
pub open spec fn layout_entries(id: LayoutId) -> Seq<LayoutEntry> {
    match id {
        LayoutId::AgentPass => seq![
            storage_at(0, false, compute_only()),  // agents src
            storage_at(1, false, compute_only()),  // agents dst
            uniform_at(2, compute_only()),  // params
            storage_at(3, false, compute_only()),  // trail: sense + deposit
        ],
        LayoutId::DiffusePass => seq![
            storage_at(0, true, compute_only()),  // trail src
            storage_at(1, false, compute_only()),  // trail dst
            uniform_at(2, compute_only()),  // params
        ],
        LayoutId::InitPass => seq![
            storage_at(0, false, compute_only()),  // agents
            uniform_at(1, compute_only()),  // params
        ],
        LayoutId::TrailDraw => seq![
            uniform_at(0, vertex_fragment()),  // camera
            storage_at(1, true, fragment_only()),  // trail
            uniform_at(2, vertex_fragment()),  // params
        ],
        LayoutId::AgentDraw => seq![
            uniform_at(0, vertex_fragment()),  // camera
            storage_at(1, true, vertex_only()),  // agents
        ],
    }
}

/// What a layout is called.
pub open spec fn layout_label(id: LayoutId) -> Seq<char> {
    match id {
        LayoutId::AgentPass => "agent pass bgl"@,
        LayoutId::DiffusePass => "diffuse pass bgl"@,
        LayoutId::InitPass => "init pass bgl"@,
        LayoutId::TrailDraw => "trail render bgl"@,
        LayoutId::AgentDraw => "agent render bgl"@,
    }
}

/// The bind group layout `id`.
pub open spec fn layout_view(id: LayoutId) -> LayoutView {
    LayoutView { id, label: layout_label(id), entries: layout_entries(id) }
}

/// The bind group layout `id`.
pub fn layout_plan(id: LayoutId) -> (plan: LayoutPlan)
    ensures
        plan@ == layout_view(id),
{
    let comp: Stages = Stages { vertex: false, fragment: false, compute: true };
    let drawn: Stages = Stages { vertex: true, fragment: true, compute: false };
    let plan: LayoutPlan = match id {
        LayoutId::AgentPass => LayoutPlan {
            id,
            label: "agent pass bgl",
            entries: vec![
                storage_entry(0, false, comp),
                storage_entry(1, false, comp),
                uniform_entry(2, comp),
                storage_entry(3, false, comp),
            ],
        },
        LayoutId::DiffusePass => LayoutPlan {
            id,
            label: "diffuse pass bgl",
            entries: vec![
                storage_entry(0, true, comp),
                storage_entry(1, false, comp),
                uniform_entry(2, comp),
            ],
        },
        LayoutId::InitPass => LayoutPlan {
            id,
            label: "init pass bgl",
            entries: vec![storage_entry(0, false, comp), uniform_entry(1, comp)],
        },
        LayoutId::TrailDraw => LayoutPlan {
            id,
            label: "trail render bgl",
            entries: vec![
                uniform_entry(0, drawn),
                storage_entry(1, true, Stages { vertex: false, fragment: true, compute: false }),
                uniform_entry(2, drawn),
            ],
        },
        LayoutId::AgentDraw => LayoutPlan {
            id,
            label: "agent render bgl",
            entries: vec![
                uniform_entry(0, drawn),
                storage_entry(1, true, Stages { vertex: true, fragment: false, compute: false }),
            ],
        },
    };
    assert(plan.entries@ =~= layout_entries(id));
    plan
}

/// One of the bind groups: the layout it is for and, where the pass is
/// ping-ponged, the half that holds the live state.
#[derive(Clone, Copy, Debug, PartialEq, Eq, Structural)]
pub enum BindGroupId {
    AgentPass { half: usize },
    DiffusePass { half: usize },
    InitPass,
    TrailDraw { half: usize },
    AgentDraw { half: usize },
}

impl BindGroupId {
    /// A half is 0 or 1.
    pub open spec fn wf(self) -> bool {
        match self {
            BindGroupId::AgentPass { half } => half < 2,
            BindGroupId::DiffusePass { half } => half < 2,
            BindGroupId::InitPass => true,
            BindGroupId::TrailDraw { half } => half < 2,
            BindGroupId::AgentDraw { half } => half < 2,
        }
    }

    /// The layout that the bind group is made for.
    pub open spec fn layout_id(self) -> LayoutId {
        match self {
            BindGroupId::AgentPass { .. } => LayoutId::AgentPass,
            BindGroupId::DiffusePass { .. } => LayoutId::DiffusePass,
            BindGroupId::InitPass => LayoutId::InitPass,
            BindGroupId::TrailDraw { .. } => LayoutId::TrailDraw,
            BindGroupId::AgentDraw { .. } => LayoutId::AgentDraw,
        }
    }
}

/// A whole buffer bound to a slot.
#[derive(Clone, Copy, Debug, PartialEq, Eq, Structural)]
pub struct BoundBuffer {
    pub binding: u32,
    pub buffer: BufferId,
}

/// A bind group to create.
#[derive(Debug, PartialEq, Eq)]
pub struct BindGroupPlan {
    pub id: BindGroupId,
    pub label: &'static str,
    pub layout: LayoutId,
    pub entries: Vec<BoundBuffer>,
}

pub ghost struct BindGroupView {
    pub id: BindGroupId,
    pub label: Seq<char>,
    pub layout: LayoutId,
    pub entries: Seq<BoundBuffer>,
}

impl View for BindGroupPlan {
    type V = BindGroupView;

    open spec fn view(&self) -> BindGroupView {
        BindGroupView {
            id: self.id,
            label: self.label@,
            layout: self.layout,
            entries: self.entries@,
        }
    }
}

/// The other half of a ping-pong pair.
pub open spec fn other_half(half: usize) -> usize {
    (1 - half) as usize
}

/// The buffers of a bind group, in the order of its layout.
pub open spec fn bound_buffers(id: BindGroupId) -> Seq<BufferId> {
    match id {
        BindGroupId::AgentPass { half } => seq![
            BufferId::Agents { half },
            BufferId::Agents { half: other_half(half) },
            BufferId::Params,
            BufferId::Trail { half },
        ],
        BindGroupId::DiffusePass { half } => seq![
            BufferId::Trail { half },
            BufferId::Trail { half: other_half(half) },
            BufferId::Params,
        ],
        BindGroupId::InitPass => seq![BufferId::Agents { half: 0 }, BufferId::Params],
        BindGroupId::TrailDraw { half } => seq![
            BufferId::Camera,
            BufferId::Trail { half },
            BufferId::Params,
        ],
        BindGroupId::AgentDraw { half } => seq![BufferId::Camera, BufferId::Agents { half }],
    }
}

/// The entries that bind `buffers` to slots 0, 1, 2, ...
pub open spec fn bound_in_order(buffers: Seq<BufferId>) -> Seq<BoundBuffer> {
    Seq::new(buffers.len(), |i: int| BoundBuffer { binding: i as u32, buffer: buffers[i] })
}

/// What a bind group is called.
pub open spec fn bind_group_label(id: BindGroupId) -> Seq<char> {
    match id {
        BindGroupId::AgentPass { half } => if half == 0 {
            "agents A->B"@
        } else {
            "agents B->A"@
        },
        BindGroupId::DiffusePass { half } => if half == 0 {
            "diffuse A->B"@
        } else {
            "diffuse B->A"@
        },
        BindGroupId::InitPass => "init agents A"@,
        BindGroupId::TrailDraw { half } => if half == 0 {
            "trail A"@
        } else {
            "trail B"@
        },
        BindGroupId::AgentDraw { half } => if half == 0 {
            "agents A"@
        } else {
            "agents B"@
        },
    }
}

/// The bind group `id`.
pub open spec fn bind_group_view(id: BindGroupId) -> BindGroupView {
    BindGroupView {
        id,
        label: bind_group_label(id),
        layout: id.layout_id(),
        entries: bound_in_order(bound_buffers(id)),
    }
}

/// The other half of a ping-pong pair.
pub fn flip(half: usize) -> (other: usize)
    requires
        half < 2,
    ensures
        other == other_half(half),
{
    1 - half
}

/// Bind a whole buffer to a slot.
fn bind(binding: u32, buffer: BufferId) -> (bound: BoundBuffer)
    ensures
        bound == (BoundBuffer { binding, buffer }),
{
    BoundBuffer { binding, buffer }
}

/// The bind group `id`.
pub fn bind_group_plan(id: BindGroupId) -> (plan: BindGroupPlan)
    requires
        id.wf(),
    ensures
        plan@ == bind_group_view(id),
{
    let plan: BindGroupPlan = match id {
        BindGroupId::AgentPass { half } => BindGroupPlan {
            id,
            label: if half == 0 {
                "agents A->B"
            } else {
                "agents B->A"
            },
            layout: LayoutId::AgentPass,
            entries: vec![
                bind(0, BufferId::Agents { half }),
                bind(1, BufferId::Agents { half: flip(half) }),
                bind(2, BufferId::Params),
                bind(3, BufferId::Trail { half }),
            ],
        },
        BindGroupId::DiffusePass { half } => BindGroupPlan {
            id,
            label: if half == 0 {
                "diffuse A->B"
            } else {
                "diffuse B->A"
            },
            layout: LayoutId::DiffusePass,
            entries: vec![
                bind(0, BufferId::Trail { half }),
                bind(1, BufferId::Trail { half: flip(half) }),
                bind(2, BufferId::Params),
            ],
        },
        BindGroupId::InitPass => BindGroupPlan {
            id,
            label: "init agents A",
            layout: LayoutId::InitPass,
            entries: vec![bind(0, BufferId::Agents { half: 0 }), bind(1, BufferId::Params)],
        },
        BindGroupId::TrailDraw { half } => BindGroupPlan {
            id,
            label: if half == 0 {
                "trail A"
            } else {
                "trail B"
            },
            layout: LayoutId::TrailDraw,
            entries: vec![
                bind(0, BufferId::Camera),
                bind(1, BufferId::Trail { half }),
                bind(2, BufferId::Params),
            ],
        },
        BindGroupId::AgentDraw { half } => BindGroupPlan {
            id,
            label: if half == 0 {
                "agents A"
            } else {
                "agents B"
            },
            layout: LayoutId::AgentDraw,
            entries: vec![bind(0, BufferId::Camera), bind(1, BufferId::Agents { half })],
        },
    };
    assert(plan.entries@ =~= bound_in_order(bound_buffers(id)));
    plan
}

/// The views of a list of plans.
pub open spec fn views<T: View>(plans: Seq<T>) -> Seq<T::V> {
    plans.map_values(|plan: T| plan@)
}

/// A buffer can stand behind a layout entry.
pub open spec fn usable_as(usage: BufferUsage, kind: BindingKind) -> bool {
    match kind {
        BindingKind::Uniform => usage.uniform,
        BindingKind::Storage { .. } => usage.storage,
    }
}

/// Every layout is one WebGPU accepts: its slots are numbered in order, each
/// is seen by some stage, and no vertex shader sees a buffer that it could
/// write.
pub proof fn law_layouts_are_valid(id: LayoutId, i: int)
    requires
        0 <= i < layout_entries(id).len(),
    ensures
        ({
            let entry = layout_entries(id)[i];
            &&& entry.binding == i
            &&& entry.visibility.vertex || entry.visibility.fragment || entry.visibility.compute
            &&& entry.kind == (BindingKind::Storage { read_only: false })
                ==> !entry.visibility.vertex
        }),
{
}

/// Every bind group fits its layout: it binds a buffer to each slot, in order,
/// and one whose usage allows what the layout says.
pub proof fn law_bind_groups_fit_layouts(id: BindGroupId, i: int)
    requires
        id.wf(),
        0 <= i < layout_entries(id.layout_id()).len(),
    ensures
        ({
            let entries = bind_group_view(id).entries;
            let slots = layout_entries(id.layout_id());
            &&& entries.len() == slots.len()
            &&& entries[i].binding == slots[i].binding
            &&& entries[i].buffer.wf()
            &&& usable_as(usage_of(entries[i].buffer), slots[i].kind)
        }),
{
}

/// No bind group binds a buffer twice, so no pass reads a buffer through one
/// slot while it writes it through another.
pub proof fn law_no_buffer_is_bound_twice(id: BindGroupId, i: int, j: int)
    requires
        id.wf(),
        0 <= i < j < bind_group_view(id).entries.len(),
    ensures
        bind_group_view(id).entries[i].buffer != bind_group_view(id).entries[j].buffer,
{
}

/// Every agent lies within its buffer, apart from every other.
pub proof fn law_agents_fit_their_buffer(n_agents: u32, agent: int)
    requires
        0 <= agent < n_agents,
    ensures
        0 <= agent * AGENT_BYTES,
        (agent + 1) * AGENT_BYTES <= agents_bytes(n_agents),
{
}

/// Every cell of the trail map lies within its buffer, when the rows of the
/// map follow one another.
pub proof fn law_cells_fit_the_trail(grid: Seq<u32>, x: int, y: int)
    requires
        0 <= x < grid[0],
        0 <= y < grid[1],
    ensures
        0 <= y * grid[0] + x,
        (y * grid[0] + x + 1) * TRAIL_CHANNELS * CHANNEL_BYTES <= trail_bytes(grid),
{
    let (w, h) = (grid[0] as int, grid[1] as int);
    assert(0 <= y * w + x < w * h) by (nonlinear_arith)
        requires
            0 <= x < w,
            0 <= y < h,
    ;
}

/// A bind group binds what its pass works on, and one uniform slot of every
/// compute pass the parameters: the agent pass reads one half of the agents and
/// writes the other, on the trail of the half it reads; the diffuse pass takes
/// the trail of one half to the other; the seeding pass writes half 0 of the
/// agents. A draw sees the camera, and the half it is for.
pub proof fn law_passes_see_their_buffers(half: usize)
    requires
        half < 2,
    ensures
        ({
            let other: usize = if half == 0 {
                1
            } else {
                0
            };
            let agents = bind_group_view(BindGroupId::AgentPass { half }).entries;
            let diffuse = bind_group_view(BindGroupId::DiffusePass { half }).entries;
            let init = bind_group_view(BindGroupId::InitPass).entries;
            let trail_draw = bind_group_view(BindGroupId::TrailDraw { half }).entries;
            let agent_draw = bind_group_view(BindGroupId::AgentDraw { half }).entries;
            &&& agents.len() == 4
            &&& agents[0].buffer == (BufferId::Agents { half })
            &&& agents[1].buffer == (BufferId::Agents { half: other })
            &&& agents[2].buffer == BufferId::Params
            &&& agents[3].buffer == (BufferId::Trail { half })
            &&& diffuse.len() == 3
            &&& diffuse[0].buffer == (BufferId::Trail { half })
            &&& diffuse[1].buffer == (BufferId::Trail { half: other })
            &&& diffuse[2].buffer == BufferId::Params
            &&& init.len() == 2
            &&& init[0].buffer == (BufferId::Agents { half: 0 })
            &&& init[1].buffer == BufferId::Params
            &&& trail_draw.len() == 3
            &&& trail_draw[0].buffer == BufferId::Camera
            &&& trail_draw[1].buffer == (BufferId::Trail { half })
            &&& trail_draw[2].buffer == BufferId::Params
            &&& agent_draw.len() == 2
            &&& agent_draw[0].buffer == BufferId::Camera
            &&& agent_draw[1].buffer == (BufferId::Agents { half })
        }),
{
}

/// A slot is a uniform exactly where the parameters or the camera are bound to
/// it, and storage everywhere else; and the bind group says which layout it is
/// for, and its own name.
pub proof fn law_uniforms_are_parameters_and_camera(id: BindGroupId, i: int)
    requires
        id.wf(),
        0 <= i < bind_group_view(id).entries.len(),
    ensures
        ({
            let group = bind_group_view(id);
            let slot = layout_view(group.layout).entries[i];
            let buffer = group.entries[i].buffer;
            &&& group.id == id
            &&& group.entries[i].binding == i
            &&& slot.binding == i
            &&& slot.kind == BindingKind::Uniform <==> buffer == BufferId::Params || buffer
                == BufferId::Camera
        }),
{
}

/// Compute passes see their buffers from compute shaders alone, draws from the
/// stages that need them: uniforms from both, the trail from the fragment
/// shader, the agents from the vertex shader. No slot is bound at an offset or
/// asks for a least size.
pub proof fn law_stages_see_what_they_need(id: BindGroupId, i: int)
    requires
        id.wf(),
        0 <= i < bind_group_view(id).entries.len(),
    ensures
        ({
            let slot = layout_view(id.layout_id()).entries[i];
            let draw = id is TrailDraw || id is AgentDraw;
            let buffer = bind_group_view(id).entries[i].buffer;
            &&& slot.visibility.compute == !draw
            &&& slot.visibility.vertex == (draw && !(buffer is Trail))
            &&& slot.visibility.fragment == (draw && !(buffer is Agents))
            &&& !slot.has_dynamic_offset
            &&& slot.min_binding_size is None
        }),
{
}

/// Storage is bound for writing in the compute passes, but for the trail that
/// the diffuse pass reads, and for reading alone in the draws.
pub proof fn law_draws_never_write(id: BindGroupId, i: int)
    requires
        id.wf(),
        0 <= i < bind_group_view(id).entries.len(),
    ensures
        layout_view(id.layout_id()).entries[i].kind matches BindingKind::Storage { read_only }
            ==> read_only == (id is TrailDraw || id is AgentDraw || id is DiffusePass && i == 0),
{
}

/// A buffer is created for what it is used for and no more: the agents and the
/// trail as storage, the parameters and the camera as uniforms, all of them to
/// be copied to, and the agents alone to be copied from.
pub proof fn law_buffers_have_the_usage_they_need(id: BufferId, n_agents: u32, grid: Seq<u32>)
    ensures
        ({
            let buffer = buffer_view(id, n_agents, grid);
            &&& buffer.id == id
            &&& buffer.usage.storage == (id is Agents || id is Trail)
            &&& buffer.usage.uniform == (id is Params || id is Camera)
            &&& buffer.usage.copy_src == id is Agents
            &&& buffer.usage.copy_dst
            &&& !buffer.mapped_at_creation
        }),
{
}

/// A buffer holds what is to lie in it and no more: 24 bytes for each agent,
/// four channels of four bytes for each cell of the trail, and the uniforms.
pub proof fn law_buffers_are_as_large_as_what_they_hold(
    id: BufferId,
    n_agents: u32,
    grid: Seq<u32>,
)
    ensures
        ({
            let size = buffer_view(id, n_agents, grid).size;
            &&& id is Agents ==> size == 24 * n_agents
            &&& id is Trail ==> size == 16 * (grid[0] * grid[1])
            &&& id is Params ==> size == 80
            &&& id is Camera ==> size == 112
        }),
{
}

/// What is created carries its name: the first half of a pair is A, the second
/// B.
pub proof fn law_resources_have_their_labels(n_agents: u32, grid: Seq<u32>)
    ensures
        buffer_view(BufferId::Agents { half: 0 }, n_agents, grid).label == "agents A"@,
        buffer_view(BufferId::Agents { half: 1 }, n_agents, grid).label == "agents B"@,
        buffer_view(BufferId::Trail { half: 0 }, n_agents, grid).label == "trail A"@,
        buffer_view(BufferId::Trail { half: 1 }, n_agents, grid).label == "trail B"@,
        buffer_view(BufferId::Params, n_agents, grid).label == "sim params"@,
        buffer_view(BufferId::Camera, n_agents, grid).label == "camera uniform"@,
        layout_view(LayoutId::AgentPass).label == "agent pass bgl"@,
        layout_view(LayoutId::DiffusePass).label == "diffuse pass bgl"@,
        layout_view(LayoutId::InitPass).label == "init pass bgl"@,
        layout_view(LayoutId::TrailDraw).label == "trail render bgl"@,
        layout_view(LayoutId::AgentDraw).label == "agent render bgl"@,
        bind_group_view(BindGroupId::AgentPass { half: 0 }).label == "agents A->B"@,
        bind_group_view(BindGroupId::AgentPass { half: 1 }).label == "agents B->A"@,
        bind_group_view(BindGroupId::DiffusePass { half: 0 }).label == "diffuse A->B"@,
        bind_group_view(BindGroupId::DiffusePass { half: 1 }).label == "diffuse B->A"@,
        bind_group_view(BindGroupId::InitPass).label == "init agents A"@,
        bind_group_view(BindGroupId::TrailDraw { half: 0 }).label == "trail A"@,
        bind_group_view(BindGroupId::TrailDraw { half: 1 }).label == "trail B"@,
        bind_group_view(BindGroupId::AgentDraw { half: 0 }).label == "agents A"@,
        bind_group_view(BindGroupId::AgentDraw { half: 1 }).label == "agents B"@,
{
}

/// Every layout is created under its own name, and with it every bind group is
/// made for the pass that it is named for.
pub proof fn law_names_match(id: BindGroupId, layout: LayoutId)
    ensures
        layout_view(layout).id == layout,
        bind_group_view(id).layout == layout_view(bind_group_view(id).layout).id,
        id is AgentPass <==> bind_group_view(id).layout == LayoutId::AgentPass,
        id is DiffusePass <==> bind_group_view(id).layout == LayoutId::DiffusePass,
        id is InitPass <==> bind_group_view(id).layout == LayoutId::InitPass,
        id is TrailDraw <==> bind_group_view(id).layout == LayoutId::TrailDraw,
        id is AgentDraw <==> bind_group_view(id).layout == LayoutId::AgentDraw,
{
}

} // verus!
