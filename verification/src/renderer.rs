//! What is drawn, and when.

use crate::camera::Camera;
use crate::pipeline::{
    law_draw_is_gated, outcome_view, render_outcome, render_pipeline, DrawPass, RenderPipelinePlan,
    ShaderFile, ShaderFileView,
};
use crate::resources::{
    bind_group_plan, bind_group_view, bound_buffers, layout_plan, layout_view, views, BindGroupId,
    BindGroupPlan, BufferId, LayoutId, LayoutPlan,
};
use crate::shader::declares;
use crate::sim::{SimView, Upload};
use crate::single::Single;
use crate::wire::words_bytes;
use crate::world::{model_step, law_step_advances_live_state, Shaders, World};
use vstd::prelude::*;

verus! {

/// What the textures of a surface are used for.
#[derive(Clone, Copy, Debug, PartialEq, Eq, Structural)]
pub enum SurfaceUsage {
    /// They are rendered to.
    RenderAttachment,
}

/// How frames reach the display.
#[derive(Clone, Copy, Debug, PartialEq, Eq, Structural)]
pub enum PresentMode {
    /// In step with the display, by the best means there is.
    AutoVsync,
}

/// What a surface is configured with, its size in pixels. Its format is the
/// one that the adapter prefers.
#[derive(Clone, Copy, Debug, PartialEq, Eq, Structural)]
pub struct SurfacePlan {
    pub usage: SurfaceUsage,
    pub present_mode: PresentMode,
    pub width: u32,
    pub height: u32,
}

/// What a surface of `width` by `height` pixels is configured with.
pub open spec fn surface_of(width: u32, height: u32) -> SurfacePlan {
    SurfacePlan {
        usage: SurfaceUsage::RenderAttachment,
        present_mode: PresentMode::AutoVsync,
        width,
        height,
    }
}

/// What a surface of `width` by `height` pixels is configured with.
fn surface_plan(width: u32, height: u32) -> (surface: SurfacePlan)
    ensures
        surface == surface_of(width, height),
{
    SurfacePlan {
        usage: SurfaceUsage::RenderAttachment,
        present_mode: PresentMode::AutoVsync,
        width,
        height,
    }
}

/// What to do once the window has a new size: configure the surface, and then
/// upload the camera for an aspect ratio, a width over a height.
#[derive(Clone, Copy, Debug, PartialEq, Eq)]
pub struct ResizeWork {
    pub surface: SurfacePlan,
    pub camera_aspect: (u32, u32),
}

/// What to do once the window has `width` by `height` pixels, if anything: a
/// window without an extent is minimised.
pub open spec fn resize_work(width: u32, height: u32) -> Option<ResizeWork> {
    if width == 0 || height == 0 {
        None
    } else {
        Some(
            ResizeWork { surface: surface_of(width, height), camera_aspect: (width, height) },
        )
    }
}

/// What the surface answers when asked for the next frame.
#[derive(Clone, Copy, Debug, PartialEq, Eq, Structural)]
pub enum SurfaceStatus {
    Success,
    Suboptimal,
    Timeout,
    Occluded,
    Outdated,
    Lost,
    Validation,
}

/// One draw of `instances` instances of `vertices` vertices.
#[derive(Clone, Copy, Debug, PartialEq, Eq, Structural)]
pub struct DrawCall {
    pub pass: DrawPass,
    pub bind_group: BindGroupId,
    pub vertices: u32,
    pub instances: u32,
}

/// Bits of 0.01, in double precision.
pub const CLEAR_RED_BITS: u64 = 0x3f84_7ae1_47ae_147b;

/// Bits of 0.01, in double precision.
pub const CLEAR_GREEN_BITS: u64 = 0x3f84_7ae1_47ae_147b;

/// Bits of 0.02, in double precision.
pub const CLEAR_BLUE_BITS: u64 = 0x3f94_7ae1_47ae_147b;

/// Bits of 1.0, in double precision.
pub const CLEAR_ALPHA_BITS: u64 = 0x3ff0_0000_0000_0000;

/// A colour, each channel by the bits of a double-precision number.
#[derive(Clone, Copy, Debug, PartialEq, Eq, Structural)]
pub struct Color {
    pub r: u64,
    pub g: u64,
    pub b: u64,
    pub a: u64,
}

/// The one render pass of a frame: it clears the frame to a colour, and keeps
/// what is drawn.
#[derive(Clone, Copy, Debug, PartialEq, Eq)]
pub struct FramePass {
    pub encoder_label: &'static str,
    pub label: &'static str,
    pub clear: Color,
}

pub ghost struct FramePassView {
    pub encoder_label: Seq<char>,
    pub label: Seq<char>,
    pub clear: Color,
}

impl View for FramePass {
    type V = FramePassView;

    open spec fn view(&self) -> FramePassView {
        FramePassView {
            encoder_label: self.encoder_label@,
            label: self.label@,
            clear: self.clear,
        }
    }
}

/// The render pass of every frame.
pub open spec fn frame_pass() -> FramePassView {
    FramePassView {
        encoder_label: "frame"@,
        label: "draw"@,
        clear: Color {
            r: CLEAR_RED_BITS,
            g: CLEAR_GREEN_BITS,
            b: CLEAR_BLUE_BITS,
            a: CLEAR_ALPHA_BITS,
        },
    }
}

/// What to do about a frame.
#[derive(Debug, PartialEq, Eq)]
pub enum FrameWork {
    /// Begin the pass, make these draws, present the frame.
    Draw { pass: FramePass, calls: Vec<DrawCall> },
    /// Skip the frame, and configure the surface anew.
    Reconfigure { surface: SurfacePlan },
    /// Skip the frame.
    Skip,
}

pub ghost enum FrameView {
    Draw { pass: FramePassView, calls: Seq<DrawCall> },
    Reconfigure { surface: SurfacePlan },
    Skip,
}

impl View for FrameWork {
    type V = FrameView;

    open spec fn view(&self) -> FrameView {
        match *self {
            FrameWork::Draw { pass, calls } => FrameView::Draw { pass: pass@, calls: calls@ },
            FrameWork::Reconfigure { surface } => FrameView::Reconfigure { surface },
            FrameWork::Skip => FrameView::Skip,
        }
    }
}

impl FrameWork {
    /// Whether the frame is drawn; `false` if it is skipped because the surface
    /// had nothing to give.
    pub fn presented(&self) -> (drawn: bool)
        ensures
            drawn == self@ is Draw,
    {
        match self {
            FrameWork::Draw { .. } => true,
            FrameWork::Reconfigure { .. } => false,
            FrameWork::Skip => false,
        }
    }
}

/// Two draws, both vertex-buffer-less:
///
/// 1. The trail map, as a single world-space quad spanning the simulation
///    bounds, transformed by the camera and colour-mapped in the fragment
///    shader. This is the picture: an agent itself is one pixel.
/// 2. Optionally the agents, as camera-facing billboards over the top. Useful
///    for seeing what they are actually doing.
#[derive(Debug)]
pub struct Renderer {
    width: u32,
    height: u32,
    trail_ready: bool,
    agents_ready: bool,
    show_agents: bool,
}

pub ghost struct RendererView {
    pub width: u32,
    pub height: u32,
    pub trail_ready: bool,
    pub agents_ready: bool,
    pub show_agents: bool,
}

impl View for Renderer {
    type V = RendererView;

    closed spec fn view(&self) -> RendererView {
        RendererView {
            width: self.width,
            height: self.height,
            trail_ready: self.trail_ready,
            agents_ready: self.agents_ready,
            show_agents: self.show_agents,
        }
    }
}

impl RendererView {
    /// The surface is never empty: a zero-sized one is a validation error.
    pub open spec fn wf(self) -> bool {
        self.width > 0 && self.height > 0
    }

    /// What the surface is configured with.
    pub open spec fn surface(self) -> SurfacePlan {
        surface_of(self.width, self.height)
    }

    /// The aspect ratio of the surface, as its width over its height.
    pub open spec fn aspect_ratio(self) -> (u32, u32) {
        (
            self.width,
            if self.height == 0 {
                1
            } else {
                self.height
            },
        )
    }

    /// The renderer after the window changed its size. A window without an
    /// extent is minimised, and changes nothing.
    pub open spec fn resized(self, width: u32, height: u32) -> RendererView {
        if width == 0 || height == 0 {
            self
        } else {
            RendererView { width, height, ..self }
        }
    }

    /// The renderer with the agents shown or not.
    pub open spec fn showing(self, show_agents: bool) -> RendererView {
        RendererView { show_agents, ..self }
    }

    /// The draws of a frame of the state in half `slot`, with `n_agents`
    /// agents: the trail, then the agents where they are shown. A draw without
    /// a pipeline is left out.
    pub open spec fn draws(self, slot: usize, n_agents: u32) -> Seq<DrawCall> {
        (if self.trail_ready {
            seq![trail_draw(slot)]
        } else {
            seq![]
        }) + (if self.show_agents && self.agents_ready {
            seq![agents_draw(slot, n_agents)]
        } else {
            seq![]
        })
    }

    /// What to do about a frame, given what the surface answers.
    pub open spec fn frame(
        self,
        status: SurfaceStatus,
        slot: usize,
        n_agents: u32,
    ) -> FrameView {
        match status {
            SurfaceStatus::Success | SurfaceStatus::Suboptimal => FrameView::Draw {
                pass: frame_pass(),
                calls: self.draws(slot, n_agents),
            },
            SurfaceStatus::Outdated | SurfaceStatus::Lost => FrameView::Reconfigure {
                surface: self.surface(),
            },
            SurfaceStatus::Timeout
            | SurfaceStatus::Occluded
            | SurfaceStatus::Validation => FrameView::Skip,
        }
    }
}

/// One quad, spanning the world.
pub open spec fn trail_draw(slot: usize) -> DrawCall {
    DrawCall {
        pass: DrawPass::Trail,
        bind_group: BindGroupId::TrailDraw { half: slot },
        vertices: 4,
        instances: 1,
    }
}

/// Four corners of a triangle strip, one instance per agent.
pub open spec fn agents_draw(slot: usize, n_agents: u32) -> DrawCall {
    DrawCall {
        pass: DrawPass::Agents,
        bind_group: BindGroupId::AgentDraw { half: slot },
        vertices: 4,
        instances: n_agents,
    }
}

/// The shader files of the draws.
#[derive(Debug)]
pub struct RenderShaders {
    pub trail: ShaderFile,
    pub agents: ShaderFile,
}

/// A new renderer, with the GPU resources to create for it, in order. Once they
/// are there the camera is to be uploaded for `camera_aspect`, a width over a
/// height.
#[derive(Debug)]
pub struct RendererSetup {
    pub renderer: Renderer,
    pub surface: SurfacePlan,
    pub layouts: Vec<LayoutPlan>,
    pub bind_groups: Vec<BindGroupPlan>,
    pub trail_pipeline: Result<RenderPipelinePlan, String>,
    pub agent_pipeline: Result<RenderPipelinePlan, String>,
    pub camera_aspect: (u32, u32),
}

/// Why there is no renderer.
#[derive(Clone, Copy, Debug, PartialEq, Eq, Structural)]
pub enum RendererError {
    /// The surface is not supported by the adapter.
    UnsupportedSurface,
}

/// The bind group layouts of a renderer.
pub open spec fn render_layouts() -> Seq<LayoutId> {
    seq![LayoutId::TrailDraw, LayoutId::AgentDraw]
}

/// The bind groups of a renderer.
pub open spec fn render_bind_groups() -> Seq<BindGroupId> {
    seq![
        BindGroupId::TrailDraw { half: 0 },
        BindGroupId::TrailDraw { half: 1 },
        BindGroupId::AgentDraw { half: 0 },
        BindGroupId::AgentDraw { half: 1 },
    ]
}

/// The surface for a window of `width` by `height` pixels: at least one pixel
/// either way.
pub open spec fn surface_for(width: u32, height: u32) -> SurfacePlan {
    surface_of(
        if width == 0 {
            1
        } else {
            width
        },
        if height == 0 {
            1
        } else {
            height
        },
    )
}

impl Renderer {
    /// The surface for a window of `width` by `height` pixels: at least one
    /// pixel either way.
    pub fn surface_size(width: u32, height: u32) -> (surface: SurfacePlan)
        ensures
            surface == surface_for(width, height),
    {
        surface_plan(
            if width == 0 {
                1
            } else {
                width
            },
            if height == 0 {
                1
            } else {
                height
            },
        )
    }

    /// A renderer for a window of `width` by `height` pixels. `supported` is
    /// whether the adapter has a configuration for the window's surface. The
    /// agents are not shown at first.
    pub fn new(width: u32, height: u32, supported: bool, shaders: RenderShaders) -> (outcome:
        Result<RendererSetup, RendererError>)
        ensures
            outcome is Ok <==> supported,
            outcome matches Err(error) ==> error == RendererError::UnsupportedSurface,
            outcome matches Ok(setup) ==> {
                &&& setup.renderer@.wf()
                &&& setup.renderer@.surface() == surface_for(width, height)
                &&& setup.renderer@.trail_ready == setup.trail_pipeline is Ok
                &&& setup.renderer@.agents_ready == setup.agent_pipeline is Ok
                &&& !setup.renderer@.show_agents
                &&& setup.surface == surface_for(width, height)
                &&& setup.camera_aspect == (setup.surface.width, setup.surface.height)
                &&& setup.camera_aspect == setup.renderer@.aspect_ratio()
                &&& views(setup.layouts@) == render_layouts().map_values(
                    |id: LayoutId| layout_view(id),
                )
                &&& views(setup.bind_groups@) == render_bind_groups().map_values(
                    |id: BindGroupId| bind_group_view(id),
                )
                &&& outcome_view(setup.trail_pipeline) == render_outcome(
                    DrawPass::Trail,
                    shaders.trail@,
                )
                &&& outcome_view(setup.agent_pipeline) == render_outcome(
                    DrawPass::Agents,
                    shaders.agents@,
                )
            },
    {
        if !supported {
            return Err(RendererError::UnsupportedSurface);
        }
        let surface: SurfacePlan = Renderer::surface_size(width, height);
        let layouts: Vec<LayoutPlan> = vec![
            layout_plan(LayoutId::TrailDraw),
            layout_plan(LayoutId::AgentDraw),
        ];
        let bind_groups: Vec<BindGroupPlan> = vec![
            bind_group_plan(BindGroupId::TrailDraw { half: 0 }),
            bind_group_plan(BindGroupId::TrailDraw { half: 1 }),
            bind_group_plan(BindGroupId::AgentDraw { half: 0 }),
            bind_group_plan(BindGroupId::AgentDraw { half: 1 }),
        ];
        let trail_pipeline: Result<RenderPipelinePlan, String> = render_pipeline(
            DrawPass::Trail,
            shaders.trail,
        );
        let agent_pipeline: Result<RenderPipelinePlan, String> = render_pipeline(
            DrawPass::Agents,
            shaders.agents,
        );
        let renderer: Renderer = Renderer {
            width: surface.width,
            height: surface.height,
            trail_ready: trail_pipeline.is_ok(),
            agents_ready: agent_pipeline.is_ok(),
            show_agents: false,
        };
        proof {
            assert(views(layouts@) =~= render_layouts().map_values(
                |id: LayoutId| layout_view(id),
            ));
            assert(views(bind_groups@) =~= render_bind_groups().map_values(
                |id: BindGroupId| bind_group_view(id),
            ));
        }
        Ok(
            RendererSetup {
                renderer,
                surface,
                layouts,
                bind_groups,
                trail_pipeline,
                agent_pipeline,
                camera_aspect: (surface.width, surface.height),
            },
        )
    }

    /// The aspect ratio of the surface, as its width over its height. The
    /// height given is never zero.
    pub fn aspect(&self) -> (ratio: (u32, u32))
        ensures
            ratio == self@.aspect_ratio(),
    {
        (
            self.width,
            if self.height == 0 {
                1
            } else {
                self.height
            },
        )
    }

    /// The upload of a camera into its uniform buffer.
    pub fn upload_camera(&self, camera: &Camera) -> (upload: Upload)
        ensures
            upload.buffer == BufferId::Camera,
            upload.bytes@ == words_bytes(camera.word_seq()),
    {
        Upload { buffer: BufferId::Camera, bytes: camera.bytes() }
    }

    /// Take over the window's new size. Gives what to configure the surface
    /// with and the aspect ratio to upload the camera for, or nothing where the
    /// window is minimised.
    pub fn resize(&mut self, width: u32, height: u32) -> (work: Option<ResizeWork>)
        ensures
            final(self)@ == old(self)@.resized(width, height),
            old(self)@.wf() ==> final(self)@.wf(),
            work == resize_work(width, height),
    {
        if width == 0 || height == 0 {
            return None;
        }
        self.width = width;
        self.height = height;
        Some(
            ResizeWork { surface: surface_plan(width, height), camera_aspect: (width, height) },
        )
    }

    /// Whether the agents are shown.
    pub fn show_agents(&self) -> (shown: bool)
        ensures
            shown == self@.show_agents,
    {
        self.show_agents
    }

    /// Show the agents, or hide them.
    pub fn set_show_agents(&mut self, shown: bool)
        ensures
            final(self)@ == old(self)@.showing(shown),
    {
        self.show_agents = shown;
    }

    /// Show the agents, or hide them again.
    pub fn toggle_agents(&mut self)
        ensures
            final(self)@ == old(self)@.showing(!old(self)@.show_agents),
    {
        self.show_agents = !self.show_agents;
    }

    /// What to do about a frame of the state in half `slot`, with `n_agents`
    /// agents, given what the surface answers. There are two halves; where
    /// nothing is drawn, none is looked up.
    pub fn render(&self, status: SurfaceStatus, slot: usize, n_agents: u32) -> (work: FrameWork)
        requires
            (status == SurfaceStatus::Success || status == SurfaceStatus::Suboptimal) && (
            self@.trail_ready || self@.show_agents && self@.agents_ready) ==> slot < 2,
        ensures
            work@ == self@.frame(status, slot, n_agents),
    {
        match status {
            SurfaceStatus::Success | SurfaceStatus::Suboptimal => {},
            SurfaceStatus::Outdated | SurfaceStatus::Lost => {
                return FrameWork::Reconfigure {
                    surface: surface_plan(self.width, self.height),
                };
            },
            SurfaceStatus::Timeout | SurfaceStatus::Occluded | SurfaceStatus::Validation => {
                return FrameWork::Skip;
            },
        }
        let mut calls: Vec<DrawCall> = Vec::new();
        if self.trail_ready {
            calls.push(
                DrawCall {
                    pass: DrawPass::Trail,
                    bind_group: BindGroupId::TrailDraw { half: slot },
                    vertices: 4,
                    instances: 1,
                },
            );
        }
        if self.show_agents {
            if self.agents_ready {
                calls.push(
                    DrawCall {
                        pass: DrawPass::Agents,
                        bind_group: BindGroupId::AgentDraw { half: slot },
                        vertices: 4,
                        instances: n_agents,
                    },
                );
            }
        }
        assert(calls@ =~= self@.draws(slot, n_agents));
        let pass: FramePass = FramePass {
            encoder_label: "frame",
            label: "draw",
            clear: Color {
                r: CLEAR_RED_BITS,
                g: CLEAR_GREEN_BITS,
                b: CLEAR_BLUE_BITS,
                a: CLEAR_ALPHA_BITS,
            },
        };
        FrameWork::Draw { pass, calls }
    }
}

/// The camera is uploaded for the surface that is configured: what a resize
/// asks for is what the renderer has from then on.
pub proof fn law_camera_follows_the_surface(renderer: RendererView, width: u32, height: u32)
    ensures
        resize_work(width, height) matches Some(work) ==> {
            &&& work.surface == renderer.resized(width, height).surface()
            &&& work.camera_aspect == renderer.resized(width, height).aspect_ratio()
            &&& work.camera_aspect == (work.surface.width, work.surface.height)
        },
        resize_work(width, height) is None ==> renderer.resized(width, height) == renderer,
{
}

/// Every draw is made with a bind group of its own layout, and shows the state
/// in the half it was asked for: the trail draw that half of the trail, the
/// agent draw that half of the agents.
pub proof fn law_draws_show_the_given_half(
    renderer: RendererView,
    slot: usize,
    n_agents: u32,
    i: int,
)
    requires
        slot < 2,
        0 <= i < renderer.draws(slot, n_agents).len(),
    ensures
        ({
            let call = renderer.draws(slot, n_agents)[i];
            &&& call.bind_group.wf()
            &&& call.bind_group.layout_id() == call.pass.layout_id()
            &&& bound_buffers(call.bind_group)[1] == match call.pass {
                DrawPass::Trail => BufferId::Trail { half: slot },
                DrawPass::Agents => BufferId::Agents { half: slot },
            }
        }),
{
}

/// A frame drawn after a step shows what that step made of the live state, not
/// the half that the step read from.
pub proof fn law_frame_shows_the_step<A, T>(
    shaders: Shaders<A, T>,
    world: World<A, T>,
    sim: SimView,
    dt: Single,
)
    requires
        sim.wf(),
        sim.can_step(),
    ensures
        ({
            let stepped = world.run(shaders, sim.step_work(dt));
            let slot = sim.after_step(dt).slot;
            let next = model_step(shaders, world.live(sim.slot), sim.step_params(dt));
            let trail = bound_buffers(trail_draw(slot).bind_group)[1];
            let agents = bound_buffers(agents_draw(slot, sim.params.n_agents).bind_group)[1];
            &&& trail matches BufferId::Trail { half } && stepped.trail[half] == next.1
            &&& agents matches BufferId::Agents { half } && stepped.agents[half] == next.0
        }),
{
    law_step_advances_live_state(shaders, world, sim, dt);
}

/// The trail lies under the agents, and hiding the agents leaves the trail as
/// it is.
pub proof fn law_agents_go_over_the_trail(renderer: RendererView, slot: usize, n_agents: u32)
    ensures
        ({
            let plain = renderer.showing(false).draws(slot, n_agents);
            let overlaid = renderer.showing(true).draws(slot, n_agents);
            &&& plain == (if renderer.trail_ready {
                seq![trail_draw(slot)]
            } else {
                seq![]
            })
            &&& overlaid == (if renderer.agents_ready {
                plain.push(agents_draw(slot, n_agents))
            } else {
                plain
            })
        }),
{
    let plain = renderer.showing(false).draws(slot, n_agents);
    let overlaid = renderer.showing(true).draws(slot, n_agents);
    assert(plain =~= (if renderer.trail_ready {
        seq![trail_draw(slot)]
    } else {
        seq![]
    }));
    if renderer.agents_ready {
        assert(overlaid =~= plain.push(agents_draw(slot, n_agents)));
    } else {
        assert(overlaid =~= plain);
    }
}

/// A frame is drawn exactly when the surface gave one. A surface that is
/// outdated or lost is configured anew, as it was, and in every other case
/// nothing is done.
pub proof fn law_frame_follows_the_surface(
    renderer: RendererView,
    status: SurfaceStatus,
    slot: usize,
    n_agents: u32,
)
    ensures
        ({
            let frame = renderer.frame(status, slot, n_agents);
            let given = status == SurfaceStatus::Success || status == SurfaceStatus::Suboptimal;
            let gone = status == SurfaceStatus::Outdated || status == SurfaceStatus::Lost;
            &&& frame is Draw <==> given
            &&& frame is Reconfigure <==> gone
            &&& frame is Skip <==> !given && !gone
            &&& frame matches FrameView::Draw { calls, .. } ==> calls == renderer.draws(
                slot,
                n_agents,
            )
            &&& frame matches FrameView::Reconfigure { surface } ==> surface.width
                == renderer.width && surface.height == renderer.height
        }),
{
}

/// Every frame is cleared to the same near black, in the pass and the encoder
/// that its labels name.
pub proof fn law_frames_are_cleared_to_one_colour(
    renderer: RendererView,
    status: SurfaceStatus,
    slot: usize,
    n_agents: u32,
)
    ensures
        renderer.frame(status, slot, n_agents) matches FrameView::Draw { pass, .. } ==> {
            &&& pass.encoder_label == "frame"@
            &&& pass.label == "draw"@
            &&& pass.clear.r == 0x3f84_7ae1_47ae_147b
            &&& pass.clear.g == pass.clear.r
            &&& pass.clear.b == 0x3f94_7ae1_47ae_147b
            &&& pass.clear.a == 0x3ff0_0000_0000_0000
        },
{
}

/// What is drawn: one quad for the trail, where it has a pipeline; after it, a
/// quad for each agent, where agents are shown and have a pipeline; and nothing
/// else.
pub proof fn law_draws_are_quads(renderer: RendererView, slot: usize, n_agents: u32)
    ensures
        ({
            let calls = renderer.draws(slot, n_agents);
            let trail: int = if renderer.trail_ready {
                1
            } else {
                0
            };
            let agents: int = if renderer.show_agents && renderer.agents_ready {
                1
            } else {
                0
            };
            &&& calls.len() == trail + agents
            &&& forall|i: int| 0 <= i < calls.len() ==> (#[trigger] calls[i]).vertices == 4
            &&& trail == 1 ==> calls[0].pass == DrawPass::Trail && calls[0].instances == 1
                && calls[0].bind_group == (BindGroupId::TrailDraw { half: slot })
            &&& agents == 1 ==> calls[trail].pass == DrawPass::Agents && calls[trail].instances
                == n_agents && calls[trail].bind_group == (BindGroupId::AgentDraw { half: slot })
        }),
{
}

/// The surface is what it was asked to be, and at least one pixel either way;
/// it is rendered to and presented in step with the display.
pub proof fn law_surface_is_never_empty(width: u32, height: u32)
    ensures
        ({
            let surface = surface_for(width, height);
            &&& surface.usage == SurfaceUsage::RenderAttachment
            &&& surface.present_mode == PresentMode::AutoVsync
            &&& surface.width >= 1 && surface.height >= 1
            &&& width >= 1 ==> surface.width == width
            &&& height >= 1 ==> surface.height == height
            &&& width == 0 ==> surface.width == 1
            &&& height == 0 ==> surface.height == 1
        }),
{
}

/// A window's new size is the surface's, and the camera's; a minimised window
/// changes nothing. Nothing else of the renderer changes either way.
pub proof fn law_resize_takes_the_new_size(renderer: RendererView, width: u32, height: u32)
    ensures
        ({
            let after = renderer.resized(width, height);
            let minimised = width == 0 || height == 0;
            &&& !minimised ==> after.width == width && after.height == height
            &&& minimised ==> after.width == renderer.width && after.height == renderer.height
            &&& after.trail_ready == renderer.trail_ready
            &&& after.agents_ready == renderer.agents_ready
            &&& after.show_agents == renderer.show_agents
            &&& resize_work(width, height) is None <==> minimised
            &&& resize_work(width, height) matches Some(work) ==> {
                &&& work.surface.width == width
                &&& work.surface.height == height
                &&& work.surface.usage == SurfaceUsage::RenderAttachment
                &&& work.surface.present_mode == PresentMode::AutoVsync
                &&& work.camera_aspect.0 == width
                &&& work.camera_aspect.1 == height
            }
        }),
{
}

/// The aspect ratio is the surface's own, and never over zero.
pub proof fn law_aspect_is_the_surfaces(renderer: RendererView)
    ensures
        renderer.aspect_ratio().0 == renderer.width,
        renderer.aspect_ratio().1 > 0,
        renderer.height > 0 ==> renderer.aspect_ratio().1 == renderer.height,
        renderer.height == 0 ==> renderer.aspect_ratio().1 == 1,
        renderer.surface().width == renderer.width,
        renderer.surface().height == renderer.height,
{
}

/// Showing the agents or not changes that alone.
pub proof fn law_showing_changes_that_alone(renderer: RendererView, shown: bool)
    ensures
        renderer.showing(shown).show_agents == shown,
        renderer.showing(shown).width == renderer.width,
        renderer.showing(shown).height == renderer.height,
        renderer.showing(shown).trail_ready == renderer.trail_ready,
        renderer.showing(shown).agents_ready == renderer.agents_ready,
{
}

/// A renderer creates all that its draws use: the layout and the bind group of
/// each half, for each draw, each once.
pub proof fn law_renderer_creates_what_is_used(id: BindGroupId)
    requires
        id.wf(),
    ensures
        render_bind_groups().contains(id) <==> id is TrailDraw || id is AgentDraw,
        render_layouts().contains(id.layout_id()) <==> id is TrailDraw || id is AgentDraw,
        render_bind_groups().no_duplicates(),
        render_layouts().no_duplicates(),
{
    let (groups, layouts) = (render_bind_groups(), render_layouts());
    assert(groups[0] == (BindGroupId::TrailDraw { half: 0 }) && groups[1] == (
    BindGroupId::TrailDraw { half: 1 }) && groups[2] == (BindGroupId::AgentDraw { half: 0 })
        && groups[3] == (BindGroupId::AgentDraw { half: 1 }));
    assert(layouts[0] == LayoutId::TrailDraw && layouts[1] == LayoutId::AgentDraw);
}

/// What a renderer's pipelines ask for decides what it can draw: the trail is
/// drawn exactly when its shader declares both stages, and the agents are,
/// once they are shown, exactly when theirs does.
pub proof fn law_draws_follow_the_shaders(
    renderer: RendererView,
    trail: ShaderFileView,
    agents: ShaderFileView,
    slot: usize,
    n_agents: u32,
)
    requires
        renderer.trail_ready == render_outcome(DrawPass::Trail, trail) is Ok,
        renderer.agents_ready == render_outcome(DrawPass::Agents, agents) is Ok,
    ensures
        ({
            let calls = renderer.draws(slot, n_agents);
            &&& calls.contains(trail_draw(slot)) <==> (trail.read matches Ok(source) && declares(
                source,
                "@vertex"@,
            ) && declares(source, "@fragment"@))
            &&& calls.contains(agents_draw(slot, n_agents)) <==> renderer.show_agents && (
            agents.read matches Ok(source) && declares(source, "@vertex"@) && declares(
                source,
                "@fragment"@,
            ))
        }),
{
    law_draw_is_gated(DrawPass::Trail, trail);
    law_draw_is_gated(DrawPass::Agents, agents);
    let calls = renderer.draws(slot, n_agents);
    if renderer.trail_ready {
        assert(calls[0] == trail_draw(slot));
    }
    if renderer.show_agents && renderer.agents_ready {
        assert(calls.last() == agents_draw(slot, n_agents));
    }
}

} // verus!
