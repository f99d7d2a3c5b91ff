//! The passes: which shader each runs, and how it is compiled.

use crate::resources::LayoutId;
use crate::shader::{
    declares, law_loaded_iff_declared, law_notice_says_why, load_outcome, load_shader, result_text,
    texts,
};
use vstd::prelude::*;

verus! {

/// The shader files, below the project's directory.
pub const INIT_SHADER: &'static str = "/shaders/init.wgsl";

pub const COMPUTE_SHADER: &'static str = "/shaders/compute.wgsl";

pub const DIFFUSE_SHADER: &'static str = "/shaders/diffuse.wgsl";

pub const TRAIL_SHADER: &'static str = "/shaders/trail.wgsl";

pub const RENDER_SHADER: &'static str = "/shaders/render.wgsl";

/// A shader file after an attempt to read it: its path, and its text or the
/// error in words.
#[derive(Debug)]
pub struct ShaderFile {
    pub path: String,
    pub read: Result<String, String>,
}

pub ghost struct ShaderFileView {
    pub path: Seq<char>,
    pub read: Result<Seq<char>, Seq<char>>,
}

impl View for ShaderFile {
    type V = ShaderFileView;

    open spec fn view(&self) -> ShaderFileView {
        ShaderFileView { path: self.path@, read: result_text(self.read) }
    }
}

/// A compute pass.
#[derive(Clone, Copy, Debug, PartialEq, Eq, Structural)]
pub enum ComputePass {
    /// Seed the agents.
    Init,
    /// Sense, steer, move, deposit.
    Agents,
    /// Diffuse and decay the trail.
    Diffuse,
}

impl ComputePass {
    /// What the pass's shader sees.
    pub open spec fn layout_id(self) -> LayoutId {
        match self {
            ComputePass::Init => LayoutId::InitPass,
            ComputePass::Agents => LayoutId::AgentPass,
            ComputePass::Diffuse => LayoutId::DiffusePass,
        }
    }

    /// Where the pass's shader is, in a project in the directory `root`.
    pub open spec fn shader_path(self, root: Seq<char>) -> Seq<char> {
        root + match self {
            ComputePass::Init => INIT_SHADER@,
            ComputePass::Agents => COMPUTE_SHADER@,
            ComputePass::Diffuse => DIFFUSE_SHADER@,
        }
    }

    /// What the pass is called when it is recorded.
    pub open spec fn label_text(self) -> Seq<char> {
        match self {
            ComputePass::Init => "init agents"@,
            ComputePass::Agents => "update agents"@,
            ComputePass::Diffuse => "diffuse + decay"@,
        }
    }

    /// Where the pass's shader is, in a project in the directory `root`.
    pub fn shader(self, root: &str) -> (path: String)
        ensures
            path@ == self.shader_path(root@),
    {
        let mut path: String = root.to_owned();
        path.append(
            match self {
                ComputePass::Init => INIT_SHADER,
                ComputePass::Agents => COMPUTE_SHADER,
                ComputePass::Diffuse => DIFFUSE_SHADER,
            },
        );
        path
    }

    /// What the pass is called when it is recorded.
    pub fn label(self) -> (label: &'static str)
        ensures
            label@ == self.label_text(),
    {
        match self {
            ComputePass::Init => "init agents",
            ComputePass::Agents => "update agents",
            ComputePass::Diffuse => "diffuse + decay",
        }
    }
}

/// A compute pipeline to create. Its pipeline layout has the one bind group
/// layout.
#[derive(Debug)]
pub struct ComputePipelinePlan {
    pub pass: ComputePass,
    pub label: &'static str,
    pub layout: LayoutId,
    pub immediate_size: u32,
    pub entry_point: &'static str,
    pub source: String,
}

pub ghost struct ComputePipelineView {
    pub pass: ComputePass,
    pub label: Seq<char>,
    pub layout: LayoutId,
    pub immediate_size: u32,
    pub entry_point: Seq<char>,
    pub source: Seq<char>,
}

impl View for ComputePipelinePlan {
    type V = ComputePipelineView;

    open spec fn view(&self) -> ComputePipelineView {
        ComputePipelineView {
            pass: self.pass,
            label: self.label@,
            layout: self.layout,
            immediate_size: self.immediate_size,
            entry_point: self.entry_point@,
            source: self.source@,
        }
    }
}

/// The pipeline of a pass whose shader is `source`.
pub open spec fn compute_pipeline_view(
    pass: ComputePass,
    source: Seq<char>,
) -> ComputePipelineView {
    ComputePipelineView {
        pass,
        label: match pass {
            ComputePass::Init => "init pass"@,
            ComputePass::Agents => "agent pass"@,
            ComputePass::Diffuse => "diffuse pass"@,
        },
        layout: pass.layout_id(),
        immediate_size: 0,
        entry_point: match pass {
            ComputePass::Init => "init_agents"@,
            ComputePass::Agents => "update_agents"@,
            ComputePass::Diffuse => "diffuse"@,
        },
        source,
    }
}

/// The pipeline of a pass, or the notice that says why there is none: its
/// shader has to be readable and to declare `@compute`.
pub open spec fn compute_outcome(pass: ComputePass, file: ShaderFileView) -> Result<
    ComputePipelineView,
    Seq<char>,
> {
    match load_outcome(file.path, file.read, seq!["@compute"@]) {
        Ok(source) => Ok(compute_pipeline_view(pass, source)),
        Err(notice) => Err(notice),
    }
}

/// The view of a pipeline, or of the notice in its place.
pub open spec fn outcome_view<P: View>(outcome: Result<P, String>) -> Result<P::V, Seq<char>> {
    match outcome {
        Ok(plan) => Ok(plan@),
        Err(notice) => Err(notice@),
    }
}

/// The pipeline of a compute pass, made for the same layout as the pass's bind
/// groups, or the notice that says why there is none.
pub fn compute_pipeline(pass: ComputePass, file: ShaderFile) -> (outcome: Result<
    ComputePipelinePlan,
    String,
>)
    ensures
        outcome_view(outcome) == compute_outcome(pass, file@),
{
    let tags: [&str; 1] = ["@compute"];
    assert(texts(tags@) =~= seq!["@compute"@]);
    match load_shader(file.path.as_str(), file.read, &tags) {
        Err(notice) => Err(notice),
        Ok(source) => Ok(
            match pass {
                ComputePass::Init => ComputePipelinePlan {
                    pass,
                    label: "init pass",
                    layout: LayoutId::InitPass,
                    immediate_size: 0,
                    entry_point: "init_agents",
                    source,
                },
                ComputePass::Agents => ComputePipelinePlan {
                    pass,
                    label: "agent pass",
                    layout: LayoutId::AgentPass,
                    immediate_size: 0,
                    entry_point: "update_agents",
                    source,
                },
                ComputePass::Diffuse => ComputePipelinePlan {
                    pass,
                    label: "diffuse pass",
                    layout: LayoutId::DiffusePass,
                    immediate_size: 0,
                    entry_point: "diffuse",
                    source,
                },
            },
        ),
    }
}

/// A draw.
#[derive(Clone, Copy, Debug, PartialEq, Eq, Structural)]
pub enum DrawPass {
    /// The trail map, as a single world-space quad.
    Trail,
    /// The agents, as camera-facing billboards.
    Agents,
}

impl DrawPass {
    /// What the draw's shaders see.
    pub open spec fn layout_id(self) -> LayoutId {
        match self {
            DrawPass::Trail => LayoutId::TrailDraw,
            DrawPass::Agents => LayoutId::AgentDraw,
        }
    }

    /// Where the draw's shader is, in a project in the directory `root`.
    pub open spec fn shader_path(self, root: Seq<char>) -> Seq<char> {
        root + match self {
            DrawPass::Trail => TRAIL_SHADER@,
            DrawPass::Agents => RENDER_SHADER@,
        }
    }

    /// Where the draw's shader is, in a project in the directory `root`.
    pub fn shader(self, root: &str) -> (path: String)
        ensures
            path@ == self.shader_path(root@),
    {
        let mut path: String = root.to_owned();
        path.append(
            match self {
                DrawPass::Trail => TRAIL_SHADER,
                DrawPass::Agents => RENDER_SHADER,
            },
        );
        path
    }
}

/// How a colour is weighed when it is blended.
#[derive(Clone, Copy, Debug, PartialEq, Eq, Structural)]
pub enum BlendFactor {
    One,
    SrcAlpha,
    OneMinusSrcAlpha,
}

/// One component of a blend: the sum of the weighed source and the weighed
/// destination.
#[derive(Clone, Copy, Debug, PartialEq, Eq, Structural)]
pub struct BlendSum {
    pub src_factor: BlendFactor,
    pub dst_factor: BlendFactor,
}

/// How a draw is blended over what is there.
#[derive(Clone, Copy, Debug, PartialEq, Eq, Structural)]
pub struct Blend {
    pub color: BlendSum,
    pub alpha: BlendSum,
}

/// How vertices are made into triangles.
#[derive(Clone, Copy, Debug, PartialEq, Eq, Structural)]
pub enum Topology {
    TriangleStrip,
}

/// Where vertices come from.
#[derive(Clone, Copy, Debug, PartialEq, Eq, Structural)]
pub enum VertexInput {
    /// From no vertex buffer: the shader makes them from their index.
    Bufferless,
}

/// A side of a triangle.
#[derive(Clone, Copy, Debug, PartialEq, Eq, Structural)]
pub enum Face {
    Front,
    Back,
}

/// How depth decides what is drawn.
#[derive(Clone, Copy, Debug, PartialEq, Eq, Structural)]
pub enum DepthTest {
    /// It does not: there is no depth buffer.
    Off,
}

/// Which channels of a colour target are written.
#[derive(Clone, Copy, Debug, PartialEq, Eq, Structural)]
pub struct ColorWrites {
    pub red: bool,
    pub green: bool,
    pub blue: bool,
    pub alpha: bool,
}

/// A render pipeline to create, for one colour target in the format of the
/// surface. Its pipeline layout has the one bind group layout.
#[derive(Debug)]
pub struct RenderPipelinePlan {
    pub pass: DrawPass,
    pub label: &'static str,
    pub layout: LayoutId,
    pub immediate_size: u32,
    pub vertex_input: VertexInput,
    pub vertex_entry: &'static str,
    pub fragment_entry: &'static str,
    pub topology: Topology,
    /// The side of the triangles that is not drawn, if there is one.
    pub cull_mode: Option<Face>,
    pub depth_test: DepthTest,
    /// Samples per pixel.
    pub samples: u32,
    pub blend: Option<Blend>,
    pub write_mask: ColorWrites,
    pub source: String,
}

pub ghost struct RenderPipelineView {
    pub pass: DrawPass,
    pub label: Seq<char>,
    pub layout: LayoutId,
    pub immediate_size: u32,
    pub vertex_input: VertexInput,
    pub vertex_entry: Seq<char>,
    pub fragment_entry: Seq<char>,
    pub topology: Topology,
    /// The side of the triangles that is not drawn, if there is one.
    pub cull_mode: Option<Face>,
    pub depth_test: DepthTest,
    /// Samples per pixel.
    pub samples: u32,
    pub blend: Option<Blend>,
    pub write_mask: ColorWrites,
    pub source: Seq<char>,
}

impl View for RenderPipelinePlan {
    type V = RenderPipelineView;

    open spec fn view(&self) -> RenderPipelineView {
        RenderPipelineView {
            pass: self.pass,
            label: self.label@,
            layout: self.layout,
            immediate_size: self.immediate_size,
            vertex_input: self.vertex_input,
            vertex_entry: self.vertex_entry@,
            fragment_entry: self.fragment_entry@,
            topology: self.topology,
            cull_mode: self.cull_mode,
            depth_test: self.depth_test,
            samples: self.samples,
            blend: self.blend,
            write_mask: self.write_mask,
            source: self.source@,
        }
    }
}

/// The blend of a draw. The trail covers the whole world quad, so it does not
/// blend. The agents go over the top additively.
pub open spec fn blend_of(pass: DrawPass) -> Option<Blend> {
    match pass {
        DrawPass::Trail => None,
        DrawPass::Agents => Some(
            Blend {
                color: BlendSum { src_factor: BlendFactor::SrcAlpha, dst_factor: BlendFactor::One },
                alpha: BlendSum {
                    src_factor: BlendFactor::One,
                    dst_factor: BlendFactor::OneMinusSrcAlpha,
                },
            },
        ),
    }
}

/// The pipeline of a draw whose shader is `source`.
pub open spec fn render_pipeline_view(pass: DrawPass, source: Seq<char>) -> RenderPipelineView {
    RenderPipelineView {
        pass,
        label: match pass {
            DrawPass::Trail => "trail"@,
            DrawPass::Agents => "agent billboards"@,
        },
        layout: pass.layout_id(),
        immediate_size: 0,
        vertex_input: VertexInput::Bufferless,
        vertex_entry: "vs_main"@,
        fragment_entry: "fs_main"@,
        topology: Topology::TriangleStrip,
        cull_mode: None,
        depth_test: DepthTest::Off,
        samples: 1,
        blend: blend_of(pass),
        write_mask: ColorWrites { red: true, green: true, blue: true, alpha: true },
        source,
    }
}

/// The pipeline of a draw, or the notice that says why there is none: its
/// shader has to be readable and to declare `@vertex` and `@fragment`.
pub open spec fn render_outcome(pass: DrawPass, file: ShaderFileView) -> Result<
    RenderPipelineView,
    Seq<char>,
> {
    match load_outcome(file.path, file.read, seq!["@vertex"@, "@fragment"@]) {
        Ok(source) => Ok(render_pipeline_view(pass, source)),
        Err(notice) => Err(notice),
    }
}

/// The pipeline of a draw, made for the same layout as the draw's bind groups,
/// or the notice that says why there is none.
pub fn render_pipeline(pass: DrawPass, file: ShaderFile) -> (outcome: Result<
    RenderPipelinePlan,
    String,
>)
    ensures
        outcome_view(outcome) == render_outcome(pass, file@),
{
    let tags: [&str; 2] = ["@vertex", "@fragment"];
    assert(texts(tags@) =~= seq!["@vertex"@, "@fragment"@]);
    let source: String = match load_shader(file.path.as_str(), file.read, &tags) {
        Ok(source) => source,
        Err(notice) => {
            return Err(notice);
        },
    };
    let (label, layout, blend): (&'static str, LayoutId, Option<Blend>) = match pass {
        DrawPass::Trail => ("trail", LayoutId::TrailDraw, None),
        DrawPass::Agents => (
            "agent billboards",
            LayoutId::AgentDraw,
            Some(
                Blend {
                    color: BlendSum {
                        src_factor: BlendFactor::SrcAlpha,
                        dst_factor: BlendFactor::One,
                    },
                    alpha: BlendSum {
                        src_factor: BlendFactor::One,
                        dst_factor: BlendFactor::OneMinusSrcAlpha,
                    },
                },
            ),
        ),
    };
    Ok(
        RenderPipelinePlan {
            pass,
            label,
            layout,
            immediate_size: 0,
            vertex_input: VertexInput::Bufferless,
            vertex_entry: "vs_main",
            fragment_entry: "fs_main",
            topology: Topology::TriangleStrip,
            cull_mode: None,
            depth_test: DepthTest::Off,
            samples: 1,
            blend,
            write_mask: ColorWrites { red: true, green: true, blue: true, alpha: true },
            source,
        },
    )
}

/// A compute pass has a pipeline exactly when its file was read and declares
/// `@compute` outside of comments.
pub proof fn law_compute_pass_is_gated(pass: ComputePass, file: ShaderFileView)
    ensures
        compute_outcome(pass, file) is Ok <==> (file.read matches Ok(source) && declares(
            source,
            "@compute"@,
        )),
        file.read matches Ok(source) ==> (!declares(source, "@compute"@) ==> compute_outcome(
            pass,
            file,
        ) == Err::<ComputePipelineView, Seq<char>>(
            file.path + ": no "@ + "@compute"@ + " entry point yet — that pass is disabled"@,
        )),
        file.read matches Err(error) ==> compute_outcome(pass, file) == Err::<
            ComputePipelineView,
            Seq<char>,
        >(file.path + ": "@ + error + " — that pass is disabled"@),
{
    let tags = seq!["@compute"@];
    law_loaded_iff_declared(file.path, file.read, tags);
    law_notice_says_why(file.path, file.read, tags, 0);
    assert(tags[0] == "@compute"@);
}

/// A draw has a pipeline exactly when its file was read and declares both
/// `@vertex` and `@fragment` outside of comments.
pub proof fn law_draw_is_gated(pass: DrawPass, file: ShaderFileView)
    ensures
        render_outcome(pass, file) is Ok <==> (file.read matches Ok(source) && declares(
            source,
            "@vertex"@,
        ) && declares(source, "@fragment"@)),
        file.read matches Ok(source) ==> (!declares(source, "@vertex"@) ==> render_outcome(
            pass,
            file,
        ) == Err::<RenderPipelineView, Seq<char>>(
            file.path + ": no "@ + "@vertex"@ + " entry point yet — that pass is disabled"@,
        )),
        file.read matches Ok(source) ==> (declares(source, "@vertex"@) && !declares(
            source,
            "@fragment"@,
        ) ==> render_outcome(pass, file) == Err::<RenderPipelineView, Seq<char>>(
            file.path + ": no "@ + "@fragment"@ + " entry point yet — that pass is disabled"@,
        )),
        file.read matches Err(error) ==> render_outcome(pass, file) == Err::<
            RenderPipelineView,
            Seq<char>,
        >(file.path + ": "@ + error + " — that pass is disabled"@),
{
    let tags = seq!["@vertex"@, "@fragment"@];
    law_loaded_iff_declared(file.path, file.read, tags);
    law_notice_says_why(file.path, file.read, tags, 0);
    law_notice_says_why(file.path, file.read, tags, 1);
    assert(tags[0] == "@vertex"@ && tags[1] == "@fragment"@);
}

/// A pipeline compiles the file as it was read, for the pass that it was asked
/// for, at that pass's entry point and with the layout of that pass alone.
pub proof fn law_compute_pipeline_runs_its_file(pass: ComputePass, file: ShaderFileView)
    ensures
        compute_outcome(pass, file) matches Ok(pipeline) ==> {
            &&& pipeline.pass == pass
            &&& file.read == Ok::<Seq<char>, Seq<char>>(pipeline.source)
            &&& pipeline.immediate_size == 0
            &&& pass == ComputePass::Init ==> {
                &&& pipeline.entry_point == "init_agents"@
                &&& pipeline.layout == LayoutId::InitPass
                &&& pipeline.label == "init pass"@
            }
            &&& pass == ComputePass::Agents ==> {
                &&& pipeline.entry_point == "update_agents"@
                &&& pipeline.layout == LayoutId::AgentPass
                &&& pipeline.label == "agent pass"@
            }
            &&& pass == ComputePass::Diffuse ==> {
                &&& pipeline.entry_point == "diffuse"@
                &&& pipeline.layout == LayoutId::DiffusePass
                &&& pipeline.label == "diffuse pass"@
            }
        },
{
    law_loaded_iff_declared(file.path, file.read, seq!["@compute"@]);
}

/// A draw compiles the file as it was read, for its own layout. It draws strips
/// of triangles from no vertex buffer, culls and tests nothing, and writes
/// every channel. The trail replaces what is there; the agents are added to it,
/// weighed by their opacity.
pub proof fn law_render_pipeline_runs_its_file(pass: DrawPass, file: ShaderFileView)
    ensures
        render_outcome(pass, file) matches Ok(pipeline) ==> {
            &&& pipeline.pass == pass
            &&& file.read == Ok::<Seq<char>, Seq<char>>(pipeline.source)
            &&& pipeline.immediate_size == 0
            &&& pipeline.vertex_entry == "vs_main"@
            &&& pipeline.fragment_entry == "fs_main"@
            &&& pipeline.vertex_input == VertexInput::Bufferless
            &&& pipeline.topology == Topology::TriangleStrip
            &&& pipeline.cull_mode is None
            &&& pipeline.depth_test == DepthTest::Off
            &&& pipeline.samples == 1
            &&& pipeline.write_mask.red && pipeline.write_mask.green && pipeline.write_mask.blue
                && pipeline.write_mask.alpha
            &&& pass == DrawPass::Trail ==> {
                &&& pipeline.layout == LayoutId::TrailDraw
                &&& pipeline.label == "trail"@
                &&& pipeline.blend is None
            }
            &&& pass == DrawPass::Agents ==> {
                &&& pipeline.layout == LayoutId::AgentDraw
                &&& pipeline.label == "agent billboards"@
                &&& pipeline.blend matches Some(blend) && blend.color.src_factor
                    == BlendFactor::SrcAlpha && blend.color.dst_factor == BlendFactor::One
                    && blend.alpha.src_factor == BlendFactor::One && blend.alpha.dst_factor
                    == BlendFactor::OneMinusSrcAlpha
            }
        },
{
    law_loaded_iff_declared(file.path, file.read, seq!["@vertex"@, "@fragment"@]);
}

/// Each pass has its own file, in the project's directory for shaders, wherever
/// the project is.
pub proof fn law_shaders_lie_in_the_project(root: Seq<char>)
    ensures
        ComputePass::Init.shader_path(root) == root + "/shaders/init.wgsl"@,
        ComputePass::Agents.shader_path(root) == root + "/shaders/compute.wgsl"@,
        ComputePass::Diffuse.shader_path(root) == root + "/shaders/diffuse.wgsl"@,
        DrawPass::Trail.shader_path(root) == root + "/shaders/trail.wgsl"@,
        DrawPass::Agents.shader_path(root) == root + "/shaders/render.wgsl"@,
{
}

/// What each pass is called when it is recorded.
pub proof fn law_passes_have_their_labels()
    ensures
        ComputePass::Init.label_text() == "init agents"@,
        ComputePass::Agents.label_text() == "update agents"@,
        ComputePass::Diffuse.label_text() == "diffuse + decay"@,
{
}

} // verus!
