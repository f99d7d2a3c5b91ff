use airplane::camera::Camera;
use airplane::pipeline::{ColorWrites, DepthTest, DrawPass, ShaderFile, VertexInput};
use airplane::renderer::{
    Color, DrawCall, FramePass, FrameWork, PresentMode, RenderShaders, Renderer, RendererError,
    RendererSetup, ResizeWork, SurfacePlan, SurfaceStatus, SurfaceUsage,
};
use airplane::resources::{BindGroupId, BufferId, LayoutId};
use airplane::sim::SimShaders;
use airplane::single::Single;
use airplane::state::{Action, App, Event, Key, Started, State};

fn single(x: f32) -> Single {
    Single { bits: x.to_bits() }
}

fn file(source: &str) -> ShaderFile {
    ShaderFile { path: "shader".to_string(), read: Ok(source.to_string()) }
}

fn drawn(ready: bool) -> ShaderFile {
    file(if ready { "@vertex @fragment" } else { "@vertex" })
}

fn set_up(width: u32, height: u32, trail: bool, agents: bool) -> RendererSetup {
    let shaders = RenderShaders { trail: drawn(trail), agents: drawn(agents) };
    Renderer::new(width, height, true, shaders).unwrap()
}

fn surface(width: u32, height: u32) -> SurfacePlan {
    SurfacePlan {
        usage: SurfaceUsage::RenderAttachment,
        present_mode: PresentMode::AutoVsync,
        width,
        height,
    }
}

fn resized(width: u32, height: u32) -> ResizeWork {
    ResizeWork { surface: surface(width, height), camera_aspect: (width, height) }
}

fn frame(calls: Vec<DrawCall>) -> FrameWork {
    let pass = FramePass {
        encoder_label: "frame",
        label: "draw",
        clear: Color {
            r: 0.01f64.to_bits(),
            g: 0.01f64.to_bits(),
            b: 0.02f64.to_bits(),
            a: 1f64.to_bits(),
        },
    };
    FrameWork::Draw { pass, calls }
}

fn trail_call(half: usize) -> DrawCall {
    DrawCall {
        pass: DrawPass::Trail,
        bind_group: BindGroupId::TrailDraw { half },
        vertices: 4,
        instances: 1,
    }
}

fn agents_call(half: usize, instances: u32) -> DrawCall {
    DrawCall {
        pass: DrawPass::Agents,
        bind_group: BindGroupId::AgentDraw { half },
        vertices: 4,
        instances,
    }
}

#[test]
fn a_new_renderer() {
    let setup = set_up(900, 600, true, false);
    assert_eq!(setup.surface, surface(900, 600));
    assert_eq!(setup.renderer.aspect(), (900, 600));
    assert_eq!(setup.camera_aspect, (900, 600));
    assert!(!setup.renderer.show_agents());
    let layouts: Vec<_> = setup.layouts.iter().map(|l| l.id).collect();
    assert_eq!(layouts, vec![LayoutId::TrailDraw, LayoutId::AgentDraw]);
    let groups: Vec<_> = setup.bind_groups.iter().map(|g| g.id).collect();
    assert_eq!(
        groups,
        vec![
            BindGroupId::TrailDraw { half: 0 },
            BindGroupId::TrailDraw { half: 1 },
            BindGroupId::AgentDraw { half: 0 },
            BindGroupId::AgentDraw { half: 1 },
        ]
    );
    assert_eq!(setup.trail_pipeline.unwrap().label, "trail");
    assert_eq!(
        setup.agent_pipeline.unwrap_err(),
        "shader: no @fragment entry point yet — that pass is disabled"
    );
}

#[test]
fn an_unsupported_surface() {
    let shaders = RenderShaders { trail: drawn(true), agents: drawn(true) };
    assert_eq!(
        Renderer::new(1, 1, false, shaders).unwrap_err(),
        RendererError::UnsupportedSurface
    );
}

#[test]
fn a_surface_has_at_least_one_pixel() {
    assert_eq!(set_up(0, 0, true, true).surface, surface(1, 1));
    assert_eq!(set_up(0, 0, true, true).camera_aspect, (1, 1));
    assert_eq!(set_up(0, 7, true, true).camera_aspect, (1, 7));
    assert_eq!(Renderer::surface_size(0, 7), surface(1, 7));
    assert_eq!(Renderer::surface_size(7, 0), surface(7, 1));
}

#[test]
fn resizing() {
    let mut renderer = set_up(900, 600, true, true).renderer;
    assert_eq!(renderer.resize(0, 100), None);
    assert_eq!(renderer.resize(100, 0), None);
    assert_eq!(renderer.aspect(), (900, 600));
    assert_eq!(renderer.resize(300, 200), Some(resized(300, 200)));
    assert_eq!(renderer.aspect(), (300, 200));
}

#[test]
fn draws_follow_what_is_ready_and_shown() {
    for slot in 0..2 {
        let mut both = set_up(9, 9, true, true).renderer;
        assert_eq!(
            both.render(SurfaceStatus::Success, slot, 5),
            frame(vec![trail_call(slot)])
        );
        both.toggle_agents();
        assert_eq!(
            both.render(SurfaceStatus::Suboptimal, slot, 5),
            frame(vec![trail_call(slot), agents_call(slot, 5)])
        );
        let mut agents_only = set_up(9, 9, false, true).renderer;
        assert_eq!(
            agents_only.render(SurfaceStatus::Success, slot, 5),
            frame(vec![])
        );
        agents_only.toggle_agents();
        assert_eq!(
            agents_only.render(SurfaceStatus::Success, slot, 5),
            frame(vec![agents_call(slot, 5)])
        );
        let mut trail_only = set_up(9, 9, true, false).renderer;
        trail_only.toggle_agents();
        assert_eq!(
            trail_only.render(SurfaceStatus::Success, slot, 5),
            frame(vec![trail_call(slot)])
        );
    }
}

#[test]
fn frames_that_are_skipped() {
    let renderer = set_up(9, 8, true, true).renderer;
    for status in [SurfaceStatus::Outdated, SurfaceStatus::Lost] {
        let work = renderer.render(status, 0, 5);
        assert_eq!(work, FrameWork::Reconfigure { surface: surface(9, 8) });
        assert!(!work.presented());
    }
    for status in [SurfaceStatus::Timeout, SurfaceStatus::Occluded, SurfaceStatus::Validation] {
        let work = renderer.render(status, 0, 5);
        assert_eq!(work, FrameWork::Skip);
        assert!(!work.presented());
    }
    assert!(renderer.render(SurfaceStatus::Success, 0, 5).presented());
}

#[test]
fn no_half_is_looked_up_where_nothing_is_drawn() {
    let mut renderer = set_up(9, 8, true, true).renderer;
    renderer.toggle_agents();
    assert_eq!(renderer.render(SurfaceStatus::Timeout, 2, 5), FrameWork::Skip);
    assert_eq!(
        renderer.render(SurfaceStatus::Lost, usize::MAX, 5),
        FrameWork::Reconfigure { surface: surface(9, 8) }
    );
    let mut idle = set_up(9, 8, false, true).renderer;
    assert_eq!(idle.render(SurfaceStatus::Success, 2, 5), frame(vec![]));
    idle = set_up(9, 8, false, false).renderer;
    idle.toggle_agents();
    assert_eq!(idle.render(SurfaceStatus::Success, 2, 5), frame(vec![]));
}

#[test]
fn showing_the_agents() {
    let mut renderer = set_up(9, 8, true, true).renderer;
    renderer.set_show_agents(true);
    renderer.set_show_agents(true);
    assert!(renderer.show_agents());
    assert_eq!(
        renderer.render(SurfaceStatus::Success, 0, 5),
        frame(vec![trail_call(0), agents_call(0, 5)])
    );
    renderer.set_show_agents(false);
    assert!(!renderer.show_agents());
}

#[test]
fn render_pipelines_need_no_vertex_buffers_and_write_every_channel() {
    let setup = set_up(9, 8, true, true);
    for plan in [setup.trail_pipeline.unwrap(), setup.agent_pipeline.unwrap()] {
        assert_eq!(plan.vertex_input, VertexInput::Bufferless);
        assert_eq!(plan.cull_mode, None);
        assert_eq!(plan.depth_test, DepthTest::Off);
        assert_eq!(plan.samples, 1);
        assert_eq!(
            plan.write_mask,
            ColorWrites { red: true, green: true, blue: true, alpha: true }
        );
        assert_eq!(plan.immediate_size, 0);
    }
}

#[test]
fn the_camera_upload() {
    let zero = single(0.0);
    let camera = Camera::pack([[zero; 4]; 4], [single(1.0); 3], [single(2.0); 3], single(0.5));
    let upload = set_up(9, 9, true, true).renderer.upload_camera(&camera);
    assert_eq!(upload.buffer, BufferId::Camera);
    assert_eq!(upload.bytes, camera.bytes());
}

fn running() -> App {
    let compute = "@compute";
    let shaders =
        SimShaders { agents: file(compute), diffuse: file(compute), init: file(compute) };
    let setup = State::simulation(shaders);
    let mut app = App::new();
    assert!(app.resumed());
    let state = State::new(setup.sim, set_up(900, 900, true, true).renderer);
    assert_eq!(app.started(Some(state)), Started::RequestRedraw);
    app
}

fn press(key: Key) -> Event {
    Event::Keyboard { key, pressed: true }
}

#[test]
fn the_simulation_of_the_program() {
    let app = running();
    let sim = &app.state.as_ref().unwrap().sim;
    assert_eq!(sim.n_agents(), 10_000_000);
    assert_eq!(sim.params().grid, [2048, 2048]);
    assert_eq!(sim.params().world_half, [single(1024.0), single(1024.0)]);
    assert_eq!(sim.params().init_rad, single(600.0));
    assert!(f32::from_bits(sim.params().init_rad.bits) <= 1024.0);
}

#[test]
fn nothing_happens_before_the_start() {
    let mut app = App::new();
    assert_eq!(app.window_event(Event::CloseRequested), Action::Nothing);
    assert_eq!(app.window_event(Event::RedrawRequested), Action::Nothing);
    assert_eq!(app.started(None), Started::Exit);
    assert!(app.resumed());
}

#[test]
fn a_running_program_is_not_started_again() {
    assert!(!running().resumed());
}

#[test]
fn events_and_keys() {
    let mut app = running();
    assert_eq!(app.window_event(Event::CloseRequested), Action::Exit);
    assert_eq!(app.window_event(press(Key::Escape)), Action::Exit);
    assert_eq!(app.window_event(Event::RedrawRequested), Action::Frame);
    assert_eq!(app.window_event(Event::Other), Action::Nothing);
    assert_eq!(app.window_event(press(Key::Other)), Action::Nothing);
    assert_eq!(
        app.window_event(Event::Resized { width: 10, height: 20 }),
        Action::Configure { resize: resized(10, 20) }
    );
    assert_eq!(app.window_event(Event::Resized { width: 0, height: 20 }), Action::Nothing);
    assert_eq!(app.state.as_ref().unwrap().renderer.aspect(), (10, 20));
}

#[test]
fn the_overlay_key_toggles() {
    let mut app = running();
    assert_eq!(app.window_event(press(Key::A)), Action::Nothing);
    assert!(app.state.as_ref().unwrap().renderer.show_agents());
    let released = Event::Keyboard { key: Key::A, pressed: false };
    assert_eq!(app.window_event(released), Action::Nothing);
    assert!(app.state.as_ref().unwrap().renderer.show_agents());
    app.window_event(press(Key::A));
    assert!(!app.state.as_ref().unwrap().renderer.show_agents());
}

#[test]
fn released_keys_do_nothing() {
    let mut app = running();
    for key in [Key::A, Key::R, Key::Escape, Key::Other] {
        let event = Event::Keyboard { key, pressed: false };
        assert_eq!(app.window_event(event), Action::Nothing);
    }
}

#[test]
fn the_reset_key_seeds_again() {
    let mut app = running();
    app.state.as_mut().unwrap().advance(single(0.01));
    match app.window_event(press(Key::R)) {
        Action::Seed { work } => assert_eq!(work.submission.unwrap().label, "seed"),
        _ => panic!("the reset key seeds"),
    }
    assert_eq!(app.state.as_ref().unwrap().sim.current_slot(), 0);
}

#[test]
fn a_frame_steps_and_then_draws_the_new_half() {
    let mut app = running();
    let state = app.state.as_mut().unwrap();
    let work = state.advance(single(2.0));
    assert_eq!(work.submission.unwrap().label, "sim step");
    // A stall is clamped.
    assert_eq!(state.sim.params().dt, single(1.0 / 30.0));
    assert_eq!(state.sim.current_slot(), 1);
    assert_eq!(
        state.draw(SurfaceStatus::Success),
        frame(vec![trail_call(1)])
    );
    state.renderer.toggle_agents();
    assert_eq!(
        state.draw(SurfaceStatus::Success),
        frame(vec![trail_call(1), agents_call(1, 10_000_000)])
    );
    state.advance(single(0.001));
    assert_eq!(state.sim.params().dt, single(0.001));
    assert_eq!(state.sim.current_slot(), 0);
}

#[test]
fn the_state_takes_over_a_size() {
    let mut app = running();
    let state = app.state.as_mut().unwrap();
    assert_eq!(state.resize(5, 6), Some(resized(5, 6)));
    assert_eq!(state.resize(5, 0), None);
    assert_eq!(state.renderer.aspect(), (5, 6));
}
