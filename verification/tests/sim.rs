use airplane::params::SimParams;
use airplane::pipeline::{ComputePass, ShaderFile};
use airplane::resources::{BindGroupId, BufferId, LayoutId};
use airplane::sim::{EncoderOp, Sim, SimSetup, SimShaders, Workgroups};
use airplane::single::Single;

fn single(x: f32) -> Single {
    Single { bits: x.to_bits() }
}

fn file(ready: bool) -> ShaderFile {
    let source = if ready { "@compute fn f() {}" } else { "// @compute" };
    ShaderFile { path: "shader".to_string(), read: Ok(source.to_string()) }
}

fn set_up(n: u32, agents: bool, diffuse: bool, init: bool) -> SimSetup {
    let shaders = SimShaders { agents: file(agents), diffuse: file(diffuse), init: file(init) };
    Sim::new([100, 50], n, [single(50.0), single(25.0)], single(10.0), shaders)
}

#[test]
fn a_new_simulation() {
    let setup = set_up(1000, true, true, true);
    assert_eq!(setup.sim.current_slot(), 0);
    assert_eq!(setup.sim.n_agents(), 1000);
    let fresh = SimParams::new([100, 50], 1000, [single(50.0), single(25.0)], single(10.0));
    assert_eq!(*setup.sim.params(), fresh);

    let buffers: Vec<_> = setup.buffers.iter().map(|b| (b.id, b.label, b.size)).collect();
    assert_eq!(
        buffers,
        vec![
            (BufferId::Agents { half: 0 }, "agents A", 24_000),
            (BufferId::Agents { half: 1 }, "agents B", 24_000),
            (BufferId::Trail { half: 0 }, "trail A", 80_000),
            (BufferId::Trail { half: 1 }, "trail B", 80_000),
            (BufferId::Params, "sim params", 80),
        ]
    );
    assert!(setup.buffers[0].usage.storage && setup.buffers[0].usage.copy_src);
    assert!(setup.buffers[2].usage.storage && !setup.buffers[2].usage.copy_src);
    assert!(setup.buffers[4].usage.uniform && !setup.buffers[4].usage.storage);
    for buffer in &setup.buffers {
        assert!(buffer.usage.copy_dst);
        assert!(!buffer.mapped_at_creation);
    }

    let layouts: Vec<_> = setup.layouts.iter().map(|l| l.id).collect();
    assert_eq!(layouts, vec![LayoutId::AgentPass, LayoutId::DiffusePass, LayoutId::InitPass]);
    for entry in setup.layouts.iter().flat_map(|l| &l.entries) {
        assert!(!entry.has_dynamic_offset);
        assert_eq!(entry.min_binding_size, None);
    }
    let groups: Vec<_> = setup.bind_groups.iter().map(|g| g.label).collect();
    assert_eq!(
        groups,
        vec!["agents A->B", "agents B->A", "diffuse A->B", "diffuse B->A", "init agents A"]
    );
    assert_eq!(setup.agent_pipeline.unwrap().entry_point, "update_agents");
    assert_eq!(setup.diffuse_pipeline.unwrap().entry_point, "diffuse");
    assert_eq!(setup.init_pipeline.unwrap().entry_point, "init_agents");
}

#[test]
fn seeding() {
    let setup = set_up(1000, true, true, true);
    assert_eq!(setup.seed.upload.buffer, BufferId::Params);
    assert_eq!(setup.seed.upload.bytes, setup.sim.params().bytes());
    let submission = setup.seed.submission.unwrap();
    assert_eq!(submission.label, "seed");
    assert_eq!(
        submission.ops,
        vec![
            EncoderOp::Clear { buffer: BufferId::Trail { half: 0 } },
            EncoderOp::Clear { buffer: BufferId::Trail { half: 1 } },
            EncoderOp::Compute {
                pass: ComputePass::Init,
                bind_group: BindGroupId::InitPass,
                groups: Workgroups { x: 16, y: 1, z: 1 },
            },
        ]
    );
}

#[test]
fn a_step_records_both_passes_and_flips() {
    let mut sim = set_up(1000, true, true, true).sim;
    let work = sim.step(single(0.25));
    assert_eq!(sim.params().frame, 1);
    assert_eq!(sim.params().dt, single(0.25));
    assert_eq!(sim.current_slot(), 1);
    assert_eq!(work.upload.bytes, sim.params().bytes());
    let submission = work.submission.unwrap();
    assert_eq!(submission.label, "sim step");
    assert_eq!(
        submission.ops,
        vec![
            EncoderOp::Compute {
                pass: ComputePass::Agents,
                bind_group: BindGroupId::AgentPass { half: 0 },
                groups: Workgroups { x: 16, y: 1, z: 1 },
            },
            EncoderOp::Compute {
                pass: ComputePass::Diffuse,
                bind_group: BindGroupId::DiffusePass { half: 0 },
                groups: Workgroups { x: 13, y: 7, z: 1 },
            },
        ]
    );
    let next = sim.step(single(0.5)).submission.unwrap();
    assert_eq!(sim.current_slot(), 0);
    assert_eq!(
        next.ops[0],
        EncoderOp::Compute {
            pass: ComputePass::Agents,
            bind_group: BindGroupId::AgentPass { half: 1 },
            groups: Workgroups { x: 16, y: 1, z: 1 },
        }
    );
    assert_eq!(
        next.ops[1],
        EncoderOp::Compute {
            pass: ComputePass::Diffuse,
            bind_group: BindGroupId::DiffusePass { half: 1 },
            groups: Workgroups { x: 13, y: 7, z: 1 },
        }
    );
}

#[test]
fn many_agents_go_two_dimensional() {
    let mut sim = set_up(10_000_000, true, true, true).sim;
    let work = sim.step(single(0.0));
    match work.submission.unwrap().ops[0] {
        EncoderOp::Compute { groups, .. } => {
            assert_eq!(groups, Workgroups { x: 396, y: 395, z: 1 });
            assert_eq!(sim.params().row_width, groups.x * 64);
        }
        _ => panic!("the first command is the agent pass"),
    }
}

#[test]
fn a_step_without_a_pass_only_uploads() {
    for (agents, diffuse) in [(false, true), (true, false), (false, false)] {
        let mut sim = set_up(10, agents, diffuse, true).sim;
        let work = sim.step(single(0.25));
        assert!(work.submission.is_none());
        assert_eq!(work.upload.bytes, sim.params().bytes());
        assert_eq!(sim.params().frame, 1);
        assert_eq!(sim.params().dt, single(0.25));
        assert_eq!(sim.current_slot(), 0);
    }
}

#[test]
fn missing_passes_leave_notices() {
    let setup = set_up(10, false, true, false);
    assert_eq!(
        setup.agent_pipeline.unwrap_err(),
        "shader: no @compute entry point yet — that pass is disabled"
    );
    assert!(setup.diffuse_pipeline.is_ok());
    assert!(setup.init_pipeline.is_err());
    assert_eq!(setup.seed.upload.buffer, BufferId::Params);
    let submission = setup.seed.submission.unwrap();
    assert_eq!(submission.label, "seed");
    assert_eq!(
        submission.ops,
        vec![
            EncoderOp::Clear { buffer: BufferId::Trail { half: 0 } },
            EncoderOp::Clear { buffer: BufferId::Trail { half: 1 } },
        ]
    );
}

#[test]
fn reset_returns_to_the_first_half_and_keeps_the_frame() {
    let mut sim = set_up(1000, true, true, true).sim;
    sim.step(single(0.25));
    assert_eq!(sim.current_slot(), 1);
    let work = sim.reset();
    assert_eq!(sim.current_slot(), 0);
    assert_eq!(sim.params().frame, 1);
    assert_eq!(work.upload.bytes, sim.params().bytes());
    assert_eq!(work.submission.as_ref().unwrap().ops.len(), 3);
    let again = sim.reset();
    assert_eq!(again, work);
}

#[test]
fn the_frame_counter_wraps() {
    let mut sim = set_up(10, true, true, true).sim;
    sim.params_mut().frame = u32::MAX;
    sim.step(single(0.0));
    assert_eq!(sim.params().frame, 0);
}

#[test]
fn changed_parameters_are_used() {
    let mut sim = set_up(10, true, true, true).sim;
    sim.params_mut().n_agents = 6400;
    sim.params_mut().grid = [8, 9];
    assert_eq!(sim.n_agents(), 6400);
    let ops = sim.step(single(0.0)).submission.unwrap().ops;
    assert!(matches!(ops[0], EncoderOp::Compute { groups: Workgroups { x: 100, y: 1, z: 1 }, .. }));
    assert!(matches!(ops[1], EncoderOp::Compute { groups: Workgroups { x: 1, y: 2, z: 1 }, .. }));
}

#[test]
fn the_buffers_of_a_simulation() {
    let sim = set_up(10, true, true, true).sim;
    assert_eq!(sim.agent_buffers(), [BufferId::Agents { half: 0 }, BufferId::Agents { half: 1 }]);
    assert_eq!(sim.trail_buffers(), [BufferId::Trail { half: 0 }, BufferId::Trail { half: 1 }]);
    assert_eq!(sim.params_buffer(), BufferId::Params);
}

/// The buffers of a small world, as text: each pass appends its mark to what it
/// reads.
struct Buffers {
    agents: [String; 2],
    trail: [String; 2],
}

impl Buffers {
    fn run(&mut self, ops: &[EncoderOp]) {
        for op in ops {
            match op {
                EncoderOp::Clear { buffer: BufferId::Trail { half } } => {
                    self.trail[*half] = String::new();
                }
                EncoderOp::Compute { pass: ComputePass::Init, .. } => {
                    self.agents[0] = "s".to_string();
                }
                EncoderOp::Compute {
                    bind_group: BindGroupId::AgentPass { half }, ..
                } => {
                    self.agents[1 - half] = format!("{}m", self.agents[*half]);
                    self.trail[*half] = format!("{}{}", self.trail[*half], "d");
                }
                EncoderOp::Compute {
                    bind_group: BindGroupId::DiffusePass { half }, ..
                } => {
                    self.trail[1 - half] = format!("{}f", self.trail[*half]);
                }
                _ => panic!("no such command is recorded"),
            }
        }
    }
}

#[test]
fn the_live_state_advances_whichever_half_it_is_in() {
    let setup = set_up(10, true, true, true);
    let mut sim = setup.sim;
    let mut world = Buffers {
        agents: ["old".to_string(), "old".to_string()],
        trail: ["old".to_string(), "old".to_string()],
    };
    world.run(&setup.seed.submission.unwrap().ops);
    for steps in 0..6 {
        let live = sim.current_slot();
        assert_eq!(world.agents[live], format!("s{}", "m".repeat(steps)));
        assert_eq!(world.trail[live], "df".repeat(steps));
        let work = sim.step(single(0.01));
        world.run(&work.submission.unwrap().ops);
    }
    world.run(&sim.reset().submission.unwrap().ops);
    assert_eq!(world.agents[sim.current_slot()], "s");
    assert_eq!(world.trail, [String::new(), String::new()]);
}

#[test]
fn a_reset_without_the_seeding_pass_still_wipes_the_trail() {
    let mut sim = set_up(10, true, true, false).sim;
    let mut world = Buffers {
        agents: ["a".to_string(), "b".to_string()],
        trail: ["old".to_string(), "old".to_string()],
    };
    world.run(&sim.step(single(0.01)).submission.unwrap().ops);
    assert_eq!(sim.current_slot(), 1);
    assert_eq!(world.trail[1], "olddf");
    world.run(&sim.reset().submission.unwrap().ops);
    assert_eq!(sim.current_slot(), 0);
    assert_eq!(world.trail, [String::new(), String::new()]);
    assert_eq!(world.agents, ["a".to_string(), "am".to_string()]);
}
