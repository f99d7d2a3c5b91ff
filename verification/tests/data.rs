use airplane::agent::{Agent, AGENT_BYTES};
use airplane::camera::{Camera, CAMERA_BYTES};
use airplane::params::{SimParams, SIM_PARAMS_BYTES};
use airplane::resources::BufferId;
use airplane::single::{clamp_step, Single, MAX_STEP_BITS};
use airplane::state::{INIT_RAD_BITS, N_AGENTS, GRID_SIDE, WORLD_HALF_BITS};
use airplane::wire::encode_words;

fn single(x: f32) -> Single {
    Single { bits: x.to_bits() }
}

fn value(x: Single) -> f32 {
    f32::from_bits(x.bits)
}

#[test]
fn words_are_laid_out_in_memory_order() {
    let words = [0x0102_0304u32, 0xfffe_fdfc, 0, 1];
    let mut expected: Vec<u8> = Vec::new();
    for word in words {
        expected.extend_from_slice(&word.to_ne_bytes());
    }
    assert_eq!(encode_words(&words), expected);
    assert_eq!(encode_words(&[]), Vec::<u8>::new());
}

#[test]
fn different_words_have_different_bytes() {
    assert_ne!(encode_words(&[1, 0]), encode_words(&[0, 1]));
    assert_ne!(encode_words(&[1]), encode_words(&[0x0100_0000]));
    assert_ne!(encode_words(&[0]), encode_words(&[0, 0]));
}

#[test]
fn fresh_parameters() {
    let p = SimParams::new([2048, 1024], 10_000_000, [single(1024.0), single(512.0)], single(600.0));
    assert_eq!(p.grid, [2048, 1024]);
    assert_eq!(p.n_agents, 10_000_000);
    assert_eq!(p.frame, 0);
    assert_eq!(value(p.world_half[0]), 1024.0);
    assert_eq!(value(p.world_half[1]), 512.0);
    assert_eq!(p.dt.bits, 0.0f32.to_bits());
    assert_eq!(p.sensor_angle.bits, 22.5f32.to_radians().to_bits());
    assert_eq!(value(p.sensor_dist), 1.5);
    assert_eq!(value(p.turn_speed), 8.0);
    assert_eq!(value(p.move_speed), 100.0);
    assert_eq!(value(p.sensitivity), 10.0);
    assert_eq!(value(p.deposit), 1.0);
    assert_eq!(value(p.decay_rate), 3.0);
    assert_eq!(value(p.diffuse_rate), 1.0);
    assert_eq!(p.row_width, 396 * 64);
    assert_eq!(value(p.init_rad), 600.0);
    assert_eq!(p._pad, [single(0.0), single(0.0), single(0.0)]);
}

#[test]
fn the_blur_is_a_weight() {
    for n in [0, 1, 10_000_000, u32::MAX] {
        let p = SimParams::new([8, 8], n, [single(4.0); 2], single(1.0));
        assert!((0.0..=1.0).contains(&value(p.diffuse_rate)));
    }
}

#[test]
fn row_width_of_small_and_empty_worlds() {
    let wide = |n: u32| SimParams::new([8, 8], n, [single(4.0); 2], single(1.0)).row_width;
    assert_eq!(wide(0), 0);
    assert_eq!(wide(1), 64);
    assert_eq!(wide(64), 64);
    assert_eq!(wide(65), 128);
    assert_eq!(wide(4_194_240), 4_194_240);
    assert_eq!(wide(4_194_241), 256 * 64);
    assert_eq!(wide(u32::MAX), 8192 * 64);
}

#[test]
fn parameter_bytes() {
    let mut p = SimParams::new([3, 5], 7, [single(1.5), single(2.5)], single(0.75));
    p.frame = 11;
    p.dt = single(0.125);
    let bytes = p.bytes();
    assert_eq!(bytes.len() as u64, SIM_PARAMS_BYTES);
    let word = |i: usize| {
        u32::from_ne_bytes([bytes[4 * i], bytes[4 * i + 1], bytes[4 * i + 2], bytes[4 * i + 3]])
    };
    let expected = [
        3,
        5,
        7,
        11,
        1.5f32.to_bits(),
        2.5f32.to_bits(),
        0.125f32.to_bits(),
        22.5f32.to_radians().to_bits(),
        1.5f32.to_bits(),
        8f32.to_bits(),
        100f32.to_bits(),
        10f32.to_bits(),
        1f32.to_bits(),
        3f32.to_bits(),
        1f32.to_bits(),
        64,
        0.75f32.to_bits(),
        0,
        0,
        0,
    ];
    for i in 0..20 {
        assert_eq!(word(i), expected[i]);
    }
    let mut q = p;
    assert_eq!(q.bytes(), bytes);
    q.frame = 12;
    assert_ne!(q.bytes(), bytes);
}

#[test]
fn camera_packing_and_bytes() {
    let mut columns = [[single(0.0); 4]; 4];
    for c in 0..4 {
        for r in 0..4 {
            columns[c][r] = single((4 * c + r) as f32);
        }
    }
    let camera = Camera::pack(
        columns,
        [single(16.0), single(17.0), single(18.0)],
        [single(20.0), single(21.0), single(22.0)],
        single(24.0),
    );
    assert_eq!(camera.view_proj, columns);
    assert_eq!(camera.right, [single(16.0), single(17.0), single(18.0), single(0.0)]);
    assert_eq!(camera.up, [single(20.0), single(21.0), single(22.0), single(0.0)]);
    assert_eq!(camera.params, [single(24.0), single(0.0), single(0.0), single(0.0)]);
    let bytes = camera.bytes();
    assert_eq!(bytes.len() as u64, CAMERA_BYTES);
    for i in 0..28usize {
        let expected = if i == 19 || i == 23 || i > 24 { 0.0 } else { i as f32 };
        assert_eq!(bytes[4 * i..4 * i + 4], expected.to_ne_bytes());
    }
}

#[test]
fn camera_buffer() {
    let plan = Camera::create_buffer();
    assert_eq!(plan.id, BufferId::Camera);
    assert_eq!(plan.label, "camera uniform");
    assert_eq!(plan.size, 112);
    assert!(plan.usage.uniform && plan.usage.copy_dst);
    assert!(!plan.usage.storage && !plan.usage.copy_src);
}

#[test]
fn an_agent_is_24_bytes() {
    assert_eq!(std::mem::size_of::<Agent>() as u64, AGENT_BYTES);
    let agent = Agent {
        pos: [single(1.0), single(2.0)],
        heading: [single(0.0), single(1.0)],
        speed: single(1.0),
        species: 0,
    };
    assert_eq!(agent.species, 0);
}

#[test]
fn a_step_is_clamped_as_floats_are() {
    let limit = 1.0f32 / 30.0;
    let samples = [
        0.0,
        -0.0,
        f32::MIN_POSITIVE,
        1e-45,
        0.01,
        limit,
        f32::from_bits(limit.to_bits() - 1),
        f32::from_bits(limit.to_bits() + 1),
        0.5,
        1.0,
        1e30,
        f32::MAX,
        f32::INFINITY,
        -1.0,
        -1e-45,
        f32::NEG_INFINITY,
    ];
    for x in samples {
        assert_eq!(clamp_step(single(x)).bits, x.min(limit).to_bits());
    }
    assert_eq!(value(clamp_step(single(f32::NAN))), limit);
    assert_eq!(value(clamp_step(single(-f32::NAN))), limit);
}

#[test]
fn the_world_matches_the_grid() {
    assert_eq!(f32::from_bits(WORLD_HALF_BITS), GRID_SIDE as f32 * 0.5);
    assert_eq!(f32::from_bits(INIT_RAD_BITS), 600.0);
    let density = N_AGENTS as f64 / (GRID_SIDE as f64 * GRID_SIDE as f64);
    assert!(2.3 < density && density < 2.5);
}

#[test]
fn no_number_is_nearer_to_a_thirtieth_than_the_limit() {
    let off = |bits: u32| (30.0 * f64::from(f32::from_bits(bits)) - 1.0).abs();
    assert_eq!(MAX_STEP_BITS, (1.0f32 / 30.0).to_bits());
    assert_eq!(off(MAX_STEP_BITS), 14.0 / f64::from(1 << 28));
    for other in [MAX_STEP_BITS - 1, MAX_STEP_BITS + 1, 0, 0x8000_0000, 0x7f80_0000] {
        assert!(off(MAX_STEP_BITS) < off(other));
    }
}
