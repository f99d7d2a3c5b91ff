use airplane::dispatch::{dispatch_2d, div_ceil, MAX_WORKGROUPS_PER_DIM, WORKGROUP_SIZE};

#[test]
fn one_row_up_to_the_limit() {
    assert_eq!(dispatch_2d(0), (0, 1));
    assert_eq!(dispatch_2d(1), (1, 1));
    assert_eq!(dispatch_2d(65534), (65534, 1));
    assert_eq!(dispatch_2d(65535), (65535, 1));
}

#[test]
fn rough_square_past_the_limit() {
    assert_eq!(dispatch_2d(65536), (256, 256));
    assert_eq!(dispatch_2d(65537), (257, 256));
    assert_eq!(dispatch_2d(156_250), (396, 395));
    assert_eq!(dispatch_2d(67_108_864), (8192, 8192));
}

#[test]
fn shapes_agree_with_the_float_square_root() {
    let mut total: u32 = 65_000;
    while total < 4_000_000_000 {
        let expected = if total <= 65535 {
            (total, 1)
        } else {
            let x = (total as f64).sqrt().ceil() as u32;
            (x, total.div_ceil(x))
        };
        assert_eq!(dispatch_2d(total), expected);
        total += 1 + total / 97;
    }
    for side in [257u32, 300, 1000, 8192, 65535] {
        let square = side * side;
        assert_eq!(dispatch_2d(square).0, (square as f64).sqrt().ceil() as u32);
        assert_eq!(dispatch_2d(square + 1).0, ((square + 1) as f64).sqrt().ceil() as u32);
        assert_eq!(dispatch_2d(square - 1).0, ((square - 1) as f64).sqrt().ceil() as u32);
    }
}

#[test]
fn the_last_count_that_two_dimensions_hold() {
    let most = MAX_WORKGROUPS_PER_DIM * MAX_WORKGROUPS_PER_DIM;
    assert_eq!(dispatch_2d(most), (65535, 65535));
    // Past it no two dimensions within the limit are enough.
    assert_eq!(dispatch_2d(most + 1), (65536, 65535));
    assert_eq!(dispatch_2d(u32::MAX), (65536, 65536));
}

#[test]
fn every_workgroup_is_covered_with_less_than_a_row_to_spare() {
    for total in [1u32, 64, 65535, 65536, 70_000, 99_999, 1_000_003, 67_108_863] {
        let (x, y) = dispatch_2d(total);
        let held = x as u64 * y as u64;
        assert!(held >= total as u64);
        assert!(held < total as u64 + x as u64);
    }
}

#[test]
fn every_agent_has_one_invocation() {
    let n: u32 = 4_200_000;
    let (gx, gy) = dispatch_2d(div_ceil(n, WORKGROUP_SIZE));
    let width = gx * WORKGROUP_SIZE;
    assert!(gy > 1);
    for agent in [0, 1, width - 1, width, n / 2, n - 1] {
        let (x, y) = (agent % width, agent / width);
        assert!(x < width && y < gy);
        assert_eq!(y * width + x, agent);
    }
}

#[test]
fn the_capacity_of_one_row() {
    assert_eq!(dispatch_2d(div_ceil(4_194_240, WORKGROUP_SIZE)), (65535, 1));
    assert_eq!(dispatch_2d(div_ceil(4_194_241, WORKGROUP_SIZE)), (256, 256));
}

#[test]
fn the_largest_agent_count_fits() {
    let (gx, gy) = dispatch_2d(div_ceil(u32::MAX, WORKGROUP_SIZE));
    assert_eq!((gx, gy), (8192, 8192));
    assert_eq!(gx as u64 * 64 * gy as u64, 1 << 32);
}

#[test]
fn division_rounds_up() {
    assert_eq!(div_ceil(0, 8), 0);
    assert_eq!(div_ceil(1, 8), 1);
    assert_eq!(div_ceil(8, 8), 1);
    assert_eq!(div_ceil(9, 8), 2);
    assert_eq!(div_ceil(u32::MAX, 1), u32::MAX);
    assert_eq!(div_ceil(u32::MAX, 2), 0x8000_0000);
}

#[test]
fn the_diffuse_dispatch_covers_a_ragged_grid() {
    // 20 cells are three workgroups of eight, the last with four to spare.
    assert_eq!(div_ceil(20, 8), 3);
    for cell in 0u32..20 {
        assert!(cell / 8 < 3);
        assert_eq!(cell / 8 * 8 + cell % 8, cell);
    }
}
