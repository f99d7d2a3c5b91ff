//! How compute work is cut into workgroups.

use vstd::prelude::*;

verus! {

/// Maximum workgroups per dispatch dimension. A hard WebGPU limit, not an
/// adapter one: every backend has it.
pub const MAX_WORKGROUPS_PER_DIM: u32 = 65535;

/// Invocations per workgroup of the agent passes. Must match
/// `@workgroup_size(..)` in the agent shaders.
pub const WORKGROUP_SIZE: u32 = 64;

/// Side of a workgroup of the diffuse pass. Must match `@workgroup_size(..)`
/// in the diffuse shader.
pub const DIFFUSE_WORKGROUP: u32 = 8;

/// `n / d`, rounded up.
pub open spec fn ceil_div(n: int, d: int) -> int {
    (n + d - 1) / d
}

/// `x` is the square root of `n`, rounded up: the least natural number whose
/// square reaches `n`.
pub open spec fn is_ceil_root(x: int, n: int) -> bool {
    &&& x >= 0
    &&& n <= x * x
    &&& x > 0 ==> (x - 1) * (x - 1) < n
}

/// The square root of `n`, rounded up.
pub open spec fn ceil_root(n: int) -> int {
    choose|x: int| is_ceil_root(x, n)
}

/// The two dispatch dimensions that `total` workgroups are laid out in: one
/// row while they fit in one, a rough square past that.
pub open spec fn dispatch_shape(total: int) -> (int, int) {
    if total <= MAX_WORKGROUPS_PER_DIM {
        (total, 1)
    } else {
        (ceil_root(total), ceil_div(total, ceil_root(total)))
    }
}

/// Workgroups that `n_agents` agents need, one invocation each.
pub open spec fn agent_groups(n_agents: int) -> int {
    ceil_div(n_agents, WORKGROUP_SIZE as int)
}

/// Invocations per row of the agent dispatch.
pub open spec fn agent_row_width(n_agents: int) -> int {
    dispatch_shape(agent_groups(n_agents)).0 * WORKGROUP_SIZE
}

/// The agent that invocation `(x, y)` of a dispatch with rows of `row_width`
/// invocations works on.
pub open spec fn flat_index(x: int, y: int, row_width: int) -> int {
    y * row_width + x
}

/// `n / d`, rounded up.
pub fn div_ceil(n: u32, d: u32) -> (q: u32)
    requires
        d > 0,
    ensures
        q == ceil_div(n as int, d as int),
{
    let q: u32 = n / d;
    let r: u32 = n % d;
    proof {
        lemma_ceil_div_cases(n as int, d as int);
    }
    if r > 0 {
        q + 1
    } else {
        q
    }
}

/// The least `x` with `n <= x * x`, found by bisection.
fn ceil_sqrt(n: u32) -> (x: u32)
    ensures
        is_ceil_root(x as int, n as int),
        x <= 65536,
{
    if n == 0 {
        return 0;
    }
    let target: u64 = n as u64;
    let mut low: u64 = 0;
    let mut high: u64 = 65536;
    // The square of `low` is below the target, that of `high` is not.
    while low + 1 < high
        invariant
            low < high <= 65536,
            low * low < target,
            target <= high * high,
            target == n,
        decreases high - low,
    {
        let mid: u64 = low + (high - low) / 2;
        assert(mid * mid <= 65536 * 65536) by (nonlinear_arith)
            requires
                mid <= 65536,
        ;
        if mid * mid < target {
            low = mid;
        } else {
            high = mid;
        }
    }
    high as u32
}

/// Split a workgroup count across two dimensions when it will not fit in one.
///
/// At 64 invocations per workgroup a one-dimensional dispatch tops out at
/// 65535 * 64 = 4,194,240 agents. Past that the dispatch is laid out as a
/// rough square, and the shader rebuilds the flat index as
/// `gid.y * row_width + gid.x`.
pub fn dispatch_2d(total_groups: u32) -> (shape: (u32, u32))
    ensures
        (shape.0 as int, shape.1 as int) == dispatch_shape(total_groups as int),
        total_groups <= MAX_WORKGROUPS_PER_DIM ==> shape == (total_groups, 1u32),
        total_groups > MAX_WORKGROUPS_PER_DIM ==> {
            &&& is_ceil_root(shape.0 as int, total_groups as int)
            &&& shape.1 == ceil_div(total_groups as int, shape.0 as int)
        },
{
    if total_groups <= MAX_WORKGROUPS_PER_DIM {
        return (total_groups, 1);
    }
    let x: u32 = ceil_sqrt(total_groups);
    proof {
        lemma_ceil_root_unique(x as int, total_groups as int);
    }
    (x, div_ceil(total_groups, x))
}

/// Rounding up by cases: the quotient itself when the division is exact, one
/// more when it is not.
pub proof fn lemma_ceil_div_cases(n: int, d: int)
    requires
        n >= 0,
        d > 0,
    ensures
        ceil_div(n, d) == n / d + (if n % d > 0 { 1int } else { 0 }),
        0 <= ceil_div(n, d) <= n,
{
    vstd::arithmetic::div_mod::lemma_fundamental_div_mod(n, d);
    let q = n / d;
    let r = n % d;
    if r > 0 {
        assert((n + d - 1) == (q + 1) * d + (r - 1)) by (nonlinear_arith)
            requires
                n == d * q + r,
        ;
        vstd::arithmetic::div_mod::lemma_fundamental_div_mod_converse(n + d - 1, d, q + 1, r - 1);
    } else {
        assert((n + d - 1) == q * d + (d - 1)) by (nonlinear_arith)
            requires
                n == d * q + r,
                r == 0,
        ;
        vstd::arithmetic::div_mod::lemma_fundamental_div_mod_converse(n + d - 1, d, q, d - 1);
    }
    vstd::arithmetic::div_mod::lemma_div_pos_is_pos(n, d);
    assert(q + r <= d * q + r) by (nonlinear_arith)
        requires
            q >= 0,
            d > 0,
    ;
}

/// Rounding up reaches `n` and overshoots it by less than `d`.
pub proof fn lemma_ceil_div_bounds(n: int, d: int)
    requires
        n >= 0,
        d > 0,
    ensures
        n <= ceil_div(n, d) * d < n + d,
{
    lemma_ceil_div_cases(n, d);
    vstd::arithmetic::div_mod::lemma_fundamental_div_mod(n, d);
    let q = n / d;
    let r = n % d;
    assert((q + 1) * d == d * q + d) by (nonlinear_arith);
    assert(q * d == d * q) by (nonlinear_arith);
}

/// There is one square root rounded up, and `ceil_root` is it.
pub proof fn lemma_ceil_root_unique(x: int, n: int)
    requires
        is_ceil_root(x, n),
    ensures
        ceil_root(n) == x,
{
    let y = ceil_root(n);
    assert(is_ceil_root(y, n));
    if x < y {
        assert(x * x <= (y - 1) * (y - 1)) by (nonlinear_arith)
            requires
                0 <= x <= y - 1,
        ;
    }
    if y < x {
        assert(y * y <= (x - 1) * (x - 1)) by (nonlinear_arith)
            requires
                0 <= y <= x - 1,
        ;
    }
}

/// Every natural number has a square root rounded up.
pub proof fn lemma_ceil_root_exists(n: int)
    requires
        n >= 0,
    ensures
        is_ceil_root(ceil_root(n), n),
    decreases n,
{
    if n == 0 {
        assert(is_ceil_root(0, 0));
    } else {
        lemma_ceil_root_exists(n - 1);
        let x = ceil_root(n - 1);
        if n <= x * x {
            assert(is_ceil_root(x, n));
        } else {
            assert(x * x < n <= (x + 1) * (x + 1)) by (nonlinear_arith)
                requires
                    n - 1 <= x * x,
                    x * x < n,
                    x >= 0,
            ;
            assert(is_ceil_root(x + 1, n));
        }
    }
}

/// Both dimensions of a dispatch past one row differ by at most one, and a
/// square of side `side` takes every count up to `side * side`.
pub proof fn lemma_square_shape(total: int, side: int)
    requires
        0 < total <= side * side,
        side > 0,
    ensures
        is_ceil_root(ceil_root(total), total),
        0 < ceil_root(total) <= side,
        ceil_root(total) - 1 <= ceil_div(total, ceil_root(total)) <= ceil_root(total),
{
    lemma_ceil_root_exists(total);
    let x = ceil_root(total);
    assert(x > 0) by (nonlinear_arith)
        requires
            x >= 0,
            total <= x * x,
            total > 0,
    ;
    assert(x <= side) by (nonlinear_arith)
        requires
            (x - 1) * (x - 1) < total,
            total <= side * side,
            side > 0,
            x > 0,
    ;
    let y = ceil_div(total, x);
    lemma_ceil_div_bounds(total, x);
    assert(x - 1 <= y) by (nonlinear_arith)
        requires
            (x - 1) * (x - 1) < total,
            total <= y * x,
            x > 0,
    ;
    assert(y <= x) by (nonlinear_arith)
        requires
            y * x < total + x,
            total <= x * x,
            x > 0,
    ;
}

/// A dispatch holds every workgroup asked for, and less than one row more.
pub proof fn law_dispatch_covers(total: int)
    requires
        total >= 0,
    ensures
        ({
            let (x, y) = dispatch_shape(total);
            &&& x >= 0
            &&& y >= 1
            &&& total <= x * y
            &&& total > 0 ==> x * y < total + x
        }),
{
    if total > MAX_WORKGROUPS_PER_DIM {
        let x = ceil_root(total);
        assert(total <= total * total) by (nonlinear_arith)
            requires
                total >= 1,
        ;
        lemma_square_shape(total, total);
        lemma_ceil_div_bounds(total, x);
        let y = ceil_div(total, x);
        assert(x * y == y * x) by (nonlinear_arith);
        assert(y >= 1) by (nonlinear_arith)
            requires
                total <= y * x,
                total > 0,
                x > 0,
        ;
    }
}

/// A dispatch stays within the limit of each dimension, as long as two
/// dimensions can hold the count at all.
pub proof fn law_dispatch_fits(total: int)
    requires
        0 <= total <= MAX_WORKGROUPS_PER_DIM * MAX_WORKGROUPS_PER_DIM,
    ensures
        dispatch_shape(total).0 <= MAX_WORKGROUPS_PER_DIM,
        dispatch_shape(total).1 <= MAX_WORKGROUPS_PER_DIM,
{
    if total > MAX_WORKGROUPS_PER_DIM {
        lemma_square_shape(total, MAX_WORKGROUPS_PER_DIM as int);
    }
}

/// Past one row, a dispatch is a rough square: its sides differ by at most one.
pub proof fn law_dispatch_is_rough_square(total: int)
    requires
        total > MAX_WORKGROUPS_PER_DIM,
    ensures
        dispatch_shape(total).0 - 1 <= dispatch_shape(total).1 <= dispatch_shape(total).0,
{
    assert(total <= total * total) by (nonlinear_arith)
        requires
            total >= 1,
    ;
    lemma_square_shape(total, total);
}

/// The agents fit in one row exactly up to 65535 * 64 = 4,194,240 of them.
pub proof fn law_one_row_capacity(n_agents: int)
    requires
        n_agents >= 0,
    ensures
        agent_groups(n_agents) <= MAX_WORKGROUPS_PER_DIM <==> n_agents <= 4_194_240,
{
    lemma_ceil_div_bounds(n_agents, WORKGROUP_SIZE as int);
}

/// The agent dispatch is within the limits of both dimensions for every
/// number of agents that a `u32` counts, and no flat index in it overflows a
/// `u32`.
pub proof fn law_agent_dispatch_fits(n_agents: u32)
    ensures
        ({
            let (gx, gy) = dispatch_shape(agent_groups(n_agents as int));
            &&& 0 <= gx <= MAX_WORKGROUPS_PER_DIM
            &&& 1 <= gy <= MAX_WORKGROUPS_PER_DIM
            &&& 0 <= agent_row_width(n_agents as int) <= u32::MAX
            &&& forall|x: int, y: int|
                0 <= x < agent_row_width(n_agents as int) && 0 <= y < gy ==> 0
                    <= #[trigger] flat_index(x, y, agent_row_width(n_agents as int)) <= u32::MAX
        }),
{
    let total = agent_groups(n_agents as int);
    let width = agent_row_width(n_agents as int);
    lemma_ceil_div_bounds(n_agents as int, WORKGROUP_SIZE as int);
    law_dispatch_covers(total);
    law_dispatch_fits(total);
    let (gx, gy) = dispatch_shape(total);
    // 8192 * 8192 workgroups of 64 are exactly 2^32 invocations.
    if total > MAX_WORKGROUPS_PER_DIM {
        lemma_square_shape(total, 8192);
    }
    assert(width * gy <= 0x1_0000_0000) by (nonlinear_arith)
        requires
            width == gx * 64,
            0 <= gx,
            1 <= gy,
            (gx <= 65535 && gy == 1) || (gx <= 8192 && gy <= 8192),
    ;
    assert forall|x: int, y: int| 0 <= x < width && 0 <= y < gy implies 0
        <= #[trigger] flat_index(x, y, width) <= u32::MAX by {
        assert(0 <= y * width + x < width * gy) by (nonlinear_arith)
            requires
                0 <= x < width,
                0 <= y < gy,
        ;
    }
}

/// Every agent is worked on by exactly one invocation of the agent dispatch:
/// one with that agent's flat index is in the dispatch, and no second one is.
pub proof fn law_each_agent_dispatched_once(n_agents: int, agent: int)
    requires
        0 <= agent < n_agents,
    ensures
        ({
            let (gx, gy) = dispatch_shape(agent_groups(n_agents));
            let width = agent_row_width(n_agents);
            let (x, y) = (agent % width, agent / width);
            &&& width == gx * WORKGROUP_SIZE
            &&& width > 0
            &&& 0 <= x < width
            &&& 0 <= y < gy
            &&& flat_index(x, y, width) == agent
            &&& forall|x2: int, y2: int|
                0 <= x2 < width && #[trigger] flat_index(x2, y2, width) == agent ==> x2 == x && y2
                    == y
        }),
{
    let total = agent_groups(n_agents);
    let width = agent_row_width(n_agents);
    lemma_ceil_div_cases(n_agents, WORKGROUP_SIZE as int);
    lemma_ceil_div_bounds(n_agents, WORKGROUP_SIZE as int);
    law_dispatch_covers(total);
    let (gx, gy) = dispatch_shape(total);
    assert(gx > 0) by (nonlinear_arith)
        requires
            gx >= 0,
            total <= gx * gy,
            total > 0,
    ;
    let x = agent % width;
    let y = agent / width;
    vstd::arithmetic::div_mod::lemma_fundamental_div_mod(agent, width);
    vstd::arithmetic::div_mod::lemma_mod_bound(agent, width);
    assert(width * y == y * width) by (nonlinear_arith);
    assert(agent < width * gy) by (nonlinear_arith)
        requires
            agent < n_agents,
            n_agents <= total * 64,
            total <= gx * gy,
            width == gx * 64,
    ;
    vstd::arithmetic::div_mod::lemma_div_pos_is_pos(agent, width);
    assert(y < gy) by (nonlinear_arith)
        requires
            agent < width * gy,
            agent == width * y + x,
            0 <= x,
            width > 0,
    ;
    assert forall|x2: int, y2: int|
        0 <= x2 < width && #[trigger] flat_index(x2, y2, width) == agent implies x2 == x && y2
        == y by {
        vstd::arithmetic::div_mod::lemma_fundamental_div_mod_converse(agent, width, y2, x2);
    }
}

/// Along one side of the trail map, every cell lies in exactly one workgroup
/// of the diffuse dispatch, at one place in it.
proof fn lemma_each_cell_of_a_side_once(side: int, cell: int)
    requires
        0 <= cell < side,
    ensures
        ({
            let d = DIFFUSE_WORKGROUP as int;
            &&& 0 <= cell / d < ceil_div(side, d)
            &&& 0 <= cell % d < d
            &&& flat_index(cell % d, cell / d, d) == cell
            &&& forall|g: int, l: int|
                0 <= l < d && #[trigger] flat_index(l, g, d) == cell ==> g == cell / d && l == cell
                    % d
        }),
{
    lemma_ceil_div_bounds(side, DIFFUSE_WORKGROUP as int);
}

/// Every cell of the trail map is worked on by exactly one invocation of the
/// diffuse dispatch, which has `ceil_div(width, 8)` by `ceil_div(height, 8)`
/// workgroups: one group and one place in it reach the cell, and no others.
pub proof fn law_each_cell_diffused_once(width: int, height: int, x: int, y: int)
    requires
        0 <= x < width,
        0 <= y < height,
    ensures
        ({
            let d = DIFFUSE_WORKGROUP as int;
            &&& 0 <= x / d < ceil_div(width, d)
            &&& 0 <= y / d < ceil_div(height, d)
            &&& flat_index(x % d, x / d, d) == x
            &&& flat_index(y % d, y / d, d) == y
            &&& forall|gx: int, lx: int, gy: int, ly: int|
                0 <= lx < d && 0 <= ly < d && #[trigger] flat_index(lx, gx, d) == x
                    && #[trigger] flat_index(ly, gy, d) == y ==> gx == x / d && lx == x % d && gy
                    == y / d && ly == y % d
        }),
{
    lemma_each_cell_of_a_side_once(width, x);
    lemma_each_cell_of_a_side_once(height, y);
}

/// Rounding up gives the least number of parts of `d` that hold `n`.
pub proof fn law_rounding_up_is_least(n: int, d: int, parts: int)
    requires
        n >= 0,
        d > 0,
        n <= parts * d,
    ensures
        0 <= ceil_div(n, d) <= parts,
        n <= ceil_div(n, d) * d,
{
    lemma_ceil_div_cases(n, d);
    lemma_ceil_div_bounds(n, d);
    let q = ceil_div(n, d);
    assert(q <= parts) by (nonlinear_arith)
        requires
            q * d < n + d,
            n <= parts * d,
            d > 0,
    ;
}

/// One row while it can hold them all, and past that the least square, cut to
/// the rows that are needed.
pub proof fn law_dispatch_is_least(total: int, side: int, rows: int)
    requires
        total >= 0,
    ensures
        total <= 65535 ==> dispatch_shape(total) == (total, 1int),
        total > 65535 && side >= 0 && total <= side * side ==> dispatch_shape(total).0 <= side,
        total > 65535 && total <= rows * dispatch_shape(total).0 ==> dispatch_shape(total).1
            <= rows,
        total > 65535 ==> total <= dispatch_shape(total).0 * dispatch_shape(total).0,
{
    if total > 65535 {
        assert(total <= total * total) by (nonlinear_arith)
            requires
                total >= 1,
        ;
        lemma_square_shape(total, total);
        let x = ceil_root(total);
        if side >= 0 && total <= side * side {
            assert(side > 0) by (nonlinear_arith)
                requires
                    side >= 0,
                    total <= side * side,
                    total > 0,
            ;
            lemma_square_shape(total, side);
        }
        if total <= rows * x {
            law_rounding_up_is_least(total, x, rows);
        }
    }
}

} // verus!
