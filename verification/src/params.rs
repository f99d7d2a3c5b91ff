//! Simulation parameters.

use crate::dispatch::{
    agent_row_width, dispatch_2d, div_ceil, law_agent_dispatch_fits, WORKGROUP_SIZE,
};
use crate::layout::{packed, scalar, vec2, Member};
use crate::single::{lemma_whole_number, scaled_magnitude, Single};
use crate::wire::{
    encode_words, law_encoding_is_injective, law_words_read_back, read_word, words_bytes,
};
use vstd::arithmetic::power2::{lemma2_to64, lemma_pow2_adds, pow2};
use vstd::prelude::*;

verus! {

/// Size of the parameters on the GPU, in bytes.
pub const SIM_PARAMS_BYTES: u64 = 80;

/// Bits of 22.5 degrees in radians.
pub const SENSOR_ANGLE_BITS: u32 = 0x3ec9_0fdb;

/// Bits of 1.5.
pub const SENSOR_DIST_BITS: u32 = 0x3fc0_0000;

/// Bits of 8.0.
pub const TURN_SPEED_BITS: u32 = 0x4100_0000;

/// Bits of 100.0.
pub const MOVE_SPEED_BITS: u32 = 0x42c8_0000;

/// Bits of 10.0.
pub const SENSITIVITY_BITS: u32 = 0x4120_0000;

/// Bits of 1.0.
pub const DEPOSIT_BITS: u32 = 0x3f80_0000;

/// Bits of 3.0.
pub const DECAY_RATE_BITS: u32 = 0x4040_0000;

/// Bits of 1.0: each step blurs all the way to the mean.
pub const DIFFUSE_RATE_BITS: u32 = 0x3f80_0000;

/// The whole character of a slime mold lives in these numbers.
///
/// Laid out in rows of 16 bytes so the WGSL mirror needs no padding games.
#[derive(Clone, Copy, Debug, PartialEq, Eq)]
pub struct SimParams {
    // row 0
    pub grid: [u32; 2],
    pub n_agents: u32,
    pub frame: u32,
    // row 1
    pub world_half: [Single; 2],
    pub dt: Single,
    /// Radians between the centre sensor and each side sensor.
    pub sensor_angle: Single,
    // row 2
    /// How far ahead the sensors sample, in world units (= trail cells).
    pub sensor_dist: Single,
    /// Radians per second an agent can turn.
    pub turn_speed: Single,
    /// World units per second.
    pub move_speed: Single,
    /// Exponent applied to the sensor readings when picking a direction. Zero
    /// makes the choice uniformly random and the agents a gas; large values
    /// make it a hard argmax and the agents brittle.
    pub sensitivity: Single,
    // row 3
    /// Added to the trail cell under the agent each step.
    pub deposit: Single,
    /// Trail is multiplied by `exp(-decay_rate * dt)` each step, so the
    /// half-life is in seconds and does not shift with frame rate.
    pub decay_rate: Single,
    /// How far each step blurs toward the neighbourhood mean, 0..1.
    pub diffuse_rate: Single,
    /// Invocations per row of the agent dispatch, so the shader can rebuild a
    /// flat agent index from a 2D dispatch. See `dispatch_2d`.
    pub row_width: u32,
    // row 4
    /// Radius of the disc agents are seeded into, in world units.
    pub init_rad: Single,
    pub _pad: [Single; 3],
}

/// Where the parameters lie in the uniform buffer.
pub open spec fn sim_params_members() -> Seq<Member> {
    seq![
        vec2(0),     // grid
        scalar(8),   // n_agents
        scalar(12),  // frame
        vec2(16),    // world_half
        scalar(24),  // dt
        scalar(28),  // sensor_angle
        scalar(32),  // sensor_dist
        scalar(36),  // turn_speed
        scalar(40),  // move_speed
        scalar(44),  // sensitivity
        scalar(48),  // deposit
        scalar(52),  // decay_rate
        scalar(56),  // diffuse_rate
        scalar(60),  // row_width
        scalar(64),  // init_rad
        scalar(68),  // padding
        scalar(72),
        scalar(76),
    ]
}

impl SimParams {
    /// The parameters a simulation starts with.
    pub open spec fn starts_with(
        self,
        grid: [u32; 2],
        n_agents: u32,
        world_half: [Single; 2],
        init_rad: Single,
    ) -> bool {
        &&& self.grid@ == grid@
        &&& self.n_agents == n_agents
        &&& self.frame == 0
        &&& self.world_half@ == world_half@
        &&& self.dt == (Single { bits: 0 })
        &&& self.sensor_angle == (Single { bits: SENSOR_ANGLE_BITS })
        &&& self.sensor_dist == (Single { bits: SENSOR_DIST_BITS })
        &&& self.turn_speed == (Single { bits: TURN_SPEED_BITS })
        &&& self.move_speed == (Single { bits: MOVE_SPEED_BITS })
        &&& self.sensitivity == (Single { bits: SENSITIVITY_BITS })
        &&& self.deposit == (Single { bits: DEPOSIT_BITS })
        &&& self.decay_rate == (Single { bits: DECAY_RATE_BITS })
        &&& self.diffuse_rate == (Single { bits: DIFFUSE_RATE_BITS })
        &&& self.row_width == agent_row_width(n_agents as int)
        &&& self.init_rad == init_rad
        &&& self._pad@ == seq![Single { bits: 0 }, Single { bits: 0 }, Single { bits: 0 }]
    }

    /// The parameters as the words of the uniform buffer, in order.
    pub open spec fn word_seq(self) -> Seq<u32> {
        seq![
            self.grid[0],
            self.grid[1],
            self.n_agents,
            self.frame,
            self.world_half[0].bits,
            self.world_half[1].bits,
            self.dt.bits,
            self.sensor_angle.bits,
            self.sensor_dist.bits,
            self.turn_speed.bits,
            self.move_speed.bits,
            self.sensitivity.bits,
            self.deposit.bits,
            self.decay_rate.bits,
            self.diffuse_rate.bits,
            self.row_width,
            self.init_rad.bits,
            self._pad[0].bits,
            self._pad[1].bits,
            self._pad[2].bits,
        ]
    }

    /// The parameters of a fresh simulation of `n_agents` agents on a trail map
    /// of `grid` cells, in a world that reaches `world_half` either way from its
    /// centre, seeded into a disc of radius `init_rad`.
    pub fn new(
        grid: [u32; 2],
        n_agents: u32,
        world_half: [Single; 2],
        init_rad: Single,
    ) -> (params: SimParams)
        ensures
            params.starts_with(grid, n_agents, world_half, init_rad),
    {
        let shape: (u32, u32) = dispatch_2d(div_ceil(n_agents, WORKGROUP_SIZE));
        proof {
            law_agent_dispatch_fits(n_agents);
        }
        SimParams {
            grid,
            n_agents,
            frame: 0,
            world_half,
            dt: Single { bits: 0 },
            sensor_angle: Single { bits: SENSOR_ANGLE_BITS },
            sensor_dist: Single { bits: SENSOR_DIST_BITS },
            turn_speed: Single { bits: TURN_SPEED_BITS },
            move_speed: Single { bits: MOVE_SPEED_BITS },
            sensitivity: Single { bits: SENSITIVITY_BITS },
            deposit: Single { bits: DEPOSIT_BITS },
            decay_rate: Single { bits: DECAY_RATE_BITS },
            diffuse_rate: Single { bits: DIFFUSE_RATE_BITS },
            row_width: shape.0 * WORKGROUP_SIZE,
            init_rad,
            _pad: [Single { bits: 0 }, Single { bits: 0 }, Single { bits: 0 }],
        }
    }

    /// The bytes of the uniform buffer.
    pub fn bytes(&self) -> (bytes: Vec<u8>)
        ensures
            bytes@ == words_bytes(self.word_seq()),
            bytes@.len() == SIM_PARAMS_BYTES,
    {
        let words: [u32; 20] = [
            self.grid[0],
            self.grid[1],
            self.n_agents,
            self.frame,
            self.world_half[0].bits,
            self.world_half[1].bits,
            self.dt.bits,
            self.sensor_angle.bits,
            self.sensor_dist.bits,
            self.turn_speed.bits,
            self.move_speed.bits,
            self.sensitivity.bits,
            self.deposit.bits,
            self.decay_rate.bits,
            self.diffuse_rate.bits,
            self.row_width,
            self.init_rad.bits,
            self._pad[0].bits,
            self._pad[1].bits,
            self._pad[2].bits,
        ];
        assert(words@ =~= self.word_seq());
        encode_words(&words)
    }
}

/// The parameters need no padding: every member lies where WGSL would place
/// it, right behind the one before, and together they are whole rows of 16
/// bytes, well within what a uniform buffer may hold.
pub proof fn law_sim_params_are_packed(params: SimParams)
    ensures
        packed(sim_params_members(), SIM_PARAMS_BYTES as nat),
        SIM_PARAMS_BYTES % 16 == 0,
        SIM_PARAMS_BYTES <= 0x1_0000,
        4 * params.word_seq().len() == SIM_PARAMS_BYTES,
{
    let members = sim_params_members();
    assert forall|i: int| 0 <= i < members.len() implies #[trigger] members[i].offset
        % members[i].align == 0 by {
        if i == 0 || i == 3 {
            assert(members[i].align == 8);
        } else {
            assert(members[i].align == 4);
        }
    }
}

/// The numbers that a fresh simulation starts with: its sensors reach one and a
/// half cells, agents turn by 8 radians and move by 100 cells in a second, they
/// choose by the tenth power and deposit 1, and the trail decays at a rate of 3.
pub proof fn law_starting_numbers(
    params: SimParams,
    grid: [u32; 2],
    n_agents: u32,
    world_half: [Single; 2],
    init_rad: Single,
)
    requires
        params.starts_with(grid, n_agents, world_half, init_rad),
    ensures
        2 * params.sensor_dist.scaled() == 3 * pow2(149),
        params.turn_speed.scaled() == 8 * pow2(149),
        params.move_speed.scaled() == 100 * pow2(149),
        params.sensitivity.scaled() == 10 * pow2(149),
        params.deposit.scaled() == pow2(149),
        params.decay_rate.scaled() == 3 * pow2(149),
{
    lemma2_to64();
    let p = pow2(126) as int;
    lemma_pow2_adds(126, 23);
    assert(scaled_magnitude(SENSOR_DIST_BITS as int) == 0xc0_0000 * p);
    lemma_whole_number(TURN_SPEED_BITS as int, 129, 8);
    lemma_whole_number(MOVE_SPEED_BITS as int, 132, 100);
    lemma_whole_number(SENSITIVITY_BITS as int, 129, 10);
    lemma_whole_number(DEPOSIT_BITS as int, 126, 1);
    lemma_whole_number(DECAY_RATE_BITS as int, 127, 3);
}

/// A fresh simulation blurs by a weight from 0 to 1, as the diffuse pass wants
/// it.
pub proof fn law_diffuse_rate_is_a_weight(
    params: SimParams,
    grid: [u32; 2],
    n_agents: u32,
    world_half: [Single; 2],
    init_rad: Single,
)
    requires
        params.starts_with(grid, n_agents, world_half, init_rad),
    ensures
        !params.diffuse_rate.is_nan(),
        0 <= params.diffuse_rate.scaled() <= pow2(149),
{
    lemma2_to64();
    lemma_whole_number(DIFFUSE_RATE_BITS as int, 126, 1);
}

/// An upload says everything: parameters with the same bytes are the same
/// parameters.
pub proof fn law_upload_determines_params(a: SimParams, b: SimParams)
    requires
        words_bytes(a.word_seq()) == words_bytes(b.word_seq()),
    ensures
        a == b,
{
    law_encoding_is_injective(a.word_seq(), b.word_seq());
    let (wa, wb) = (a.word_seq(), b.word_seq());
    assert(wa[0] == wb[0] && wa[1] == wb[1] && wa[2] == wb[2] && wa[3] == wb[3]);
    assert(wa[4] == wb[4] && wa[5] == wb[5] && wa[6] == wb[6] && wa[7] == wb[7]);
    assert(wa[8] == wb[8] && wa[9] == wb[9] && wa[10] == wb[10] && wa[11] == wb[11]);
    assert(wa[12] == wb[12] && wa[13] == wb[13] && wa[14] == wb[14] && wa[15] == wb[15]);
    assert(wa[16] == wb[16] && wa[17] == wb[17] && wa[18] == wb[18] && wa[19] == wb[19]);
    assert(a.grid =~= b.grid);
    assert(a.world_half =~= b.world_half);
    assert(a._pad =~= b._pad);
}

/// Every parameter is uploaded, each to its own place: row by row of 16 bytes,
/// a shader reads there what the parameter is.
pub proof fn law_parameters_read_back(params: SimParams)
    ensures
        ({
            let bytes = words_bytes(params.word_seq());
            &&& bytes.len() == 80
            &&& read_word(bytes, 0) == params.grid@[0]
            &&& read_word(bytes, 1) == params.grid@[1]
            &&& read_word(bytes, 2) == params.n_agents
            &&& read_word(bytes, 3) == params.frame
            &&& read_word(bytes, 4) == params.world_half@[0].bits
            &&& read_word(bytes, 5) == params.world_half@[1].bits
            &&& read_word(bytes, 6) == params.dt.bits
            &&& read_word(bytes, 7) == params.sensor_angle.bits
            &&& read_word(bytes, 8) == params.sensor_dist.bits
            &&& read_word(bytes, 9) == params.turn_speed.bits
            &&& read_word(bytes, 10) == params.move_speed.bits
            &&& read_word(bytes, 11) == params.sensitivity.bits
            &&& read_word(bytes, 12) == params.deposit.bits
            &&& read_word(bytes, 13) == params.decay_rate.bits
            &&& read_word(bytes, 14) == params.diffuse_rate.bits
            &&& read_word(bytes, 15) == params.row_width
            &&& read_word(bytes, 16) == params.init_rad.bits
            &&& read_word(bytes, 17) == params._pad@[0].bits
            &&& read_word(bytes, 18) == params._pad@[1].bits
            &&& read_word(bytes, 19) == params._pad@[2].bits
        }),
{
    law_words_read_back(params.word_seq());
}

/// A fresh simulation is the one that was asked for, before its first step: no
/// frame has gone by, and no time.
pub proof fn law_fresh_parameters_are_those_asked_for(
    params: SimParams,
    grid: [u32; 2],
    n_agents: u32,
    world_half: [Single; 2],
    init_rad: Single,
)
    requires
        params.starts_with(grid, n_agents, world_half, init_rad),
    ensures
        params.grid@[0] == grid@[0] && params.grid@[1] == grid@[1],
        params.n_agents == n_agents,
        params.world_half@[0] == world_half@[0] && params.world_half@[1] == world_half@[1],
        params.init_rad == init_rad,
        params.frame == 0,
        params.dt.scaled() == 0 && !params.dt.is_negative(),
        forall|i: int| 0 <= i < 3 ==> (#[trigger] params._pad@[i]).bits == 0,
{
}

/// The sensors stand an eighth of pi to either side: 22.5 degrees, to seven
/// digits.
pub proof fn law_sensors_stand_at_an_eighth_of_pi(
    params: SimParams,
    grid: [u32; 2],
    n_agents: u32,
    world_half: [Single; 2],
    init_rad: Single,
)
    requires
        params.starts_with(grid, n_agents, world_half, init_rad),
    ensures
        31_415_926 * pow2(149) <= 10_000_000 * (8 * params.sensor_angle.scaled()) <= 31_415_928
            * pow2(149),
{
    lemma2_to64();
    lemma_pow2_adds(124, 25);
    let p = pow2(124) as int;
    assert(scaled_magnitude(SENSOR_ANGLE_BITS as int) == 0xc9_0fdb * p);
    assert(p > 0) by {
        vstd::arithmetic::power2::lemma_pow2_pos(124);
    }
}

} // verus!
