//! The camera uniform.

use crate::layout::{mat4x4, packed, vec4, Member};
use crate::resources::{buffer_plan, BufferId, BufferPlan, BufferUsage};
use crate::single::Single;
use crate::wire::{encode_words, law_words_read_back, read_word, words_bytes};
use vstd::prelude::*;

verus! {

/// Size of the camera uniform on the GPU, in bytes.
pub const CAMERA_BYTES: u64 = 112;

/// Camera uniform. std140-compatible by construction: three vec4s after a
/// mat4x4, so every member is already 16-byte aligned and there is no implicit
/// padding for WGSL to disagree with.
#[derive(Clone, Copy, Debug, PartialEq, Eq)]
pub struct Camera {
    /// `proj * view`, by columns. World space straight to clip space; the
    /// vertex shader does not need the two separately.
    pub view_proj: [[Single; 4]; 4],
    /// World-space camera basis, so the quad can be expanded facing the viewer.
    pub right: [Single; 4],
    pub up: [Single; 4],
    /// `[agent_radius, _, _, _]`. Everything sim-side lives in `SimParams`;
    /// this is purely render state.
    pub params: [Single; 4],
}

/// Where the camera lies in its uniform buffer.
pub open spec fn camera_members() -> Seq<Member> {
    seq![
        mat4x4(0),  // view_proj
        vec4(64),   // right
        vec4(80),   // up
        vec4(96),   // params
    ]
}

/// The bits of four numbers.
pub open spec fn bits_of(row: [Single; 4]) -> Seq<u32> {
    seq![row[0].bits, row[1].bits, row[2].bits, row[3].bits]
}

impl Camera {
    /// The camera as the words of its uniform buffer, in order.
    pub open spec fn word_seq(self) -> Seq<u32> {
        bits_of(self.view_proj[0]) + bits_of(self.view_proj[1]) + bits_of(self.view_proj[2])
            + bits_of(self.view_proj[3]) + bits_of(self.right) + bits_of(self.up) + bits_of(
            self.params,
        )
    }

    /// Pack a view of the world: the transform into clip space, the camera's
    /// own right and up directions in the world, and the size of an agent.
    /// What is left of each vec4 is zero.
    pub fn pack(
        view_proj: [[Single; 4]; 4],
        right: [Single; 3],
        up: [Single; 3],
        agent_radius: Single,
    ) -> (camera: Camera)
        ensures
            camera.view_proj == view_proj,
            camera.right@ == right@.push(Single { bits: 0 }),
            camera.up@ == up@.push(Single { bits: 0 }),
            camera.params@ == seq![
                agent_radius,
                Single { bits: 0 },
                Single { bits: 0 },
                Single { bits: 0 },
            ],
    {
        let zero: Single = Single { bits: 0 };
        let camera: Camera = Camera {
            view_proj,
            right: [right[0], right[1], right[2], zero],
            up: [up[0], up[1], up[2], zero],
            params: [agent_radius, zero, zero, zero],
        };
        assert(camera.right@ =~= right@.push(zero));
        assert(camera.up@ =~= up@.push(zero));
        camera
    }

    /// The uniform buffer that holds the camera.
    pub fn create_buffer() -> (plan: BufferPlan)
        ensures
            plan@.id == BufferId::Camera,
            plan@.label == "camera uniform"@,
            plan@.size == CAMERA_BYTES,
            !plan@.mapped_at_creation,
            plan@.usage == (BufferUsage {
                uniform: true,
                storage: false,
                copy_src: false,
                copy_dst: true,
            }),
    {
        buffer_plan(BufferId::Camera, 0, [0, 0])
    }

    /// The bytes of the uniform buffer.
    pub fn bytes(&self) -> (bytes: Vec<u8>)
        ensures
            bytes@ == words_bytes(self.word_seq()),
            bytes@.len() == CAMERA_BYTES,
    {
        let mut words: Vec<u32> = Vec::new();
        push_bits(&mut words, self.view_proj[0]);
        push_bits(&mut words, self.view_proj[1]);
        push_bits(&mut words, self.view_proj[2]);
        push_bits(&mut words, self.view_proj[3]);
        push_bits(&mut words, self.right);
        push_bits(&mut words, self.up);
        push_bits(&mut words, self.params);
        assert(words@ =~= self.word_seq());
        encode_words(words.as_slice())
    }
}

/// Append the bits of four numbers.
fn push_bits(words: &mut Vec<u32>, row: [Single; 4])
    ensures
        final(words)@ == old(words)@ + bits_of(row),
{
    words.push(row[0].bits);
    words.push(row[1].bits);
    words.push(row[2].bits);
    words.push(row[3].bits);
    assert(words@ =~= old(words)@ + bits_of(row));
}

/// The camera needs no padding: every member starts at a multiple of 16 bytes,
/// right behind the one before, and is found there among the words that are
/// uploaded.
pub proof fn law_camera_is_packed(camera: Camera)
    ensures
        packed(camera_members(), CAMERA_BYTES as nat),
        CAMERA_BYTES % 16 == 0,
        CAMERA_BYTES <= 0x1_0000,
        forall|i: int|
            0 <= i < camera_members().len() ==> #[trigger] camera_members()[i].offset % 16 == 0,
        4 * camera.word_seq().len() == CAMERA_BYTES,
        camera.word_seq().subrange(0, 16) == bits_of(camera.view_proj[0]) + bits_of(
            camera.view_proj[1],
        ) + bits_of(camera.view_proj[2]) + bits_of(camera.view_proj[3]),
        camera.word_seq().subrange(16, 20) == bits_of(camera.right),
        camera.word_seq().subrange(20, 24) == bits_of(camera.up),
        camera.word_seq().subrange(24, 28) == bits_of(camera.params),
{
    let members = camera_members();
    assert forall|i: int| 0 <= i < members.len() implies #[trigger] members[i].offset
        % members[i].align == 0 by {
        assert(members[i].align == 16);
    }
    assert(camera.word_seq().subrange(0, 16) =~= bits_of(camera.view_proj[0]) + bits_of(
        camera.view_proj[1],
    ) + bits_of(camera.view_proj[2]) + bits_of(camera.view_proj[3]));
    assert(camera.word_seq().subrange(16, 20) =~= bits_of(camera.right));
    assert(camera.word_seq().subrange(20, 24) =~= bits_of(camera.up));
    assert(camera.word_seq().subrange(24, 28) =~= bits_of(camera.params));
}

/// The camera is read where the shader looks for it: first the transform,
/// column by column, then the two directions and the size of an agent.
pub proof fn law_camera_reads_back(camera: Camera, column: int, row: int)
    requires
        0 <= column < 4,
        0 <= row < 4,
    ensures
        ({
            let bytes = words_bytes(camera.word_seq());
            &&& bytes.len() == 112
            &&& read_word(bytes, 4 * column + row) == camera.view_proj@[column]@[row].bits
            &&& read_word(bytes, 16 + row) == camera.right@[row].bits
            &&& read_word(bytes, 20 + row) == camera.up@[row].bits
            &&& read_word(bytes, 24 + row) == camera.params@[row].bits
        }),
{
    let words = camera.word_seq();
    law_words_read_back(words);
    law_camera_is_packed(camera);
    assert(words[16 + row] == words.subrange(16, 20)[row]);
    assert(words[20 + row] == words.subrange(20, 24)[row]);
    assert(words[24 + row] == words.subrange(24, 28)[row]);
    assert(words[4 * column + row] == words.subrange(0, 16)[4 * column + row]);
    assert(words[4 * column + row] == bits_of(camera.view_proj@[column])[row]);
}

} // verus!
