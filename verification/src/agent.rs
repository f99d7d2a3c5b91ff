//! The agents, as they lie in their storage buffers.

use crate::layout::{packed, scalar, vec2, Member};
use crate::single::Single;
use vstd::prelude::*;

verus! {

/// Size of one agent on the GPU, in bytes.
pub const AGENT_BYTES: u64 = 24;

/// One agent. The agents live on the GPU alone: they are seeded, moved and
/// drawn there.
#[derive(Clone, Copy, Debug, PartialEq, Eq)]
pub struct Agent {
    pub pos: [Single; 2],
    pub heading: [Single; 2],
    /// Per-agent multiplier on the move speed.
    pub speed: Single,
    /// Which trail channel this agent deposits into and follows: the hook for
    /// multiple species.
    pub species: u32,
}

/// Where the members of an agent lie.
pub open spec fn agent_members() -> Seq<Member> {
    seq![
        vec2(0),     // pos
        vec2(8),     // heading
        scalar(16),  // speed
        scalar(20),  // species
    ]
}

/// An agent needs no padding, neither between its members nor before the next
/// agent of an array.
pub proof fn law_agents_are_packed()
    ensures
        packed(agent_members(), AGENT_BYTES as nat),
        forall|i: int|
            0 <= i < agent_members().len() ==> AGENT_BYTES as nat % #[trigger] agent_members()[i].align
                == 0,
{
    let members = agent_members();
    assert forall|i: int| 0 <= i < members.len() implies #[trigger] members[i].offset
        % members[i].align == 0 && AGENT_BYTES as nat % members[i].align == 0 by {
        if i < 2 {
            assert(members[i].align == 8);
        } else {
            assert(members[i].align == 4);
        }
    }
}

} // verus!
