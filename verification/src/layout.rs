//! Where the members of a GPU-side struct lie in memory.

use vstd::prelude::*;

verus! {

/// One member of a struct: where it starts, how many bytes it takes, and what
/// WGSL wants its offset to be a multiple of.
pub ghost struct Member {
    pub offset: nat,
    pub size: nat,
    pub align: nat,
}

/// A scalar of four bytes.
pub open spec fn scalar(offset: nat) -> Member {
    Member { offset, size: 4, align: 4 }
}

/// A vector of two scalars.
pub open spec fn vec2(offset: nat) -> Member {
    Member { offset, size: 8, align: 8 }
}

/// A vector of four scalars.
pub open spec fn vec4(offset: nat) -> Member {
    Member { offset, size: 16, align: 16 }
}

/// A matrix of four columns of four scalars.
pub open spec fn mat4x4(offset: nat) -> Member {
    Member { offset, size: 64, align: 16 }
}

/// The members follow one another without a gap, fill `total` bytes, and each
/// starts where WGSL would place it: no padding is implied anywhere.
pub open spec fn packed(members: Seq<Member>, total: nat) -> bool {
    &&& members.len() > 0
    &&& members[0].offset == 0
    &&& forall|i: int|
        0 <= i < members.len() ==> #[trigger] members[i].offset % members[i].align == 0
    &&& forall|i: int, j: int|
        #![trigger members[i], members[j]]
        0 <= i && j == i + 1 && j < members.len() ==> members[j].offset == members[i].offset
            + members[i].size
    &&& members.last().offset + members.last().size == total
}

} // verus!
