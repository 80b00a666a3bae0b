//! Fixed-shape structures: given an absolute anchor position they emit a
//! list of typed blocks in absolute space, each already converted to its
//! owning chunk and relative position. No chunk clipping happens here;
//! callers route every block to the chunk it belongs to.

use vstd::prelude::*;
use crate::block::{spec_new_block, Block};
use crate::block_type::BlockType;
use crate::utils::{
    owning_chunk_coord, ChunkFromPosition, Position, RelativeFromAbsolute, MAX_ABS_COORD,
    MIN_ABS_COORD,
};
use crate::world::WORLD_HEIGHT_LIMIT;

verus! {

/// Anchors from which a structure can grow without leaving the supported
/// coordinate range: one chunk of horizontal slack and enough head room
/// for the tallest structure.
pub open spec fn spec_anchor_ok(position: Position) -> bool {
    &&& MIN_ABS_COORD + 16 <= position.x <= MAX_ABS_COORD - 16
    &&& MIN_ABS_COORD + 16 <= position.z <= MAX_ABS_COORD - 16
    &&& 0 <= position.y <= WORLD_HEIGHT_LIMIT - 8
}

/// A generator of blocks in absolute-position space.
pub trait Structure {
    /// The blocks the structure emits when rooted at `position`.
    spec fn spec_blocks(position: Position) -> Seq<Block>;

    fn get_blocks(position: Position) -> (r: Vec<Block>)
        requires
            spec_anchor_ok(position),
        ensures
            r@ == Self::spec_blocks(position),
            forall|i: int| 0 <= i < r@.len() ==> (#[trigger] r@[i]).wf(),
    ;
}

/// A tree: three trunk blocks stacked above the anchor and a canopy of
/// seventeen leaf blocks around and above the trunk top.
pub struct Tree;

/// The cell offsets of a tree's blocks from its anchor, paired with their
/// types: the trunk first, then the canopy ring, then the crown.
pub open spec fn spec_tree_parts() -> Seq<((i64, i64, i64), BlockType)> {
    seq![
        ((0i64, 1i64, 0i64), BlockType::Wood),
        ((0i64, 2i64, 0i64), BlockType::Wood),
        ((0i64, 3i64, 0i64), BlockType::Wood),
        ((0i64, 3i64, 1i64), BlockType::Leaf),
        ((0i64, 4i64, 1i64), BlockType::Leaf),
        ((1i64, 3i64, 1i64), BlockType::Leaf),
        ((1i64, 4i64, 1i64), BlockType::Leaf),
        ((-1i64, 3i64, 1i64), BlockType::Leaf),
        ((-1i64, 4i64, 1i64), BlockType::Leaf),
        ((0i64, 3i64, -1i64), BlockType::Leaf),
        ((0i64, 4i64, -1i64), BlockType::Leaf),
        ((1i64, 3i64, -1i64), BlockType::Leaf),
        ((1i64, 4i64, -1i64), BlockType::Leaf),
        ((-1i64, 3i64, -1i64), BlockType::Leaf),
        ((-1i64, 4i64, -1i64), BlockType::Leaf),
        ((1i64, 3i64, 0i64), BlockType::Leaf),
        ((1i64, 4i64, 0i64), BlockType::Leaf),
        ((-1i64, 3i64, 0i64), BlockType::Leaf),
        ((-1i64, 4i64, 0i64), BlockType::Leaf),
        ((0i64, 5i64, 0i64), BlockType::Leaf),
    ]
}

/// The block one tree part becomes: the anchor moved by the part's offset,
/// wrapped into a block of the part's type at its owning chunk.
pub open spec fn spec_tree_block(position: Position, part: ((i64, i64, i64), BlockType))
    -> Block {
    let abs = Position {
        x: (position.x + part.0.0) as i64,
        y: (position.y + part.0.1) as i64,
        z: (position.z + part.0.2) as i64,
    };
    spec_new_block(
        abs.spec_relative(),
        (
            owning_chunk_coord(abs.x as int) as i32,
            owning_chunk_coord(abs.z as int) as i32,
        ),
        part.1,
    )
}

/// The full list of blocks of a tree rooted at `position`.
pub open spec fn spec_tree_blocks(position: Position) -> Seq<Block> {
    Seq::new(spec_tree_parts().len(), |i: int| spec_tree_block(position, spec_tree_parts()[i]))
}

impl Structure for Tree {
    open spec fn spec_blocks(position: Position) -> Seq<Block> {
        spec_tree_blocks(position)
    }

    /// Emits the tree rooted at `position`: a pure function of the anchor,
    /// so repeated calls produce identical block lists.
    fn get_blocks(position: Position) -> (r: Vec<Block>) {
        let parts: [((i64, i64, i64), BlockType); 20] = [
            ((0, 1, 0), BlockType::Wood),
            ((0, 2, 0), BlockType::Wood),
            ((0, 3, 0), BlockType::Wood),
            ((0, 3, 1), BlockType::Leaf),
            ((0, 4, 1), BlockType::Leaf),
            ((1, 3, 1), BlockType::Leaf),
            ((1, 4, 1), BlockType::Leaf),
            ((-1, 3, 1), BlockType::Leaf),
            ((-1, 4, 1), BlockType::Leaf),
            ((0, 3, -1), BlockType::Leaf),
            ((0, 4, -1), BlockType::Leaf),
            ((1, 3, -1), BlockType::Leaf),
            ((1, 4, -1), BlockType::Leaf),
            ((-1, 3, -1), BlockType::Leaf),
            ((-1, 4, -1), BlockType::Leaf),
            ((1, 3, 0), BlockType::Leaf),
            ((1, 4, 0), BlockType::Leaf),
            ((-1, 3, 0), BlockType::Leaf),
            ((-1, 4, 0), BlockType::Leaf),
            ((0, 5, 0), BlockType::Leaf),
        ];
        proof {
            assert(parts@ =~= spec_tree_parts());
        }
        let mut blocks: Vec<Block> = Vec::new();
        let mut i: usize = 0;
        while i < 20
            invariant
                spec_anchor_ok(position),
                parts@ == spec_tree_parts(),
                i <= 20,
                blocks@ =~= Seq::new(i as nat, |j: int| spec_tree_block(position, parts@[j])),
                forall|j: int| 0 <= j < blocks@.len() ==> (#[trigger] blocks@[j]).wf(),
            decreases 20 - i,
        {
            let part: ((i64, i64, i64), BlockType) = parts[i];
            let abs = Position {
                x: position.x + part.0.0,
                y: position.y + part.0.1,
                z: position.z + part.0.2,
            };
            let chunk: (i32, i32) = abs.get_chunk_from_position_absolute();
            let rel: Position = abs.relative_from_absolute();
            let block: Block = Block::new(rel, chunk, part.1);
            blocks.push(block);
            i = i + 1;
        }
        proof {
            assert(blocks@ =~= spec_tree_blocks(position));
        }
        blocks
    }
}


/// The blocks of one tree occupy pairwise distinct cells: two different
/// parts that land in the same chunk land at different relative positions.
pub proof fn lemma_tree_blocks_distinct(anchor: Position)
    requires
        spec_anchor_ok(anchor),
    ensures
        forall|i: int, j: int|
            0 <= i < spec_tree_blocks(anchor).len() && 0 <= j < spec_tree_blocks(anchor).len()
                && i != j && (#[trigger] spec_tree_blocks(anchor)[i]).spec_chunk_coords() == (
            #[trigger] spec_tree_blocks(anchor)[j]).spec_chunk_coords() ==> spec_tree_blocks(
                anchor,
            )[i].position != spec_tree_blocks(anchor)[j].position,
{
    assert forall|i: int, j: int|
        0 <= i < spec_tree_blocks(anchor).len() && 0 <= j < spec_tree_blocks(anchor).len()
            && i != j && (#[trigger] spec_tree_blocks(anchor)[i]).spec_chunk_coords() == (
        #[trigger] spec_tree_blocks(anchor)[j]).spec_chunk_coords() implies spec_tree_blocks(
        anchor,
    )[i].position != spec_tree_blocks(anchor)[j].position by {
        let pi = spec_tree_parts()[i];
        let pj = spec_tree_parts()[j];
        assert(pi.0 != pj.0);
        let bi = spec_tree_blocks(anchor)[i];
        let bj = spec_tree_blocks(anchor)[j];
        lemma_tree_block_absolute(anchor, i);
        lemma_tree_block_absolute(anchor, j);
        if bi.spec_chunk_coords() == bj.spec_chunk_coords() && bi.position == bj.position {
            assert(bi.absolute_position == bj.absolute_position);
        }
    }
}

/// A tree block's absolute position is exactly the anchor moved by its
/// part's offset.
proof fn lemma_tree_block_absolute(anchor: Position, i: int)
    requires
        spec_anchor_ok(anchor),
        0 <= i < spec_tree_parts().len(),
    ensures
        spec_tree_blocks(anchor)[i].absolute_position == (Position {
            x: (anchor.x + spec_tree_parts()[i].0.0) as i64,
            y: (anchor.y + spec_tree_parts()[i].0.1) as i64,
            z: (anchor.z + spec_tree_parts()[i].0.2) as i64,
        }),
{
    let part = spec_tree_parts()[i];
    assert(-1 <= part.0.0 <= 1 && 1 <= part.0.1 <= 5 && -1 <= part.0.2 <= 1);
    let abs = Position {
        x: (anchor.x + part.0.0) as i64,
        y: (anchor.y + part.0.1) as i64,
        z: (anchor.z + part.0.2) as i64,
    };
    vstd::arithmetic::div_mod::lemma_fundamental_div_mod(abs.x as int, 16);
    vstd::arithmetic::div_mod::lemma_fundamental_div_mod(abs.z as int, 16);
}

/// Determinism of tree generation: any two block lists emitted for the
/// same anchor are equal, since each equals the one list the anchor
/// determines.
pub proof fn lemma_tree_deterministic(position: Position, r1: Seq<Block>, r2: Seq<Block>)
    requires
        r1 == spec_tree_blocks(position),
        r2 == spec_tree_blocks(position),
    ensures
        r1 == r2,
{
}

} // verus!
