//! Per-voxel identity: a typed block with agreeing relative and absolute
//! positions, the face-direction vocabulary of a cube, and the vertex
//! record that meshing emits.

use vstd::prelude::*;
use crate::block_type::{spec_config, spec_tex_coords, BlockType};
use crate::chunk::BlockVec;
use crate::effects::{from_vertex_position, spec_vertex_ao, VERTEX_HALF_LIMIT};
use crate::collision::{spec_block_box, CollisionBox};
use crate::utils::{
    abs_coord_ok, owning_chunk_coord, relative_coord, ChunkFromPosition, Position,
    MAX_ABS_COORD, MIN_ABS_COORD,
};
use crate::world::CHUNK_SIZE;

verus! {

/// The six faces of a cube.
#[derive(Clone, Copy, PartialEq, Eq, Structural, Hash, Debug)]
pub enum FaceDirections {
    Front,
    Back,
    Left,
    Right,
    Top,
    Bottom,
}

impl FaceDirections {
    /// Every face direction, in the order meshing walks them.
    pub fn all() -> (r: [FaceDirections; 6])
        ensures
            r@ == seq![
                FaceDirections::Back,
                FaceDirections::Bottom,
                FaceDirections::Top,
                FaceDirections::Front,
                FaceDirections::Left,
                FaceDirections::Right,
            ],
    {
        [
            FaceDirections::Back,
            FaceDirections::Bottom,
            FaceDirections::Top,
            FaceDirections::Front,
            FaceDirections::Left,
            FaceDirections::Right,
        ]
    }

    pub open spec fn spec_opposite(self) -> FaceDirections {
        match self {
            FaceDirections::Back => FaceDirections::Front,
            FaceDirections::Bottom => FaceDirections::Top,
            FaceDirections::Top => FaceDirections::Bottom,
            FaceDirections::Front => FaceDirections::Back,
            FaceDirections::Left => FaceDirections::Right,
            FaceDirections::Right => FaceDirections::Left,
        }
    }

    /// The face on the other side of the cube.
    pub fn opposite(&self) -> (r: FaceDirections)
        ensures
            r == self.spec_opposite(),
    {
        match self {
            FaceDirections::Back => FaceDirections::Front,
            FaceDirections::Bottom => FaceDirections::Top,
            FaceDirections::Top => FaceDirections::Bottom,
            FaceDirections::Front => FaceDirections::Back,
            FaceDirections::Left => FaceDirections::Right,
            FaceDirections::Right => FaceDirections::Left,
        }
    }

    /// The outward unit normal of the face, one lattice step along one
    /// axis.
    pub open spec fn spec_normal(self) -> (int, int, int) {
        match self {
            FaceDirections::Back => (0, 0, 1),
            FaceDirections::Bottom => (0, -1, 0),
            FaceDirections::Top => (0, 1, 0),
            FaceDirections::Front => (0, 0, -1),
            FaceDirections::Left => (-1, 0, 0),
            FaceDirections::Right => (1, 0, 0),
        }
    }

    pub fn get_normal_vector(&self) -> (r: (i64, i64, i64))
        ensures
            (r.0 as int, r.1 as int, r.2 as int) == self.spec_normal(),
    {
        match self {
            FaceDirections::Back => (0, 0, 1),
            FaceDirections::Bottom => (0, -1, 0),
            FaceDirections::Top => (0, 1, 0),
            FaceDirections::Front => (0, 0, -1),
            FaceDirections::Left => (-1, 0, 0),
            FaceDirections::Right => (1, 0, 0),
        }
    }

    /// The corner indices of the two triangles of the face, referring to
    /// the fixed eight-corner table of the unit cube.
    pub open spec fn spec_indices(self) -> Seq<u32> {
        match self {
            FaceDirections::Back => seq![7u32, 6, 5, 7, 5, 4],
            FaceDirections::Front => seq![0u32, 1, 2, 0, 2, 3],
            FaceDirections::Left => seq![4u32, 5, 1, 4, 1, 0],
            FaceDirections::Right => seq![3u32, 2, 6, 3, 6, 7],
            FaceDirections::Top => seq![1u32, 5, 6, 1, 6, 2],
            FaceDirections::Bottom => seq![4u32, 0, 3, 4, 3, 7],
        }
    }

    pub fn get_indices(&self) -> (r: [u32; 6])
        ensures
            r@ == self.spec_indices(),
    {
        match self {
            FaceDirections::Back => [7, 6, 5, 7, 5, 4],
            FaceDirections::Front => [0, 1, 2, 0, 2, 3],
            FaceDirections::Left => [4, 5, 1, 4, 1, 0],
            FaceDirections::Right => [3, 2, 6, 3, 6, 7],
            FaceDirections::Top => [1, 5, 6, 1, 6, 2],
            FaceDirections::Bottom => [4, 0, 3, 4, 3, 7],
        }
    }
}

/// The offsets of cube corner `corner` from the cube's centre, on the
/// half-unit lattice (twice the coordinate, so each component is -1 or 1:
/// half a block away from the centre on every axis).
pub open spec fn spec_corner_offset(corner: int) -> (int, int, int) {
    if corner == 0 {
        (-1, -1, -1)
    } else if corner == 1 {
        (-1, 1, -1)
    } else if corner == 2 {
        (1, 1, -1)
    } else if corner == 3 {
        (1, -1, -1)
    } else if corner == 4 {
        (-1, -1, 1)
    } else if corner == 5 {
        (-1, 1, 1)
    } else if corner == 6 {
        (1, 1, 1)
    } else {
        (1, -1, 1)
    }
}

/// The eight corners of the unit cube, on the half-unit lattice.
pub fn corner_offset(corner: u32) -> (r: (i64, i64, i64))
    requires
        corner < 8,
    ensures
        (r.0 as int, r.1 as int, r.2 as int) == spec_corner_offset(corner as int),
{
    match corner {
        0 => (-1, -1, -1),
        1 => (-1, 1, -1),
        2 => (1, 1, -1),
        3 => (1, -1, -1),
        4 => (-1, -1, 1),
        5 => (-1, 1, 1),
        6 => (1, 1, 1),
        _ => (1, -1, 1),
    }
}

/// Looks up the texture-atlas footprint of a block's face.
pub trait TexturedBlock {
    /// The four corner texture coordinates of the face, in atlas cells.
    spec fn spec_texcoords(&self, face_dir: FaceDirections) -> Seq<[u32; 2]>;

    fn get_texcoords(&self, face_dir: FaceDirections) -> (r: [[u32; 2]; 4])
        ensures
            r@ == self.spec_texcoords(face_dir),
    ;
}

/// One voxel: its chunk-relative position, its absolute position, the unit
/// collision cube it occupies, and its type.
#[derive(Clone, Copy, PartialEq, Eq, Structural, Debug)]
pub struct Block {
    pub position: Position,
    pub absolute_position: Position,
    pub collision_box: CollisionBox,
    pub block_type: BlockType,
}

/// The block that `Block::new` builds from a relative position, an owning
/// chunk, and a type.
pub open spec fn spec_new_block(position: Position, chunk: (i32, i32), block_type: BlockType)
    -> Block {
    let abs = Position {
        x: ((chunk.0 as int) * (CHUNK_SIZE as int) + position.x as int) as i64,
        y: position.y,
        z: ((chunk.1 as int) * (CHUNK_SIZE as int) + position.z as int) as i64,
    };
    Block {
        position,
        absolute_position: abs,
        collision_box: spec_block_box(abs.x, abs.y, abs.z),
        block_type,
    }
}

impl Block {
    /// A relative position fits inside one chunk's footprint.
    pub open spec fn relative_ok(position: Position) -> bool {
        &&& 0 <= position.x < CHUNK_SIZE
        &&& 0 <= position.z < CHUNK_SIZE
        &&& 0 <= position.y < crate::world::WORLD_HEIGHT_LIMIT
    }

    /// Relative and absolute position agree under the owning chunk's
    /// offset, and the collision box is the unit cube at the absolute
    /// position.
    pub open spec fn wf(self) -> bool {
        &&& Self::relative_ok(self.position)
        &&& abs_coord_ok(self.absolute_position.x as int)
        &&& abs_coord_ok(self.absolute_position.z as int)
        &&& self.absolute_position.y == self.position.y
        &&& relative_coord(self.absolute_position.x as int) == self.position.x
        &&& relative_coord(self.absolute_position.z as int) == self.position.z
        &&& self.collision_box == spec_block_box(
            self.absolute_position.x,
            self.absolute_position.y,
            self.absolute_position.z,
        )
    }

    /// The chunk the block belongs to, read off its absolute position.
    pub open spec fn spec_chunk_coords(self) -> (int, int) {
        (
            owning_chunk_coord(self.absolute_position.x as int),
            owning_chunk_coord(self.absolute_position.z as int),
        )
    }

    /// Builds the block at relative `position` of chunk `chunk`: the
    /// absolute position is the chunk offset plus the relative position,
    /// and the collision box is the unit cube there.
    pub fn new(position: Position, chunk: (i32, i32), block_type: BlockType) -> (r: Block)
        requires
            Self::relative_ok(position),
        ensures
            r == spec_new_block(position, chunk, block_type),
            r.wf(),
            r.spec_chunk_coords() == (chunk.0 as int, chunk.1 as int),
    {
        let abs_x: i64 = (chunk.0 as i64) * (CHUNK_SIZE as i64) + position.x;
        let abs_z: i64 = (chunk.1 as i64) * (CHUNK_SIZE as i64) + position.z;
        let absolute_position = Position { x: abs_x, y: position.y, z: abs_z };
        let collision_box = CollisionBox::from_block_position(abs_x, position.y, abs_z);
        proof {
            vstd::arithmetic::div_mod::lemma_fundamental_div_mod_converse(
                abs_x as int,
                CHUNK_SIZE as int,
                chunk.0 as int,
                position.x as int,
            );
            vstd::arithmetic::div_mod::lemma_fundamental_div_mod_converse(
                abs_z as int,
                CHUNK_SIZE as int,
                chunk.1 as int,
                position.z as int,
            );
        }
        Block { position, absolute_position, collision_box, block_type }
    }

    /// The coordinates of the owning chunk.
    pub fn get_chunk_coords(&self) -> (r: (i32, i32))
        requires
            abs_coord_ok(self.absolute_position.x as int),
            abs_coord_ok(self.absolute_position.z as int),
        ensures
            (r.0 as int, r.1 as int) == self.spec_chunk_coords(),
    {
        self.absolute_position.get_chunk_from_position_absolute()
    }

    /// Whether the block touches a vertical chunk boundary.
    pub fn is_on_chunk_border(&self) -> (r: bool)
        ensures
            r == (self.position.x == 0 || self.position.x == CHUNK_SIZE - 1
                || self.position.z == 0 || self.position.z == CHUNK_SIZE - 1),
    {
        self.position.x == 0 || self.position.x == (CHUNK_SIZE - 1) as i64
            || self.position.z == 0 || self.position.z == (CHUNK_SIZE - 1) as i64
    }

    /// The chunks that border this block, one entry per boundary the block
    /// touches, in the order right, left, back, front.
    pub open spec fn spec_neighbour_chunks(self) -> Seq<(i32, i32)> {
        let c = self.spec_chunk_coords();
        (if self.position.x == CHUNK_SIZE - 1 {
            seq![((c.0 + 1) as i32, c.1 as i32)]
        } else {
            Seq::<(i32, i32)>::empty()
        }) + (if self.position.x == 0 {
            seq![((c.0 - 1) as i32, c.1 as i32)]
        } else {
            Seq::<(i32, i32)>::empty()
        }) + (if self.position.z == CHUNK_SIZE - 1 {
            seq![(c.0 as i32, (c.1 + 1) as i32)]
        } else {
            Seq::<(i32, i32)>::empty()
        }) + (if self.position.z == 0 {
            seq![(c.0 as i32, (c.1 - 1) as i32)]
        } else {
            Seq::<(i32, i32)>::empty()
        })
    }

    /// The coordinates of the neighbouring chunks whose boundary the block
    /// touches; empty for interior blocks.
    pub fn get_neighbour_chunks_coords(&self) -> (r: Vec<(i32, i32)>)
        requires
            self.wf(),
            MIN_ABS_COORD + CHUNK_SIZE <= self.absolute_position.x,
            self.absolute_position.x <= MAX_ABS_COORD - CHUNK_SIZE,
            MIN_ABS_COORD + CHUNK_SIZE <= self.absolute_position.z,
            self.absolute_position.z <= MAX_ABS_COORD - CHUNK_SIZE,
        ensures
            r@ == self.spec_neighbour_chunks(),
    {
        let chunk: (i32, i32) = self.get_chunk_coords();
        let mut neighbour_chunks: Vec<(i32, i32)> = Vec::new();
        if self.position.x == (CHUNK_SIZE - 1) as i64 {
            neighbour_chunks.push((chunk.0 + 1, chunk.1));
        }
        if self.position.x == 0 {
            neighbour_chunks.push((chunk.0 - 1, chunk.1));
        }
        if self.position.z == (CHUNK_SIZE - 1) as i64 {
            neighbour_chunks.push((chunk.0, chunk.1 + 1));
        }
        if self.position.z == 0 {
            neighbour_chunks.push((chunk.0, chunk.1 - 1));
        }
        proof {
            assert(neighbour_chunks@ =~= self.spec_neighbour_chunks());
        }
        neighbour_chunks
    }
}

/// One mesh vertex, in exact integer form: position on the half-unit
/// lattice of chunk-relative space, an axis-aligned unit normal, texture
/// coordinates in atlas cells, and the ambient-occlusion level (0 darkest,
/// 3 brightest).
#[derive(Clone, Copy, PartialEq, Eq, Debug)]
pub struct BlockVertexData {
    pub position: [i64; 3],
    pub normal: [i64; 3],
    pub tex_coords: [u32; 2],
    pub ao: u8,
}

/// First-occurrence deduplication of a corner-index list: each value keeps
/// its first position's order and later repetitions vanish.
pub open spec fn spec_dedup(s: Seq<u32>) -> Seq<u32>
    decreases s.len(),
{
    if s.len() == 0 {
        Seq::empty()
    } else {
        let pre = spec_dedup(s.drop_last());
        if pre.contains(s.last()) {
            pre
        } else {
            pre.push(s.last())
        }
    }
}

/// Deduplication never lengthens a list.
proof fn lemma_dedup_len(s: Seq<u32>)
    ensures
        spec_dedup(s).len() <= s.len(),
    decreases s.len(),
{
    if s.len() > 0 {
        lemma_dedup_len(s.drop_last());
    }
}

/// Everything the deduplicated list holds came from the original list.
proof fn lemma_dedup_elements(s: Seq<u32>)
    ensures
        forall|k: int|
            0 <= k < spec_dedup(s).len() ==> s.contains(#[trigger] spec_dedup(s)[k]),
    decreases s.len(),
{
    if s.len() > 0 {
        lemma_dedup_elements(s.drop_last());
        let pre = spec_dedup(s.drop_last());
        assert forall|k: int|
            0 <= k < spec_dedup(s).len() implies s.contains(#[trigger] spec_dedup(s)[k]) by {
            if k < pre.len() {
                let x = pre[k];
                assert(s.drop_last().contains(x));
                let j = choose|j: int| 0 <= j < s.drop_last().len() && s.drop_last()[j] == x;
                assert(s[j] == x);
            } else {
                assert(spec_dedup(s)[k] == s.last());
                assert(s[s.len() - 1] == s.last());
            }
        }
    }
}

/// Everything the original list holds survives deduplication.
proof fn lemma_dedup_complete(s: Seq<u32>, x: u32)
    requires
        s.contains(x),
    ensures
        spec_dedup(s).contains(x),
    decreases s.len(),
{
    let pre = spec_dedup(s.drop_last());
    if s.last() == x {
        if pre.contains(x) {
        } else {
            assert(spec_dedup(s)[pre.len() as int] == x);
        }
    } else {
        let j = choose|j: int| 0 <= j < s.len() && s[j] == x;
        assert(s.drop_last()[j] == x);
        lemma_dedup_complete(s.drop_last(), x);
        let k = choose|k: int| 0 <= k < pre.len() && pre[k] == x;
        assert(spec_dedup(s)[k] == x);
    }
}

/// Whether a list holds a value.
fn contains_u32(v: &Vec<u32>, x: u32) -> (r: bool)
    ensures
        r == v@.contains(x),
{
    let mut i: usize = 0;
    while i < v.len()
        invariant
            i <= v@.len(),
            forall|j: int| 0 <= j < i ==> v@[j] != x,
        decreases v@.len() - i,
    {
        if v[i] == x {
            return true;
        }
        i = i + 1;
    }
    false
}

/// The position of a value the list is known to hold.
fn index_of_u32(v: &Vec<u32>, x: u32) -> (r: usize)
    requires
        v@.contains(x),
    ensures
        r < v@.len(),
        v@[r as int] == x,
{
    let mut i: usize = 0;
    while i < v.len()
        invariant
            i <= v@.len(),
            forall|j: int| 0 <= j < i ==> v@[j] != x,
        decreases v@.len() - i,
    {
        if v[i] == x {
            return i;
        }
        i = i + 1;
    }
    proof {
        let j = choose|j: int| 0 <= j < v@.len() && v@[j] == x;
        assert(false);
    }
    0
}

/// Deduplicates the six corner indices of a face and remaps each of the
/// six onto its position in the deduplicated list.
fn dedup_indices(indices: &[u32; 6]) -> (r: (Vec<u32>, Vec<u32>))
    ensures
        r.0@ == spec_dedup(indices@),
        r.1@.len() == 6,
        forall|i: int| 0 <= i < 6 ==> (#[trigger] r.1@[i]) < r.0@.len(),
        forall|i: int|
            0 <= i < 6 ==> r.0@[#[trigger] r.1@[i] as int] == indices@[i],
{
    let mut unique_indices: Vec<u32> = Vec::new();
    let mut i: usize = 0;
    while i < 6
        invariant
            i <= 6,
            unique_indices@ == spec_dedup(indices@.take(i as int)),
        decreases 6 - i,
    {
        let ghost prefix = indices@.take(i as int);
        let ind: u32 = indices[i];
        proof {
            assert(indices@.take(i as int + 1).drop_last() =~= prefix);
            assert(indices@.take(i as int + 1).last() == indices@[i as int]);
        }
        if !contains_u32(&unique_indices, ind) {
            unique_indices.push(ind);
        }
        i = i + 1;
    }
    proof {
        assert(indices@.take(6) =~= indices@);
    }
    let mut indices_map: Vec<u32> = Vec::new();
    let mut k: usize = 0;
    while k < 6
        invariant
            k <= 6,
            unique_indices@ == spec_dedup(indices@),
            indices_map@.len() == k,
            forall|i: int| 0 <= i < k ==> (#[trigger] indices_map@[i]) < unique_indices@.len(),
            forall|i: int|
                0 <= i < k ==> unique_indices@[#[trigger] indices_map@[i] as int] == indices@[i],
        decreases 6 - k,
    {
        let ind: u32 = indices[k];
        proof {
            assert(indices@.contains(indices@[k as int]));
            lemma_dedup_complete(indices@, indices@[k as int]);
        }
        let pos: usize = index_of_u32(&unique_indices, ind);
        proof {
            lemma_dedup_len(indices@);
        }
        indices_map.push(pos as u32);
        k = k + 1;
    }
    (unique_indices, indices_map)
}

/// Deduplicating a six-entry list of the shape `[a, b, c, a, c, d]` with
/// `a`, `b`, `c`, `d` pairwise distinct keeps exactly the four distinct
/// values, in order.
proof fn lemma_dedup_quad(a: u32, b: u32, c: u32, d: u32)
    requires
        a != b && a != c && a != d && b != c && b != d && c != d,
    ensures
        spec_dedup(seq![a, b, c, a, c, d]) == seq![a, b, c, d],
{
    let s1 = seq![a];
    let s2 = seq![a, b];
    let s3 = seq![a, b, c];
    let s4 = seq![a, b, c, a];
    let s5 = seq![a, b, c, a, c];
    let s6 = seq![a, b, c, a, c, d];
    reveal_with_fuel(spec_dedup, 8);
    assert(s1.drop_last() =~= Seq::<u32>::empty());
    assert(spec_dedup(s1) =~= seq![a]);
    assert(s2.drop_last() =~= s1);
    assert(!spec_dedup(s1).contains(b));
    assert(spec_dedup(s2) =~= seq![a, b]);
    assert(s3.drop_last() =~= s2);
    assert(!spec_dedup(s2).contains(c));
    assert(spec_dedup(s3) =~= seq![a, b, c]);
    assert(s4.drop_last() =~= s3);
    assert(spec_dedup(s3).contains(a));
    assert(spec_dedup(s4) =~= seq![a, b, c]);
    assert(s5.drop_last() =~= s4);
    assert(spec_dedup(s4).contains(c));
    assert(spec_dedup(s5) =~= seq![a, b, c]);
    assert(s6.drop_last() =~= s5);
    assert(!spec_dedup(s5).contains(d));
    assert(spec_dedup(s6) =~= seq![a, b, c, d]);
}

/// Every face has exactly four distinct corners: its six triangle indices
/// deduplicate to the face's first, second, third and sixth entry.
pub proof fn lemma_face_corners(face: FaceDirections)
    ensures
        spec_dedup(face.spec_indices()).len() == 4,
        spec_dedup(face.spec_indices()) == seq![
            face.spec_indices()[0],
            face.spec_indices()[1],
            face.spec_indices()[2],
            face.spec_indices()[5],
        ],
{
    match face {
        FaceDirections::Back => {
            lemma_dedup_quad(7, 6, 5, 4);
            assert(face.spec_indices() =~= seq![7u32, 6, 5, 7, 5, 4]);
        },
        FaceDirections::Front => {
            lemma_dedup_quad(0, 1, 2, 3);
            assert(face.spec_indices() =~= seq![0u32, 1, 2, 0, 2, 3]);
        },
        FaceDirections::Left => {
            lemma_dedup_quad(4, 5, 1, 0);
            assert(face.spec_indices() =~= seq![4u32, 5, 1, 4, 1, 0]);
        },
        FaceDirections::Right => {
            lemma_dedup_quad(3, 2, 6, 7);
            assert(face.spec_indices() =~= seq![3u32, 2, 6, 3, 6, 7]);
        },
        FaceDirections::Top => {
            lemma_dedup_quad(1, 5, 6, 2);
            assert(face.spec_indices() =~= seq![1u32, 5, 6, 1, 6, 2]);
        },
        FaceDirections::Bottom => {
            lemma_dedup_quad(4, 0, 3, 7);
            assert(face.spec_indices() =~= seq![4u32, 0, 3, 4, 3, 7]);
        },
    }
}

/// The vertex that face `face` of `block` contributes for the `k`-th
/// deduplicated corner: position on the half-unit lattice of relative
/// space, the face normal, the corner's texture coordinates in atlas
/// cells, and the occlusion level probed at the vertex's absolute
/// position.
pub open spec fn spec_face_vertex(
    bp: Seq<((i32, i32), BlockVec)>,
    face: FaceDirections,
    block: Block,
    k: int,
) -> BlockVertexData {
    let corner = spec_dedup(face.spec_indices())[k];
    let off = spec_corner_offset(corner as int);
    let vertex_abs = Position {
        x: (2 * block.absolute_position.x + off.0) as i64,
        y: (2 * block.absolute_position.y + off.1) as i64,
        z: (2 * block.absolute_position.z + off.2) as i64,
    };
    let n = face.spec_normal();
    let tex = spec_tex_coords(spec_config(block.block_type), face);
    BlockVertexData {
        position: [
            (2 * block.position.x + off.0) as i64,
            (2 * block.position.y + off.1) as i64,
            (2 * block.position.z + off.2) as i64,
        ],
        normal: [n.0 as i64, n.1 as i64, n.2 as i64],
        tex_coords: if k < 4 {
            tex[k]
        } else {
            tex[3]
        },
        ao: spec_vertex_ao(bp, vertex_abs),
    }
}

impl FaceDirections {
    /// Builds the face's geometry for one block: one vertex per distinct
    /// corner of the face, in first-occurrence order, and the six-entry
    /// index list remapped onto those vertices (two triangles). Occlusion
    /// is probed against the listed grids.
    pub fn create_face_data(
        &self,
        block: &Block,
        blocks: &Vec<((i32, i32), BlockVec)>,
    ) -> (r: (Vec<BlockVertexData>, Vec<u32>))
        requires
            block.wf(),
            -0x1_0000_0000 <= block.absolute_position.x <= 0x1_0000_0000,
            -0x1_0000_0000 <= block.absolute_position.z <= 0x1_0000_0000,
        ensures
            r.0@ == Seq::new(
                spec_dedup(self.spec_indices()).len(),
                |k: int| spec_face_vertex(blocks@, *self, *block, k),
            ),
            r.0@.len() == 4,
            r.1@.len() == 6,
            forall|i: int| 0 <= i < 6 ==> (#[trigger] r.1@[i]) < r.0@.len(),
            forall|i: int|
                0 <= i < 6 ==> spec_dedup(self.spec_indices())[#[trigger] r.1@[i] as int]
                    == self.spec_indices()[i],
    {
        let indices: [u32; 6] = self.get_indices();
        let pair: (Vec<u32>, Vec<u32>) = dedup_indices(&indices);
        let unique_indices: Vec<u32> = pair.0;
        let indices_map: Vec<u32> = pair.1;
        let face_texcoords: [[u32; 2]; 4] = block.block_type.get_texcoords(*self);
        let normals: (i64, i64, i64) = self.get_normal_vector();
        proof {
            lemma_dedup_elements(indices@);
            lemma_face_corners(*self);
            assert(forall|j: int| 0 <= j < 6 ==> self.spec_indices()[j] < 8);
        }
        let mut vertex_data: Vec<BlockVertexData> = Vec::new();
        let mut i: usize = 0;
        while i < unique_indices.len()
            invariant
                block.wf(),
                -0x1_0000_0000 <= block.absolute_position.x <= 0x1_0000_0000,
                -0x1_0000_0000 <= block.absolute_position.z <= 0x1_0000_0000,
                unique_indices@ == spec_dedup(self.spec_indices()),
                forall|k: int|
                    0 <= k < unique_indices@.len() ==> (#[trigger] unique_indices@[k]) < 8,
                face_texcoords@ == spec_tex_coords(spec_config(block.block_type), *self),
                (normals.0 as int, normals.1 as int, normals.2 as int) == self.spec_normal(),
                i <= unique_indices@.len(),
                vertex_data@ =~= Seq::new(
                    i as nat,
                    |k: int| spec_face_vertex(blocks@, *self, *block, k),
                ),
            decreases unique_indices@.len() - i,
        {
            let corner: u32 = unique_indices[i];
            let off: (i64, i64, i64) = corner_offset(corner);
            let vertex_abs = Position {
                x: 2 * block.absolute_position.x + off.0,
                y: 2 * block.absolute_position.y + off.1,
                z: 2 * block.absolute_position.z + off.2,
            };
            let ao: u8 = from_vertex_position(&vertex_abs, blocks);
            let tex: [u32; 2] = if i < 4 {
                face_texcoords[i]
            } else {
                face_texcoords[3]
            };
            let vertex = BlockVertexData {
                position: [
                    2 * block.position.x + off.0,
                    2 * block.position.y + off.1,
                    2 * block.position.z + off.2,
                ],
                normal: [normals.0, normals.1, normals.2],
                tex_coords: tex,
                ao,
            };
            vertex_data.push(vertex);
            i = i + 1;
        }
        (vertex_data, indices_map)
    }
}

} // verus!
