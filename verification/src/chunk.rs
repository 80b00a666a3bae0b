//! The chunk store: a fixed 16x16 grid of vertical block columns, its
//! generation from the height field, tree placement, and the decisions the
//! renderer needs (visibility, mesh extraction).

use vstd::prelude::*;
use crate::block::{spec_new_block, Block, BlockVertexData, FaceDirections};
use crate::block_type::{spec_config, spec_from_position, BlockType};
use crate::effects::{block_at_cell, spec_block_at_cell};
use crate::random::{rng_below, rng_from_seed};
use crate::structures::{lemma_tree_blocks_distinct, spec_anchor_ok, spec_tree_blocks, Structure, Tree};
use crate::utils::{Position, MAX_ABS_COORD, MIN_ABS_COORD};
use crate::world::{
    CHUNK_SIZE, MAX_TREES_PER_CHUNK, MAX_WORLD_HEIGHT, NOISE_SIZE, NoiseData, RNG_SEED,
    WATER_HEIGHT_LEVEL, WORLD_HEIGHT_LIMIT,
};

verus! {

/// A chunk's voxel grid: one vertical column of optional block slots per
/// `(local_x * CHUNK_SIZE + local_z)` column index; `None` is air.
pub type BlockVec = Vec<Vec<Option<Block>>>;

/// The column index of local coordinates `(x, z)`.
pub open spec fn spec_column_index(x: int, z: int) -> int {
    x * (CHUNK_SIZE as int) + z
}

/// Whether one slot of the grid is coherent: an empty slot always is; a
/// block stored at column `c`, height `y` must sit at exactly that relative
/// position, belong to chunk `(cx, cz)`, and be well formed.
pub open spec fn spec_slot_ok(slot: Option<Block>, c: int, y: int, cx: int, cz: int) -> bool {
    match slot {
        Option::None => true,
        Option::Some(b) => {
            &&& b.wf()
            &&& b.position.x == c / (CHUNK_SIZE as int)
            &&& b.position.y == y
            &&& b.position.z == c % (CHUNK_SIZE as int)
            &&& b.spec_chunk_coords() == (cx, cz)
        },
    }
}

/// Well-formedness of a chunk's grid: exactly one column per footprint
/// cell, every stored block coherent with its slot and with the owning
/// chunk `(cx, cz)`.
pub open spec fn spec_grid_wf(grid: Seq<Vec<Option<Block>>>, cx: int, cz: int) -> bool {
    &&& grid.len() == (CHUNK_SIZE as int) * (CHUNK_SIZE as int)
    &&& forall|c: int| 0 <= c < grid.len() ==> (#[trigger] grid[c]@.len()) <= WORLD_HEIGHT_LIMIT
    &&& forall|c: int, y: int|
        0 <= c < grid.len() && 0 <= y < grid[c]@.len() ==> spec_slot_ok(
            #[trigger] grid[c]@[y],
            c,
            y,
            cx,
            cz,
        )
}

/// One vertical column group of the world, owning its voxel grid, the
/// blocks it generated for neighbours, and the renderer-facing flags.
pub struct Chunk {
    pub x: i32,
    pub y: i32,
    pub blocks: BlockVec,
    pub outside_blocks: Vec<Block>,
    pub visible: bool,
    pub modified: bool,
}

/// A position outside the chunk's horizontal footprint.
pub open spec fn spec_is_outside_chunk(position: Position) -> bool {
    position.x < 0 || position.x >= CHUNK_SIZE || position.z < 0 || position.z >= CHUNK_SIZE
}

/// A position below the world.
pub open spec fn spec_is_outside_bounds(position: Position) -> bool {
    position.y < 0
}

/// A column extended with empty slots up to length `n` (columns never
/// shrink when they grow).
pub open spec fn spec_padded_column(col: Seq<Option<Block>>, n: int) -> Seq<Option<Block>> {
    if col.len() >= n {
        col
    } else {
        col + Seq::new((n - col.len()) as nat, |i: int| Option::<Block>::None)
    }
}

/// A column after a block is stored in it: padded with air up to the
/// block's height, then the block written into its slot.
pub open spec fn spec_column_with_block(col: Seq<Option<Block>>, block: Block)
    -> Seq<Option<Block>> {
    spec_padded_column(col, block.position.y + 1).update(
        block.position.y as int,
        Option::Some(block),
    )
}

/// The block stored at a relative position, if the position is inside the
/// chunk and its slot exists and is filled.
pub open spec fn spec_block_at(grid: Seq<Vec<Option<Block>>>, position: Position)
    -> Option<Block> {
    if spec_is_outside_chunk(position) || spec_is_outside_bounds(position) {
        Option::None
    } else {
        let c = spec_column_index(position.x as int, position.z as int);
        if 0 <= c < grid.len() {
            if 0 <= position.y < grid[c]@.len() {
                grid[c]@[position.y as int]
            } else {
                Option::None
            }
        } else {
            Option::None
        }
    }
}

/// The store index of local column `(x, z)`.
pub fn column_index(x: i64, z: i64) -> (r: usize)
    requires
        0 <= x < CHUNK_SIZE,
        0 <= z < CHUNK_SIZE,
    ensures
        r == spec_column_index(x as int, z as int),
        r < CHUNK_SIZE * CHUNK_SIZE,
{
    proof {
        assert(0 <= x * (CHUNK_SIZE as int) + z < 256) by (nonlinear_arith)
            requires
                0 <= x < 16,
                0 <= z < 16,
        ;
    }
    (x * 16 + z) as usize
}

/// Stores a block into one column: pads the column with air up to the
/// block's height, then fills the block's slot.
fn store_in_column(col: &mut Vec<Option<Block>>, block: Block)
    requires
        block.wf(),
        old(col)@.len() <= WORLD_HEIGHT_LIMIT,
    ensures
        final(col)@ == spec_column_with_block(old(col)@, block),
        final(col)@.len() <= WORLD_HEIGHT_LIMIT,
{
    let ghost old_col = col@;
    let y: usize = block.position.y as usize;
    while col.len() < y + 1
        invariant
            col@.len() >= old_col.len(),
            col@.len() == old_col.len() || col@.len() <= y + 1,
            col@ =~= spec_padded_column(old_col, col@.len() as int),
            y < 0x1000_0000,
        decreases y + 1 - col@.len(),
    {
        col.push(Option::None);
        proof {
            assert(col@ =~= spec_padded_column(old_col, col@.len() as int));
        }
    }
    col.set(y, Option::Some(block));
    proof {
        assert(col@ =~= spec_column_with_block(old_col, block));
    }
}

impl Chunk {
    /// The grid is well formed for this chunk's coordinates and every
    /// pending outside block is itself well formed.
    pub open spec fn wf(self) -> bool {
        &&& spec_grid_wf(self.blocks@, self.x as int, self.y as int)
        &&& forall|i: int|
            0 <= i < self.outside_blocks@.len() ==> (#[trigger] self.outside_blocks@[i]).wf()
    }

    /// Whether a relative position lies outside the chunk's footprint; a
    /// caller must rule this out before mutating.
    pub fn is_outside_chunk(position: &Position) -> (r: bool)
        ensures
            r == spec_is_outside_chunk(*position),
    {
        position.x < 0 || position.x >= CHUNK_SIZE as i64 || position.z < 0
            || position.z >= CHUNK_SIZE as i64
    }

    /// Whether a relative position lies below the world.
    pub fn is_outside_bounds(position: &Position) -> (r: bool)
        ensures
            r == spec_is_outside_bounds(*position),
    {
        position.y < 0
    }

    /// Stores `block` at its relative position, growing the column with
    /// air up to the block's height if it is shorter; marks the chunk
    /// modified when `modify_status` asks for it. The block must belong to
    /// this chunk.
    pub fn add_block(&mut self, block: Block, modify_status: bool)
        requires
            old(self).wf(),
            block.wf(),
            block.spec_chunk_coords() == (old(self).x as int, old(self).y as int),
        ensures
            final(self).wf(),
            final(self).x == old(self).x,
            final(self).y == old(self).y,
            final(self).visible == old(self).visible,
            final(self).outside_blocks == old(self).outside_blocks,
            final(self).modified == (old(self).modified || modify_status),
            final(self).blocks@.len() == old(self).blocks@.len(),
            forall|c: int|
                0 <= c < final(self).blocks@.len() && c != spec_column_index(
                    block.position.x as int,
                    block.position.z as int,
                ) ==> #[trigger] final(self).blocks@[c] == old(self).blocks@[c],
            final(self).blocks@[spec_column_index(
                block.position.x as int,
                block.position.z as int,
            )]@ == spec_column_with_block(
                old(self).blocks@[spec_column_index(
                    block.position.x as int,
                    block.position.z as int,
                )]@,
                block,
            ),
    {
        let ghost old_grid = self.blocks@;
        let ci: usize = column_index(block.position.x, block.position.z);
        proof {
            vstd::arithmetic::div_mod::lemma_fundamental_div_mod_converse(
                ci as int,
                CHUNK_SIZE as int,
                block.position.x as int,
                block.position.z as int,
            );
        }
        let mut col: Vec<Option<Block>> = self.blocks.remove(ci);
        let ghost old_col = col@;
        store_in_column(&mut col, block);
        let ghost col_view = col@;
        self.blocks.insert(ci, col);
        if modify_status {
            self.modified = true;
        }
        proof {
            assert forall|c2: int|
                0 <= c2 < self.blocks@.len() && c2 != ci as int implies #[trigger] self.blocks@[c2]
                == old_grid[c2] by {}
            assert(self.blocks@[ci as int]@ == col_view);
            assert forall|c2: int, y2: int|
                0 <= c2 < self.blocks@.len() && 0 <= y2 < self.blocks@[c2]@.len() implies
                spec_slot_ok(#[trigger] self.blocks@[c2]@[y2], c2, y2, self.x as int,
                    self.y as int) by {
                if c2 == ci as int {
                    if y2 == block.position.y as int {
                    } else if y2 < old_col.len() {
                        assert(self.blocks@[c2]@[y2] == old_grid[c2]@[y2]);
                    } else {
                        assert(self.blocks@[c2]@[y2] is None);
                    }
                } else {
                    assert(self.blocks@[c2]@[y2] == old_grid[c2]@[y2]);
                }
            }
        }
    }

    /// Empties the slot at a relative position and marks the chunk
    /// modified. The position must name an existing slot.
    pub fn remove_block(&mut self, block_r_position: &Position)
        requires
            old(self).wf(),
            !spec_is_outside_chunk(*block_r_position),
            !spec_is_outside_bounds(*block_r_position),
            block_r_position.y < old(self).blocks@[spec_column_index(
                block_r_position.x as int,
                block_r_position.z as int,
            )]@.len(),
        ensures
            final(self).wf(),
            final(self).x == old(self).x,
            final(self).y == old(self).y,
            final(self).visible == old(self).visible,
            final(self).outside_blocks == old(self).outside_blocks,
            final(self).modified,
            final(self).blocks@.len() == old(self).blocks@.len(),
            forall|c: int|
                0 <= c < final(self).blocks@.len() && c != spec_column_index(
                    block_r_position.x as int,
                    block_r_position.z as int,
                ) ==> #[trigger] final(self).blocks@[c] == old(self).blocks@[c],
            final(self).blocks@[spec_column_index(
                block_r_position.x as int,
                block_r_position.z as int,
            )]@ == old(self).blocks@[spec_column_index(
                block_r_position.x as int,
                block_r_position.z as int,
            )]@.update(block_r_position.y as int, Option::None),
    {
        let ghost old_grid = self.blocks@;
        let ci: usize = column_index(block_r_position.x, block_r_position.z);
        proof {
            assert(block_r_position.y < WORLD_HEIGHT_LIMIT);
        }
        let y: usize = block_r_position.y as usize;
        let mut col: Vec<Option<Block>> = self.blocks.remove(ci);
        col.set(y, Option::None);
        let ghost col_view = col@;
        self.blocks.insert(ci, col);
        self.modified = true;
        proof {
            assert forall|c2: int|
                0 <= c2 < self.blocks@.len() && c2 != ci as int implies #[trigger] self.blocks@[c2]
                == old_grid[c2] by {}
            assert(self.blocks@[ci as int]@ == col_view);
            assert forall|c2: int, y2: int|
                0 <= c2 < self.blocks@.len() && 0 <= y2 < self.blocks@[c2]@.len() implies
                spec_slot_ok(#[trigger] self.blocks@[c2]@[y2], c2, y2, self.x as int,
                    self.y as int) by {
                if c2 == ci as int && y2 == y as int {
                } else {
                    assert(self.blocks@[c2]@[y2] == old_grid[c2]@[y2]);
                }
            }
        }
    }

    /// The block at a relative position: nothing when the position is
    /// outside the chunk, below the world, or names an absent or empty
    /// slot.
    pub fn get_block_at_relative(&self, position: &Position) -> (r: Option<Block>)
        ensures
            r == spec_block_at(self.blocks@, *position),
    {
        if Self::is_outside_chunk(position) || Self::is_outside_bounds(position) {
            return None;
        }
        let ci: usize = column_index(position.x, position.z);
        if ci < self.blocks.len() {
            let column: &Vec<Option<Block>> = &self.blocks[ci];
            if (position.y as u64) < (column.len() as u64) {
                column[position.y as usize]
            } else {
                None
            }
        } else {
            None
        }
    }

    /// Whether any block fills the slot at a relative position.
    pub fn exists_block_at(&self, position: &Position) -> (r: bool)
        ensures
            r == spec_block_at(self.blocks@, *position).is_some(),
    {
        self.get_block_at_relative(position).is_some()
    }

    /// The type of the block at a relative position, if one is there.
    pub fn block_type_at(&self, position: &Position) -> (r: Option<BlockType>)
        ensures
            r == match spec_block_at(self.blocks@, *position) {
                Option::Some(b) => Option::Some(b.block_type),
                Option::None => Option::<BlockType>::None,
            },
    {
        match self.get_block_at_relative(position) {
            Option::Some(b) => Some(b.block_type),
            Option::None => None,
        }
    }
}

/// A world coordinate folded into the noise tile: non-negative coordinates
/// are used as they are (samples beyond the tile read as zero height);
/// negative ones are wrapped from the tile's far edge.
pub open spec fn spec_wrap_noise_coord(c: int) -> int {
    if c >= 0 {
        c
    } else {
        let m = c % (NOISE_SIZE as int);
        if m == 0 {
            NOISE_SIZE as int
        } else {
            m
        }
    }
}

/// The height sample that generation reads for local `(x, z)` of chunk
/// `(chunk_x, chunk_y)`: both world coordinates folded into the tile, the
/// sample looked up row-major, missing samples reading as zero.
pub open spec fn spec_height_value(
    chunk_x: int,
    chunk_y: int,
    x: int,
    z: int,
    noise_data: NoiseData,
) -> u32 {
    let sx = spec_wrap_noise_coord(chunk_x * (CHUNK_SIZE as int) + x);
    let sz = spec_wrap_noise_coord(chunk_y * (CHUNK_SIZE as int) + z);
    noise_data.spec_sample(sz * (NOISE_SIZE as int) + sx)
}

/// Reads the terrain height for local `(x, z)` of chunk
/// `(chunk_x, chunk_y)` from the height field, wrapping negative world
/// coordinates into the tile and treating missing samples as height zero.
pub fn get_height_value(
    chunk_x: i32,
    chunk_y: i32,
    x: u32,
    z: u32,
    noise_data: &NoiseData,
) -> (r: u32)
    requires
        x < CHUNK_SIZE,
        z < CHUNK_SIZE,
        noise_data.wf(),
    ensures
        r == spec_height_value(chunk_x as int, chunk_y as int, x as int, z as int, *noise_data),
        r <= MAX_WORLD_HEIGHT,
{
    let sx: i64 = wrap_noise_coord((chunk_x as i64) * 16 + (x as i64));
    let sz: i64 = wrap_noise_coord((chunk_y as i64) * 16 + (z as i64));
    proof {
        assert(0 <= sz * (NOISE_SIZE as int) <= 0x20_0000_0000 * 512) by (nonlinear_arith)
            requires
                0 <= sz <= 0x20_0000_0000,
        ;
    }
    let idx: i64 = sz * 512 + sx;
    if (idx as u64) < (noise_data.len() as u64) {
        noise_data.sample(idx as usize)
    } else {
        0
    }
}

/// Folds one world coordinate into the noise tile.
fn wrap_noise_coord(c: i64) -> (r: i64)
    requires
        -0x20_0000_0000 <= c <= 0x20_0000_0000,
    ensures
        r == spec_wrap_noise_coord(c as int),
        0 <= r <= 0x20_0000_0000,
{
    if c >= 0 {
        c
    } else {
        let m: i64 = c.checked_rem_euclid(NOISE_SIZE as i64).unwrap();
        if m == 0 {
            NOISE_SIZE as i64
        } else {
            m
        }
    }
}

/// The type generated at local `(x, y, z)` of a column whose terrain top
/// is `y_top`: the stratified classification, with dirt at the surface
/// promoted to grass.
pub open spec fn spec_generated_block_type(x: u32, y: u32, z: u32, y_top: u32) -> BlockType {
    if spec_from_position(x, y, z) == BlockType::Dirt && y == y_top {
        BlockType::Grass
    } else {
        spec_from_position(x, y, z)
    }
}

/// The block generation places at local `(x, y, z)` of chunk `(cx, cz)`.
pub open spec fn spec_generated_block(cx: int, cz: int, x: u32, y: int, z: u32, y_top: u32)
    -> Block {
    spec_new_block(
        Position { x: x as i64, y: y as i64, z: z as i64 },
        (cx as i32, cz as i32),
        if y <= y_top {
            spec_generated_block_type(x, y as u32, z, y_top)
        } else {
            BlockType::Water
        },
    )
}

/// One generated column: terrain blocks from the ground to `y_top`, then
/// water filling every remaining slot up to the water level. Every slot of
/// a generated column is filled.
pub open spec fn spec_generated_column(cx: int, cz: int, x: u32, z: u32, y_top: u32)
    -> Seq<Option<Block>> {
    let len = if y_top >= WATER_HEIGHT_LEVEL {
        y_top + 1
    } else {
        WATER_HEIGHT_LEVEL + 1
    };
    Seq::new(len as nat, |y: int| Option::Some(spec_generated_block(cx, cz, x, y, z, y_top)))
}

/// Builds the full voxel grid of chunk `(chunk_x, chunk_y)` from the
/// height field: for every local column, terrain blocks up to its height
/// sample (surface dirt promoted to grass), and water backfilled above the
/// terrain up to the water level. The result is a pure function of the
/// chunk coordinates and the height field, so regenerating a chunk yields
/// an identical grid.
pub fn create_blocks_data(chunk_x: i32, chunk_y: i32, noise_data: &NoiseData) -> (r: BlockVec)
    requires
        noise_data.wf(),
    ensures
        spec_grid_wf(r@, chunk_x as int, chunk_y as int),
        r@.len() == CHUNK_SIZE * CHUNK_SIZE,
        forall|c: int|
            0 <= c < r@.len() ==> (#[trigger] r@[c])@ == spec_generated_column(
                chunk_x as int,
                chunk_y as int,
                (c / (CHUNK_SIZE as int)) as u32,
                (c % (CHUNK_SIZE as int)) as u32,
                spec_height_value(
                    chunk_x as int,
                    chunk_y as int,
                    c / (CHUNK_SIZE as int),
                    c % (CHUNK_SIZE as int),
                    *noise_data,
                ),
            ),
{
    let mut blocks: Vec<Vec<Option<Block>>> = Vec::new();
    let mut x: u32 = 0;
    while x < CHUNK_SIZE
        invariant
            x <= CHUNK_SIZE,
            noise_data.wf(),
            blocks@.len() == x * CHUNK_SIZE,
            forall|c: int|
                0 <= c < blocks@.len() ==> (#[trigger] blocks@[c])@ == spec_generated_column(
                    chunk_x as int,
                    chunk_y as int,
                    (c / (CHUNK_SIZE as int)) as u32,
                    (c % (CHUNK_SIZE as int)) as u32,
                    spec_height_value(
                        chunk_x as int,
                        chunk_y as int,
                        c / (CHUNK_SIZE as int),
                        c % (CHUNK_SIZE as int),
                        *noise_data,
                    ),
                ),
        decreases CHUNK_SIZE - x,
    {
        let mut z: u32 = 0;
        while z < CHUNK_SIZE
            invariant
                x < CHUNK_SIZE,
                z <= CHUNK_SIZE,
                noise_data.wf(),
                blocks@.len() == x * CHUNK_SIZE + z,
                forall|c: int|
                    0 <= c < blocks@.len() ==> (#[trigger] blocks@[c])@ == spec_generated_column(
                        chunk_x as int,
                        chunk_y as int,
                        (c / (CHUNK_SIZE as int)) as u32,
                        (c % (CHUNK_SIZE as int)) as u32,
                        spec_height_value(
                            chunk_x as int,
                            chunk_y as int,
                            c / (CHUNK_SIZE as int),
                            c % (CHUNK_SIZE as int),
                            *noise_data,
                        ),
                    ),
            decreases CHUNK_SIZE - z,
        {
            let y_top: u32 = get_height_value(chunk_x, chunk_y, x, z, noise_data);
            let column: Vec<Option<Block>> = generate_column(chunk_x, chunk_y, x, z, y_top);
            proof {
                vstd::arithmetic::div_mod::lemma_fundamental_div_mod_converse(
                    blocks@.len() as int,
                    CHUNK_SIZE as int,
                    x as int,
                    z as int,
                );
            }
            blocks.push(column);
            z = z + 1;
        }
        x = x + 1;
    }
    proof {
        assert(blocks@.len() == (CHUNK_SIZE as int) * (CHUNK_SIZE as int));
        assert forall|c: int, y: int|
            0 <= c < blocks@.len() && 0 <= y < blocks@[c]@.len() implies spec_slot_ok(
            #[trigger] blocks@[c]@[y],
            c,
            y,
            chunk_x as int,
            chunk_y as int,
        ) by {
            lemma_generated_column_wf(
                chunk_x as int,
                chunk_y as int,
                (c / (CHUNK_SIZE as int)) as u32,
                (c % (CHUNK_SIZE as int)) as u32,
                spec_height_value(
                    chunk_x as int,
                    chunk_y as int,
                    c / (CHUNK_SIZE as int),
                    c % (CHUNK_SIZE as int),
                    *noise_data,
                ),
                c,
                y,
            );
        }
    }
    blocks
}

/// Every slot of a generated column is coherent with its place in the
/// grid and respects the height cap.
proof fn lemma_generated_column_wf(cx: int, cz: int, x: u32, z: u32, y_top: u32, c: int, y: int)
    requires
        x < CHUNK_SIZE,
        z < CHUNK_SIZE,
        y_top <= MAX_WORLD_HEIGHT,
        c == spec_column_index(x as int, z as int),
        0 <= y < spec_generated_column(cx, cz, x, z, y_top).len(),
        -0x8000_0000 <= cx < 0x8000_0000,
        -0x8000_0000 <= cz < 0x8000_0000,
    ensures
        spec_slot_ok(spec_generated_column(cx, cz, x, z, y_top)[y], c, y, cx, cz),
        spec_generated_column(cx, cz, x, z, y_top).len() <= WORLD_HEIGHT_LIMIT,
{
    vstd::arithmetic::div_mod::lemma_fundamental_div_mod_converse(c, CHUNK_SIZE as int, x as int, z as int);
    let b = spec_generated_block(cx, cz, x, y, z, y_top);
    let pos = Position { x: x as i64, y: y as i64, z: z as i64 };
    assert(b == spec_new_block(pos, (cx as i32, cz as i32), b.block_type));
    lemma_new_block_wf(pos, (cx as i32, cz as i32), b.block_type);
}

/// `spec_new_block` yields a well-formed block owned by the chunk it was
/// built for, whenever the relative position fits a chunk.
proof fn lemma_new_block_wf(position: Position, chunk: (i32, i32), t: BlockType)
    requires
        crate::block::Block::relative_ok(position),
    ensures
        spec_new_block(position, chunk, t).wf(),
        spec_new_block(position, chunk, t).spec_chunk_coords() == (chunk.0 as int, chunk.1 as int),
{
    let abs_x = (chunk.0 as int) * (CHUNK_SIZE as int) + position.x as int;
    let abs_z = (chunk.1 as int) * (CHUNK_SIZE as int) + position.z as int;
    vstd::arithmetic::div_mod::lemma_fundamental_div_mod_converse(
        abs_x,
        CHUNK_SIZE as int,
        chunk.0 as int,
        position.x as int,
    );
    vstd::arithmetic::div_mod::lemma_fundamental_div_mod_converse(
        abs_z,
        CHUNK_SIZE as int,
        chunk.1 as int,
        position.z as int,
    );
}

/// Builds one column: terrain up to `y_top`, then water to the water
/// level.
fn generate_column(chunk_x: i32, chunk_y: i32, x: u32, z: u32, y_top: u32) -> (r: Vec<
    Option<Block>,
>)
    requires
        x < CHUNK_SIZE,
        z < CHUNK_SIZE,
        y_top <= MAX_WORLD_HEIGHT,
    ensures
        r@ == spec_generated_column(chunk_x as int, chunk_y as int, x, z, y_top),
{
    let mut column: Vec<Option<Block>> = Vec::new();
    let mut y: u32 = 0;
    while y <= y_top
        invariant
            x < CHUNK_SIZE,
            z < CHUNK_SIZE,
            y_top <= MAX_WORLD_HEIGHT,
            y <= y_top + 1,
            column@.len() == y,
            forall|j: int|
                0 <= j < y ==> column@[j] == Option::Some(
                    #[trigger] spec_generated_block(
                        chunk_x as int,
                        chunk_y as int,
                        x,
                        j,
                        z,
                        y_top,
                    ),
                ),
        decreases y_top + 1 - y,
    {
        let classified: BlockType = BlockType::from_position(x, y, z);
        let block_type: BlockType = match classified {
            BlockType::Dirt => {
                if y == y_top {
                    BlockType::Grass
                } else {
                    BlockType::Dirt
                }
            },
            b => b,
        };
        let block: Block = Block::new(
            Position { x: x as i64, y: y as i64, z: z as i64 },
            (chunk_x, chunk_y),
            block_type,
        );
        column.push(Option::Some(block));
        y = y + 1;
    }
    while column.len() < (WATER_HEIGHT_LEVEL as usize) + 1
        invariant
            x < CHUNK_SIZE,
            z < CHUNK_SIZE,
            y_top <= MAX_WORLD_HEIGHT,
            column@.len() >= y_top + 1,
            column@.len() <= spec_generated_column(
                chunk_x as int,
                chunk_y as int,
                x,
                z,
                y_top,
            ).len(),
            forall|j: int|
                0 <= j < column@.len() ==> column@[j] == Option::Some(
                    #[trigger] spec_generated_block(
                        chunk_x as int,
                        chunk_y as int,
                        x,
                        j,
                        z,
                        y_top,
                    ),
                ),
        decreases WATER_HEIGHT_LEVEL + 1 - column@.len(),
    {
        let y_here: u32 = column.len() as u32;
        let block: Block = Block::new(
            Position { x: x as i64, y: y_here as i64, z: z as i64 },
            (chunk_x, chunk_y),
            BlockType::Water,
        );
        column.push(Option::Some(block));
    }
    proof {
        assert(column@ =~= spec_generated_column(chunk_x as int, chunk_y as int, x, z, y_top));
    }
    column
}

/// Every column of the grid holds at least one slot and its topmost slot
/// is filled: the state generation leaves a chunk in, and what tree
/// placement needs to read column tops.
pub open spec fn spec_columns_topped(grid: Seq<Vec<Option<Block>>>) -> bool {
    forall|c: int|
        0 <= c < grid.len() ==> (#[trigger] grid[c]@).len() > 0 && grid[c]@.last() is Some
}

/// The blocks of a tree that do not belong to chunk `(cx, cz)`, in tree
/// order: what routing appends to the chunk's `outside_blocks`.
pub open spec fn spec_outside_route(tree: Seq<Block>, cx: int, cz: int) -> Seq<Block>
    decreases tree.len(),
{
    if tree.len() == 0 {
        Seq::empty()
    } else {
        let pre = spec_outside_route(tree.drop_last(), cx, cz);
        if tree.last().spec_chunk_coords() == (cx, cz) {
            pre
        } else {
            pre.push(tree.last())
        }
    }
}

impl Chunk {
    /// The topmost slot of local column `(x, z)`.
    pub open spec fn spec_column_top(self, x: int, z: int) -> Option<Block> {
        self.blocks@[spec_column_index(x, z)]@.last()
    }

    /// The absolute position a tree rooted in local column `(x, z)` grows
    /// from: the column's topmost block.
    pub open spec fn spec_tree_anchor(self, x: int, z: int) -> Position {
        match self.spec_column_top(x, z) {
            Option::Some(b) => b.absolute_position,
            Option::None => Position { x: 0, y: 0, z: 0 },
        }
    }

    /// Whether the top of local column `(x, z)` can root a tree: it holds
    /// a block that is neither water nor leaf, standing where a whole
    /// tree stays within the supported coordinate range.
    pub open spec fn spec_tree_site_ok(self, x: int, z: int) -> bool {
        match self.spec_column_top(x, z) {
            Option::Some(b) => b.block_type != BlockType::Water && b.block_type != BlockType::Leaf
                && spec_anchor_ok(b.absolute_position),
            Option::None => false,
        }
    }

    /// Attempts to root one tree at the top of local column `(x, z)`. An
    /// ineligible site (a water or leaf top, or no room for the tree)
    /// changes nothing. At an eligible site the tree rooted at the column
    /// top is generated and routed: each of its blocks that belongs to
    /// this chunk is stored at its position, and the others are appended,
    /// in tree order, to `outside_blocks`.
    pub fn try_place_tree(&mut self, x: u32, z: u32) -> (planted: bool)
        requires
            old(self).wf(),
            spec_columns_topped(old(self).blocks@),
            x < CHUNK_SIZE,
            z < CHUNK_SIZE,
        ensures
            final(self).wf(),
            spec_columns_topped(final(self).blocks@),
            final(self).x == old(self).x,
            final(self).y == old(self).y,
            final(self).visible == old(self).visible,
            final(self).modified == old(self).modified,
            planted == old(self).spec_tree_site_ok(x as int, z as int),
            !planted ==> *final(self) == *old(self),
            planted ==> final(self).outside_blocks@ == old(self).outside_blocks@
                + spec_outside_route(
                spec_tree_blocks(old(self).spec_tree_anchor(x as int, z as int)),
                old(self).x as int,
                old(self).y as int,
            ),
            planted ==> forall|i: int|
                0 <= i < spec_tree_blocks(old(self).spec_tree_anchor(x as int, z as int)).len()
                    && (#[trigger] spec_tree_blocks(
                    old(self).spec_tree_anchor(x as int, z as int),
                )[i]).spec_chunk_coords() == (old(self).x as int, old(self).y as int)
                    ==> spec_block_at(
                    final(self).blocks@,
                    spec_tree_blocks(old(self).spec_tree_anchor(x as int, z as int))[i].position,
                ) == Option::Some(
                    spec_tree_blocks(old(self).spec_tree_anchor(x as int, z as int))[i],
                ),
    {
        let ci: usize = column_index(x as i64, z as i64);
        let column: &Vec<Option<Block>> = &self.blocks[ci];
        let top: Option<Block> = column[column.len() - 1];
        proof {
            assert(self.blocks@[ci as int]@.last() is Some);
            assert(top == old(self).spec_column_top(x as int, z as int));
        }
        let highest: Block = top.unwrap();
        if highest.block_type == BlockType::Water || highest.block_type == BlockType::Leaf {
            return false;
        }
        let anchor: Position = highest.absolute_position;
        if anchor.x < MIN_ABS_COORD + 16 || anchor.x > MAX_ABS_COORD - 16 || anchor.z
            < MIN_ABS_COORD + 16 || anchor.z > MAX_ABS_COORD - 16 || anchor.y > (
        WORLD_HEIGHT_LIMIT - 8) as i64 {
            return false;
        }
        proof {
            assert(spec_slot_ok(
                self.blocks@[ci as int]@[self.blocks@[ci as int]@.len() - 1],
                ci as int,
                self.blocks@[ci as int]@.len() - 1,
                self.x as int,
                self.y as int,
            ));
            assert(spec_anchor_ok(anchor));
        }
        let tree_blocks: Vec<Block> = Tree::get_blocks(anchor);
        let ghost tree = spec_tree_blocks(anchor);
        proof {
            assert(tree.take(0) =~= Seq::<Block>::empty());
            assert(self.outside_blocks@ =~= old(self).outside_blocks@ + spec_outside_route(
                tree.take(0),
                old(self).x as int,
                old(self).y as int,
            ));
        }
        let mut k: usize = 0;
        while k < tree_blocks.len()
            invariant
                self.wf(),
                spec_columns_topped(self.blocks@),
                self.x == old(self).x,
                self.y == old(self).y,
                self.visible == old(self).visible,
                self.modified == old(self).modified,
                spec_anchor_ok(anchor),
                tree_blocks@ == tree,
                tree == spec_tree_blocks(anchor),
                k <= tree.len(),
                forall|i: int| 0 <= i < tree.len() ==> (#[trigger] tree[i]).wf(),
                self.outside_blocks@ == old(self).outside_blocks@ + spec_outside_route(
                    tree.take(k as int),
                    old(self).x as int,
                    old(self).y as int,
                ),
                forall|i: int|
                    0 <= i < k && (#[trigger] tree[i]).spec_chunk_coords() == (
                    old(self).x as int, old(self).y as int) ==> spec_block_at(
                        self.blocks@,
                        tree[i].position,
                    ) == Option::Some(tree[i]),
            decreases tree.len() - k,
        {
            let block: Block = tree_blocks[k];
            let block_chunk: (i32, i32) = block.get_chunk_coords();
            proof {
                assert(tree.take(k as int + 1).drop_last() =~= tree.take(k as int));
                assert(tree.take(k as int + 1).last() == tree[k as int]);
            }
            if block_chunk.0 == self.x && block_chunk.1 == self.y {
                let ghost pre_grid = self.blocks@;
                self.add_block(block, false);
                proof {
                    lemma_topped_after_add(pre_grid, self.blocks@, block);
                    lemma_tree_blocks_distinct(anchor);
                    let ci_k = spec_column_index(block.position.x as int, block.position.z as int);
                    assert(self.blocks@[ci_k]@ == spec_column_with_block(pre_grid[ci_k]@, block));
                    assert(self.blocks@[ci_k]@[block.position.y as int] == Option::Some(block));
                    assert(spec_block_at(self.blocks@, block.position) == Option::Some(block));
                    assert forall|i: int|
                        0 <= i < k + 1 && (#[trigger] tree[i]).spec_chunk_coords() == (
                        old(self).x as int, old(self).y as int) implies spec_block_at(
                        self.blocks@,
                        tree[i].position,
                    ) == Option::Some(tree[i]) by {
                        if i < k {
                            let bi = tree[i];
                            let ci_b = spec_column_index(bi.position.x as int, bi.position.z as int);
                            if ci_b != ci_k {
                                assert(self.blocks@[ci_b] == pre_grid[ci_b]);
                            } else {
                                assert(bi.position != block.position);
                                vstd::arithmetic::div_mod::lemma_fundamental_div_mod_converse(
                                    ci_b,
                                    CHUNK_SIZE as int,
                                    bi.position.x as int,
                                    bi.position.z as int,
                                );
                                vstd::arithmetic::div_mod::lemma_fundamental_div_mod_converse(
                                    ci_k,
                                    CHUNK_SIZE as int,
                                    block.position.x as int,
                                    block.position.z as int,
                                );
                                assert(bi.position.y != block.position.y);
                                assert(pre_grid[ci_b]@[bi.position.y as int] == Option::Some(bi));
                                assert(self.blocks@[ci_b]@[bi.position.y as int] == Option::Some(
                                    bi,
                                ));
                            }
                        }
                    }
                }
            } else {
                self.outside_blocks.push(block);
                proof {
                    assert(self.outside_blocks@ =~= old(self).outside_blocks@ + spec_outside_route(
                        tree.take(k as int + 1),
                        old(self).x as int,
                        old(self).y as int,
                    ));
                }
            }
            k = k + 1;
        }
        proof {
            assert(tree.take(tree.len() as int) =~= tree);
        }
        true
    }

    /// Scatters trees over the chunk: a per-chunk seeded draw fixes how
    /// many to attempt, then up to one hundred tries pick random columns
    /// and try to root a tree at each, counting only the eligible sites.
    /// Fewer trees than drawn is not an error.
    pub fn place_trees(&mut self)
        requires
            old(self).wf(),
            spec_columns_topped(old(self).blocks@),
        ensures
            final(self).wf(),
            spec_columns_topped(final(self).blocks@),
            final(self).x == old(self).x,
            final(self).y == old(self).y,
            final(self).visible == old(self).visible,
            final(self).modified == old(self).modified,
            final(self).outside_blocks@.len() >= old(self).outside_blocks@.len(),
            forall|i: int|
                0 <= i < old(self).outside_blocks@.len()
                    ==> #[trigger] final(self).outside_blocks@[i]
                    == old(self).outside_blocks@[i],
    {
        let p: i64 = (self.x as i64).wrapping_mul(10).wrapping_mul(self.y as i64);
        let pu: u64 = #[verifier::truncate] (p as u64);
        let seed: u64 = RNG_SEED.wrapping_add(pu);
        let mut rng: rand::rngs::StdRng = rng_from_seed(seed);
        let mut number_of_trees: u32 = rng_below(&mut rng, MAX_TREES_PER_CHUNK);
        let mut attempt: u32 = 0;
        while attempt < 100
            invariant
                self.wf(),
                spec_columns_topped(self.blocks@),
                self.x == old(self).x,
                self.y == old(self).y,
                self.visible == old(self).visible,
                self.modified == old(self).modified,
                self.outside_blocks@.len() >= old(self).outside_blocks@.len(),
                forall|i: int|
                    0 <= i < old(self).outside_blocks@.len() ==> #[trigger] self.outside_blocks@[i]
                        == old(self).outside_blocks@[i],
                attempt <= 100,
            decreases 100 - attempt,
        {
            attempt = attempt + 1;
            if number_of_trees == 0 {
                break;
            }
            let cx: u32 = rng_below(&mut rng, CHUNK_SIZE);
            let cz: u32 = rng_below(&mut rng, CHUNK_SIZE);
            let planted: bool = self.try_place_tree(cx, cz);
            if planted {
                number_of_trees = number_of_trees - 1;
            }
        }
    }
}

/// Storing a block never empties a column top: the column either grows so
/// that the stored block becomes its top, or keeps its old filled top.
proof fn lemma_topped_after_add(pre: Seq<Vec<Option<Block>>>, post: Seq<Vec<Option<Block>>>, block: Block)
    requires
        spec_columns_topped(pre),
        post.len() == pre.len(),
        block.wf(),
        forall|c: int|
            0 <= c < post.len() && c != spec_column_index(
                block.position.x as int,
                block.position.z as int,
            ) ==> #[trigger] post[c] == pre[c],
        0 <= spec_column_index(block.position.x as int, block.position.z as int) < post.len(),
        post[spec_column_index(block.position.x as int, block.position.z as int)]@
            == spec_column_with_block(
            pre[spec_column_index(block.position.x as int, block.position.z as int)]@,
            block,
        ),
    ensures
        spec_columns_topped(post),
{
    let ci = spec_column_index(block.position.x as int, block.position.z as int);
    let old_col = pre[ci]@;
    let new_col = post[ci]@;
    let y = block.position.y as int;
    assert(new_col.len() > 0);
    if y + 1 >= old_col.len() {
        assert(new_col.len() == y + 1);
        assert(new_col.last() == Option::Some(block));
    } else {
        assert(new_col.len() == old_col.len());
        if y == old_col.len() - 1 {
            assert(new_col.last() == Option::Some(block));
        } else {
            assert(new_col.last() == old_col.last());
        }
    }
    assert forall|c: int| 0 <= c < post.len() implies (#[trigger] post[c]@).len() > 0
        && post[c]@.last() is Some by {
        if c != ci {
            assert(post[c] == pre[c]);
        }
    }
}

impl Chunk {
    /// Builds and populates the chunk at `(x, y)`: terrain and water from
    /// the height field, then tree placement. The phase order is strict:
    /// every column exists before any tree reads a column top.
    pub fn new(x: i32, y: i32, noise_data: &NoiseData) -> (r: Chunk)
        requires
            noise_data.wf(),
        ensures
            r.wf(),
            r.x == x,
            r.y == y,
            !r.modified,
            !r.visible,
            spec_columns_topped(r.blocks@),
    {
        let blocks: BlockVec = create_blocks_data(x, y, noise_data);
        let mut chunk: Chunk = Chunk {
            x,
            y,
            blocks,
            outside_blocks: Vec::new(),
            visible: false,
            modified: false,
        };
        proof {
            assert forall|c: int| 0 <= c < chunk.blocks@.len() implies (#[trigger] chunk.blocks@[c]@).len()
                > 0 && chunk.blocks@[c]@.last() is Some by {
                assert(chunk.blocks@[c]@ == spec_generated_column(
                    x as int,
                    y as int,
                    (c / (CHUNK_SIZE as int)) as u32,
                    (c % (CHUNK_SIZE as int)) as u32,
                    spec_height_value(
                        x as int,
                        y as int,
                        c / (CHUNK_SIZE as int),
                        c % (CHUNK_SIZE as int),
                        *noise_data,
                    ),
                ));
            }
        }
        chunk.place_trees();
        chunk
    }

    /// The four corners of the chunk's horizontal footprint, at the world
    /// scale, in the order the visibility test probes them.
    pub fn corner_points(&self) -> (r: [(i64, i64); 4])
        ensures
            r@.len() == 4,
            r@[0].0 == (self.x as int) * 16 && r@[0].1 == (self.y as int) * 16,
            r@[1].0 == (self.x as int + 1) * 16 && r@[1].1 == (self.y as int) * 16,
            r@[2].0 == (self.x as int) * 16 && r@[2].1 == (self.y as int + 1) * 16,
            r@[3].0 == (self.x as int + 1) * 16 && r@[3].1 == (self.y as int + 1) * 16,
    {
        let x0: i64 = (self.x as i64) * 16;
        let x1: i64 = (self.x as i64 + 1) * 16;
        let z0: i64 = (self.y as i64) * 16;
        let z1: i64 = (self.y as i64 + 1) * 16;
        [(x0, z0), (x1, z0), (x0, z1), (x1, z1)]
    }
}

/// Whether the plane numbered `p` has at least one chunk corner on its
/// non-negative side, given the per-plane, per-corner test results.
pub open spec fn spec_plane_has_corner_in_front(tests: [[bool; 4]; 4], p: int) -> bool {
    exists|c: int| 0 <= c < 4 && #[trigger] tests@[p]@[c]
}

/// The visibility decision: the chunk counts as visible exactly when, for
/// every one of the four frustum planes, at least one of its four
/// horizontal corners lies on the plane's non-negative side.
pub open spec fn spec_frustum_visible(tests: [[bool; 4]; 4]) -> bool {
    forall|p: int| 0 <= p < 4 ==> spec_plane_has_corner_in_front(tests, p)
}

/// Decides visibility from the signed-distance tests of the four chunk
/// corners against the four frustum planes: `tests[p][c]` says whether
/// corner `c` has non-negative signed distance to plane `p`.
pub fn is_visible(tests: &[[bool; 4]; 4]) -> (r: bool)
    ensures
        r == spec_frustum_visible(*tests),
{
    let mut p: usize = 0;
    while p < 4
        invariant
            p <= 4,
            forall|q: int| 0 <= q < p ==> spec_plane_has_corner_in_front(*tests, q),
        decreases 4 - p,
    {
        let row: &[bool; 4] = &tests[p];
        let any: bool = row[0] || row[1] || row[2] || row[3];
        if !any {
            proof {
                assert(!spec_plane_has_corner_in_front(*tests, p as int));
            }
            return false;
        }
        p = p + 1;
    }
    true
}

/// A chunk whose four corners all lie strictly behind some frustum plane
/// is excluded; one with at least one corner on the non-negative side of
/// every plane is included.
pub proof fn lemma_frustum_boundaries(tests: [[bool; 4]; 4])
    ensures
        (exists|p: int| 0 <= p < 4 && !#[trigger] spec_plane_has_corner_in_front(tests, p))
            ==> !spec_frustum_visible(tests),
        (forall|p: int| 0 <= p < 4 ==> #[trigger] spec_plane_has_corner_in_front(tests, p))
            ==> spec_frustum_visible(tests),
{
}

/// The vertex and index streams of one chunk's mesh, split into the
/// opaque pass and the translucent (water) pass.
pub struct MeshData {
    pub vertices: Vec<BlockVertexData>,
    pub indices: Vec<u32>,
    pub water_vertices: Vec<BlockVertexData>,
    pub water_indices: Vec<u32>,
}

/// Coherence of one mesh stream: whole quads (four vertices each), whole
/// two-triangle faces (six indices each), six indices for every four
/// vertices, and every index pointing at a vertex of the stream.
pub open spec fn spec_mesh_stream_wf(vertices: Seq<BlockVertexData>, indices: Seq<u32>) -> bool {
    &&& vertices.len() % 4 == 0
    &&& indices.len() % 6 == 0
    &&& vertices.len() * 3 == indices.len() * 2
    &&& forall|i: int| 0 <= i < indices.len() ==> (#[trigger] indices[i]) < vertices.len()
}

/// Whether a block's face is emitted: the cell the face looks into holds
/// no block, or it holds a translucent block while this block is opaque.
/// Cells no listed grid covers count as empty, so faces at the edge of
/// the loaded world are drawn.
pub open spec fn spec_face_visible(
    bp: Seq<((i32, i32), BlockVec)>,
    block: Block,
    face: FaceDirections,
) -> bool {
    let n = face.spec_normal();
    let cell = Position {
        x: (block.absolute_position.x + n.0) as i64,
        y: (block.absolute_position.y + n.1) as i64,
        z: (block.absolute_position.z + n.2) as i64,
    };
    match spec_block_at_cell(bp, cell) {
        Option::None => true,
        Option::Some(nb) => spec_config(nb.block_type).is_translucent && !spec_config(
            block.block_type,
        ).is_translucent,
    }
}

/// The face directions in the order meshing walks them.
pub open spec fn spec_face_order() -> Seq<FaceDirections> {
    seq![
        FaceDirections::Back,
        FaceDirections::Bottom,
        FaceDirections::Top,
        FaceDirections::Front,
        FaceDirections::Left,
        FaceDirections::Right,
    ]
}

/// How many of the first `f` faces, in meshing order, of `block` are
/// visible against the listed grids.
pub open spec fn spec_block_faces_upto(
    bp: Seq<((i32, i32), BlockVec)>,
    block: Block,
    f: int,
) -> int
    decreases f,
{
    if f <= 0 {
        0
    } else {
        spec_block_faces_upto(bp, block, f - 1) + (if spec_face_visible(
            bp,
            block,
            spec_face_order()[f - 1],
        ) {
            1int
        } else {
            0int
        })
    }
}

/// The visible faces one slot contributes to the stream of the given
/// translucency: all its block's visible faces when the translucency
/// matches, none otherwise, and none for air.
pub open spec fn spec_slot_faces(
    bp: Seq<((i32, i32), BlockVec)>,
    slot: Option<Block>,
    translucent: bool,
) -> int {
    match slot {
        Option::None => 0,
        Option::Some(b) => if spec_config(b.block_type).is_translucent == translucent {
            spec_block_faces_upto(bp, b, 6)
        } else {
            0
        },
    }
}

/// The visible faces of one column that land in the given stream.
pub open spec fn spec_column_faces(
    bp: Seq<((i32, i32), BlockVec)>,
    col: Seq<Option<Block>>,
    translucent: bool,
) -> int
    decreases col.len(),
{
    if col.len() == 0 {
        0
    } else {
        spec_column_faces(bp, col.drop_last(), translucent) + spec_slot_faces(
            bp,
            col.last(),
            translucent,
        )
    }
}

/// The visible faces of a whole grid that land in the given stream.
pub open spec fn spec_grid_faces(
    bp: Seq<((i32, i32), BlockVec)>,
    grid: Seq<Vec<Option<Block>>>,
    translucent: bool,
) -> int
    decreases grid.len(),
{
    if grid.len() == 0 {
        0
    } else {
        spec_grid_faces(bp, grid.drop_last(), translucent) + spec_column_faces(
            bp,
            grid.last()@,
            translucent,
        )
    }
}

/// Vertex count past which a mesh stream stops taking faces, so that
/// rebased indices always fit the 32-bit index space.
pub const MESH_VERTEX_CAP: usize = 0xFFFF_0000;

/// Appends one face of one block to a mesh stream: its four deduplicated
/// vertices, then six indices rebased onto the stream. A stream past the
/// vertex cap takes no more faces.
fn emit_face(
    vertices: &mut Vec<BlockVertexData>,
    indices: &mut Vec<u32>,
    face: &FaceDirections,
    block: &Block,
    blocks_positions: &Vec<((i32, i32), BlockVec)>,
)
    requires
        block.wf(),
        -0x1_0000_0000 <= block.absolute_position.x <= 0x1_0000_0000,
        -0x1_0000_0000 <= block.absolute_position.z <= 0x1_0000_0000,
        spec_mesh_stream_wf(old(vertices)@, old(indices)@),
    ensures
        spec_mesh_stream_wf(final(vertices)@, final(indices)@),
        old(vertices)@.len() > MESH_VERTEX_CAP ==> final(vertices)@ == old(vertices)@
            && final(indices)@ == old(indices)@,
        old(vertices)@.len() <= MESH_VERTEX_CAP ==> final(vertices)@.len() == old(
            vertices,
        )@.len() + 4 && final(indices)@.len() == old(indices)@.len() + 6,
{
    if vertices.len() > MESH_VERTEX_CAP {
        return;
    }
    let pair: (Vec<BlockVertexData>, Vec<u32>) = face.create_face_data(block, blocks_positions);
    let vd: Vec<BlockVertexData> = pair.0;
    let im: Vec<u32> = pair.1;
    let base: usize = vertices.len();
    let mut j: usize = 0;
    while j < vd.len()
        invariant
            j <= vd@.len(),
            vertices@.len() == base + j,
            forall|i: int|
                0 <= i < indices@.len() ==> (#[trigger] indices@[i]) < vertices@.len(),
        decreases vd@.len() - j,
    {
        let v: BlockVertexData = vd[j];
        vertices.push(v);
        j = j + 1;
    }
    let mut j: usize = 0;
    while j < 6
        invariant
            j <= 6,
            base <= MESH_VERTEX_CAP,
            vertices@.len() == base + vd@.len(),
            vd@.len() == 4,
            im@.len() == 6,
            forall|i: int| 0 <= i < 6 ==> (#[trigger] im@[i]) < vd@.len(),
            indices@.len() == old(indices)@.len() + j,
            old(indices)@.len() % 6 == 0,
            forall|i: int|
                0 <= i < indices@.len() ==> (#[trigger] indices@[i]) < vertices@.len(),
        decreases 6 - j,
    {
        let offset: u32 = im[j];
        indices.push((base as u32) + offset);
        j = j + 1;
    }
}

impl Chunk {
    /// Extracts the chunk's render geometry: for every stored block, every
    /// face whose neighbouring cell leaves it visible is emitted, opaque
    /// blocks into one vertex/index stream and water into the other. As
    /// long as a stream stays within the vertex cap it holds exactly one
    /// quad per visible face of its blocks. Neighbour probes (culling and
    /// occlusion alike) read the listed grids, which normally hold this
    /// chunk's own grid and its four neighbours'; missing chunks read as
    /// empty.
    pub fn build_mesh(&self, blocks_positions: &Vec<((i32, i32), BlockVec)>) -> (r: MeshData)
        requires
            self.wf(),
            -0x0FFF_FFFF <= self.x <= 0x0FFF_FFFF,
            -0x0FFF_FFFF <= self.y <= 0x0FFF_FFFF,
        ensures
            spec_mesh_stream_wf(r.vertices@, r.indices@),
            spec_mesh_stream_wf(r.water_vertices@, r.water_indices@),
            r.vertices@.len() <= MESH_VERTEX_CAP ==> r.indices@.len() == 6 * spec_grid_faces(
                blocks_positions@,
                self.blocks@,
                false,
            ),
            r.water_vertices@.len() <= MESH_VERTEX_CAP ==> r.water_indices@.len() == 6
                * spec_grid_faces(blocks_positions@, self.blocks@, true),
    {
        let faces: [FaceDirections; 6] = FaceDirections::all();
        proof {
            assert(faces@ =~= spec_face_order());
        }
        let mut mesh: MeshData = MeshData {
            vertices: Vec::new(),
            indices: Vec::new(),
            water_vertices: Vec::new(),
            water_indices: Vec::new(),
        };
        let ghost bp = blocks_positions@;
        let mut ci: usize = 0;
        while ci < self.blocks.len()
            invariant
                self.wf(),
                -0x0FFF_FFFF <= self.x <= 0x0FFF_FFFF,
                -0x0FFF_FFFF <= self.y <= 0x0FFF_FFFF,
                bp == blocks_positions@,
                faces@ == spec_face_order(),
                ci <= self.blocks@.len(),
                spec_mesh_stream_wf(mesh.vertices@, mesh.indices@),
                spec_mesh_stream_wf(mesh.water_vertices@, mesh.water_indices@),
                mesh.vertices@.len() > MESH_VERTEX_CAP || mesh.indices@.len() == 6
                    * spec_grid_faces(bp, self.blocks@.take(ci as int), false),
                mesh.water_vertices@.len() > MESH_VERTEX_CAP || mesh.water_indices@.len() == 6
                    * spec_grid_faces(bp, self.blocks@.take(ci as int), true),
            decreases self.blocks@.len() - ci,
        {
            let column: &Vec<Option<Block>> = &self.blocks[ci];
            let mut y: usize = 0;
            while y < column.len()
                invariant
                    self.wf(),
                    -0x0FFF_FFFF <= self.x <= 0x0FFF_FFFF,
                    -0x0FFF_FFFF <= self.y <= 0x0FFF_FFFF,
                    bp == blocks_positions@,
                    faces@ == spec_face_order(),
                    ci < self.blocks@.len(),
                    column@ == self.blocks@[ci as int]@,
                    y <= column@.len(),
                    spec_mesh_stream_wf(mesh.vertices@, mesh.indices@),
                    spec_mesh_stream_wf(mesh.water_vertices@, mesh.water_indices@),
                    mesh.vertices@.len() > MESH_VERTEX_CAP || mesh.indices@.len() == 6 * (
                    spec_grid_faces(bp, self.blocks@.take(ci as int), false) + spec_column_faces(
                        bp,
                        column@.take(y as int),
                        false,
                    )),
                    mesh.water_vertices@.len() > MESH_VERTEX_CAP || mesh.water_indices@.len() == 6
                        * (spec_grid_faces(bp, self.blocks@.take(ci as int), true)
                        + spec_column_faces(bp, column@.take(y as int), true)),
                decreases column@.len() - y,
            {
                let slot: Option<Block> = column[y];
                let ghost opaque_base = spec_grid_faces(bp, self.blocks@.take(ci as int), false)
                    + spec_column_faces(bp, column@.take(y as int), false);
                let ghost water_base = spec_grid_faces(bp, self.blocks@.take(ci as int), true)
                    + spec_column_faces(bp, column@.take(y as int), true);
                if let Option::Some(block) = slot {
                    proof {
                        assert(spec_slot_ok(
                            self.blocks@[ci as int]@[y as int],
                            ci as int,
                            y as int,
                            self.x as int,
                            self.y as int,
                        ));
                        vstd::arithmetic::div_mod::lemma_fundamental_div_mod(
                            block.absolute_position.x as int,
                            CHUNK_SIZE as int,
                        );
                        vstd::arithmetic::div_mod::lemma_fundamental_div_mod(
                            block.absolute_position.z as int,
                            CHUNK_SIZE as int,
                        );
                    }
                    let translucent_block: bool = block.block_type.get_config().is_translucent;
                    let mut f: usize = 0;
                    while f < 6
                        invariant
                            block.wf(),
                            -0x1_0000_0000 <= block.absolute_position.x <= 0x1_0000_0000,
                            -0x1_0000_0000 <= block.absolute_position.z <= 0x1_0000_0000,
                            bp == blocks_positions@,
                            faces@ == spec_face_order(),
                            translucent_block == spec_config(block.block_type).is_translucent,
                            f <= 6,
                            spec_mesh_stream_wf(mesh.vertices@, mesh.indices@),
                            spec_mesh_stream_wf(mesh.water_vertices@, mesh.water_indices@),
                            mesh.vertices@.len() > MESH_VERTEX_CAP || mesh.indices@.len() == 6 * (
                            opaque_base + (if !translucent_block {
                                spec_block_faces_upto(bp, block, f as int)
                            } else {
                                0int
                            })),
                            mesh.water_vertices@.len() > MESH_VERTEX_CAP
                                || mesh.water_indices@.len() == 6 * (water_base + (
                            if translucent_block {
                                spec_block_faces_upto(bp, block, f as int)
                            } else {
                                0int
                            })),
                        decreases 6 - f,
                    {
                        let face: FaceDirections = faces[f];
                        let n: (i64, i64, i64) = face.get_normal_vector();
                        let cell = Position {
                            x: block.absolute_position.x + n.0,
                            y: block.absolute_position.y + n.1,
                            z: block.absolute_position.z + n.2,
                        };
                        let adjacent: Option<Block> = block_at_cell(blocks_positions, cell);
                        let visible: bool = match adjacent {
                            Option::None => true,
                            Option::Some(nb) => nb.block_type.get_config().is_translucent
                                && !block.block_type.get_config().is_translucent,
                        };
                        proof {
                            assert(visible == spec_face_visible(bp, block, face));
                            assert(spec_face_order()[f as int] == face);
                        }
                        if visible {
                            if translucent_block {
                                emit_face(
                                    &mut mesh.water_vertices,
                                    &mut mesh.water_indices,
                                    &face,
                                    &block,
                                    blocks_positions,
                                );
                            } else {
                                emit_face(
                                    &mut mesh.vertices,
                                    &mut mesh.indices,
                                    &face,
                                    &block,
                                    blocks_positions,
                                );
                            }
                        }
                        f = f + 1;
                    }
                }
                proof {
                    assert(column@.take(y as int + 1).drop_last() =~= column@.take(y as int));
                    assert(column@.take(y as int + 1).last() == column@[y as int]);
                }
                y = y + 1;
            }
            proof {
                assert(column@.take(column@.len() as int) =~= column@);
                assert(self.blocks@.take(ci as int + 1).drop_last() =~= self.blocks@.take(
                    ci as int,
                ));
                assert(self.blocks@.take(ci as int + 1).last() == self.blocks@[ci as int]);
            }
            ci = ci + 1;
        }
        proof {
            assert(self.blocks@.take(self.blocks@.len() as int) =~= self.blocks@);
        }
        mesh
    }
}

/// Water is a fallback fill, never a generation rule that wins over
/// terrain: a generated column holds water exactly in the slots strictly
/// above its terrain top and at or below the water level. In particular
/// water never stands above or in place of a terrain block.
pub proof fn lemma_water_fill(cx: int, cz: int, x: u32, z: u32, y_top: u32, y: int)
    requires
        x < CHUNK_SIZE,
        z < CHUNK_SIZE,
        0 <= y < spec_generated_column(cx, cz, x, z, y_top).len(),
    ensures
        (spec_generated_column(cx, cz, x, z, y_top)[y] matches Option::Some(b)
            && b.block_type == BlockType::Water) <==> (y_top < y <= WATER_HEIGHT_LEVEL),
{
    let b = spec_generated_block(cx, cz, x, y, z, y_top);
    if y <= y_top {
        assert(spec_generated_block_type(x, y as u32, z, y_top) != BlockType::Water);
    }
}

/// Regenerating a chunk is idempotent: two grids generated for the same
/// chunk coordinates from the same height field have identical columns,
/// water fill included.
pub proof fn lemma_regeneration_identical(
    cx: i32,
    cz: i32,
    noise_data: NoiseData,
    g1: Seq<Vec<Option<Block>>>,
    g2: Seq<Vec<Option<Block>>>,
)
    requires
        g1.len() == CHUNK_SIZE * CHUNK_SIZE,
        g2.len() == CHUNK_SIZE * CHUNK_SIZE,
        forall|c: int|
            0 <= c < g1.len() ==> (#[trigger] g1[c])@ == spec_generated_column(
                cx as int,
                cz as int,
                (c / (CHUNK_SIZE as int)) as u32,
                (c % (CHUNK_SIZE as int)) as u32,
                spec_height_value(
                    cx as int,
                    cz as int,
                    c / (CHUNK_SIZE as int),
                    c % (CHUNK_SIZE as int),
                    noise_data,
                ),
            ),
        forall|c: int|
            0 <= c < g2.len() ==> (#[trigger] g2[c])@ == spec_generated_column(
                cx as int,
                cz as int,
                (c / (CHUNK_SIZE as int)) as u32,
                (c % (CHUNK_SIZE as int)) as u32,
                spec_height_value(
                    cx as int,
                    cz as int,
                    c / (CHUNK_SIZE as int),
                    c % (CHUNK_SIZE as int),
                    noise_data,
                ),
            ),
    ensures
        forall|c: int| 0 <= c < g1.len() ==> (#[trigger] g1[c])@ == g2[c]@,
{
}

} // verus!
