//! The closed set of block types, their static configuration (texture
//! slots, translucency), and the height-stratified classifier that terrain
//! generation draws types from.

use vstd::prelude::*;
use crate::block::{FaceDirections, TexturedBlock};
use crate::random::{seeded_draw, seeded_draw_of};
use crate::world::{CHUNK_SIZE, MAX_WORLD_HEIGHT, RNG_SEED, WATER_HEIGHT_LEVEL};

verus! {

/// Index of one texture in the atlas.
#[derive(Clone, Copy, PartialEq, Eq, Structural, Debug)]
pub struct FaceTexture(pub u32);

/// Static configuration of one block type: its id, its three texture slots
/// (lateral, top, bottom), and whether it is translucent.
#[derive(Clone, Copy, PartialEq, Eq, Debug)]
pub struct BlockTypeConfigs {
    pub id: u32,
    pub textures: [FaceTexture; 3],
    pub is_translucent: bool,
}

/// The kinds of block the world can hold.
#[derive(Clone, Copy, PartialEq, Eq, Structural, Hash, Debug)]
pub enum BlockType {
    Grass,
    Dirt,
    Water,
    Wood,
    Leaf,
    Stone,
    Sand,
}

/// Highest block-type id in use.
pub const MAX_BLOCK_ID: u32 = 6;

/// The configuration table, id-keyed and immutable.
pub open spec fn spec_config(block_type: BlockType) -> BlockTypeConfigs {
    match block_type {
        BlockType::Grass => BlockTypeConfigs {
            id: 0,
            textures: [FaceTexture(6), FaceTexture(7), FaceTexture(8)],
            is_translucent: false,
        },
        BlockType::Dirt => BlockTypeConfigs {
            id: 1,
            textures: [FaceTexture(0), FaceTexture(0), FaceTexture(0)],
            is_translucent: false,
        },
        BlockType::Water => BlockTypeConfigs {
            id: 2,
            textures: [FaceTexture(1), FaceTexture(1), FaceTexture(1)],
            is_translucent: true,
        },
        BlockType::Wood => BlockTypeConfigs {
            id: 3,
            textures: [FaceTexture(4), FaceTexture(5), FaceTexture(5)],
            is_translucent: false,
        },
        BlockType::Leaf => BlockTypeConfigs {
            id: 4,
            textures: [FaceTexture(2), FaceTexture(2), FaceTexture(2)],
            is_translucent: false,
        },
        BlockType::Stone => BlockTypeConfigs {
            id: 5,
            textures: [FaceTexture(3), FaceTexture(3), FaceTexture(3)],
            is_translucent: false,
        },
        BlockType::Sand => BlockTypeConfigs {
            id: 6,
            textures: [FaceTexture(9), FaceTexture(9), FaceTexture(9)],
            is_translucent: false,
        },
    }
}

impl BlockTypeConfigs {
    /// The configuration of `block_type`.
    pub fn get(block_type: BlockType) -> (r: BlockTypeConfigs)
        ensures
            r == spec_config(block_type),
    {
        match block_type {
            BlockType::Grass => BlockTypeConfigs {
                id: 0,
                textures: [FaceTexture(6), FaceTexture(7), FaceTexture(8)],
                is_translucent: false,
            },
            BlockType::Dirt => BlockTypeConfigs {
                id: 1,
                textures: [FaceTexture(0), FaceTexture(0), FaceTexture(0)],
                is_translucent: false,
            },
            BlockType::Water => BlockTypeConfigs {
                id: 2,
                textures: [FaceTexture(1), FaceTexture(1), FaceTexture(1)],
                is_translucent: true,
            },
            BlockType::Wood => BlockTypeConfigs {
                id: 3,
                textures: [FaceTexture(4), FaceTexture(5), FaceTexture(5)],
                is_translucent: false,
            },
            BlockType::Leaf => BlockTypeConfigs {
                id: 4,
                textures: [FaceTexture(2), FaceTexture(2), FaceTexture(2)],
                is_translucent: false,
            },
            BlockType::Stone => BlockTypeConfigs {
                id: 5,
                textures: [FaceTexture(3), FaceTexture(3), FaceTexture(3)],
                is_translucent: false,
            },
            BlockType::Sand => BlockTypeConfigs {
                id: 6,
                textures: [FaceTexture(9), FaceTexture(9), FaceTexture(9)],
                is_translucent: false,
            },
        }
    }
}

/// The block type whose id is `id`.
pub open spec fn spec_type_of_id(id: u32) -> BlockType {
    if id == 0 {
        BlockType::Grass
    } else if id == 1 {
        BlockType::Dirt
    } else if id == 2 {
        BlockType::Water
    } else if id == 3 {
        BlockType::Wood
    } else if id == 4 {
        BlockType::Leaf
    } else if id == 5 {
        BlockType::Stone
    } else {
        BlockType::Sand
    }
}

impl BlockType {
    /// This type's configuration.
    pub fn get_config(&self) -> (r: BlockTypeConfigs)
        ensures
            r == spec_config(*self),
    {
        BlockTypeConfigs::get(*self)
    }

    /// The id of this type.
    pub fn to_id(&self) -> (r: u32)
        ensures
            r == spec_config(*self).id,
            r <= MAX_BLOCK_ID,
    {
        self.get_config().id
    }

    /// The type with the given id; ids above `MAX_BLOCK_ID` name no type.
    pub fn from_id(id: u32) -> (r: BlockType)
        requires
            id <= MAX_BLOCK_ID,
        ensures
            r == spec_type_of_id(id),
    {
        match id {
            0 => BlockType::Grass,
            1 => BlockType::Dirt,
            2 => BlockType::Water,
            3 => BlockType::Wood,
            4 => BlockType::Leaf,
            5 => BlockType::Stone,
            _ => BlockType::Sand,
        }
    }
}

/// Lower bound of the sand band: at or below it everything is sand.
pub const SAND_BAND_LOW: u32 = WATER_HEIGHT_LEVEL;

/// Upper bound of the sand band: inside the band a seeded draw blends sand
/// into dirt.
pub const SAND_BAND_HIGH: u32 = WATER_HEIGHT_LEVEL + 2;

/// Lower bound of the stone band.
pub const STONE_BAND_LOW: u32 = 15;

/// Upper bound of the stone band: above it everything is stone.
pub const STONE_BAND_HIGH: u32 = 24;

/// The seed of the per-position draw: the global seed plus the product of
/// the coordinates.
pub open spec fn spec_position_seed(x: u32, y: u32, z: u32) -> u64 {
    (RNG_SEED + (y as int) * (x as int) * (z as int)) as u64
}

/// The height scalar of a band, compared against the unit draw: with
/// `s = (y - lo) / (hi - lo)` and the draw `r` scaled into `[0, 1)`,
/// `r + s > 1` holds exactly when `r * (hi - lo) > (hi - y)`, here written
/// over the raw 32-bit draw.
pub open spec fn spec_blend_exceeds(seed: u64, y: u32, lo: u32, hi: u32) -> bool {
    (seeded_draw_of(seed) as int) * ((hi - lo) as int) > ((hi - y) as int) * 0x1_0000_0000
}

/// As `spec_blend_exceeds`, with the comparison weakened to `>=`
/// (`r + s >= 1`).
pub open spec fn spec_blend_reaches(seed: u64, y: u32, lo: u32, hi: u32) -> bool {
    (seeded_draw_of(seed) as int) * ((hi - lo) as int) >= ((hi - y) as int) * 0x1_0000_0000
}

/// Height-stratified classification: sand at and below the sand band, a
/// blended sand/dirt choice inside it, dirt up to the stone band, a
/// blended dirt/stone choice inside that, stone above.
pub open spec fn spec_from_position(x: u32, y: u32, z: u32) -> BlockType {
    let seed = spec_position_seed(x, y, z);
    if y <= SAND_BAND_LOW {
        BlockType::Sand
    } else if y <= SAND_BAND_HIGH {
        if spec_blend_exceeds(seed, y, SAND_BAND_LOW, SAND_BAND_HIGH) {
            BlockType::Dirt
        } else {
            BlockType::Sand
        }
    } else if y < STONE_BAND_LOW {
        BlockType::Dirt
    } else if y <= STONE_BAND_HIGH {
        if spec_blend_reaches(seed, y, STONE_BAND_LOW, STONE_BAND_HIGH) {
            BlockType::Stone
        } else {
            BlockType::Dirt
        }
    } else {
        BlockType::Stone
    }
}

impl BlockType {
    /// Classifies the block generated at chunk-local `(x, y, z)`. The
    /// outcome is a pure function of the coordinates and the global seed,
    /// so repeated calls agree.
    pub fn from_position(x: u32, y: u32, z: u32) -> (r: BlockType)
        requires
            x < CHUNK_SIZE,
            z < CHUNK_SIZE,
            y <= MAX_WORLD_HEIGHT,
        ensures
            r == spec_from_position(x, y, z),
    {
        assert((y as int) * (x as int) <= 1024 * 15) by (nonlinear_arith)
            requires
                y <= 1024,
                x < 16,
        ;
        let yx: u64 = (y as u64) * (x as u64);
        assert((yx as int) * (z as int) <= 15360 * 15) by (nonlinear_arith)
            requires
                yx <= 15360,
                z < 16,
        ;
        let seed: u64 = RNG_SEED + yx * (z as u64);
        if y <= SAND_BAND_LOW {
            BlockType::Sand
        } else if y <= SAND_BAND_HIGH {
            let draw: u32 = seeded_draw(seed);
            assert((draw as int) * ((SAND_BAND_HIGH - SAND_BAND_LOW) as int) <= 0xFFFF_FFFF * 9)
                by (nonlinear_arith)
                requires
                    draw <= 0xFFFF_FFFFu32,
            ;
            if (draw as u64) * ((SAND_BAND_HIGH - SAND_BAND_LOW) as u64)
                > ((SAND_BAND_HIGH - y) as u64) * 0x1_0000_0000u64 {
                BlockType::Dirt
            } else {
                BlockType::Sand
            }
        } else if y < STONE_BAND_LOW {
            BlockType::Dirt
        } else if y <= STONE_BAND_HIGH {
            let draw: u32 = seeded_draw(seed);
            assert((draw as int) * ((STONE_BAND_HIGH - STONE_BAND_LOW) as int) <= 0xFFFF_FFFF * 9)
                by (nonlinear_arith)
                requires
                    draw <= 0xFFFF_FFFFu32,
            ;
            if (draw as u64) * ((STONE_BAND_HIGH - STONE_BAND_LOW) as u64)
                >= ((STONE_BAND_HIGH - y) as u64) * 0x1_0000_0000u64 {
                BlockType::Stone
            } else {
                BlockType::Dirt
            }
        } else {
            BlockType::Stone
        }
    }
}

/// Determinism of classification: any two results of `from_position` on
/// the same coordinates are the same type, since each equals the one
/// classification the coordinates and the global seed determine.
pub proof fn lemma_from_position_deterministic(
    x: u32,
    y: u32,
    z: u32,
    r1: BlockType,
    r2: BlockType,
)
    requires
        r1 == spec_from_position(x, y, z),
        r2 == spec_from_position(x, y, z),
    ensures
        r1 == r2,
{
}

/// Side length of the square texture atlas, in pixels.
pub const TEXTURE_SIZE: u32 = 256;

/// Number of texture cells per atlas row.
pub const BLOCK_PER_ROW: u32 = 8;

/// Side length of one atlas cell, in pixels.
pub const BLOCK_OFFSET: u32 = TEXTURE_SIZE / BLOCK_PER_ROW;

/// The texture slot a face reads: top and bottom faces have slots of
/// their own, the four lateral faces share the first slot.
pub open spec fn spec_face_texture(config: BlockTypeConfigs, face_dir: FaceDirections)
    -> FaceTexture {
    match face_dir {
        FaceDirections::Top => config.textures[1],
        FaceDirections::Bottom => config.textures[2],
        _ => config.textures[0],
    }
}

/// The base corner of a face's texture cell, in atlas cells: the column of
/// the cell and its lower bound (one cell below its row's upper edge).
pub open spec fn spec_base_coords(config: BlockTypeConfigs, face_dir: FaceDirections)
    -> (int, int) {
    let face_offset = spec_face_texture(config, face_dir);
    let y_offset = (face_offset.0 as int) / (BLOCK_PER_ROW as int);
    let x_offset = (face_offset.0 as int) % (BLOCK_PER_ROW as int);
    (x_offset, y_offset + 1)
}

/// Base texture coordinates of a face, in atlas cells. A renderer scales
/// a cell to `BLOCK_OFFSET / TEXTURE_SIZE` of the normalized atlas.
pub fn get_base_coords(config: &BlockTypeConfigs, face_dir: FaceDirections) -> (r: (u32, u32))
    ensures
        (r.0 as int, r.1 as int) == spec_base_coords(*config, face_dir),
{
    let face_offset: FaceTexture = match face_dir {
        FaceDirections::Top => config.textures[1],
        FaceDirections::Bottom => config.textures[2],
        _ => config.textures[0],
    };
    let y_offset: u32 = face_offset.0 / BLOCK_PER_ROW;
    let x_offset: u32 = face_offset.0 % BLOCK_PER_ROW;
    (x_offset, y_offset + 1)
}

/// The four texture-cell corners of a face, in the fixed winding order:
/// lower-left, upper-left, upper-right, lower-right of the cell.
pub open spec fn spec_tex_coords(config: BlockTypeConfigs, face_dir: FaceDirections)
    -> Seq<[u32; 2]> {
    let bc = spec_base_coords(config, face_dir);
    let bx = bc.0 as u32;
    let by = bc.1 as u32;
    seq![
        [bx, by],
        [bx, (by - 1) as u32],
        [(bx + 1) as u32, (by - 1) as u32],
        [(bx + 1) as u32, by],
    ]
}

/// The four texture-cell corners of `face_dir`'s texture.
pub fn get_tex_coords(config: &BlockTypeConfigs, face_dir: FaceDirections) -> (r: [[u32; 2]; 4])
    ensures
        r@ == spec_tex_coords(*config, face_dir),
{
    let bc: (u32, u32) = get_base_coords(config, face_dir);
    let r: [[u32; 2]; 4] = [
        [bc.0, bc.1],
        [bc.0, bc.1 - 1],
        [bc.0 + 1, bc.1 - 1],
        [bc.0 + 1, bc.1],
    ];
    proof {
        assert(r@ =~= spec_tex_coords(*config, face_dir));
    }
    r
}

impl TexturedBlock for BlockType {
    open spec fn spec_texcoords(&self, face_dir: FaceDirections) -> Seq<[u32; 2]> {
        spec_tex_coords(spec_config(*self), face_dir)
    }

    fn get_texcoords(&self, face_dir: FaceDirections) -> (r: [[u32; 2]; 4]) {
        get_tex_coords(&self.get_config(), face_dir)
    }
}

} // verus!
