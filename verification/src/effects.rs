//! Ambient occlusion: per-vertex darkening from the occupancy of the two
//! side cells and the diagonal corner cell above a vertex, resolved across
//! chunk boundaries.

use vstd::prelude::*;
use crate::block::Block;
use crate::block_type::BlockType;
use crate::chunk::BlockVec;
use crate::utils::{
    abs_coord_ok, ChunkFromPosition, Position, RelativeFromAbsolute,
};
use crate::world::CHUNK_SIZE;

verus! {

/// Magnitude up to which vertex coordinates (half-unit lattice) are
/// accepted for occlusion probes.
pub const VERTEX_HALF_LIMIT: i64 = 0x4_0000_0000;

/// The occlusion level of a vertex from its three neighbours: 0 (darkest)
/// when both side cells are occupied, otherwise 3 minus the number of
/// occupied neighbours (3 is fully lit).
pub open spec fn spec_calc_vertex_ao(side1: bool, side2: bool, up: bool) -> u8 {
    if side1 && side2 {
        0
    } else {
        (3 - (if side1 {
            1int
        } else {
            0int
        }) - (if side2 {
            1int
        } else {
            0int
        }) - (if up {
            1int
        } else {
            0int
        })) as u8
    }
}

/// Occlusion level of a vertex given the occupancy of its two side cells
/// and its corner cell. Both sides occupied is full occlusion whatever the
/// corner holds; no neighbour occupied is full brightness.
pub fn calc_vertex_ao(side1: bool, side2: bool, up: bool) -> (r: u8)
    ensures
        r == spec_calc_vertex_ao(side1, side2, up),
        side1 && side2 ==> r == 0,
        !side1 && !side2 && !up ==> r == 3,
        r <= 3,
{
    if side1 && side2 {
        return 0;
    }
    let a: u8 = if side1 {
        1
    } else {
        0
    };
    let b: u8 = if side2 {
        1
    } else {
        0
    };
    let c: u8 = if up {
        1
    } else {
        0
    };
    3 - a - b - c
}

/// The cell a probe lands in: the vertex (half units) moved by a whole-unit
/// offset, taken back to the block lattice by flooring each component.
pub open spec fn spec_probe_cell(v: Position, ox: int, oy: int, oz: int) -> Position {
    Position {
        x: ((v.x as int + 2 * ox) / 2) as i64,
        y: ((v.y as int + 2 * oy) / 2) as i64,
        z: ((v.z as int + 2 * oz) / 2) as i64,
    }
}

/// The first grid listed for `chunk`, if any.
pub open spec fn spec_find_chunk(bp: Seq<((i32, i32), BlockVec)>, chunk: (i32, i32))
    -> Option<BlockVec>
    decreases bp.len(),
{
    if bp.len() == 0 {
        Option::None
    } else if bp[0].0.0 == chunk.0 && bp[0].0.1 == chunk.1 {
        Option::Some(bp[0].1)
    } else {
        spec_find_chunk(bp.drop_first(), chunk)
    }
}

/// The block stored at an absolute cell in the listed grids: the cell's
/// owning chunk is looked up in the list, then the cell's slot in that
/// grid. A missing chunk, column or slot holds nothing. The conversion to
/// a relative position clamps negative heights, so a probe below the
/// world reads the ground slot of its column.
pub open spec fn spec_block_at_cell(bp: Seq<((i32, i32), BlockVec)>, cell: Position)
    -> Option<Block> {
    let ch = cell.spec_owning_chunk();
    let rel = cell.spec_relative();
    match spec_find_chunk(bp, (ch.0 as i32, ch.1 as i32)) {
        Option::None => Option::None,
        Option::Some(grid) => {
            let c = rel.x * (CHUNK_SIZE as int) + rel.z;
            if 0 <= c < grid@.len() && 0 <= rel.y < grid@[c]@.len() {
                grid@[c]@[rel.y as int]
            } else {
                Option::None
            }
        },
    }
}

/// Whether the cell holds an occluding block: one is stored there and it
/// is not water. A missing chunk, column or slot never occludes.
pub open spec fn spec_cell_occupied(bp: Seq<((i32, i32), BlockVec)>, cell: Position) -> bool {
    match spec_block_at_cell(bp, cell) {
        Option::Some(b) => b.block_type != BlockType::Water,
        Option::None => false,
    }
}

/// The grid listed first for `chunk`, or nothing.
fn find_chunk<'a>(blocks_positions: &'a Vec<((i32, i32), BlockVec)>, chunk: (i32, i32)) -> (r:
    Option<&'a BlockVec>)
    ensures
        match r {
            Option::Some(g) => spec_find_chunk(blocks_positions@, chunk) == Option::Some(*g),
            Option::None => spec_find_chunk(blocks_positions@, chunk).is_none(),
        },
{
    proof {
        assert(blocks_positions@.skip(0) =~= blocks_positions@);
    }
    let mut i: usize = 0;
    while i < blocks_positions.len()
        invariant
            i <= blocks_positions@.len(),
            spec_find_chunk(blocks_positions@.skip(i as int), chunk) == spec_find_chunk(
                blocks_positions@,
                chunk,
            ),
        decreases blocks_positions@.len() - i,
    {
        let entry = &blocks_positions[i];
        if entry.0.0 == chunk.0 && entry.0.1 == chunk.1 {
            assert(blocks_positions@.skip(i as int)[0] == blocks_positions@[i as int]);
            return Some(&blocks_positions[i].1);
        }
        proof {
            assert(blocks_positions@.skip(i as int)[0] == blocks_positions@[i as int]);
            assert(blocks_positions@.skip(i as int).drop_first() =~= blocks_positions@.skip(
                i as int + 1,
            ));
        }
        i = i + 1;
    }
    None
}

/// Reads the block stored at an absolute cell from the listed grids, or
/// nothing where no chunk, column or slot covers the cell.
pub fn block_at_cell(blocks_positions: &Vec<((i32, i32), BlockVec)>, cell: Position) -> (r:
    Option<Block>)
    requires
        abs_coord_ok(cell.x as int),
        abs_coord_ok(cell.z as int),
    ensures
        r == spec_block_at_cell(blocks_positions@, cell),
{
    let ch: (i32, i32) = cell.get_chunk_from_position_absolute();
    let rel: Position = cell.relative_from_absolute();
    match find_chunk(blocks_positions, ch) {
        Option::None => None,
        Option::Some(grid) => {
            let c: usize = crate::chunk::column_index(rel.x, rel.z);
            if c < grid.len() {
                let column: &Vec<Option<Block>> = &grid[c];
                if (rel.y as u64) < (column.len() as u64) {
                    column[rel.y as usize]
                } else {
                    None
                }
            } else {
                None
            }
        },
    }
}

/// Whether the cell at `cell` (block lattice, absolute space) holds an
/// occluding block in the listed grids.
fn cell_occupied(blocks_positions: &Vec<((i32, i32), BlockVec)>, cell: Position) -> (r: bool)
    requires
        abs_coord_ok(cell.x as int),
        abs_coord_ok(cell.z as int),
    ensures
        r == spec_cell_occupied(blocks_positions@, cell),
{
    match block_at_cell(blocks_positions, cell) {
        Option::Some(b) => b.block_type != BlockType::Water,
        Option::None => false,
    }
}

/// The occlusion level of the vertex at `vertex_position` (half-unit
/// lattice, absolute space): side cells one step along x and z above the
/// vertex, corner cell diagonally above, water never occluding.
pub open spec fn spec_vertex_ao(bp: Seq<((i32, i32), BlockVec)>, v: Position) -> u8 {
    spec_calc_vertex_ao(
        spec_cell_occupied(bp, spec_probe_cell(v, 1, 1, 0)),
        spec_cell_occupied(bp, spec_probe_cell(v, 0, 1, 1)),
        spec_cell_occupied(bp, spec_probe_cell(v, 1, 1, 1)),
    )
}

/// Computes a vertex's occlusion level from the grids of the owning chunk
/// and its neighbours; chunks not listed count as unoccupied.
pub fn from_vertex_position(
    vertex_position: &Position,
    blocks_positions: &Vec<((i32, i32), BlockVec)>,
) -> (r: u8)
    requires
        -VERTEX_HALF_LIMIT <= vertex_position.x <= VERTEX_HALF_LIMIT,
        -VERTEX_HALF_LIMIT <= vertex_position.y <= VERTEX_HALF_LIMIT,
        -VERTEX_HALF_LIMIT <= vertex_position.z <= VERTEX_HALF_LIMIT,
    ensures
        r == spec_vertex_ao(blocks_positions@, *vertex_position),
        r <= 3,
{
    let side1_cell: Position = probe_cell(vertex_position, 1, 1, 0);
    let side2_cell: Position = probe_cell(vertex_position, 0, 1, 1);
    let corner_cell: Position = probe_cell(vertex_position, 1, 1, 1);
    let has_side1: bool = cell_occupied(blocks_positions, side1_cell);
    let has_side2: bool = cell_occupied(blocks_positions, side2_cell);
    let has_corner: bool = cell_occupied(blocks_positions, corner_cell);
    calc_vertex_ao(has_side1, has_side2, has_corner)
}

/// The block-lattice cell one probe offset away from a vertex.
fn probe_cell(v: &Position, ox: i64, oy: i64, oz: i64) -> (r: Position)
    requires
        0 <= ox <= 1,
        0 <= oy <= 1,
        0 <= oz <= 1,
        -VERTEX_HALF_LIMIT <= v.x <= VERTEX_HALF_LIMIT,
        -VERTEX_HALF_LIMIT <= v.y <= VERTEX_HALF_LIMIT,
        -VERTEX_HALF_LIMIT <= v.z <= VERTEX_HALF_LIMIT,
    ensures
        r == spec_probe_cell(*v, ox as int, oy as int, oz as int),
        abs_coord_ok(r.x as int),
        abs_coord_ok(r.z as int),
{
    let x: i64 = (v.x + 2 * ox).checked_div_euclid(2).unwrap();
    let y: i64 = (v.y + 2 * oy).checked_div_euclid(2).unwrap();
    let z: i64 = (v.z + 2 * oz).checked_div_euclid(2).unwrap();
    Position { x, y, z }
}

} // verus!
