use vstd::prelude::*;
use crate::world::CHUNK_SIZE;

verus! {

/// Lowest absolute x or z coordinate whose owning chunk still fits in `i32`.
pub const MIN_ABS_COORD: i64 = -0x8_0000_0000;

/// Highest absolute x or z coordinate whose owning chunk still fits in `i32`.
pub const MAX_ABS_COORD: i64 = 0x7_FFFF_FFFF;

/// A block position on the integer lattice. One type serves the three
/// coordinate spaces: absolute (world-global), relative (each component
/// within `[0, CHUNK_SIZE)` horizontally, non-negative vertically), and the
/// intermediate values that conversions pass around.
#[derive(Clone, Copy, PartialEq, Eq, Structural, Hash, Debug)]
pub struct Position {
    pub x: i64,
    pub y: i64,
    pub z: i64,
}

/// Whether `a` lies in the range on which chunk lookup is supported.
pub open spec fn abs_coord_ok(a: int) -> bool {
    MIN_ABS_COORD <= a <= MAX_ABS_COORD
}

/// The chunk-grid coordinate owning absolute coordinate `a`: the floor of
/// `a / CHUNK_SIZE`.
pub open spec fn owning_chunk_coord(a: int) -> int {
    a / (CHUNK_SIZE as int)
}

/// The chunk-relative value of absolute coordinate `a`: `a` reduced modulo
/// `CHUNK_SIZE` into `[0, CHUNK_SIZE)`.
pub open spec fn relative_coord(a: int) -> int {
    a % (CHUNK_SIZE as int)
}

impl Position {
    pub fn new(x: i64, y: i64, z: i64) -> (r: Position)
        ensures
            r == (Position { x, y, z }),
    {
        Position { x, y, z }
    }

    /// Both horizontal components are in range for chunk lookup.
    pub open spec fn chunk_lookup_ok(self) -> bool {
        abs_coord_ok(self.x as int) && abs_coord_ok(self.z as int)
    }
}

/// Derives the coordinates of the chunk that owns an absolute position.
pub trait ChunkFromPosition {
    /// Whether the position is within the supported lookup range.
    spec fn spec_lookup_ok(&self) -> bool;

    /// The owning chunk's coordinates, as mathematical integers.
    spec fn spec_owning_chunk(&self) -> (int, int);

    fn get_chunk_from_position_absolute(&self) -> (r: (i32, i32))
        requires
            self.spec_lookup_ok(),
        ensures
            r.0 == self.spec_owning_chunk().0,
            r.1 == self.spec_owning_chunk().1,
    ;
}

/// Reduces an absolute position to the position it has inside its owning
/// chunk.
pub trait RelativeFromAbsolute where Self: Sized {
    /// The chunk-relative image of the position.
    spec fn spec_relative(&self) -> Self;

    fn relative_from_absolute(&self) -> (r: Self)
        ensures
            r == self.spec_relative(),
    ;
}

impl ChunkFromPosition for Position {
    open spec fn spec_lookup_ok(&self) -> bool {
        self.chunk_lookup_ok()
    }

    open spec fn spec_owning_chunk(&self) -> (int, int) {
        (owning_chunk_coord(self.x as int), owning_chunk_coord(self.z as int))
    }

    /// The chunk grid cell that contains this absolute position: each
    /// horizontal component divided by `CHUNK_SIZE`, rounding toward
    /// negative infinity.
    fn get_chunk_from_position_absolute(&self) -> (r: (i32, i32)) {
        let cx: i64 = self.x.checked_div_euclid(CHUNK_SIZE as i64).unwrap();
        let cz: i64 = self.z.checked_div_euclid(CHUNK_SIZE as i64).unwrap();
        (cx as i32, cz as i32)
    }
}

impl RelativeFromAbsolute for Position {
    open spec fn spec_relative(&self) -> Position {
        Position {
            x: relative_coord(self.x as int) as i64,
            y: if self.y >= 0 { self.y } else { 0 },
            z: relative_coord(self.z as int) as i64,
        }
    }

    /// The position inside the owning chunk: horizontal components reduced
    /// modulo `CHUNK_SIZE` into `[0, CHUNK_SIZE)`, vertical component
    /// clamped to be non-negative.
    fn relative_from_absolute(&self) -> (r: Position) {
        let rx: i64 = self.x.checked_rem_euclid(CHUNK_SIZE as i64).unwrap();
        let rz: i64 = self.z.checked_rem_euclid(CHUNK_SIZE as i64).unwrap();
        let ry: i64 = if self.y >= 0 {
            self.y
        } else {
            0
        };
        Position { x: rx, y: ry, z: rz }
    }
}

/// Coordinate round-trip: the owning-chunk coordinate and the
/// chunk-relative position together reconstruct the absolute position.
/// For every absolute position, `chunk * CHUNK_SIZE + relative` equals the
/// original horizontal components, and the vertical component is unchanged
/// whenever it is non-negative.
pub proof fn lemma_coordinate_round_trip(p: Position)
    ensures
        p.spec_owning_chunk().0 * CHUNK_SIZE + p.spec_relative().x == p.x,
        p.spec_owning_chunk().1 * CHUNK_SIZE + p.spec_relative().z == p.z,
        p.y >= 0 ==> p.spec_relative().y == p.y,
{
    assert((CHUNK_SIZE as int) * owning_chunk_coord(p.x as int) + relative_coord(p.x as int)
        == p.x as int) by {
        vstd::arithmetic::div_mod::lemma_fundamental_div_mod(p.x as int, CHUNK_SIZE as int);
    }
    assert((CHUNK_SIZE as int) * owning_chunk_coord(p.z as int) + relative_coord(p.z as int)
        == p.z as int) by {
        vstd::arithmetic::div_mod::lemma_fundamental_div_mod(p.z as int, CHUNK_SIZE as int);
    }
}

} // verus!
