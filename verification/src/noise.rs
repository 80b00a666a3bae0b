//! The integer backbone of the coherent-noise engine: the seed-shuffled
//! permutation table and the lattice hashing that picks each grid point's
//! gradient. The floating-point surflet synthesis that consumes these
//! values lives outside the verified core.

use vstd::prelude::*;
use crate::random::{rng_below, rng_from_seed};
use crate::world::RNG_SEED;

verus! {

/// Period of the permutation table; gradients repeat beyond it.
pub const WRAP: u32 = 256;

/// Exchanges two entries of a list.
fn swap_entries(v: &mut Vec<u32>, i: usize, j: usize)
    requires
        i < old(v)@.len(),
        j < old(v)@.len(),
    ensures
        final(v)@.len() == old(v)@.len(),
        final(v)@ == old(v)@.update(i as int, old(v)@[j as int]).update(
            j as int,
            old(v)@[i as int],
        ),
        final(v)@.to_multiset() == old(v)@.to_multiset(),
{
    let a: u32 = v[i];
    let b: u32 = v[j];
    v.set(i, b);
    v.set(j, a);
    proof {
        let s = old(v)@;
        s.to_multiset_ensures();
        assert(s.contains(s[i as int]));
        assert(s.contains(s[j as int]));
        vstd::seq_lib::to_multiset_update(s, i as int, s[j as int]);
        vstd::seq_lib::to_multiset_update(
            s.update(i as int, s[j as int]),
            j as int,
            s[i as int],
        );
        assert(v@.to_multiset() =~= s.to_multiset());
    }
}

/// Shuffles a list in place with draws from a generator seeded with the
/// global seed, so every run reorders it the same way. The result holds
/// exactly the values the input held.
pub fn shuffle(vec: &mut Vec<u32>)
    requires
        old(vec)@.len() <= 0xFFFF_FFFF,
    ensures
        final(vec)@.len() == old(vec)@.len(),
        final(vec)@.to_multiset() == old(vec)@.to_multiset(),
{
    let mut rng: rand::rngs::StdRng = rng_from_seed(RNG_SEED);
    let mut i: usize = vec.len();
    while i > 0
        invariant
            i <= vec@.len(),
            vec@.len() == old(vec)@.len(),
            vec@.len() <= 0xFFFF_FFFF,
            vec@.to_multiset() == old(vec)@.to_multiset(),
        decreases i,
    {
        i = i - 1;
        let a: usize = if i > 1 {
            rng_below(&mut rng, (i - 1) as u32) as usize
        } else {
            0
        };
        swap_entries(vec, i, a);
    }
}

/// The identity table the permutation is drawn from: value `i` at index
/// `i`, for the whole period.
pub open spec fn spec_identity_table() -> Seq<u32> {
    Seq::new(WRAP as nat, |i: int| i as u32)
}

/// Well-formedness of the permutation table: twice the period long, the
/// second half mirroring the first (so hashing never wraps), every entry
/// below the period, and the first half a permutation of the identity
/// table.
pub open spec fn spec_perm_table_wf(t: Seq<u32>) -> bool {
    &&& t.len() == 2 * WRAP
    &&& (forall|i: int| 0 <= i < t.len() ==> (#[trigger] t[i]) < WRAP)
    &&& (forall|i: int| WRAP <= i < t.len() ==> (#[trigger] t[i]) == t[i - WRAP])
    &&& t.take(WRAP as int).to_multiset() == spec_identity_table().to_multiset()
}

/// Builds the process-wide permutation table: the values `0` up to the
/// period, shuffled under the global seed, then doubled so that hashed
/// indices need no wraparound check. Identical across all callers, since
/// the shuffle is seeded with the fixed global seed.
pub fn create_permutation_table() -> (r: Vec<u32>)
    ensures
        spec_perm_table_wf(r@),
{
    let mut table: Vec<u32> = Vec::new();
    let mut v: u32 = 0;
    while v < WRAP
        invariant
            v <= WRAP,
            table@.len() == v,
            forall|i: int| 0 <= i < v ==> (#[trigger] table@[i]) == i as u32,
        decreases WRAP - v,
    {
        table.push(v);
        v = v + 1;
    }
    proof {
        assert(table@ =~= spec_identity_table());
    }
    shuffle(&mut table);
    proof {
        table@.to_multiset_ensures();
        spec_identity_table().to_multiset_ensures();
        assert forall|i: int| 0 <= i < table@.len() implies (#[trigger] table@[i]) < WRAP by {
            let x = table@[i];
            assert(table@.contains(x));
            assert(spec_identity_table().to_multiset().count(x) > 0);
            assert(spec_identity_table().contains(x));
            let j = choose|j: int|
                0 <= j < spec_identity_table().len() && spec_identity_table()[j] == x;
        }
    }
    let ghost half = table@;
    let mut i: usize = 0;
    while i < (WRAP as usize)
        invariant
            i <= WRAP,
            half.len() == WRAP,
            forall|k: int| 0 <= k < half.len() ==> (#[trigger] half[k]) < WRAP,
            table@.len() == WRAP + i,
            table@.take(WRAP as int) == half,
            forall|k: int| WRAP <= k < table@.len() ==> (#[trigger] table@[k]) == half[k - WRAP],
        decreases WRAP - i,
    {
        let x: u32 = table[i];
        table.push(x);
        proof {
            assert(table@.take(WRAP as int) =~= half);
        }
        i = i + 1;
    }
    proof {
        assert(table@.take(WRAP as int) =~= half);
        assert(half.to_multiset() == spec_identity_table().to_multiset());
        assert forall|k: int| 0 <= k < table@.len() implies (#[trigger] table@[k]) < WRAP by {
            if k < WRAP {
                assert(table@[k] == table@.take(WRAP as int)[k]);
            } else {
                assert(table@[k] == half[k - WRAP]);
            }
        }
        assert forall|k: int|
            WRAP <= k < table@.len() implies (#[trigger] table@[k]) == table@[k - WRAP] by {
            assert(table@[k] == half[k - WRAP]);
            assert(table@[k - WRAP] == table@.take(WRAP as int)[k - WRAP]);
        }
    }
    table
}

/// The gradient selector of one lattice point: the table hashed at the
/// point's coordinates, each reduced modulo the tileable period.
pub open spec fn spec_gradient_hash(t: Seq<u32>, grid_x: int, grid_y: int, per: int) -> u32 {
    t[t[grid_x % per] + grid_y % per]
}

/// Hashes a lattice point into the permutation table: the entry at the
/// x-coordinate's slot, offset by the y-coordinate, both reduced modulo
/// the tileable period `per`.
pub fn gradient_hash(table: &Vec<u32>, grid_x: u32, grid_y: u32, per: u32) -> (r: u32)
    requires
        spec_perm_table_wf(table@),
        0 < per <= WRAP,
    ensures
        r == spec_gradient_hash(table@, grid_x as int, grid_y as int, per as int),
        r < WRAP,
{
    let first: u32 = table[(grid_x % per) as usize];
    let idx: usize = (first + grid_y % per) as usize;
    table[idx]
}

/// The gradient direction of a hashed lattice value: one of the four
/// diagonal unit directions, picked by the value's low two bits.
pub open spec fn spec_corner_consts(v: u32) -> (int, int) {
    let h = v % 4;
    if h == 0 {
        (1, 1)
    } else if h == 1 {
        (-1, 1)
    } else if h == 2 {
        (-1, -1)
    } else {
        (1, -1)
    }
}

/// Picks the gradient direction that a hashed lattice value selects.
pub fn get_corner_consts(v: u32) -> (r: (i64, i64))
    ensures
        (r.0 as int, r.1 as int) == spec_corner_consts(v),
{
    let h: u32 = v % 4;
    if h == 0 {
        (1, 1)
    } else if h == 1 {
        (-1, 1)
    } else if h == 2 {
        (-1, -1)
    } else {
        (1, -1)
    }
}

} // verus!
