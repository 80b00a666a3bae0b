use vstd::prelude::*;

verus! {

/// Width and depth, in blocks, of one chunk column group.
pub const CHUNK_SIZE: u32 = 16;

/// Columns whose terrain stays below this height are backfilled with water
/// up to and including it.
pub const WATER_HEIGHT_LEVEL: u32 = 5;

/// Upper bound on the number of trees one chunk attempts to place.
pub const MAX_TREES_PER_CHUNK: u32 = 3;

/// Number of chunks per row covered by the precomputed noise tile.
pub const NOISE_CHUNK_PER_ROW: u32 = 32;

/// Side length, in samples, of the precomputed noise tile.
pub const NOISE_SIZE: u32 = NOISE_CHUNK_PER_ROW * CHUNK_SIZE;

/// Fixed global seed; every random draw in generation derives from it, so
/// that identical coordinates always regenerate identical terrain.
pub const RNG_SEED: u64 = 123456789;

/// Cap on terrain height samples; generation never stacks blocks above it.
pub const MAX_WORLD_HEIGHT: u32 = 1024;

/// Hard vertical limit of the block store: no column ever holds a slot at
/// or above this height.
pub const WORLD_HEIGHT_LIMIT: u32 = 0x1000_0000;

/// A precomputed, read-only field of terrain height samples, flattened
/// row-major with rows of `NOISE_SIZE` entries. Each sample is the height of
/// the topmost terrain block of its world column. The synthesis that
/// produces the samples (fractal noise and its exponential remap) happens
/// outside the verified core; this type only guarantees that every sample
/// respects the world height cap.
pub struct NoiseData {
    pub heights: Vec<u32>,
}

impl NoiseData {
    /// Every sample is at most `MAX_WORLD_HEIGHT`.
    pub open spec fn wf(self) -> bool {
        forall|i: int| 0 <= i < self.heights@.len() ==> self.heights@[i] <= MAX_WORLD_HEIGHT
    }

    pub open spec fn spec_len(self) -> nat {
        self.heights@.len()
    }

    /// The sample stored at `i`, or 0 where the field has no sample.
    pub open spec fn spec_sample(self, i: int) -> u32 {
        if 0 <= i < self.heights@.len() {
            self.heights@[i]
        } else {
            0
        }
    }

    /// Wraps raw height samples, clamping each into the configured
    /// generation range.
    pub fn new(samples: Vec<u32>) -> (r: NoiseData)
        ensures
            r.wf(),
            r.spec_len() == samples@.len(),
            forall|i: int| 0 <= i < samples@.len() ==> r.spec_sample(i) == clamped_height(samples@[i]),
    {
        let mut heights: Vec<u32> = Vec::new();
        let mut k: usize = 0;
        while k < samples.len()
            invariant
                k <= samples@.len(),
                heights@.len() == k,
                forall|i: int| 0 <= i < k ==> heights@[i] == clamped_height(samples@[i]),
                forall|i: int| 0 <= i < k ==> heights@[i] <= MAX_WORLD_HEIGHT,
            decreases samples@.len() - k,
        {
            let s: u32 = samples[k];
            if s > MAX_WORLD_HEIGHT {
                heights.push(MAX_WORLD_HEIGHT);
            } else {
                heights.push(s);
            }
            k = k + 1;
        }
        NoiseData { heights }
    }

    /// Number of samples held.
    pub fn len(&self) -> (r: usize)
        ensures
            r == self.spec_len(),
    {
        self.heights.len()
    }

    /// The sample at `i`, or 0 where the field has none.
    pub fn sample(&self, i: usize) -> (r: u32)
        ensures
            r == self.spec_sample(i as int),
    {
        if i < self.heights.len() {
            self.heights[i]
        } else {
            0
        }
    }
}

/// A raw sample clamped into the generation range.
pub open spec fn clamped_height(s: u32) -> u32 {
    if s > MAX_WORLD_HEIGHT {
        MAX_WORLD_HEIGHT
    } else {
        s
    }
}

} // verus!
