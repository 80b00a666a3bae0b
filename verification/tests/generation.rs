use minecraft::block_type::BlockType;
use minecraft::chunk::{create_blocks_data, get_height_value, Chunk};
use minecraft::world::{NoiseData, MAX_WORLD_HEIGHT, NOISE_SIZE, WATER_HEIGHT_LEVEL};

fn flat_field(height: u32) -> NoiseData {
    let n = (NOISE_SIZE * NOISE_SIZE) as usize;
    NoiseData::new(vec![height; n])
}

#[test]
fn height_samples_clamp_to_the_generation_range() {
    let field = NoiseData::new(vec![3, 2000, 7]);
    assert_eq!(field.sample(0), 3);
    assert_eq!(field.sample(1), MAX_WORLD_HEIGHT);
    assert_eq!(field.sample(2), 7);
    // Beyond the field everything reads as zero.
    assert_eq!(field.sample(3), 0);
}

#[test]
fn height_lookup_wraps_negative_world_coordinates() {
    let n = (NOISE_SIZE * NOISE_SIZE) as usize;
    let mut samples: Vec<u32> = vec![0; n];
    for (i, s) in samples.iter_mut().enumerate() {
        *s = (i % 7) as u32;
    }
    let field = NoiseData::new(samples);
    // Chunk (0,0), local (3,2): sample index 2 * 512 + 3.
    let idx = 2 * (NOISE_SIZE as usize) + 3;
    assert_eq!(get_height_value(0, 0, 3, 2, &field), (idx % 7) as u32);
    // Chunk (-1,0), local (0,0): x becomes -16, wrapped to 496 from the
    // far edge of the tile.
    let idx = 496;
    assert_eq!(get_height_value(-1, 0, 0, 0, &field), (idx % 7) as u32);
}

#[test]
fn low_terrain_gets_water_backfill() {
    let field = flat_field(3);
    let grid = create_blocks_data(0, 0, &field);
    assert_eq!(grid.len(), 256);
    for column in &grid {
        // Terrain up to height 3, water up to the water level.
        assert_eq!(column.len(), (WATER_HEIGHT_LEVEL as usize) + 1);
        for y in 0..=3 {
            assert_eq!(column[y].unwrap().block_type, BlockType::Sand);
        }
        for y in 4..=(WATER_HEIGHT_LEVEL as usize) {
            assert_eq!(column[y].unwrap().block_type, BlockType::Water);
        }
    }
}

#[test]
fn high_terrain_gets_no_water_and_a_grass_surface() {
    let field = flat_field(10);
    let grid = create_blocks_data(5, -3, &field);
    for column in &grid {
        assert_eq!(column.len(), 11);
        for slot in column.iter() {
            assert_ne!(slot.unwrap().block_type, BlockType::Water);
        }
        // The surface of a dirt column is promoted to grass.
        assert_eq!(column[10].unwrap().block_type, BlockType::Grass);
    }
}

#[test]
fn regenerating_a_chunk_fills_identical_water_columns() {
    let field = flat_field(2);
    let first = create_blocks_data(-2, 7, &field);
    let second = create_blocks_data(-2, 7, &field);
    assert_eq!(first, second);
    // Water stands only above the terrain top, never above a solid block.
    for column in &first {
        for (y, slot) in column.iter().enumerate() {
            let is_water = slot.unwrap().block_type == BlockType::Water;
            assert_eq!(is_water, y > 2 && y <= WATER_HEIGHT_LEVEL as usize);
        }
    }
}

#[test]
fn new_chunk_is_populated_and_unmodified() {
    let field = flat_field(8);
    let chunk = Chunk::new(1, 2, &field);
    assert_eq!((chunk.x, chunk.y), (1, 2));
    assert!(!chunk.modified);
    assert_eq!(chunk.blocks.len(), 256);
    for column in &chunk.blocks {
        assert!(!column.is_empty());
        assert!(column.last().unwrap().is_some());
    }
    // Every pending outside block belongs to some other chunk.
    for b in &chunk.outside_blocks {
        assert_ne!(b.get_chunk_coords(), (1, 2));
    }
}

#[test]
fn generation_is_deterministic_including_trees() {
    let field = flat_field(9);
    let a = Chunk::new(4, 4, &field);
    let b = Chunk::new(4, 4, &field);
    assert_eq!(a.blocks, b.blocks);
    assert_eq!(a.outside_blocks, b.outside_blocks);
}
