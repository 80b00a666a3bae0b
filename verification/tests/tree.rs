use minecraft::block::Block;
use minecraft::block_type::BlockType;
use minecraft::chunk::Chunk;
use minecraft::structures::{Structure, Tree};
use minecraft::utils::Position;

#[test]
fn tree_has_fixed_topology() {
    let blocks = Tree::get_blocks(Position::new(8, 10, 8));
    assert_eq!(blocks.len(), 20);
    // Three trunk blocks stacked above the anchor.
    for (i, dy) in [1i64, 2, 3].iter().enumerate() {
        assert_eq!(blocks[i].block_type, BlockType::Wood);
        assert_eq!(blocks[i].absolute_position, Position::new(8, 10 + dy, 8));
    }
    // The rest is canopy.
    for b in &blocks[3..] {
        assert_eq!(b.block_type, BlockType::Leaf);
    }
    // The crown sits two cells above the trunk top.
    assert_eq!(blocks[19].absolute_position, Position::new(8, 15, 8));
    // All blocks of this tree stay in chunk (0, 0).
    for b in blocks.iter() {
        assert_eq!(b.get_chunk_coords(), (0, 0));
    }
}

#[test]
fn tree_generation_is_deterministic() {
    let a = Tree::get_blocks(Position::new(-40, 6, 123));
    let b = Tree::get_blocks(Position::new(-40, 6, 123));
    assert_eq!(a, b);
}

#[test]
fn tree_blocks_cross_into_neighbouring_chunks() {
    let blocks = Tree::get_blocks(Position::new(15, 10, 15));
    // The canopy leaf at x+1 belongs to the chunk one step to the right.
    let east = blocks
        .iter()
        .find(|b| b.absolute_position == Position::new(16, 13, 15))
        .expect("canopy reaches x = 16");
    assert_eq!(east.get_chunk_coords(), (1, 0));
    assert_eq!(east.position, Position::new(0, 13, 15));
    // The trunk stays in the anchor's chunk.
    assert_eq!(blocks[0].get_chunk_coords(), (0, 0));
}

#[test]
fn trees_root_only_on_eligible_tops() {
    let mut grid: Vec<Vec<Option<Block>>> = Vec::new();
    for _ in 0..256 {
        grid.push(Vec::new());
    }
    let mut chunk = Chunk {
        x: 0,
        y: 0,
        blocks: grid,
        outside_blocks: Vec::new(),
        visible: false,
        modified: false,
    };
    chunk.add_block(Block::new(Position::new(3, 4, 3), (0, 0), BlockType::Grass), false);
    chunk.add_block(Block::new(Position::new(5, 0, 5), (0, 0), BlockType::Water), false);
    chunk.add_block(Block::new(Position::new(0, 4, 0), (0, 0), BlockType::Grass), false);

    // A grass top roots a tree: trunk above the anchor, crown at the top.
    assert!(chunk.try_place_tree(3, 3));
    assert_eq!(chunk.block_type_at(&Position::new(3, 5, 3)), Some(BlockType::Wood));
    assert_eq!(chunk.block_type_at(&Position::new(3, 7, 3)), Some(BlockType::Wood));
    assert_eq!(chunk.block_type_at(&Position::new(3, 9, 3)), Some(BlockType::Leaf));
    assert_eq!(chunk.block_type_at(&Position::new(4, 7, 3)), Some(BlockType::Leaf));
    // This tree lies wholly inside the chunk.
    assert!(chunk.outside_blocks.is_empty());

    // A water top roots nothing.
    let before = chunk.blocks.clone();
    assert!(!chunk.try_place_tree(5, 5));
    assert_eq!(chunk.blocks, before);

    // A tree at the chunk corner sends its overhanging canopy outside:
    // six leaves at x = -1, four more at z = -1.
    assert!(chunk.try_place_tree(0, 0));
    assert_eq!(chunk.outside_blocks.len(), 10);
    for b in &chunk.outside_blocks {
        assert_ne!(b.get_chunk_coords(), (0, 0));
    }
}
