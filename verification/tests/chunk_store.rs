use minecraft::block::Block;
use minecraft::block_type::BlockType;
use minecraft::chunk::Chunk;
use minecraft::utils::Position;

fn empty_chunk(x: i32, y: i32) -> Chunk {
    let mut grid: Vec<Vec<Option<Block>>> = Vec::new();
    for _ in 0..256 {
        grid.push(Vec::new());
    }
    Chunk {
        x,
        y,
        blocks: grid,
        outside_blocks: Vec::new(),
        visible: false,
        modified: false,
    }
}

#[test]
fn add_block_grows_the_column_with_air() {
    let mut chunk = empty_chunk(0, 0);
    let block = Block::new(Position::new(3, 5, 2), (0, 0), BlockType::Stone);
    chunk.add_block(block, true);
    assert!(chunk.modified);
    let column = &chunk.blocks[3 * 16 + 2];
    assert_eq!(column.len(), 6);
    for y in 0..5 {
        assert!(column[y].is_none());
    }
    assert_eq!(column[5], Some(block));
    assert!(chunk.exists_block_at(&Position::new(3, 5, 2)));
    assert_eq!(chunk.block_type_at(&Position::new(3, 5, 2)), Some(BlockType::Stone));
    assert_eq!(chunk.get_block_at_relative(&Position::new(3, 4, 2)), None);
}

#[test]
fn add_block_without_modify_status_keeps_the_flag() {
    let mut chunk = empty_chunk(2, -1);
    let block = Block::new(Position::new(0, 0, 0), (2, -1), BlockType::Dirt);
    chunk.add_block(block, false);
    assert!(!chunk.modified);
    assert!(chunk.exists_block_at(&Position::new(0, 0, 0)));
}

#[test]
fn remove_block_empties_the_slot_and_marks_modified() {
    let mut chunk = empty_chunk(0, 0);
    let block = Block::new(Position::new(7, 2, 7), (0, 0), BlockType::Sand);
    chunk.add_block(block, false);
    assert!(!chunk.modified);
    chunk.remove_block(&Position::new(7, 2, 7));
    assert!(chunk.modified);
    assert!(!chunk.exists_block_at(&Position::new(7, 2, 7)));
    assert_eq!(chunk.block_type_at(&Position::new(7, 2, 7)), None);
    // The column keeps its length; only the slot is emptied.
    assert_eq!(chunk.blocks[7 * 16 + 7].len(), 3);
}

#[test]
fn lookups_outside_the_chunk_find_nothing() {
    let chunk = empty_chunk(0, 0);
    assert!(Chunk::is_outside_chunk(&Position::new(16, 0, 0)));
    assert!(Chunk::is_outside_chunk(&Position::new(-1, 0, 0)));
    assert!(Chunk::is_outside_chunk(&Position::new(0, 0, 16)));
    assert!(!Chunk::is_outside_chunk(&Position::new(15, 99, 15)));
    assert!(Chunk::is_outside_bounds(&Position::new(0, -1, 0)));
    assert!(!Chunk::is_outside_bounds(&Position::new(0, 0, 0)));
    assert_eq!(chunk.get_block_at_relative(&Position::new(16, 0, 0)), None);
    assert_eq!(chunk.get_block_at_relative(&Position::new(0, -3, 0)), None);
}

#[test]
fn block_agrees_with_its_chunk_offset() {
    let block = Block::new(Position::new(1, 0, 4), (1, 1), BlockType::Grass);
    assert_eq!(block.absolute_position, Position::new(17, 0, 20));
    assert_eq!(block.get_chunk_coords(), (1, 1));
    assert_eq!(block.collision_box.min_x, 17);
    assert_eq!(block.collision_box.max_x, 18);
    assert!(!block.is_on_chunk_border());
    let border = Block::new(Position::new(15, 0, 0), (0, 0), BlockType::Grass);
    assert!(border.is_on_chunk_border());
    assert_eq!(border.get_neighbour_chunks_coords(), vec![(1, 0), (0, -1)]);
}
