use minecraft::block::{Block, FaceDirections};
use minecraft::block_type::BlockType;
use minecraft::chunk::{is_visible, BlockVec, Chunk};
use minecraft::effects::{calc_vertex_ao, from_vertex_position};
use minecraft::utils::Position;

fn empty_grid() -> BlockVec {
    let mut grid: BlockVec = Vec::new();
    for _ in 0..256 {
        grid.push(Vec::new());
    }
    grid
}

fn grid_with(blocks: &[Block]) -> BlockVec {
    let mut grid = empty_grid();
    for b in blocks {
        let ci = (b.position.x * 16 + b.position.z) as usize;
        let y = b.position.y as usize;
        while grid[ci].len() < y + 1 {
            grid[ci].push(None);
        }
        grid[ci][y] = Some(*b);
    }
    grid
}

#[test]
fn vertex_ao_levels() {
    assert_eq!(calc_vertex_ao(true, true, false), 0);
    assert_eq!(calc_vertex_ao(true, true, true), 0);
    assert_eq!(calc_vertex_ao(false, false, false), 3);
    assert_eq!(calc_vertex_ao(true, false, false), 2);
    assert_eq!(calc_vertex_ao(false, true, true), 1);
}

#[test]
fn occlusion_probes_resolve_neighbours_and_ignore_water() {
    // Vertex at the centre point (0.5, 0.5, 0.5), in half units.
    let vertex = Position::new(1, 1, 1);
    // Nothing loaded: fully lit.
    assert_eq!(from_vertex_position(&vertex, &vec![]), 3);
    // A stone block in the first side cell (1, 1, 0).
    let stone = Block::new(Position::new(1, 1, 0), (0, 0), BlockType::Stone);
    let world = vec![((0, 0), grid_with(&[stone]))];
    assert_eq!(from_vertex_position(&vertex, &world), 2);
    // Water in the same cell does not occlude.
    let water = Block::new(Position::new(1, 1, 0), (0, 0), BlockType::Water);
    let world = vec![((0, 0), grid_with(&[water]))];
    assert_eq!(from_vertex_position(&vertex, &world), 3);
    // Both side cells occupied: darkest, whatever the corner holds.
    let side2 = Block::new(Position::new(0, 1, 1), (0, 0), BlockType::Dirt);
    let world = vec![((0, 0), grid_with(&[stone, side2]))];
    assert_eq!(from_vertex_position(&vertex, &world), 0);
}

#[test]
fn face_data_deduplicates_corners() {
    let block = Block::new(Position::new(0, 0, 0), (0, 0), BlockType::Stone);
    let (vertices, index_map) = FaceDirections::Top.create_face_data(&block, &vec![]);
    assert_eq!(vertices.len(), 4);
    assert_eq!(index_map, vec![0, 1, 2, 0, 2, 3]);
    // Corners 1, 5, 6, 2 of the cube, in half units around the block.
    assert_eq!(vertices[0].position, [-1, 1, -1]);
    assert_eq!(vertices[1].position, [-1, 1, 1]);
    assert_eq!(vertices[2].position, [1, 1, 1]);
    assert_eq!(vertices[3].position, [1, 1, -1]);
    for v in &vertices {
        assert_eq!(v.normal, [0, 1, 0]);
        assert_eq!(v.ao, 3);
    }
    // Stone's top texture is atlas cell 3.
    assert_eq!(vertices[0].tex_coords, [3, 1]);
    assert_eq!(vertices[1].tex_coords, [3, 0]);
    assert_eq!(vertices[2].tex_coords, [4, 0]);
    assert_eq!(vertices[3].tex_coords, [4, 1]);
}

fn chunk_of(blocks: &[Block]) -> Chunk {
    Chunk {
        x: 0,
        y: 0,
        blocks: grid_with(blocks),
        outside_blocks: Vec::new(),
        visible: false,
        modified: false,
    }
}

#[test]
fn lone_ground_block_meshes_five_faces() {
    let stone = Block::new(Position::new(0, 0, 0), (0, 0), BlockType::Stone);
    let chunk = chunk_of(&[stone]);
    let world = vec![((0, 0), chunk.blocks.clone())];
    let mesh = chunk.build_mesh(&world);
    // A probe below the world clamps to the ground slot, so the bottom
    // face of a ground-level block is culled against the block itself;
    // the five other faces are emitted.
    assert_eq!(mesh.vertices.len(), 20);
    assert_eq!(mesh.indices.len(), 30);
    assert!(mesh.water_vertices.is_empty());
    assert!(mesh.water_indices.is_empty());
    for &i in &mesh.indices {
        assert!((i as usize) < mesh.vertices.len());
    }
}

#[test]
fn touching_faces_are_culled() {
    let lower = Block::new(Position::new(4, 0, 4), (0, 0), BlockType::Stone);
    let upper = Block::new(Position::new(4, 1, 4), (0, 0), BlockType::Dirt);
    let chunk = chunk_of(&[lower, upper]);
    let world = vec![((0, 0), chunk.blocks.clone())];
    let mesh = chunk.build_mesh(&world);
    // Two stacked cubes lose the shared face pair and the lower cube's
    // ground face: nine faces remain.
    assert_eq!(mesh.vertices.len(), 36);
    assert_eq!(mesh.indices.len(), 54);
}

#[test]
fn water_goes_into_the_translucent_stream() {
    let water = Block::new(Position::new(2, 0, 2), (0, 0), BlockType::Water);
    let chunk = chunk_of(&[water]);
    let world = vec![((0, 0), chunk.blocks.clone())];
    let mesh = chunk.build_mesh(&world);
    assert!(mesh.vertices.is_empty());
    assert_eq!(mesh.water_vertices.len(), 20);
    assert_eq!(mesh.water_indices.len(), 30);
}

#[test]
fn opaque_faces_show_through_water_but_not_conversely() {
    let stone = Block::new(Position::new(2, 0, 2), (0, 0), BlockType::Stone);
    let water = Block::new(Position::new(2, 1, 2), (0, 0), BlockType::Water);
    let chunk = chunk_of(&[stone, water]);
    let world = vec![((0, 0), chunk.blocks.clone())];
    let mesh = chunk.build_mesh(&world);
    // The stone keeps five faces (its ground face is culled, its top
    // looks into translucent water and stays). The water loses its
    // bottom face against the stone.
    assert_eq!(mesh.vertices.len(), 20);
    assert_eq!(mesh.water_vertices.len(), 20);
}

#[test]
fn visibility_needs_a_corner_in_front_of_every_plane() {
    let all_in = [[true; 4]; 4];
    assert!(is_visible(&all_in));
    // One corner in front of each plane suffices.
    let barely = [
        [true, false, false, false],
        [false, true, false, false],
        [false, false, true, false],
        [false, false, false, true],
    ];
    assert!(is_visible(&barely));
    // Four corners behind the far plane exclude the chunk.
    let behind_far = [
        [false, false, false, false],
        [true, true, true, true],
        [true, true, true, true],
        [true, true, true, true],
    ];
    assert!(!is_visible(&behind_far));
}

#[test]
fn corner_points_span_the_chunk_footprint() {
    let chunk = chunk_of(&[]);
    let corners = chunk.corner_points();
    assert_eq!(corners, [(0, 0), (16, 0), (0, 16), (16, 16)]);
    let far = Chunk {
        x: -2,
        y: 3,
        blocks: empty_grid(),
        outside_blocks: Vec::new(),
        visible: false,
        modified: false,
    };
    assert_eq!(far.corner_points(), [(-32, 48), (-16, 48), (-32, 64), (-16, 64)]);
}
