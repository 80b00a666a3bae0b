use minecraft::block::FaceDirections;
use minecraft::block_type::{
    get_base_coords, get_tex_coords, BlockType, BlockTypeConfigs, FaceTexture,
};

#[test]
fn ids_round_trip_for_every_type() {
    let all = [
        BlockType::Grass,
        BlockType::Dirt,
        BlockType::Water,
        BlockType::Wood,
        BlockType::Leaf,
        BlockType::Stone,
        BlockType::Sand,
    ];
    for t in all {
        assert_eq!(BlockType::from_id(t.to_id()), t);
    }
}

#[test]
fn config_table_matches_the_fixed_assignment() {
    assert_eq!(BlockType::Grass.to_id(), 0);
    assert_eq!(BlockType::Dirt.to_id(), 1);
    assert_eq!(BlockType::Water.to_id(), 2);
    assert_eq!(BlockType::Wood.to_id(), 3);
    assert_eq!(BlockType::Leaf.to_id(), 4);
    assert_eq!(BlockType::Stone.to_id(), 5);
    assert_eq!(BlockType::Sand.to_id(), 6);
    assert!(BlockType::Water.get_config().is_translucent);
    assert!(!BlockType::Grass.get_config().is_translucent);
    assert!(!BlockType::Stone.get_config().is_translucent);
    let grass = BlockTypeConfigs::get(BlockType::Grass);
    assert_eq!(grass.textures, [FaceTexture(6), FaceTexture(7), FaceTexture(8)]);
    let wood = BlockTypeConfigs::get(BlockType::Wood);
    assert_eq!(wood.textures, [FaceTexture(4), FaceTexture(5), FaceTexture(5)]);
}

#[test]
fn stratification_outside_the_blend_bands_is_fixed() {
    // At or below the water level everything is sand.
    assert_eq!(BlockType::from_position(3, 0, 3), BlockType::Sand);
    assert_eq!(BlockType::from_position(3, 5, 3), BlockType::Sand);
    // Between the sand band and the stone band: dirt.
    assert_eq!(BlockType::from_position(3, 10, 3), BlockType::Dirt);
    assert_eq!(BlockType::from_position(3, 14, 3), BlockType::Dirt);
    // Above the stone band: stone.
    assert_eq!(BlockType::from_position(3, 25, 3), BlockType::Stone);
    assert_eq!(BlockType::from_position(3, 80, 3), BlockType::Stone);
}

#[test]
fn blend_bands_choose_between_the_two_candidates() {
    for y in 6..=7 {
        let t = BlockType::from_position(4, y, 9);
        assert!(t == BlockType::Sand || t == BlockType::Dirt);
    }
    for y in 15..=24 {
        let t = BlockType::from_position(4, y, 9);
        assert!(t == BlockType::Dirt || t == BlockType::Stone);
    }
}

#[test]
fn classification_is_deterministic() {
    for y in 0..30 {
        for x in 0..4 {
            assert_eq!(BlockType::from_position(x, y, 11), BlockType::from_position(x, y, 11));
        }
    }
}

#[test]
fn texture_coordinates_come_in_atlas_cells() {
    // Dirt uses texture 0 on every face: column 0, row 0, lower bound one
    // cell down.
    let dirt = BlockType::Dirt.get_config();
    assert_eq!(get_base_coords(&dirt, FaceDirections::Top), (0, 1));
    assert_eq!(
        get_tex_coords(&dirt, FaceDirections::Front),
        [[0, 1], [0, 0], [1, 0], [1, 1]]
    );
    // Grass: lateral 6, top 7, bottom 8 (8 wraps to the second atlas row).
    let grass = BlockType::Grass.get_config();
    assert_eq!(get_base_coords(&grass, FaceDirections::Left), (6, 1));
    assert_eq!(get_base_coords(&grass, FaceDirections::Top), (7, 1));
    assert_eq!(get_base_coords(&grass, FaceDirections::Bottom), (0, 2));
    assert_eq!(
        get_tex_coords(&grass, FaceDirections::Bottom),
        [[0, 2], [0, 1], [1, 1], [1, 2]]
    );
    // Sand uses texture 9: column 1 of the second row.
    let sand = BlockType::Sand.get_config();
    assert_eq!(get_base_coords(&sand, FaceDirections::Right), (1, 2));
}
