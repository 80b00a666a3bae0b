use minecraft::utils::{ChunkFromPosition, Position, RelativeFromAbsolute};

#[test]
fn should_get_the_correct_chunk_from_position_absolute() {
    let absolute_position = Position::new(17, 0, 20);
    assert_eq!(absolute_position.get_chunk_from_position_absolute(), (1, 1));
    let absolute_position = Position::new(32, 0, 20);
    assert_eq!(absolute_position.get_chunk_from_position_absolute(), (2, 1));
    let absolute_position = Position::new(-5, 0, -20);
    assert_eq!(absolute_position.get_chunk_from_position_absolute(), (-1, -2));
}

#[test]
fn should_get_the_correct_relative_position() {
    let absolute_position = Position::new(17, 0, 20);
    assert_eq!(absolute_position.relative_from_absolute(), Position::new(1, 0, 4));
    let absolute_position = Position::new(-1, 0, -1);
    assert_eq!(absolute_position.relative_from_absolute(), Position::new(15, 0, 15));
}

#[test]
fn round_trip_reconstructs_absolute_position() {
    for &(x, y, z) in &[(17i64, 0i64, 20i64), (-5, 3, -20), (0, 0, 0), (-1, 7, -16), (31, 2, -33)] {
        let p = Position::new(x, y, z);
        let chunk = p.get_chunk_from_position_absolute();
        let rel = p.relative_from_absolute();
        assert_eq!(chunk.0 as i64 * 16 + rel.x, x);
        assert_eq!(chunk.1 as i64 * 16 + rel.z, z);
        if y >= 0 {
            assert_eq!(rel.y, y);
        } else {
            assert_eq!(rel.y, 0);
        }
    }
}

#[test]
fn negative_vertical_component_clamps_to_zero() {
    let p = Position::new(4, -9, 4);
    assert_eq!(p.relative_from_absolute(), Position::new(4, 0, 4));
}
