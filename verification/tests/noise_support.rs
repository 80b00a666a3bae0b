use minecraft::noise::{
    create_permutation_table, get_corner_consts, gradient_hash, shuffle, WRAP,
};

#[test]
fn permutation_table_is_a_doubled_permutation() {
    let table = create_permutation_table();
    assert_eq!(table.len(), 2 * WRAP as usize);
    for &v in &table {
        assert!(v < WRAP);
    }
    for i in (WRAP as usize)..table.len() {
        assert_eq!(table[i], table[i - WRAP as usize]);
    }
    let mut first_half: Vec<u32> = table[..WRAP as usize].to_vec();
    first_half.sort();
    let identity: Vec<u32> = (0..WRAP).collect();
    assert_eq!(first_half, identity);
}

#[test]
fn permutation_table_is_identical_across_callers() {
    assert_eq!(create_permutation_table(), create_permutation_table());
}

#[test]
fn shuffle_keeps_exactly_the_input_values() {
    let mut v: Vec<u32> = vec![5, 5, 7, 1, 9];
    shuffle(&mut v);
    assert_eq!(v.len(), 5);
    let mut sorted = v.clone();
    sorted.sort();
    assert_eq!(sorted, vec![1, 5, 5, 7, 9]);
}

#[test]
fn gradient_hash_follows_the_table() {
    let table = create_permutation_table();
    for &(gx, gy, per) in &[(0u32, 0u32, 256u32), (300, 7, 256), (12, 999, 32), (511, 511, 1)] {
        let h = gradient_hash(&table, gx, gy, per);
        let expected = table[(table[(gx % per) as usize] + gy % per) as usize];
        assert_eq!(h, expected);
        assert!(h < WRAP);
    }
}

#[test]
fn corner_consts_cycle_through_four_diagonals() {
    assert_eq!(get_corner_consts(0), (1, 1));
    assert_eq!(get_corner_consts(1), (-1, 1));
    assert_eq!(get_corner_consts(2), (-1, -1));
    assert_eq!(get_corner_consts(3), (1, -1));
    assert_eq!(get_corner_consts(7), (1, -1));
    assert_eq!(get_corner_consts(256), (1, 1));
}
