use md2_digest::sbox::PI_SUB;

#[test]
fn table_is_a_permutation() {
    let mut seen = [false; 256];
    for entry in PI_SUB {
        assert!(!seen[entry as usize]);
        seen[entry as usize] = true;
    }
    assert!(seen.iter().all(|&s| s));
}

#[test]
fn table_starts_and_ends_as_published() {
    assert_eq!(PI_SUB[0], 41);
    assert_eq!(PI_SUB[1], 46);
    assert_eq!(PI_SUB[16], 98);
    assert_eq!(PI_SUB[254], 131);
    assert_eq!(PI_SUB[255], 20);
}
