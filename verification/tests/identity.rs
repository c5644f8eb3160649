use tss_bridge_node::identity::outranks;

#[test]
fn larger_single_byte_outranks() {
    assert!(outranks(&[2], &[1]));
    assert!(!outranks(&[1], &[2]));
}

#[test]
fn equal_identities_do_not_outrank_each_other() {
    assert!(!outranks(&[7, 7], &[7, 7]));
    assert!(!outranks(&[], &[]));
}

#[test]
fn longer_value_outranks_shorter() {
    // 0x0100 = 256 > 255
    assert!(outranks(&[1, 0], &[255]));
    assert!(!outranks(&[255], &[1, 0]));
}

#[test]
fn leading_zeros_do_not_count() {
    assert!(!outranks(&[0, 5], &[5]));
    assert!(!outranks(&[5], &[0, 5]));
    assert!(outranks(&[0, 0, 6], &[5]));
    assert!(outranks(&[6], &[0, 0, 0, 5]));
    assert!(!outranks(&[0, 0, 0], &[]));
}

#[test]
fn first_differing_byte_decides() {
    assert!(outranks(&[1, 2, 3, 9], &[1, 2, 3, 8]));
    assert!(outranks(&[1, 3, 0, 0], &[1, 2, 255, 255]));
    assert!(!outranks(&[1, 2, 255, 255], &[1, 3, 0, 0]));
}

#[test]
fn tie_break_is_symmetric_on_distinct_values() {
    let ids: Vec<Vec<u8>> = vec![
        vec![0x12, 0x20, 0xaa],
        vec![0x12, 0x20, 0xab],
        vec![0xff],
        vec![0x01, 0x00, 0x00, 0x00],
        vec![0x00],
    ];
    for a in ids.iter() {
        for b in ids.iter() {
            if a != b {
                assert_ne!(outranks(a, b), outranks(b, a));
            }
        }
    }
}
