use gitui::commit::CommitId;

#[test]
fn short_string_is_seven_lowercase_hex_digits() {
    let id = CommitId::new(vec![
        0xd3, 0x4d, 0xb3, 0x3f, 0x00, 0x11, 0x22, 0x33, 0x44, 0x55, 0x66, 0x77, 0x88, 0x99,
        0xaa, 0xbb, 0xcc, 0xdd, 0xee, 0xff,
    ]);
    assert_eq!(id.get_short_string(), "d34db33");
    assert_eq!(id.to_hex_string(), "d34db33f00112233445566778899aabbccddeeff");
}

#[test]
fn short_string_of_a_short_id_is_all_of_it() {
    assert_eq!(CommitId::new(vec![0x0a, 0xb0]).get_short_string(), "0ab0");
    assert_eq!(CommitId::new(vec![]).get_short_string(), "");
    assert_eq!(CommitId::new(vec![1, 2, 3, 4]).get_short_string(), "0102030");
}
