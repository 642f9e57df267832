use solana_programs::key::Key;

#[test]
fn key_from_bytes_reads_little_endian_words() {
    let mut b = [0u8; 32];
    b[0] = 1;
    b[9] = 2;
    b[31] = 0x80;
    assert_eq!(Key::from_bytes(b), Key(1, 0x200, 0, 0x8000_0000_0000_0000));
    assert!(Key::from_bytes([0; 32]).is_system_program());
    assert!(!Key::from_bytes(b).is_system_program());
    assert_eq!(Key::from_bytes([0xff; 32]), Key(u64::MAX, u64::MAX, u64::MAX, u64::MAX));
}
