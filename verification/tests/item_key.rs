use market_core::item::key::ItemKey;

#[test]
fn test_item_key() {
    let key = ItemKey::from(9525480706759653391u64);
    let bytes = key.to_bytes();
    let key2 = ItemKey::from_bytes(bytes.as_slice());
    assert_eq!(key, key2);
}

#[test]
fn test_item_key_bytes_length() {
    let key = ItemKey::from(1419349344772532485u64);
    let bytes = key.to_bytes();
    assert_eq!(bytes.len(), 8);
}

#[test]
fn test_item_key_from_entropy() {
    let mut entropy = [0u8; 32];
    let mut i: usize = 0;
    while i < 32 {
        entropy[i] = i as u8 + 1;
        i += 1;
    }
    // Little-endian assembly of the first eight bytes.
    let key = ItemKey::from_entropy(&entropy);
    assert_eq!(key.0, 0x0807060504030201u64);

    let keys = ItemKey::four_from_entropy(&entropy);
    assert_eq!(keys[0].0, 0x0807060504030201u64);
    assert_eq!(keys[1].0, 0x100f0e0d0c0b0a09u64);
    assert_eq!(keys[2].0, 0x1817161514131211u64);
    assert_eq!(keys[3].0, 0x201f1e1d1c1b1a19u64);
}

#[test]
fn test_item_key_stored_form_is_big_endian() {
    let key = ItemKey::from(0x0102030405060708u64);
    assert_eq!(key.to_bytes(), vec![1u8, 2, 3, 4, 5, 6, 7, 8]);
}
