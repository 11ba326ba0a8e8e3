use market_core::item::attr::AttrKeys;
use market_core::item::attr::AttrKeysError;

#[test]
fn test_attr_keys_new_get() {
    let keys = AttrKeys::new(1, 2, 3, 4);
    assert_eq!(keys.get(0), 1);
    assert_eq!(keys.get(3), 4);
}

#[test]
fn test_attr_keys_replace() {
    let keys = AttrKeys::new(1, 2, 3, 4);
    let replaced = keys.replace(2, &9).unwrap();
    assert_eq!(replaced, AttrKeys::new(1, 2, 9, 4));
    assert_eq!(keys.replace(4, &9), Err(AttrKeysError::IndexOutOfRange));
}

#[test]
fn test_attr_keys_u32_round_trip() {
    let keys = AttrKeys::new(0x78, 0x56, 0x34, 0x12);
    assert_eq!(u32::from(keys), 0x12345678u32);
    assert_eq!(AttrKeys::from(0x12345678u32), keys);
}

#[test]
fn test_attr_keys_from_hex() {
    assert_eq!(
        AttrKeys::from_hex("12345678").unwrap(),
        AttrKeys::new(0x78, 0x56, 0x34, 0x12)
    );
    assert_eq!(
        AttrKeys::from_hex("+Ff").unwrap(),
        AttrKeys::new(0xff, 0, 0, 0)
    );
    assert_eq!(AttrKeys::from_hex(""), Err(AttrKeysError::EmptyHex));
    assert_eq!(AttrKeys::from_hex("+"), Err(AttrKeysError::EmptyHex));
    assert_eq!(
        AttrKeys::from_hex("12x4"),
        Err(AttrKeysError::InvalidHexDigit('x'))
    );
    assert_eq!(
        AttrKeys::from_hex("fffffffff"),
        Err(AttrKeysError::HexOverflow)
    );
}
