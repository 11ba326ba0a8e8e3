use market_core::id::Id;
use market_core::id::IdError;

#[test]
fn test_id_new() {
    let id = Id::new("abc").unwrap();
    assert_eq!(id.to_display_string(), "abc");

    let id = Id::new("abc-123").unwrap();
    assert_eq!(id.to_display_string(), "abc-123");

    let id = Id::new("wiggle-stool").unwrap();
    assert_eq!(id.to_display_string(), "wiggle-stool");

    let id = Id::new("z".repeat(21).as_str()).unwrap();
    assert_eq!(id.to_display_string(), "z".repeat(21));

    assert_eq!(Id::new("id"), Err(IdError::StringTooShort));
    assert_eq!(Id::new("z".repeat(22).as_str()), Err(IdError::StringTooLong));
    assert_eq!(Id::new("id-"), Err(IdError::InvalidHyphenPosition));
    assert_eq!(Id::new("id!"), Err(IdError::InvalidCharacter('!')));
}

#[test]
fn test_id_bytes_size() {
    let id = Id::new("abc").unwrap();
    assert_eq!(id.as_slice().len(), 2);

    let id = Id::new("abc-123").unwrap();
    assert_eq!(id.as_slice().len(), 6);

    let id = Id::new("wiggle-stool").unwrap();
    assert_eq!(id.as_slice().len(), 9);

    let id = Id::new("z".repeat(21).as_str()).unwrap();
    assert_eq!(id.as_slice().len(), 16);
}

#[test]
fn test_id_case_folding() {
    // The catalog identifier folds to lower case before validating.
    let upper = Id::new("ABC-123").unwrap();
    let lower = Id::new("abc-123").unwrap();
    assert_eq!(upper, lower);
    assert_eq!(upper.to_display_string(), "abc-123");
}

#[test]
fn test_id_hyphen_rule() {
    assert_eq!(Id::new("id-"), Err(IdError::InvalidHyphenPosition));
    assert_eq!(Id::new("-id"), Err(IdError::InvalidHyphenPosition));
    assert!(Id::new("i-d").is_ok());
}

#[test]
fn test_id_length_boundaries() {
    assert!(Id::new("abc").is_ok());
    assert_eq!(Id::new("ab"), Err(IdError::StringTooShort));
    assert!(Id::new("a".repeat(21).as_str()).is_ok());
    assert_eq!(Id::new("a".repeat(22).as_str()), Err(IdError::StringTooLong));
}

#[test]
fn test_id_trim() {
    let id = Id::new("  abc \n").unwrap();
    assert_eq!(id, Id::new("abc").unwrap());
}

#[test]
fn test_id_byte_round_trip() {
    let id = Id::new("wiggle-stool").unwrap();
    let id2 = Id::try_from_slice(id.as_slice()).unwrap();
    assert_eq!(id, id2);
    assert_eq!(id2.to_display_string(), "wiggle-stool");

    let id3 = Id::from_slice(id.as_slice());
    assert_eq!(id, id3);
}

#[test]
fn test_id_byte_bounds() {
    assert_eq!(Id::try_from_slice(&[7u8]), Err(IdError::BytesTooShort));
    assert_eq!(Id::try_from_slice(&[0u8; 17]), Err(IdError::BytesTooLong));
    assert!(Id::try_from_slice(&[0u8; 16]).is_ok());
}

#[test]
fn test_id_ordering_prefix() {
    let short = Id::new("abc").unwrap();
    let long = Id::new("abcd").unwrap();
    assert!(short < long);
}

#[test]
fn test_id_ordering_is_over_packed_bytes() {
    // Ordering reads the packed buffer byte-wise.  Each byte holds a code
    // in its low bits and the next code's low bits above it, so the order
    // can differ from plain string order between non-prefix strings: the
    // second character of "aca" outweighs the first.
    let a = Id::new("aca").unwrap();
    let b = Id::new("baa").unwrap();
    assert!(a > b);
    // Prefixes always order below their extensions, though.
    assert!(Id::new("aca").unwrap() < Id::new("acab").unwrap());
}

#[test]
fn test_id_non_ascii_rejected() {
    assert_eq!(Id::new("idé"), Err(IdError::InvalidCharacter('é')));
}
