use core::str::FromStr;
use market_core::actor::id::ActorId;
use market_core::actor::id::ActorIdError;

#[test]
fn test_actor_id_new() {
    let id = ActorId::new("test").unwrap();
    assert_eq!(id.to_display_string(), "test");

    let id = ActorId::new("Anthol_User").unwrap();
    assert_eq!(id.to_display_string(), "Anthol_User");

    let id = ActorId::new("Anthol_User-123").unwrap();
    assert_eq!(id.to_display_string(), "Anthol_User-123");

    let id = ActorId::new("AntholUser_").unwrap();
    assert_eq!(id.to_display_string(), "AntholUser_");

    let id = ActorId::new("z".repeat(24).as_str()).unwrap();
    assert_eq!(id.to_display_string(), "z".repeat(24));

    assert_eq!(ActorId::new("id"), Err(ActorIdError::StringTooShort));

    assert_eq!(
        ActorId::new("z".repeat(25).as_str()),
        Err(ActorIdError::StringTooLong)
    );

    assert_eq!(ActorId::new("id!"), Err(ActorIdError::InvalidCharacter('!')));

    assert_eq!(
        ActorId::new("アイディー"),
        Err(ActorIdError::InvalidCharacter('ア'))
    );
}

#[test]
fn test_id_from_str() {
    let id = ActorId::from_str("Anthol_User").unwrap();
    assert_eq!(id.to_display_string(), "Anthol_User");

    let id = ActorId::from_str("Anthol_User-123").unwrap();
    assert_eq!(id.to_display_string(), "Anthol_User-123");
}

#[test]
fn test_id_try_from_slice() {
    let id = ActorId::new("Anthol_User").unwrap();
    let bytes = id.as_slice();
    let id2 = ActorId::try_from(bytes).unwrap();
    assert_eq!(id, id2);
    assert_eq!(id.to_display_string(), id2.to_display_string());
}

#[test]
fn test_id_equality() {
    let id1 = ActorId::new("Anthol_User").unwrap();
    let id2 = ActorId::new("anthol_user").unwrap();
    assert_eq!(id1, id2);

    let id1 = ActorId::new("Anthol_User").unwrap();
    let id2 = ActorId::new("Anthol_User-123").unwrap();
    assert_ne!(id1, id2);
}

#[test]
fn test_id_ordering() {
    let id1 = ActorId::new("Anthol_User").unwrap();
    let id2 = ActorId::new("anthol_user").unwrap();
    assert_eq!(id1, id2);

    let id1 = ActorId::new("Anthol_User").unwrap();
    let id2 = ActorId::new("Anthol_User-123").unwrap();
    assert!(id1 < id2);
}

#[test]
fn test_actor_id_trim_and_bitmap() {
    // Surrounding whitespace is dropped; interior case is kept exactly.
    let id = ActorId::new("  MiXeD-CaSe_09  ").unwrap();
    assert_eq!(id.to_display_string(), "MiXeD-CaSe_09");

    // The binary surface reconstructs the identifier, case included.
    let id2 = ActorId::try_from_slice(id.as_slice()).unwrap();
    assert_eq!(id2.to_display_string(), "MiXeD-CaSe_09");
}

#[test]
fn test_actor_id_length_boundaries() {
    assert!(ActorId::new("abc").is_ok());
    assert_eq!(ActorId::new("ab"), Err(ActorIdError::StringTooShort));
    assert!(ActorId::new("a".repeat(24).as_str()).is_ok());
    assert_eq!(
        ActorId::new("a".repeat(25).as_str()),
        Err(ActorIdError::StringTooLong)
    );
}

#[test]
fn test_actor_id_byte_bounds() {
    assert_eq!(
        ActorId::try_from_slice(&[0u8, 0]),
        Err(ActorIdError::BytesTooShort)
    );
    assert_eq!(
        ActorId::try_from_slice(&[0u8; 22]),
        Err(ActorIdError::BytesTooLong)
    );
    assert!(ActorId::try_from_slice(&[0u8; 21]).is_ok());
}

#[test]
fn test_actor_id_ordering_is_case_blind() {
    // The case bitmap differs, the packed codes do not: not Less, not
    // Greater, exactly Equal.
    let a = ActorId::new("ABCDEF").unwrap();
    let b = ActorId::new("abcdef").unwrap();
    assert_eq!(a.partial_cmp(&b), Some(core::cmp::Ordering::Equal));

    // A strict prefix orders below the longer identifier whatever the case.
    let short = ActorId::new("abc").unwrap();
    let long = ActorId::new("ABCD").unwrap();
    assert!(short < long);
}
