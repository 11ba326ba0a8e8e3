use market_core::item::tag::Tag;
use market_core::item::tag::TagCreationError;

#[test]
fn test_tag_new_lowercases() {
    // Stored lower-case: would fail if the lower-casing wrapper handed its
    // argument back unchanged.
    let tag = Tag::new("Garden FURNITURE").unwrap();
    assert_eq!(tag.as_str(), "garden furniture");
}

#[test]
fn test_tag_new_adjusts_whitespace() {
    let tag = Tag::new("  garden \t  furniture \n").unwrap();
    assert_eq!(tag.as_str(), "garden furniture");
}

#[test]
fn test_tag_new_rejects_empty() {
    assert_eq!(
        Tag::new("   "),
        Err(TagCreationError::TagEmpty(String::new()))
    );
}

#[test]
fn test_tag_new_rejects_long() {
    let long = "x".repeat(49);
    assert_eq!(
        Tag::new(long.as_str()),
        Err(TagCreationError::TagTooLong(long))
    );
    assert!(Tag::new("x".repeat(48).as_str()).is_ok());
}

#[test]
fn test_tag_new_rejects_symbols() {
    assert_eq!(
        Tag::new("a+b"),
        Err(TagCreationError::TagInvalidCharacters("a+b".to_string()))
    );
    // The underscore is the one ASCII symbol a tag may hold.
    assert!(Tag::new("a_b").is_ok());
}

#[test]
fn test_tag_to_url() {
    // Spaces become hyphens; would fail if the URL-encoding wrapper handed
    // its argument back unchanged on non-ASCII input.
    let tag = Tag::new("garden furniture").unwrap();
    assert_eq!(tag.to_url(), "garden-furniture");

    let tag = Tag::new("café chairs").unwrap();
    assert_eq!(tag.to_url(), "caf%C3%A9-chairs");
}

#[test]
fn test_tag_display_title_case() {
    // Would fail if the title-case wrapper handed its argument back
    // unchanged.
    let tag = Tag::new("garden furniture").unwrap();
    assert_eq!(tag.to_display_string(), "Garden Furniture");
}
