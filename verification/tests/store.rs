use core::str::FromStr;
use market_core::store::StoreId;
use market_core::store::StoreName;
use market_core::store::StoreNameError;

#[test]
fn test_store_id() {
    let id = StoreId::new("test").unwrap();
    assert_eq!(id.to_display_string(), "test");
    assert_eq!(StoreId::from_str("test").unwrap(), id);
    assert_eq!(StoreId::try_from("test").unwrap(), id);
    assert_eq!(StoreId::try_from("test".to_string()).unwrap(), id);
}

#[test]
fn test_store_name() {
    let name = StoreName::new("test").unwrap();
    assert_eq!(name.as_str(), "test");
    assert_eq!(StoreName::from_str("test").unwrap(), name);
    assert_eq!(StoreName::try_from("test").unwrap(), name);
    assert_eq!(StoreName::try_from("test".to_string()).unwrap(), name);

    let name = StoreName::new("𐍈".repeat(50).as_str()).unwrap(); // '𐍈' is 4 bytes character
    assert_eq!(name.as_str(), "𐍈".repeat(50));
    assert_eq!(name.to_bytes().len(), 200);
}

#[test]
fn test_store_id_bytes_length() {
    let id = StoreId::new("abc").unwrap();
    let bytes = id.to_bytes();
    assert_eq!(bytes.len(), 2);
}

#[test]
fn test_store_name_too_long() {
    assert_eq!(
        StoreName::new("x".repeat(51).as_str()),
        Err(StoreNameError::TooLong)
    );
    assert!(StoreName::new("x".repeat(50).as_str()).is_ok());
}
