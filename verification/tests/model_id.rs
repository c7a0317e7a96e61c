use cozo_pool::layer1::inference::ModelId;
use std::collections::HashMap;

#[test]
fn test_model_id_new_creates_unique_ids() {
    let id1 = ModelId::new();
    let id2 = ModelId::new();

    assert_ne!(id1, id2, "ModelId should generate unique identifiers");
}

#[test]
fn test_model_id_display_formatting() {
    let id = ModelId::new();
    let display_str = id.to_string();

    assert!(!display_str.is_empty(), "ModelId should display as non-empty string");
    assert!(display_str.len() > 30, "ModelId should be UUID-length string");
}

#[test]
fn test_model_id_from_string_conversion() {
    let uuid_str = "550e8400-e29b-41d4-a716-446655440000";
    let model_id = ModelId::from(uuid_str.to_string());

    let display_str = model_id.to_string();
    assert_eq!(display_str, uuid_str, "ModelId should preserve the string it was made from");
}

#[test]
fn test_model_id_to_string_conversion() {
    let model_id = ModelId::new();
    let string_repr: String = model_id.into();

    assert!(!string_repr.is_empty(), "ModelId should convert to string");
    assert!(string_repr.len() > 30, "String representation should be UUID-length");
}

#[test]
fn test_model_id_hash_map_key() {
    let mut map = HashMap::new();
    let id1 = ModelId::new();
    let id2 = ModelId::new();

    map.insert(id1, "model1".to_string());
    map.insert(id2, "model2".to_string());

    assert_eq!(map.len(), 2, "ModelId should work as HashMap key");
}

#[test]
fn test_model_id_clone_and_copy() {
    let first = ModelId::new();
    let cloned = first.clone();
    let copied = first;

    assert_eq!(first, cloned, "ModelId should clone correctly");
    assert_eq!(first, copied, "ModelId should copy correctly");
}

#[test]
fn test_model_id_debug_formatting() {
    let id = ModelId::new();
    let debug_str = format!("{:?}", id);

    assert!(debug_str.contains("ModelId"), "Debug should include type name");
    assert!(!debug_str.is_empty(), "Debug should not be empty");
}

#[test]
fn test_model_id_equality_and_ordering() {
    let id1 = ModelId::from("550e8400-e29b-41d4-a716-446655440000".to_string());
    let id2 = ModelId::from("550e8400-e29b-41d4-a716-446655440000".to_string());
    let id3 = ModelId::from("550e8400-e29b-41d4-a716-446655440001".to_string());

    assert_eq!(id1, id2, "ModelId should be equal for same UUID");
    assert_ne!(id1, id3, "ModelId should be different for different UUIDs");
}

#[test]
fn model_id_from_text_that_is_no_identifier_is_all_zeros() {
    let id = ModelId::from("not an identifier".to_string());
    assert_eq!(id.to_string(), "00000000-0000-0000-0000-000000000000");
}
