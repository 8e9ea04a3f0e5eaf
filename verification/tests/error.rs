use qdrant_embedded::EmbeddedError;

#[test]
fn error_messages() {
    assert_eq!(EmbeddedError::CollectionNotFound("test".to_string()).message(), "Collection not found: test");
    assert_eq!(EmbeddedError::InvalidConfig("bad".to_string()).message(), "Invalid configuration: bad");
    assert_eq!(EmbeddedError::Storage("x".to_string()).message(), "Storage error: x");
    assert_eq!(EmbeddedError::Operation("y".to_string()).message(), "Operation error: y");
    assert_eq!(EmbeddedError::Io("z".to_string()).message(), "IO error: z");
}
