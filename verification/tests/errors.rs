//! The error taxonomy on concrete values.

use tagcore::TagError;

#[test]
fn error_kinds_carry_their_message() {
    let read = TagError::Read(String::from("not a container signature"));
    let io = TagError::Io(String::from("storage could not be opened"));
    assert!(matches!(read, TagError::Read(_)));
    assert!(matches!(io, TagError::Io(_)));
    assert_ne!(read, io);
}
