use jrpc::{decode_text, Id};

#[test]
fn test_id() {
    let id: Id = decode_text("1").unwrap();
    assert_eq!(id, Id::Int(1));

    let id: Id = decode_text("\"1\"").unwrap();
    assert_eq!(id, Id::String("1".into()));

    let id: Id = decode_text("null").unwrap();
    assert_eq!(id, Id::Null);
}
