use jrpc::{from_str, parse_request, DeResultError, ErrorCode, Id, IdReq, Json, Response};

#[test]
fn parse_request_well_formed() {
    let json = r#"
    {
        "jsonrpc": "2.0",
        "method": "CreateFoo",
        "params": [1,2,3],
        "id": 4
    }
    "#;
    let r = parse_request::<String>(json).unwrap();
    assert_eq!(r.method, "CreateFoo");
    assert_eq!(r.id, IdReq::Int(4));
    assert_eq!(r.params, Some(Json::Array(vec![Json::Int(1), Json::Int(2), Json::Int(3)])));
}

#[test]
fn parse_request_not_json() {
    let e = parse_request::<String>("\nNot Valid JSON...\n").unwrap_err();
    assert_eq!(e.error.code, ErrorCode::ParseError);
    assert_eq!(e.id, Id::Null);
    assert!(e.error.data.is_none());
    assert!(!e.error.message.is_empty());
}

#[test]
fn parse_request_not_an_envelope() {
    let json = r#"{"type": "valid json", "but": "not jsonrpc!"}"#;
    let e = parse_request::<String>(json).unwrap_err();
    assert_eq!(e.error.code, ErrorCode::InvalidRequest);
    assert!(e.error.message.contains("missing field `jsonrpc`"));
    assert_eq!(e.id, Id::Null);
}

#[test]
fn parse_request_bad_id_is_invalid_request() {
    let json = r#"{"jsonrpc":"2.0","method":"One","id":4.5}"#;
    let e = parse_request::<String>(json).unwrap_err();
    assert_eq!(e.error.code, ErrorCode::InvalidRequest);
    assert_eq!(e.id, Id::Null);
}

#[test]
fn parse_request_unknown_method() {
    let json = r#"{"jsonrpc":"2.0","method":"Three","params":[1,2,3],"id":4}"#;
    // Methods numbered by integers: a name is no method of theirs.
    let e = parse_request::<u32>(json).unwrap_err();
    assert_eq!(e.error.code, ErrorCode::MethodNotFound);
    assert!(e.error.message.contains("invalid type"));
    assert_eq!(e.id, Id::Int(4));
    let named = r#"{"jsonrpc":"2.0","method":"Three","id":"a"}"#;
    assert_eq!(parse_request::<u32>(named).unwrap_err().id, Id::String("a".to_string()));
    let null = r#"{"jsonrpc":"2.0","method":"Three","id":null}"#;
    assert_eq!(parse_request::<u32>(null).unwrap_err().id, Id::Null);
    let note = r#"{"jsonrpc":"2.0","method":"Three"}"#;
    assert_eq!(parse_request::<u32>(note).unwrap_err().id, Id::Null);
    let ok = parse_request::<u32>(r#"{"jsonrpc":"2.0","method":2,"id":"a"}"#).unwrap();
    assert_eq!(ok.method, 2);
    assert_eq!(ok.id, IdReq::String("a".to_string()));
}

#[test]
fn from_str_success_and_error() {
    let r = from_str::<Vec<i64>>(r#"{"jsonrpc":"2.0","result":[1,2,3],"id":4}"#).unwrap();
    assert!(matches!(r, Response::Success(ref s) if s.result == vec![1, 2, 3]));
    let text = r#"{"jsonrpc":"2.0","error":{"code":-32000,"message":"BadIndexes","data":[1,2,3]},"id":4}"#;
    let r = from_str::<Vec<i64>>(text).unwrap();
    assert!(matches!(r, Response::Error(ref e) if e.error.code == ErrorCode::ServerError(-32000)));
    let r = from_str::<String>(r#"{"jsonrpc":"2.0","error":{"code":-32601,"message":"m"},"id":"q"}"#).unwrap();
    assert!(matches!(r, Response::Error(ref e) if e.error.code == ErrorCode::MethodNotFound));
}

#[test]
fn from_str_invalid_json() {
    let d = from_str::<Json>("Not Valid JSON...").unwrap_err();
    assert!(matches!(d, DeResultError::InvalidJson(_)));
    assert!(d.hint().starts_with("Invalid JSON: "));
}

#[test]
fn from_str_not_an_object() {
    let d = from_str::<Json>("[1,2]").unwrap_err();
    assert!(matches!(d, DeResultError::NotAnObject(_)));
    assert_eq!(d.hint(), "Not an object: [1,2]");
}

#[test]
fn from_str_jsonrpc_problems() {
    let d = from_str::<Json>(r#"{"result":1,"id":1}"#).unwrap_err();
    assert!(matches!(d, DeResultError::JsonrpcMissing));
    assert_eq!(d.hint(), "jsonrpc attribute does not exist");
    let d = from_str::<Json>(r#"{"jsonrpc":"1.0","result":1,"id":1}"#).unwrap_err();
    assert!(matches!(d, DeResultError::JsonrpcIncorrect(_)));
    assert_eq!(d.hint(), "jsonrpc attribute is the incorrect value: \"1.0\"");
}

#[test]
fn from_str_id_problems() {
    let d = from_str::<Json>(r#"{"jsonrpc":"2.0","result":1}"#).unwrap_err();
    assert!(matches!(d, DeResultError::IdMissing));
    assert_eq!(d.hint(), "id does not exist");
    let d = from_str::<Json>(r#"{"jsonrpc":"2.0","result":1,"id":4.5}"#).unwrap_err();
    assert!(matches!(d, DeResultError::IdNotInteger(ref t) if t == "4.5"));
    assert_eq!(d.hint(), "id is a non-i64 number: 4.5");
    let d = from_str::<Json>(r#"{"jsonrpc":"2.0","result":1,"id":[1]}"#).unwrap_err();
    assert!(matches!(d, DeResultError::IdInvalidType(_)));
    assert_eq!(d.hint(), "id is not a valid type: [1]");
}

#[test]
fn from_str_result_and_error() {
    let text = r#"{"jsonrpc":"2.0","result":1,"error":{"code":1,"message":"m"},"id":1}"#;
    let d = from_str::<Json>(text).unwrap_err();
    assert!(matches!(d, DeResultError::ResultAndError));
    assert_eq!(d.hint(), "both `result` and `error` fields are present");
}

#[test]
fn from_str_extra_keys_sorted() {
    let text = r#"{"jsonrpc":"2.0","result":1,"id":1,"zeta":0,"alpha":0,"Beta":0}"#;
    let d = from_str::<Json>(text).unwrap_err();
    match &d {
        DeResultError::ExtraKeys(keys) => assert_eq!(keys, &vec!["Beta".to_string(), "alpha".to_string(), "zeta".to_string()]),
        other => panic!("unexpected {:?}", other),
    }
    assert_eq!(d.hint(), "Extra keys are present: [\"Beta\", \"alpha\", \"zeta\"]");
}

#[test]
fn from_str_unmatched() {
    let d = from_str::<i64>(r#"{"jsonrpc":"2.0","result":"text","id":1}"#).unwrap_err();
    assert!(matches!(d, DeResultError::Unmatched(_)));
    assert!(d.hint().starts_with("Could not deserialize into either Response or Error. Possible cause:\n"));
    let d = from_str::<Json>(r#"{"jsonrpc":"2.0","id":1}"#).unwrap_err();
    assert!(matches!(d, DeResultError::Unmatched(_)));
}
