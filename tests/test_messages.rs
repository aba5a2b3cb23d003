use jrpc::{
    decode_text, encode_text, is_reserved_method, Error, ErrorCode, Id, IdReq, Json, JsonCodec,
    Request, Response, Success, V2_0,
};

fn s(t: &str) -> String {
    t.to_string()
}

#[test]
fn version_marker_accepts_only_exact_string() {
    assert!(V2_0::from_json(&Json::Str(s("2.0"))).is_ok());
    for bad in [Json::Str(s("2")), Json::Str(s("2.0.0")), Json::Num(s("2.0")), Json::Int(2), Json::Null] {
        let e = V2_0::from_json(&bad).unwrap_err();
        assert!(e.starts_with("expected exactly \"2.0\", found "), "{}", e);
    }
    let e = V2_0::from_json(&Json::Str(s("2"))).unwrap_err();
    assert_eq!(e, "expected exactly \"2.0\", found \"2\"");
    let e = V2_0::from_json(&Json::Num(s("2.0"))).unwrap_err();
    assert_eq!(e, "expected exactly \"2.0\", found 2.0");
    assert_eq!(encode_text(&V2_0.to_json()), "\"2.0\"");
}

#[test]
fn version_marker_in_text() {
    let ok: Result<Request<String, Json>, String> =
        Request::from_str(r#"{"jsonrpc":"2.0","method":"a"}"#);
    assert!(ok.is_ok());
    for text in [
        r#"{"jsonrpc":"2","method":"a"}"#,
        r#"{"jsonrpc":"2.0.0","method":"a"}"#,
        r#"{"jsonrpc":2.0,"method":"a"}"#,
    ] {
        let e = Request::<String, Json>::from_str(text).unwrap_err();
        assert!(e.contains("\"2.0\""), "{}", e);
    }
    let e = Request::<String, Json>::from_str(r#"{"method":"a"}"#).unwrap_err();
    assert_eq!(e, "missing field `jsonrpc`, expected exactly \"2.0\"");
}

#[test]
fn notification_omits_id_and_null_id_is_kept() {
    let n: Request<String, ()> = Request::new(IdReq::Notification, s("NotifyFoo"));
    assert_eq!(n.to_string(), r#"{"jsonrpc":"2.0","method":"NotifyFoo"}"#);
    let m: Request<String, ()> = Request::new(IdReq::Null, s("CreateFoo"));
    assert_eq!(m.to_string(), r#"{"jsonrpc":"2.0","method":"CreateFoo","id":null}"#);

    let absent: Request<String, Json> =
        Request::from_str(r#"{"jsonrpc":"2.0","method":"NotifyFoo"}"#).unwrap();
    assert_eq!(absent.id, IdReq::Notification);
    let null: Request<String, Json> =
        Request::from_str(r#"{"jsonrpc":"2.0","method":"CreateFoo","id":null}"#).unwrap();
    assert_eq!(null.id, IdReq::Null);
    assert_ne!(absent.id, null.id);
    assert_eq!(null.method, "CreateFoo");
    assert!(null.params.is_none());
}

#[test]
fn request_round_trip_with_params() {
    let text = r#"{"jsonrpc":"2.0","method":"CreateFoo","params":[1,2,3],"id":"x"}"#;
    let r: Request<String, Vec<u32>> = Request::from_str(text).unwrap();
    assert_eq!(r.params, Some(vec![1, 2, 3]));
    assert_eq!(r.id, IdReq::String(s("x")));
    assert_eq!(r.to_string(), text);
}

#[test]
fn success_response_round_trip() {
    let text = r#"{"jsonrpc":"2.0","result":[1,2,3],"id":4}"#;
    let r: Response<Vec<i64>> = Response::from_str(text).unwrap();
    match &r {
        Response::Success(ok) => {
            assert_eq!(ok.result, vec![1, 2, 3]);
            assert_eq!(ok.id, Id::Int(4));
        }
        Response::Error(_) => panic!("expected a success"),
    }
    assert_eq!(r.id(), &Id::Int(4));
    assert_eq!(r.to_string(), text);
    let built = Response::success(Id::from(4), vec![1i64, 2, 3]);
    assert_eq!(built.to_string(), text);
    assert_eq!(Success::new(Id::from(4), vec![1u32, 2, 3]).to_string(), text);
}

#[test]
fn error_response_with_server_code() {
    let text = r#"{"jsonrpc":"2.0","error":{"code":-32000,"message":"BadIndexes","data":[1,2,3]},"id":4}"#;
    let r: Response<Vec<i64>> = Response::from_str(text).unwrap();
    match &r {
        Response::Error(e) => {
            assert_eq!(e.error.code, ErrorCode::ServerError(-32000));
            assert_eq!(e.error.message, "BadIndexes");
            assert_eq!(
                e.error.data,
                Some(Json::Array(vec![Json::Int(1), Json::Int(2), Json::Int(3)]))
            );
            assert_eq!(e.id, Id::Int(4));
        }
        Response::Success(_) => panic!("expected an error"),
    }
    assert_eq!(r.to_string(), text);
    let e: Error<Vec<u32>> = Error::from_str(text).unwrap();
    assert_eq!(e.error.data, Some(vec![1, 2, 3]));
    let built: Error<Vec<u32>> =
        Error::new(Id::from(4), ErrorCode::from(-32000), s("BadIndexes"), Some(vec![1, 2, 3]));
    assert_eq!(built.to_string(), text);
}

#[test]
fn error_without_data() {
    let r: Response<Json> = Response::error(Id::Null, ErrorCode::InternalError, s("oops"), None);
    assert_eq!(r.to_string(), r#"{"jsonrpc":"2.0","error":{"code":-32603,"message":"oops"},"id":null}"#);
    let back: Error<Json> = Error::from_str(&r.to_string()).unwrap();
    assert!(back.error.data.is_none());
    let null_data: Error<Json> =
        Error::from_str(r#"{"jsonrpc":"2.0","error":{"code":1,"message":"m","data":null},"id":1}"#).unwrap();
    assert!(null_data.error.data.is_none());
    assert_eq!(null_data.error.code, ErrorCode::ServerError(1));
}

#[test]
fn success_refuses_unknown_members() {
    let e = Success::<i64>::from_str(r#"{"jsonrpc":"2.0","result":1,"id":1,"extra":0}"#).unwrap_err();
    assert_eq!(e, "unknown field `extra`");
    let e = Success::<i64>::from_str(r#"{"jsonrpc":"2.0","result":1}"#).unwrap_err();
    assert_eq!(e, "missing field `id`");
    assert!(Error::<Json>::from_str(r#"{"jsonrpc":"2.0","error":{"code":1,"message":"m"},"id":1,"x":1}"#).is_err());
}

#[test]
fn id_decoding() {
    assert_eq!(decode_text::<Id>("\"foo\"").unwrap(), Id::String(s("foo")));
    assert_eq!(decode_text::<Id>("-5").unwrap(), Id::Int(-5));
    let e = decode_text::<Id>("4.5").unwrap_err();
    assert_eq!(e, "id is a non-i64 number: 4.5");
    assert!(decode_text::<Id>("18446744073709551615").is_err());
    assert!(decode_text::<Id>("true").is_err());
    assert!(decode_text::<Id>("[1]").is_err());
    assert_eq!(IdReq::from(Id::Int(3)), IdReq::Int(3));
    assert_eq!(IdReq::Int(3).to_id(), Some(Id::Int(3)));
    assert_eq!(IdReq::Null.to_id(), Some(Id::Null));
    assert_eq!(IdReq::Notification.to_id(), None);
    assert_eq!(Id::from(s("a")), Id::String(s("a")));
}

#[test]
fn json_text_errors_are_reported() {
    let e = decode_text::<Json>("{").unwrap_err();
    assert!(!e.is_empty());
    let j: Json = decode_text(r#"{"b":1,"a":[true,null,"x",1.5]}"#).unwrap();
    assert_eq!(encode_text(&j), r#"{"b":1,"a":[true,null,"x",1.5]}"#);
}

#[test]
fn reserved_method_names() {
    assert!(is_reserved_method("rpc.discover"));
    assert!(is_reserved_method("rpc."));
    assert!(!is_reserved_method("rpc"));
    assert!(!is_reserved_method("rpcx.a"));
    assert!(!is_reserved_method("CreateFoo"));
    assert!(!is_reserved_method(""));
}

#[test]
fn response_shapes_exclude_each_other() {
    let ok = r#"{"jsonrpc":"2.0","result":null,"id":1}"#;
    let err = r#"{"jsonrpc":"2.0","error":{"code":-32600,"message":"m"},"id":1}"#;
    assert!(Success::<Json>::from_str(ok).is_ok());
    assert!(Error::<Json>::from_str(ok).is_err());
    assert!(Error::<Json>::from_str(err).is_ok());
    assert!(Success::<Json>::from_str(err).is_err());
}

#[test]
fn request_read_names_the_marker() {
    let j: Json = decode_text(r#"{"jsonrpc":"1.0","method":"a"}"#).unwrap();
    let e = Request::<String, Json>::read(&j).unwrap_err();
    assert_eq!(e, "expected exactly \"2.0\", found \"1.0\"");
}
