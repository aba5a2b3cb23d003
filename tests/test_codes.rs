use jrpc::ErrorCode;

#[test]
fn named_codes_are_written_as_their_numbers() {
    assert_eq!(ErrorCode::ParseError.code(), -32700);
    assert_eq!(ErrorCode::InvalidRequest.code(), -32600);
    assert_eq!(ErrorCode::MethodNotFound.code(), -32601);
    assert_eq!(ErrorCode::InvalidParams.code(), -32602);
    assert_eq!(ErrorCode::InternalError.code(), -32603);
    assert_eq!(ErrorCode::ServerError(-32050).code(), -32050);
}

#[test]
fn numbers_are_read_as_codes() {
    assert_eq!(ErrorCode::from(-32700), ErrorCode::ParseError);
    assert_eq!(ErrorCode::from(-32600), ErrorCode::InvalidRequest);
    assert_eq!(ErrorCode::from(-32601), ErrorCode::MethodNotFound);
    assert_eq!(ErrorCode::from(-32602), ErrorCode::InvalidParams);
    assert_eq!(ErrorCode::from(-32603), ErrorCode::InternalError);
    assert_eq!(ErrorCode::from(-32000), ErrorCode::ServerError(-32000));
    assert_eq!(ErrorCode::from(7), ErrorCode::ServerError(7));
}

#[test]
fn code_round_trip() {
    for n in [-32700i64, -32603, -32099, -32000, -1, 0, 42, i64::MIN, i64::MAX] {
        let c = ErrorCode::from_code(n);
        assert_eq!(c.code(), n);
        assert_eq!(ErrorCode::from_code(c.code()), c);
    }
}

#[test]
fn validity_of_codes() {
    assert!(ErrorCode::ParseError.is_valid());
    assert!(ErrorCode::InvalidRequest.is_valid());
    assert!(ErrorCode::MethodNotFound.is_valid());
    assert!(ErrorCode::InvalidParams.is_valid());
    assert!(ErrorCode::InternalError.is_valid());
    assert!(ErrorCode::ServerError(-32000).is_valid());
    assert!(ErrorCode::ServerError(-32099).is_valid());
    assert!(ErrorCode::ServerError(-32050).is_valid());
    assert!(!ErrorCode::ServerError(-31999).is_valid());
    assert!(!ErrorCode::ServerError(-32100).is_valid());
    assert!(!ErrorCode::ServerError(0).is_valid());
}
