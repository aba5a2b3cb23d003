//! The error codes of the protocol and their numbers.
use vstd::prelude::*;

verus! {

/// A number that tells which kind of error occurred. It is always an integer.
///
/// The codes from -32768 to -32000 are reserved for errors that the protocol
/// defines. Five of them have names; the others, and any code a server picks
/// for itself, are carried by `ServerError`. Use [`ErrorCode::is_valid`] to see
/// whether a code lies in the band reserved for server errors.
#[derive(Debug, Clone, Copy, PartialEq, Eq, Structural, Hash, PartialOrd, Ord)]
pub enum ErrorCode {
    /// `-32700`: the text received is not valid JSON.
    ParseError,
    /// `-32600`: the JSON sent is not a valid Request object.
    InvalidRequest,
    /// `-32601`: the method does not exist or is not available.
    MethodNotFound,
    /// `-32602`: the method's parameters are invalid.
    InvalidParams,
    /// `-32603`: an internal error of the protocol layer.
    InternalError,
    /// Any other code; `-32099` to `-32000` are reserved for server errors.
    ServerError(i64),
}

pub const PARSE_ERROR: i64 = -32700;
pub const INVALID_REQUEST: i64 = -32600;
pub const METHOD_NOT_FOUND: i64 = -32601;
pub const INVALID_PARAMS: i64 = -32602;
pub const INTERNAL_ERROR: i64 = -32603;
pub const SERVER_ERROR_LOW: i64 = -32099;
pub const SERVER_ERROR_HIGH: i64 = -32000;

/// The number that a code is written as.
pub open spec fn code_value(c: ErrorCode) -> int {
    match c {
        ErrorCode::ParseError => -32700,
        ErrorCode::InvalidRequest => -32600,
        ErrorCode::MethodNotFound => -32601,
        ErrorCode::InvalidParams => -32602,
        ErrorCode::InternalError => -32603,
        ErrorCode::ServerError(n) => n as int,
    }
}

/// The code that a number is read as: the named code of that value, else `ServerError`.
pub open spec fn code_of(n: i64) -> ErrorCode {
    if n == -32700 {
        ErrorCode::ParseError
    } else if n == -32600 {
        ErrorCode::InvalidRequest
    } else if n == -32601 {
        ErrorCode::MethodNotFound
    } else if n == -32602 {
        ErrorCode::InvalidParams
    } else if n == -32603 {
        ErrorCode::InternalError
    } else {
        ErrorCode::ServerError(n)
    }
}

/// Whether a code is one the protocol allows: a named code, or a server error
/// within the reserved band.
pub open spec fn code_is_valid(c: ErrorCode) -> bool {
    match c {
        ErrorCode::ServerError(n) => -32099 <= n <= -32000,
        _ => true,
    }
}

impl ErrorCode {
    /// Return whether the code is correct.
    ///
    /// This is `false` only for a `ServerError` outside of -32099 to -32000.
    pub fn is_valid(&self) -> (r: bool)
        ensures
            r == code_is_valid(*self),
    {
        match *self {
            ErrorCode::ServerError(value) => SERVER_ERROR_LOW <= value && value <= SERVER_ERROR_HIGH,
            _ => true,
        }
    }

    /// The number that this code is written as on the wire.
    pub fn code(&self) -> (r: i64)
        ensures
            r as int == code_value(*self),
    {
        match *self {
            ErrorCode::ParseError => PARSE_ERROR,
            ErrorCode::InvalidRequest => INVALID_REQUEST,
            ErrorCode::MethodNotFound => METHOD_NOT_FOUND,
            ErrorCode::InvalidParams => INVALID_PARAMS,
            ErrorCode::InternalError => INTERNAL_ERROR,
            ErrorCode::ServerError(value) => value,
        }
    }

    /// The code that a number read from the wire stands for.
    pub fn from_code(v: i64) -> (r: ErrorCode)
        ensures
            r == code_of(v),
    {
        if v == PARSE_ERROR {
            ErrorCode::ParseError
        } else if v == INVALID_REQUEST {
            ErrorCode::InvalidRequest
        } else if v == METHOD_NOT_FOUND {
            ErrorCode::MethodNotFound
        } else if v == INVALID_PARAMS {
            ErrorCode::InvalidParams
        } else if v == INTERNAL_ERROR {
            ErrorCode::InternalError
        } else {
            ErrorCode::ServerError(v)
        }
    }
}

impl From<i64> for ErrorCode {
    fn from(v: i64) -> (r: ErrorCode)
        ensures
            r == code_of(v),
    {
        ErrorCode::from_code(v)
    }
}

impl vstd::std_specs::convert::FromSpecImpl<i64> for ErrorCode {
    open spec fn obeys_from_spec() -> bool {
        true
    }

    open spec fn from_spec(v: i64) -> ErrorCode {
        code_of(v)
    }
}

/// Every integer is read as a code that is written as that same integer, and
/// reading that number again gives the same code: the numeric mapping loses nothing.
pub proof fn lemma_code_round_trip(n: i64)
    ensures
        code_value(code_of(n)) == n,
        code_of(code_value(code_of(n)) as i64) == code_of(n),
{
}

/// Every code that reading a number can produce is written back as a number
/// that reads as the same code.
pub proof fn lemma_code_value_round_trip(c: ErrorCode)
    requires
        c matches ErrorCode::ServerError(n) ==> code_of(n) == c,
    ensures
        i64::MIN <= code_value(c) <= i64::MAX,
        code_of(code_value(c) as i64) == c,
{
}

/// The named codes are always valid; a server error is valid exactly inside its band.
pub proof fn lemma_validity(c: ErrorCode)
    ensures
        c !is ServerError ==> code_is_valid(c),
        c matches ErrorCode::ServerError(n) ==> (code_is_valid(c) <==> -32099 <= n <= -32000),
{
}

} // verus!
