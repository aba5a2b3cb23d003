//! Types for the messages of JSON-RPC 2.0, and the rules that tell a valid
//! message from a malformed one.
//!
//! The library models requests, success and error responses, their ids and the
//! protocol's error codes, writes them as JSON and reads them back. Reading is
//! strict where the protocol is: the version marker must be exactly `"2.0"`, an
//! id must be a string, an integer or null, and a response may not carry
//! members it does not know. Where a text cannot be read, the library says why:
//! [`parse_request`] builds the error response that a server sends back, and
//! [`from_str`] names the first thing wrong with a would-be response.
//!
//! The library never touches the network or the file system.
pub mod codec;
pub mod decode;
pub mod error_code;
pub mod id;
pub mod json;
pub mod laws;
pub mod names;
pub mod request;
pub mod response;

pub use codec::{decode_text, encode_text, JsonCodec};
pub use decode::{from_str, parse_request, DeResultError};
pub use error_code::ErrorCode;
pub use id::{Id, IdReq, V2_0};
pub use json::Json;
pub use request::{is_reserved_method, Request};
pub use response::{Error, ErrorObject, Response, Success};
