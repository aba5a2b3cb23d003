//! Responses: the answers of a server, successes and errors.
use vstd::prelude::*;
use crate::codec::{decode_text, encode_text, invalid_type, missing_field, unknown_field, JsonCodec};
use crate::error_code::{code_of, code_value, ErrorCode};
use crate::id::{id_decodable, id_json, version_json, Id, V2_0};
use crate::json::{
    find_member, first_key_outside, json_text, keys_within, lemma_object_view, member,
    members_view, parsed_json, push_member, Json, JsonView,
};

verus! {

/// The names that a success response may have as members.
pub open spec fn success_keys() -> Seq<Seq<char>> {
    seq!["jsonrpc"@, "result"@, "id"@]
}

/// The names that an error response may have as members.
pub open spec fn error_keys() -> Seq<Seq<char>> {
    seq!["jsonrpc"@, "error"@, "id"@]
}

/// Builds a list of member names.
fn names3(a: &str, b: &str, c: &str) -> (r: Vec<String>)
    ensures
        r@.map_values(|s: String| s@) == seq![a@, b@, c@],
{
    let r = vec![String::from_str(a), String::from_str(b), String::from_str(c)];
    assert(r@.map_values(|s: String| s@) =~= seq![a@, b@, c@]);
    r
}

/// Checks that every member of an object is among the names allowed.
fn only_keys(members: &Vec<(String, Json)>, allowed: &Vec<String>) -> (r: Result<(), String>)
    ensures
        r is Ok <==> keys_within(members_view(members@), allowed@.map_values(|s: String| s@)),
{
    match first_key_outside(members, allowed) {
        Some(i) => Err(unknown_field(&members[i].0)),
        None => Ok(()),
    }
}

/// A successful response, with the result of the call.
#[derive(Debug)]
pub struct Success<T> {
    /// The protocol version, always `"2.0"`.
    pub jsonrpc: V2_0,
    /// The value that the method returned.
    pub result: T,
    /// The id of the request that this answers.
    pub id: Id,
}

/// The members that a success response is written with, in this order.
pub open spec fn success_members<T: JsonCodec>(s: Success<T>) -> Seq<(Seq<char>, JsonView)> {
    seq![("jsonrpc"@, version_json()), ("result"@, s.result.encoded()), ("id"@, id_json(s.id))]
}

/// Whether a tree is read as a success response: an object with the version
/// marker, a result and an id, and no other member.
pub open spec fn success_decodable<T: JsonCodec>(j: JsonView) -> bool {
    &&& j is Object
    &&& keys_within(j->Object_0, success_keys())
    &&& member(j->Object_0, "jsonrpc"@) == Some(version_json())
    &&& member(j->Object_0, "result"@) matches Some(x) && T::decodable(x)
    &&& member(j->Object_0, "id"@) matches Some(i) && id_decodable(i)
}

/// Whether `s` is the success response that a tree is read as.
pub open spec fn success_reads_as<T: JsonCodec>(j: JsonView, s: Success<T>) -> bool {
    &&& j is Object
    &&& member(j->Object_0, "result"@) matches Some(x) && T::reads_as(x, s.result)
    &&& member(j->Object_0, "id"@) == Some(id_json(s.id))
}

impl<T: JsonCodec> Success<T> {
    /// A success response for the request with this id.
    pub fn new(id: Id, result: T) -> (r: Self)
        ensures
            r.id == id,
            r.result == result,
    {
        Success { jsonrpc: V2_0, result: result, id: id }
    }

    /// Writes the response as compact JSON text.
    pub fn to_string(&self) -> (r: String)
        ensures
            r@ == json_text(JsonView::Object(success_members(*self))),
    {
        encode_text(self)
    }

    /// Reads a success response from JSON text.
    pub fn from_str(s: &str) -> (r: Result<Self, String>)
        ensures
            match parsed_json(s@) {
                Err(m) => r matches Err(e) && e@ == m,
                Ok(j) => (r is Ok <==> success_decodable::<T>(j))
                    && (r matches Ok(v) ==> success_reads_as(j, v)),
            },
    {
        decode_text(s)
    }
}

impl<T: JsonCodec> JsonCodec for Success<T> {
    open spec fn encoded(&self) -> JsonView {
        JsonView::Object(success_members(*self))
    }

    open spec fn decodable(j: JsonView) -> bool {
        success_decodable::<T>(j)
    }

    open spec fn reads_as(j: JsonView, v: Self) -> bool {
        success_reads_as(j, v)
    }

    fn to_json(&self) -> (r: Json) {
        let mut ms: Vec<(String, Json)> = Vec::new();
        push_member(&mut ms, "jsonrpc", self.jsonrpc.to_json());
        push_member(&mut ms, "result", self.result.to_json());
        push_member(&mut ms, "id", self.id.to_json());
        proof {
            lemma_object_view(ms);
            assert(members_view(ms@) =~= success_members(*self));
        }
        Json::Object(ms)
    }

    fn from_json(j: &Json) -> (r: Result<Self, String>) {
        let members = match j {
            Json::Object(ms) => ms,
            _ => return Err(invalid_type("a success response object")),
        };
        proof {
            lemma_object_view(*members);
        }
        let allowed = names3("jsonrpc", "result", "id");
        if let Err(e) = only_keys(members, &allowed) {
            return Err(e);
        }
        let jsonrpc = match find_member(members, "jsonrpc") {
            Some(v) => match V2_0::from_json(v) {
                Ok(x) => x,
                Err(e) => return Err(e),
            },
            None => return Err(V2_0::absent()),
        };
        let result = match find_member(members, "result") {
            Some(v) => match T::from_json(v) {
                Ok(x) => x,
                Err(e) => return Err(e),
            },
            None => return Err(missing_field("result")),
        };
        let id = match find_member(members, "id") {
            Some(v) => match Id::from_json(v) {
                Ok(x) => x,
                Err(e) => return Err(e),
            },
            None => return Err(missing_field("id")),
        };
        Ok(Success { jsonrpc: jsonrpc, result: result, id: id })
    }
}

/// The details of an error: its code, a short message, and optional data.
#[derive(Debug)]
pub struct ErrorObject<T> {
    /// The kind of error.
    pub code: ErrorCode,
    /// A short description of the error, which should be a single sentence.
    pub message: String,
    /// Further information, defined by the server; may be left out.
    pub data: Option<T>,
}

/// The members that an error object is written with: `code`, `message`, then
/// `data` if there is any.
pub open spec fn error_object_members<T: JsonCodec>(e: ErrorObject<T>) -> Seq<(Seq<char>, JsonView)> {
    seq![("code"@, JsonView::Int(code_value(e.code))), ("message"@, JsonView::Str(e.message@))]
        + match e.data {
        Some(d) => seq![("data"@, d.encoded())],
        None => Seq::empty(),
    }
}

/// Whether a tree is read as an error object: an object with an integer code
/// and a string message, whose `data`, if present, is null or can be read.
pub open spec fn error_object_decodable<T: JsonCodec>(j: JsonView) -> bool {
    &&& j is Object
    &&& member(j->Object_0, "code"@) matches Some(JsonView::Int(n)) && i64::MIN <= n <= i64::MAX
    &&& member(j->Object_0, "message"@) matches Some(JsonView::Str(_))
    &&& match member(j->Object_0, "data"@) {
        Some(d) => Option::<T>::decodable(d),
        None => true,
    }
}

/// Whether `e` is the error object that a tree is read as. An absent `data` and
/// a `data` of null are both read as `None`.
pub open spec fn error_object_reads_as<T: JsonCodec>(j: JsonView, e: ErrorObject<T>) -> bool {
    &&& j is Object
    &&& member(j->Object_0, "code"@) matches Some(JsonView::Int(n)) && e.code == code_of(n as i64)
    &&& member(j->Object_0, "message"@) == Some(JsonView::Str(e.message@))
    &&& match member(j->Object_0, "data"@) {
        Some(d) => Option::<T>::reads_as(d, e.data),
        None => e.data is None,
    }
}

impl<T: JsonCodec> JsonCodec for ErrorObject<T> {
    open spec fn encoded(&self) -> JsonView {
        JsonView::Object(error_object_members(*self))
    }

    open spec fn decodable(j: JsonView) -> bool {
        error_object_decodable::<T>(j)
    }

    open spec fn reads_as(j: JsonView, v: Self) -> bool {
        error_object_reads_as(j, v)
    }

    fn to_json(&self) -> (r: Json) {
        let mut ms: Vec<(String, Json)> = Vec::new();
        push_member(&mut ms, "code", Json::Int(self.code.code()));
        push_member(&mut ms, "message", Json::Str(self.message.clone()));
        if let Some(d) = &self.data {
            push_member(&mut ms, "data", d.to_json());
        }
        proof {
            lemma_object_view(ms);
            assert(members_view(ms@) =~= error_object_members(*self));
        }
        Json::Object(ms)
    }

    fn from_json(j: &Json) -> (r: Result<Self, String>) {
        let members = match j {
            Json::Object(ms) => ms,
            _ => return Err(invalid_type("an error object")),
        };
        proof {
            lemma_object_view(*members);
        }
        let code = match find_member(members, "code") {
            Some(Json::Int(n)) => ErrorCode::from_code(*n),
            Some(_) => return Err(invalid_type("an integer error code")),
            None => return Err(missing_field("code")),
        };
        let message = match find_member(members, "message") {
            Some(Json::Str(m)) => m.clone(),
            Some(_) => return Err(invalid_type("a string message")),
            None => return Err(missing_field("message")),
        };
        let data = match find_member(members, "data") {
            Some(v) => match Option::<T>::from_json(v) {
                Ok(x) => x,
                Err(e) => return Err(e),
            },
            None => None,
        };
        Ok(ErrorObject { code: code, message: message, data: data })
    }
}

/// An error response, telling that a call failed.
#[derive(Debug)]
pub struct Error<T> {
    /// The protocol version, always `"2.0"`.
    pub jsonrpc: V2_0,
    /// What went wrong.
    pub error: ErrorObject<T>,
    /// The id of the request that this answers; null where it could not be told.
    pub id: Id,
}

/// The members that an error response is written with, in this order.
pub open spec fn error_members<T: JsonCodec>(e: Error<T>) -> Seq<(Seq<char>, JsonView)> {
    seq![("jsonrpc"@, version_json()), ("error"@, e.error.encoded()), ("id"@, id_json(e.id))]
}

/// Whether a tree is read as an error response: an object with the version
/// marker, an error object and an id, and no other member.
pub open spec fn error_decodable<T: JsonCodec>(j: JsonView) -> bool {
    &&& j is Object
    &&& keys_within(j->Object_0, error_keys())
    &&& member(j->Object_0, "jsonrpc"@) == Some(version_json())
    &&& member(j->Object_0, "error"@) matches Some(x) && error_object_decodable::<T>(x)
    &&& member(j->Object_0, "id"@) matches Some(i) && id_decodable(i)
}

/// Whether `e` is the error response that a tree is read as.
pub open spec fn error_reads_as<T: JsonCodec>(j: JsonView, e: Error<T>) -> bool {
    &&& j is Object
    &&& member(j->Object_0, "error"@) matches Some(x) && error_object_reads_as(x, e.error)
    &&& member(j->Object_0, "id"@) == Some(id_json(e.id))
}

impl<T: JsonCodec> Error<T> {
    /// An error response with the given id, code, message and data.
    pub fn new(id: Id, code: ErrorCode, message: String, data: Option<T>) -> (r: Self)
        ensures
            r.id == id,
            r.error.code == code,
            r.error.message == message,
            r.error.data == data,
    {
        Error {
            jsonrpc: V2_0,
            error: ErrorObject { code: code, message: message, data: data },
            id: id,
        }
    }

    /// Writes the response as compact JSON text.
    pub fn to_string(&self) -> (r: String)
        ensures
            r@ == json_text(JsonView::Object(error_members(*self))),
    {
        encode_text(self)
    }

    /// Reads an error response from JSON text.
    pub fn from_str(s: &str) -> (r: Result<Self, String>)
        ensures
            match parsed_json(s@) {
                Err(m) => r matches Err(e) && e@ == m,
                Ok(j) => (r is Ok <==> error_decodable::<T>(j))
                    && (r matches Ok(v) ==> error_reads_as(j, v)),
            },
    {
        decode_text(s)
    }
}

impl<T: JsonCodec> JsonCodec for Error<T> {
    open spec fn encoded(&self) -> JsonView {
        JsonView::Object(error_members(*self))
    }

    open spec fn decodable(j: JsonView) -> bool {
        error_decodable::<T>(j)
    }

    open spec fn reads_as(j: JsonView, v: Self) -> bool {
        error_reads_as(j, v)
    }

    fn to_json(&self) -> (r: Json) {
        let mut ms: Vec<(String, Json)> = Vec::new();
        push_member(&mut ms, "jsonrpc", self.jsonrpc.to_json());
        push_member(&mut ms, "error", self.error.to_json());
        push_member(&mut ms, "id", self.id.to_json());
        proof {
            lemma_object_view(ms);
            assert(members_view(ms@) =~= error_members(*self));
        }
        Json::Object(ms)
    }

    fn from_json(j: &Json) -> (r: Result<Self, String>) {
        let members = match j {
            Json::Object(ms) => ms,
            _ => return Err(invalid_type("an error response object")),
        };
        proof {
            lemma_object_view(*members);
        }
        let allowed = names3("jsonrpc", "error", "id");
        if let Err(e) = only_keys(members, &allowed) {
            return Err(e);
        }
        let jsonrpc = match find_member(members, "jsonrpc") {
            Some(v) => match V2_0::from_json(v) {
                Ok(x) => x,
                Err(e) => return Err(e),
            },
            None => return Err(V2_0::absent()),
        };
        let error = match find_member(members, "error") {
            Some(v) => match ErrorObject::<T>::from_json(v) {
                Ok(x) => x,
                Err(e) => return Err(e),
            },
            None => return Err(missing_field("error")),
        };
        let id = match find_member(members, "id") {
            Some(v) => match Id::from_json(v) {
                Ok(x) => x,
                Err(e) => return Err(e),
            },
            None => return Err(missing_field("id")),
        };
        Ok(Error { jsonrpc: jsonrpc, error: error, id: id })
    }
}

/// A response: a success with a result of type `T`, or an error whose data is
/// left as a JSON tree.
///
/// The two shapes carry no tag on the wire. Reading tries a success first, then
/// an error; each shape refuses members that it does not know.
#[derive(Debug)]
pub enum Response<T> {
    /// The response has a `result` member and no `error` member.
    Success(Success<T>),
    /// The response has an `error` member and no `result` member.
    Error(Error<Json>),
}

/// Whether a tree is read as a response.
pub open spec fn response_decodable<T: JsonCodec>(j: JsonView) -> bool {
    success_decodable::<T>(j) || error_decodable::<Json>(j)
}

/// Whether `r` is the response that a tree is read as: a success wherever the
/// tree is read as one, else an error.
pub open spec fn response_reads_as<T: JsonCodec>(j: JsonView, r: Response<T>) -> bool {
    match r {
        Response::Success(s) => success_decodable::<T>(j) && success_reads_as(j, s),
        Response::Error(e) => !success_decodable::<T>(j) && error_decodable::<Json>(j)
            && error_reads_as(j, e),
    }
}

impl<T: JsonCodec> Response<T> {
    /// The id, whether the call succeeded or not.
    pub fn id(&self) -> (r: &Id)
        ensures
            match self {
                Response::Success(s) => *r == s.id,
                Response::Error(e) => *r == e.id,
            },
    {
        match self {
            Response::Success(s) => &s.id,
            Response::Error(e) => &e.id,
        }
    }

    /// A success response.
    pub fn success(id: Id, result: T) -> (r: Self)
        ensures
            r matches Response::Success(s) && s.id == id && s.result == result,
    {
        Response::Success(Success::new(id, result))
    }

    /// An error response.
    pub fn error(id: Id, code: ErrorCode, message: String, data: Option<Json>) -> (r: Self)
        ensures
            r matches Response::Error(e) && e.id == id && e.error.code == code
                && e.error.message == message && e.error.data == data,
    {
        Response::Error(Error::new(id, code, message, data))
    }

    /// Writes the response as compact JSON text.
    pub fn to_string(&self) -> (r: String)
        ensures
            r@ == json_text(self.encoded()),
    {
        encode_text(self)
    }

    /// Reads a response from JSON text.
    pub fn from_str(s: &str) -> (r: Result<Self, String>)
        ensures
            match parsed_json(s@) {
                Err(m) => r matches Err(e) && e@ == m,
                Ok(j) => (r is Ok <==> response_decodable::<T>(j))
                    && (r matches Ok(v) ==> response_reads_as(j, v)),
            },
    {
        decode_text(s)
    }
}

impl<T: JsonCodec> JsonCodec for Response<T> {
    open spec fn encoded(&self) -> JsonView {
        match self {
            Response::Success(s) => s.encoded(),
            Response::Error(e) => e.encoded(),
        }
    }

    open spec fn decodable(j: JsonView) -> bool {
        response_decodable::<T>(j)
    }

    open spec fn reads_as(j: JsonView, v: Self) -> bool {
        response_reads_as(j, v)
    }

    fn to_json(&self) -> (r: Json) {
        match self {
            Response::Success(s) => s.to_json(),
            Response::Error(e) => e.to_json(),
        }
    }

    fn from_json(j: &Json) -> (r: Result<Self, String>) {
        match Success::<T>::from_json(j) {
            Ok(s) => Ok(Response::Success(s)),
            Err(_) => match Error::<Json>::from_json(j) {
                Ok(e) => Ok(Response::Error(e)),
                Err(_) => Err(String::from_str("data did not match any variant of untagged enum Response")),
            },
        }
    }
}

} // verus!
