//! The version marker and the ids of requests and responses.
use vstd::prelude::*;
use crate::codec::{invalid_type, JsonCodec};
use crate::json::{write_json, json_text, Json, JsonView};

verus! {

/// The `jsonrpc` version marker. It is written as, and read only from, the string `"2.0"`.
#[derive(Debug, Clone, Copy, PartialEq, Eq, Structural)]
pub struct V2_0;

/// The tree that the version marker is written as.
pub open spec fn version_json() -> JsonView {
    JsonView::Str("2.0"@)
}

/// The message given when a tree is not the version marker.
pub open spec fn version_mismatch(found: JsonView) -> Seq<char> {
    "expected exactly \"2.0\", found "@ + json_text(found)
}

/// The message given when an object has no version marker.
pub open spec fn version_absent() -> Seq<char> {
    "missing field `jsonrpc`, expected exactly \"2.0\""@
}

impl V2_0 {
    /// The message for an object that has no version marker.
    pub fn absent() -> (r: String)
        ensures
            r@ == version_absent(),
    {
        String::from_str("missing field `jsonrpc`, expected exactly \"2.0\"")
    }

    /// Writes the marker as the string `"2.0"`.
    pub fn to_json(&self) -> (r: Json)
        ensures
            r@ == version_json(),
    {
        Json::Str(String::from_str("2.0"))
    }

    /// Reads the marker: only the exact string `"2.0"` is accepted.
    pub fn from_json(j: &Json) -> (r: Result<V2_0, String>)
        ensures
            r is Ok <==> j@ == version_json(),
            r matches Err(e) ==> e@ == version_mismatch(j@),
    {
        if let Json::Str(s) = j {
            if *s == String::from_str("2.0") {
                return Ok(V2_0);
            }
        }
        let mut m = String::from_str("expected exactly \"2.0\", found ");
        let found = write_json(j);
        m.append(found.as_str());
        Err(m)
    }
}

/// An identifier established by the client: a string, an integer, or null.
///
/// The server replies with the same value, which correlates a response with its
/// request. A number with a fractional part is not an identifier.
#[derive(Debug, Clone, PartialEq, Eq, Hash)]
pub enum Id {
    /// A string id.
    String(String),
    /// A number id, which must be an integer.
    Int(i64),
    /// A null id.
    Null,
}

impl From<String> for Id {
    fn from(s: String) -> (r: Id)
        ensures
            r == Id::String(s),
    {
        Id::String(s)
    }
}

impl vstd::std_specs::convert::FromSpecImpl<String> for Id {
    open spec fn obeys_from_spec() -> bool {
        true
    }

    open spec fn from_spec(s: String) -> Id {
        Id::String(s)
    }
}

impl From<i64> for Id {
    fn from(v: i64) -> (r: Id)
        ensures
            r == Id::Int(v),
    {
        Id::Int(v)
    }
}

impl vstd::std_specs::convert::FromSpecImpl<i64> for Id {
    open spec fn obeys_from_spec() -> bool {
        true
    }

    open spec fn from_spec(v: i64) -> Id {
        Id::Int(v)
    }
}

/// The tree that an id is written as.
pub open spec fn id_json(id: Id) -> JsonView {
    match id {
        Id::String(s) => JsonView::Str(s@),
        Id::Int(i) => JsonView::Int(i as int),
        Id::Null => JsonView::Null,
    }
}

/// The trees that are read as ids: strings, integers within `i64`, and null.
pub open spec fn id_decodable(j: JsonView) -> bool {
    ||| j is Str
    ||| j matches JsonView::Int(i) && i64::MIN <= i <= i64::MAX
    ||| j is Null
}

impl JsonCodec for Id {
    open spec fn encoded(&self) -> JsonView {
        id_json(*self)
    }

    open spec fn decodable(j: JsonView) -> bool {
        id_decodable(j)
    }

    open spec fn reads_as(j: JsonView, v: Id) -> bool {
        id_json(v) == j
    }

    fn to_json(&self) -> (r: Json) {
        match self {
            Id::String(s) => Json::Str(s.clone()),
            Id::Int(i) => Json::Int(*i),
            Id::Null => Json::Null,
        }
    }

    /// A number with a fractional part, or one beyond `i64`, is refused, not truncated.
    fn from_json(j: &Json) -> (r: Result<Id, String>) {
        match j {
            Json::Str(s) => Ok(Id::String(s.clone())),
            Json::Int(i) => Ok(Id::Int(*i)),
            Json::Null => Ok(Id::Null),
            Json::Num(t) => {
                let mut m = String::from_str("id is a non-i64 number: ");
                m.append(t.as_str());
                Err(m)
            },
            _ => Err(invalid_type("a string, an integer or null as id")),
        }
    }
}

/// Like [`Id`], with one more case: `Notification`, a request without an id.
///
/// A notification tells the server that the client does not want a response;
/// the server must not reply to it. On the wire an absent `id` member and an
/// `id` member that is null are different things.
#[derive(Debug, Clone, PartialEq, Eq)]
pub enum IdReq {
    /// A string id.
    String(String),
    /// A number id, which must be an integer.
    Int(i64),
    /// A null id.
    Null,
    /// The id is absent.
    Notification,
}

/// The request id that stands for an id.
pub open spec fn idreq_of(id: Id) -> IdReq {
    match id {
        Id::String(s) => IdReq::String(s),
        Id::Int(i) => IdReq::Int(i),
        Id::Null => IdReq::Null,
    }
}

impl From<Id> for IdReq {
    fn from(id: Id) -> (r: IdReq)
        ensures
            r == idreq_of(id),
    {
        match id {
            Id::String(s) => IdReq::String(s),
            Id::Int(i) => IdReq::Int(i),
            Id::Null => IdReq::Null,
        }
    }
}

impl vstd::std_specs::convert::FromSpecImpl<Id> for IdReq {
    open spec fn obeys_from_spec() -> bool {
        true
    }

    open spec fn from_spec(id: Id) -> IdReq {
        idreq_of(id)
    }
}

/// The tree that a request id is written as; a notification is not written at all.
pub open spec fn idreq_json(id: IdReq) -> Option<JsonView> {
    match id {
        IdReq::String(s) => Some(JsonView::Str(s@)),
        IdReq::Int(i) => Some(JsonView::Int(i as int)),
        IdReq::Null => Some(JsonView::Null),
        IdReq::Notification => None,
    }
}

impl IdReq {
    /// Attempt to convert to an [`Id`]: `None` if this is a `Notification`.
    pub fn to_id(self) -> (r: Option<Id>)
        ensures
            match self {
                IdReq::Notification => r is None,
                _ => r matches Some(id) && idreq_of(id) == self,
            },
    {
        let out = match self {
            IdReq::String(s) => Id::String(s),
            IdReq::Int(i) => Id::Int(i),
            IdReq::Null => Id::Null,
            IdReq::Notification => return None,
        };
        Some(out)
    }

    /// Whether this is a notification, whose id is left out when written.
    pub fn is_notification(&self) -> (r: bool)
        ensures
            r == (*self is Notification),
    {
        match self {
            IdReq::Notification => true,
            _ => false,
        }
    }
}

} // verus!
