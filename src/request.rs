//! Requests: calls from a client to a server.
use vstd::prelude::*;
use crate::codec::{encode_text, invalid_type, missing_field, JsonCodec};
use crate::id::{id_decodable, idreq_json, version_absent, version_json, version_mismatch, Id, IdReq, V2_0};
use crate::json::{find_member, parse_json, lemma_object_view, member, members_view, push_member, Json, JsonView};

verus! {

/// A call, sent by a client to a server.
///
/// `method` is any value that can be written as JSON: a plain `String`, or a
/// type of the caller's that lists the methods it knows. Method names that
/// begin with `rpc.` are reserved for extensions of the protocol; see
/// [`is_reserved_method`](crate::request::is_reserved_method).
#[derive(Debug)]
pub struct Request<M, T> {
    /// The protocol version, always `"2.0"`.
    pub jsonrpc: V2_0,
    /// The method to be invoked.
    pub method: M,
    /// The parameters of the call; `None` when the member is absent.
    pub params: Option<T>,
    /// The id; `Notification` when the member is absent.
    pub id: IdReq,
}

/// The members that a request is written with: `jsonrpc` and `method`, then
/// `params` if there are any, then `id` unless the request is a notification.
pub open spec fn request_members<M: JsonCodec, T: JsonCodec>(r: Request<M, T>) -> Seq<(Seq<char>, JsonView)> {
    seq![("jsonrpc"@, version_json()), ("method"@, r.method.encoded())] + match r.params {
        Some(p) => seq![("params"@, p.encoded())],
        None => Seq::empty(),
    } + match idreq_json(r.id) {
        Some(i) => seq![("id"@, i)],
        None => Seq::empty(),
    }
}

/// Whether a tree is read as a request: an object with the version marker and
/// a method, whose `params` and `id`, where present, can be read. Other
/// members are ignored.
pub open spec fn request_decodable<M: JsonCodec, T: JsonCodec>(j: JsonView) -> bool {
    &&& j is Object
    &&& member(j->Object_0, "jsonrpc"@) == Some(version_json())
    &&& member(j->Object_0, "method"@) matches Some(m) && M::decodable(m)
    &&& match member(j->Object_0, "params"@) {
        Some(p) => T::decodable(p),
        None => true,
    }
    &&& match member(j->Object_0, "id"@) {
        Some(i) => id_decodable(i),
        None => true,
    }
}

/// Whether `r` is the request that a tree is read as. An absent `id` is read as
/// a notification, and an `id` of null as the null id.
pub open spec fn request_reads_as<M: JsonCodec, T: JsonCodec>(j: JsonView, r: Request<M, T>) -> bool {
    &&& j is Object
    &&& member(j->Object_0, "method"@) matches Some(m) && M::reads_as(m, r.method)
    &&& match member(j->Object_0, "params"@) {
        Some(p) => r.params matches Some(x) && T::reads_as(p, x),
        None => r.params is None,
    }
    &&& idreq_json(r.id) == member(j->Object_0, "id"@)
}

/// Whether a method name lies in the namespace `rpc.`, reserved for extensions.
pub open spec fn reserved_method(name: Seq<char>) -> bool {
    name.len() >= 4 && name.subrange(0, 4) == "rpc."@
}

/// Whether a method name begins with `rpc.`, the prefix reserved for extensions
/// of the protocol. Such names must not be used for anything else.
pub fn is_reserved_method(name: &str) -> (r: bool)
    ensures
        r == reserved_method(name@),
{
    proof {
        reveal_strlit("rpc.");
    }
    let n = name.unicode_len();
    if n < 4 {
        return false;
    }
    let a = name.get_char(0);
    let b = name.get_char(1);
    let c = name.get_char(2);
    let d = name.get_char(3);
    let r = a == 'r' && b == 'p' && c == 'c' && d == '.';
    proof {
        let lit = "rpc."@;
        let head = name@.subrange(0, 4);
        assert(lit =~= seq!['r', 'p', 'c', '.']);
        if r {
            assert(head =~= lit);
        } else {
            assert(head[0] == a && head[1] == b && head[2] == c && head[3] == d);
            assert(head != lit);
        }
    }
    r
}

impl<M: JsonCodec> Request<M, ()> {
    /// A request without parameters.
    pub fn new(id: IdReq, method: M) -> (r: Self)
        ensures
            r.method == method,
            r.params is None,
            r.id == id,
    {
        let params: Option<()> = None;
        Request { jsonrpc: V2_0, method: method, params: params, id: id }
    }
}

impl<M: JsonCodec, T: JsonCodec> Request<M, T> {
    /// A request with the given parameters.
    pub fn with_params(id: IdReq, method: M, params: T) -> (r: Self)
        ensures
            r.method == method,
            r.params == Some(params),
            r.id == id,
    {
        Request { jsonrpc: V2_0, method: method, params: Some(params), id: id }
    }

    /// Writes the request as compact JSON text.
    pub fn to_string(&self) -> (r: String)
        ensures
            r@ == crate::json::json_text(JsonView::Object(request_members(*self))),
    {
        encode_text(self)
    }

    /// Reads a request from JSON text.
    pub fn from_str(s: &str) -> (r: Result<Self, String>)
        ensures
            match crate::json::parsed_json(s@) {
                Err(m) => r matches Err(e) && e@ == m,
                Ok(j) => (r is Ok <==> request_decodable::<M, T>(j))
                    && (r matches Ok(v) ==> request_reads_as(j, v))
                    && (j is Object && member(j->Object_0, "jsonrpc"@) is None ==> (r matches Err(e)
                    && e@ == version_absent())),
            },
    {
        match parse_json(s) {
            Ok(j) => Self::read(&j),
            Err(e) => Err(e),
        }
    }
}

impl<M: JsonCodec, T: JsonCodec> JsonCodec for Request<M, T> {
    open spec fn encoded(&self) -> JsonView {
        JsonView::Object(request_members(*self))
    }

    open spec fn decodable(j: JsonView) -> bool {
        request_decodable::<M, T>(j)
    }

    open spec fn reads_as(j: JsonView, v: Self) -> bool {
        request_reads_as(j, v)
    }

    fn to_json(&self) -> (r: Json) {
        let mut ms: Vec<(String, Json)> = Vec::new();
        push_member(&mut ms, "jsonrpc", self.jsonrpc.to_json());
        push_member(&mut ms, "method", self.method.to_json());
        let ghost head = members_view(ms@);
        if let Some(p) = &self.params {
            push_member(&mut ms, "params", p.to_json());
        }
        let ghost mid = members_view(ms@);
        match &self.id {
            IdReq::String(s) => push_member(&mut ms, "id", Json::Str(s.clone())),
            IdReq::Int(i) => push_member(&mut ms, "id", Json::Int(*i)),
            IdReq::Null => push_member(&mut ms, "id", Json::Null),
            IdReq::Notification => {},
        }
        proof {
            lemma_object_view(ms);
            assert(members_view(ms@) =~= request_members(*self));
        }
        Json::Object(ms)
    }

    fn from_json(j: &Json) -> (r: Result<Self, String>) {
        Self::read(j)
    }
}

impl<M: JsonCodec, T: JsonCodec> Request<M, T> {
    /// Reads a request from a tree. Where the version marker is absent or
    /// wrong, the message names the marker that was expected.
    pub fn read(j: &Json) -> (r: Result<Self, String>)
        ensures
            r is Ok <==> request_decodable::<M, T>(j@),
            r matches Ok(v) ==> request_reads_as(j@, v),
            j@ is Object && member(j@->Object_0, "jsonrpc"@) is None ==> (r matches Err(e)
                && e@ == version_absent()),
            j@ is Object && member(j@->Object_0, "jsonrpc"@) is Some
                && member(j@->Object_0, "jsonrpc"@) != Some(version_json()) ==> (r matches Err(e)
                && e@ == version_mismatch(member(j@->Object_0, "jsonrpc"@)->0)),
    {
        let members = match j {
            Json::Object(ms) => ms,
            _ => return Err(invalid_type("a request object")),
        };
        proof {
            lemma_object_view(*members);
        }
        let jsonrpc = match find_member(members, "jsonrpc") {
            Some(v) => match V2_0::from_json(v) {
                Ok(x) => x,
                Err(e) => return Err(e),
            },
            None => return Err(V2_0::absent()),
        };
        let method = match find_member(members, "method") {
            Some(v) => match M::from_json(v) {
                Ok(x) => x,
                Err(e) => return Err(e),
            },
            None => return Err(missing_field("method")),
        };
        let params = match find_member(members, "params") {
            Some(v) => match T::from_json(v) {
                Ok(x) => Some(x),
                Err(e) => return Err(e),
            },
            None => None,
        };
        let id = match find_member(members, "id") {
            Some(v) => match Id::from_json(v) {
                Ok(x) => IdReq::from(x),
                Err(e) => return Err(e),
            },
            None => IdReq::Notification,
        };
        Ok(Request { jsonrpc: jsonrpc, method: method, params: params, id: id })
    }
}

} // verus!
