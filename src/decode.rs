//! Reading messages in stages, with a precise account of what is wrong.
use vstd::prelude::*;
use crate::codec::JsonCodec;
use crate::error_code::ErrorCode;
use crate::id::{id_json, version_json, Id, V2_0};
use crate::json::{
    find_member, has_key, json_text, lemma_object_view, member,
    members_view, name_in, parse_json, parsed_json, write_json, Json, JsonView,
};
use crate::names::{name_views, names_sorted, sort_names};
use crate::request::{request_decodable, request_reads_as, Request};
use crate::response::{response_decodable, response_reads_as, Error, Response};

verus! {

/// Why a text could not be read as a response, as precisely as it can be told.
#[derive(Debug)]
pub enum DeResultError {
    /// The text is not JSON; this is the parser's message.
    InvalidJson(String),
    /// The text is JSON, but not an object.
    NotAnObject(Json),
    /// The object has no `jsonrpc` member.
    JsonrpcMissing,
    /// The `jsonrpc` member is not the string `"2.0"`.
    JsonrpcIncorrect(Json),
    /// The object has no `id` member.
    IdMissing,
    /// The `id` member is a number but not an integer within `i64`; this is its text.
    IdNotInteger(String),
    /// The `id` member is neither a string, nor a number, nor null.
    IdInvalidType(Json),
    /// The object has both a `result` and an `error` member.
    ResultAndError,
    /// The object has members beyond `jsonrpc`, `id`, `result` and `error`, in order.
    ExtraKeys(Vec<String>),
    /// None of the above; this is why the object could not be read as a response.
    Unmatched(String),
}

/// A name in double quotes.
pub open spec fn quoted(k: Seq<char>) -> Seq<char> {
    "\""@ + k + "\""@
}

/// Names in double quotes, separated by a comma and a space.
pub open spec fn quoted_list(keys: Seq<Seq<char>>) -> Seq<char>
    decreases keys.len(),
{
    if keys.len() == 0 {
        Seq::empty()
    } else if keys.len() == 1 {
        quoted(keys[0])
    } else {
        quoted_list(keys.drop_last()) + ", "@ + quoted(keys.last())
    }
}

/// The text that explains a diagnosis to a person.
pub open spec fn hint_text(d: DeResultError) -> Seq<char> {
    match d {
        DeResultError::InvalidJson(m) => "Invalid JSON: "@ + m@,
        DeResultError::NotAnObject(v) => "Not an object: "@ + json_text(v@),
        DeResultError::JsonrpcMissing => "jsonrpc attribute does not exist"@,
        DeResultError::JsonrpcIncorrect(v) => "jsonrpc attribute is the incorrect value: "@ + json_text(v@),
        DeResultError::IdMissing => "id does not exist"@,
        DeResultError::IdNotInteger(t) => "id is a non-i64 number: "@ + t@,
        DeResultError::IdInvalidType(v) => "id is not a valid type: "@ + json_text(v@),
        DeResultError::ResultAndError => "both `result` and `error` fields are present"@,
        DeResultError::ExtraKeys(keys) => "Extra keys are present: ["@ + quoted_list(name_views(keys@)) + "]"@,
        DeResultError::Unmatched(m) => "Could not deserialize into either Response or Error. Possible cause:\n"@ + m@,
    }
}

/// Writes names in double quotes, separated by a comma and a space.
fn write_quoted_list(keys: &Vec<String>) -> (r: String)
    ensures
        r@ == quoted_list(name_views(keys@)),
{
    let ghost all = name_views(keys@);
    let mut out = String::new();
    let mut i: usize = 0;
    assert(all.subrange(0, 0) =~= Seq::<Seq<char>>::empty());
    while i < keys.len()
        invariant
            i <= keys.len(),
            all == name_views(keys@),
            out@ == quoted_list(all.subrange(0, i as int)),
        decreases keys.len() - i,
    {
        let ghost prefix = all.subrange(0, i + 1);
        assert(prefix.drop_last() =~= all.subrange(0, i as int));
        assert(prefix.last() == keys[i as int]@);
        if i > 0 {
            out.append(", ");
        }
        out.append("\"");
        out.append(keys[i].as_str());
        out.append("\"");
        proof {
            if i == 0 {
                assert(out@ =~= quoted(keys[0]@));
            } else {
                assert(out@ =~= quoted_list(prefix.drop_last()) + ", "@ + quoted(prefix.last()));
            }
        }
        i = i + 1;
    }
    assert(all.subrange(0, keys.len() as int) =~= all);
    out
}

impl DeResultError {
    /// A sentence that explains to a person why the text was refused.
    pub fn hint(&self) -> (r: String)
        ensures
            r@ == hint_text(*self),
    {
        match self {
            DeResultError::InvalidJson(m) => {
                let mut h = String::from_str("Invalid JSON: ");
                h.append(m.as_str());
                h
            },
            DeResultError::NotAnObject(v) => {
                let mut h = String::from_str("Not an object: ");
                h.append(write_json(v).as_str());
                h
            },
            DeResultError::JsonrpcMissing => String::from_str("jsonrpc attribute does not exist"),
            DeResultError::JsonrpcIncorrect(v) => {
                let mut h = String::from_str("jsonrpc attribute is the incorrect value: ");
                h.append(write_json(v).as_str());
                h
            },
            DeResultError::IdMissing => String::from_str("id does not exist"),
            DeResultError::IdNotInteger(t) => {
                let mut h = String::from_str("id is a non-i64 number: ");
                h.append(t.as_str());
                h
            },
            DeResultError::IdInvalidType(v) => {
                let mut h = String::from_str("id is not a valid type: ");
                h.append(write_json(v).as_str());
                h
            },
            DeResultError::ResultAndError => String::from_str("both `result` and `error` fields are present"),
            DeResultError::ExtraKeys(keys) => {
                let mut h = String::from_str("Extra keys are present: [");
                h.append(write_quoted_list(keys).as_str());
                h.append("]");
                h
            },
            DeResultError::Unmatched(m) => {
                let mut h = String::from_str("Could not deserialize into either Response or Error. Possible cause:\n");
                h.append(m.as_str());
                h
            },
        }
    }
}

/// The members that a response may have.
pub open spec fn response_keys() -> Seq<Seq<char>> {
    seq!["jsonrpc"@, "id"@, "result"@, "error"@]
}

/// Whether `k` names a member that no response has.
pub open spec fn is_extra_key(members: Seq<(Seq<char>, JsonView)>, k: Seq<char>) -> bool {
    has_key(members, k) && !response_keys().contains(k)
}

/// Whether `d` is the diagnosis of a tree that is not a response. The checks
/// come in order, and the first that fails is reported.
pub open spec fn diagnosis(j: JsonView, d: DeResultError) -> bool {
    let ms = j->Object_0;
    if !(j is Object) {
        d matches DeResultError::NotAnObject(v) && v@ == j
    } else if member(ms, "jsonrpc"@) is None {
        d is JsonrpcMissing
    } else if member(ms, "jsonrpc"@) != Some(version_json()) {
        d matches DeResultError::JsonrpcIncorrect(v) && member(ms, "jsonrpc"@) == Some(v@)
    } else if member(ms, "id"@) is None {
        d is IdMissing
    } else if member(ms, "id"@)->0 is Num {
        d matches DeResultError::IdNotInteger(x) && member(ms, "id"@) == Some(JsonView::Num(x@))
    } else if !(member(ms, "id"@)->0 is Str || member(ms, "id"@)->0 is Int || member(ms, "id"@)->0 is Null) {
        d matches DeResultError::IdInvalidType(v) && member(ms, "id"@) == Some(v@)
    } else if member(ms, "result"@) is Some && member(ms, "error"@) is Some {
        d is ResultAndError
    } else if exists|k: Seq<char>| is_extra_key(ms, k) {
        d matches DeResultError::ExtraKeys(keys) && names_sorted(name_views(keys@)) && forall|k: Seq<char>|
            name_views(keys@).contains(k) <==> is_extra_key(ms, k)
    } else {
        d is Unmatched
    }
}

/// Whether `k` names a member among the first `n` that no response has.
pub open spec fn extra_key_before(members: Seq<(Seq<char>, JsonView)>, n: int, k: Seq<char>) -> bool {
    (exists|j: int| 0 <= j < n && #[trigger] members[j].0 == k) && !response_keys().contains(k)
}

/// The names of the members that no response has, each once for each time it occurs.
fn extra_keys(members: &Vec<(String, Json)>) -> (r: Vec<String>)
    ensures
        forall|k: Seq<char>| name_views(r@).contains(k) <==> is_extra_key(members_view(members@), k),
{
    let known = vec![
        String::from_str("jsonrpc"),
        String::from_str("id"),
        String::from_str("result"),
        String::from_str("error"),
    ];
    assert(known@.map_values(|s: String| s@) =~= response_keys());
    let ghost ms = members_view(members@);
    let mut out: Vec<String> = Vec::new();
    let mut i: usize = 0;
    while i < members.len()
        invariant
            i <= members.len(),
            ms == members_view(members@),
            known@.map_values(|s: String| s@) == response_keys(),
            forall|k: Seq<char>| name_views(out@).contains(k) <==> extra_key_before(ms, i as int, k),
        decreases members.len() - i,
    {
        let ghost before = name_views(out@);
        let key = &members[i].0;
        assert(ms[i as int].0 == key@);
        if !name_in(&known, key) {
            out.push(key.clone());
            assert(name_views(out@) =~= before.push(key@));
            assert forall|k: Seq<char>| name_views(out@).contains(k) <==> extra_key_before(ms, i + 1, k) by {
                if name_views(out@).contains(k) {
                    let m = choose|m: int| 0 <= m < name_views(out@).len() && name_views(out@)[m] == k;
                    if m < before.len() {
                        assert(before[m] == k);
                        assert(before.contains(k));
                        assert(extra_key_before(ms, i as int, k));
                        let j = choose|j: int| 0 <= j < i && #[trigger] ms[j].0 == k;
                        assert(0 <= j < i + 1 && ms[j].0 == k);
                    } else {
                        assert(ms[i as int].0 == k);
                    }
                }
                if extra_key_before(ms, i + 1, k) {
                    if k == key@ {
                        assert(name_views(out@)[before.len() as int] == k);
                    } else {
                        let j = choose|j: int| 0 <= j < i + 1 && #[trigger] ms[j].0 == k;
                        assert(j < i);
                        assert(extra_key_before(ms, i as int, k));
                        assert(before.contains(k));
                        let m = choose|m: int| 0 <= m < before.len() && before[m] == k;
                        assert(name_views(out@)[m] == k);
                    }
                }
            }
        } else {
            assert(response_keys().contains(key@));
            assert forall|k: Seq<char>| name_views(out@).contains(k) <==> extra_key_before(ms, i + 1, k) by {
                if name_views(out@).contains(k) {
                    assert(extra_key_before(ms, i as int, k));
                    let j = choose|j: int| 0 <= j < i && #[trigger] ms[j].0 == k;
                    assert(0 <= j < i + 1 && ms[j].0 == k);
                }
                if extra_key_before(ms, i + 1, k) {
                    let j = choose|j: int| 0 <= j < i + 1 && #[trigger] ms[j].0 == k;
                    assert(j != i);
                    assert(0 <= j < i && ms[j].0 == k);
                    assert(extra_key_before(ms, i as int, k));
                }
            }
        }
        i = i + 1;
    }
    assert forall|k: Seq<char>| name_views(out@).contains(k) <==> is_extra_key(ms, k) by {
        if name_views(out@).contains(k) {
            assert(extra_key_before(ms, members.len() as int, k));
            let j = choose|j: int| 0 <= j < members.len() && #[trigger] ms[j].0 == k;
            assert(has_key(ms, k));
        }
        if is_extra_key(ms, k) {
            let j = choose|j: int| 0 <= j < ms.len() && #[trigger] ms[j].0 == k;
            assert(0 <= j < members.len() && ms[j].0 == k);
            assert(extra_key_before(ms, members.len() as int, k));
        }
    }
    out
}

/// Tells why a tree is not a response, by the checks of [`diagnosis`] in turn;
/// `cause` is what is reported where none of them fails.
pub fn diagnose(j: &Json, cause: String) -> (d: DeResultError)
    ensures
        diagnosis(j@, d),
        d matches DeResultError::Unmatched(m) ==> m == cause,
{
    let members = match j {
        Json::Object(ms) => ms,
        _ => return DeResultError::NotAnObject(j.duplicate()),
    };
    proof {
        lemma_object_view(*members);
    }
    let ghost ms = members_view(members@);
    match find_member(members, "jsonrpc") {
        None => return DeResultError::JsonrpcMissing,
        Some(v) => match V2_0::from_json(v) {
            Ok(_) => {},
            Err(_) => return DeResultError::JsonrpcIncorrect(v.duplicate()),
        },
    }
    match find_member(members, "id") {
        None => return DeResultError::IdMissing,
        Some(Json::Num(t)) => return DeResultError::IdNotInteger(t.clone()),
        Some(Json::Str(_)) => {},
        Some(Json::Int(_)) => {},
        Some(Json::Null) => {},
        Some(v) => return DeResultError::IdInvalidType(v.duplicate()),
    }
    let has_result = match find_member(members, "result") {
        Some(_) => true,
        None => false,
    };
    let has_error = match find_member(members, "error") {
        Some(_) => true,
        None => false,
    };
    if has_result && has_error {
        return DeResultError::ResultAndError;
    }
    let extra = extra_keys(members);
    if extra.len() > 0 {
        assert(name_views(extra@)[0] == extra@[0]@);
        assert(name_views(extra@).contains(extra@[0]@));
        assert(is_extra_key(ms, extra@[0]@));
        let sorted = sort_names(extra);
        return DeResultError::ExtraKeys(sorted);
    }
    assert forall|k: Seq<char>| !is_extra_key(ms, k) by {
        if is_extra_key(ms, k) {
            assert(name_views(extra@).contains(k));
        }
    }
    DeResultError::Unmatched(cause)
}

/// Reads a response from JSON text, and where that fails, tells why as
/// precisely as it can.
///
/// The text is read as a response first, then as an error response; where
/// neither fits, it is examined: whether it is JSON, an object, with a correct
/// `jsonrpc` and `id`, without both `result` and `error`, and without other
/// members.
pub fn from_str<T: JsonCodec>(s: &str) -> (r: Result<Response<T>, DeResultError>)
    ensures
        match parsed_json(s@) {
            Err(m) => r matches Err(DeResultError::InvalidJson(e)) && e@ == m,
            Ok(j) => if response_decodable::<T>(j) {
                r matches Ok(v) && response_reads_as(j, v)
            } else {
                r matches Err(d) && diagnosis(j, d)
            },
        },
{
    let j = match parse_json(s) {
        Ok(j) => j,
        Err(e) => return Err(DeResultError::InvalidJson(e)),
    };
    let cause = match Response::<T>::from_json(&j) {
        Ok(r) => return Ok(r),
        Err(e) => e,
    };
    match Error::<Json>::from_json(&j) {
        Ok(e) => return Ok(Response::Error(e)),
        Err(_) => {},
    }
    Err(diagnose(&j, cause))
}

/// Parses a request from JSON text, or builds the error response that a server
/// sends back for it.
///
/// The text is read in stages. Text that is not JSON gives `ParseError`; JSON
/// that is not a request envelope gives `InvalidRequest`, with a null id since
/// no id can be trusted; an envelope whose method is not one of `M` gives
/// `MethodNotFound`, with the envelope's own id (null for a notification).
/// Each message says what was wrong; checking the parameters is left to the
/// caller.
pub fn parse_request<M: JsonCodec>(json: &str) -> (r: Result<Request<M, Json>, Error<Json>>)
    ensures
        match parsed_json(json@) {
            Err(m) => r matches Err(e) && e.error.code == ErrorCode::ParseError
                && e.id == Id::Null && e.error.message@ == m && e.error.data is None,
            Ok(j) => if !request_decodable::<Json, Json>(j) {
                r matches Err(e) && e.error.code == ErrorCode::InvalidRequest
                    && e.id == Id::Null && e.error.data is None
            } else if !M::decodable(member(j->Object_0, "method"@)->0) {
                r matches Err(e) && e.error.code == ErrorCode::MethodNotFound
                    && e.error.data is None
                    && match member(j->Object_0, "id"@) {
                        Some(i) => id_json(e.id) == i,
                        None => e.id == Id::Null,
                    }
            } else {
                r matches Ok(req) && request_reads_as(j, req)
            },
        },
{
    let value = match parse_json(json) {
        Ok(v) => v,
        Err(m) => return Err(Error::new(Id::Null, ErrorCode::ParseError, m, None)),
    };
    let request = match Request::<Json, Json>::from_json(&value) {
        Ok(x) => x,
        Err(m) => return Err(Error::new(Id::Null, ErrorCode::InvalidRequest, m, None)),
    };
    let Request { jsonrpc, method, params, id } = request;
    let method = match M::from_json(&method) {
        Ok(x) => x,
        Err(m) => {
            let reply_id = match id.to_id() {
                Some(x) => x,
                None => Id::Null,
            };
            return Err(Error::new(reply_id, ErrorCode::MethodNotFound, m, None));
        },
    };
    Ok(Request { jsonrpc: jsonrpc, method: method, params: params, id: id })
}

} // verus!
