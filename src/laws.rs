//! Properties that relate reading and writing messages.
use vstd::prelude::*;
use crate::codec::JsonCodec;
use crate::decode::{diagnosis, DeResultError};
use crate::id::{version_json, IdReq};
use crate::json::{has_key, lemma_member_has_key, member, JsonView};
use crate::request::{request_decodable, request_members, request_reads_as, Request};
use crate::response::{error_decodable, error_keys, response_decodable, success_decodable, success_keys};

verus! {

/// Learns the characters of the member names.
proof fn lemma_names_distinct()
    ensures
        "id"@ != "jsonrpc"@,
        "id"@ != "method"@,
        "id"@ != "params"@,
        "error"@ != "jsonrpc"@,
        "error"@ != "result"@,
        "error"@ != "id"@,
        "result"@ != "jsonrpc"@,
        "result"@ != "id"@,
{
    reveal_strlit("id");
    reveal_strlit("jsonrpc");
    reveal_strlit("method");
    reveal_strlit("params");
    reveal_strlit("error");
    reveal_strlit("result");
    assert("id"@.len() == 2 && "jsonrpc"@.len() == 7 && "method"@.len() == 6);
    assert("error"@[0] != "result"@[0]);
}

/// A notification is written without an `id` member, not with a null one; and
/// reading a request tells an absent `id` (a notification) from an `id` of null.
pub proof fn lemma_notification_id<M: JsonCodec, T: JsonCodec>(r: Request<M, T>, j: JsonView, v: Request<M, T>)
    ensures
        r.id is Notification ==> !has_key(request_members(r), "id"@),
        r.id !is Notification ==> has_key(request_members(r), "id"@),
        j is Object && member(j->Object_0, "id"@) is None && request_reads_as(j, v) ==> v.id is Notification,
        j is Object && member(j->Object_0, "id"@) == Some(JsonView::Null) && request_reads_as(j, v) ==> v.id == IdReq::Null,
{
    lemma_names_distinct();
    let ms = request_members(r);
    if r.id is Notification {
        if has_key(ms, "id"@) {
            let i = choose|i: int| 0 <= i < ms.len() && #[trigger] ms[i].0 == "id"@;
            assert(ms[i].0 == "jsonrpc"@ || ms[i].0 == "method"@ || ms[i].0 == "params"@);
        }
    } else {
        assert(ms[ms.len() - 1].0 == "id"@);
    }
}

/// Only the exact string `"2.0"` as the `jsonrpc` member makes an object a
/// request or a response; an absent or different marker never does.
pub proof fn lemma_version_required<M: JsonCodec, T: JsonCodec>(j: JsonView)
    requires
        j is Object,
        member(j->Object_0, "jsonrpc"@) != Some(version_json()),
    ensures
        !request_decodable::<M, T>(j),
        !response_decodable::<T>(j),
{
}

/// An object with both a `result` and an `error` member is no response, and is
/// diagnosed as such once its `jsonrpc` and `id` members are sound.
pub proof fn lemma_result_and_error<T: JsonCodec>(j: JsonView, d: DeResultError)
    requires
        j is Object,
        member(j->Object_0, "result"@) is Some,
        member(j->Object_0, "error"@) is Some,
    ensures
        !response_decodable::<T>(j),
        member(j->Object_0, "jsonrpc"@) == Some(version_json())
            && member(j->Object_0, "id"@) is Some
            && (member(j->Object_0, "id"@)->0 is Str || member(j->Object_0, "id"@)->0 is Int
            || member(j->Object_0, "id"@)->0 is Null)
            && diagnosis(j, d) ==> d is ResultAndError,
{
    lemma_names_distinct();
    let ms = j->Object_0;
    lemma_member_has_key(ms, "result"@);
    lemma_member_has_key(ms, "error"@);
    if success_decodable::<T>(j) {
        let i = choose|i: int| 0 <= i < ms.len() && #[trigger] ms[i].0 == "error"@;
        assert(success_keys().contains(ms[i].0));
        assert(false);
    }
    if error_decodable::<crate::json::Json>(j) {
        let i = choose|i: int| 0 <= i < ms.len() && #[trigger] ms[i].0 == "result"@;
        assert(error_keys().contains(ms[i].0));
        assert(false);
    }
}

/// No tree is read both as a success and as an error response: the two shapes
/// of a response exclude each other.
pub proof fn lemma_shapes_exclusive<T: JsonCodec, U: JsonCodec>(j: JsonView)
    ensures
        !(success_decodable::<T>(j) && error_decodable::<U>(j)),
{
    lemma_names_distinct();
    if success_decodable::<T>(j) && error_decodable::<U>(j) {
        let ms = j->Object_0;
        lemma_member_has_key(ms, "result"@);
        let i = choose|i: int| 0 <= i < ms.len() && #[trigger] ms[i].0 == "result"@;
        assert(error_keys().contains(ms[i].0));
    }
}

/// An `id` that is a number but not an integer within `i64` is never read as an
/// id: such an object is no request and no response, and is diagnosed as
/// having a non-integral id once its `jsonrpc` member is sound.
pub proof fn lemma_fractional_id<M: JsonCodec, T: JsonCodec>(j: JsonView, t: Seq<char>, d: DeResultError)
    requires
        j is Object,
        member(j->Object_0, "id"@) == Some(JsonView::Num(t)),
    ensures
        !request_decodable::<M, T>(j),
        !response_decodable::<T>(j),
        member(j->Object_0, "jsonrpc"@) == Some(version_json()) && diagnosis(j, d)
            ==> (d matches DeResultError::IdNotInteger(x) && x@ == t),
{
}

} // verus!
