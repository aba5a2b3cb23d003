//! A JSON document as a tree of plain values, and its text form.
use serde_json::{Number, Value};
use vstd::prelude::*;

verus! {

broadcast use vstd::std_specs::vec::axiom_vec_index_decreases;

/// A JSON document as a tree of plain values.
#[derive(Debug, PartialEq)]
pub enum Json {
    Null,
    Bool(bool),
    /// A number that is an integer within the range of `i64`.
    Int(i64),
    /// Any other number, kept as its textual form.
    Num(String),
    Str(String),
    Array(Vec<Json>),
    /// The members of an object, in document order.
    Object(Vec<(String, Json)>),
}

/// The mathematical model of a [`Json`] value.
pub enum JsonView {
    Null,
    Bool(bool),
    Int(int),
    Num(Seq<char>),
    Str(Seq<char>),
    Array(Seq<JsonView>),
    Object(Seq<(Seq<char>, JsonView)>),
}

impl View for Json {
    type V = JsonView;

    open spec fn view(&self) -> JsonView
        decreases self,
    {
        match self {
            Json::Null => JsonView::Null,
            Json::Bool(b) => JsonView::Bool(*b),
            Json::Int(i) => JsonView::Int(*i as int),
            Json::Num(s) => JsonView::Num(s@),
            Json::Str(s) => JsonView::Str(s@),
            Json::Array(items) => JsonView::Array(
                Seq::new(items.len() as nat, |i: int| if 0 <= i < items.len() { items[i].view() } else { JsonView::Null }),
            ),
            Json::Object(members) => JsonView::Object(
                Seq::new(
                    members.len() as nat,
                    |i: int|
                        (
                            members[i].0@,
                            if 0 <= i < members.len() {
                                members[i].1.view()
                            } else {
                                JsonView::Null
                            },
                        ),
                ),
            ),
        }
    }
}

/// The members of an object's model, in order.
pub open spec fn members_view(members: Seq<(String, Json)>) -> Seq<(Seq<char>, JsonView)> {
    Seq::new(members.len(), |i: int| (members[i].0@, members[i].1@))
}

/// The value of the first member named `key`, if there is one.
pub open spec fn member(members: Seq<(Seq<char>, JsonView)>, key: Seq<char>) -> Option<JsonView>
    decreases members.len(),
{
    if members.len() == 0 {
        None
    } else if members[0].0 == key {
        Some(members[0].1)
    } else {
        member(members.drop_first(), key)
    }
}

/// Whether some member is named `key`.
pub open spec fn has_key(members: Seq<(Seq<char>, JsonView)>, key: Seq<char>) -> bool {
    exists|i: int| 0 <= i < members.len() && #[trigger] members[i].0 == key
}

/// An object has a member of some name exactly when looking it up finds one.
pub proof fn lemma_member_has_key(members: Seq<(Seq<char>, JsonView)>, key: Seq<char>)
    ensures
        member(members, key) is Some <==> has_key(members, key),
    decreases members.len(),
{
    if members.len() > 0 {
        lemma_member_has_key(members.drop_first(), key);
        if has_key(members, key) && members[0].0 != key {
            let i = choose|i: int| 0 <= i < members.len() && #[trigger] members[i].0 == key;
            assert(members.drop_first()[i - 1].0 == key);
        }
        if has_key(members.drop_first(), key) {
            let i = choose|i: int| 0 <= i < members.len() - 1 && #[trigger] members.drop_first()[i].0 == key;
            assert(members[i + 1].0 == key);
        }
    }
}

/// An object's model lists its members' models in order.
pub proof fn lemma_object_view(members: Vec<(String, Json)>)
    ensures
        Json::Object(members)@ == JsonView::Object(members_view(members@)),
{
    assert(Json::Object(members)@->Object_0 =~= members_view(members@));
}

impl Json {
    /// A copy of this tree.
    pub fn duplicate(&self) -> (r: Json)
        ensures
            r@ == self@,
        decreases self,
    {
        match self {
            Json::Null => Json::Null,
            Json::Bool(b) => Json::Bool(*b),
            Json::Int(i) => Json::Int(*i),
            Json::Num(t) => Json::Num(t.clone()),
            Json::Str(t) => Json::Str(t.clone()),
            Json::Array(items) => {
                let mut out: Vec<Json> = Vec::new();
                let mut i: usize = 0;
                while i < items.len()
                    invariant
                        i <= items.len(),
                        self is Array,
                        self->Array_0 == *items,
                        out.len() == i,
                        forall|k: int| 0 <= k < i ==> (#[trigger] out[k])@ == items[k]@,
                    decreases items.len() - i,
                {
                    proof {
                        assert(decreases_to!(*self => self->Array_0));
                        assert(decreases_to!(*items => items[i as int]));
                    }
                    out.push(items[i].duplicate());
                    i = i + 1;
                }
                let r = Json::Array(out);
                assert(r@ == self@) by {
                    if let (JsonView::Array(a), JsonView::Array(b)) = (r@, self@) {
                        assert(a.len() == b.len());
                        assert forall|k: int| 0 <= k < a.len() implies a[k] == b[k] by {}
                        assert(a =~= b);
                    }
                }
                r
            },
            Json::Object(members) => {
                let mut out: Vec<(String, Json)> = Vec::new();
                let mut i: usize = 0;
                while i < members.len()
                    invariant
                        i <= members.len(),
                        self is Object,
                        self->Object_0 == *members,
                        out.len() == i,
                        forall|k: int| 0 <= k < i ==> (#[trigger] out[k]).0@ == members[k].0@ && out[k].1@ == members[k].1@,
                    decreases members.len() - i,
                {
                    let key = members[i].0.clone();
                    proof {
                        assert(decreases_to!(*self => self->Object_0));
                        assert(decreases_to!(*members => members[i as int]));
                        assert(decreases_to!(members[i as int] => members[i as int].1));
                    }
                    let value = members[i].1.duplicate();
                    out.push((key, value));
                    i = i + 1;
                }
                let r = Json::Object(out);
                assert(r@ == self@) by {
                    if let (JsonView::Object(a), JsonView::Object(b)) = (r@, self@) {
                        assert(a.len() == b.len());
                        assert forall|k: int| 0 <= k < a.len() implies a[k] == b[k] by {}
                        assert(a =~= b);
                    }
                }
                r
            },
        }
    }
}

/// The value of the first member named `key` among an object's members.
pub fn find_member<'a>(members: &'a Vec<(String, Json)>, key: &str) -> (r: Option<&'a Json>)
    ensures
        match r {
            Some(v) => member(members_view(members@), key@) == Some(v@),
            None => member(members_view(members@), key@) is None,
        },
{
    let name = String::from_str(key);
    let ghost all = members_view(members@);
    let mut i: usize = 0;
    assert(all.subrange(0, all.len() as int) =~= all);
    while i < members.len()
        invariant
            i <= members.len(),
            all == members_view(members@),
            name@ == key@,
            member(all, key@) == member(all.subrange(i as int, all.len() as int), key@),
        decreases members.len() - i,
    {
        let ghost rest = all.subrange(i as int, all.len() as int);
        assert(rest[0] == all[i as int]);
        assert(all[i as int] == (members[i as int].0@, members[i as int].1@));
        if members[i].0 == name {
            return Some(&members[i].1);
        }
        assert(rest.drop_first() =~= all.subrange(i + 1, all.len() as int));
        i = i + 1;
    }
    None
}

/// Whether every member of an object is named by one of `allowed`.
pub open spec fn keys_within(members: Seq<(Seq<char>, JsonView)>, allowed: Seq<Seq<char>>) -> bool {
    forall|i: int| 0 <= i < members.len() ==> allowed.contains(#[trigger] members[i].0)
}

/// Whether a name is among the views of some strings.
pub fn name_in(names: &Vec<String>, key: &String) -> (r: bool)
    ensures
        r == names@.map_values(|s: String| s@).contains(key@),
{
    let ghost views = names@.map_values(|s: String| s@);
    let mut i: usize = 0;
    while i < names.len()
        invariant
            i <= names.len(),
            views == names@.map_values(|s: String| s@),
            forall|k: int| 0 <= k < i ==> views[k] != key@,
        decreases names.len() - i,
    {
        if names[i] == *key {
            assert(views[i as int] == key@);
            return true;
        }
        i = i + 1;
    }
    false
}

/// The position of the first member whose name is not among `allowed`, if any.
pub fn first_key_outside(members: &Vec<(String, Json)>, allowed: &Vec<String>) -> (r: Option<usize>)
    ensures
        r is None <==> keys_within(members_view(members@), allowed@.map_values(|s: String| s@)),
        r matches Some(i) ==> i < members.len()
            && !allowed@.map_values(|s: String| s@).contains(members[i as int].0@),
{
    let ghost all = members_view(members@);
    let ghost names = allowed@.map_values(|s: String| s@);
    let mut i: usize = 0;
    while i < members.len()
        invariant
            i <= members.len(),
            all == members_view(members@),
            names == allowed@.map_values(|s: String| s@),
            forall|k: int| 0 <= k < i ==> names.contains(#[trigger] all[k].0),
        decreases members.len() - i,
    {
        if !name_in(allowed, &members[i].0) {
            assert(all[i as int].0 == members[i as int].0@);
            assert(!names.contains(all[i as int].0));
            assert(!keys_within(all, names));
            return Some(i);
        }
        i = i + 1;
    }
    None
}

/// Appends a member to an object under construction.
pub fn push_member(members: &mut Vec<(String, Json)>, key: &str, value: Json)
    ensures
        members_view(final(members)@) == members_view(old(members)@).push((key@, value@)),
{
    let ghost before = members_view(members@);
    members.push((String::from_str(key), value));
    assert(members_view(members@) =~= before.push((key@, value@)));
}

/// The outside JSON tree that the text codec works on.
#[verifier::external_type_specification]
#[verifier::external_body]
pub struct ExValue(Value);

/// What `serde_json::from_str` makes of a text: a tree, or the words of its syntax error.
pub uninterp spec fn parsed_json(text: Seq<char>) -> Result<JsonView, Seq<char>>;

/// What `serde_json::to_string` writes for a tree: compact text, members in their order.
pub uninterp spec fn json_text(j: JsonView) -> Seq<char>;

/// Converts a `serde_json::Value` into a [`Json`], node for node. Relies on
/// `Number::as_i64` to tell the integers within `i64`, and on `Number`'s
/// `Display` for the text of other numbers.
#[verifier::external_body]
fn json_from_value(v: Value) -> Json {
    match v {
        Value::Null => Json::Null,
        Value::Bool(b) => Json::Bool(b),
        Value::Number(n) => match n.as_i64() {
            Some(i) => Json::Int(i),
            None => Json::Num(n.to_string()),
        },
        Value::String(s) => Json::Str(s),
        Value::Array(a) => Json::Array(a.into_iter().map(json_from_value).collect()),
        Value::Object(o) => Json::Object(o.into_iter().map(|(k, x)| (k, json_from_value(x))).collect()),
    }
}

/// Converts a [`Json`] into a `serde_json::Value`, node for node. Relies on
/// `Number`'s `FromStr` to read back the text of a number that is not an `i64`.
#[verifier::external_body]
fn value_from_json(j: &Json) -> Value {
    match j {
        Json::Null => Value::Null,
        Json::Bool(b) => Value::Bool(*b),
        Json::Int(i) => Value::from(*i),
        Json::Num(t) => t.parse::<Number>().map_or(Value::Null, Value::Number),
        Json::Str(s) => Value::String(s.clone()),
        Json::Array(a) => Value::Array(a.iter().map(value_from_json).collect()),
        Json::Object(o) => Value::Object(o.iter().map(|(k, x)| (k.clone(), value_from_json(x))).collect()),
    }
}

/// Relies on `serde_json::from_str::<serde_json::Value>`: parses a text into a
/// tree, or reports its syntax error; the outcome depends on the text alone.
/// With the `preserve_order` feature the members keep their order in the text.
#[verifier::external_body]
pub(crate) fn parse_json(text: &str) -> (r: Result<Json, String>)
    ensures
        match r {
            Ok(j) => parsed_json(text@) == Ok::<JsonView, Seq<char>>(j@),
            Err(e) => parsed_json(text@) == Err::<JsonView, Seq<char>>(e@),
        },
{
    serde_json::from_str::<Value>(text).map(json_from_value).map_err(|e| e.to_string())
}

/// Relies on `serde_json::to_string` on a `serde_json::Value`: writes the tree
/// as compact text, members in their order; the text depends on the tree alone.
/// Writing a `Value` cannot fail, as its object keys are strings.
#[verifier::external_body]
pub(crate) fn write_json(j: &Json) -> (r: String)
    ensures
        r@ == json_text(j@),
{
    serde_json::to_string(&value_from_json(j)).unwrap_or_default()
}

} // verus!
