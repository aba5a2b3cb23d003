//! Writing values as JSON trees and reading them back.
use vstd::prelude::*;
use crate::json::{json_text, parse_json, parsed_json, write_json, Json, JsonView};

verus! {

broadcast use vstd::std_specs::vec::axiom_vec_index_decreases;

/// A type whose values are written to and read from JSON trees.
///
/// A tree is read exactly when it is `decodable`, and then the value read is
/// the one that `reads_as` relates to it.
pub trait JsonCodec: Sized {
    /// The tree that a value is written as.
    spec fn encoded(&self) -> JsonView;

    /// Whether a tree is read as a value of this type.
    spec fn decodable(j: JsonView) -> bool;

    /// Whether `v` is the value that the tree `j` is read as.
    spec fn reads_as(j: JsonView, v: Self) -> bool;

    /// Writes this value as a tree.
    fn to_json(&self) -> (r: Json)
        ensures
            r@ == self.encoded(),
    ;

    /// Reads a value from a tree, or says why it cannot be read.
    fn from_json(j: &Json) -> (r: Result<Self, String>)
        ensures
            r is Ok <==> Self::decodable(j@),
            r matches Ok(v) ==> Self::reads_as(j@, v),
    ;
}

/// A message that a tree has the wrong shape for what was asked of it.
pub fn invalid_type(expected: &str) -> (r: String)
    ensures
        r@ == "invalid type: expected "@ + expected@,
{
    let mut m = String::from_str("invalid type: expected ");
    m.append(expected);
    m
}

impl JsonCodec for Json {
    open spec fn reads_as(j: JsonView, v: Json) -> bool {
        v.encoded() == j
    }

    open spec fn encoded(&self) -> JsonView {
        self@
    }

    open spec fn decodable(j: JsonView) -> bool {
        true
    }

    fn to_json(&self) -> (r: Json) {
        self.duplicate()
    }

    fn from_json(j: &Json) -> (r: Result<Json, String>) {
        Ok(j.duplicate())
    }
}

impl JsonCodec for String {
    open spec fn reads_as(j: JsonView, v: String) -> bool {
        v.encoded() == j
    }

    open spec fn encoded(&self) -> JsonView {
        JsonView::Str(self@)
    }

    open spec fn decodable(j: JsonView) -> bool {
        j is Str
    }

    fn to_json(&self) -> (r: Json) {
        Json::Str(self.clone())
    }

    fn from_json(j: &Json) -> (r: Result<String, String>) {
        match j {
            Json::Str(s) => Ok(s.clone()),
            _ => Err(invalid_type("a string")),
        }
    }
}

impl JsonCodec for i64 {
    open spec fn reads_as(j: JsonView, v: i64) -> bool {
        v.encoded() == j
    }

    open spec fn encoded(&self) -> JsonView {
        JsonView::Int(*self as int)
    }

    open spec fn decodable(j: JsonView) -> bool {
        j is Int
    }

    fn to_json(&self) -> (r: Json) {
        Json::Int(*self)
    }

    fn from_json(j: &Json) -> (r: Result<i64, String>) {
        match j {
            Json::Int(i) => Ok(*i),
            _ => Err(invalid_type("an i64 integer")),
        }
    }
}

impl JsonCodec for u32 {
    open spec fn reads_as(j: JsonView, v: u32) -> bool {
        v.encoded() == j
    }

    open spec fn encoded(&self) -> JsonView {
        JsonView::Int(*self as int)
    }

    open spec fn decodable(j: JsonView) -> bool {
        j matches JsonView::Int(i) && 0 <= i <= u32::MAX
    }

    fn to_json(&self) -> (r: Json) {
        Json::Int(*self as i64)
    }

    fn from_json(j: &Json) -> (r: Result<u32, String>) {
        match j {
            Json::Int(i) => {
                if 0 <= *i && *i <= u32::MAX as i64 {
                    Ok(*i as u32)
                } else {
                    Err(invalid_type("a u32 integer"))
                }
            },
            _ => Err(invalid_type("a u32 integer")),
        }
    }
}

impl JsonCodec for bool {
    open spec fn reads_as(j: JsonView, v: bool) -> bool {
        v.encoded() == j
    }

    open spec fn encoded(&self) -> JsonView {
        JsonView::Bool(*self)
    }

    open spec fn decodable(j: JsonView) -> bool {
        j is Bool
    }

    fn to_json(&self) -> (r: Json) {
        Json::Bool(*self)
    }

    fn from_json(j: &Json) -> (r: Result<bool, String>) {
        match j {
            Json::Bool(b) => Ok(*b),
            _ => Err(invalid_type("a boolean")),
        }
    }
}

impl JsonCodec for () {
    open spec fn reads_as(j: JsonView, v: ()) -> bool {
        v.encoded() == j
    }

    open spec fn encoded(&self) -> JsonView {
        JsonView::Null
    }

    open spec fn decodable(j: JsonView) -> bool {
        j is Null
    }

    fn to_json(&self) -> (r: Json) {
        Json::Null
    }

    fn from_json(j: &Json) -> (r: Result<(), String>) {
        match j {
            Json::Null => Ok(()),
            _ => Err(invalid_type("null")),
        }
    }
}

impl<T: JsonCodec> JsonCodec for Option<T> {
    /// `None` is written as `null`.
    open spec fn encoded(&self) -> JsonView {
        match self {
            Some(v) => v.encoded(),
            None => JsonView::Null,
        }
    }

    open spec fn decodable(j: JsonView) -> bool {
        j is Null || T::decodable(j)
    }

    open spec fn reads_as(j: JsonView, v: Option<T>) -> bool {
        match v {
            None => j is Null,
            Some(x) => j !is Null && T::reads_as(j, x),
        }
    }

    fn to_json(&self) -> (r: Json) {
        match self {
            Some(v) => v.to_json(),
            None => Json::Null,
        }
    }

    fn from_json(j: &Json) -> (r: Result<Option<T>, String>) {
        match j {
            Json::Null => Ok(None),
            _ => match T::from_json(j) {
                Ok(v) => Ok(Some(v)),
                Err(e) => Err(e),
            },
        }
    }
}

impl<T: JsonCodec> JsonCodec for Vec<T> {
    open spec fn encoded(&self) -> JsonView {
        JsonView::Array(self@.map_values(|v: T| v.encoded()))
    }

    open spec fn decodable(j: JsonView) -> bool {
        j matches JsonView::Array(items) && forall|i: int|
            0 <= i < items.len() ==> T::decodable(#[trigger] items[i])
    }

    open spec fn reads_as(j: JsonView, v: Vec<T>) -> bool {
        j matches JsonView::Array(items) && items.len() == v.len() && forall|i: int|
            0 <= i < items.len() ==> T::reads_as(#[trigger] items[i], v[i])
    }

    fn to_json(&self) -> (r: Json) {
        let mut out: Vec<Json> = Vec::new();
        let mut i: usize = 0;
        while i < self.len()
            invariant
                i <= self.len(),
                out.len() == i,
                forall|k: int| 0 <= k < i ==> (#[trigger] out[k])@ == self[k].encoded(),
            decreases self.len() - i,
        {
            out.push(self[i].to_json());
            i = i + 1;
        }
        let r = Json::Array(out);
        assert(r@->Array_0 =~= self@.map_values(|v: T| v.encoded()));
        r
    }

    fn from_json(j: &Json) -> (r: Result<Vec<T>, String>) {
        match j {
            Json::Array(items) => {
                let ghost view = j@->Array_0;
                assert(j@ is Array);
                assert(forall|k: int| 0 <= k < items.len() ==> #[trigger] view[k] == items[k]@);
                let mut out: Vec<T> = Vec::new();
                let mut i: usize = 0;
                while i < items.len()
                    invariant
                        i <= items.len(),
                        out.len() == i,
                        j@ is Array,
                        view == j@->Array_0,
                        view.len() == items.len(),
                        forall|k: int| 0 <= k < items.len() ==> #[trigger] view[k] == items[k]@,
                        forall|k: int| 0 <= k < i ==> T::decodable(#[trigger] view[k]),
                        forall|k: int| 0 <= k < i ==> T::reads_as(#[trigger] view[k], out[k]),
                    decreases items.len() - i,
                {
                    match T::from_json(&items[i]) {
                        Ok(v) => out.push(v),
                        Err(e) => {
                            assert(!T::decodable(view[i as int]));
                            assert(!Self::decodable(j@));
                            return Err(e);
                        },
                    }
                    i = i + 1;
                }
                Ok(out)
            },
            _ => Err(invalid_type("an array")),
        }
    }
}

} // verus!

verus! {

/// The message given when an object lacks a member that is required.
pub fn missing_field(name: &str) -> (r: String)
    ensures
        r@ == "missing field `"@ + name@ + "`"@,
{
    let mut m = String::from_str("missing field `");
    m.append(name);
    m.append("`");
    m
}

/// The message given when an object has a member that is not allowed.
pub fn unknown_field(name: &String) -> (r: String)
    ensures
        r@ == "unknown field `"@ + name@ + "`"@,
{
    let mut m = String::from_str("unknown field `");
    m.append(name.as_str());
    m.append("`");
    m
}

/// Writes a value as compact JSON text.
pub fn encode_text<V: JsonCodec>(v: &V) -> (r: String)
    ensures
        r@ == json_text(v.encoded()),
{
    let j = v.to_json();
    write_json(&j)
}

/// Reads a value from JSON text: the text must parse, and its tree must be decodable.
pub fn decode_text<V: JsonCodec>(text: &str) -> (r: Result<V, String>)
    ensures
        match parsed_json(text@) {
            Err(m) => r matches Err(e) && e@ == m,
            Ok(j) => (r is Ok <==> V::decodable(j)) && (r matches Ok(v) ==> V::reads_as(j, v)),
        },
{
    match parse_json(text) {
        Ok(j) => V::from_json(&j),
        Err(e) => Err(e),
    }
}

} // verus!
