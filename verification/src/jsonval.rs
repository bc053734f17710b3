//! The interface description's value tree, and its parsing from JSON text.

use vstd::prelude::*;
use vstd::string::StrSliceExecFns;

verus! {

/// A parsed JSON value, held in the library's own shape. Numbers keep their
/// textual form: the interface description's consumed fields are all strings,
/// arrays and objects. Object fields keep their source order.
#[derive(Debug, PartialEq, Eq)]
pub enum JsonNode {
    Null,
    Bool(bool),
    Number(String),
    Str(String),
    Array(Vec<JsonNode>),
    Object(Vec<(String, JsonNode)>),
}

/// What JSON text parses to: a value when the text is a JSON document,
/// nothing when it is not. The result depends on the text alone.
pub uninterp spec fn parsed_json(s: Seq<char>) -> Option<JsonNode>;

/// The json crate's value type, declared so that the conversion below may
/// carry it; the library never looks inside a value of it.
#[verifier::external_type_specification]
#[verifier::external_body]
pub struct ExJsonValue(json::JsonValue);

/// Converts a json::JsonValue into the library's value type: one arm per
/// variant, moving the payloads over (numbers and short strings to their
/// textual form), recursively for arrays and objects.
#[verifier::external_body]
fn from_json(v: json::JsonValue) -> JsonNode {
    match v {
        json::JsonValue::Null => JsonNode::Null,
        json::JsonValue::Boolean(b) => JsonNode::Bool(b),
        json::JsonValue::Number(n) => JsonNode::Number(n.to_string()),
        json::JsonValue::Short(s) => JsonNode::Str(s.to_string()),
        json::JsonValue::String(s) => JsonNode::Str(s),
        json::JsonValue::Array(items) => JsonNode::Array(
            items.into_iter().map(from_json).collect(),
        ),
        json::JsonValue::Object(obj) => JsonNode::Object(
            obj.iter().map(|(k, x)| (k.to_string(), from_json(x.clone()))).collect(),
        ),
    }
}

/// Relies on json::parse for JSON syntax; the parsed value is brought into
/// the library's value type by from_json above.
#[verifier::external_body]
pub(crate) fn parse_json(s: &str) -> (r: Option<JsonNode>)
    ensures
        r == parsed_json(s@),
{
    match json::parse(s) {
        Ok(v) => Some(from_json(v)),
        Err(_) => None,
    }
}

/// The value of the first field named `key`, scanning in order.
pub open spec fn lookup_spec(fields: Seq<(String, JsonNode)>, key: Seq<char>) -> Option<
    JsonNode,
>
    decreases fields.len(),
{
    if fields.len() == 0 {
        None
    } else if fields[0].0@ == key {
        Some(fields[0].1)
    } else {
        lookup_spec(fields.drop_first(), key)
    }
}

/// The value of an object's field `key`; a non-object has no fields.
pub open spec fn field_spec(v: JsonNode, key: Seq<char>) -> Option<JsonNode> {
    match v {
        JsonNode::Object(fields) => lookup_spec(fields@, key),
        _ => None,
    }
}

/// Character-wise string slice equality.
pub fn str_eq(a: &str, b: &str) -> (r: bool)
    ensures
        r == (a@ == b@),
{
    let m = a.unicode_len();
    let n = b.unicode_len();
    if m != n {
        return false;
    }
    let mut i: usize = 0;
    while i < n
        invariant
            m == n == a@.len() == b@.len(),
            0 <= i <= n,
            forall|k: int| 0 <= k < i ==> a@[k] == b@[k],
        decreases n - i,
    {
        if a.get_char(i) != b.get_char(i) {
            return false;
        }
        i = i + 1;
    }
    proof {
        assert(a@ =~= b@);
    }
    true
}

/// Looks a field up in order; `None` both for a missing field and for a
/// non-object value.
pub fn get_field<'a>(v: &'a JsonNode, key: &str) -> (r: Option<&'a JsonNode>)
    ensures
        match r {
            Some(x) => field_spec(*v, key@) == Some(*x),
            None => field_spec(*v, key@) is None,
        },
{
    match v {
        JsonNode::Object(fields) => {
            let mut i: usize = 0;
            proof {
                assert(fields@.skip(0) =~= fields@);
            }
            while i < fields.len()
                invariant
                    0 <= i <= fields@.len(),
                    *v is Object,
                    (*v)->Object_0 == *fields,
                    lookup_spec(fields@, key@) == lookup_spec(fields@.skip(i as int), key@),
                decreases fields@.len() - i,
            {
                proof {
                    assert(fields@.skip(i as int)[0] == fields@[i as int]);
                    assert(fields@.skip(i as int).drop_first() =~= fields@.skip(i as int + 1));
                }
                if str_eq(fields[i].0.as_str(), key) {
                    proof {
                        assert(lookup_spec(fields@.skip(i as int), key@) == Some(
                            fields@[i as int].1,
                        ));
                    }
                    return Some(&fields[i].1);
                }
                i = i + 1;
            }
            proof {
                assert(fields@.skip(fields@.len() as int).len() == 0);
            }
            None
        },
        _ => None,
    }
}

} // verus!
