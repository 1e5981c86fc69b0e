use vstd::prelude::*;

verus! {

/// A parsed JSON document of serde_json. The library never reads such a
/// value directly; the trusted conversion below mirrors it into the
/// library's own model first.
#[verifier::external_type_specification]
#[verifier::external_body]
pub struct ExValue(serde_json::Value);

/// The library's own image of a JSON document. Numbers are kept only as far
/// as the library reads them: an unsigned integer in range stays a number,
/// anything else is `OtherNumber`.
#[derive(Debug)]
pub enum JsonValue {
    Null,
    Bool(bool),
    Unsigned(u64),
    OtherNumber,
    Text(String),
    List(Vec<JsonValue>),
    Object(Vec<(String, JsonValue)>),
}

/// The JSON model of a text: the parsed document mirrored into `JsonValue`,
/// or nothing when the text is not JSON.
pub uninterp spec fn json_doc_of(s: Seq<char>) -> Option<JsonValue>;

/// Relies on serde_json::from_str for `Value`: parsing is a function of the
/// text alone; a syntax error yields nothing, and a parsed document is
/// mirrored into the library's model by `to_json_model`.
#[verifier::external_body]
pub(crate) fn parse_json_model(content: &str) -> (r: Option<JsonValue>)
    ensures
        r == json_doc_of(content@),
{
    match serde_json::from_str::<serde_json::Value>(content) {
        Ok(v) => Some(to_json_model(&v)),
        Err(_) => None,
    }
}

/// Relies on the variant readers of serde_json::Value (Number::as_u64 for
/// numbers): mirrors one parsed value into the library's model, one variant
/// to one variant, keys and text moved verbatim, in document order.
#[verifier::external_body]
fn to_json_model(value: &serde_json::Value) -> JsonValue {
    match value {
        serde_json::Value::Null => JsonValue::Null,
        serde_json::Value::Bool(b) => JsonValue::Bool(*b),
        serde_json::Value::Number(n) => n.as_u64().map_or(
            JsonValue::OtherNumber,
            JsonValue::Unsigned,
        ),
        serde_json::Value::String(s) => JsonValue::Text(s.clone()),
        serde_json::Value::Array(a) => JsonValue::List(a.iter().map(to_json_model).collect()),
        serde_json::Value::Object(m) => JsonValue::Object(
            m.iter().map(|(k, v)| (k.clone(), to_json_model(v))).collect(),
        ),
    }
}

/// The value under `key` among an object's entries: the first entry whose
/// key matches. The model of a parsed document never repeats a key, since
/// serde_json collapses duplicates into one map entry.
pub open spec fn spec_object_field(
    entries: Seq<(String, JsonValue)>,
    key: Seq<char>,
) -> Option<JsonValue>
    decreases entries.len(),
{
    if entries.len() == 0 {
        None
    } else if entries[0].0@ == key {
        Some(entries[0].1)
    } else {
        spec_object_field(entries.drop_first(), key)
    }
}

/// Looks a key up among the entries of an object of the model.
pub fn object_field<'a>(entries: &'a Vec<(String, JsonValue)>, key: &str) -> (r: Option<
    &'a JsonValue,
>)
    ensures
        r matches Some(v) ==> spec_object_field(entries@, key@) == Some(*v),
        r is None ==> spec_object_field(entries@, key@) is None,
{
    let key_string = String::from_str(key);
    let mut i: usize = 0;
    proof {
        assert(entries@.skip(0) =~= entries@);
    }
    while i < entries.len()
        invariant
            i <= entries@.len(),
            key_string@ == key@,
            spec_object_field(entries@, key@) == spec_object_field(
                entries@.skip(i as int),
                key@,
            ),
        decreases entries@.len() - i,
    {
        proof {
            assert(entries@.skip(i as int).drop_first() =~= entries@.skip(i + 1));
            assert(entries@.skip(i as int)[0] == entries@[i as int]);
        }
        if entries[i].0 == key_string {
            return Some(&entries[i].1);
        }
        i = i + 1;
    }
    None
}

} // verus!
