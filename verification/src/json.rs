use vstd::prelude::*;

verus! {

/// A member of a JSON object: its text when the value is a JSON string, and
/// the value written back as compact JSON.
#[derive(Clone, Debug)]
pub struct JsonMember {
    pub text: Option<String>,
    pub serialized: String,
}

/// What `serde_json` makes of `key` in the JSON text `line`: `None` when the
/// line is not JSON, `Some(None)` when it has no member `key` (or is not an
/// object), else the member's string value (`Value::as_str`) and its compact
/// JSON text (`Value::to_string`).
pub uninterp spec fn json_member_of(line: Seq<char>, key: Seq<char>) -> Option<
    Option<(Option<Seq<char>>, Seq<char>)>,
>;

pub open spec fn member_view(m: Option<JsonMember>) -> Option<(Option<Seq<char>>, Seq<char>)> {
    match m {
        Some(j) => Some(
            (
                match j.text {
                    Some(t) => Some(t@),
                    None => None,
                },
                j.serialized@,
            ),
        ),
        None => None,
    }
}

pub open spec fn lookup_view(r: Option<Option<JsonMember>>) -> Option<
    Option<(Option<Seq<char>>, Seq<char>)>,
> {
    match r {
        Some(m) => Some(member_view(m)),
        None => None,
    }
}

/// `serde_json::from_str::<Value>` on the line, then `Value::get(key)` on
/// what it parsed, the member read with `Value::as_str` and written back with
/// `Value::to_string`: the result is the one `json_member_of` names for these
/// arguments. Nothing is claimed of how serde_json parses or writes JSON.
#[verifier::external_body]
pub(crate) fn json_lookup(line: &str, key: &str) -> (res: Option<Option<JsonMember>>)
    ensures
        lookup_view(res) == json_member_of(line@, key@),
{
    match serde_json::from_str::<serde_json::Value>(line) {
        Err(_) => None,
        Ok(v) => match v.get(key) {
            None => Some(None),
            Some(m) => Some(
                Some(JsonMember { text: m.as_str().map(|t| t.to_string()), serialized: m.to_string() }),
            ),
        },
    }
}

/// The member `key` of the JSON object on `line`; `None` when the line is not
/// JSON or has no such member.
pub open spec fn json_field(line: Seq<char>, key: Seq<char>) -> Option<(Option<Seq<char>>, Seq<char>)> {
    match json_member_of(line, key) {
        Some(m) => m,
        None => None,
    }
}

/// The member `key` of the JSON object on `line`, if the line is JSON and has it.
pub fn json_field_of(line: &str, key: &str) -> (res: Option<JsonMember>)
    ensures
        member_view(res) == json_field(line@, key@),
{
    match json_lookup(line, key) {
        Some(m) => m,
        None => None,
    }
}

} // verus!
