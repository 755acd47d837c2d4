//! JSON documents. A document that is only carried along stays a
//! `serde_json::Value`; one that is read is first turned into plain entries.

use vstd::prelude::*;

verus! {

/// A JSON document of `serde_json`, carried through without looking inside.
#[verifier::external_type_specification]
#[verifier::external_body]
pub struct ExValue(serde_json::Value);

/// `Clone` of `serde_json::Value`: the copy is the same document.
pub assume_specification[ <serde_json::Value as Clone>::clone ](
    value: &serde_json::Value,
) -> (res: serde_json::Value)
    ensures
        res == *value,
;

/// What a document holds, as the compact JSON text that `serde_json` writes
/// for it.
pub uninterp spec fn json_text(value: serde_json::Value) -> Seq<char>;

/// What `serde_json` makes of a text that should hold a JSON object: the
/// error's message where the text is no JSON; else the members of the object
/// in the order in which the parsed document lists them, each with its name
/// and, where it is a string, its value; no member where the document is not
/// an object.
pub uninterp spec fn json_object_members(text: Seq<char>) -> Result<
    Seq<(Seq<char>, Option<Seq<char>>)>,
    Seq<char>,
>;

/// One member of a JSON object: its name and, where it is a string, its
/// value.
pub struct JsonMember {
    pub name: String,
    pub text: Option<String>,
}

impl View for JsonMember {
    type V = (Seq<char>, Option<Seq<char>>);

    open spec fn view(&self) -> (Seq<char>, Option<Seq<char>>) {
        (
            self.name@,
            match self.text {
                Some(t) => Some(t@),
                None => None,
            },
        )
    }
}

/// The views of the members, in their order.
pub open spec fn member_views(members: Seq<JsonMember>) -> Seq<(Seq<char>, Option<Seq<char>>)> {
    members.map_values(|m: JsonMember| m@)
}

/// Calls `serde_json::to_string` on a document. Writing a document cannot
/// fail: it is written into memory, its numbers are finite and the names of
/// its members are strings. So the result is always the document's compact
/// text.
#[verifier::external_body]
pub(crate) fn value_to_string(value: &serde_json::Value) -> (res: Result<String, String>)
    ensures
        match res {
            Ok(s) => s@ == json_text(*value),
            Err(_) => false,
        },
{
    serde_json::to_string(value).map_err(|e| e.to_string())
}

/// Calls `serde_json::from_str` for a `serde_json::Value` and lists the
/// members of the object that it parsed.
#[verifier::external_body]
pub(crate) fn parse_object_members(text: &str) -> (res: Result<Vec<JsonMember>, String>)
    ensures
        match res {
            Ok(members) => json_object_members(text@) == Ok::<_, Seq<char>>(
                member_views(members@),
            ),
            Err(message) => json_object_members(text@) == Err::<
                Seq<(Seq<char>, Option<Seq<char>>)>,
                _,
            >(message@),
        },
{
    match serde_json::from_str::<serde_json::Value>(text) {
        Ok(value) => Ok(
            value.as_object().into_iter().flatten().map(
                |(k, v)| JsonMember { name: k.clone(), text: v.as_str().map(String::from) },
            ).collect(),
        ),
        Err(e) => Err(e.to_string()),
    }
}

} // verus!
