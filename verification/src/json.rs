//! Reading a JSON document with `serde_json`, as far as the probes need it:
//! the strings that stand in a document, by the object members that lead to
//! them.

use crate::text::opt_text;
use vstd::prelude::*;

verus! {

/// `serde_json::Value`, carried through as it is: nothing is known of a
/// value but what `json_strings` says it holds.
#[verifier::external_type_specification]
#[verifier::external_body]
pub struct ExJsonValue(serde_json::Value);

/// The strings that a JSON value holds, each under the names of the object
/// members that lead to it from the value: a string itself holds one entry,
/// under the empty path; an object holds, under a member's name followed by
/// a path, what the member's value holds under that path; every other value
/// holds nothing.
pub uninterp spec fn json_strings(value: serde_json::Value) -> Map<Seq<Seq<char>>, Seq<char>>;

/// The strings of the document that `serde_json::from_str` reads from a
/// text, or `None` where it rejects the text.
pub uninterp spec fn json_document(text: Seq<char>) -> Option<Map<Seq<Seq<char>>, Seq<char>>>;

/// `serde_json::from_str`, read as a `serde_json::Value`: the value of the
/// document, or `None` where the text is rejected.
#[verifier::external_body]
fn parse_document(text: &str) -> (r: Option<serde_json::Value>)
    ensures
        r matches Some(v) ==> json_document(text@) == Some(json_strings(v)),
        r is None ==> json_document(text@) is None,
{
    serde_json::from_str::<serde_json::Value>(text).ok()
}

/// Indexing a `serde_json::Value` by a string: the value of that member if
/// the value is an object that has it, and the null value otherwise.
#[verifier::external_body]
fn member<'a>(value: &'a serde_json::Value, name: &str) -> (r: &'a serde_json::Value)
    ensures
        forall|path: Seq<Seq<char>>| #[trigger]
            json_strings(*r).contains_key(path) <==> json_strings(*value).contains_key(
                seq![name@] + path,
            ),
        forall|path: Seq<Seq<char>>| #[trigger]
            json_strings(*r).contains_key(path) ==> json_strings(*r)[path] == json_strings(
                *value,
            )[seq![name@] + path],
{
    &value[name]
}

/// `serde_json::Value::as_str`: the string, if the value is one.
#[verifier::external_body]
fn string_value(value: &serde_json::Value) -> (r: Option<String>)
    ensures
        r matches Some(s) ==> json_strings(*value).contains_key(Seq::empty()) && json_strings(
            *value,
        )[Seq::empty()] == s@,
        r is None ==> !json_strings(*value).contains_key(Seq::empty()),
{
    match value.as_str() {
        Some(s) => Some(s.to_string()),
        None => None,
    }
}

/// The string that a document holds under the member `inner` of its member
/// `outer`, if there is one.
pub open spec fn nested_string(
    document: Option<Map<Seq<Seq<char>>, Seq<char>>>,
    outer: Seq<char>,
    inner: Seq<char>,
) -> Option<Seq<char>> {
    match document {
        Some(strings) => if strings.contains_key(seq![outer, inner]) {
            Some(strings[seq![outer, inner]])
        } else {
            None
        },
        None => None,
    }
}

/// Reads `text` as a JSON document and returns the string under the member
/// `inner` of the member `outer` of its top-level object. The result is
/// `None` where the text is no JSON document or holds no such string.
pub fn read_nested_string(text: &str, outer: &str, inner: &str) -> (r: Option<String>)
    ensures
        opt_text(r) == nested_string(json_document(text@), outer@, inner@),
{
    match parse_document(text) {
        Some(v) => {
            let a = member(&v, outer);
            let b = member(a, inner);
            proof {
                assert(seq![outer@] + (seq![inner@] + Seq::<Seq<char>>::empty()) == seq![
                    outer@,
                    inner@,
                ]);
                assert(seq![inner@] + Seq::<Seq<char>>::empty() == seq![inner@]);
                assert(json_strings(*b).contains_key(Seq::empty()) <==> json_strings(
                    *a,
                ).contains_key(seq![inner@] + Seq::<Seq<char>>::empty()));
                assert(json_strings(*a).contains_key(seq![inner@]) <==> json_strings(
                    v,
                ).contains_key(seq![outer@] + seq![inner@]));
                assert(seq![outer@] + seq![inner@] == seq![outer@, inner@]);
            }
            string_value(b)
        },
        None => None,
    }
}

} // verus!
