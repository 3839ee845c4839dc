//! JSON text and quoted text, as `serde_json` and the standard library write
//! and read them.

use vstd::prelude::*;

verus! {

/// The compact JSON array of some strings.
pub uninterp spec fn strings_as_json(strings: Seq<Seq<char>>) -> Seq<char>;

/// The strings of a JSON array of strings, or why a text is none.
pub uninterp spec fn json_as_strings(text: Seq<char>) -> Result<Seq<Seq<char>>, Seq<char>>;

/// Why a text is not a JSON document, if it is none.
pub uninterp spec fn json_refusal(text: Seq<char>) -> Option<Seq<char>>;

/// The text that a JSON string stands for, if the text is a JSON string.
pub uninterp spec fn json_as_text(text: Seq<char>) -> Option<Seq<char>>;

/// The compact JSON object with the given members: texts, of which a missing
/// one stands for `null`, and numbers.
pub uninterp spec fn object_as_json(
    texts: Seq<(Seq<char>, Option<Seq<char>>)>,
    numbers: Seq<(Seq<char>, u64)>,
) -> Seq<char>;

/// A text in quotes, with escapes.
pub uninterp spec fn quoted(text: Seq<char>) -> Seq<char>;

/// Whether reading the JSON array of some strings gives the strings back.
pub open spec fn keeps(strings: Seq<Seq<char>>) -> bool {
    json_as_strings(strings_as_json(strings)) == Ok::<Seq<Seq<char>>, Seq<char>>(strings)
}

/// Calls `serde_json::to_string` on a vector of strings. Neither the vector nor
/// a string refuses to be serialized, so the call succeeds; the text is a
/// function of the strings, and `serde_json::from_str` reads the same strings
/// back from it.
#[verifier::external_body]
pub(crate) fn encode_strings(strings: &Vec<String>) -> (r: Result<String, String>)
    ensures
        match r {
            Ok(text) => {
                &&& text@ == strings_as_json(strings.deep_view())
                &&& json_as_strings(text@) == Ok::<Seq<Seq<char>>, Seq<char>>(strings.deep_view())
            },
            Err(_) => false,
        },
{
    serde_json::to_string(strings).map_err(|e| e.to_string())
}

/// Calls `serde_json::from_str` for a vector of strings. The result, a refusal
/// by its message included, is a function of the text.
#[verifier::external_body]
pub(crate) fn decode_strings(text: &str) -> (r: Result<Vec<String>, String>)
    ensures
        match r {
            Ok(strings) => json_as_strings(text@) == Ok::<Seq<Seq<char>>, Seq<char>>(
                strings.deep_view(),
            ),
            Err(message) => json_as_strings(text@) == Err::<Seq<Seq<char>>, Seq<char>>(message@),
        },
{
    serde_json::from_str::<Vec<String>>(text).map_err(|e| e.to_string())
}

/// Calls `serde_json::from_str` for a `serde_json::Value` and keeps the message
/// where the text is refused. It is a function of the text.
#[verifier::external_body]
pub(crate) fn refusal(text: &str) -> (r: Option<String>)
    ensures
        r.deep_view() == json_refusal(text@),
{
    serde_json::from_str::<serde_json::Value>(text).err().map(|e| e.to_string())
}

/// Calls `serde_json::from_str` for a string. The result is a function of the
/// text.
#[verifier::external_body]
pub(crate) fn decode_text(text: &str) -> (r: Option<String>)
    ensures
        r.deep_view() == json_as_text(text@),
{
    serde_json::from_str::<String>(text).ok()
}

/// Calls `serde_json::to_string` on an object value with the given members. A
/// value with text keys does not refuse to be serialized, so the call succeeds;
/// the text is a function of the members.
#[verifier::external_body]
pub(crate) fn encode_object(
    texts: &Vec<(String, Option<String>)>,
    numbers: &Vec<(String, u64)>,
) -> (r: Result<String, String>)
    ensures
        match r {
            Ok(text) => text@ == object_as_json(texts.deep_view(), numbers.deep_view()),
            Err(_) => false,
        },
{
    let mut members = serde_json::Map::new();
    for (key, text) in texts {
        members.insert(key.clone(), serde_json::Value::from(text.clone()));
    }
    for (key, number) in numbers {
        members.insert(key.clone(), serde_json::Value::from(*number));
    }
    serde_json::to_string(&serde_json::Value::Object(members)).map_err(|e| e.to_string())
}

/// Formats a text with the standard library's `{:?}`: in double quotes, with
/// escapes. The result is a function of the text.
#[verifier::external_body]
pub(crate) fn quote(text: &str) -> (r: String)
    ensures
        r@ == quoted(text@),
{
    format!("{:?}", text)
}

} // verus!
