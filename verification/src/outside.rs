//! Types of other crates that values of this library carry, and the calls
//! into those crates and into parts of the standard library that come
//! without a specification. Nothing here is proved: each contract states
//! what the other side's source or documentation shows.

use vstd::prelude::*;

verus! {

/// What `str::to_lowercase` returns for a string with the characters `s`.
pub uninterp spec fn lowercase_of(s: Seq<char>) -> Seq<char>;

/// `str::to_lowercase`: the Unicode lower-case form of the whole string. It is
/// a function of the characters alone; nothing else is claimed of it.
pub assume_specification[ str::to_lowercase ](s: &str) -> (lowered: String)
    ensures
        lowered@ == lowercase_of(s@),
;

/// `String::push`: appends one character at the end.
pub assume_specification[ String::push ](s: &mut String, ch: char)
    ensures
        final(s)@ == old(s)@.push(ch),
;

/// `tokio::sync::mpsc::Sender`: the sending half of a bounded channel.
#[verifier::external_type_specification]
#[verifier::external_body]
#[verifier::reject_recursive_types(T)]
pub struct ExSender<T>(tokio::sync::mpsc::Sender<T>);

/// `serde_json::Value`: a parsed JSON document.
#[verifier::external_type_specification]
#[verifier::external_body]
pub struct ExJsonValue(serde_json::Value);

/// `serde_json::Error`: why a text is not JSON.
#[verifier::external_type_specification]
#[verifier::external_body]
pub struct ExJsonError(serde_json::Error);

/// The members of a JSON object, by key. A member that is a JSON string
/// stands with its text, any other member with `None`. A value that is not
/// an object has no members.
pub uninterp spec fn json_members(value: serde_json::Value) -> Map<Seq<char>, Option<Seq<char>>>;

/// What `serde_json` makes of a text: `None` where the text is not one JSON
/// document, else the document.
pub uninterp spec fn json_parsed(text: Seq<char>) -> Option<serde_json::Value>;


/// `serde_json::from_str` at type `Value`: parses `text` as one JSON document.
/// The outcome depends on the text alone.
#[verifier::external_body]
pub(crate) fn parse_json(text: &str) -> (parsed: Result<serde_json::Value, serde_json::Error>)
    ensures
        match parsed {
            Ok(value) => json_parsed(text@) == Some(value),
            Err(_) => json_parsed(text@) is None,
        },
{
    serde_json::from_str::<serde_json::Value>(text)
}

/// `serde_json::Value::get` with a string index: finds a member of an object
/// by key, and finds nothing in a value that is not an object.
#[verifier::external_body]
pub(crate) fn json_has_member(value: &serde_json::Value, key: &str) -> (found: bool)
    ensures
        found == json_members(*value).dom().contains(key@),
{
    value.get(key).is_some()
}

/// `serde_json::Value::get` followed by `Value::as_str`: the text of the
/// member under `key`, where there is such a member and it is a JSON string.
#[verifier::external_body]
pub(crate) fn json_text_member(value: &serde_json::Value, key: &str) -> (text: Option<String>)
    ensures
        match text {
            Some(t) => json_members(*value).dom().contains(key@) && json_members(*value)[key@]
                == Some(t@),
            None => !json_members(*value).dom().contains(key@) || json_members(*value)[key@]
                is None,
        },
{
    value.get(key).and_then(|member| member.as_str()).map(String::from)
}

/// `Clone` for `serde_json::Value`: the copy is the same document.
pub assume_specification[ <serde_json::Value as Clone>::clone ](value: &serde_json::Value) -> (copy:
    serde_json::Value)
    ensures
        copy == *value,
;

/// `serde_json::Error` rendered with `to_string`: the parser's complaint.
/// Nothing is claimed of the text.
#[verifier::external_body]
pub(crate) fn json_error_text(error: &serde_json::Error) -> String {
    error.to_string()
}

/// `std::io::Error`: why an input or output operation failed.
#[verifier::external_type_specification]
#[verifier::external_body]
pub struct ExIoError(std::io::Error);

/// `std::io::Error` rendered with `to_string`: the system's complaint.
/// Nothing is claimed of the text.
#[verifier::external_body]
pub(crate) fn io_error_text(error: &std::io::Error) -> String {
    error.to_string()
}

/// `chrono::Utc::now` followed by `DateTime::format` with `pattern`, written
/// out with `DelayedFormat::write_to`: the current time in the form that the
/// pattern asks for. With year, month, day, hour, minute and second, each
/// written in full and with one character between them, the text has at
/// least 19 characters; nothing is claimed of another pattern, where the
/// text may break off. The call panics on a machine whose clock stands
/// before 1970.
#[verifier::external_body]
pub(crate) fn now_formatted(pattern: &str) -> (stamp: String)
    ensures
        pattern@ == "%Y-%m-%dT%H-%M-%S"@ ==> stamp@.len() >= 19,
{
    let mut stamp = String::new();
    let _ = chrono::Utc::now().format(pattern).write_to(&mut stamp);
    stamp
}

/// `chrono::Utc::now` followed by `DateTime::to_rfc3339`: the current time as
/// RFC 3339 text, which holds date, time and offset and so has at least 25
/// characters. The call panics on a machine whose clock stands before 1970.
#[verifier::external_body]
pub(crate) fn now_rfc3339() -> (stamp: String)
    ensures
        stamp@.len() >= 25,
{
    chrono::Utc::now().to_rfc3339()
}

/// `uuid::Uuid::new_v4` rendered with `to_string`: a fresh random identifier
/// in the hyphenated form, which is 36 characters long. The call panics where
/// the operating system yields no random bytes.
#[verifier::external_body]
pub(crate) fn new_message_id() -> (id: String)
    ensures
        id@.len() == 36,
{
    uuid::Uuid::new_v4().to_string()
}

} // verus!
