//! Members of JSON bodies that are read before a body's full shape is known.

use vstd::prelude::*;

use crate::domain::optional_text;

verus! {

/// What `serde_json` makes of a body and of one of its members: the number when the member
/// is an unsigned one, or the parse error's text.
pub uninterp spec fn json_number_member(body: Seq<u8>, key: Seq<char>) -> Result<
    Option<u64>,
    Seq<char>,
>;

/// A result with its error text as a character sequence.
pub open spec fn text_error<T>(result: Result<T, String>) -> Result<T, Seq<char>> {
    match result {
        Ok(value) => Ok(value),
        Err(text) => Err(text@),
    }
}

/// Calls `serde_json::from_slice` for a `serde_json::Value`, and on what it returns
/// `Value::get` and `Value::as_u64`.
///
/// Claimed: the outcome depends on the body and the key alone.
#[verifier::external_body]
pub(crate) fn number_member(body: &Vec<u8>, key: &str) -> (member: Result<Option<u64>, String>)
    ensures
        text_error(member) == json_number_member(body@, key@),
{
    match serde_json::from_slice::<serde_json::Value>(body.as_slice()) {
        Ok(value) => Ok(value.get(key).and_then(serde_json::Value::as_u64)),
        Err(error) => Err(error.to_string()),
    }
}

/// What `serde_json` makes of a body and of one of its members: the text when the member is
/// a string, or the parse error's text.
pub uninterp spec fn json_text_member(body: Seq<u8>, key: Seq<char>) -> Result<
    Option<Seq<char>>,
    Seq<char>,
>;

/// An optional text member as a character sequence.
pub open spec fn member_view(member: Result<Option<String>, String>) -> Result<
    Option<Seq<char>>,
    Seq<char>,
> {
    match member {
        Ok(Some(text)) => Ok(Some(text@)),
        Ok(None) => Ok(None),
        Err(text) => Err(text@),
    }
}

/// Calls `serde_json::from_slice` for a `serde_json::Value`, and on what it returns
/// `Value::get` and `Value::as_str`.
///
/// Claimed: the outcome depends on the body and the key alone.
#[verifier::external_body]
pub(crate) fn text_member(body: &Vec<u8>, key: &str) -> (member: Result<Option<String>, String>)
    ensures
        member_view(member) == json_text_member(body@, key@),
{
    match serde_json::from_slice::<serde_json::Value>(body.as_slice()) {
        Ok(value) => Ok(value.get(key).and_then(serde_json::Value::as_str).map(str::to_owned)),
        Err(error) => Err(error.to_string()),
    }
}

/// The JSON text of a string, as `serde_json` writes it.
pub uninterp spec fn json_string(text: Seq<char>) -> Seq<char>;

/// Calls `serde_json::to_string` for a string slice, which cannot fail.
///
/// Claimed: the JSON text depends on the string alone.
#[verifier::external_body]
pub(crate) fn string_value(text: &str) -> (json: String)
    ensures
        json@ == json_string(text@),
{
    serde_json::to_string(text).unwrap_or_default()
}

/// What `serde_json` makes of a body: the compact text of the value that it holds, or the
/// parse error's text.
pub uninterp spec fn json_document(body: Seq<u8>) -> Result<Seq<char>, Seq<char>>;

/// A text or an error text as character sequences.
pub open spec fn text_result(result: Result<String, String>) -> Result<Seq<char>, Seq<char>> {
    match result {
        Ok(text) => Ok(text@),
        Err(text) => Err(text@),
    }
}

/// Calls `serde_json::from_slice` for a `serde_json::Value`, and the `Display` of what it
/// returns.
///
/// Claimed: the outcome depends on the body alone.
#[verifier::external_body]
pub(crate) fn document(body: &Vec<u8>) -> (document: Result<String, String>)
    ensures
        text_result(document) == json_document(body@),
{
    match serde_json::from_slice::<serde_json::Value>(body.as_slice()) {
        Ok(value) => Ok(value.to_string()),
        Err(error) => Err(error.to_string()),
    }
}

/// What `serde_json` finds at a JSON pointer: the compact text of the value there, or nothing
/// when the document is not JSON or holds no value there.
pub uninterp spec fn json_pointed(document: Seq<char>, pointer: Seq<char>) -> Option<Seq<char>>;

/// Calls `serde_json::from_str` for a `serde_json::Value`, `Value::pointer` on what it
/// returns, and the `Display` of the value found.
///
/// Claimed: the outcome depends on the document and the pointer alone.
#[verifier::external_body]
pub(crate) fn pointed(document: &str, pointer: &str) -> (value: Option<String>)
    ensures
        optional_text(value) == json_pointed(document@, pointer@),
{
    match serde_json::from_str::<serde_json::Value>(document) {
        Ok(value) => value.pointer(pointer).map(|found| found.to_string()),
        Err(_) => None,
    }
}

/// Why a versioned body is refused before its typed parse.
#[derive(Debug)]
pub enum VersionRefusal {
    /// The body is not JSON; the text is the parse error.
    Invalid(String),
    /// The body is of another API version, or of none.
    Unsupported,
}

/// Check the API version that a JSON body names, given what its member holds.
pub fn check_version_member(member: Result<Option<u64>, String>, version: u32) -> (result: Result<
    (),
    VersionRefusal,
>)
    ensures
        result == (match member {
            Err(error) => Err(VersionRefusal::Invalid(error)),
            Ok(Some(found)) => if found == version {
                Ok(())
            } else {
                Err(VersionRefusal::Unsupported)
            },
            Ok(None) => Err(VersionRefusal::Unsupported),
        }),
{
    match member {
        Err(error) => Err(VersionRefusal::Invalid(error)),
        Ok(Some(found)) => {
            if found == version as u64 {
                Ok(())
            } else {
                Err(VersionRefusal::Unsupported)
            }
        },
        Ok(None) => Err(VersionRefusal::Unsupported),
    }
}

/// Whether a refusal is what a body's version member asks for.
pub open spec fn version_checked(
    body: Seq<u8>,
    version: u32,
    result: Result<(), VersionRefusal>,
) -> bool {
    match json_number_member(body, "api_version"@) {
        Err(error) => result matches Err(VersionRefusal::Invalid(text)) && text@ == error,
        Ok(Some(found)) => if found == version {
            result is Ok
        } else {
            result == Err::<(), VersionRefusal>(VersionRefusal::Unsupported)
        },
        Ok(None) => result == Err::<(), VersionRefusal>(VersionRefusal::Unsupported),
    }
}

/// Check the API version that a JSON body names.
pub fn check_body_version(body: &Vec<u8>, version: u32) -> (result: Result<(), VersionRefusal>)
    ensures
        version_checked(body@, version, result),
{
    check_version_member(number_member(body, "api_version"), version)
}

} // verus!
