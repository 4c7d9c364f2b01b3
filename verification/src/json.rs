//! Decoding JSON text.
use vstd::prelude::*;

use crate::error::{Error, Fault};

verus! {

/// `serde_json::Value`, a JSON document. It is passed on as it came and never looked into.
#[verifier::external_type_specification]
#[verifier::external_body]
pub struct ExJsonValue(serde_json::Value);

/// What `serde_json::from_str` makes of a text when it is asked for a `serde_json::Value`: the
/// document, or the text of the error.
pub uninterp spec fn json_document(text: Seq<char>) -> Result<serde_json::Value, Seq<char>>;

/// Calls `serde_json::from_str` for a `serde_json::Value`, and `to_string` on the error that it
/// returns where the text is not JSON. The contract claims that the document, or the text of the
/// error, depends on nothing but the text given.
#[verifier::external_body]
fn document_from_str(text: &str) -> (document: Result<serde_json::Value, String>)
    ensures
        match document {
            Ok(value) => json_document(text@) == Ok::<serde_json::Value, Seq<char>>(value),
            Err(reason) => json_document(text@) == Err::<serde_json::Value, Seq<char>>(reason@),
        },
{
    match serde_json::from_str(text) {
        Ok(value) => Ok(value),
        Err(err) => Err(err.to_string()),
    }
}

/// What became of the text of a file, `result`, with a text that says why it does not decode turned
/// into an error that names the file.
pub fn decoded<T>(path: &str, result: Result<T, String>) -> (decoded: Result<T, Error>)
    ensures
        match result {
            Ok(value) => decoded == Ok::<T, Error>(value),
            Err(reason) => decoded is Err && decoded->Err_0@ == Fault::DecodeError(path@, reason@),
        },
{
    match result {
        Ok(value) => Ok(value),
        Err(reason) => Err(Error::DecodeError(path.to_owned(), reason)),
    }
}

/// Decodes the text of a file, or a line of it, as JSON.
pub fn decode_json(path: &str, data: &str) -> (result: Result<serde_json::Value, Error>)
    ensures
        match json_document(data@) {
            Ok(value) => result == Ok::<serde_json::Value, Error>(value),
            Err(reason) => result is Err && result->Err_0@ == Fault::DecodeError(path@, reason),
        },
{
    decoded(path, document_from_str(data))
}

} // verus!
