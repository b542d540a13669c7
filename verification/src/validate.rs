//! Validation of command-line values: each is accepted, or refused with a
//! message that quotes it.

use crate::text::{is_u16_text, parse_u16};
use vstd::prelude::*;
use vstd::string::*;

verus! {

/// The message for a value that is not a number.
pub open spec fn number_complaint(value: Seq<char>) -> Seq<char> {
    "Value have to be a number, not \""@ + value + "\"."@
}

/// The message for a value that names no existing path. An empty URL is
/// refused with the same words.
pub open spec fn path_complaint(value: Seq<char>) -> Seq<char> {
    "Value have to be exists path, not \""@ + value + "\"."@
}

fn complain_of_number(value: &str) -> (message: String)
    ensures
        message@ == number_complaint(value@),
{
    let mut message = String::from_str("Value have to be a number, not \"");
    message.append(value);
    message.append("\".");
    message
}

fn complain_of_path(value: &str) -> (message: String)
    ensures
        message@ == path_complaint(value@),
{
    let mut message = String::from_str("Value have to be exists path, not \"");
    message.append(value);
    message.append("\".");
    message
}

/// Accepts a value that stands for a 16-bit unsigned number, and refuses
/// every other.
pub fn validate_u16(value: String) -> (verdict: Result<(), String>)
    ensures
        verdict is Ok <==> is_u16_text(value@),
        verdict matches Err(message) ==> message@ == number_complaint(value@),
{
    match parse_u16(value.as_str()) {
        Some(_) => Ok(()),
        None => Err(complain_of_number(value.as_str())),
    }
}

/// Asks the file system whether `path` exists, through
/// `std::path::Path::try_exists` on a `PathBuf` made of the value. The
/// answer is `None` where the file system could not tell. Trusted, and
/// nothing is claimed of the answer: it depends on what is on disk at the
/// moment of the call.
#[verifier::external_body]
fn path_exists(path: &str) -> (found: Option<bool>) {
    std::path::PathBuf::from(path).try_exists().ok()
}

/// Decides on a path from what the file system said of it: accepted only
/// where it is known to exist.
pub fn path_verdict(value: &str, found: Option<bool>) -> (verdict: Result<(), String>)
    ensures
        verdict is Ok <==> found == Some(true),
        verdict matches Err(message) ==> message@ == path_complaint(value@),
{
    match found {
        Some(true) => Ok(()),
        _ => Err(complain_of_path(value)),
    }
}

/// Accepts a value that names an existing path. Whether it does is the file
/// system's to say at the moment of the call; a refusal quotes the value.
pub fn validate_pathbuf(value: String) -> (verdict: Result<(), String>)
    ensures
        verdict matches Err(message) ==> message@ == path_complaint(value@),
{
    let found = path_exists(value.as_str());
    path_verdict(value.as_str(), found)
}

/// Accepts every URL but the empty one.
pub fn validate_url(value: String) -> (verdict: Result<(), String>)
    ensures
        verdict is Ok <==> value@.len() > 0,
        verdict matches Err(message) ==> message@ == path_complaint(value@),
{
    if !value.as_str().is_empty() {
        Ok(())
    } else {
        Err(complain_of_path(value.as_str()))
    }
}

} // verus!
