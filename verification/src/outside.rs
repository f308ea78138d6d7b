//! The outside crates that the library calls, each behind a contract.

use vstd::prelude::*;

verus! {

/// `serde_json::Value`, a JSON value. The library hands such values on and never
/// looks inside one.
#[verifier::external_type_specification]
#[verifier::external_body]
pub struct ExValue(serde_json::Value);

/// What `url::Url::parse` makes of a text: the URL in its serialised form, or
/// the text of the parse error.
pub uninterp spec fn parsed_url(text: Seq<char>) -> Result<Seq<char>, Seq<char>>;

/// What `url::Url::join` makes of a base URL and a reference: the joined URL in
/// its serialised form, or the text of the parse error. Where `base` spells no
/// URL, there is nothing to join to, and the result is the error for `base`.
pub uninterp spec fn joined_url(base: Seq<char>, reference: Seq<char>) -> Result<
    Seq<char>,
    Seq<char>,
>;

/// The view of a text or of an error's text.
pub open spec fn text_result(r: Result<String, String>) -> Result<Seq<char>, Seq<char>> {
    match r {
        Ok(text) => Ok(text@),
        Err(message) => Err(message@),
    }
}

/// Calls `url::Url::parse`. Claims that the outcome depends on `text` alone.
#[verifier::external_body]
pub(crate) fn parse_url(text: &str) -> (r: Result<String, String>)
    ensures
        text_result(r) == parsed_url(text@),
{
    match url::Url::parse(text) {
        Ok(parsed) => Ok(String::from(parsed)),
        Err(error) => Err(error.to_string()),
    }
}

/// Calls `url::Url::join`, with `base` turned into a `Url` first. Claims that the
/// outcome depends on the two texts alone.
#[verifier::external_body]
pub(crate) fn join_url(base: &str, reference: &str) -> (r: Result<String, String>)
    ensures
        text_result(r) == joined_url(base@, reference@),
{
    match url::Url::parse(base) {
        Ok(parsed) => match parsed.join(reference) {
            Ok(joined) => Ok(String::from(joined)),
            Err(error) => Err(error.to_string()),
        },
        Err(error) => Err(error.to_string()),
    }
}

/// Calls `reqwest::StatusCode::is_success`. Claims that it holds of the codes
/// from 200 to 299 and of no other number; a number that is no status code at
/// all is no success.
#[verifier::external_body]
pub(crate) fn is_success(status: u16) -> (r: bool)
    ensures
        r == (200 <= status < 300),
{
    match reqwest::StatusCode::from_u16(status) {
        Ok(code) => code.is_success(),
        Err(_) => false,
    }
}

} // verus!
