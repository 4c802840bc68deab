//! HTTP status codes and their texts.

use crate::text;
use crate::text::decimal_text;
use vstd::prelude::*;

verus! {

/// The reason phrase that belongs to a status code, where it is a known one.
pub uninterp spec fn status_reason(code: u16) -> Option<Seq<char>>;

/// `reqwest::StatusCode::canonical_reason` of the status with this code: the standard phrase, as
/// [`status_reason`] names it. A number that is no status code has none.
#[verifier::external_body]
pub(crate) fn canonical_reason(code: u16) -> (r: Option<String>)
    ensures
        text::text_view(r) == status_reason(code),
{
    match reqwest::StatusCode::from_u16(code) {
        Ok(status) => status.canonical_reason().map(|phrase| phrase.to_string()),
        Err(_) => None,
    }
}

/// Whether the code is one of success.
pub open spec fn success(code: u16) -> bool {
    200 <= code < 300
}

/// Whether the code is one of success.
pub fn is_success(code: u16) -> (r: bool)
    ensures
        r == success(code),
{
    200 <= code && code < 300
}

/// A status as it is written: its code and its reason phrase.
pub open spec fn status_line(code: u16, reason: Option<Seq<char>>) -> Seq<char> {
    text::decimal(code as nat) + " "@ + match reason {
        Some(phrase) => phrase,
        None => "<unknown status code>"@,
    }
}

/// Writes a status with a given reason phrase.
pub fn write_status(code: u16, reason: &Option<String>) -> (r: String)
    ensures
        r@ == status_line(code, text::text_view(*reason)),
{
    let mut out = decimal_text(code as u128);
    out.append(" ");
    match reason {
        Some(phrase) => out.append(phrase.as_str()),
        None => out.append("<unknown status code>"),
    }
    out
}

/// Writes a status.
pub fn status_text(code: u16) -> (r: String)
    ensures
        r@ == status_line(code, status_reason(code)),
{
    let reason = canonical_reason(code);
    write_status(code, &reason)
}

/// Just the codes from 200 to 299 are codes of success.
pub proof fn law_the_two_hundreds_are_successes(code: u16)
    ensures
        success(code) <==> code / 100 == 2,
{
}

/// A status is written as its code in decimal, a space and its phrase; a code without a phrase is
/// said to be unknown.
pub proof fn law_statuses_are_written(code: u16, phrase: Seq<char>)
    ensures
        status_line(code, Some(phrase)) == text::decimal(code as nat).push(' ') + phrase,
        status_line(code, None) == text::decimal(code as nat).push(' ') + "<unknown status code>"@,
{
    reveal_strlit(" ");
    assert(text::decimal(code as nat) + " "@ =~= text::decimal(code as nat).push(' '));
}

} // verus!
