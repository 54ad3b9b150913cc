//! Status codes of answers, and how they are shown.

use crate::text::{decimal, push_decimal};
use vstd::prelude::*;
use vstd::string::StringExecFns;

verus! {

/// Whether a status code reports success: the codes from 200 to 299.
pub open spec fn succeeds(status: u16) -> bool {
    200 <= status < 300
}

/// Whether a status code reports success.
pub fn is_success(status: u16) -> (yes: bool)
    ensures
        yes == succeeds(status),
{
    200 <= status && status < 300
}

/// The standard reason phrase of a status code, such as `OK` for 200; none
/// for a code without one.
pub uninterp spec fn reason_phrase(status: u16) -> Option<Seq<char>>;

/// Calls `reqwest::StatusCode::from_u16` and, on the status code it gives,
/// `StatusCode::canonical_reason`. The contract claims only that the
/// outcome depends on the number alone.
#[verifier::external_body]
pub(crate) fn canonical_reason(status: u16) -> (reason: Option<String>)
    ensures
        reason.deep_view() == reason_phrase(status),
{
    match reqwest::StatusCode::from_u16(status) {
        Ok(code) => code.canonical_reason().map(String::from),
        Err(_) => None,
    }
}

/// How a status code with the given reason phrase is shown: the number, a
/// space, and the phrase or a stand-in for it.
pub open spec fn labelled(status: u16, reason: Option<Seq<char>>) -> Seq<char> {
    decimal(status as nat) + " "@ + match reason {
        Some(phrase) => phrase,
        None => "<unknown status code>"@,
    }
}

/// Writes a status code with the given reason phrase.
pub fn label_with_reason(status: u16, reason: &Option<String>) -> (label: String)
    ensures
        label@ == labelled(status, reason.deep_view()),
{
    let mut label = String::new();
    push_decimal(&mut label, status as usize);
    label.append(" ");
    match reason {
        Some(phrase) => label.append(phrase.as_str()),
        None => label.append("<unknown status code>"),
    }
    assert(label@ =~= labelled(status, reason.deep_view()));
    label
}

/// Writes a status code with its standard reason phrase.
pub fn status_label(status: u16) -> (label: String)
    ensures
        label@ == labelled(status, reason_phrase(status)),
{
    let reason = canonical_reason(status);
    label_with_reason(status, &reason)
}

} // verus!
