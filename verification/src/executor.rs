//! Running one request: what comes of the outcome of the exchange.
//!
//! The request itself is described by [`crate::request::Request::from_user`].
//! A caller sends it, measures the time, and reports here how it ended.

use crate::json::{json_document, json_pretty, parse_json, render_pretty};
use crate::status::{canonical_reason, label_with_reason, labelled, reason_phrase};
use vstd::prelude::*;

verus! {

/// How the exchange of a request for a response ended.
#[derive(Debug, PartialEq, Eq)]
pub enum Transport {
    /// A response arrived in full, whatever its status code.
    Completed { status: u16, body: String },
    /// No response arrived in full; `message` says why.
    Failed { message: String },
}

/// The text of a [`Transport`].
pub enum TransportView {
    Completed { status: u16, body: Seq<char> },
    Failed { message: Seq<char> },
}

impl View for Transport {
    type V = TransportView;

    open spec fn view(&self) -> TransportView {
        match self {
            Transport::Completed { status, body } => TransportView::Completed {
                status: *status,
                body: body@,
            },
            Transport::Failed { message } => TransportView::Failed { message: message@ },
        }
    }
}

/// What is shown of an exchange that ended.
#[derive(Debug, PartialEq, Eq)]
pub struct ExecutionResult {
    pub status: String,
    pub response: String,
    pub time: String,
}

/// The text of an [`ExecutionResult`].
pub struct ExecutionResultView {
    pub status: Seq<char>,
    pub response: Seq<char>,
    pub time: Seq<char>,
}

impl View for ExecutionResult {
    type V = ExecutionResultView;

    open spec fn view(&self) -> ExecutionResultView {
        ExecutionResultView { status: self.status@, response: self.response@, time: self.time@ }
    }
}

/// How a span of `nanos` nanoseconds is shown: as a whole number of
/// seconds, milliseconds, microseconds or nanoseconds, with the unit behind
/// it.
pub uninterp spec fn elapsed_text(nanos: u64) -> Seq<char>;

/// Formats a `std::time::Duration` of `nanos` nanoseconds with `{:.0?}`. The
/// contract claims only that the outcome depends on the number alone.
#[verifier::external_body]
fn elapsed_label(nanos: u64) -> (label: String)
    ensures
        label@ == elapsed_text(nanos),
{
    format!("{:.0?}", std::time::Duration::from_nanos(nanos))
}

/// The indented form of `text` where `text` is a JSON document that can be
/// written back.
pub open spec fn pretty_of(text: Seq<char>) -> Option<Seq<char>> {
    match json_document(text) {
        Some(document) => json_pretty(document),
        None => None,
    }
}

/// The body to show: the indented form where there is one, else the body as
/// it came.
pub open spec fn shown_body(raw: Seq<char>, pretty: Option<Seq<char>>) -> Seq<char> {
    match pretty {
        Some(text) => text,
        None => raw,
    }
}

/// What is shown of an exchange, given the reason phrase of its status
/// code, the indented form of its body and the text of its duration. A
/// response is shown under its status code and reason; a failure is shown
/// as the status `Error` with the failure's message for a body.
pub open spec fn result_of(
    outcome: TransportView,
    reason: Option<Seq<char>>,
    pretty: Option<Seq<char>>,
    time: Seq<char>,
) -> ExecutionResultView {
    match outcome {
        TransportView::Completed { status, body } => ExecutionResultView {
            status: labelled(status, reason),
            response: shown_body(body, pretty),
            time: time,
        },
        TransportView::Failed { message } => ExecutionResultView {
            status: "Error"@,
            response: message,
            time: time,
        },
    }
}

/// What is shown of an exchange that ended after `elapsed_nanos`
/// nanoseconds.
pub open spec fn completed(outcome: TransportView, elapsed_nanos: u64) -> ExecutionResultView {
    match outcome {
        TransportView::Completed { status, body } => result_of(
            outcome,
            reason_phrase(status),
            pretty_of(body),
            elapsed_text(elapsed_nanos),
        ),
        TransportView::Failed { .. } => result_of(
            outcome,
            None,
            None,
            elapsed_text(elapsed_nanos),
        ),
    }
}

/// The indented form of a JSON text; none for any other text.
pub fn pretty_body(text: &str) -> (pretty: Option<String>)
    ensures
        pretty.deep_view() == pretty_of(text@),
{
    match parse_json(text) {
        Some(document) => render_pretty(&document),
        None => None,
    }
}

/// Puts together what is shown of an exchange from its outcome and from
/// the reason phrase, indented body and duration text found for it.
pub fn assemble(
    outcome: Transport,
    reason: &Option<String>,
    pretty: Option<String>,
    time: String,
) -> (result: ExecutionResult)
    ensures
        result@ == result_of(outcome@, reason.deep_view(), pretty.deep_view(), time@),
{
    match outcome {
        Transport::Completed { status, body } => {
            let response = match pretty {
                Some(text) => text,
                None => body,
            };
            ExecutionResult {
                status: label_with_reason(status, reason),
                response: response,
                time: time,
            }
        },
        Transport::Failed { message } => ExecutionResult {
            status: "Error".to_owned(),
            response: message,
            time: time,
        },
    }
}

/// Makes of the outcome of an exchange what is shown of it. A failure to
/// exchange is a result like any other, not an error.
pub fn complete(outcome: Transport, elapsed_nanos: u64) -> (result: ExecutionResult)
    ensures
        result@ == completed(outcome@, elapsed_nanos),
{
    let time = elapsed_label(elapsed_nanos);
    match &outcome {
        Transport::Completed { status, body } => {
            let reason = canonical_reason(*status);
            let pretty = pretty_body(body.as_str());
            assemble(outcome, &reason, pretty, time)
        },
        Transport::Failed { .. } => assemble(outcome, &None, None, time),
    }
}

} // verus!
