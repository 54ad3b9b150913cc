//! One exchange with a server, and the record that the history keeps of it.

use crate::method::Method;
use crate::text::clone_text;
use crate::truncation::{truncate_string, truncated};
use vstd::prelude::*;

verus! {

/// The most bytes of a request body that a record keeps.
pub const MAX_BODY_SIZE: usize = 10_000;

/// The most bytes of a response body that a record keeps.
pub const MAX_RESPONSE_SIZE: usize = 100_000;

/// A point in time, in seconds and nanoseconds since the Unix epoch.
#[derive(Clone, Copy, Debug, PartialEq, Eq, Structural)]
pub struct Timestamp {
    pub seconds: i64,
    pub nanos: u32,
}

/// A request and what came back for it.
#[derive(Debug, PartialEq, Eq)]
pub struct Exchange {
    pub method: Method,
    pub url: String,
    /// The request body as the user left it; empty where there is none.
    pub body: String,
    /// The outcome in words, such as `200 OK` or `Error`.
    pub status: String,
    pub response: String,
    /// The time the exchange took, as shown to the user.
    pub time: String,
}

/// The text of an [`Exchange`].
pub struct ExchangeView {
    pub method: Method,
    pub url: Seq<char>,
    pub body: Seq<char>,
    pub status: Seq<char>,
    pub response: Seq<char>,
    pub time: Seq<char>,
}

impl View for Exchange {
    type V = ExchangeView;

    open spec fn view(&self) -> ExchangeView {
        ExchangeView {
            method: self.method,
            url: self.url@,
            body: self.body@,
            status: self.status@,
            response: self.response@,
            time: self.time@,
        }
    }
}

impl DeepView for Exchange {
    type V = ExchangeView;

    open spec fn deep_view(&self) -> ExchangeView {
        self@
    }
}

/// An exchange as the history keeps it. The remote store gives a record its
/// `id` and `created_at` when it first stores it; a record that was never
/// stored has neither.
#[derive(Debug, PartialEq, Eq)]
pub struct HistoryItem {
    pub id: Option<String>,
    pub user_id: String,
    pub method: String,
    pub url: String,
    pub body: Option<String>,
    pub status: String,
    pub response: String,
    pub time: String,
    pub created_at: Option<Timestamp>,
}

/// The text of a [`HistoryItem`].
pub struct HistoryItemView {
    pub id: Option<Seq<char>>,
    pub user_id: Seq<char>,
    pub method: Seq<char>,
    pub url: Seq<char>,
    pub body: Option<Seq<char>>,
    pub status: Seq<char>,
    pub response: Seq<char>,
    pub time: Seq<char>,
    pub created_at: Option<Timestamp>,
}

impl View for HistoryItem {
    type V = HistoryItemView;

    open spec fn view(&self) -> HistoryItemView {
        HistoryItemView {
            id: self.id.deep_view(),
            user_id: self.user_id@,
            method: self.method@,
            url: self.url@,
            body: self.body.deep_view(),
            status: self.status@,
            response: self.response@,
            time: self.time@,
            created_at: self.created_at,
        }
    }
}

impl DeepView for HistoryItem {
    type V = HistoryItemView;

    open spec fn deep_view(&self) -> HistoryItemView {
        self@
    }
}

impl Clone for HistoryItem {
    fn clone(&self) -> (copy: HistoryItem)
        ensures
            copy == *self,
    {
        HistoryItem {
            id: clone_text(&self.id),
            user_id: self.user_id.clone(),
            method: self.method.clone(),
            url: self.url.clone(),
            body: clone_text(&self.body),
            status: self.status.clone(),
            response: self.response.clone(),
            time: self.time.clone(),
            created_at: self.created_at,
        }
    }
}

/// The record to upload for an exchange of the user `user_id`: the exchange
/// with its bodies cut to their budgets, an empty request body left out, and
/// nothing yet of what the store assigns.
pub open spec fn draft_of(user_id: Seq<char>, exchange: ExchangeView) -> HistoryItemView {
    HistoryItemView {
        id: None,
        user_id: user_id,
        method: exchange.method.label(),
        url: exchange.url,
        body: if exchange.body.len() == 0 {
            None
        } else {
            Some(truncated(exchange.body, MAX_BODY_SIZE as nat))
        },
        status: exchange.status,
        response: truncated(exchange.response, MAX_RESPONSE_SIZE as nat),
        time: exchange.time,
        created_at: None,
    }
}

/// Builds the record to upload for an exchange.
pub fn draft_item(user_id: &str, exchange: &Exchange) -> (item: HistoryItem)
    ensures
        item@ == draft_of(user_id@, exchange@),
{
    let body = if exchange.body.as_str().is_empty() {
        None
    } else {
        Some(truncate_string(exchange.body.as_str(), MAX_BODY_SIZE))
    };
    HistoryItem {
        id: None,
        user_id: user_id.to_owned(),
        method: exchange.method.as_str().to_owned(),
        url: exchange.url.clone(),
        body: body,
        status: exchange.status.clone(),
        response: truncate_string(exchange.response.as_str(), MAX_RESPONSE_SIZE),
        time: exchange.time.clone(),
        created_at: None,
    }
}

} // verus!
