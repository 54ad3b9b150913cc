//! The request methods the tool can send.

use crate::text::str_eq;
use vstd::prelude::*;

verus! {

/// The closed set of request methods.
#[derive(Clone, Copy, Debug, PartialEq, Eq, Structural)]
pub enum Method {
    GET,
    POST,
    PUT,
    DELETE,
    PATCH,
}

impl Method {
    /// The label of the method, as it is sent and stored.
    pub open spec fn label(self) -> Seq<char> {
        match self {
            Method::GET => "GET"@,
            Method::POST => "POST"@,
            Method::PUT => "PUT"@,
            Method::DELETE => "DELETE"@,
            Method::PATCH => "PATCH"@,
        }
    }

    /// Whether a request with this method may carry a body.
    pub open spec fn carries_body(self) -> bool {
        self == Method::POST || self == Method::PUT || self == Method::PATCH
    }

    /// The method that a stored label stands for: `GET` for every label that
    /// is not exactly one of the other four.
    pub open spec fn of_label(label: Seq<char>) -> Method {
        if label == "POST"@ {
            Method::POST
        } else if label == "PUT"@ {
            Method::PUT
        } else if label == "DELETE"@ {
            Method::DELETE
        } else if label == "PATCH"@ {
            Method::PATCH
        } else {
            Method::GET
        }
    }

    /// The label of the method.
    pub fn as_str(&self) -> (label: &'static str)
        ensures
            label@ == self.label(),
    {
        match self {
            Method::GET => "GET",
            Method::POST => "POST",
            Method::PUT => "PUT",
            Method::DELETE => "DELETE",
            Method::PATCH => "PATCH",
        }
    }

    /// Whether a request with this method may carry a body.
    pub fn has_body(&self) -> (yes: bool)
        ensures
            yes == self.carries_body(),
    {
        match self {
            Method::POST | Method::PUT | Method::PATCH => true,
            Method::GET | Method::DELETE => false,
        }
    }

    /// Reads a method back from a stored label. A label that names none of
    /// the five methods reads as `GET`.
    pub fn from_label(label: &str) -> (method: Method)
        ensures
            method == Method::of_label(label@),
    {
        if str_eq(label, "POST") {
            Method::POST
        } else if str_eq(label, "PUT") {
            Method::PUT
        } else if str_eq(label, "DELETE") {
            Method::DELETE
        } else if str_eq(label, "PATCH") {
            Method::PATCH
        } else {
            Method::GET
        }
    }
}

/// Reading back the label of a method gives the method.
pub proof fn lemma_label_round_trip(method: Method)
    ensures
        Method::of_label(method.label()) == method,
{
    reveal_strlit("GET");
    reveal_strlit("POST");
    reveal_strlit("PUT");
    reveal_strlit("DELETE");
    reveal_strlit("PATCH");
    assert("GET"@.len() == 3 && "POST"@.len() == 4 && "PUT"@.len() == 3 && "DELETE"@.len() == 6
        && "PATCH"@.len() == 5);
    assert("GET"@[0] == 'G' && "PUT"@[0] == 'P');
    assert("PATCH"@[1] == 'A' && "POST"@[1] == 'O');
}

} // verus!
