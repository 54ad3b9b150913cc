//! Requests, described as plain values for a caller to send: the request
//! that the user composed, and the requests to the remote service that
//! keeps accounts and histories.

use crate::history::HISTORY_LIMIT;
use crate::method::Method;
use crate::record::{HistoryItem, HistoryItemView};
use crate::session::Session;
use crate::text::{decimal, push_decimal};
use vstd::prelude::*;
use vstd::string::StringExecFns;

verus! {

/// One header of a request.
#[derive(Debug, PartialEq, Eq)]
pub struct Header {
    pub name: String,
    pub value: String,
}

/// The text of a [`Header`].
pub struct HeaderView {
    pub name: Seq<char>,
    pub value: Seq<char>,
}

impl View for Header {
    type V = HeaderView;

    open spec fn view(&self) -> HeaderView {
        HeaderView { name: self.name@, value: self.value@ }
    }
}

impl DeepView for Header {
    type V = HeaderView;

    open spec fn deep_view(&self) -> HeaderView {
        self@
    }
}

/// What a request carries.
#[derive(Debug, PartialEq, Eq)]
pub enum Payload {
    /// Nothing.
    Empty,
    /// The text as it is.
    Text(String),
    /// An address and a password, to be sent as a JSON object with the
    /// members `email` and `password`.
    Credentials { email: String, password: String },
    /// A record, to be sent as a JSON object.
    Record(HistoryItem),
}

/// The text of a [`Payload`].
pub enum PayloadView {
    Empty,
    Text(Seq<char>),
    Credentials { email: Seq<char>, password: Seq<char> },
    Record(HistoryItemView),
}

impl View for Payload {
    type V = PayloadView;

    open spec fn view(&self) -> PayloadView {
        match self {
            Payload::Empty => PayloadView::Empty,
            Payload::Text(text) => PayloadView::Text(text@),
            Payload::Credentials { email, password } => PayloadView::Credentials {
                email: email@,
                password: password@,
            },
            Payload::Record(item) => PayloadView::Record(item@),
        }
    }
}

/// A request for a caller to send.
#[derive(Debug, PartialEq, Eq)]
pub struct Request {
    pub method: Method,
    pub url: String,
    pub headers: Vec<Header>,
    pub payload: Payload,
}

/// The text of a [`Request`].
pub struct RequestView {
    pub method: Method,
    pub url: Seq<char>,
    pub headers: Seq<HeaderView>,
    pub payload: PayloadView,
}

impl View for Request {
    type V = RequestView;

    open spec fn view(&self) -> RequestView {
        RequestView {
            method: self.method,
            url: self.url@,
            headers: self.headers.deep_view(),
            payload: self.payload@,
        }
    }
}

impl DeepView for Request {
    type V = RequestView;

    open spec fn deep_view(&self) -> RequestView {
        self@
    }
}

/// Where the remote service is and the key that every request to it shows.
#[derive(Debug, PartialEq, Eq)]
pub struct Remote {
    pub base_url: String,
    pub api_key: String,
}

/// The header that announces a JSON body.
pub open spec fn json_header() -> HeaderView {
    HeaderView { name: "Content-Type"@, value: "application/json"@ }
}

/// The header that shows the key of the remote service.
pub open spec fn api_key_header(api_key: Seq<char>) -> HeaderView {
    HeaderView { name: "apikey"@, value: api_key }
}

/// The header that shows the token of the session.
pub open spec fn bearer_header(token: Seq<char>) -> HeaderView {
    HeaderView { name: "Authorization"@, value: "Bearer "@ + token }
}

/// The header that asks the store to send back what it stored.
pub open spec fn representation_header() -> HeaderView {
    HeaderView { name: "Prefer"@, value: "return=representation"@ }
}

/// The request that the user composed. Only a `POST`, `PUT` or `PATCH` with
/// a body that is not empty carries the body, announced as JSON; every other
/// request carries nothing and has no header.
pub open spec fn user_request(method: Method, url: Seq<char>, body: Seq<char>) -> RequestView {
    if method.carries_body() && body.len() > 0 {
        RequestView {
            method: method,
            url: url,
            headers: seq![json_header()],
            payload: PayloadView::Text(body),
        }
    } else {
        RequestView {
            method: method,
            url: url,
            headers: Seq::empty(),
            payload: PayloadView::Empty,
        }
    }
}

/// The request that opens an account.
pub open spec fn signup_request(
    base_url: Seq<char>,
    api_key: Seq<char>,
    email: Seq<char>,
    password: Seq<char>,
) -> RequestView {
    RequestView {
        method: Method::POST,
        url: base_url + "/auth/v1/signup"@,
        headers: seq![api_key_header(api_key), json_header()],
        payload: PayloadView::Credentials { email: email, password: password },
    }
}

/// The request that signs in with a password.
pub open spec fn login_request(
    base_url: Seq<char>,
    api_key: Seq<char>,
    email: Seq<char>,
    password: Seq<char>,
) -> RequestView {
    RequestView {
        method: Method::POST,
        url: base_url + "/auth/v1/token?grant_type=password"@,
        headers: seq![api_key_header(api_key), json_header()],
        payload: PayloadView::Credentials { email: email, password: password },
    }
}

/// The request for the records of a user: the newest first, no more than
/// the list holds.
pub open spec fn load_request(
    base_url: Seq<char>,
    api_key: Seq<char>,
    token: Seq<char>,
    user_id: Seq<char>,
) -> RequestView {
    RequestView {
        method: Method::GET,
        url: base_url + "/rest/v1/history?user_id=eq."@ + user_id
            + "&order=created_at.desc&limit="@ + decimal(HISTORY_LIMIT as nat),
        headers: seq![api_key_header(api_key), bearer_header(token)],
        payload: PayloadView::Empty,
    }
}

/// The request that stores a record and asks for it back as stored.
pub open spec fn append_request(
    base_url: Seq<char>,
    api_key: Seq<char>,
    token: Seq<char>,
    item: HistoryItemView,
) -> RequestView {
    RequestView {
        method: Method::POST,
        url: base_url + "/rest/v1/history"@,
        headers: seq![
            api_key_header(api_key),
            bearer_header(token),
            json_header(),
            representation_header(),
        ],
        payload: PayloadView::Record(item),
    }
}

/// The request that deletes the record with the identifier `id`.
pub open spec fn delete_request(
    base_url: Seq<char>,
    api_key: Seq<char>,
    token: Seq<char>,
    id: Seq<char>,
) -> RequestView {
    RequestView {
        method: Method::DELETE,
        url: base_url + "/rest/v1/history?id=eq."@ + id,
        headers: seq![api_key_header(api_key), bearer_header(token)],
        payload: PayloadView::Empty,
    }
}

/// A `GET` and a `DELETE` go out the same whatever body was composed, and
/// so does every request whose body is empty: with no body and no header.
pub proof fn lemma_body_only_where_it_counts(method: Method, url: Seq<char>, body: Seq<char>)
    requires
        !method.carries_body() || body.len() == 0,
    ensures
        user_request(method, url, body).payload == PayloadView::Empty,
        user_request(method, url, body).headers.len() == 0,
        user_request(method, url, body) == user_request(method, url, Seq::empty()),
{
}

fn json_content() -> (header: Header)
    ensures
        header@ == json_header(),
{
    Header { name: "Content-Type".to_owned(), value: "application/json".to_owned() }
}

fn api_key(remote: &Remote) -> (header: Header)
    ensures
        header@ == api_key_header(remote.api_key@),
{
    Header { name: "apikey".to_owned(), value: remote.api_key.clone() }
}

fn bearer(session: &Session) -> (header: Header)
    ensures
        header@ == bearer_header(session.token@),
{
    let mut value = "Bearer ".to_owned();
    value.append(session.token.as_str());
    Header { name: "Authorization".to_owned(), value: value }
}

fn representation() -> (header: Header)
    ensures
        header@ == representation_header(),
{
    Header { name: "Prefer".to_owned(), value: "return=representation".to_owned() }
}

fn url_under(remote: &Remote, path: &str) -> (url: String)
    ensures
        url@ == remote.base_url@ + path@,
{
    let mut url = remote.base_url.clone();
    url.append(path);
    url
}

impl Request {
    /// Describes the request that the user composed.
    pub fn from_user(method: Method, url: &str, body: &str) -> (request: Request)
        ensures
            request@ == user_request(method, url@, body@),
    {
        if method.has_body() && !body.is_empty() {
            let mut headers: Vec<Header> = Vec::new();
            headers.push(json_content());
            assert(headers.deep_view() =~= seq![json_header()]);
            Request {
                method: method,
                url: url.to_owned(),
                headers: headers,
                payload: Payload::Text(body.to_owned()),
            }
        } else {
            let headers: Vec<Header> = Vec::new();
            assert(headers.deep_view() =~= Seq::<HeaderView>::empty());
            Request {
                method: method,
                url: url.to_owned(),
                headers: headers,
                payload: Payload::Empty,
            }
        }
    }

    /// Describes the request that opens an account.
    pub fn signup(remote: &Remote, email: &str, password: &str) -> (request: Request)
        ensures
            request@ == signup_request(remote.base_url@, remote.api_key@, email@, password@),
    {
        let mut headers: Vec<Header> = Vec::new();
        headers.push(api_key(remote));
        headers.push(json_content());
        assert(headers.deep_view() =~= seq![api_key_header(remote.api_key@), json_header()]);
        Request {
            method: Method::POST,
            url: url_under(remote, "/auth/v1/signup"),
            headers: headers,
            payload: Payload::Credentials {
                email: email.to_owned(),
                password: password.to_owned(),
            },
        }
    }

    /// Describes the request that signs in with a password.
    pub fn login(remote: &Remote, email: &str, password: &str) -> (request: Request)
        ensures
            request@ == login_request(remote.base_url@, remote.api_key@, email@, password@),
    {
        let mut headers: Vec<Header> = Vec::new();
        headers.push(api_key(remote));
        headers.push(json_content());
        assert(headers.deep_view() =~= seq![api_key_header(remote.api_key@), json_header()]);
        Request {
            method: Method::POST,
            url: url_under(remote, "/auth/v1/token?grant_type=password"),
            headers: headers,
            payload: Payload::Credentials {
                email: email.to_owned(),
                password: password.to_owned(),
            },
        }
    }

    /// Describes the request for the records of the signed-in user.
    pub fn load_history(remote: &Remote, session: &Session) -> (request: Request)
        ensures
            request@ == load_request(
                remote.base_url@,
                remote.api_key@,
                session.token@,
                session.user_id@,
            ),
    {
        let mut headers: Vec<Header> = Vec::new();
        headers.push(api_key(remote));
        headers.push(bearer(session));
        assert(headers.deep_view() =~= seq![
            api_key_header(remote.api_key@),
            bearer_header(session.token@),
        ]);
        let mut url = url_under(remote, "/rest/v1/history?user_id=eq.");
        url.append(session.user_id.as_str());
        url.append("&order=created_at.desc&limit=");
        push_decimal(&mut url, HISTORY_LIMIT);
        Request { method: Method::GET, url: url, headers: headers, payload: Payload::Empty }
    }

    /// Describes the request that stores a record.
    pub fn append_history(remote: &Remote, session: &Session, item: HistoryItem) -> (request:
        Request)
        ensures
            request@ == append_request(remote.base_url@, remote.api_key@, session.token@, item@),
    {
        let mut headers: Vec<Header> = Vec::new();
        headers.push(api_key(remote));
        headers.push(bearer(session));
        headers.push(json_content());
        headers.push(representation());
        assert(headers.deep_view() =~= seq![
            api_key_header(remote.api_key@),
            bearer_header(session.token@),
            json_header(),
            representation_header(),
        ]);
        Request {
            method: Method::POST,
            url: url_under(remote, "/rest/v1/history"),
            headers: headers,
            payload: Payload::Record(item),
        }
    }

    /// Describes the request that deletes a record.
    pub fn delete_history(remote: &Remote, session: &Session, id: &str) -> (request: Request)
        ensures
            request@ == delete_request(remote.base_url@, remote.api_key@, session.token@, id@),
    {
        let mut headers: Vec<Header> = Vec::new();
        headers.push(api_key(remote));
        headers.push(bearer(session));
        assert(headers.deep_view() =~= seq![
            api_key_header(remote.api_key@),
            bearer_header(session.token@),
        ]);
        let mut url = url_under(remote, "/rest/v1/history?id=eq.");
        url.append(id);
        Request { method: Method::DELETE, url: url, headers: headers, payload: Payload::Empty }
    }
}

} // verus!
