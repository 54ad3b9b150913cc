//! The session as it is kept between runs: a JSON object with the string
//! members `token`, `user_id` and `email`.
//!
//! Reading and writing the file is the caller's part; this module turns the
//! file's text into a session and back.

use crate::json::{
    json_document, json_object, json_pretty, json_string_member, object_of, parse_json,
    render_pretty, string_member,
};
use crate::session::{Session, SessionView};
use vstd::prelude::*;

verus! {

/// The session made of the three members, where all three are there.
pub open spec fn session_from(
    token: Option<Seq<char>>,
    user_id: Option<Seq<char>>,
    email: Option<Seq<char>>,
) -> Option<SessionView> {
    match (token, user_id, email) {
        (Some(token), Some(user_id), Some(email)) => Some(
            SessionView { token: token, user_id: user_id, email: email },
        ),
        _ => None,
    }
}

/// The session that `text` holds; none where `text` is not a JSON document
/// or lacks one of the three strings.
pub open spec fn credentials_in(text: Seq<char>) -> Option<SessionView> {
    match json_document(text) {
        Some(document) => session_from(
            json_string_member(document, "token"@),
            json_string_member(document, "user_id"@),
            json_string_member(document, "email"@),
        ),
        None => None,
    }
}

/// The members that a session is kept as.
pub open spec fn credential_members(session: SessionView) -> Seq<(Seq<char>, Seq<char>)> {
    seq![("token"@, session.token), ("user_id"@, session.user_id), ("email"@, session.email)]
}

/// The text that a session is kept as; none where it cannot be written.
pub open spec fn credentials_text(session: SessionView) -> Option<Seq<char>> {
    json_pretty(json_object(credential_members(session)))
}

/// Makes a session of the three members, where all three are there.
pub fn session_of(token: Option<String>, user_id: Option<String>, email: Option<String>) -> (session:
    Option<Session>)
    ensures
        session.deep_view() == session_from(
            token.deep_view(),
            user_id.deep_view(),
            email.deep_view(),
        ),
{
    match (token, user_id, email) {
        (Some(token), Some(user_id), Some(email)) => Some(
            Session { token: token, user_id: user_id, email: email },
        ),
        _ => None,
    }
}

/// Reads a session out of the text of the credential file. Text that holds
/// no session is no error: it means that nobody is signed in.
pub fn parse_credentials(text: &str) -> (session: Option<Session>)
    ensures
        session.deep_view() == credentials_in(text@),
{
    match parse_json(text) {
        Some(document) => {
            let token = string_member(&document, "token");
            let user_id = string_member(&document, "user_id");
            let email = string_member(&document, "email");
            session_of(token, user_id, email)
        },
        None => None,
    }
}

/// Lists the members that a session is kept as.
pub fn members_of(session: &Session) -> (members: Vec<(String, String)>)
    ensures
        members.deep_view() == credential_members(session@),
{
    let mut members: Vec<(String, String)> = Vec::new();
    members.push(("token".to_owned(), session.token.clone()));
    members.push(("user_id".to_owned(), session.user_id.clone()));
    members.push(("email".to_owned(), session.email.clone()));
    assert(members.deep_view() =~= credential_members(session@));
    members
}

/// Writes a session as the text of the credential file.
pub fn render_credentials(session: &Session) -> (text: Option<String>)
    ensures
        text.deep_view() == credentials_text(session@),
{
    let members = members_of(session);
    let document = object_of(&members);
    render_pretty(&document)
}

} // verus!
