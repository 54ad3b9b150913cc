//! Signing up and signing in: what an answer of the remote service means
//! for the user.

use crate::session::{Session, SessionView};
use crate::status::{is_success, succeeds};
use crate::text::{contains, occurs_at, occurs_in};
use vstd::prelude::*;
use vstd::string::StringExecFns;

verus! {

/// What the remote service said to a request to sign up or to sign in.
#[derive(Debug, PartialEq, Eq)]
pub enum AuthReply {
    /// The exchange with the service did not complete; `message` says why.
    Unreachable { message: String },
    /// The service answered with a status code. `body` holds the text of
    /// its answer, where that could be read.
    Answered { status: u16, body: Option<String> },
}

/// The text of an [`AuthReply`].
pub enum AuthReplyView {
    Unreachable { message: Seq<char> },
    Answered { status: u16, body: Option<Seq<char>> },
}

impl View for AuthReply {
    type V = AuthReplyView;

    open spec fn view(&self) -> AuthReplyView {
        match self {
            AuthReply::Unreachable { message } => AuthReplyView::Unreachable {
                message: message@,
            },
            AuthReply::Answered { status, body } => AuthReplyView::Answered {
                status: *status,
                body: body.deep_view(),
            },
        }
    }
}

/// What follows an attempt to sign up.
#[derive(Debug, PartialEq, Eq)]
pub enum SignupStep {
    /// The account exists now: go on and sign in.
    Proceed,
    /// Stay on the form and show `message`.
    Stop { message: String },
}

/// The text of a [`SignupStep`].
pub enum SignupStepView {
    Proceed,
    Stop { message: Seq<char> },
}

impl View for SignupStep {
    type V = SignupStepView;

    open spec fn view(&self) -> SignupStepView {
        match self {
            SignupStep::Proceed => SignupStepView::Proceed,
            SignupStep::Stop { message } => SignupStepView::Stop { message: message@ },
        }
    }
}

/// What follows an attempt to sign in.
#[derive(Debug, PartialEq, Eq)]
pub enum LoginStep {
    /// The user is signed in with `session`.
    SignedIn { session: Session },
    /// Stay on the form and show `message`.
    Stop { message: String },
}

/// The text of a [`LoginStep`].
pub enum LoginStepView {
    SignedIn { session: SessionView },
    Stop { message: Seq<char> },
}

impl View for LoginStep {
    type V = LoginStepView;

    open spec fn view(&self) -> LoginStepView {
        match self {
            LoginStep::SignedIn { session } => LoginStepView::SignedIn { session: session@ },
            LoginStep::Stop { message } => LoginStepView::Stop { message: message@ },
        }
    }
}

/// The text of what was read out of a successful answer to signing in: the
/// session it grants, or why it could not be read.
pub open spec fn grant_view(grant: Result<Session, String>) -> Result<SessionView, Seq<char>> {
    match grant {
        Ok(session) => Ok(session@),
        Err(detail) => Err(detail@),
    }
}

/// The body of an answer, or `fallback` where it could not be read.
pub open spec fn body_or(body: Option<Seq<char>>, fallback: Seq<char>) -> Seq<char> {
    match body {
        Some(text) => text,
        None => fallback,
    }
}

/// Whether the body of an accepted sign-up says that the address has to be
/// confirmed first.
pub open spec fn awaits_confirmation(body: Seq<char>) -> bool {
    occurs_in(body, "confirmation_sent_at"@)
}

/// Whether the body of a refused sign-up says that the address has an
/// account already.
pub open spec fn already_registered(body: Seq<char>) -> bool {
    occurs_in(body, "already registered"@) || occurs_in(body, "already been registered"@)
}

/// Whether the body of a refused sign-in says that the address was never
/// confirmed.
pub open spec fn unconfirmed(body: Seq<char>) -> bool {
    occurs_in(body, "Email not confirmed"@) || occurs_in(body, "email_not_confirmed"@)
}

/// What follows an attempt to sign up, by the answer to it.
pub open spec fn signup_step(reply: AuthReplyView) -> SignupStepView {
    match reply {
        AuthReplyView::Unreachable { message } => SignupStepView::Stop {
            message: "Connection error: "@ + message,
        },
        AuthReplyView::Answered { status, body } => if succeeds(status) {
            if awaits_confirmation(body_or(body, ""@)) {
                SignupStepView::Stop {
                    message: "Please check your email to confirm your account before logging in."@,
                }
            } else {
                SignupStepView::Proceed
            }
        } else {
            if already_registered(body_or(body, "Unknown error"@)) {
                SignupStepView::Stop {
                    message: "User already exists. Please use Login instead."@,
                }
            } else {
                SignupStepView::Stop {
                    message: "Signup failed: "@ + body_or(body, "Unknown error"@),
                }
            }
        },
    }
}

/// What follows an attempt to sign in, by the answer to it and by what was
/// read out of the answer's body. The latter counts only where the answer
/// reports success.
pub open spec fn login_step(
    reply: AuthReplyView,
    grant: Result<SessionView, Seq<char>>,
) -> LoginStepView {
    match reply {
        AuthReplyView::Unreachable { message } => LoginStepView::Stop {
            message: "Connection error: "@ + message,
        },
        AuthReplyView::Answered { status, body } => if succeeds(status) {
            match grant {
                Ok(session) => LoginStepView::SignedIn { session: session },
                Err(detail) => LoginStepView::Stop {
                    message: "Failed to parse login response: "@ + detail,
                },
            }
        } else {
            if unconfirmed(body_or(body, "Unknown error"@)) {
                LoginStepView::Stop {
                    message: "Please confirm your email before logging in. Check your inbox."@,
                }
            } else {
                LoginStepView::Stop { message: "Invalid email or password"@ }
            }
        },
    }
}

/// A sign-up that is refused because the address has an account already
/// is answered with a message that says `already exists`.
pub proof fn lemma_registered_address_is_named(status: u16, body: Option<Seq<char>>)
    requires
        !succeeds(status),
        already_registered(body_or(body, "Unknown error"@)),
    ensures
        signup_step(AuthReplyView::Answered { status: status, body: body })
            matches SignupStepView::Stop { message } && occurs_in(message, "already exists"@),
{
    let message = "User already exists. Please use Login instead."@;
    reveal_strlit("User already exists. Please use Login instead.");
    reveal_strlit("already exists");
    assert(message.subrange(5, 19) =~= "already exists"@);
    assert(occurs_at(message, "already exists"@, 5));
}

fn with_prefix(prefix: &str, rest: &str) -> (text: String)
    ensures
        text@ == prefix@ + rest@,
{
    let mut text = prefix.to_owned();
    text.append(rest);
    text
}

fn body_text<'a>(body: &'a Option<String>, fallback: &'a str) -> (text: &'a str)
    ensures
        text@ == body_or(body.deep_view(), fallback@),
{
    match body {
        Some(text) => text.as_str(),
        None => fallback,
    }
}

/// Decides what follows an attempt to sign up.
pub fn interpret_signup(reply: &AuthReply) -> (step: SignupStep)
    ensures
        step@ == signup_step(reply@),
{
    match reply {
        AuthReply::Unreachable { message } => SignupStep::Stop {
            message: with_prefix("Connection error: ", message.as_str()),
        },
        AuthReply::Answered { status, body } => {
            if is_success(*status) {
                let text = body_text(body, "");
                if contains(text, "confirmation_sent_at") {
                    SignupStep::Stop {
                        message: "Please check your email to confirm your account before logging in.".to_owned(),
                    }
                } else {
                    SignupStep::Proceed
                }
            } else {
                let text = body_text(body, "Unknown error");
                if contains(text, "already registered") || contains(
                    text,
                    "already been registered",
                ) {
                    SignupStep::Stop {
                        message: "User already exists. Please use Login instead.".to_owned(),
                    }
                } else {
                    SignupStep::Stop { message: with_prefix("Signup failed: ", text) }
                }
            }
        },
    }
}

/// Decides what follows an attempt to sign in.
pub fn interpret_login(reply: &AuthReply, grant: Result<Session, String>) -> (step: LoginStep)
    ensures
        step@ == login_step(reply@, grant_view(grant)),
{
    match reply {
        AuthReply::Unreachable { message } => LoginStep::Stop {
            message: with_prefix("Connection error: ", message.as_str()),
        },
        AuthReply::Answered { status, body } => {
            if is_success(*status) {
                match grant {
                    Ok(session) => LoginStep::SignedIn { session: session },
                    Err(detail) => LoginStep::Stop {
                        message: with_prefix("Failed to parse login response: ", detail.as_str()),
                    },
                }
            } else {
                let text = body_text(body, "Unknown error");
                if contains(text, "Email not confirmed") || contains(text, "email_not_confirmed") {
                    LoginStep::Stop {
                        message: "Please confirm your email before logging in. Check your inbox.".to_owned(),
                    }
                } else {
                    LoginStep::Stop { message: "Invalid email or password".to_owned() }
                }
            }
        },
    }
}

} // verus!
