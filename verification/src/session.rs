//! The signed-in user.

use vstd::prelude::*;

verus! {

/// What a signed-in user is known by: the bearer token of the session, the
/// identifier that owns the user's history, and the address shown on screen.
/// A user who is not signed in has no session at all.
#[derive(Debug, PartialEq, Eq)]
pub struct Session {
    pub token: String,
    pub user_id: String,
    pub email: String,
}

/// The text of a [`Session`].
pub struct SessionView {
    pub token: Seq<char>,
    pub user_id: Seq<char>,
    pub email: Seq<char>,
}

impl View for Session {
    type V = SessionView;

    open spec fn view(&self) -> SessionView {
        SessionView { token: self.token@, user_id: self.user_id@, email: self.email@ }
    }
}

impl DeepView for Session {
    type V = SessionView;

    open spec fn deep_view(&self) -> SessionView {
        self@
    }
}

impl Clone for Session {
    fn clone(&self) -> (copy: Session)
        ensures
            copy == *self,
    {
        Session {
            token: self.token.clone(),
            user_id: self.user_id.clone(),
            email: self.email.clone(),
        }
    }
}

} // verus!
