//! The state of the tool: who is signed in, what is being composed, what
//! came back last, and the history. One value of [`Workspace`] is made at
//! start and handed to whatever acts on it.
//!
//! Every step that needs the network comes in two halves. The first
//! half describes the request, or says that there is nothing to send. The
//! caller sends it and hands the outcome to the second half, which changes
//! the state.

use crate::auth::{
    grant_view, interpret_login, interpret_signup, login_step, signup_step, AuthReply,
    AuthReplyView, LoginStep, LoginStepView, SignupStep, SignupStepView,
};
use crate::executor::{complete, completed, ExecutionResultView, Transport};
use crate::history::{
    append_step, appended, begin_append, begin_delete, begin_load, delete_applies, delete_step,
    deleted, lemma_appended, load_step, loaded, mentions, History, StoreReply, HISTORY_LIMIT,
};
use crate::method::{lemma_label_round_trip, Method};
use crate::record::{
    draft_of, Exchange, ExchangeView, HistoryItem, HistoryItemView, MAX_BODY_SIZE,
    MAX_RESPONSE_SIZE,
};
use crate::request::{login_request, signup_request, user_request, Remote, Request, RequestView};
use crate::session::{Session, SessionView};
use crate::status::succeeds;
use crate::text::clone_text;
use vstd::prelude::*;
use vstd::utf8::encode_utf8;

verus! {

/// Which of the two screens is up.
#[derive(Clone, Copy, Debug, PartialEq, Eq, Structural)]
pub enum Screen {
    Login,
    Main,
}

/// The state of the tool.
#[derive(Debug)]
pub struct Workspace {
    pub screen: Screen,
    pub session: Option<Session>,
    pub login_email: String,
    pub login_password: String,
    pub login_error: String,
    pub is_signup: bool,
    pub url: String,
    pub method: Method,
    pub body: String,
    pub response: String,
    pub status: String,
    pub time: String,
    /// Whether a request of the user is out and its outcome not yet in.
    pub sending: bool,
    pub history: History,
    pub show_history: bool,
    pub selected_history_id: Option<String>,
}

/// The text of a [`Workspace`].
pub struct WorkspaceView {
    pub screen: Screen,
    pub session: Option<SessionView>,
    pub login_email: Seq<char>,
    pub login_password: Seq<char>,
    pub login_error: Seq<char>,
    pub is_signup: bool,
    pub url: Seq<char>,
    pub method: Method,
    pub body: Seq<char>,
    pub response: Seq<char>,
    pub status: Seq<char>,
    pub time: Seq<char>,
    pub sending: bool,
    pub history: Seq<HistoryItemView>,
    pub show_history: bool,
    pub selected_history_id: Option<Seq<char>>,
}

impl View for Workspace {
    type V = WorkspaceView;

    open spec fn view(&self) -> WorkspaceView {
        WorkspaceView {
            screen: self.screen,
            session: self.session.deep_view(),
            login_email: self.login_email@,
            login_password: self.login_password@,
            login_error: self.login_error@,
            is_signup: self.is_signup,
            url: self.url@,
            method: self.method,
            body: self.body@,
            response: self.response@,
            status: self.status@,
            time: self.time@,
            sending: self.sending,
            history: self.history@,
            show_history: self.show_history,
            selected_history_id: self.selected_history_id.deep_view(),
        }
    }
}

/// The state at start: the main screen, nothing composed, nothing shown, an
/// empty history, and the history panel open exactly when someone is
/// signed in.
pub open spec fn started(session: Option<SessionView>) -> WorkspaceView {
    WorkspaceView {
        screen: Screen::Main,
        session: session,
        login_email: Seq::empty(),
        login_password: Seq::empty(),
        login_error: Seq::empty(),
        is_signup: false,
        url: Seq::empty(),
        method: Method::GET,
        body: Seq::empty(),
        response: Seq::empty(),
        status: Seq::empty(),
        time: Seq::empty(),
        sending: false,
        history: Seq::empty(),
        show_history: session is Some,
        selected_history_id: None,
    }
}

/// The request that the login form sends: one to sign up where the form
/// is set to that, else one to sign in.
pub open spec fn auth_request(remote: Remote, state: WorkspaceView) -> RequestView {
    if state.is_signup {
        signup_request(
            remote.base_url@,
            remote.api_key@,
            state.login_email,
            state.login_password,
        )
    } else {
        login_request(remote.base_url@, remote.api_key@, state.login_email, state.login_password)
    }
}

/// The state after an answer to signing up: the form turns to signing in
/// where the account now exists, and shows a message where it does not.
pub open spec fn after_signup(state: WorkspaceView, reply: AuthReplyView) -> WorkspaceView {
    match signup_step(reply) {
        SignupStepView::Proceed => WorkspaceView { is_signup: false, ..state },
        SignupStepView::Stop { message } => WorkspaceView { login_error: message, ..state },
    }
}

/// The state after an answer to signing in: signed in on the main screen
/// with the history panel open, or still on the form with a message.
pub open spec fn after_login(
    state: WorkspaceView,
    reply: AuthReplyView,
    grant: Result<SessionView, Seq<char>>,
) -> WorkspaceView {
    match login_step(reply, grant) {
        LoginStepView::SignedIn { session } => WorkspaceView {
            session: Some(session),
            screen: Screen::Main,
            show_history: true,
            login_error: Seq::empty(),
            ..state
        },
        LoginStepView::Stop { message } => WorkspaceView { login_error: message, ..state },
    }
}

/// The state after signing out: nobody signed in, no history.
pub open spec fn after_logout(state: WorkspaceView) -> WorkspaceView {
    WorkspaceView {
        session: None,
        screen: Screen::Main,
        show_history: false,
        history: Seq::empty(),
        ..state
    }
}

/// The state after a record was taken up for editing: the record's request
/// and result are on screen, and the record is marked as the chosen one.
pub open spec fn after_load_item(state: WorkspaceView, item: HistoryItemView) -> WorkspaceView {
    WorkspaceView {
        url: item.url,
        method: Method::of_label(item.method),
        body: match item.body {
            Some(body) => body,
            None => Seq::empty(),
        },
        response: item.response,
        status: item.status,
        time: item.time,
        selected_history_id: item.id,
        ..state
    }
}

/// The request to send for what is composed: none while the address is
/// empty, and none while an earlier request is still out.
pub open spec fn send_step(state: WorkspaceView) -> Option<RequestView> {
    if state.sending || state.url.len() == 0 {
        None
    } else {
        Some(user_request(state.method, state.url, state.body))
    }
}

/// The state after the request to send was asked for: where there is one,
/// it is out from now on.
pub open spec fn after_begin_send(state: WorkspaceView) -> WorkspaceView {
    WorkspaceView { sending: state.sending || send_step(state) is Some, ..state }
}

/// The state after an exchange ended with `result`: the result is on
/// screen and no request is out.
pub open spec fn after_send(state: WorkspaceView, result: ExecutionResultView) -> WorkspaceView {
    WorkspaceView {
        status: result.status,
        response: result.response,
        time: result.time,
        sending: false,
        ..state
    }
}

/// The exchange that is on screen.
pub open spec fn exchange_of(state: WorkspaceView) -> ExchangeView {
    ExchangeView {
        method: state.method,
        url: state.url,
        body: state.body,
        status: state.status,
        response: state.response,
        time: state.time,
    }
}

/// The state after an answer to a request for the stored records. While
/// nobody is signed in, no answer changes anything.
pub open spec fn after_load(state: WorkspaceView, reply: StoreReply) -> WorkspaceView {
    if state.session is Some {
        WorkspaceView { history: loaded(state.history, reply), ..state }
    } else {
        state
    }
}

/// The state after an answer to an upload. While nobody is signed in, no
/// answer changes anything.
pub open spec fn after_save(state: WorkspaceView, reply: StoreReply) -> WorkspaceView {
    if state.session is Some {
        WorkspaceView { history: appended(state.history, reply), ..state }
    } else {
        state
    }
}

/// The state after an answer to a request to delete the record `id`. While
/// nobody is signed in, no answer changes anything.
pub open spec fn after_delete(
    state: WorkspaceView,
    id: Seq<char>,
    reply: StoreReply,
) -> WorkspaceView {
    if state.session is Some {
        WorkspaceView { history: deleted(state.history, id, reply), ..state }
    } else {
        state
    }
}

/// While nobody is signed in, no operation on the history sends anything,
/// and no answer changes the state.
pub proof fn lemma_no_session_no_sync(
    remote: Remote,
    state: WorkspaceView,
    id: Seq<char>,
    reply: StoreReply,
)
    requires
        state.session is None,
    ensures
        load_step(remote, state.session) is None,
        append_step(remote, state.session, exchange_of(state)) is None,
        delete_step(remote, state.session, id) is None,
        after_load(state, reply) == state,
        after_save(state, reply) == state,
        after_delete(state, id, reply) == state,
{
}

/// An answer from the store that does not report success leaves the whole
/// state as it was, whichever request it answers.
pub proof fn lemma_failed_sync_changes_nothing(
    state: WorkspaceView,
    id: Seq<char>,
    reply: StoreReply,
)
    requires
        !reply.succeeded(),
    ensures
        after_load(state, reply) == state,
        after_save(state, reply) == state,
        after_delete(state, id, reply) == state,
{
}

/// A record that the store sent back for an upload stands first in the
/// history afterwards, and the history has grown by one, up to the limit.
pub proof fn lemma_saved_record_is_first(state: WorkspaceView, reply: StoreReply)
    requires
        state.session is Some,
        state.history.len() <= HISTORY_LIMIT,
        reply.saved() is Some,
    ensures
        after_save(state, reply).history[0] == reply.saved()->0,
        after_save(state, reply).history.len() == if state.history.len() + 1 <= HISTORY_LIMIT {
            state.history.len() + 1
        } else {
            HISTORY_LIMIT as nat
        },
{
    lemma_appended(state.history, reply);
}

/// Deleting an identifier that no record has changes nothing, whatever the
/// store answered.
pub proof fn lemma_delete_absent_changes_nothing(
    state: WorkspaceView,
    id: Seq<char>,
    reply: StoreReply,
)
    requires
        !mentions(state.history, id),
    ensures
        after_delete(state, id, reply) == state,
{
}

/// The result of an exchange goes on screen the same with and without a
/// session, and no answer to an upload changes it afterwards.
pub proof fn lemma_result_survives_sync(
    state: WorkspaceView,
    result: ExecutionResultView,
    reply: StoreReply,
)
    ensures
        exchange_of(after_save(after_send(state, result), reply)) == exchange_of(
            after_send(state, result),
        ),
        exchange_of(after_send(state, result)).status == result.status,
        exchange_of(after_send(state, result)).response == result.response,
        exchange_of(after_send(state, result)).time == result.time,
{
}

/// No answer to signing up signs anybody in or touches the history.
pub proof fn lemma_signup_creates_no_session(state: WorkspaceView, reply: AuthReplyView)
    ensures
        after_signup(state, reply).session == state.session,
        after_signup(state, reply).history == state.history,
        after_signup(state, reply).screen == state.screen,
{
}

/// Only an answer that reports success and grants a session signs the
/// user in; after any other answer the session is as it was.
pub proof fn lemma_login_needs_a_grant(
    state: WorkspaceView,
    reply: AuthReplyView,
    grant: Result<SessionView, Seq<char>>,
)
    ensures
        login_step(reply, grant) is SignedIn <==> (reply matches AuthReplyView::Answered {
            status,
            ..
        } && succeeds(status) && grant is Ok),
        !(login_step(reply, grant) is SignedIn) ==> after_login(state, reply, grant).session
            == state.session,
        login_step(reply, grant) is SignedIn ==> after_login(state, reply, grant).session == Some(
            grant->Ok_0,
        ),
{
}

/// While a request of the user is out, no second one is handed out; once
/// its outcome is in, the way is free again.
pub proof fn lemma_one_request_at_a_time(state: WorkspaceView, result: ExecutionResultView)
    ensures
        send_step(state) is Some ==> send_step(after_begin_send(state)) is None,
        state.url.len() > 0 ==> send_step(after_send(after_begin_send(state), result)) is Some,
{
}

/// Taking up the record that was drafted for an exchange brings the
/// exchange back on screen: method, address, status and time as they
/// were, and each body as it was where it is within its budget.
pub proof fn lemma_draft_loads_back(
    state: WorkspaceView,
    user_id: Seq<char>,
    exchange: ExchangeView,
)
    ensures
        ({
            let loaded = exchange_of(after_load_item(state, draft_of(user_id, exchange)));
            &&& loaded.method == exchange.method
            &&& loaded.url == exchange.url
            &&& loaded.status == exchange.status
            &&& loaded.time == exchange.time
            &&& encode_utf8(exchange.body).len() <= MAX_BODY_SIZE ==> loaded.body
                == exchange.body
            &&& encode_utf8(exchange.response).len() <= MAX_RESPONSE_SIZE ==> loaded.response
                == exchange.response
        }),
{
    lemma_label_round_trip(exchange.method);
    if exchange.body.len() == 0 {
        assert(exchange.body =~= Seq::<char>::empty());
    }
}

impl Workspace {
    /// The state at start, with the session that was kept from the last
    /// run, if any.
    pub fn new(session: Option<Session>) -> (workspace: Workspace)
        ensures
            workspace@ == started(session.deep_view()),
    {
        let show_history = session.is_some();
        Workspace {
            screen: Screen::Main,
            session: session,
            login_email: String::new(),
            login_password: String::new(),
            login_error: String::new(),
            is_signup: false,
            url: String::new(),
            method: Method::GET,
            body: String::new(),
            response: String::new(),
            status: String::new(),
            time: String::new(),
            sending: false,
            history: History::new(),
            show_history: show_history,
            selected_history_id: None,
        }
    }

    /// Describes the request that the login form sends. The answer to a
    /// sign-up goes to [`Workspace::finish_signup`], the answer to a sign-in
    /// to [`Workspace::finish_login`].
    pub fn begin_auth(&self, remote: &Remote) -> (request: Request)
        ensures
            request@ == auth_request(*remote, self@),
    {
        if self.is_signup {
            Request::signup(remote, self.login_email.as_str(), self.login_password.as_str())
        } else {
            Request::login(remote, self.login_email.as_str(), self.login_password.as_str())
        }
    }

    /// Takes in the answer to signing up, and says whether to go on and
    /// sign in.
    pub fn finish_signup(&mut self, reply: &AuthReply) -> (proceed: bool)
        ensures
            proceed == (signup_step(reply@) is Proceed),
            final(self)@ == after_signup(old(self)@, reply@),
    {
        match interpret_signup(reply) {
            SignupStep::Proceed => {
                self.is_signup = false;
                true
            },
            SignupStep::Stop { message } => {
                self.login_error = message;
                false
            },
        }
    }

    /// Takes in the answer to signing in and, for an answer that reports
    /// success, what was read out of its body. Says whether the user is now
    /// signed in.
    pub fn finish_login(&mut self, reply: &AuthReply, grant: Result<Session, String>) -> (signed_in:
        bool)
        ensures
            signed_in == (login_step(reply@, grant_view(grant)) is SignedIn),
            final(self)@ == after_login(old(self)@, reply@, grant_view(grant)),
    {
        match interpret_login(reply, grant) {
            LoginStep::SignedIn { session } => {
                self.session = Some(session);
                self.screen = Screen::Main;
                self.show_history = true;
                self.login_error = String::new();
                true
            },
            LoginStep::Stop { message } => {
                self.login_error = message;
                false
            },
        }
    }

    /// Signs out and forgets the history.
    pub fn logout(&mut self)
        ensures
            final(self)@ == after_logout(old(self)@),
    {
        self.session = None;
        self.screen = Screen::Main;
        self.show_history = false;
        self.history.clear();
    }

    /// Takes a record up for editing. The record in the history stays as it
    /// is.
    pub fn load_history_item(&mut self, item: &HistoryItem)
        ensures
            final(self)@ == after_load_item(old(self)@, item@),
    {
        self.url = item.url.clone();
        self.method = Method::from_label(item.method.as_str());
        self.body = match &item.body {
            Some(body) => body.clone(),
            None => String::new(),
        };
        self.response = item.response.clone();
        self.status = item.status.clone();
        self.time = item.time.clone();
        self.selected_history_id = clone_text(&item.id);
    }

    /// Describes the request to send for what is composed, and notes that
    /// it is out. Until its outcome went to [`Workspace::finish_send`], no
    /// further request is handed out.
    pub fn begin_send(&mut self) -> (request: Option<Request>)
        ensures
            request.deep_view() == send_step(old(self)@),
            final(self)@ == after_begin_send(old(self)@),
    {
        if self.sending || self.url.as_str().is_empty() {
            None
        } else {
            self.sending = true;
            Some(Request::from_user(self.method, self.url.as_str(), self.body.as_str()))
        }
    }

    /// Takes in how the exchange ended and how long it took, and puts the
    /// result on screen.
    pub fn finish_send(&mut self, outcome: Transport, elapsed_nanos: u64)
        ensures
            final(self)@ == after_send(old(self)@, completed(outcome@, elapsed_nanos)),
    {
        let result = complete(outcome, elapsed_nanos);
        self.status = result.status;
        self.response = result.response;
        self.time = result.time;
        self.sending = false;
    }

    /// The exchange that is on screen.
    pub fn exchange(&self) -> (exchange: Exchange)
        ensures
            exchange@ == exchange_of(self@),
    {
        Exchange {
            method: self.method,
            url: self.url.clone(),
            body: self.body.clone(),
            status: self.status.clone(),
            response: self.response.clone(),
            time: self.time.clone(),
        }
    }

    /// Describes the request for the stored records: none while nobody is
    /// signed in.
    pub fn begin_load_history(&self, remote: &Remote) -> (request: Option<Request>)
        ensures
            request.deep_view() == load_step(*remote, self@.session),
    {
        begin_load(remote, &self.session)
    }

    /// Takes in the answer to a request for the stored records, and says
    /// whether the history now holds them.
    pub fn finish_load_history(&mut self, reply: StoreReply) -> (done: bool)
        ensures
            done == (old(self)@.session is Some && reply.returned() is Some),
            final(self)@ == after_load(old(self)@, reply),
    {
        if self.session.is_some() {
            self.history.finish_load(reply)
        } else {
            false
        }
    }

    /// Describes the upload of the exchange that is on screen: none while
    /// nobody is signed in.
    pub fn begin_save(&self, remote: &Remote) -> (request: Option<Request>)
        ensures
            request.deep_view() == append_step(*remote, self@.session, exchange_of(self@)),
    {
        let exchange = self.exchange();
        begin_append(remote, &self.session, &exchange)
    }

    /// Takes in the answer to an upload, and hands out a copy of the record
    /// that went into the history, if one did. What is on screen stays as
    /// it is, whatever the answer.
    pub fn finish_save(&mut self, reply: StoreReply) -> (stored: Option<HistoryItem>)
        ensures
            stored.deep_view() == if old(self)@.session is Some {
                reply.saved()
            } else {
                None
            },
            final(self)@ == after_save(old(self)@, reply),
    {
        if self.session.is_some() {
            self.history.finish_append(reply)
        } else {
            None
        }
    }

    /// Describes the request to delete the record `id`: none while nobody
    /// is signed in, and none for an empty identifier.
    pub fn begin_delete(&self, remote: &Remote, id: &str) -> (request: Option<Request>)
        ensures
            request.deep_view() == delete_step(*remote, self@.session, id@),
    {
        begin_delete(remote, &self.session, id)
    }

    /// Takes in the answer to a request to delete the record `id`, and says
    /// whether a record left the history.
    pub fn finish_delete(&mut self, id: &str, reply: &StoreReply) -> (removed: bool)
        ensures
            removed == (old(self)@.session is Some && delete_applies(id@, *reply) && mentions(
                old(self)@.history,
                id@,
            )),
            final(self)@ == after_delete(old(self)@, id@, *reply),
    {
        if self.session.is_some() {
            self.history.finish_delete(id, reply)
        } else {
            false
        }
    }
}

} // verus!
