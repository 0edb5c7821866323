//! The login request: a fresh login state is stored, and the caller is sent to the
//! hosting platform with it.

use crate::login_state::{is_state_token, new_state_token};
use vstd::prelude::*;
use vstd::string::*;

verus! {

/// Address of the hosting platform's authorization page for a login state.
pub open spec fn authorization_url_of(token: Seq<char>) -> Seq<char> {
    "https://github.com/apps/tokeihub/installations/select_target?state="@ + token
}

/// The address that a caller with the login state `token` is sent to.
pub fn authorization_url(token: &str) -> (url: String)
    ensures
        url@ == authorization_url_of(token@),
{
    let mut url = String::from_str(
        "https://github.com/apps/tokeihub/installations/select_target?state=",
    );
    url.append(token);
    url
}

/// What a login request is answered with.
#[derive(Debug, Clone, PartialEq, Eq)]
pub enum LoginReply {
    /// The caller is sent to `location`.
    Redirect { location: String },
    /// The login state could not be stored.
    StoreFailed,
}

/// What a [`LoginReply`] denotes.
pub enum LoginReplyView {
    Redirect { location: Seq<char> },
    StoreFailed,
}

impl View for LoginReply {
    type V = LoginReplyView;

    open spec fn view(&self) -> LoginReplyView {
        match self {
            LoginReply::Redirect { location } => LoginReplyView::Redirect { location: location@ },
            LoginReply::StoreFailed => LoginReplyView::StoreFailed,
        }
    }
}

/// The HTTP status that goes with a reply.
pub open spec fn status_of(reply: LoginReplyView) -> u16 {
    match reply {
        LoginReplyView::Redirect { .. } => 302,
        LoginReplyView::StoreFailed => 500,
    }
}

/// The text that goes with a reply; a redirect goes without one.
pub open spec fn message_of(reply: LoginReplyView) -> Option<Seq<char>> {
    match reply {
        LoginReplyView::Redirect { .. } => None,
        LoginReplyView::StoreFailed => Some("Login state store failed"@),
    }
}

impl LoginReply {
    /// The HTTP status that the reply is sent with.
    pub fn status(&self) -> (status: u16)
        ensures
            status == status_of(self@),
    {
        match self {
            LoginReply::Redirect { .. } => 302,
            LoginReply::StoreFailed => 500,
        }
    }

    /// The text that the reply is sent with, where it is no redirect.
    pub fn message(&self) -> (message: Option<String>)
        ensures
            match message {
                Some(text) => message_of(self@) == Some(text@),
                None => message_of(self@) is None,
            },
    {
        match self {
            LoginReply::Redirect { .. } => None,
            LoginReply::StoreFailed => Some(String::from_str("Login state store failed")),
        }
    }
}

/// The outcome of the action that was asked for last.
#[derive(Debug, Clone, Copy, PartialEq, Eq, Structural)]
pub enum LoginEvent {
    Stored,
    StoreFailed,
}

/// What the surrounding program is asked to do next.
#[derive(Debug, Clone, PartialEq, Eq)]
pub enum LoginAction {
    /// Add a row that holds `token` to the store of login states.
    Store { token: String },
    /// Answer the request.
    Respond(LoginReply),
}

/// What a [`LoginAction`] denotes.
pub enum LoginActionView {
    Store { token: Seq<char> },
    Respond(LoginReplyView),
}

impl View for LoginAction {
    type V = LoginActionView;

    open spec fn view(&self) -> LoginActionView {
        match self {
            LoginAction::Store { token } => LoginActionView::Store { token: token@ },
            LoginAction::Respond(reply) => LoginActionView::Respond(reply@),
        }
    }
}

/// What an action denotes, where there is one.
pub open spec fn action_view(action: Option<LoginAction>) -> Option<LoginActionView> {
    match action {
        Some(a) => Some(a@),
        None => None,
    }
}

/// How far a login request has come.
#[derive(Debug, Clone, PartialEq, Eq)]
pub enum LoginFlow {
    /// The store is asked to keep `token`.
    Storing { token: String },
    /// The response is out.
    Finished,
}

/// What a [`LoginFlow`] denotes.
pub enum LoginFlowView {
    Storing { token: Seq<char> },
    Finished,
}

impl View for LoginFlow {
    type V = LoginFlowView;

    open spec fn view(&self) -> LoginFlowView {
        match self {
            LoginFlow::Storing { token } => LoginFlowView::Storing { token: token@ },
            LoginFlow::Finished => LoginFlowView::Finished,
        }
    }
}

/// The flow after `event`, and the action that `event` calls for. Once the response
/// is out, an event changes nothing and calls for nothing.
pub open spec fn login_step(flow: LoginFlowView, event: LoginEvent) -> (LoginFlowView, Option<
    LoginActionView,
>) {
    match flow {
        LoginFlowView::Storing { token } => (
            LoginFlowView::Finished,
            Some(
                LoginActionView::Respond(
                    match event {
                        LoginEvent::Stored => LoginReplyView::Redirect {
                            location: authorization_url_of(token),
                        },
                        LoginEvent::StoreFailed => LoginReplyView::StoreFailed,
                    },
                ),
            ),
        ),
        LoginFlowView::Finished => (flow, None),
    }
}

impl LoginFlow {
    /// Takes a login request in, with a fresh login state, and asks for the state to
    /// be stored.
    pub fn begin() -> (started: (LoginFlow, LoginAction))
        ensures
            started.0@ matches LoginFlowView::Storing { token } && is_state_token(token)
                && started.1@ == (LoginActionView::Store { token }),
    {
        LoginFlow::begin_with(new_state_token())
    }

    /// Takes a login request in, with `token` for its login state.
    pub fn begin_with(token: String) -> (started: (LoginFlow, LoginAction))
        ensures
            started.0@ == (LoginFlowView::Storing { token: token@ }),
            started.1@ == (LoginActionView::Store { token: token@ }),
    {
        let stored = token.clone();
        (LoginFlow::Storing { token }, LoginAction::Store { token: stored })
    }

    /// Takes the outcome of the last action and gives the next one, or nothing once
    /// the response is out.
    pub fn step(self, event: LoginEvent) -> (next: (LoginFlow, Option<LoginAction>))
        ensures
            (next.0@, action_view(next.1)) == login_step(self@, event),
    {
        match self {
            LoginFlow::Storing { token } => {
                let reply = match event {
                    LoginEvent::Stored => LoginReply::Redirect {
                        location: authorization_url(token.as_str()),
                    },
                    LoginEvent::StoreFailed => LoginReply::StoreFailed,
                };
                (LoginFlow::Finished, Some(LoginAction::Respond(reply)))
            },
            LoginFlow::Finished => (LoginFlow::Finished, None),
        }
    }
}

} // verus!
