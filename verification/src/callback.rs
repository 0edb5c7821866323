//! The authorization callback: the login state is consumed first, and only a state
//! that existed lets the authorization code be exchanged.
//!
//! A [`CallbackFlow`] works as a line-count flow does: each step takes the outcome of
//! the action that was asked for last and gives the next action, and an event that
//! does not answer the outstanding action is ignored.

use crate::exchange::{
    exchange_url_of, form_of, parse_form, AccessTokenBundle, OAuthClient, OAuthClientView,
};
use actix_web::http::StatusCode;
use vstd::prelude::*;
use vstd::string::*;

verus! {

/// Why a callback failed inside the service.
#[derive(Debug, Clone, Copy, PartialEq, Eq, Structural)]
pub enum CallbackFailure {
    /// The store of login states could not be asked.
    StoreFailed,
    /// The hosting platform gave no answer, or none that could be read to its end.
    PlatformUnreachable,
    /// The hosting platform's answer holds a piece that is no `key=value` pair.
    MalformedReply,
}

/// What a callback is answered with.
#[derive(Debug, Clone, PartialEq, Eq)]
pub enum CallbackReply {
    /// The bundle that the hosting platform granted, as it came.
    Granted(AccessTokenBundle),
    /// The state was not among the login states.
    InvalidState,
    /// The hosting platform answered the exchange with this status, which is not 200.
    RejectedStatus(u16),
    /// The hosting platform answered the exchange with this `error`.
    Rejected(String),
    Failed(CallbackFailure),
}

/// What a [`CallbackReply`] denotes.
pub enum CallbackReplyView {
    Granted(Map<Seq<char>, Seq<char>>),
    InvalidState,
    RejectedStatus(u16),
    Rejected(Seq<char>),
    Failed(CallbackFailure),
}

impl View for CallbackReply {
    type V = CallbackReplyView;

    open spec fn view(&self) -> CallbackReplyView {
        match self {
            CallbackReply::Granted(bundle) => CallbackReplyView::Granted(bundle@),
            CallbackReply::InvalidState => CallbackReplyView::InvalidState,
            CallbackReply::RejectedStatus(status) => CallbackReplyView::RejectedStatus(*status),
            CallbackReply::Rejected(error) => CallbackReplyView::Rejected(error@),
            CallbackReply::Failed(failure) => CallbackReplyView::Failed(*failure),
        }
    }
}

/// The HTTP status that goes with a reply.
pub open spec fn status_of(reply: CallbackReplyView) -> u16 {
    match reply {
        CallbackReplyView::Granted(_) => 200,
        CallbackReplyView::InvalidState => 400,
        CallbackReplyView::RejectedStatus(_) => 400,
        CallbackReplyView::Rejected(_) => 400,
        CallbackReplyView::Failed(_) => 500,
    }
}

/// The line that `actix_web`'s `StatusCode` writes for a status from 100 to 999: its
/// number and its reason phrase.
pub uninterp spec fn status_line_of(status: u16) -> Seq<char>;

/// A status in words: its line where it is from 100 to 999, and else the words that
/// say that it is none.
pub open spec fn status_text_of(status: u16) -> Seq<char> {
    if 100 <= status < 1000 {
        status_line_of(status)
    } else {
        "invalid status code"@
    }
}

/// What `StatusCode::from_u16` gives for `status`, as `Display` writes it. From 100
/// to 999 that is a `StatusCode`, whose text is the number, a space and the reason
/// phrase from the crate's table: it is named, not spelled out. Any other number is
/// refused with an error whose text is `invalid status code`. This is taken from the
/// source of `StatusCode` and is not proved here.
#[verifier::external_body]
fn status_text(status: u16) -> (text: String)
    ensures
        100 <= status < 1000 ==> text@ == status_line_of(status),
        !(100 <= status < 1000) ==> text@ == "invalid status code"@,
{
    match StatusCode::from_u16(status) {
        Ok(code) => code.to_string(),
        Err(error) => error.to_string(),
    }
}

/// The text that goes with a reply; a bundle goes without one. A rejection carries
/// what the hosting platform said: its status in words, or its `error`.
pub open spec fn message_of(reply: CallbackReplyView) -> Option<Seq<char>> {
    match reply {
        CallbackReplyView::Granted(_) => None,
        CallbackReplyView::InvalidState => Some("Invalid State"@),
        CallbackReplyView::RejectedStatus(status) => Some(status_text_of(status)),
        CallbackReplyView::Rejected(error) => Some(error),
        CallbackReplyView::Failed(failure) => Some(
            match failure {
                CallbackFailure::StoreFailed => "Login state store failed"@,
                CallbackFailure::PlatformUnreachable => "Hosting platform unreachable"@,
                CallbackFailure::MalformedReply => "Invalid response from github"@,
            },
        ),
    }
}

impl CallbackReply {
    /// The HTTP status that the reply is sent with.
    pub fn status(&self) -> (status: u16)
        ensures
            status == status_of(self@),
    {
        match self {
            CallbackReply::Granted(_) => 200,
            CallbackReply::InvalidState => 400,
            CallbackReply::RejectedStatus(_) => 400,
            CallbackReply::Rejected(_) => 400,
            CallbackReply::Failed(_) => 500,
        }
    }

    /// The text that the reply is sent with, where it carries no bundle.
    pub fn message(&self) -> (message: Option<String>)
        ensures
            match message {
                Some(text) => message_of(self@) == Some(text@),
                None => message_of(self@) is None,
            },
    {
        match self {
            CallbackReply::Granted(_) => None,
            CallbackReply::InvalidState => Some(String::from_str("Invalid State")),
            CallbackReply::RejectedStatus(status) => Some(status_text(*status)),
            CallbackReply::Rejected(error) => Some(error.clone()),
            CallbackReply::Failed(failure) => Some(
                match failure {
                    CallbackFailure::StoreFailed => String::from_str("Login state store failed"),
                    CallbackFailure::PlatformUnreachable => String::from_str(
                        "Hosting platform unreachable",
                    ),
                    CallbackFailure::MalformedReply => String::from_str(
                        "Invalid response from github",
                    ),
                },
            ),
        }
    }
}

/// The reply that the body of the hosting platform's answer leads to. A body that
/// cannot be read as a form is a failure. A form with an `error` is a rejection with
/// that error. Any other form is the bundle that was granted.
pub open spec fn reply_of_body(body: Seq<char>) -> CallbackReplyView {
    match form_of(body) {
        None => CallbackReplyView::Failed(CallbackFailure::MalformedReply),
        Some(form) => if form.contains_key("error"@) {
            CallbackReplyView::Rejected(form["error"@])
        } else {
            CallbackReplyView::Granted(form)
        },
    }
}

/// The reply that the hosting platform's answer to an exchange leads to: a status
/// other than 200 is a rejection with that status, whatever the body holds.
pub open spec fn reply_of(status: u16, body: Seq<char>) -> CallbackReplyView {
    if status != 200 {
        CallbackReplyView::RejectedStatus(status)
    } else {
        reply_of_body(body)
    }
}

/// Reads the body of the hosting platform's answer to an exchange.
pub fn read_body(body: &str) -> (reply: CallbackReply)
    ensures
        reply@ == reply_of_body(body@),
{
    match parse_form(body) {
        None => CallbackReply::Failed(CallbackFailure::MalformedReply),
        Some(bundle) => match bundle.get("error") {
            Some(error) => CallbackReply::Rejected(error),
            None => CallbackReply::Granted(bundle),
        },
    }
}

/// Reads the hosting platform's answer to an exchange, the status first.
pub fn read_exchange(status: u16, body: &str) -> (reply: CallbackReply)
    ensures
        reply@ == reply_of(status, body@),
{
    if status != 200 {
        CallbackReply::RejectedStatus(status)
    } else {
        read_body(body)
    }
}

/// The outcome of the action that was asked for last.
#[derive(Debug, Clone, PartialEq, Eq)]
pub enum CallbackEvent {
    /// The store was asked to consume the state: whether a row held it and was deleted.
    StateConsumed(bool),
    StoreFailed,
    /// The hosting platform answered the exchange with this HTTP status.
    ExchangeAnswered { status: u16 },
    ExchangeFailed,
    /// The body of the hosting platform's answer.
    BodyRead { body: String },
    BodyUnreadable,
}

/// What a [`CallbackEvent`] denotes.
pub enum CallbackEventView {
    StateConsumed(bool),
    StoreFailed,
    ExchangeAnswered { status: u16 },
    ExchangeFailed,
    BodyRead { body: Seq<char> },
    BodyUnreadable,
}

impl View for CallbackEvent {
    type V = CallbackEventView;

    open spec fn view(&self) -> CallbackEventView {
        match self {
            CallbackEvent::StateConsumed(existed) => CallbackEventView::StateConsumed(*existed),
            CallbackEvent::StoreFailed => CallbackEventView::StoreFailed,
            CallbackEvent::ExchangeAnswered { status } => CallbackEventView::ExchangeAnswered {
                status: *status,
            },
            CallbackEvent::ExchangeFailed => CallbackEventView::ExchangeFailed,
            CallbackEvent::BodyRead { body } => CallbackEventView::BodyRead { body: body@ },
            CallbackEvent::BodyUnreadable => CallbackEventView::BodyUnreadable,
        }
    }
}

/// What the surrounding program is asked to do next.
#[derive(Debug, Clone, PartialEq, Eq)]
pub enum CallbackAction {
    /// Delete the rows of the store that hold `token`, in one indivisible step.
    Consume { token: String },
    /// Post to `url`.
    Exchange { url: String },
    /// Read the body of the answer to the exchange.
    ReadBody,
    /// Answer the request.
    Respond(CallbackReply),
}

/// What a [`CallbackAction`] denotes.
pub enum CallbackActionView {
    Consume { token: Seq<char> },
    Exchange { url: Seq<char> },
    ReadBody,
    Respond(CallbackReplyView),
}

impl View for CallbackAction {
    type V = CallbackActionView;

    open spec fn view(&self) -> CallbackActionView {
        match self {
            CallbackAction::Consume { token } => CallbackActionView::Consume { token: token@ },
            CallbackAction::Exchange { url } => CallbackActionView::Exchange { url: url@ },
            CallbackAction::ReadBody => CallbackActionView::ReadBody,
            CallbackAction::Respond(reply) => CallbackActionView::Respond(reply@),
        }
    }
}

/// What an action denotes, where there is one.
pub open spec fn action_view(action: Option<CallbackAction>) -> Option<CallbackActionView> {
    match action {
        Some(a) => Some(a@),
        None => None,
    }
}

/// How far a callback has come.
#[derive(Debug, Clone, Copy, PartialEq, Eq, Structural)]
pub enum CallbackStage {
    /// The store is asked to consume the state.
    Consuming,
    /// The state existed; the code is with the hosting platform.
    Exchanging,
    /// The hosting platform answered with status 200; its body is being read.
    Reading,
    /// The response is out.
    Finished,
}

/// One callback on its way.
#[derive(Debug, Clone, PartialEq, Eq)]
pub struct CallbackFlow {
    pub client: OAuthClient,
    pub code: String,
    pub stage: CallbackStage,
}

/// What a [`CallbackFlow`] denotes.
pub struct CallbackFlowView {
    pub client: OAuthClientView,
    pub code: Seq<char>,
    pub stage: CallbackStage,
}

impl View for CallbackFlow {
    type V = CallbackFlowView;

    open spec fn view(&self) -> CallbackFlowView {
        CallbackFlowView { client: self.client@, code: self.code@, stage: self.stage }
    }
}

/// The flow at `stage`, all else as in `flow`.
pub open spec fn at_stage(flow: CallbackFlowView, stage: CallbackStage) -> CallbackFlowView {
    CallbackFlowView { client: flow.client, code: flow.code, stage }
}

/// The flow finished, with the response that ends it.
pub open spec fn finish(flow: CallbackFlowView, reply: CallbackReplyView) -> (
    CallbackFlowView,
    Option<CallbackActionView>,
) {
    (at_stage(flow, CallbackStage::Finished), Some(CallbackActionView::Respond(reply)))
}

/// The flow after `event`, and the action that `event` calls for. An event that does
/// not answer the outstanding action changes nothing and calls for nothing.
pub open spec fn callback_step(flow: CallbackFlowView, event: CallbackEventView) -> (
    CallbackFlowView,
    Option<CallbackActionView>,
) {
    match (flow.stage, event) {
        (CallbackStage::Consuming, CallbackEventView::StateConsumed(existed)) => if existed {
            (
                at_stage(flow, CallbackStage::Exchanging),
                Some(CallbackActionView::Exchange { url: exchange_url_of(flow.client, flow.code) }),
            )
        } else {
            finish(flow, CallbackReplyView::InvalidState)
        },
        (CallbackStage::Consuming, CallbackEventView::StoreFailed) => finish(
            flow,
            CallbackReplyView::Failed(CallbackFailure::StoreFailed),
        ),
        (CallbackStage::Exchanging, CallbackEventView::ExchangeAnswered { status }) => if status
            == 200 {
            (at_stage(flow, CallbackStage::Reading), Some(CallbackActionView::ReadBody))
        } else {
            finish(flow, CallbackReplyView::RejectedStatus(status))
        },
        (CallbackStage::Exchanging, CallbackEventView::ExchangeFailed) => finish(
            flow,
            CallbackReplyView::Failed(CallbackFailure::PlatformUnreachable),
        ),
        (CallbackStage::Reading, CallbackEventView::BodyRead { body }) => finish(
            flow,
            reply_of_body(body),
        ),
        (CallbackStage::Reading, CallbackEventView::BodyUnreadable) => finish(
            flow,
            CallbackReplyView::Failed(CallbackFailure::PlatformUnreachable),
        ),
        _ => (flow, None),
    }
}

/// The flow of a callback that has just come in.
pub open spec fn callback_start(client: OAuthClientView, code: Seq<char>) -> CallbackFlowView {
    CallbackFlowView { client, code, stage: CallbackStage::Consuming }
}

impl CallbackFlow {
    /// Takes a callback in and asks for its state to be consumed. Nothing else is
    /// asked for before that is answered.
    pub fn begin(client: OAuthClient, code: String, state: String) -> (started: (
        CallbackFlow,
        CallbackAction,
    ))
        ensures
            started.0@ == callback_start(client@, code@),
            started.1@ == (CallbackActionView::Consume { token: state@ }),
    {
        (
            CallbackFlow { client, code, stage: CallbackStage::Consuming },
            CallbackAction::Consume { token: state },
        )
    }

    fn finish(self, reply: CallbackReply) -> (next: (CallbackFlow, Option<CallbackAction>))
        ensures
            (next.0@, action_view(next.1)) == finish(self@, reply@),
    {
        (
            CallbackFlow { client: self.client, code: self.code, stage: CallbackStage::Finished },
            Some(CallbackAction::Respond(reply)),
        )
    }

    /// Takes the outcome of the last action and gives the next one, or nothing where
    /// `event` does not answer the outstanding action.
    pub fn step(self, event: CallbackEvent) -> (next: (CallbackFlow, Option<CallbackAction>))
        ensures
            (next.0@, action_view(next.1)) == callback_step(self@, event@),
    {
        match (self.stage, event) {
            (CallbackStage::Consuming, CallbackEvent::StateConsumed(existed)) => {
                if existed {
                    let url = self.client.exchange_url(self.code.as_str());
                    (
                        CallbackFlow {
                            client: self.client,
                            code: self.code,
                            stage: CallbackStage::Exchanging,
                        },
                        Some(CallbackAction::Exchange { url }),
                    )
                } else {
                    self.finish(CallbackReply::InvalidState)
                }
            },
            (CallbackStage::Consuming, CallbackEvent::StoreFailed) => self.finish(
                CallbackReply::Failed(CallbackFailure::StoreFailed),
            ),
            (CallbackStage::Exchanging, CallbackEvent::ExchangeAnswered { status }) => {
                if status == 200 {
                    (
                        CallbackFlow {
                            client: self.client,
                            code: self.code,
                            stage: CallbackStage::Reading,
                        },
                        Some(CallbackAction::ReadBody),
                    )
                } else {
                    self.finish(CallbackReply::RejectedStatus(status))
                }
            },
            (CallbackStage::Exchanging, CallbackEvent::ExchangeFailed) => self.finish(
                CallbackReply::Failed(CallbackFailure::PlatformUnreachable),
            ),
            (CallbackStage::Reading, CallbackEvent::BodyRead { body }) => {
                let reply = read_body(body.as_str());
                self.finish(reply)
            },
            (CallbackStage::Reading, CallbackEvent::BodyUnreadable) => self.finish(
                CallbackReply::Failed(CallbackFailure::PlatformUnreachable),
            ),
            _ => (self, None),
        }
    }
}

} // verus!
