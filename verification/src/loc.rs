//! The line-count request: from authorization through fetch and scan to the release
//! of the workspace and the response.
//!
//! A [`LocFlow`] holds what has been decided so far. Each step takes the outcome of
//! the action that was asked for last and gives the next action. An event that does
//! not answer the outstanding action is ignored.

use crate::gate::{
    bytes_view, credential, credential_of, classify, metadata_query, metadata_query_of,
    outcome_of, Credential, CredentialView, MetadataQuery, MetadataQueryView, MetadataReply,
    Outcome,
};
use crate::repository::{
    fetch_url_of, workspace_path_of, RepositoryIdentity, RepositoryIdentityView,
};
use crate::stats::{stats_view, LanguageStat, LanguageStatView};
use vstd::prelude::*;
use vstd::string::*;

verus! {

/// Why a line-count request failed inside the service.
#[derive(Debug, Clone, Copy, PartialEq, Eq, Structural)]
pub enum LocFailure {
    /// The hosting platform gave no answer to the metadata query.
    PlatformUnreachable,
    /// The `Authorization` header holds a byte that is no text.
    MalformedCredential,
    /// The workspace could not be had, for one because an earlier one was left behind.
    WorkspaceUnavailable,
    FetchFailed,
    ScanFailed,
}

/// What a line-count request is answered with.
#[derive(Debug, Clone, PartialEq, Eq)]
pub enum LocReply {
    Stats(Vec<LanguageStat>),
    NotFound,
    Unauthorized,
    Forbidden,
    Failed(LocFailure),
}

/// What a [`LocReply`] denotes.
pub enum LocReplyView {
    Stats(Seq<LanguageStatView>),
    NotFound,
    Unauthorized,
    Forbidden,
    Failed(LocFailure),
}

impl View for LocReply {
    type V = LocReplyView;

    open spec fn view(&self) -> LocReplyView {
        match self {
            LocReply::Stats(stats) => LocReplyView::Stats(stats_view(stats@)),
            LocReply::NotFound => LocReplyView::NotFound,
            LocReply::Unauthorized => LocReplyView::Unauthorized,
            LocReply::Forbidden => LocReplyView::Forbidden,
            LocReply::Failed(failure) => LocReplyView::Failed(*failure),
        }
    }
}

/// The HTTP status that goes with a reply.
pub open spec fn status_of(reply: LocReplyView) -> u16 {
    match reply {
        LocReplyView::Stats(_) => 200,
        LocReplyView::NotFound => 404,
        LocReplyView::Unauthorized => 401,
        LocReplyView::Forbidden => 403,
        LocReplyView::Failed(_) => 500,
    }
}

/// The text that goes with a reply; line counts go without one.
pub open spec fn message_of(reply: LocReplyView) -> Option<Seq<char>> {
    match reply {
        LocReplyView::Stats(_) => None,
        LocReplyView::NotFound => Some("Repo not found"@),
        LocReplyView::Unauthorized => Some("Unauthorized"@),
        LocReplyView::Forbidden => Some("Forbidden"@),
        LocReplyView::Failed(failure) => Some(
            match failure {
                LocFailure::PlatformUnreachable => "Hosting platform unreachable"@,
                LocFailure::MalformedCredential => "Malformed Authorization header"@,
                LocFailure::WorkspaceUnavailable => "Workspace unavailable"@,
                LocFailure::FetchFailed => "Repository fetch failed"@,
                LocFailure::ScanFailed => "Statistics scan failed"@,
            },
        ),
    }
}

impl LocReply {
    /// The HTTP status that the reply is sent with.
    pub fn status(&self) -> (status: u16)
        ensures
            status == status_of(self@),
    {
        match self {
            LocReply::Stats(_) => 200,
            LocReply::NotFound => 404,
            LocReply::Unauthorized => 401,
            LocReply::Forbidden => 403,
            LocReply::Failed(_) => 500,
        }
    }

    /// The text that the reply is sent with, where it carries no line counts.
    pub fn message(&self) -> (message: Option<String>)
        ensures
            match message {
                Some(text) => message_of(self@) == Some(text@),
                None => message_of(self@) is None,
            },
    {
        match self {
            LocReply::Stats(_) => None,
            LocReply::NotFound => Some(String::from_str("Repo not found")),
            LocReply::Unauthorized => Some(String::from_str("Unauthorized")),
            LocReply::Forbidden => Some(String::from_str("Forbidden")),
            LocReply::Failed(failure) => Some(
                match failure {
                    LocFailure::PlatformUnreachable => String::from_str(
                        "Hosting platform unreachable",
                    ),
                    LocFailure::MalformedCredential => String::from_str(
                        "Malformed Authorization header",
                    ),
                    LocFailure::WorkspaceUnavailable => String::from_str("Workspace unavailable"),
                    LocFailure::FetchFailed => String::from_str("Repository fetch failed"),
                    LocFailure::ScanFailed => String::from_str("Statistics scan failed"),
                },
            ),
        }
    }
}

/// The answer to a line-count request. A release that failed is reported beside the
/// reply and never in its place.
#[derive(Debug, Clone, PartialEq, Eq)]
pub struct LocResponse {
    pub reply: LocReply,
    pub cleanup_failed: bool,
}

/// What a [`LocResponse`] denotes.
pub struct LocResponseView {
    pub reply: LocReplyView,
    pub cleanup_failed: bool,
}

impl View for LocResponse {
    type V = LocResponseView;

    open spec fn view(&self) -> LocResponseView {
        LocResponseView { reply: self.reply@, cleanup_failed: self.cleanup_failed }
    }
}

/// The outcome of the action that was asked for last.
#[derive(Debug, Clone, PartialEq, Eq)]
pub enum LocEvent {
    Metadata(MetadataReply),
    WorkspaceReady,
    WorkspaceUnavailable,
    FetchSucceeded,
    FetchFailed,
    ScanSucceeded(Vec<LanguageStat>),
    ScanFailed,
    ReleaseSucceeded,
    ReleaseFailed,
}

/// What a [`LocEvent`] denotes.
pub enum LocEventView {
    Metadata(MetadataReply),
    WorkspaceReady,
    WorkspaceUnavailable,
    FetchSucceeded,
    FetchFailed,
    ScanSucceeded(Seq<LanguageStatView>),
    ScanFailed,
    ReleaseSucceeded,
    ReleaseFailed,
}

impl View for LocEvent {
    type V = LocEventView;

    open spec fn view(&self) -> LocEventView {
        match self {
            LocEvent::Metadata(reply) => LocEventView::Metadata(*reply),
            LocEvent::WorkspaceReady => LocEventView::WorkspaceReady,
            LocEvent::WorkspaceUnavailable => LocEventView::WorkspaceUnavailable,
            LocEvent::FetchSucceeded => LocEventView::FetchSucceeded,
            LocEvent::FetchFailed => LocEventView::FetchFailed,
            LocEvent::ScanSucceeded(stats) => LocEventView::ScanSucceeded(stats_view(stats@)),
            LocEvent::ScanFailed => LocEventView::ScanFailed,
            LocEvent::ReleaseSucceeded => LocEventView::ReleaseSucceeded,
            LocEvent::ReleaseFailed => LocEventView::ReleaseFailed,
        }
    }
}

/// What the surrounding program is asked to do next.
#[derive(Debug, Clone, PartialEq, Eq)]
pub enum LocAction {
    /// Ask the hosting platform for the repository's metadata.
    Query(MetadataQuery),
    /// Set up the workspace at `path`; a path that exists already is unavailable.
    Acquire { path: String },
    /// Materialize the repository at `url` in the workspace at `path`.
    Fetch { url: String, path: String },
    /// Count the lines under `path`.
    Scan { path: String },
    /// Delete the workspace at `path` with all it holds.
    Release { path: String },
    /// Answer the request.
    Respond(LocResponse),
}

/// What a [`LocAction`] denotes.
pub enum LocActionView {
    Query(MetadataQueryView),
    Acquire { path: Seq<char> },
    Fetch { url: Seq<char>, path: Seq<char> },
    Scan { path: Seq<char> },
    Release { path: Seq<char> },
    Respond(LocResponseView),
}

impl View for LocAction {
    type V = LocActionView;

    open spec fn view(&self) -> LocActionView {
        match self {
            LocAction::Query(query) => LocActionView::Query(query@),
            LocAction::Acquire { path } => LocActionView::Acquire { path: path@ },
            LocAction::Fetch { url, path } => LocActionView::Fetch { url: url@, path: path@ },
            LocAction::Scan { path } => LocActionView::Scan { path: path@ },
            LocAction::Release { path } => LocActionView::Release { path: path@ },
            LocAction::Respond(response) => LocActionView::Respond(response@),
        }
    }
}

/// What an action denotes, where there is one.
pub open spec fn action_view(action: Option<LocAction>) -> Option<LocActionView> {
    match action {
        Some(a) => Some(a@),
        None => None,
    }
}

/// How far a request has come.
#[derive(Debug, Clone, PartialEq, Eq)]
pub enum LocStage {
    /// The metadata query is out.
    Authorizing,
    /// The request was let pass; the workspace is being set up.
    Acquiring { fetch_url: String },
    Fetching,
    Scanning,
    /// The workspace is being released; `reply` waits for that.
    Releasing { reply: LocReply },
    /// The response is out.
    Finished,
}

/// What a [`LocStage`] denotes.
pub enum LocStageView {
    Authorizing,
    Acquiring { fetch_url: Seq<char> },
    Fetching,
    Scanning,
    Releasing { reply: LocReplyView },
    Finished,
}

impl View for LocStage {
    type V = LocStageView;

    open spec fn view(&self) -> LocStageView {
        match self {
            LocStage::Authorizing => LocStageView::Authorizing,
            LocStage::Acquiring { fetch_url } => LocStageView::Acquiring { fetch_url: fetch_url@ },
            LocStage::Fetching => LocStageView::Fetching,
            LocStage::Scanning => LocStageView::Scanning,
            LocStage::Releasing { reply } => LocStageView::Releasing { reply: reply@ },
            LocStage::Finished => LocStageView::Finished,
        }
    }
}

/// One line-count request on its way.
#[derive(Debug, Clone, PartialEq, Eq)]
pub struct LocFlow {
    pub identity: RepositoryIdentity,
    pub authorization: Option<Vec<u8>>,
    pub stage: LocStage,
}

/// What a [`LocFlow`] denotes.
pub struct LocFlowView {
    pub identity: RepositoryIdentityView,
    pub authorization: Option<Seq<u8>>,
    pub stage: LocStageView,
}

impl View for LocFlow {
    type V = LocFlowView;

    open spec fn view(&self) -> LocFlowView {
        LocFlowView {
            identity: self.identity@,
            authorization: bytes_view(self.authorization),
            stage: self.stage@,
        }
    }
}

/// The flow at `stage`, all else as in `flow`.
pub open spec fn at_stage(flow: LocFlowView, stage: LocStageView) -> LocFlowView {
    LocFlowView { identity: flow.identity, authorization: flow.authorization, stage }
}

/// The flow finished, with the response that ends it. No release went before.
pub open spec fn finish(flow: LocFlowView, reply: LocReplyView) -> (LocFlowView, Option<
    LocActionView,
>) {
    (
        at_stage(flow, LocStageView::Finished),
        Some(LocActionView::Respond(LocResponseView { reply, cleanup_failed: false })),
    )
}

/// The flow waiting for the release of its workspace, with `reply` held back.
pub open spec fn release(flow: LocFlowView, reply: LocReplyView) -> (LocFlowView, Option<
    LocActionView,
>) {
    (
        at_stage(flow, LocStageView::Releasing { reply }),
        Some(LocActionView::Release { path: workspace_path_of(flow.identity) }),
    )
}

/// What the outcome of the authorization, on `reply`, leads to.
pub open spec fn after_gate(flow: LocFlowView, reply: MetadataReply) -> (LocFlowView, Option<
    LocActionView,
>) {
    match outcome_of(reply) {
        Outcome::NotFound => finish(flow, LocReplyView::NotFound),
        Outcome::Unauthenticated => finish(flow, LocReplyView::Unauthorized),
        Outcome::Forbidden => finish(flow, LocReplyView::Forbidden),
        Outcome::Transient => finish(flow, LocReplyView::Failed(LocFailure::PlatformUnreachable)),
        Outcome::Allowed => match credential_of(flow.authorization) {
            CredentialView::Malformed => finish(
                flow,
                LocReplyView::Failed(LocFailure::MalformedCredential),
            ),
            CredentialView::Missing => finish(flow, LocReplyView::Unauthorized),
            CredentialView::Anonymous => (
                at_stage(
                    flow,
                    LocStageView::Acquiring { fetch_url: fetch_url_of(flow.identity, None) },
                ),
                Some(LocActionView::Acquire { path: workspace_path_of(flow.identity) }),
            ),
            CredentialView::Bearer(token) => (
                at_stage(
                    flow,
                    LocStageView::Acquiring {
                        fetch_url: fetch_url_of(flow.identity, Some(token)),
                    },
                ),
                Some(LocActionView::Acquire { path: workspace_path_of(flow.identity) }),
            ),
        },
    }
}

/// The flow after `event`, and the action that `event` calls for. An event that does
/// not answer the outstanding action changes nothing and calls for nothing.
pub open spec fn loc_step(flow: LocFlowView, event: LocEventView) -> (LocFlowView, Option<
    LocActionView,
>) {
    let path = workspace_path_of(flow.identity);
    match (flow.stage, event) {
        (LocStageView::Authorizing, LocEventView::Metadata(reply)) => after_gate(flow, reply),
        (LocStageView::Acquiring { fetch_url }, LocEventView::WorkspaceReady) => (
            at_stage(flow, LocStageView::Fetching),
            Some(LocActionView::Fetch { url: fetch_url, path }),
        ),
        (LocStageView::Acquiring { .. }, LocEventView::WorkspaceUnavailable) => finish(
            flow,
            LocReplyView::Failed(LocFailure::WorkspaceUnavailable),
        ),
        (LocStageView::Fetching, LocEventView::FetchSucceeded) => (
            at_stage(flow, LocStageView::Scanning),
            Some(LocActionView::Scan { path }),
        ),
        (LocStageView::Fetching, LocEventView::FetchFailed) => release(
            flow,
            LocReplyView::Failed(LocFailure::FetchFailed),
        ),
        (LocStageView::Scanning, LocEventView::ScanSucceeded(stats)) => release(
            flow,
            LocReplyView::Stats(stats),
        ),
        (LocStageView::Scanning, LocEventView::ScanFailed) => release(
            flow,
            LocReplyView::Failed(LocFailure::ScanFailed),
        ),
        (LocStageView::Releasing { reply }, LocEventView::ReleaseSucceeded) => (
            at_stage(flow, LocStageView::Finished),
            Some(LocActionView::Respond(LocResponseView { reply, cleanup_failed: false })),
        ),
        (LocStageView::Releasing { reply }, LocEventView::ReleaseFailed) => (
            at_stage(flow, LocStageView::Finished),
            Some(LocActionView::Respond(LocResponseView { reply, cleanup_failed: true })),
        ),
        _ => (flow, None),
    }
}

/// The flow of a request that has just come in.
pub open spec fn loc_start(
    identity: RepositoryIdentityView,
    authorization: Option<Seq<u8>>,
) -> LocFlowView {
    LocFlowView { identity, authorization, stage: LocStageView::Authorizing }
}

impl LocFlow {
    /// Takes a request in and asks for the metadata query that its authorization
    /// rests on.
    pub fn begin(identity: RepositoryIdentity, authorization: Option<Vec<u8>>) -> (started: (
        LocFlow,
        LocAction,
    ))
        ensures
            started.0@ == loc_start(identity@, bytes_view(authorization)),
            started.1@ == LocActionView::Query(
                metadata_query_of(identity@, bytes_view(authorization)),
            ),
    {
        let forwarded = match &authorization {
            Some(raw) => Some(raw.clone()),
            None => None,
        };
        let query = metadata_query(&identity, forwarded);
        (LocFlow { identity, authorization, stage: LocStage::Authorizing }, LocAction::Query(query))
    }

    fn finish(self, reply: LocReply) -> (next: (LocFlow, Option<LocAction>))
        ensures
            (next.0@, action_view(next.1)) == finish(self@, reply@),
    {
        (
            LocFlow {
                identity: self.identity,
                authorization: self.authorization,
                stage: LocStage::Finished,
            },
            Some(LocAction::Respond(LocResponse { reply, cleanup_failed: false })),
        )
    }

    fn release(self, reply: LocReply) -> (next: (LocFlow, Option<LocAction>))
        ensures
            (next.0@, action_view(next.1)) == release(self@, reply@),
    {
        let path = self.identity.workspace_path();
        (
            LocFlow {
                identity: self.identity,
                authorization: self.authorization,
                stage: LocStage::Releasing { reply },
            },
            Some(LocAction::Release { path }),
        )
    }

    fn after_gate(self, reply: MetadataReply) -> (next: (LocFlow, Option<LocAction>))
        ensures
            (next.0@, action_view(next.1)) == after_gate(self@, reply),
    {
        match classify(reply) {
            Outcome::NotFound => self.finish(LocReply::NotFound),
            Outcome::Unauthenticated => self.finish(LocReply::Unauthorized),
            Outcome::Forbidden => self.finish(LocReply::Forbidden),
            Outcome::Transient => self.finish(LocReply::Failed(LocFailure::PlatformUnreachable)),
            Outcome::Allowed => match credential(&self.authorization) {
                Credential::Malformed => self.finish(
                    LocReply::Failed(LocFailure::MalformedCredential),
                ),
                Credential::Missing => self.finish(LocReply::Unauthorized),
                Credential::Anonymous => {
                    let fetch_url = self.identity.fetch_url(None);
                    let path = self.identity.workspace_path();
                    (
                        LocFlow {
                            identity: self.identity,
                            authorization: self.authorization,
                            stage: LocStage::Acquiring { fetch_url },
                        },
                        Some(LocAction::Acquire { path }),
                    )
                },
                Credential::Bearer(token) => {
                    let fetch_url = self.identity.fetch_url(Some(token.as_str()));
                    let path = self.identity.workspace_path();
                    (
                        LocFlow {
                            identity: self.identity,
                            authorization: self.authorization,
                            stage: LocStage::Acquiring { fetch_url },
                        },
                        Some(LocAction::Acquire { path }),
                    )
                },
            },
        }
    }

    /// Takes the outcome of the last action and gives the next one, or nothing where
    /// `event` does not answer the outstanding action.
    pub fn step(self, event: LocEvent) -> (next: (LocFlow, Option<LocAction>))
        ensures
            (next.0@, action_view(next.1)) == loc_step(self@, event@),
    {
        let LocFlow { identity, authorization, stage } = self;
        match (stage, event) {
            (LocStage::Authorizing, LocEvent::Metadata(reply)) => {
                let flow = LocFlow { identity, authorization, stage: LocStage::Authorizing };
                flow.after_gate(reply)
            },
            (LocStage::Acquiring { fetch_url }, LocEvent::WorkspaceReady) => {
                let path = identity.workspace_path();
                (
                    LocFlow { identity, authorization, stage: LocStage::Fetching },
                    Some(LocAction::Fetch { url: fetch_url, path }),
                )
            },
            (LocStage::Acquiring { fetch_url }, LocEvent::WorkspaceUnavailable) => {
                let flow = LocFlow { identity, authorization, stage: LocStage::Acquiring { fetch_url } };
                flow.finish(LocReply::Failed(LocFailure::WorkspaceUnavailable))
            },
            (LocStage::Fetching, LocEvent::FetchSucceeded) => {
                let path = identity.workspace_path();
                (
                    LocFlow { identity, authorization, stage: LocStage::Scanning },
                    Some(LocAction::Scan { path }),
                )
            },
            (LocStage::Fetching, LocEvent::FetchFailed) => {
                let flow = LocFlow { identity, authorization, stage: LocStage::Fetching };
                flow.release(LocReply::Failed(LocFailure::FetchFailed))
            },
            (LocStage::Scanning, LocEvent::ScanSucceeded(stats)) => {
                let flow = LocFlow { identity, authorization, stage: LocStage::Scanning };
                flow.release(LocReply::Stats(stats))
            },
            (LocStage::Scanning, LocEvent::ScanFailed) => {
                let flow = LocFlow { identity, authorization, stage: LocStage::Scanning };
                flow.release(LocReply::Failed(LocFailure::ScanFailed))
            },
            (LocStage::Releasing { reply }, LocEvent::ReleaseSucceeded) => (
                LocFlow { identity, authorization, stage: LocStage::Finished },
                Some(LocAction::Respond(LocResponse { reply, cleanup_failed: false })),
            ),
            (LocStage::Releasing { reply }, LocEvent::ReleaseFailed) => (
                LocFlow { identity, authorization, stage: LocStage::Finished },
                Some(LocAction::Respond(LocResponse { reply, cleanup_failed: true })),
            ),
            (stage, _) => (LocFlow { identity, authorization, stage }, None),
        }
    }
}

} // verus!
