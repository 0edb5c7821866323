//! The authorization gate: what is asked of the hosting platform before a repository
//! is fetched, how its answer is classified, and which credential the fetch may use.

use crate::repository::{metadata_url_of, RepositoryIdentity, RepositoryIdentityView};
use crate::text::{split, split_on};
use actix_web::http::header::HeaderValue;
use vstd::prelude::*;
use vstd::string::*;

verus! {

/// How the hosting platform answered the metadata query.
#[derive(Debug, Clone, Copy, PartialEq, Eq, Structural)]
pub enum MetadataReply {
    /// The platform answered with this HTTP status.
    Status(u16),
    /// No answer was obtained.
    Unreachable,
}

/// What the authorization of a request came to.
#[derive(Debug, Clone, Copy, PartialEq, Eq, Structural)]
pub enum Outcome {
    Allowed,
    NotFound,
    Unauthenticated,
    Forbidden,
    Transient,
}

/// Status 404 is `NotFound`, 401 `Unauthenticated`, 403 `Forbidden`; every other
/// status lets the request proceed. A query without an answer is `Transient`.
pub open spec fn outcome_of(reply: MetadataReply) -> Outcome {
    match reply {
        MetadataReply::Unreachable => Outcome::Transient,
        MetadataReply::Status(status) => if status == 404 {
            Outcome::NotFound
        } else if status == 401 {
            Outcome::Unauthenticated
        } else if status == 403 {
            Outcome::Forbidden
        } else {
            Outcome::Allowed
        },
    }
}

/// Classifies the hosting platform's answer to the metadata query.
pub fn classify(reply: MetadataReply) -> (outcome: Outcome)
    ensures
        outcome == outcome_of(reply),
{
    match reply {
        MetadataReply::Unreachable => Outcome::Transient,
        MetadataReply::Status(status) => {
            if status == 404 {
                Outcome::NotFound
            } else if status == 401 {
                Outcome::Unauthenticated
            } else if status == 403 {
                Outcome::Forbidden
            } else {
                Outcome::Allowed
            }
        },
    }
}

/// The metadata query for one repository.
#[derive(Debug, Clone, PartialEq, Eq)]
pub struct MetadataQuery {
    pub url: String,
    pub accept: String,
    pub api_version: String,
    pub user_agent: String,
    /// The caller's `Authorization` header value, passed on byte for byte.
    pub authorization: Option<Vec<u8>>,
}

/// What a [`MetadataQuery`] denotes.
pub struct MetadataQueryView {
    pub url: Seq<char>,
    pub accept: Seq<char>,
    pub api_version: Seq<char>,
    pub user_agent: Seq<char>,
    pub authorization: Option<Seq<u8>>,
}

impl View for MetadataQuery {
    type V = MetadataQueryView;

    open spec fn view(&self) -> MetadataQueryView {
        MetadataQueryView {
            url: self.url@,
            accept: self.accept@,
            api_version: self.api_version@,
            user_agent: self.user_agent@,
            authorization: bytes_view(self.authorization),
        }
    }
}

/// The bytes of a header value, where there is one.
pub open spec fn bytes_view(raw: Option<Vec<u8>>) -> Option<Seq<u8>> {
    match raw {
        Some(bytes) => Some(bytes@),
        None => None,
    }
}

/// The metadata query for a repository: its address, the three fixed headers, and
/// the caller's `Authorization` header as it came.
pub open spec fn metadata_query_of(
    id: RepositoryIdentityView,
    authorization: Option<Seq<u8>>,
) -> MetadataQueryView {
    MetadataQueryView {
        url: metadata_url_of(id),
        accept: "application/vnd.github+json"@,
        api_version: "2022-11-28"@,
        user_agent: "tokeihub"@,
        authorization,
    }
}

/// Builds the metadata query for `id`.
pub fn metadata_query(id: &RepositoryIdentity, authorization: Option<Vec<u8>>) -> (query:
    MetadataQuery)
    ensures
        query@ == metadata_query_of(id@, bytes_view(authorization)),
{
    MetadataQuery {
        url: id.metadata_url(),
        accept: String::from_str("application/vnd.github+json"),
        api_version: String::from_str("2022-11-28"),
        user_agent: String::from_str("tokeihub"),
        authorization,
    }
}

/// A byte that may stand in the text of a header value: printable ASCII or a tab.
pub open spec fn is_visible_ascii(b: u8) -> bool {
    32 <= b < 127 || b == 9
}

/// Every byte is printable ASCII or a tab.
pub open spec fn all_visible_ascii(raw: Seq<u8>) -> bool {
    forall|i: int| 0 <= i < raw.len() ==> is_visible_ascii(#[trigger] raw[i])
}

/// Each byte read as the character with that code.
pub open spec fn ascii_text(raw: Seq<u8>) -> Seq<char> {
    Seq::new(raw.len(), |i: int| raw[i] as char)
}

/// The text of a header value, as `actix_web` reads it: builds a `HeaderValue` with
/// `HeaderValue::from_bytes` and reads it with `HeaderValue::to_str`. `from_bytes`
/// refuses control bytes other than a tab, `to_str` refuses every byte that is
/// neither printable ASCII nor a tab, so the text is there exactly when all bytes are
/// of that kind, and it then holds the same bytes as characters. This is taken from
/// the source of the two functions and is not proved here.
#[verifier::external_body]
fn header_text(raw: &[u8]) -> (text: Option<String>)
    ensures
        text is Some <==> all_visible_ascii(raw@),
        text matches Some(t) ==> t@ == ascii_text(raw@),
{
    match HeaderValue::from_bytes(raw) {
        Ok(value) => match value.to_str() {
            Ok(text) => Some(text.to_owned()),
            Err(_) => None,
        },
        Err(_) => None,
    }
}

/// The second of the pieces that single spaces cut a header text into.
pub open spec fn bearer_token_of(text: Seq<char>) -> Option<Seq<char>> {
    let pieces = split_on(text, ' ');
    if pieces.len() >= 2 {
        Some(pieces[1])
    } else {
        None
    }
}

/// Takes the token out of the text of an `Authorization` header.
pub fn bearer_token(text: &str) -> (token: Option<String>)
    ensures
        match token {
            Some(t) => bearer_token_of(text@) == Some(t@),
            None => bearer_token_of(text@) is None,
        },
{
    let mut pieces = split(text, ' ');
    if pieces.len() >= 2 {
        let token = pieces.swap_remove(1);
        Some(token)
    } else {
        None
    }
}

/// The credential a fetch is made with.
#[derive(Debug, Clone, PartialEq, Eq)]
pub enum Credential {
    /// No `Authorization` header came with the request.
    Anonymous,
    /// The token that the header carried.
    Bearer(String),
    /// The header holds a byte that is no text.
    Malformed,
    /// The header holds no token after its scheme.
    Missing,
}

/// What a [`Credential`] denotes.
pub enum CredentialView {
    Anonymous,
    Bearer(Seq<char>),
    Malformed,
    Missing,
}

impl View for Credential {
    type V = CredentialView;

    open spec fn view(&self) -> CredentialView {
        match self {
            Credential::Anonymous => CredentialView::Anonymous,
            Credential::Bearer(token) => CredentialView::Bearer(token@),
            Credential::Malformed => CredentialView::Malformed,
            Credential::Missing => CredentialView::Missing,
        }
    }
}

/// The credential that an `Authorization` header gives: none without a header; none
/// that can be used where the header is no text or holds no token; else the token.
pub open spec fn credential_of(authorization: Option<Seq<u8>>) -> CredentialView {
    match authorization {
        None => CredentialView::Anonymous,
        Some(raw) => if !all_visible_ascii(raw) {
            CredentialView::Malformed
        } else {
            match bearer_token_of(ascii_text(raw)) {
                Some(token) => CredentialView::Bearer(token),
                None => CredentialView::Missing,
            }
        },
    }
}

/// Reads the credential for a fetch out of the caller's `Authorization` header.
pub fn credential(authorization: &Option<Vec<u8>>) -> (found: Credential)
    ensures
        found@ == credential_of(bytes_view(*authorization)),
{
    match authorization {
        None => Credential::Anonymous,
        Some(raw) => match header_text(raw.as_slice()) {
            None => Credential::Malformed,
            Some(text) => match bearer_token(text.as_str()) {
                Some(token) => Credential::Bearer(token),
                None => Credential::Missing,
            },
        },
    }
}

} // verus!
