//! The ways in which publishing a release ends without a release.

use vstd::prelude::*;
use crate::text::{decimal, decimal_text};

verus! {

/// Why a run ended without a release. Each failure carries what a user needs
/// to see of it: the offending URL, the remote's name, the status and body of
/// the provider's answer.
#[derive(Debug, PartialEq, Eq)]
pub enum PublishError {
    /// The remote's URL has fewer than two path segments; holds the URL.
    MalformedRemoteUrl(String),
    /// The repository has no remote of this name; holds the name.
    RemoteNotConfigured(String),
    /// The exchange with the provider did not complete; holds the
    /// transport's account of it.
    NetworkError(String),
    /// The provider answered with a status of 300 or more; holds the status
    /// and the body as received.
    HttpError(u16, String),
    /// The provider reported success with a body that names no release;
    /// holds the body as received.
    ResponseParseError(String),
    /// No project manifest was found.
    ManifestNotFound,
    /// No credentials could be had.
    CredentialUnavailable,
}

/// A `PublishError` with its texts as sequences of characters.
pub enum PublishErrorView {
    MalformedRemoteUrl(Seq<char>),
    RemoteNotConfigured(Seq<char>),
    NetworkError(Seq<char>),
    HttpError(u16, Seq<char>),
    ResponseParseError(Seq<char>),
    ManifestNotFound,
    CredentialUnavailable,
}

impl View for PublishError {
    type V = PublishErrorView;

    open spec fn view(&self) -> PublishErrorView {
        match self {
            PublishError::MalformedRemoteUrl(url) => PublishErrorView::MalformedRemoteUrl(url@),
            PublishError::RemoteNotConfigured(name) => PublishErrorView::RemoteNotConfigured(name@),
            PublishError::NetworkError(cause) => PublishErrorView::NetworkError(cause@),
            PublishError::HttpError(status, body) => PublishErrorView::HttpError(*status, body@),
            PublishError::ResponseParseError(body) => PublishErrorView::ResponseParseError(body@),
            PublishError::ManifestNotFound => PublishErrorView::ManifestNotFound,
            PublishError::CredentialUnavailable => PublishErrorView::CredentialUnavailable,
        }
    }
}

/// What a user is told of an error: what went wrong, and the URL, the name,
/// the status or the body that it went wrong with, as they are.
pub open spec fn message_text(error: PublishErrorView) -> Seq<char> {
    match error {
        PublishErrorView::MalformedRemoteUrl(url) => "Remote url names no repository: "@ + url,
        PublishErrorView::RemoteNotConfigured(name) => "Remote not set: "@ + name,
        PublishErrorView::NetworkError(cause) => "Error calling github API: "@ + cause,
        PublishErrorView::HttpError(status, body) => "ERROR Status: "@ + decimal(status as nat)
            + " Response: "@ + body,
        PublishErrorView::ResponseParseError(body) => "Unable to read Github response: "@ + body,
        PublishErrorView::ManifestNotFound => "Command must be run inside a cargo project."@,
        PublishErrorView::CredentialUnavailable => "No username and password were given."@,
    }
}

impl PublishError {
    /// The error in words, for the user to read.
    pub fn message(&self) -> (r: String)
        ensures
            r@ == message_text(self@),
    {
        match self {
            PublishError::MalformedRemoteUrl(url) => {
                let mut text = String::from_str("Remote url names no repository: ");
                text.append(url.as_str());
                text
            },
            PublishError::RemoteNotConfigured(name) => {
                let mut text = String::from_str("Remote not set: ");
                text.append(name.as_str());
                text
            },
            PublishError::NetworkError(cause) => {
                let mut text = String::from_str("Error calling github API: ");
                text.append(cause.as_str());
                text
            },
            PublishError::HttpError(status, body) => {
                let mut text = String::from_str("ERROR Status: ");
                let status_text = decimal_text(*status);
                text.append(status_text.as_str());
                text.append(" Response: ");
                text.append(body.as_str());
                text
            },
            PublishError::ResponseParseError(body) => {
                let mut text = String::from_str("Unable to read Github response: ");
                text.append(body.as_str());
                text
            },
            PublishError::ManifestNotFound => String::from_str(
                "Command must be run inside a cargo project.",
            ),
            PublishError::CredentialUnavailable => String::from_str(
                "No username and password were given.",
            ),
        }
    }
}

/// A result of the library with both sides taken by their views.
pub open spec fn view_of<T: View>(r: Result<T, PublishError>) -> Result<T::V, PublishErrorView> {
    match r {
        Ok(value) => Ok(value@),
        Err(error) => Err(error@),
    }
}

} // verus!
