//! Reading the provider's answer: from a status and a body to a release, a
//! refusal, or a body that cannot be read.

use vstd::prelude::*;
use crate::error::{view_of, PublishError, PublishErrorView};
use crate::release::{release_response_in, response_view, ReleaseResponse, ReleaseResponseView};

verus! {

/// How a completed exchange ended.
#[derive(Debug, PartialEq, Eq)]
pub enum HttpOutcome {
    /// The release exists; its page is at `html_url`.
    Success { html_url: String },
    /// The provider refused; status and body are as received.
    Failure { status_code: u16, body: String },
}

/// An `HttpOutcome` with its texts as sequences of characters.
pub enum HttpOutcomeView {
    Success { html_url: Seq<char> },
    Failure { status_code: u16, body: Seq<char> },
}

impl View for HttpOutcome {
    type V = HttpOutcomeView;

    open spec fn view(&self) -> HttpOutcomeView {
        match self {
            HttpOutcome::Success { html_url } => HttpOutcomeView::Success { html_url: html_url@ },
            HttpOutcome::Failure { status_code, body } => HttpOutcomeView::Failure {
                status_code: *status_code,
                body: body@,
            },
        }
    }
}

/// The first status that is a refusal: the provider reports success below
/// it.
pub const MULTIPLE_CHOICES: u16 = 300;

/// How an exchange ended, given the release that its body describes.
///
/// A status of 300 or more is a refusal, passed on with the body untouched.
/// Below that the provider reports success: the release's page is the
/// outcome, and a body without a release is an error of its own.
pub open spec fn outcome(
    status_code: u16,
    body: Seq<char>,
    response: Option<ReleaseResponseView>,
) -> Result<HttpOutcomeView, PublishErrorView> {
    if status_code >= MULTIPLE_CHOICES {
        Ok(HttpOutcomeView::Failure { status_code, body })
    } else {
        match response {
            Some(found) => Ok(HttpOutcomeView::Success { html_url: found.html_url }),
            None => Err(PublishErrorView::ResponseParseError(body)),
        }
    }
}

/// What an outcome means for the run: the page of the release, or the
/// provider's refusal as an error.
pub open spec fn terminal(outcome: HttpOutcomeView) -> Result<Seq<char>, PublishErrorView> {
    match outcome {
        HttpOutcomeView::Success { html_url } => Ok(html_url),
        HttpOutcomeView::Failure { status_code, body } => Err(
            PublishErrorView::HttpError(status_code, body),
        ),
    }
}

impl HttpOutcome {
    /// The page of the release, or the refusal as `HttpError`.
    pub fn into_result(self) -> (r: Result<String, PublishError>)
        ensures
            view_of(r) == terminal(self@),
    {
        match self {
            HttpOutcome::Success { html_url } => Ok(html_url),
            HttpOutcome::Failure { status_code, body } => Err(
                PublishError::HttpError(status_code, body),
            ),
        }
    }
}

/// How an exchange ended, given what was read out of its body.
///
/// With a status of 300 or more the result is `Failure` with that status and
/// that body, whatever `response` holds. Below 300 it is `Success` with the
/// page of the release, or `ResponseParseError` with the body where no
/// release was read.
pub fn classify(status_code: u16, body: String, response: Option<ReleaseResponse>) -> (r: Result<
    HttpOutcome,
    PublishError,
>)
    ensures
        view_of(r) == outcome(status_code, body@, response_view(response)),
{
    if status_code >= MULTIPLE_CHOICES {
        Ok(HttpOutcome::Failure { status_code, body })
    } else {
        match response {
            Some(found) => Ok(HttpOutcome::Success { html_url: found.html_url }),
            None => Err(PublishError::ResponseParseError(body)),
        }
    }
}

/// Interprets the status and the body of a completed exchange. The body is
/// read only where the status is below 300.
pub fn interpret_response(status_code: u16, body: String) -> (r: Result<HttpOutcome, PublishError>)
    ensures
        view_of(r) == outcome(status_code, body@, release_response_in(body@)),
{
    let response = if status_code < MULTIPLE_CHOICES {
        ReleaseResponse::from_json(body.as_str())
    } else {
        None
    };
    classify(status_code, body, response)
}

/// What came back from the provider, unread.
#[derive(Debug, PartialEq, Eq)]
pub struct RawResponse {
    pub status_code: u16,
    pub body: String,
}

/// An exchange with its texts as sequences of characters.
pub open spec fn exchange_view(exchange: Result<RawResponse, String>) -> Result<
    (u16, Seq<char>),
    Seq<char>,
> {
    match exchange {
        Ok(raw) => Ok((raw.status_code, raw.body@)),
        Err(cause) => Err(cause@),
    }
}

/// How the run ends, given what the transport brought back: the status and
/// body of a completed exchange, or its account of why none completed.
pub open spec fn conclusion(exchange: Result<(u16, Seq<char>), Seq<char>>) -> Result<
    Seq<char>,
    PublishErrorView,
> {
    match exchange {
        Ok((status_code, body)) => match outcome(status_code, body, release_response_in(body)) {
            Ok(ended) => terminal(ended),
            Err(error) => Err(error),
        },
        Err(cause) => Err(PublishErrorView::NetworkError(cause)),
    }
}

/// Ends the run: the page of the release that was created, or the one error
/// that stopped it. An exchange that did not complete is a `NetworkError`; a
/// refusal is an `HttpError` with status and body; a success that names no
/// release is a `ResponseParseError`.
pub fn conclude(exchange: Result<RawResponse, String>) -> (r: Result<String, PublishError>)
    ensures
        view_of(r) == conclusion(exchange_view(exchange)),
{
    match exchange {
        Ok(raw) => match interpret_response(raw.status_code, raw.body) {
            Ok(ended) => ended.into_result(),
            Err(error) => Err(error),
        },
        Err(cause) => Err(PublishError::NetworkError(cause)),
    }
}

} // verus!
