//! The credentials of a request, as the `Authorization` header carries them.

use vstd::prelude::*;
use crate::error::{view_of, PublishError, PublishErrorView};

verus! {

/// What `base64::encode` returns for a text: the bytes of the text in UTF-8,
/// in base64 with the standard alphabet and with padding.
pub uninterp spec fn base64_text(text: Seq<char>) -> Seq<char>;

/// Calls `base64::encode` on the bytes of a string slice. The result is the
/// encoding named above. The call panics only where four thirds of the
/// input's length overflow `usize`, which no string in memory reaches.
#[verifier::external_body]
fn encode_base64(text: &str) -> (r: String)
    ensures
        r@ == base64_text(text@),
{
    base64::encode(text)
}

/// A user name and a secret as they are encoded: user name, a colon, the
/// secret.
pub open spec fn credentials_text(username: Seq<char>, secret: Seq<char>) -> Seq<char> {
    username + ":"@ + secret
}

/// The value of a basic `Authorization` header for encoded credentials.
pub open spec fn basic_authorization(encoded_credentials: Seq<char>) -> Seq<char> {
    "Basic "@ + encoded_credentials
}

/// The credentials of one request, encoded. The value lives for the request
/// and offers no way to print it.
#[derive(PartialEq, Eq)]
pub struct AuthHeader {
    /// Base64 of the user name, a colon and the secret.
    pub encoded_credentials: String,
}

impl View for AuthHeader {
    type V = Seq<char>;

    open spec fn view(&self) -> Seq<char> {
        self.encoded_credentials@
    }
}

/// A user name and a secret, joined by a colon.
pub fn join_credentials(username: &str, secret: &str) -> (r: String)
    ensures
        r@ == credentials_text(username@, secret@),
{
    let mut joined = String::from_str(username);
    joined.append(":");
    joined.append(secret);
    joined
}

impl AuthHeader {
    /// Encodes a user name and a secret.
    pub fn new(username: &str, secret: &str) -> (r: AuthHeader)
        ensures
            r@ == base64_text(credentials_text(username@, secret@)),
    {
        let joined = join_credentials(username, secret);
        AuthHeader { encoded_credentials: encode_base64(joined.as_str()) }
    }

    /// The value of the `Authorization` header: `Basic`, a space, and the
    /// encoded credentials.
    pub fn header_value(&self) -> (r: String)
        ensures
            r@ == basic_authorization(self@),
    {
        let mut value = String::from_str("Basic ");
        value.append(self.encoded_credentials.as_str());
        value
    }
}

/// What the credential source leads to: the encoded credentials where it
/// gave a user name and a secret, and `CredentialUnavailable` where either
/// is missing.
pub open spec fn authorization(username: Option<Seq<char>>, secret: Option<Seq<char>>) -> Result<
    Seq<char>,
    PublishErrorView,
> {
    match (username, secret) {
        (Some(name), Some(word)) => Ok(base64_text(credentials_text(name, word))),
        _ => Err(PublishErrorView::CredentialUnavailable),
    }
}

/// Encodes what the credential source gave. A user name or a secret that it
/// could not give is `None`, and the result is then `CredentialUnavailable`.
pub fn authorize(username: Option<String>, secret: Option<String>) -> (r: Result<
    AuthHeader,
    PublishError,
>)
    ensures
        view_of(r) == authorization(username.deep_view(), secret.deep_view()),
{
    match username {
        Some(name) => match secret {
            Some(word) => Ok(AuthHeader::new(name.as_str(), word.as_str())),
            None => Err(PublishError::CredentialUnavailable),
        },
        None => Err(PublishError::CredentialUnavailable),
    }
}

} // verus!
