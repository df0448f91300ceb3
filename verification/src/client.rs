//! A client of the service's blog methods, signed with a credential.
//!
//! The client prepares requests; sending them is the caller's part.

use crate::auth::Authentication;
use vstd::prelude::*;
use vstd::string::StringExecFns;

verus! {

/// A request that is signed with a bearer token.
#[derive(Debug, Clone, PartialEq, Eq)]
pub struct SignedRequest {
    pub url: String,
    pub bearer_token: String,
}

/// Why a request could not be prepared.
#[derive(Debug, Clone, Copy, PartialEq, Eq, Structural)]
pub enum ClientError {
    /// The client holds no credential.
    NoToken,
}

impl ClientError {
    /// A short description for a log line.
    pub fn message(&self) -> (text: &'static str)
        ensures
            text@ == "no token"@,
    {
        "no token"
    }
}

/// The address of a blog's description.
pub open spec fn info_url(blog: Seq<char>) -> Seq<char> {
    "https://api.tumblr.com/v2/blog/"@ + blog + "/info"@
}

/// A client that signs its requests with the credential it holds.
#[derive(Debug)]
pub struct TumblrClient<A: Authentication> {
    token: Option<A>,
}

impl<A: Authentication> TumblrClient<A> {
    /// The credential that the client holds.
    pub closed spec fn credential(&self) -> Option<A> {
        self.token
    }

    /// A client that signs with `token`.
    pub fn new(token: A) -> (client: Self)
        ensures
            client.credential() == Some(token),
    {
        Self { token: Some(token) }
    }

    /// A client that holds no credential, and so can sign nothing.
    pub fn unauthenticated() -> (client: Self)
        ensures
            client.credential() is None,
    {
        Self { token: None }
    }

    /// Prepares the request for the description of `blog`: its address,
    /// and the bearer token of the client's credential. Without a
    /// credential there is no request.
    pub fn info(&self, blog: &str) -> (request: Result<SignedRequest, ClientError>)
        ensures
            match request {
                Ok(signed) => self.credential() is Some && signed.url@ == info_url(blog@)
                    && signed.bearer_token@ == self.credential().unwrap().bearer(),
                Err(error) => self.credential() is None && error == ClientError::NoToken,
            },
    {
        match &self.token {
            Some(token) => {
                let mut url = "https://api.tumblr.com/v2/blog/".to_owned();
                url.append(blog);
                url.append("/info");
                Ok(SignedRequest { url, bearer_token: token.bearer_token().clone() })
            },
            None => Err(ClientError::NoToken),
        }
    }
}

} // verus!
