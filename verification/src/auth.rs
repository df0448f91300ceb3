//! The credential that requests are signed with, and the reading of the
//! authorization server's answers.
//!
//! The handshake itself is the caller's business. What is decided here is
//! what a granted token holds, and whether a redirect back from the
//! authorization page is the one that was asked for.

use crate::tumblr::scope::{scope_of_name, Scope};
use std::time::Duration;
use vstd::prelude::*;

verus! {

/// A credential that can sign requests.
pub trait Authentication {
    /// The bearer token's text.
    spec fn bearer(&self) -> Seq<char>;

    /// The refresh token's text, where there is one.
    spec fn refresh(&self) -> Option<Seq<char>>;

    /// The bearer token, as it goes into the `Authorization` header.
    fn bearer_token(&self) -> (token: &String)
        ensures
            token@ == self.bearer(),
    ;

    /// The token with which a new bearer token can be had, if one was
    /// granted.
    fn refresh_token(&self) -> (token: Option<&String>)
        ensures
            match token {
                Some(text) => self.refresh() == Some(text@),
                None => self.refresh() is None,
            },
    ;
}

/// What the authorization server granted, as plain values: the tokens'
/// texts, the lifetime, and the names of the scopes, where it listed any.
#[derive(Debug, Clone, PartialEq, Eq)]
pub struct TokenGrant {
    pub access_token: String,
    pub refresh_token: Option<String>,
    pub expires_in: Option<Duration>,
    pub scopes: Option<Vec<String>>,
}

/// Why a grant gives no token.
#[derive(Debug, Clone, Copy, PartialEq, Eq, Structural)]
pub enum TokenError {
    /// The grant lists no scopes.
    MissingScopes,
    /// The grant lists a scope that is not known.
    InvalidScope,
}

impl TokenError {
    /// A short description for a log line.
    pub fn message(&self) -> (text: &'static str)
        ensures
            text@ == match *self {
                TokenError::MissingScopes => "Missing Scopes"@,
                TokenError::InvalidScope => "not a valid scope!"@,
            },
    {
        match self {
            TokenError::MissingScopes => "Missing Scopes",
            TokenError::InvalidScope => "not a valid scope!",
        }
    }
}

/// A granted credential.
#[derive(Debug, Clone)]
pub struct Token {
    bearer_token: String,
    refresh_token: Option<String>,
    expires_in: Option<Duration>,
    scopes: Vec<Scope>,
}

/// What a token holds.
pub struct TokenView {
    pub bearer: Seq<char>,
    pub refresh: Option<Seq<char>>,
    pub expires_in: Option<Duration>,
    pub scopes: Seq<Scope>,
}

impl View for Token {
    type V = TokenView;

    closed spec fn view(&self) -> TokenView {
        TokenView {
            bearer: self.bearer_token@,
            refresh: match self.refresh_token {
                Some(text) => Some(text@),
                None => None,
            },
            expires_in: self.expires_in,
            scopes: self.scopes@,
        }
    }
}

/// Whether the first `n` names are all names of scopes.
pub open spec fn all_known(names: Seq<String>, n: int) -> bool {
    forall|i: int| 0 <= i < n ==> scope_of_name(#[trigger] names[i]@) is Some
}

/// The scopes that a list of names stands for, where every name is known.
pub open spec fn scopes_of(names: Seq<String>) -> Seq<Scope> {
    Seq::new(names.len(), |i: int| scope_of_name(names[i]@).unwrap())
}

/// What a grant gives: a token with the granted texts and scopes, or the
/// reason why it gives none.
pub open spec fn token_of(grant: TokenGrant) -> Result<TokenView, TokenError> {
    match grant.scopes {
        None => Err(TokenError::MissingScopes),
        Some(names) => if all_known(names@, names@.len() as int) {
            Ok(
                TokenView {
                    bearer: grant.access_token@,
                    refresh: match grant.refresh_token {
                        Some(text) => Some(text@),
                        None => None,
                    },
                    expires_in: grant.expires_in,
                    scopes: scopes_of(names@),
                },
            )
        } else {
            Err(TokenError::InvalidScope)
        },
    }
}

impl Token {
    /// Makes a token of a grant. A grant without a list of scopes is
    /// refused, and so is one that names an unknown scope. Otherwise the
    /// token holds the grant's texts and lifetime, and its scopes in the
    /// order in which the grant names them.
    pub fn try_from(value: TokenGrant) -> (made: Result<Token, TokenError>)
        ensures
            match made {
                Ok(token) => token_of(value) == Ok::<TokenView, TokenError>(token@),
                Err(error) => token_of(value) == Err::<TokenView, TokenError>(error),
            },
    {
        let TokenGrant { access_token, refresh_token, expires_in, scopes } = value;
        let names = match scopes {
            Some(names) => names,
            None => {
                return Err(TokenError::MissingScopes);
            },
        };
        let mut parsed: Vec<Scope> = Vec::new();
        let mut i: usize = 0;
        while i < names.len()
            invariant
                value.scopes == Some(names),
                i <= names@.len(),
                all_known(names@, i as int),
                parsed@ == scopes_of(names@.take(i as int)),
            decreases names@.len() - i,
        {
            match Scope::from_str(names[i].as_str()) {
                Ok(scope) => {
                    parsed.push(scope);
                },
                Err(_) => {
                    return Err(TokenError::InvalidScope);
                },
            }
            i += 1;
        }
        assert(names@.take(i as int) =~= names@);
        Ok(Token { bearer_token: access_token, refresh_token, expires_in, scopes: parsed })
    }

    /// How long the bearer token lasts, where the grant said so.
    pub fn expires_in(&self) -> (lifetime: Option<Duration>)
        ensures
            lifetime == self@.expires_in,
    {
        self.expires_in
    }

    /// The scopes that the token carries.
    pub fn scopes(&self) -> (scopes: &Vec<Scope>)
        ensures
            scopes@ == self@.scopes,
    {
        &self.scopes
    }
}

impl Authentication for Token {
    open spec fn bearer(&self) -> Seq<char> {
        self@.bearer
    }

    open spec fn refresh(&self) -> Option<Seq<char>> {
        self@.refresh
    }

    fn bearer_token(&self) -> (token: &String) {
        &self.bearer_token
    }

    fn refresh_token(&self) -> (token: Option<&String>) {
        self.refresh_token.as_ref()
    }
}

} // verus!
