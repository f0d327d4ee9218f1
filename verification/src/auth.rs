//! The authenticated request interceptor. Every inbound call moves through
//! the states RECEIVED, CREDENTIAL_EXTRACTED and then VERIFIED or REJECTED:
//! the authorization header must be exactly two whitespace-separated tokens
//! (scheme and credential); anything else is rejected before the authority
//! is ever consulted. Only an affirmative answer from the authority lets the
//! request through; a missing answer (the authority was unreachable) and a
//! negative answer reject alike.

use std::sync::Arc;
use vstd::prelude::*;
use crate::error::{Error, ErrorType};
use crate::text::{eq_str, ws_token_list, ws_tokens};

verus! {

/// What the remote authority answered for one credential: the affirmative
/// flag and its accompanying message.
pub struct VerificationResult {
    pub authenticated: bool,
    pub message: String,
}

/// An authority that can be asked whether a credential is valid. The remote
/// authority lives behind the network; this interface is what a
/// deterministic stand-in implements so the interceptor can be exercised
/// without one.
pub trait AuthService: Send + Sync {
    /// Which credentials this authority accepts.
    spec fn token_accepted(&self, token: Seq<char>) -> bool;

    /// Checks one credential; `Ok` exactly on acceptance.
    fn verify_token(&self, token: &str) -> (r: Result<(), String>)
        ensures
            r is Ok <==> self.token_accepted(token@),
    ;
}

/// Holds the address of the remote authority that answers verification
/// calls. Opening the connection and exchanging the request is the
/// surrounding program's job; the answer comes back to the library as a
/// `VerificationResult` (or nothing, when the authority was unreachable)
/// and is judged by `interpret_verification`.
#[derive(Clone)]
pub struct AuthServiceImpl {
    pub auth_url: String,
}

impl AuthServiceImpl {
    pub fn new(auth_url: String) -> (r: Self)
        ensures
            r.auth_url == auth_url,
    {
        Self { auth_url }
    }
}

/// Judges the authority's answer: only an explicit affirmative flag
/// verifies; a negative answer carries the authority's message back, and no
/// answer at all (connection or call failure) rejects with a fixed message.
pub fn interpret_verification(outcome: Option<VerificationResult>) -> (r: Result<(), String>)
    ensures
        r is Ok <==> (outcome matches Some(v) && v.authenticated),
        outcome matches Some(v) ==> !v.authenticated ==> (r matches Err(m) && m == v.message),
        outcome is None ==> (r matches Err(m) && m@ == "could not reach the authority"@),
{
    match outcome {
        Some(v) => {
            if v.authenticated {
                Ok(())
            } else {
                Err(v.message)
            }
        },
        None => Err(String::from_str("could not reach the authority")),
    }
}

/// The credential of a well-formed authorization header: the second of
/// exactly two whitespace-separated tokens. Headers of any other shape
/// carry no credential.
pub open spec fn spec_credential_of(header: Option<Seq<char>>) -> Option<Seq<char>> {
    match header {
        Some(h) => if ws_tokens(h).len() == 2 {
            Some(ws_tokens(h)[1])
        } else {
            None
        },
        None => None,
    }
}

/// Extracts the credential from an authorization header, without consulting
/// anything else: `None` demands immediate rejection.
pub fn extract_credential(authorization: Option<&String>) -> (r: Option<String>)
    ensures
        r.deep_view() == spec_credential_of(
            match authorization {
                Some(h) => Some(h@),
                None => None,
            },
        ),
{
    match authorization {
        Some(h) => {
            let mut tokens = ws_token_list(h.as_str());
            if tokens.len() == 2 {
                let t = tokens.pop().unwrap();
                assert(t@ == ws_tokens(h@)[1]);
                Some(t)
            } else {
                None
            }
        },
        None => None,
    }
}

/// A header with zero or at least three whitespace-separated tokens carries
/// no credential, so the interceptor rejects it without ever invoking the
/// authority.
pub proof fn lemma_malformed_header_rejected(h: Seq<char>)
    requires
        ws_tokens(h).len() != 2,
    ensures
        spec_credential_of(Some(h)) is None,
{
}

/// The middleware that guards the service: it extracts the credential from
/// the authorization header and lets the request pass only when the
/// authority accepts that credential.
#[derive(Clone)]
pub struct AuthInterceptor<A: AuthService> {
    pub auth_service: Arc<A>,
}

impl<A: AuthService> AuthInterceptor<A> {
    /// Decides one inbound request from its authorization header. The
    /// request passes exactly when the header is two whitespace-separated
    /// tokens whose second one the authority accepts; every rejection looks
    /// the same to the caller, whatever its underlying cause.
    pub fn intercept(&self, authorization: Option<&String>) -> (r: Result<(), Error>)
        ensures
            r is Ok <==> (authorization matches Some(h) && ws_tokens(h@).len() == 2
                && self.auth_service.token_accepted(ws_tokens(h@)[1])),
            r matches Err(e) ==> (e.error_type == ErrorType::GrpcError && e.message@
                == "Unauthenticated"@),
    {
        match extract_credential(authorization) {
            Some(token) => {
                match self.auth_service.verify_token(token.as_str()) {
                    Ok(()) => Ok(()),
                    Err(_) => Err(
                        Error::new(ErrorType::GrpcError, String::from_str("Unauthenticated")),
                    ),
                }
            },
            None => Err(Error::new(ErrorType::GrpcError, String::from_str("Unauthenticated"))),
        }
    }
}

/// A deterministic authority that accepts exactly one credential: the
/// substitute that lets the interceptor run without a remote authority.
pub struct StaticAuthService {
    pub accepted_token: String,
}

impl AuthService for StaticAuthService {
    open spec fn token_accepted(&self, token: Seq<char>) -> bool {
        token == self.accepted_token@
    }

    fn verify_token(&self, token: &str) -> (r: Result<(), String>) {
        if eq_str(token, self.accepted_token.as_str()) {
            Ok(())
        } else {
            Err(String::from_str("Unauthenticated"))
        }
    }
}

} // verus!
