//! The guard for administrators: a wrapper round a service that lets a
//! request through to it only where the request's token belongs to an
//! administrator.

use crate::model::token::Token;
use crate::model::token::TokenError;
use vstd::prelude::*;

verus! {

/// Marks a scope of routes as open to administrators only. It wraps each
/// service of the scope in an `AdminAuthenticatorMiddleware`.
pub struct AdminAuthenticator;

/// A service behind the guard for administrators. The service is reached
/// through `call` alone.
pub struct AdminAuthenticatorMiddleware<S> {
    service: S,
}

/// What the guard for administrators makes of the outcome `auth` of the
/// authentication that runs before it: an error stays as it is, a token
/// without the privilege is unauthorized, and an administrator's token
/// passes.
pub open spec fn admin_only(auth: Result<Token, TokenError>) -> Result<Token, TokenError> {
    match auth {
        Err(e) => Err(e),
        Ok(token) => if token.is_admin {
            Ok(token)
        } else {
            Err(TokenError::TokenUnauthorized)
        },
    }
}

impl AdminAuthenticator {
    /// Puts `service` behind the guard.
    pub fn new_transform<S>(&self, service: S) -> (guarded: AdminAuthenticatorMiddleware<S>)
        ensures
            guarded.service() == service,
    {
        AdminAuthenticatorMiddleware { service }
    }
}

impl<S> AdminAuthenticatorMiddleware<S> {
    /// The service behind the guard.
    pub closed spec fn service(&self) -> S {
        self.service
    }

    /// Decides, without running anything, whether a request with the
    /// outcome `auth` of its authentication passes the guard.
    pub fn authorize(auth: Result<Token, TokenError>) -> (passed: Result<Token, TokenError>)
        ensures
            passed == admin_only(auth),
    {
        match auth {
            Err(e) => Err(e),
            Ok(token) => {
                if token.is_admin {
                    Ok(token)
                } else {
                    Err(TokenError::TokenUnauthorized)
                }
            },
        }
    }

    /// Runs a request through the guard. `next` stands for the rest of the
    /// request: it is handed the service and the administrator's token, and
    /// what it returns is the answer. It needs to take administrators'
    /// tokens only, since it is run on no other; a request that does not
    /// pass is answered with the guard's error, and `next` is dropped unrun.
    pub fn call<R, F: FnOnce(&S, Token) -> R>(&self, auth: Result<Token, TokenError>, next: F) -> (out:
        Result<R, TokenError>)
        requires
            auth matches Ok(token) ==> (token.is_admin ==> call_requires(
                next,
                (&self.service(), token),
            )),
        ensures
            match admin_only(auth) {
                Ok(token) => out matches Ok(answer) && call_ensures(
                    next,
                    (&self.service(), token),
                    answer,
                ),
                Err(e) => out == Err::<R, TokenError>(e),
            },
    {
        match Self::authorize(auth) {
            Ok(token) => Ok(next(&self.service, token)),
            Err(e) => Err(e),
        }
    }
}

/// The guard for administrators lets exactly the administrators through: a
/// valid token without the privilege is answered with 401, one with it
/// passes unchanged, and an error of the authentication stays what it was.
pub proof fn lemma_admin_only(auth: Result<Token, TokenError>)
    ensures
        auth matches Ok(token) ==> (token.is_admin ==> admin_only(auth) == auth),
        auth matches Ok(token) ==> (!token.is_admin ==> admin_only(auth) == Err::<
            Token,
            TokenError,
        >(TokenError::TokenUnauthorized)),
        auth is Err ==> admin_only(auth) == auth,
        TokenError::TokenUnauthorized.status() == 401,
{
}

} // verus!
