//! Authentication and authorization of requests.
//!
//! Two stages, applied in this order on privileged routes. The first reads
//! the `Authorization` header, verifies the bearer token in it and attaches
//! the identity to the request. The second lets the request through only
//! if the attached identity is an administrator's. Each stage either hands
//! the request to what it wraps, once, or answers with an error itself.

use vstd::prelude::*;
use crate::auth::jwt::{
    issued, lemma_issued_token_verifies, token_verdict, verify_token, TOKEN_LIFETIME_SECS,
};
use crate::auth::{AuthPayload, AuthPayloadView};
use crate::error::{AppError, AppErrorView, TokenError};
use crate::text::{opt_text, starts_with, strip_prefix};

verus! {

/// What the stages read of a request in flight, and what they add to it.
#[derive(Debug, Clone, PartialEq, Eq)]
pub struct RequestContext {
    /// The value of the `Authorization` header, if the request has one.
    pub authorization: Option<String>,
    /// The identity attached by authentication. It lives as long as the
    /// request does.
    pub identity: Option<AuthPayload>,
}

/// The answer to a request without an `Authorization` header.
pub open spec fn missing_credentials() -> AppErrorView {
    AppErrorView::AuthenticationError("Missing Authorization header"@)
}

/// The answer to a header that does not begin with the bearer scheme.
pub open spec fn malformed_credentials() -> AppErrorView {
    AppErrorView::AuthenticationError("Invalid token format"@)
}

/// The answer to a bearer token that does not verify, whatever the reason.
pub open spec fn invalid_credentials() -> AppErrorView {
    AppErrorView::AuthenticationError("Invalid token"@)
}

/// The answer to a caller who is no administrator.
pub open spec fn insufficient_privilege() -> AppErrorView {
    AppErrorView::AuthorizationError("Admin privileges required"@)
}

/// What authenticating a request comes to, given the value of its
/// `Authorization` header: the identity asserted by the bearer token, or
/// the error the client is answered with.
///
/// Every way a token can fail gives the same error: the client does not
/// learn whether the token was malformed, forged, expired or named no
/// account.
pub open spec fn authentication_outcome(
    authorization: Option<Seq<char>>,
    secret: Seq<char>,
    now: usize,
) -> Result<AuthPayloadView, AppErrorView> {
    match authorization {
        None => Err(missing_credentials()),
        Some(header) => if !starts_with(header, "Bearer "@) {
            Err(malformed_credentials())
        } else {
            match token_verdict(header.skip("Bearer "@.len() as int), secret, now) {
                Ok(identity) => Ok(identity),
                Err(_) => Err(invalid_credentials()),
            }
        },
    }
}

/// What authorizing a request comes to, given the identity attached to it:
/// only an administrator passes.
pub open spec fn authorization_outcome(identity: Option<AuthPayloadView>) -> Result<(), AppErrorView> {
    match identity {
        Some(identity) if identity.is_admin => Ok(()),
        _ => Err(insufficient_privilege()),
    }
}

/// The mathematical value of the identity a request carries.
pub open spec fn identity_view(identity: Option<AuthPayload>) -> Option<AuthPayloadView> {
    match identity {
        Some(identity) => Some(identity@),
        None => None,
    }
}

/// `after` is `before` with `identity` attached and nothing else changed.
pub open spec fn attached(before: RequestContext, identity: AuthPayloadView, after: RequestContext) -> bool {
    opt_text(after.authorization) == opt_text(before.authorization) && identity_view(
        after.identity,
    ) == Some(identity)
}

/// Authenticates a request from the value of its `Authorization` header.
pub fn authenticate(authorization: Option<&str>, secret: &str, now: usize) -> (outcome: Result<
    AuthPayload,
    AppError,
>)
    ensures
        match authentication_outcome(
            match authorization {
                Some(header) => Some(header@),
                None => None,
            },
            secret@,
            now,
        ) {
            Ok(identity) => outcome matches Ok(payload) && payload@ == identity,
            Err(error) => outcome matches Err(e) && e@ == error,
        },
{
    let header = match authorization {
        Some(header) => header,
        None => {
            return Err(AppError::authentication_error("Missing Authorization header"));
        },
    };
    let token = match strip_prefix(header, "Bearer ") {
        Some(token) => token,
        None => {
            return Err(AppError::authentication_error("Invalid token format"));
        },
    };
    match verify_token(token, secret, now) {
        Ok(payload) => Ok(payload),
        Err(_) => Err(AppError::authentication_error("Invalid token")),
    }
}

/// Authorizes a request from the identity attached to it.
pub fn authorize(identity: Option<&AuthPayload>) -> (outcome: Result<(), AppError>)
    ensures
        match authorization_outcome(
            match identity {
                Some(identity) => Some(identity@),
                None => None,
            },
        ) {
            Ok(()) => outcome is Ok,
            Err(error) => outcome matches Err(e) && e@ == error,
        },
{
    match identity {
        Some(payload) => {
            if payload.is_admin {
                Ok(())
            } else {
                Err(AppError::authorization_error("Admin privileges required"))
            }
        },
        None => Err(AppError::authorization_error("Admin privileges required")),
    }
}

/// Whatever is wrong with a bearer token, the client gets one and the
/// same answer: authentication of a header with the bearer scheme either
/// succeeds or fails with the generic error.
pub proof fn lemma_token_failures_collapse(header: Seq<char>, secret: Seq<char>, now: usize)
    requires
        starts_with(header, "Bearer "@),
    ensures
        authentication_outcome(Some(header), secret, now) is Ok || authentication_outcome(
            Some(header),
            secret,
            now,
        ) == Err::<AuthPayloadView, AppErrorView>(invalid_credentials()),
{
}

/// Authentication attaches exactly the identity that the token yields:
/// it succeeds where verifying the token succeeds, with the same identity.
pub proof fn lemma_authentication_follows_the_token(
    header: Seq<char>,
    secret: Seq<char>,
    now: usize,
    identity: AuthPayloadView,
)
    requires
        starts_with(header, "Bearer "@),
    ensures
        authentication_outcome(Some(header), secret, now) == Ok::<AuthPayloadView, AppErrorView>(
            identity,
        ) <==> token_verdict(header.skip("Bearer "@.len() as int), secret, now) == Ok::<
            AuthPayloadView,
            TokenError,
        >(identity),
{
}

/// A request that carries a token issued under the same secret, and not
/// yet expired, is authenticated as the identity the token was issued for.
pub proof fn lemma_issued_token_authenticates(
    token: Seq<char>,
    payload: AuthPayloadView,
    secret: Seq<char>,
    now: usize,
    later: usize,
)
    requires
        now + TOKEN_LIFETIME_SECS <= usize::MAX,
        issued(token, payload, secret, now),
        later < now + TOKEN_LIFETIME_SECS,
    ensures
        authentication_outcome(Some("Bearer "@ + token), secret, later) == Ok::<
            AuthPayloadView,
            AppErrorView,
        >(payload),
{
    let header = "Bearer "@ + token;
    assert(header.subrange(0, "Bearer "@.len() as int) =~= "Bearer "@);
    assert(header.skip("Bearer "@.len() as int) =~= token);
    lemma_issued_token_verifies(token, payload, secret, now, later);
}

/// Authorization passes administrators and nobody else.
pub proof fn lemma_only_administrators_pass(identity: Option<AuthPayloadView>)
    ensures
        authorization_outcome(identity) is Ok <==> (identity matches Some(i) && i.is_admin),
        authorization_outcome(identity) is Err ==> authorization_outcome(identity) == Err::<
            (),
            AppErrorView,
        >(insufficient_privilege()),
{
}

/// Builds the authentication stage around a handler.
pub struct AuthMiddleware {
    /// The secret that tokens are signed under.
    pub secret: String,
}

/// The authentication stage, wrapped around `service`.
pub struct AuthMiddlewareService<S> {
    pub service: S,
    pub secret: String,
}

impl AuthMiddleware {
    /// The authentication stage for tokens signed under `secret`.
    pub fn new(secret: String) -> (middleware: AuthMiddleware)
        ensures
            middleware.secret == secret,
    {
        AuthMiddleware { secret }
    }

    /// Wraps `service` in the authentication stage.
    pub fn new_transform<S>(&self, service: S) -> (wrapped: AuthMiddlewareService<S>)
        ensures
            wrapped.service == service,
            wrapped.secret@ == self.secret@,
    {
        AuthMiddlewareService { service, secret: self.secret.clone() }
    }
}

impl<S> AuthMiddlewareService<S> {
    /// Serves one request at time `now`.
    ///
    /// Where authentication fails, the answer is its error and the wrapped
    /// service is not asked. Where it succeeds, the answer is what the
    /// wrapped service returns for the request with the identity attached.
    pub fn call<R>(&self, request: RequestContext, now: usize) -> (response: Result<R, AppError>) where
        S: Fn(RequestContext) -> Result<R, AppError>,

        requires
            forall|identity: AuthPayloadView, next: RequestContext|
                authentication_outcome(opt_text(request.authorization), self.secret@, now) == Ok::<
                    AuthPayloadView,
                    AppErrorView,
                >(identity) && attached(request, identity, next) ==> call_requires(
                    self.service,
                    (next,),
                ),
        ensures
            match authentication_outcome(opt_text(request.authorization), self.secret@, now) {
                Ok(identity) => exists|next: RequestContext|
                    attached(request, identity, next) && call_ensures(self.service, (next,), response),
                Err(error) => response matches Err(e) && e@ == error,
            },
    {
        let authenticated = match &request.authorization {
            Some(header) => authenticate(Some(header.as_str()), self.secret.as_str(), now),
            None => authenticate(None, self.secret.as_str(), now),
        };
        match authenticated {
            Ok(payload) => {
                let next = RequestContext { authorization: request.authorization, identity: Some(payload) };
                assert(attached(request, payload@, next));
                (self.service)(next)
            },
            Err(error) => Err(error),
        }
    }
}

/// Builds the authorization stage around a handler.
pub struct AdminMiddleware;

/// The authorization stage, wrapped around `service`.
pub struct AdminMiddlewareService<S> {
    pub service: S,
}

impl AdminMiddleware {
    /// Wraps `service` in the authorization stage.
    pub fn new_transform<S>(&self, service: S) -> (wrapped: AdminMiddlewareService<S>)
        ensures
            wrapped.service == service,
    {
        AdminMiddlewareService { service }
    }
}

impl<S> AdminMiddlewareService<S> {
    /// Serves one request.
    ///
    /// Where the request carries an administrator's identity, the answer is
    /// what the wrapped service returns for the unchanged request. In every
    /// other case the answer is the authorization error and the wrapped
    /// service is not asked.
    pub fn call<R>(&self, request: RequestContext) -> (response: Result<R, AppError>) where
        S: Fn(RequestContext) -> Result<R, AppError>,

        requires
            authorization_outcome(identity_view(request.identity)) is Ok ==> call_requires(
                self.service,
                (request,),
            ),
        ensures
            match authorization_outcome(identity_view(request.identity)) {
                Ok(()) => call_ensures(self.service, (request,), response),
                Err(error) => response matches Err(e) && e@ == error,
            },
    {
        let authorized = match &request.identity {
            Some(payload) => authorize(Some(payload)),
            None => authorize(None),
        };
        match authorized {
            Ok(()) => (self.service)(request),
            Err(error) => Err(error),
        }
    }
}

/// What the two stages come to, one after the other: the identity of an
/// authenticated administrator, or the error of the first stage that
/// refuses.
pub open spec fn admission_outcome(authorization: Option<Seq<char>>, secret: Seq<char>, now: usize) -> Result<
    AuthPayloadView,
    AppErrorView,
> {
    match authentication_outcome(authorization, secret, now) {
        Ok(identity) => match authorization_outcome(Some(identity)) {
            Ok(()) => Ok(identity),
            Err(error) => Err(error),
        },
        Err(error) => Err(error),
    }
}

/// Serves one request on a privileged route: authentication, then
/// authorization, then `service`.
///
/// The service is asked only for a request whose token verifies to an
/// administrator, and then the answer is the service's. A request that
/// fails authentication is answered by that stage, whatever its identity
/// would have been allowed to do.
pub fn call_privileged<S, R>(service: &S, secret: &str, request: RequestContext, now: usize) -> (response:
    Result<R, AppError>) where S: Fn(RequestContext) -> Result<R, AppError>
    requires
        forall|identity: AuthPayloadView, next: RequestContext|
            admission_outcome(opt_text(request.authorization), secret@, now) == Ok::<
                AuthPayloadView,
                AppErrorView,
            >(identity) && attached(request, identity, next) ==> call_requires(*service, (next,)),
    ensures
        match admission_outcome(opt_text(request.authorization), secret@, now) {
            Ok(identity) => exists|next: RequestContext|
                attached(request, identity, next) && call_ensures(*service, (next,), response),
            Err(error) => response matches Err(e) && e@ == error,
        },
{
    let authenticated = match &request.authorization {
        Some(header) => authenticate(Some(header.as_str()), secret, now),
        None => authenticate(None, secret, now),
    };
    let payload = match authenticated {
        Ok(payload) => payload,
        Err(error) => {
            return Err(error);
        },
    };
    match authorize(Some(&payload)) {
        Ok(()) => {
            let next = RequestContext { authorization: request.authorization, identity: Some(payload) };
            assert(attached(request, payload@, next));
            service(next)
        },
        Err(error) => Err(error),
    }
}

/// A token issued to someone who is no administrator passes authentication
/// and is stopped by authorization: the request is answered with the
/// authorization error, and not with an authentication error.
pub proof fn lemma_issued_token_of_non_administrator_is_refused(
    token: Seq<char>,
    payload: AuthPayloadView,
    secret: Seq<char>,
    now: usize,
    later: usize,
)
    requires
        now + TOKEN_LIFETIME_SECS <= usize::MAX,
        issued(token, payload, secret, now),
        later < now + TOKEN_LIFETIME_SECS,
        !payload.is_admin,
    ensures
        admission_outcome(Some("Bearer "@ + token), secret, later) == Err::<AuthPayloadView, AppErrorView>(
            insufficient_privilege(),
        ),
{
    lemma_issued_token_authenticates(token, payload, secret, now, later);
}

/// A token issued to an administrator, and not yet expired, opens a
/// privileged route.
pub proof fn lemma_issued_token_of_administrator_is_admitted(
    token: Seq<char>,
    payload: AuthPayloadView,
    secret: Seq<char>,
    now: usize,
    later: usize,
)
    requires
        now + TOKEN_LIFETIME_SECS <= usize::MAX,
        issued(token, payload, secret, now),
        later < now + TOKEN_LIFETIME_SECS,
        payload.is_admin,
    ensures
        admission_outcome(Some("Bearer "@ + token), secret, later) == Ok::<AuthPayloadView, AppErrorView>(
            payload,
        ),
{
    lemma_issued_token_authenticates(token, payload, secret, now, later);
}

} // verus!
