use vstd::prelude::*;
use std::rc::Rc;
use jwks_client::keyset::KeyStore;
use jwks_client::jwt::Jwt;
use crate::error::JwtAuthError;
use crate::keys::clone_keys;
use crate::keys::spec_time_claims_representable;
use crate::keys::spec_token_decodes;
use crate::keys::time_claim_error;
use crate::keys::time_claims;
use crate::keys::verify_token;
use crate::keys::MAX_TIME_CLAIM;
use crate::token::spec_header_token;
use crate::token::strip_bearer;

verus! {

/// What the middleware reads of a request and hands to the policy function.
pub struct RequestInfo {
    pub method: String,
    pub path: String,
}

/// The view of an optional `Authorization` header value.
pub open spec fn spec_opt_header(auth: Option<&str>) -> Option<Seq<char>> {
    match auth {
        Some(h) => Some(h@),
        None => None,
    }
}

/// The reference policy: allow exactly when the request carried a token that
/// verified. Claim contents are deliberately ignored.
#[allow(non_snake_case)]
pub fn CheckJwtValid(_req: &RequestInfo, jwt: &Option<Jwt>) -> (r: bool)
    ensures
        r == (jwt is Some),
{
    match jwt {
        None => false,
        Some(_) => true,
    }
}

/// Maps the result of looking up the key-source URL in the environment: an
/// absent variable means no keystore was configured and the middleware cannot be
/// built.
pub fn key_source_from_env(lookup: Option<String>) -> (r: Result<String, JwtAuthError>)
    ensures
        match r {
            Ok(url) => lookup == Some(url),
            Err(e) => lookup is None && e is NoKeystoreSpecified,
        },
{
    match lookup {
        Some(url) => Ok(url),
        None => Err(JwtAuthError::NoKeystoreSpecified),
    }
}

/// The middleware's configuration: the key-source URL, the pluggable policy
/// function, and the key set fetched once, at construction, from that URL.
pub struct JwtAuth<V> where V: Fn(&RequestInfo, &Option<Jwt>) -> bool {
    jwks_url: String,
    validator: V,
    keys: Rc<KeyStore>,
}

/// The per-pipeline interceptor: holds the shared key set and the policy
/// function, and decides request by request whether the inner handler may
/// run.
pub struct JwtAuthService<V> where V: Fn(&RequestInfo, &Option<Jwt>) -> bool {
    jwks: Rc<KeyStore>,
    validator: V,
}

impl<V> JwtAuth<V> where V: Fn(&RequestInfo, &Option<Jwt>) -> bool {
    /// The key-source URL this middleware was configured with.
    pub closed spec fn spec_url(&self) -> Seq<char> {
        self.jwks_url@
    }

    /// The policy function this middleware was configured with.
    pub closed spec fn spec_validator(&self) -> V {
        self.validator
    }

    /// The key set fetched when this middleware was constructed.
    pub closed spec fn spec_keys(&self) -> Rc<KeyStore> {
        self.keys
    }

    /// Builds the middleware from an explicit key-source URL and the outcome of the
    /// one fetch made against that URL. Fail-fast: a failed fetch means no
    /// middleware at all, surfaced as `FailedToLoadKeystore` with the fetch's own
    /// error as the cause; a successful fetch is retained for the middleware's
    /// whole lifetime.
    pub fn new_from_url(validator: V, jwks_url: String, fetched: Result<
        KeyStore,
        jwks_client::error::Error,
    >) -> (r: Result<JwtAuth<V>, JwtAuthError>)
        ensures
            match r {
                Ok(mw) => {
                    &&& fetched matches Ok(ks) && mw.spec_keys() == ks
                    &&& mw.spec_url() == jwks_url@
                    &&& mw.spec_validator() == validator
                },
                Err(e) => fetched matches Err(cause) && e == JwtAuthError::FailedToLoadKeystore(
                    cause,
                ),
            },
    {
        match fetched {
            Ok(ks) => Ok(JwtAuth { jwks_url, validator, keys: Rc::new(ks) }),
            Err(e) => Err(JwtAuthError::FailedToLoadKeystore(e)),
        }
    }

    /// The key-source URL this middleware was configured with.
    pub fn jwks_url(&self) -> (url: &str)
        ensures
            url@ == self.spec_url(),
    {
        self.jwks_url.as_str()
    }

    /// Activates the middleware on one pipeline: produces a service that shares the
    /// key set fetched at construction and a copy of the policy function.
    /// With the key set retained from construction, activation itself cannot
    /// fail.
    pub fn make_service(&self) -> (svc: JwtAuthService<V>) where V: Copy
        ensures
            svc.spec_keys() == self.spec_keys(),
            svc.spec_validator() == self.spec_validator(),
    {
        JwtAuthService { jwks: clone_keys(&self.keys), validator: self.validator }
    }
}

impl<V> JwtAuthService<V> where V: Fn(&RequestInfo, &Option<Jwt>) -> bool {
    /// The key set this service verifies tokens against.
    pub closed spec fn spec_keys(&self) -> Rc<KeyStore> {
        self.jwks
    }

    /// The policy function this service consults.
    pub closed spec fn spec_validator(&self) -> V {
        self.validator
    }

    /// Resolves one request's token. A missing header, and a header value
    /// that does not carry the bearer scheme, resolve to no token, with no
    /// verification attempted at all. A bearer-shaped value has its token
    /// verified against the key set: success resolves to the verified claims,
    /// failure fails the whole request with `InvalidBearerAuth`. A token that
    /// does not decode, or whose `exp` or `nbf` claim no timestamp can
    /// represent, is rejected the same way before the verify call, so that
    /// verification, once begun, always runs to completion.
    pub fn resolve_token(&self, authorization: Option<&str>) -> (r: Result<
        Option<Jwt>,
        JwtAuthError,
    >)
        ensures
            match r {
                Ok(t) => t is Some <==> spec_header_token(spec_opt_header(authorization)) is Some,
                Err(e) => e matches JwtAuthError::InvalidBearerAuth(_) && spec_header_token(
                    spec_opt_header(authorization),
                ) is Some,
            },
            (spec_header_token(spec_opt_header(authorization)) matches Some(tok) && !(
            spec_token_decodes(tok) && spec_time_claims_representable(tok))) ==> r is Err,
    {
        let header = match authorization {
            Some(h) => h,
            None => {
                return Ok(None);
            },
        };
        let token = match strip_bearer(header) {
            Some(t) => t,
            None => {
                return Ok(None);
            },
        };
        let claims = match time_claims(&self.jwks, token) {
            Ok(c) => c,
            Err(e) => {
                return Err(JwtAuthError::InvalidBearerAuth(e));
            },
        };
        let exp_representable = match claims.0 {
            Some(e) => e <= MAX_TIME_CLAIM,
            None => true,
        };
        let nbf_representable = match claims.1 {
            Some(x) => x <= MAX_TIME_CLAIM,
            None => true,
        };
        if !exp_representable || !nbf_representable {
            return Err(JwtAuthError::InvalidBearerAuth(time_claim_error()));
        }
        match verify_token(&self.jwks, token) {
            Ok(jwt) => Ok(Some(jwt)),
            Err(e) => Err(JwtAuthError::InvalidBearerAuth(e)),
        }
    }

    /// Intercepts one request: resolves and verifies the token, consults the
    /// policy function exactly once with the request and the resolved token,
    /// and decides. `Ok(t)` means the policy allowed the request carrying
    /// token `t`, and only then may the caller forward the request, unchanged,
    /// to the inner handler; any `Err` short-circuits the request with that
    /// error and the inner handler must not run.
    pub fn intercept(&self, req: &RequestInfo, authorization: Option<&str>) -> (r: Result<
        Option<Jwt>,
        JwtAuthError,
    >)
        requires
            forall|t: Option<Jwt>| call_requires(self.spec_validator(), (req, &t)),
        ensures
            match r {
                Ok(t) => {
                    &&& call_ensures(self.spec_validator(), (req, &t), true)
                    &&& (t is Some <==> spec_header_token(spec_opt_header(authorization)) is Some)
                },
                Err(e) => match e {
                    JwtAuthError::InvalidBearerAuth(_) => spec_header_token(
                        spec_opt_header(authorization),
                    ) is Some,
                    JwtAuthError::Unauthorised => exists|t: Option<Jwt>|
                        {
                            &&& (t is Some <==> spec_header_token(
                                spec_opt_header(authorization),
                            ) is Some)
                            &&& call_ensures(self.spec_validator(), (req, &t), false)
                        },
                    _ => false,
                },
            },
            (spec_header_token(spec_opt_header(authorization)) matches Some(tok) && !(
            spec_token_decodes(tok) && spec_time_claims_representable(tok))) ==> r is Err,
            (forall|t: Option<Jwt>, b: bool|
                call_ensures(self.spec_validator(), (req, &t), b) ==> !b) ==> r is Err,
            (forall|t: Option<Jwt>, b: bool|
                call_ensures(self.spec_validator(), (req, &t), b) ==> b) ==> !(r matches Err(
                JwtAuthError::Unauthorised,
            )),
    {
        let token = match self.resolve_token(authorization) {
            Ok(t) => t,
            Err(e) => {
                return Err(e);
            },
        };
        proof {
            assert(call_requires(self.spec_validator(), (req, &token)));
        }
        if (self.validator)(req, &token) {
            Ok(token)
        } else {
            proof {
                assert((token is Some <==> spec_header_token(
                    spec_opt_header(authorization),
                ) is Some) && call_ensures(self.spec_validator(), (req, &token), false));
            }
            Err(JwtAuthError::Unauthorised)
        }
    }
}

} // verus!
