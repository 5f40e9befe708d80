use vstd::prelude::*;
use std::rc::Rc;
use jwks_client::keyset::KeyStore;
use jwks_client::jwt::Jwt;

verus! {

/// The key set fetched from a JWKS URL; opaque here, able to verify
/// compact-serialized signed tokens.
#[verifier::external_type_specification]
#[verifier::external_body]
pub struct ExKeyStore(KeyStore);

/// The decoded payload of a successfully verified token; opaque here, handed
/// to the policy function as the request's verified claims.
#[verifier::external_type_specification]
#[verifier::external_body]
pub struct ExJwt(Jwt);

/// The error the key-set library reports when a fetch or a verification
/// fails; opaque here, carried through as an error payload.
#[verifier::external_type_specification]
#[verifier::external_body]
pub struct ExJwksError(jwks_client::error::Error);

/// The largest value of a token's `exp` or `nbf` claim that can stand as a
/// timestamp: seconds since the epoch kept within a signed 64-bit count.
/// The bound guards the verify call's epoch-plus-claim addition on a clock
/// that counts at least a signed 64 bits of seconds; on a clock with a
/// smaller representable span the bound would have to shrink with it.
pub const MAX_TIME_CLAIM: u64 = 0x7fff_ffff_ffff_ffff;

/// Whether the token's text decodes into a token at all: the three
/// dot-separated segments parse as base64url-coded JSON.
pub uninterp spec fn spec_token_decodes(token: Seq<char>) -> bool;

/// The `exp` claim a decodable token's text carries, if any.
pub uninterp spec fn spec_exp_claim(token: Seq<char>) -> Option<u64>;

/// The `nbf` claim a decodable token's text carries, if any.
pub uninterp spec fn spec_nbf_claim(token: Seq<char>) -> Option<u64>;

/// Both time claims hold values that a timestamp can represent.
pub open spec fn spec_time_claims_representable(token: Seq<char>) -> bool {
    &&& (spec_exp_claim(token) matches Some(e) ==> e <= MAX_TIME_CLAIM)
    &&& (spec_nbf_claim(token) matches Some(x) ==> x <= MAX_TIME_CLAIM)
}

/// Relies on jwks_client::keyset::KeyStore::decode and on
/// jwks_client::jwt::Payload::exp and nbf. Decoding reads nothing but the
/// token's text (base64url and JSON parsing, never the clock or the keys),
/// and the claim reads are JSON field lookups with a saturating cast, so
/// whether the token decodes, and which time claims it then carries, are
/// functions of the token text alone, named `spec_token_decodes`,
/// `spec_exp_claim` and `spec_nbf_claim`. None of these calls can panic.
#[verifier::external_body]
pub(crate) fn time_claims(keys: &Rc<KeyStore>, token: &str) -> (r: Result<
    (Option<u64>, Option<u64>),
    jwks_client::error::Error,
>)
    ensures
        match r {
            Ok(c) => spec_token_decodes(token@) && c.0 == spec_exp_claim(token@) && c.1
                == spec_nbf_claim(token@),
            Err(_) => !spec_token_decodes(token@),
        },
{
    match keys.decode(token) {
        Ok(jwt) => Ok((jwt.payload().exp(), jwt.payload().nbf())),
        Err(e) => Err(e),
    }
}

/// Relies on jwks_client::error::Error being a plain public struct of a
/// message and a kind: builds the payload-problem error that rejects a token
/// whose time claims cannot stand as timestamps.
#[verifier::external_body]
pub(crate) fn time_claim_error() -> (e: jwks_client::error::Error) {
    jwks_client::error::Error {
        msg: "Time claim out of range",
        typ: jwks_client::error::Type::Payload,
    }
}

/// Relies on jwks_client::keyset::KeyStore::verify: decodes the token's three
/// dot-separated segments, checks the RS256 signature against the stored key
/// whose id the token's header names, and checks the exp and nbf claims
/// against the clock; the decoded token is returned exactly when all of that
/// succeeds. The outcome depends on the key set, the token and the clock, so
/// nothing more is assumed of it here. The expiry checks add the claim, in
/// seconds, to the epoch, and std documents that this addition panics when
/// the sum cannot be represented; the timestamp in use counts at least a
/// signed 64 bits of seconds, so the `requires` keeps the call from
/// panicking. A token that does not decode fails before any claim is read.
#[verifier::external_body]
pub(crate) fn verify_token(keys: &Rc<KeyStore>, token: &str) -> Result<
    Jwt,
    jwks_client::error::Error,
>
    requires
        spec_token_decodes(token@) ==> spec_time_claims_representable(token@),
{
    keys.verify(token)
}

/// Relies on alloc::rc::Rc::clone: the new handle refers to the very same
/// key set.
#[verifier::external_body]
pub(crate) fn clone_keys(keys: &Rc<KeyStore>) -> (r: Rc<KeyStore>)
    ensures
        r == *keys,
{
    Rc::clone(keys)
}

} // verus!
