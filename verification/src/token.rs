use vstd::prelude::*;
use vstd::string::StrSliceExecFns;

verus! {

/// The bearer scheme prefix that an `Authorization` header value must carry,
/// as a sequence of characters.
pub open spec fn spec_bearer_prefix() -> Seq<char> {
    "Bearer "@
}

/// The token carried by one `Authorization` header value: the remainder after
/// the bearer scheme prefix, or nothing when the value does not start with
/// that prefix (case-sensitive, exactly one space).
pub open spec fn spec_bearer_token(h: Seq<char>) -> Option<Seq<char>> {
    if h.len() >= 7 && h.subrange(0, 7) == spec_bearer_prefix() {
        Some(h.subrange(7, h.len() as int))
    } else {
        None
    }
}

/// The token carried by an optional `Authorization` header: a missing header
/// carries no token, a present one carries whatever remains after the bearer
/// scheme prefix.
pub open spec fn spec_header_token(auth: Option<Seq<char>>) -> Option<Seq<char>> {
    match auth {
        Some(h) => spec_bearer_token(h),
        None => None,
    }
}

/// A request without an `Authorization` header resolves to no token, so
/// nothing is ever verified for it.
pub proof fn lemma_no_header_no_token()
    ensures
        spec_header_token(None) is None,
{
}

/// A header value that does not carry the bearer scheme is treated exactly
/// like a missing header: both resolve to no token at all.
pub proof fn lemma_malformed_like_missing(h: Seq<char>)
    requires
        spec_bearer_token(h) is None,
    ensures
        spec_header_token(Some(h)) == spec_header_token(None),
{
}

/// Strips the bearer scheme prefix from one `Authorization` header value,
/// returning the bare token, or nothing when the value is not bearer-shaped.
pub fn strip_bearer<'a>(value: &'a str) -> (r: Option<&'a str>)
    ensures
        match r {
            Some(t) => spec_bearer_token(value@) == Some(t@),
            None => spec_bearer_token(value@) is None,
        },
{
    proof {
        reveal_strlit("Bearer ");
    }
    let n = value.unicode_len();
    if n < 7 {
        return None;
    }
    let matches_prefix = value.get_char(0) == 'B' && value.get_char(1) == 'e'
        && value.get_char(2) == 'a' && value.get_char(3) == 'r' && value.get_char(4) == 'e'
        && value.get_char(5) == 'r' && value.get_char(6) == ' ';
    proof {
        assert(value@.subrange(0, 7).len() == 7);
        assert(forall|i: int| 0 <= i < 7 ==> value@.subrange(0, 7)[i] == value@[i]);
    }
    if matches_prefix {
        proof {
            assert(value@.subrange(0, 7) =~= spec_bearer_prefix());
        }
        let rest = value.substring_char(7, n);
        Some(rest)
    } else {
        proof {
            assert(value@.subrange(0, 7) != spec_bearer_prefix());
        }
        None
    }
}

} // verus!
