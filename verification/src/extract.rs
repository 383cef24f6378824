//! The authorization check made once per request: from the value of the
//! `Authorization` header to the caller's identity, in a form that rejects an
//! anonymous caller and in a form that lets one pass.

use crate::error::{fails_with, LocalErr, LocalErrKind, LocalResult, UNAUTHORIZED};
use crate::token::JwtRepository;
use vstd::prelude::*;

verus! {

/// The token of a header value of the form `Bearer <token>`: all that follows
/// the scheme and its one space. A value of any other form has none.
pub open spec fn spec_bearer_token(header: Seq<char>) -> Option<Seq<char>> {
    if header.len() >= 7 && header.subrange(0, 7) == "Bearer "@ {
        Some(header.subrange(7, header.len() as int))
    } else {
        None
    }
}

/// Strips the scheme from a header value, if it is the bearer scheme.
pub fn bearer_token(header: &str) -> (token: Option<&str>)
    ensures
        match spec_bearer_token(header@) {
            Some(t) => token is Some && token->Some_0@ == t,
            None => token is None,
        },
{
    let scheme = "Bearer ";
    proof {
        reveal_strlit("Bearer ");
    }
    let len: usize = header.unicode_len();
    if len < 7 {
        return None;
    }
    let mut i: usize = 0;
    while i < 7
        invariant
            i <= 7 <= len,
            len == header@.len(),
            scheme@ == "Bearer "@,
            scheme@.len() == 7,
            forall|j: int| 0 <= j < i ==> header@[j] == scheme@[j],
        decreases 7 - i,
    {
        if header.get_char(i) != scheme.get_char(i) {
            assert(header@.subrange(0, 7)[i as int] != scheme@[i as int]);
            return None;
        }
        i += 1;
    }
    assert(header@.subrange(0, 7) =~= scheme@);
    Some(header.substring_char(7, len))
}

/// The identity that a request with this `Authorization` header proves at
/// time `now`: the user id of the claims of its bearer token, if the header
/// is there, has the bearer form, and its token verifies as an access token.
/// The version in the claims plays no part.
pub open spec fn spec_identity(service: &JwtRepository, header: Option<Seq<char>>, now: u64) -> Option<u128> {
    match header {
        Some(value) => match spec_bearer_token(value) {
            Some(token) => match service.spec_validate_access(token, now) {
                Some(claims) => Some(claims.user_id),
                None => None,
            },
            None => None,
        },
        None => None,
    }
}

pub open spec fn header_view(header: Option<&str>) -> Option<Seq<char>> {
    match header {
        Some(value) => Some(value@),
        None => None,
    }
}

/// The identity of a caller who had to prove one.
#[derive(Debug)]
pub struct UserId(pub u128);

/// The identity of a caller who may be anonymous.
#[derive(Debug)]
pub struct OptionalUserId(pub Option<u128>);

impl UserId {
    /// True of the outcome of the required check: the identity where the
    /// header proves one, and an unauthorized error in every other case.
    pub open spec fn required(r: LocalResult<UserId>, identity: Option<u128>) -> bool {
        match identity {
            Some(id) => r is Ok && r->Ok_0.0 == id,
            None => fails_with(r, LocalErrKind::Unauthorized, UNAUTHORIZED),
        }
    }

    /// The required check as of time `now`. `header` is the value of the
    /// `Authorization` header, `None` where the request has none or its value
    /// is not text.
    pub fn from_request_parts_at(header: Option<&str>, state: &JwtRepository, now: u64) -> (r: LocalResult<Self>)
        ensures
            Self::required(r, spec_identity(state, header_view(header), now)),
    {
        let value = match header {
            Some(value) => value,
            None => { return Err(LocalErr::new(LocalErrKind::Unauthorized, UNAUTHORIZED)); },
        };
        let token = match bearer_token(value) {
            Some(token) => token,
            None => { return Err(LocalErr::new(LocalErrKind::Unauthorized, UNAUTHORIZED)); },
        };
        match state.validate_access_token_at(token, now) {
            Ok(claims) => Ok(UserId(claims.user_id)),
            Err(e) => Err(e),
        }
    }

    /// The required check as of the server's current time.
    pub fn from_request_parts(header: Option<&str>, state: &JwtRepository) -> (r: LocalResult<Self>)
        ensures
            exists|now: u64| Self::required(r, #[trigger] spec_identity(state, header_view(header), now)),
    {
        let now: u64 = crate::token::unix_now();
        Self::from_request_parts_at(header, state, now)
    }
}

impl OptionalUserId {
    /// The optional check as of time `now`: the identity where the header
    /// proves one, and no identity, without an error, in every other case.
    pub fn from_request_parts_at(header: Option<&str>, state: &JwtRepository, now: u64) -> (r: Self)
        ensures
            r.0 == spec_identity(state, header_view(header), now),
    {
        match UserId::from_request_parts_at(header, state, now) {
            Ok(id) => OptionalUserId(Some(id.0)),
            Err(_) => OptionalUserId(None),
        }
    }

    /// The optional check as of the server's current time.
    pub fn from_request_parts(header: Option<&str>, state: &JwtRepository) -> (r: Self)
        ensures
            exists|now: u64| r.0 == #[trigger] spec_identity(state, header_view(header), now),
    {
        let now: u64 = crate::token::unix_now();
        Self::from_request_parts_at(header, state, now)
    }
}

/// A header made of the bearer scheme and a token has that token, whatever
/// the token holds.
pub proof fn lemma_bearer_of_token(token: Seq<char>)
    ensures
        spec_bearer_token("Bearer "@ + token) == Some(token),
{
    reveal_strlit("Bearer ");
    let header = "Bearer "@ + token;
    assert(header.subrange(0, 7) =~= "Bearer "@);
    assert(header.subrange(7, header.len() as int) =~= token);
}

/// A request without an `Authorization` header proves no identity, and one
/// that carries an access token behind the bearer scheme proves the identity
/// the token was issued for, from the second of issue up to its expiry.
pub proof fn lemma_identity_of_issued_token(
    service: JwtRepository,
    user_id: u128,
    version: u128,
    issued_at: u64,
    token: LocalResult<String>,
    now: u64,
)
    requires
        service.access_issued(user_id, version, issued_at, token),
        token is Ok,
    ensures
        spec_identity(&service, None, now) is None,
        service.access_claims(user_id, version, issued_at) is Some,
        service.access_claims(user_id, version, issued_at)->Some_0.live_at(now) ==> spec_identity(
            &service,
            Some("Bearer "@ + token->Ok_0@),
            now,
        ) == Some(user_id),
        !service.access_claims(user_id, version, issued_at)->Some_0.live_at(now) ==> spec_identity(
            &service,
            Some("Bearer "@ + token->Ok_0@),
            now,
        ) is None,
{
    lemma_bearer_of_token(token->Ok_0@);
}

} // verus!
