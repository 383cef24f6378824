//! The decisions of the auth endpoints. Storage is looked up and written by
//! the caller, between these functions: each takes what a lookup found and
//! says what the endpoint answers, or what is to be stored next.

use crate::credential::bcrypt_verdict;
use crate::dto::{LoginRequestBody, RefreshAccessTokenResponse, RegisterRequestBody, UserRequestsResponse};
use crate::error::{fails_inside, fails_with, LocalErr, LocalErrKind, LocalResult, BAD_REQUEST, NOT_FOUND, UNAUTHORIZED};
use crate::token::{decoded_claims, unix_now, JwtRepository, RefreshCookie};
use crate::user::{Model, UserDraft};
use vstd::prelude::*;

verus! {

/// True of a response that shows the profile of `user`.
pub open spec fn profile_of(response: UserRequestsResponse, user: Model) -> bool {
    &&& response.username == user.username
    &&& response.email == user.email
    &&& response.avatar == user.avatar
}

/// True of the outcome `r` of opening a session for `user` at `now`: the
/// user's profile with a fresh access token, beside the cookie that carries a
/// fresh refresh token, neither token empty and each decoding under its own
/// secret to the claims it was issued with; or an internal error if either
/// token could not be issued.
pub open spec fn session_opened(
    jwt_service: &JwtRepository,
    user: Model,
    now: u64,
    r: LocalResult<(RefreshCookie, UserRequestsResponse)>,
) -> bool {
    let access = jwt_service.spec_access_token(user.id, user.version, now);
    let refresh = jwt_service.spec_refresh_token(user.id, user.version, now);
    if access is Some && refresh is Some {
        &&& r is Ok
        &&& r->Ok_0.1.token is Some
        &&& r->Ok_0.1.token->Some_0@ == access->Some_0
        &&& access->Some_0.len() > 0
        &&& refresh->Some_0.len() > 0
        &&& profile_of(r->Ok_0.1, user)
        &&& jwt_service.carries(
            r->Ok_0.0,
            refresh->Some_0,
            jwt_service.refresh_claims(user.id, user.version, now)->Some_0,
        )
        &&& decoded_claims(access->Some_0, jwt_service.access_secret())
            == jwt_service.access_claims(user.id, user.version, now)
        &&& decoded_claims(refresh->Some_0, jwt_service.refresh_secret())
            == jwt_service.refresh_claims(user.id, user.version, now)
    } else {
        fails_inside(r)
    }
}

/// Issues both tokens for `user` as of `now` and builds the answer of a
/// successful register or login.
pub fn open_session_at(jwt_service: &JwtRepository, user: Model, now: u64) -> (r: LocalResult<
    (RefreshCookie, UserRequestsResponse),
>)
    ensures
        session_opened(jwt_service, user, now, r),
{
    let access_token = match jwt_service.generate_access_token_at(user.id, user.version, now) {
        Ok(token) => token,
        Err(e) => { return Err(e); },
    };
    let refresh_token = match jwt_service.generate_refresh_token_at(user.id, user.version, now) {
        Ok(cookie) => cookie,
        Err(e) => { return Err(e); },
    };
    let resp_body = UserRequestsResponse {
        avatar: user.avatar,
        email: user.email,
        username: user.username,
        token: Some(access_token),
    };
    Ok((refresh_token, resp_body))
}

/// Opens a session as of the server's current time.
pub fn open_session(jwt_service: &JwtRepository, user: Model) -> (r: LocalResult<
    (RefreshCookie, UserRequestsResponse),
>)
    ensures
        exists|now: u64| #[trigger] session_opened(jwt_service, user, now, r),
{
    let now: u64 = unix_now();
    open_session_at(jwt_service, user, now)
}

/// True of the outcome `r` of a registration: a conflict if the lookup for
/// the request's email or username found a record, and otherwise the draft
/// to store.
pub open spec fn register_outcome(body: RegisterRequestBody, existing: Option<Model>, r: LocalResult<UserDraft>) -> bool {
    if existing is Some {
        fails_with(r, LocalErrKind::UserAlredyExists, BAD_REQUEST)
    } else {
        body.drafted(r)
    }
}

/// The first half of a registration. `existing` is what the lookup for an
/// active user with the request's email or username found. On a conflict
/// nothing is drafted, so nothing is stored. The stored user is then answered
/// with `open_session`.
pub fn register(body: RegisterRequestBody, existing: &Option<Model>) -> (r: LocalResult<UserDraft>)
    ensures
        register_outcome(body, *existing, r),
{
    if existing.is_some() {
        return Err(LocalErr::new(LocalErrKind::UserAlredyExists, BAD_REQUEST));
    }
    body.try_into()
}

/// True of the outcome `r` of a login at `now`: not found if the lookup
/// found no record, unauthorized if the password does not match the record's
/// hash, an internal error if the hash cannot be compared with, and otherwise
/// an open session.
///
/// An unknown credential and a wrong password are answered differently, so a
/// caller can learn which accounts exist. Whether to answer both alike is
/// left to be decided; nothing here does.
pub open spec fn login_outcome(
    jwt_service: &JwtRepository,
    body: LoginRequestBody,
    found: Option<Model>,
    now: u64,
    r: LocalResult<(RefreshCookie, UserRequestsResponse)>,
) -> bool {
    match found {
        None => fails_with(r, LocalErrKind::NotFound, NOT_FOUND),
        Some(user) => match bcrypt_verdict(body.password.0@, user.password_hash.0@) {
            Some(true) => session_opened(jwt_service, user, now, r),
            Some(false) => fails_with(r, LocalErrKind::Unauthorized, UNAUTHORIZED),
            None => fails_inside(r),
        },
    }
}

/// A login as of `now`. `found` is what the lookup for an active user whose
/// email or username is the request's credential found.
pub fn login_at(jwt_service: &JwtRepository, body: LoginRequestBody, found: Option<Model>, now: u64) -> (r:
    LocalResult<(RefreshCookie, UserRequestsResponse)>)
    ensures
        login_outcome(jwt_service, body, found, now, r),
{
    let user = match found {
        Some(user) => user,
        None => { return Err(LocalErr::new(LocalErrKind::NotFound, NOT_FOUND)); },
    };
    match user.password_hash.verify_password(&body.password.0) {
        Ok(_) => open_session_at(jwt_service, user, now),
        Err(e) => Err(e),
    }
}

/// A login as of the server's current time.
pub fn login(jwt_service: &JwtRepository, body: LoginRequestBody, found: Option<Model>) -> (r: LocalResult<
    (RefreshCookie, UserRequestsResponse),
>)
    ensures
        exists|now: u64| #[trigger] login_outcome(jwt_service, body, found, now, r),
{
    let now: u64 = unix_now();
    login_at(jwt_service, body, found, now)
}

/// The answer of a profile fetch. `found` is what the lookup for the active
/// user with the caller's id found. The answer holds no token.
pub fn get_user_profile(found: Option<Model>) -> (r: LocalResult<UserRequestsResponse>)
    ensures
        match found {
            Some(user) => r is Ok && profile_of(r->Ok_0, user) && r->Ok_0.token is None,
            None => fails_with(r, LocalErrKind::NotFound, NOT_FOUND),
        },
{
    match found {
        Some(user) => Ok(
            UserRequestsResponse { avatar: user.avatar, email: user.email, username: user.username, token: None },
        ),
        None => Err(LocalErr::new(LocalErrKind::NotFound, NOT_FOUND)),
    }
}

pub open spec fn cookie_view(cookie: Option<&str>) -> Option<Seq<char>> {
    match cookie {
        Some(value) => Some(value@),
        None => None,
    }
}

/// The result of issuing an access token, seen through the response that
/// holds it.
pub open spec fn refreshed_token(r: LocalResult<RefreshAccessTokenResponse>) -> LocalResult<String> {
    match r {
        Ok(response) => Ok(response.token),
        Err(e) => Err(e),
    }
}

/// True of the outcome `r` of a refresh at `now`: unauthorized if there is no
/// cookie or its value does not verify as a refresh token, and otherwise an
/// access token issued at `now` for the user id and version of the refresh
/// token's claims.
pub open spec fn refresh_outcome(
    jwt_service: &JwtRepository,
    cookie: Option<Seq<char>>,
    now: u64,
    r: LocalResult<RefreshAccessTokenResponse>,
) -> bool {
    match cookie {
        None => fails_with(r, LocalErrKind::Unauthorized, UNAUTHORIZED),
        Some(value) => match jwt_service.spec_validate_refresh(value, now) {
            None => fails_with(r, LocalErrKind::Unauthorized, UNAUTHORIZED),
            Some(claims) => jwt_service.access_issued(claims.user_id, claims.version, now, refreshed_token(r)),
        },
    }
}

/// A refresh as of `now`. `cookie` is the value of the refresh cookie, `None`
/// where the request has none. No new refresh token is issued.
pub fn refresh_access_token_at(jwt_service: &JwtRepository, cookie: Option<&str>, now: u64) -> (r: LocalResult<
    RefreshAccessTokenResponse,
>)
    ensures
        refresh_outcome(jwt_service, cookie_view(cookie), now, r),
{
    let refresh_token = match cookie {
        Some(value) => value,
        None => { return Err(LocalErr::new(LocalErrKind::Unauthorized, UNAUTHORIZED)); },
    };
    let claims = match jwt_service.validate_refresh_token_at(refresh_token, now) {
        Ok(claims) => claims,
        Err(e) => { return Err(e); },
    };
    match jwt_service.generate_access_token_at(claims.user_id, claims.version, now) {
        Ok(token) => Ok(RefreshAccessTokenResponse { token }),
        Err(e) => Err(e),
    }
}

/// A refresh as of the server's current time.
pub fn refresh_access_token(jwt_service: &JwtRepository, cookie: Option<&str>) -> (r: LocalResult<
    RefreshAccessTokenResponse,
>)
    ensures
        exists|now: u64| #[trigger] refresh_outcome(jwt_service, cookie_view(cookie), now, r),
{
    let now: u64 = unix_now();
    refresh_access_token_at(jwt_service, cookie, now)
}

/// A refresh with a refresh token that is still live succeeds exactly when an
/// access token can be signed, and the new access token verifies at once to
/// claims with the user id and version the refresh token was issued for,
/// issued now and expiring after the access lifetime. A refresh with a
/// refresh token from its expiry on, or before its issue, is unauthorized.
pub proof fn lemma_refresh_follows_refresh_token(
    jwt_service: JwtRepository,
    user_id: u128,
    version: u128,
    issued_at: u64,
    cookie: LocalResult<RefreshCookie>,
    now: u64,
    r: LocalResult<RefreshAccessTokenResponse>,
)
    requires
        jwt_service.refresh_issued(user_id, version, issued_at, cookie),
        cookie is Ok,
        refresh_outcome(&jwt_service, Some(cookie->Ok_0.value@), now, r),
    ensures
        jwt_service.refresh_claims(user_id, version, issued_at) is Some,
        now >= cookie->Ok_0.expires ==> fails_with(r, LocalErrKind::Unauthorized, UNAUTHORIZED),
        now < issued_at ==> fails_with(r, LocalErrKind::Unauthorized, UNAUTHORIZED),
        issued_at <= now < cookie->Ok_0.expires ==> jwt_service.access_issued(
            user_id,
            version,
            now,
            refreshed_token(r),
        ),
        issued_at <= now < cookie->Ok_0.expires ==> (r is Ok <==> jwt_service.spec_access_token(
            user_id,
            version,
            now,
        ) is Some),
        issued_at <= now < cookie->Ok_0.expires && r is Ok ==> {
            let claims = jwt_service.spec_validate_access(r->Ok_0.token@, now);
            &&& claims is Some
            &&& claims->Some_0.user_id == user_id
            &&& claims->Some_0.version == version
            &&& claims->Some_0.iat == now
            &&& claims->Some_0.exp == now + jwt_service.config().jwt_access_hours * 3600
        },
{
}

/// A login with the password that the stored hash was made from opens a
/// session exactly when both tokens can be signed. The answer shows the
/// user's profile; its access token is not empty and verifies at once to the
/// user's id and version; its cookie is hidden from scripts, sent over HTTPS
/// only, and dropped at the second at which the refresh token in it expires.
pub proof fn lemma_login_with_hashed_password(
    jwt_service: JwtRepository,
    body: LoginRequestBody,
    user: Model,
    now: u64,
    r: LocalResult<(RefreshCookie, UserRequestsResponse)>,
)
    requires
        bcrypt_verdict(body.password.0@, user.password_hash.0@) == Some(true),
        login_outcome(&jwt_service, body, Some(user), now, r),
    ensures
        session_opened(&jwt_service, user, now, r),
        r is Ok <==> jwt_service.spec_access_token(user.id, user.version, now) is Some
            && jwt_service.spec_refresh_token(user.id, user.version, now) is Some,
        r is Ok ==> {
            let claims = jwt_service.spec_validate_refresh(r->Ok_0.0.value@, now);
            let access = jwt_service.spec_validate_access(r->Ok_0.1.token->Some_0@, now);
            &&& profile_of(r->Ok_0.1, user)
            &&& r->Ok_0.1.token is Some
            &&& r->Ok_0.1.token->Some_0@.len() > 0
            &&& access is Some
            &&& access->Some_0.user_id == user.id
            &&& access->Some_0.version == user.version
            &&& r->Ok_0.0.http_only
            &&& r->Ok_0.0.secure
            &&& claims is Some
            &&& claims->Some_0.exp == r->Ok_0.0.expires
            &&& claims->Some_0.user_id == user.id
            &&& claims->Some_0.version == user.version
        },
{
}

} // verus!
