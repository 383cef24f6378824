//! The token service: claims, their signed encoding under two separate
//! secrets, and the check that a token is genuine and live at a given time.

use crate::config::{valid_hours, Config, MAX_HOURS, SECONDS_PER_HOUR};
use crate::error::{fails_inside, fails_inside_with, fails_with, LocalErr, LocalErrKind, LocalResult, INTERNAL_SERVER_ERROR, UNAUTHORIZED};
use chrono::Utc;
use jsonwebtoken::{decode, encode, DecodingKey, EncodingKey, Header, Validation};
use serde_json::Value;
use uuid::Uuid;
use vstd::prelude::*;

verus! {

/// What a token says: who it was issued to, under which version of that
/// user's record, and the seconds since the epoch at which it was issued and
/// at which it expires.
///
/// Verification does not compare `version` with the stored user's current
/// version, so a token issued before a change of email or password stays
/// usable until it expires. Whether to reject such a token is left to be
/// decided; nothing here does.
#[derive(Debug, Clone, Copy, PartialEq, Eq, Structural)]
pub struct JwtClaims {
    pub exp: u64,
    pub iat: u64,
    pub user_id: u128,
    pub version: u128,
}

impl JwtClaims {
    /// A token expires after it was issued.
    pub open spec fn wf(&self) -> bool {
        self.iat < self.exp
    }

    /// The token is usable from the second it was issued up to, and not
    /// including, the second it expires.
    pub open spec fn live_at(&self, now: u64) -> bool {
        self.iat <= now < self.exp
    }
}

/// The token that signing the four claims with `secret` gives, `None` where
/// signing fails.
pub uninterp spec fn jwt_signed(exp: u64, iat: u64, user_id: u128, version: u128, secret: Seq<char>) -> Option<Seq<char>>;

/// The members `exp`, `iat`, `user_id` and `version` of the payload of
/// `token`, each where the payload has it in the right form (a number for the
/// first two, a text for the last two), if the token is well formed and its
/// signature is genuine under `secret`; `None` otherwise.
pub uninterp spec fn jwt_decoded(token: Seq<char>, secret: Seq<char>) -> Option<
    (Option<u64>, Option<u64>, Option<Seq<char>>, Option<Seq<char>>),
>;

/// The id that a text denotes, `None` where it denotes none.
pub uninterp spec fn uuid_parsed(text: Seq<char>) -> Option<u128>;

/// The token that signing `claims` with `secret` gives.
pub open spec fn signed_claims(claims: JwtClaims, secret: Seq<char>) -> Option<Seq<char>> {
    jwt_signed(claims.exp, claims.iat, claims.user_id, claims.version, secret)
}

/// The id that an optional text denotes.
pub open spec fn spec_member_id(text: Option<Seq<char>>) -> Option<u128> {
    match text {
        Some(text) => uuid_parsed(text),
        None => None,
    }
}

/// The claims made of four members, where all four are there.
pub open spec fn spec_assemble_claims(
    exp: Option<u64>,
    iat: Option<u64>,
    user_id: Option<u128>,
    version: Option<u128>,
) -> Option<JwtClaims> {
    if exp is Some && iat is Some && user_id is Some && version is Some {
        Some(JwtClaims { exp: exp->Some_0, iat: iat->Some_0, user_id: user_id->Some_0, version: version->Some_0 })
    } else {
        None
    }
}

/// The claims of a decoded payload: there are some if the payload has all
/// four members and both ids denote one.
pub open spec fn payload_claims(
    payload: Option<(Option<u64>, Option<u64>, Option<Seq<char>>, Option<Seq<char>>)>,
) -> Option<JwtClaims> {
    match payload {
        Some((exp, iat, user_id, version)) => spec_assemble_claims(
            exp,
            iat,
            spec_member_id(user_id),
            spec_member_id(version),
        ),
        None => None,
    }
}

/// The claims that `token` holds under `secret`.
pub open spec fn decoded_claims(token: Seq<char>, secret: Seq<char>) -> Option<JwtClaims> {
    payload_claims(jwt_decoded(token, secret))
}

/// A text member by its characters.
pub open spec fn text_view(text: Option<String>) -> Option<Seq<char>> {
    match text {
        Some(text) => Some(text@),
        None => None,
    }
}

/// A decoded payload by its plain values.
pub open spec fn payload_view(payload: Option<(Option<u64>, Option<u64>, Option<String>, Option<String>)>) -> Option<
    (Option<u64>, Option<u64>, Option<Seq<char>>, Option<Seq<char>>),
> {
    match payload {
        Some((exp, iat, user_id, version)) => Some((exp, iat, text_view(user_id), text_view(version))),
        None => None,
    }
}

/// Assumed of `jsonwebtoken::encode` with the default header (HS256) and a key
/// made by `EncodingKey::from_secret`: its result depends on the claims and the
/// secret alone, and a token it returns is not empty and decodes under the
/// same secret to the claims it was made from: the payload is a JSON object
/// with the numbers `exp` and `iat` and the ids `user_id` and `version` in
/// hyphenated form, which `uuid::Uuid::parse_str` reads back to the same ids.
/// An error comes as its text.
#[verifier::external_body]
fn sign_claims(claims: &JwtClaims, secret: &str) -> (token: Result<String, String>)
    ensures
        match token {
            Ok(t) => jwt_signed(claims.exp, claims.iat, claims.user_id, claims.version, secret@) == Some(t@)
                && t@.len() > 0
                && payload_claims(jwt_decoded(t@, secret@)) == Some(*claims),
            Err(_) => jwt_signed(claims.exp, claims.iat, claims.user_id, claims.version, secret@) is None,
        },
{
    let mut payload = serde_json::Map::new();
    payload.insert("exp".to_string(), Value::from(claims.exp));
    payload.insert("iat".to_string(), Value::from(claims.iat));
    payload.insert("user_id".to_string(), Value::from(Uuid::from_u128(claims.user_id).to_string()));
    payload.insert("version".to_string(), Value::from(Uuid::from_u128(claims.version).to_string()));
    let key = EncodingKey::from_secret(secret.as_bytes());
    match encode(&Header::default(), &payload, &key) {
        Ok(token) => Ok(token),
        Err(e) => Err(e.to_string()),
    }
}

/// Assumed of `jsonwebtoken::decode` with a key made by
/// `DecodingKey::from_secret` and the default validation without its own
/// expiry check: its result depends on the token and the secret alone. Of the
/// payload it hands out the four members that claims are made of.
#[verifier::external_body]
fn decode_payload(token: &str, secret: &str) -> (payload: Option<
    (Option<u64>, Option<u64>, Option<String>, Option<String>),
>)
    ensures
        payload_view(payload) == jwt_decoded(token@, secret@),
{
    let mut validation = Validation::default();
    validation.validate_exp = false;
    let key = DecodingKey::from_secret(secret.as_bytes());
    let payload = decode::<Value>(token, &key, &validation).ok()?.claims;
    Some((
        payload.get("exp").and_then(Value::as_u64),
        payload.get("iat").and_then(Value::as_u64),
        payload.get("user_id").and_then(Value::as_str).map(str::to_owned),
        payload.get("version").and_then(Value::as_str).map(str::to_owned),
    ))
}

/// Assumed of `uuid::Uuid::parse_str`: its result depends on the text alone.
#[verifier::external_body]
fn parse_uuid(text: &str) -> (id: Option<u128>)
    ensures
        id == uuid_parsed(text@),
{
    match Uuid::parse_str(text) {
        Ok(id) => Some(id.as_u128()),
        Err(_) => None,
    }
}

/// `chrono::Utc::now().timestamp()`: the server clock in seconds since the
/// epoch. Nothing is assumed of the value.
#[verifier::external_body]
pub(crate) fn unix_now() -> (now: u64) {
    Utc::now().timestamp() as u64
}

/// The claims of a token issued at `now` that lives for `hours` hours, where
/// the lifetime is valid and the expiry can be held.
pub open spec fn spec_claims_for(user_id: u128, version: u128, now: u64, hours: i64) -> Option<JwtClaims> {
    if valid_hours(hours) && now + hours * 3600 <= u64::MAX {
        Some(JwtClaims { exp: (now + hours * 3600) as u64, iat: now, user_id, version })
    } else {
        None
    }
}

/// Builds the claims of a token issued at `now` for `hours` hours. There are
/// none for a lifetime that is not valid, nor where the expiry would pass the
/// largest second that can be held.
pub fn claims_for(user_id: u128, version: u128, now: u64, hours: i64) -> (claims: Option<JwtClaims>)
    ensures
        claims == spec_claims_for(user_id, version, now, hours),
        claims is Some ==> claims->Some_0.wf(),
{
    if hours < 1 || hours > MAX_HOURS {
        return None;
    }
    let lifetime: u64 = (hours as u64) * SECONDS_PER_HOUR;
    match now.checked_add(lifetime) {
        Some(exp) => Some(JwtClaims { exp, iat: now, user_id, version }),
        None => None,
    }
}

/// Reads an id member of a payload.
fn member_id(text: &Option<String>) -> (id: Option<u128>)
    ensures
        id == spec_member_id(text_view(*text)),
{
    match text {
        Some(text) => parse_uuid(text.as_str()),
        None => None,
    }
}

/// Makes claims of the four members of a payload. A payload that lacks one
/// of them has no claims.
pub fn assemble_claims(exp: Option<u64>, iat: Option<u64>, user_id: Option<u128>, version: Option<u128>) -> (claims:
    Option<JwtClaims>)
    ensures
        claims == spec_assemble_claims(exp, iat, user_id, version),
{
    match (exp, iat, user_id, version) {
        (Some(exp), Some(iat), Some(user_id), Some(version)) => Some(JwtClaims { exp, iat, user_id, version }),
        _ => None,
    }
}

/// Decodes `token` under `secret` to the claims it holds.
fn decode_claims(token: &str, secret: &str) -> (claims: Option<JwtClaims>)
    ensures
        claims == decoded_claims(token@, secret@),
{
    match decode_payload(token, secret) {
        Some((exp, iat, user_id, version)) => assemble_claims(exp, iat, member_id(&user_id), member_id(&version)),
        None => None,
    }
}

/// What a decoded payload is worth at time `now`: its claims if there are any
/// and they are live, nothing otherwise.
pub open spec fn spec_check_claims(decoded: Option<JwtClaims>, now: u64) -> Option<JwtClaims> {
    match decoded {
        Some(claims) => if claims.live_at(now) { Some(claims) } else { None },
        None => None,
    }
}

/// True of the result that a verification owes: the claims where there are
/// some, and otherwise the one error that every failure collapses to.
pub open spec fn verified_as(r: LocalResult<JwtClaims>, expected: Option<JwtClaims>) -> bool {
    match expected {
        Some(claims) => r == Ok::<JwtClaims, LocalErr>(claims),
        None => fails_with(r, LocalErrKind::Unauthorized, UNAUTHORIZED),
    }
}

/// True of the result that an issuance owes: the token where signing gave
/// one, and otherwise an internal error.
pub open spec fn issued_as(r: LocalResult<String>, expected: Option<Seq<char>>) -> bool {
    match expected {
        Some(token) => r is Ok && r->Ok_0@ == token,
        None => fails_inside(r),
    }
}

/// Judges a decoded payload at time `now`. A missing payload, a token not yet
/// issued and an expired one give the same error.
pub fn check_claims(decoded: Option<JwtClaims>, now: u64) -> (r: LocalResult<JwtClaims>)
    ensures
        verified_as(r, spec_check_claims(decoded, now)),
{
    match decoded {
        Some(claims) => {
            if claims.iat <= now && now < claims.exp {
                Ok(claims)
            } else {
                Err(LocalErr::new(LocalErrKind::Unauthorized, UNAUTHORIZED))
            }
        },
        None => Err(LocalErr::new(LocalErrKind::Unauthorized, UNAUTHORIZED)),
    }
}

/// Turns the outcome of a signing into the result the caller sees: the token,
/// or an internal error that holds the failure's text for the log.
pub fn issued_token(signed: Result<String, String>) -> (r: LocalResult<String>)
    ensures
        match signed {
            Ok(token) => r is Ok && r->Ok_0 == token,
            Err(detail) => fails_inside_with(r, detail),
        },
{
    match signed {
        Ok(token) => Ok(token),
        Err(detail) => Err(LocalErr::internal(detail)),
    }
}

/// How the refresh cookie may travel with requests to other sites.
#[derive(Debug, Clone, Copy, PartialEq, Eq, Structural)]
pub enum SameSite {
    Strict,
    Lax,
    Unrestricted,
}

/// The refresh token as it is handed to the browser: a cookie by its
/// attributes. `expires` is the second at which the browser drops it.
#[derive(Debug, Clone)]
pub struct RefreshCookie {
    pub name: String,
    pub value: String,
    pub http_only: bool,
    pub secure: bool,
    pub same_site: SameSite,
    pub path: String,
    pub domain: String,
    pub expires: u64,
}

/// The token service. It holds the settings it was made with and nothing else.
#[derive(Clone)]
pub struct JwtRepository {
    config: Config,
}

impl JwtRepository {
    /// The settings the service was made with.
    pub closed spec fn config(&self) -> Config {
        self.config
    }

    /// Both lifetimes of the service's settings are usable.
    pub open spec fn wf(&self) -> bool {
        self.config().wf()
    }

    /// The secret that signs access tokens.
    pub open spec fn access_secret(&self) -> Seq<char> {
        self.config().jwt_access_secret@
    }

    /// The secret that signs refresh tokens.
    pub open spec fn refresh_secret(&self) -> Seq<char> {
        self.config().jwt_refresh_secret@
    }

    /// The claims that an access token issued at `now` carries.
    pub open spec fn access_claims(&self, user_id: u128, version: u128, now: u64) -> Option<JwtClaims> {
        spec_claims_for(user_id, version, now, self.config().jwt_access_hours)
    }

    /// The claims that a refresh token issued at `now` carries.
    pub open spec fn refresh_claims(&self, user_id: u128, version: u128, now: u64) -> Option<JwtClaims> {
        spec_claims_for(user_id, version, now, self.config().jwt_refresh_hours)
    }

    /// The access token issued at `now`, where one can be issued.
    pub open spec fn spec_access_token(&self, user_id: u128, version: u128, now: u64) -> Option<Seq<char>> {
        match self.access_claims(user_id, version, now) {
            Some(claims) => signed_claims(claims, self.access_secret()),
            None => None,
        }
    }

    /// The refresh token issued at `now`, where one can be issued.
    pub open spec fn spec_refresh_token(&self, user_id: u128, version: u128, now: u64) -> Option<Seq<char>> {
        match self.refresh_claims(user_id, version, now) {
            Some(claims) => signed_claims(claims, self.refresh_secret()),
            None => None,
        }
    }

    /// What verifying `token` as an access token at `now` yields.
    pub open spec fn spec_validate_access(&self, token: Seq<char>, now: u64) -> Option<JwtClaims> {
        spec_check_claims(decoded_claims(token, self.access_secret()), now)
    }

    /// What verifying `token` as a refresh token at `now` yields.
    pub open spec fn spec_validate_refresh(&self, token: Seq<char>, now: u64) -> Option<JwtClaims> {
        spec_check_claims(decoded_claims(token, self.refresh_secret()), now)
    }

    /// True of the outcome `r` of issuing an access token at `now`: it is the
    /// token that signing gives, and that token is not empty and decodes
    /// under the access secret to the claims it was issued with. Where no
    /// claims can be made the error holds nothing for the log; where signing
    /// fails it holds what signing said.
    pub open spec fn access_issued(&self, user_id: u128, version: u128, now: u64, r: LocalResult<String>) -> bool {
        &&& issued_as(r, self.spec_access_token(user_id, version, now))
        &&& self.access_claims(user_id, version, now) is None ==> fails_with(
            r,
            LocalErrKind::Code500,
            INTERNAL_SERVER_ERROR,
        )
        &&& r is Ok ==> r->Ok_0@.len() > 0
        &&& r is Ok ==> decoded_claims(r->Ok_0@, self.access_secret()) == self.access_claims(user_id, version, now)
    }

    /// True of the cookie that carries the refresh token `token` with the
    /// claims `claims`: the configured name and domain, the root path, hidden
    /// from scripts, sent over HTTPS only and to any site, and dropped at the
    /// second at which the token expires.
    pub open spec fn carries(&self, cookie: RefreshCookie, token: Seq<char>, claims: JwtClaims) -> bool {
        &&& cookie.name@ == self.config().jwt_refresh_cookie_name@
        &&& cookie.value@ == token
        &&& cookie.http_only
        &&& cookie.secure
        &&& cookie.same_site == SameSite::Unrestricted
        &&& cookie.path@ == "/"@
        &&& cookie.domain@ == self.config().jwt_domain@
        &&& cookie.expires == claims.exp
    }

    /// True of the outcome `r` of issuing a refresh token at `now`: the cookie
    /// holds the token that signing gives, and that token is not empty and
    /// decodes under the refresh secret to the claims it was issued with.
    pub open spec fn refresh_issued(&self, user_id: u128, version: u128, now: u64, r: LocalResult<RefreshCookie>) -> bool {
        match self.spec_refresh_token(user_id, version, now) {
            Some(token) => {
                &&& r is Ok
                &&& self.carries(r->Ok_0, token, self.refresh_claims(user_id, version, now)->Some_0)
                &&& token.len() > 0
                &&& decoded_claims(token, self.refresh_secret()) == self.refresh_claims(user_id, version, now)
            },
            None => fails_inside(r) && (self.refresh_claims(user_id, version, now) is None ==> fails_with(
                r,
                LocalErrKind::Code500,
                INTERNAL_SERVER_ERROR,
            )),
        }
    }

    /// The service over `config`, if both of its lifetimes are usable.
    pub fn new(config: Config) -> (service: Option<Self>)
        ensures
            service is Some <==> config.wf(),
            service is Some ==> service->Some_0.config() == config && service->Some_0.wf(),
    {
        if config.is_valid() {
            Some(Self { config })
        } else {
            None
        }
    }

    /// The settings the service was made with.
    pub fn settings(&self) -> (config: &Config)
        ensures
            *config == self.config(),
    {
        &self.config
    }

    /// Verifies `token` as an access token at time `now`.
    pub fn validate_access_token_at(&self, token: &str, now: u64) -> (r: LocalResult<JwtClaims>)
        ensures
            verified_as(r, self.spec_validate_access(token@, now)),
    {
        check_claims(decode_claims(token, self.config.jwt_access_secret.as_str()), now)
    }

    /// Verifies `token` as a refresh token at time `now`.
    pub fn validate_refresh_token_at(&self, token: &str, now: u64) -> (r: LocalResult<JwtClaims>)
        ensures
            verified_as(r, self.spec_validate_refresh(token@, now)),
    {
        check_claims(decode_claims(token, self.config.jwt_refresh_secret.as_str()), now)
    }

    /// Verifies `token` as an access token at the server's current time.
    pub fn validate_access_token(&self, token: &str) -> (r: LocalResult<JwtClaims>)
        ensures
            exists|now: u64| verified_as(r, #[trigger] self.spec_validate_access(token@, now)),
    {
        let now: u64 = unix_now();
        self.validate_access_token_at(token, now)
    }

    /// Verifies `token` as a refresh token at the server's current time.
    pub fn validate_refresh_token(&self, token: &str) -> (r: LocalResult<JwtClaims>)
        ensures
            exists|now: u64| verified_as(r, #[trigger] self.spec_validate_refresh(token@, now)),
    {
        let now: u64 = unix_now();
        self.validate_refresh_token_at(token, now)
    }

    /// Issues an access token for `user_id` at `version` as of time `now`.
    pub fn generate_access_token_at(&self, user_id: u128, version: u128, now: u64) -> (r: LocalResult<String>)
        ensures
            self.access_issued(user_id, version, now, r),
    {
        let claims = match claims_for(user_id, version, now, self.config.jwt_access_hours) {
            Some(claims) => claims,
            None => { return Err(LocalErr::new(LocalErrKind::Code500, INTERNAL_SERVER_ERROR)); },
        };
        issued_token(sign_claims(&claims, self.config.jwt_access_secret.as_str()))
    }

    /// Wraps the outcome of signing a refresh token with `claims` for
    /// transport: the cookie that carries the token, or an internal error
    /// that holds the failure's text for the log.
    pub fn refresh_cookie(&self, signed: Result<String, String>, claims: JwtClaims) -> (r: LocalResult<
        RefreshCookie,
    >)
        ensures
            match signed {
                Ok(token) => r is Ok && self.carries(r->Ok_0, token@, claims),
                Err(detail) => fails_inside_with(r, detail),
            },
    {
        let token = match signed {
            Ok(token) => token,
            Err(detail) => { return Err(LocalErr::internal(detail)); },
        };
        Ok(
            RefreshCookie {
                name: self.config.jwt_refresh_cookie_name.clone(),
                value: token,
                http_only: true,
                secure: true,
                same_site: SameSite::Unrestricted,
                path: "/".to_string(),
                domain: self.config.jwt_domain.clone(),
                expires: claims.exp,
            },
        )
    }

    /// Issues a refresh token for `user_id` at `version` as of time `now`, in
    /// the cookie that carries it.
    pub fn generate_refresh_token_at(&self, user_id: u128, version: u128, now: u64) -> (r: LocalResult<RefreshCookie>)
        ensures
            self.refresh_issued(user_id, version, now, r),
    {
        let claims = match claims_for(user_id, version, now, self.config.jwt_refresh_hours) {
            Some(claims) => claims,
            None => { return Err(LocalErr::new(LocalErrKind::Code500, INTERNAL_SERVER_ERROR)); },
        };
        self.refresh_cookie(sign_claims(&claims, self.config.jwt_refresh_secret.as_str()), claims)
    }

    /// Issues an access token as of the server's current time.
    pub fn generate_access_token(&self, user_id: u128, version: u128) -> (r: LocalResult<String>)
        ensures
            exists|now: u64| #[trigger] self.access_issued(user_id, version, now, r),
    {
        let now: u64 = unix_now();
        self.generate_access_token_at(user_id, version, now)
    }

    /// Issues a refresh token as of the server's current time.
    pub fn generate_refresh_token(&self, user_id: u128, version: u128) -> (r: LocalResult<RefreshCookie>)
        ensures
            exists|now: u64| #[trigger] self.refresh_issued(user_id, version, now, r),
    {
        let now: u64 = unix_now();
        self.generate_refresh_token_at(user_id, version, now)
    }
}

/// An access token verifies, at the second it was issued, to claims with the
/// user id and version it was issued for, and it verifies at no second from
/// its expiry on.
pub proof fn lemma_access_token_round_trip(
    service: JwtRepository,
    user_id: u128,
    version: u128,
    now: u64,
    r: LocalResult<String>,
    later: u64,
)
    requires
        service.access_issued(user_id, version, now, r),
        r is Ok,
    ensures
        service.access_claims(user_id, version, now) is Some,
        ({
            let claims = service.access_claims(user_id, version, now)->Some_0;
            &&& claims.user_id == user_id
            &&& claims.version == version
            &&& claims.iat == now
            &&& claims.exp == now + service.config().jwt_access_hours * 3600
            &&& claims.wf()
            &&& service.spec_validate_access(r->Ok_0@, claims.iat) == Some(claims)
            &&& later >= claims.exp ==> service.spec_validate_access(r->Ok_0@, later) is None
        }),
{
}

/// A refresh token verifies, at the second it was issued, to claims with the
/// user id and version it was issued for, and it verifies at no second from
/// its expiry on; its cookie is dropped at that same second.
pub proof fn lemma_refresh_token_round_trip(
    service: JwtRepository,
    user_id: u128,
    version: u128,
    now: u64,
    r: LocalResult<RefreshCookie>,
    later: u64,
)
    requires
        service.refresh_issued(user_id, version, now, r),
        r is Ok,
    ensures
        service.refresh_claims(user_id, version, now) is Some,
        ({
            let claims = service.refresh_claims(user_id, version, now)->Some_0;
            &&& claims.user_id == user_id
            &&& claims.version == version
            &&& claims.iat == now
            &&& claims.exp == now + service.config().jwt_refresh_hours * 3600
            &&& claims.wf()
            &&& r->Ok_0.expires == claims.exp
            &&& service.spec_validate_refresh(r->Ok_0.value@, claims.iat) == Some(claims)
            &&& later >= claims.exp ==> service.spec_validate_refresh(r->Ok_0.value@, later) is None
        }),
{
}

} // verus!
