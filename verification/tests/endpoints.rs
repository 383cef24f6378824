use identity_service::auth::{
    get_user_profile, login, login_at, open_session, open_session_at, refresh_access_token, refresh_access_token_at,
    register,
};
use identity_service::config::Config;
use identity_service::credential::Password;
use identity_service::dto::{LoginRequestBody, RegisterRequestBody, StringWithLimit};
use identity_service::error::LocalErrKind;
use identity_service::extract::UserId;
use identity_service::token::{JwtRepository, SameSite};
use identity_service::user::{version_bump_due, Model, UserDraft, UserSex};

const NOW: u64 = 1_720_000_000;
const ALICE_ID: u128 = 0xa11c_e000_0000_4000_8000_0000_0000_0001;
const ALICE_V: u128 = 0x0000_0000_0000_4000_8000_0000_0000_00a1;

fn service() -> JwtRepository {
    let config = Config::new(
        String::from("amqp://mq"),
        String::from("postgres://db"),
        String::from("0.0.0.0:3000"),
        String::from("access-key"),
        "1",
        String::from("refresh-key"),
        "72",
        String::from("example.com"),
    )
    .ok()
    .expect("usable values");
    JwtRepository::new(config).expect("valid settings")
}

fn register_body(username: &str, email: &str, password: &str) -> RegisterRequestBody {
    RegisterRequestBody {
        username: StringWithLimit::new(String::from(username)).expect("within the limit"),
        email: StringWithLimit::new(String::from(email)).expect("within the limit"),
        password: StringWithLimit::new(String::from(password)).expect("within the limit"),
        birth_date: 730_000,
        sex: UserSex::Female,
    }
}

fn login_body(credential: &str, password: &str) -> LoginRequestBody {
    LoginRequestBody {
        credential: StringWithLimit::new(String::from(credential)).expect("within the limit"),
        password: StringWithLimit::new(String::from(password)).expect("within the limit"),
    }
}

fn stored(draft: UserDraft) -> Model {
    Model {
        id: ALICE_ID,
        version: ALICE_V,
        email: draft.email,
        username: draft.username,
        password_hash: draft.password_hash,
        creation_date: 1_719_000_000,
        avatar: None,
        banner: None,
        birth_date: draft.birth_date,
        sex: draft.sex,
        is_active: true,
    }
}

fn alice() -> Model {
    stored(register(register_body("alice", "alice@example.com", "secret123"), &None).unwrap())
}

#[test]
fn register_drafts_a_user_with_a_hashed_password() {
    let draft = register(register_body("alice", "alice@example.com", "secret123"), &None).unwrap();
    assert_eq!(draft.username, "alice");
    assert_eq!(draft.email, "alice@example.com");
    assert_eq!(draft.birth_date, 730_000);
    assert_eq!(draft.sex, UserSex::Female);
    assert_ne!(draft.password_hash.0, "secret123");
    assert!(draft.password_hash.verify_password(&String::from("secret123")).is_ok());
}

#[test]
fn register_conflict_drafts_nothing() {
    let existing = Some(alice());
    let err = register(register_body("alice", "other@example.com", "pw"), &existing).unwrap_err();
    assert_eq!(err.error, LocalErrKind::UserAlredyExists);
    assert_eq!(err.code, 400);
    assert!(err.msg.is_none());
}

#[test]
fn try_into_keeps_the_request_fields() {
    let draft = register_body("carol", "carol@example.com", "pw").try_into().unwrap();
    assert_eq!(draft.username, "carol");
    assert_eq!(draft.email, "carol@example.com");
    assert!(draft.password_hash.verify_password(&String::from("pw")).is_ok());
    assert!(draft.password_hash.verify_password(&String::from("pW")).is_err());
}

#[test]
fn login_with_unknown_credential_is_not_found() {
    let jwt = service();
    let err = login_at(&jwt, login_body("nobody", "secret123"), None, NOW).unwrap_err();
    assert_eq!(err.error, LocalErrKind::NotFound);
    assert_eq!(err.code, 404);
    let err = login(&jwt, login_body("nobody", "secret123"), None).unwrap_err();
    assert_eq!(err.code, 404);
}

#[test]
fn login_with_wrong_password_is_unauthorized() {
    let jwt = service();
    let err = login_at(&jwt, login_body("alice", "secret124"), Some(alice()), NOW).unwrap_err();
    assert_eq!(err.error, LocalErrKind::Unauthorized);
    assert_eq!(err.code, 401);
    assert!(err.msg.is_none());
}

#[test]
fn login_against_a_broken_hash_is_an_internal_error() {
    let jwt = service();
    let mut user = alice();
    user.password_hash = Password(String::from("broken"));
    let err = login_at(&jwt, login_body("alice", "secret123"), Some(user), NOW).unwrap_err();
    assert_eq!(err.error, LocalErrKind::Code500);
    assert_eq!(err.code, 500);
}

#[test]
fn login_opens_a_session() {
    let jwt = service();
    let mut user = alice();
    user.avatar = Some(String::from("alice.png"));
    let (cookie, body) = login_at(&jwt, login_body("alice@example.com", "secret123"), Some(user), NOW).unwrap();
    assert_eq!(body.username, "alice");
    assert_eq!(body.email, "alice@example.com");
    assert_eq!(body.avatar.as_deref(), Some("alice.png"));
    let token = body.token.expect("a token");
    assert!(!token.is_empty());
    let claims = jwt.validate_access_token_at(&token, NOW).unwrap();
    assert_eq!((claims.user_id, claims.version, claims.iat, claims.exp), (ALICE_ID, ALICE_V, NOW, NOW + 3600));
    assert_eq!(cookie.name, "refresh_token");
    assert!(cookie.http_only);
    assert!(cookie.secure);
    assert_eq!(cookie.same_site, SameSite::Unrestricted);
    assert_eq!(cookie.path, "/");
    assert_eq!(cookie.domain, "example.com");
    assert_eq!(cookie.expires, NOW + 72 * 3600);
    let refresh = jwt.validate_refresh_token_at(&cookie.value, NOW).unwrap();
    assert_eq!(refresh.exp, cookie.expires);
    assert_eq!((refresh.user_id, refresh.version), (ALICE_ID, ALICE_V));
}

#[test]
fn session_cannot_open_past_the_end_of_time() {
    let jwt = service();
    let err = open_session_at(&jwt, alice(), u64::MAX - 3600).unwrap_err();
    assert_eq!(err.error, LocalErrKind::Code500);
    assert_eq!(err.code, 500);
}

#[test]
fn clock_based_login_and_session() {
    let jwt = service();
    let (cookie, body) = login(&jwt, login_body("alice", "secret123"), Some(alice())).unwrap();
    assert!(jwt.validate_access_token(&body.token.unwrap()).is_ok());
    assert!(jwt.validate_refresh_token(&cookie.value).is_ok());
    let (cookie, body) = open_session(&jwt, alice()).unwrap();
    assert_eq!(body.username, "alice");
    let refreshed = refresh_access_token(&jwt, Some(&cookie.value)).unwrap();
    assert_eq!(jwt.validate_access_token(&refreshed.token).unwrap().user_id, ALICE_ID);
    assert_eq!(refresh_access_token(&jwt, None).unwrap_err().code, 401);
}

#[test]
fn profile_of_found_user_has_no_token() {
    let mut user = alice();
    user.avatar = Some(String::from("a.png"));
    let body = get_user_profile(Some(user)).unwrap();
    assert_eq!(body.username, "alice");
    assert_eq!(body.email, "alice@example.com");
    assert_eq!(body.avatar.as_deref(), Some("a.png"));
    assert!(body.token.is_none());
}

#[test]
fn profile_of_missing_user_is_not_found() {
    let err = get_user_profile(None).unwrap_err();
    assert_eq!(err.error, LocalErrKind::NotFound);
    assert_eq!(err.code, 404);
}

#[test]
fn refresh_without_cookie_is_unauthorized() {
    let jwt = service();
    let err = refresh_access_token_at(&jwt, None, NOW).unwrap_err();
    assert_eq!(err.error, LocalErrKind::Unauthorized);
    assert_eq!(err.code, 401);
}

#[test]
fn refresh_with_expired_token_is_unauthorized() {
    let jwt = service();
    let cookie = jwt.generate_refresh_token_at(ALICE_ID, ALICE_V, NOW).unwrap();
    assert!(refresh_access_token_at(&jwt, Some(&cookie.value), cookie.expires - 1).is_ok());
    let err = refresh_access_token_at(&jwt, Some(&cookie.value), cookie.expires).unwrap_err();
    assert_eq!(err.error, LocalErrKind::Unauthorized);
    assert_eq!(err.code, 401);
}

#[test]
fn refresh_with_access_token_is_unauthorized() {
    let jwt = service();
    let access = jwt.generate_access_token_at(ALICE_ID, ALICE_V, NOW).unwrap();
    let err = refresh_access_token_at(&jwt, Some(&access), NOW).unwrap_err();
    assert_eq!(err.error, LocalErrKind::Unauthorized);
    assert_eq!(err.code, 401);
}

#[test]
fn refresh_issues_an_access_token_for_the_same_user() {
    let jwt = service();
    let cookie = jwt.generate_refresh_token_at(ALICE_ID, ALICE_V, NOW).unwrap();
    let response = refresh_access_token_at(&jwt, Some(&cookie.value), NOW + 5000).unwrap();
    let claims = jwt.validate_access_token_at(&response.token, NOW + 5000).unwrap();
    assert_eq!(claims.user_id, ALICE_ID);
    assert_eq!(claims.version, ALICE_V);
    assert_eq!(claims.iat, NOW + 5000);
    assert_eq!(claims.exp, NOW + 5000 + 3600);
}

#[test]
fn register_then_profile_then_refresh() {
    let jwt = service();
    let draft = register(register_body("alice", "alice@example.com", "secret123"), &None).unwrap();
    let user = stored(draft);
    let (c1, body) = open_session_at(&jwt, user.clone(), NOW).unwrap();
    assert_eq!(body.username, "alice");
    assert_eq!(body.email, "alice@example.com");
    let t1 = body.token.expect("a token");

    let header = format!("Bearer {}", t1);
    let id = UserId::from_request_parts_at(Some(&header), &jwt, NOW + 1).unwrap();
    assert_eq!(id.0, user.id);
    assert!(user.has_id(id.0));
    let profile = get_user_profile(Some(user.clone())).unwrap();
    assert_eq!(profile.username, "alice");
    assert!(profile.token.is_none());

    let t2 = refresh_access_token_at(&jwt, Some(&c1.value), NOW + 2).unwrap().token;
    assert_ne!(t1, t2);
    assert!(jwt.validate_access_token_at(&t1, NOW + 3599).is_ok());
    assert!(jwt.validate_access_token_at(&t1, NOW + 3600).is_err());
    assert!(jwt.validate_access_token_at(&t2, NOW + 3601).is_ok());
    assert!(jwt.validate_access_token_at(&t2, NOW + 3602).is_err());
}

#[test]
fn lookup_rules_skip_inactive_users() {
    let mut user = alice();
    assert!(user.matches_credential(&String::from("alice")));
    assert!(user.matches_credential(&String::from("alice@example.com")));
    assert!(!user.matches_credential(&String::from("Alice")));
    assert!(user.conflicts_with(&String::from("alice@example.com"), &String::from("other")));
    assert!(user.conflicts_with(&String::from("other@example.com"), &String::from("alice")));
    assert!(!user.conflicts_with(&String::from("other@example.com"), &String::from("other")));
    assert!(user.has_id(ALICE_ID));
    assert!(!user.has_id(ALICE_ID + 1));
    user.is_active = false;
    assert!(!user.matches_credential(&String::from("alice")));
    assert!(!user.conflicts_with(&String::from("alice@example.com"), &String::from("alice")));
    assert!(!user.has_id(ALICE_ID));
}

#[test]
fn version_is_renewed_on_updates_of_email_or_password() {
    assert!(version_bump_due(false, true, false));
    assert!(version_bump_due(false, false, true));
    assert!(version_bump_due(false, true, true));
    assert!(!version_bump_due(false, false, false));
    assert!(!version_bump_due(true, true, true));
    assert!(!version_bump_due(true, false, false));
}

#[test]
fn default_sex_is_other() {
    assert_eq!(UserSex::default(), UserSex::Other);
}

#[test]
fn string_limit_counts_bytes() {
    assert!(StringWithLimit::<5>::new(String::from("hello")).is_some());
    assert!(StringWithLimit::<5>::new(String::from("hello!")).is_none());
    assert!(StringWithLimit::<0>::new(String::new()).is_some());
    assert!(StringWithLimit::<3>::new(String::from("\u{e9}\u{e9}")).is_none());
    assert!(StringWithLimit::<4>::new(String::from("\u{e9}\u{e9}")).is_some());
    assert_eq!(StringWithLimit::<50>::new(String::from("alice")).unwrap().0, "alice");
}
