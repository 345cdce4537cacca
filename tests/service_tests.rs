use auth_core::config::{load_config, Config, ConfigError};
use auth_core::error::ApiError;
use auth_core::hasher::{hash_password, verify_password, MIN_COST};
use auth_core::model::{LoginRequest, RegisterRequest, Role};
use auth_core::registry::Registry;
use auth_core::service::{
    admin_dashboard, admin_route, authenticate, complete_login, register_into, user_profile,
    validate_registration, AppState,
};
use auth_core::token::{issue_token, Claims};

fn config() -> Config {
    Config {
        jwt_salt: "pepper".to_string(),
        jwt_secret: "s3cret".to_string(),
        jwt_expiration: "3600".to_string(),
    }
}

fn register_request(first: &str, last: &str, email: &str, password: &str) -> RegisterRequest {
    RegisterRequest {
        first_name: first.to_string(),
        last_name: last.to_string(),
        email: email.to_string(),
        password: password.to_string(),
    }
}

fn seeded_state() -> AppState {
    let mut reg = Registry::new();
    let hash = hash_password("adminpassword", MIN_COST).unwrap();
    reg.insert(
        "admin@example.com".to_string(),
        "Admin".to_string(),
        "User".to_string(),
        hash,
        Role::Admin,
    )
    .unwrap();
    AppState::with_hash_cost(config(), reg, MIN_COST)
}

fn bearer(token: &str) -> String {
    format!("Bearer {}", token)
}

#[test]
fn password_hash_round_trip() {
    let h = hash_password("pw123", MIN_COST).unwrap();
    assert_ne!(h, "pw123");
    assert!(verify_password("pw123", &h));
    assert!(!verify_password("pw124", &h));
    let h2 = hash_password("other", MIN_COST).unwrap();
    assert!(!verify_password("pw123", &h2));
}

#[test]
fn malformed_hash_never_matches() {
    assert!(!verify_password("pw123", "not a hash"));
    assert!(!verify_password("pw123", ""));
}

#[test]
fn cost_out_of_range_gives_no_hash() {
    assert!(hash_password("pw", 3).is_none());
    assert!(hash_password("pw", 32).is_none());
}

#[test]
fn register_alice_then_duplicate() {
    let state = AppState::with_hash_cost(config(), Registry::new(), MIN_COST);
    let r = state.register(register_request("alice", "doe", "alice@x.com", "pw123")).unwrap();
    assert_eq!(r.id, 1);
    assert_eq!(r.first_name, "alice");
    assert_eq!(r.last_name, "doe");
    assert_eq!(r.email, "alice@x.com");
    let again = state.register(register_request("alice", "doe", "alice@x.com", "other"));
    assert_eq!(again.unwrap_err(), ApiError::DuplicateEmail);
    assert_eq!(ApiError::DuplicateEmail.status(), 409);
}

#[test]
fn register_into_stores_hash_not_password() {
    let mut reg = Registry::new();
    let r = register_into(&mut reg, register_request("a", "b", "a@x.com", "pw"), "HASH".to_string())
        .unwrap();
    assert_eq!(r.id, 1);
    let u = reg.find_by_email("a@x.com").unwrap();
    assert_eq!(u.password, "HASH");
    assert_eq!(u.role, Role::User);
}

#[test]
fn empty_registration_field_is_rejected() {
    assert_eq!(
        validate_registration(&register_request("", "doe", "a@x.com", "pw")),
        Err(ApiError::Validation)
    );
    assert_eq!(validate_registration(&register_request("a", "doe", "a@x.com", "pw")), Ok(()));
    let state = AppState::with_hash_cost(config(), Registry::new(), MIN_COST);
    let r = state.register(register_request("a", "b", "c@x.com", ""));
    let bad_cost = AppState::with_hash_cost(config(), Registry::new(), 3);
    let e = bad_cost.register(register_request("a", "b", "c@x.com", "pw")).unwrap_err();
    assert_eq!(e, ApiError::Internal);
    assert_eq!(r.unwrap_err(), ApiError::Validation);
    assert_eq!(ApiError::Validation.status(), 400);
}

#[test]
fn two_handles_register_one_email() {
    let state = AppState::with_hash_cost(config(), Registry::new(), MIN_COST);
    let s1 = state.clone();
    let s2 = state.clone();
    let r1 = s1.register(register_request("a", "b", "same@x.com", "p1"));
    let r2 = s2.register(register_request("c", "d", "same@x.com", "p2"));
    assert_eq!(r1.is_ok() as u32 + r2.is_ok() as u32, 1);
    let err = if r1.is_err() { r1.unwrap_err() } else { r2.unwrap_err() };
    assert_eq!(err, ApiError::DuplicateEmail);
}

#[test]
fn wrong_password_is_generic_failure() {
    let state = seeded_state();
    let wrong = LoginRequest { email: "admin@example.com".to_string(), password: "nope".to_string() };
    let unknown = LoginRequest { email: "ghost@example.com".to_string(), password: "nope".to_string() };
    let e1 = state.login(&wrong, 100).unwrap_err();
    let e2 = state.login(&unknown, 100).unwrap_err();
    assert_eq!(e1, ApiError::AuthenticationFailure);
    assert_eq!(e1, e2);
    assert_eq!(e1.message(), e2.message());
    assert_eq!(e1.status(), 401);
}

#[test]
fn admin_login_reaches_admin_endpoints() {
    let state = seeded_state();
    let req = LoginRequest {
        email: "admin@example.com".to_string(),
        password: "adminpassword".to_string(),
    };
    let token = state.login(&req, 100).unwrap().token;
    let header = bearer(&token);
    let claims = state.authenticate(Some(&header), 200).unwrap();
    assert_eq!(claims.sub, "admin@example.com");
    assert_eq!(claims.role, Role::Admin);
    assert_eq!(claims.exp, 3700);
    let d = state.dashboard(&claims).unwrap();
    assert_eq!(d.user_count, 1);
    assert_eq!(d.users[0].email, "admin@example.com");
    let user = state.resolve(&claims).unwrap();
    assert_eq!(admin_route(&user).unwrap().id, 1);
    let demoted = Claims { sub: claims.sub.clone(), role: Role::User, exp: claims.exp };
    let e = state.dashboard(&demoted).unwrap_err();
    assert_eq!(e, ApiError::AuthorizationFailure(Role::Admin));
    assert_eq!(e.message(), "Admin access required");
}

#[test]
fn user_token_at_admin_endpoint_is_forbidden() {
    let state = seeded_state();
    state.register(register_request("bob", "b", "bob@x.com", "pw")).unwrap();
    let req = LoginRequest { email: "bob@x.com".to_string(), password: "pw".to_string() };
    let token = state.login(&req, 100).unwrap().token;
    let claims = state.authenticate(Some(&bearer(&token)), 100).unwrap();
    let e = state.dashboard(&claims).unwrap_err();
    assert_eq!(e, ApiError::AuthorizationFailure(Role::Admin));
    assert_eq!(e.message(), "Admin access required");
    assert_eq!(e.status(), 403);
    let user = state.resolve(&claims).unwrap();
    assert_eq!(admin_route(&user).unwrap_err(), ApiError::AuthorizationFailure(Role::Admin));
    let profile = state.profile(&claims).unwrap();
    assert_eq!(profile.email, "bob@x.com");
    assert_eq!(profile.id, 2);
}

#[test]
fn missing_malformed_and_expired_tokens_are_unauthorized() {
    let cfg = config();
    assert_eq!(authenticate(None, &cfg, 0).unwrap_err(), ApiError::AuthenticationFailure);
    assert_eq!(authenticate(Some("Bearer xyz"), &cfg, 0).unwrap_err(), ApiError::AuthenticationFailure);
    let t = issue_token("a@x.com", Role::User, 0, 10, "s3cret", "pepper");
    assert_eq!(authenticate(Some(&t), &cfg, 0).unwrap_err(), ApiError::AuthenticationFailure);
    assert!(authenticate(Some(&bearer(&t)), &cfg, 9).is_ok());
    let e = authenticate(Some(&bearer(&t)), &cfg, 10).unwrap_err();
    assert_eq!(e, ApiError::AuthenticationFailure);
    assert_eq!(e.status(), 401);
}

#[test]
fn profile_of_vanished_user_is_not_found() {
    let reg = Registry::new();
    let claims = Claims { sub: "gone@x.com".to_string(), role: Role::User, exp: 10 };
    let e = user_profile(&claims, &reg).unwrap_err();
    assert_eq!(e, ApiError::NotFound);
    assert_eq!(e.status(), 404);
    assert_eq!(e.message(), "User not found");
    let admin = Claims { sub: "gone@x.com".to_string(), role: Role::Admin, exp: 10 };
    let e = user_profile(&admin, &reg).unwrap_err();
    assert_eq!(e, ApiError::AuthorizationFailure(Role::User));
    assert_eq!(e.message(), "User access required");
    assert_eq!(e.status(), 403);
    assert_eq!(admin_dashboard(&admin, &reg).unwrap().user_count, 0);
}

#[test]
fn login_without_account_or_with_bad_lifetime() {
    let req = LoginRequest { email: "a@x.com".to_string(), password: "pw".to_string() };
    assert_eq!(complete_login(None, &req, &config(), 0).unwrap_err(), ApiError::AuthenticationFailure);
    let mut reg = Registry::new();
    let h = hash_password("pw", MIN_COST).unwrap();
    reg.insert("a@x.com".to_string(), "A".to_string(), "B".to_string(), h, Role::User).unwrap();
    let mut bad = config();
    bad.jwt_expiration = "soon".to_string();
    let found = reg.find_by_email("a@x.com");
    assert_eq!(complete_login(found, &req, &bad, 0).unwrap_err(), ApiError::Internal);
}

#[test]
fn config_requires_every_setting() {
    let s = || Some("x".to_string());
    assert_eq!(load_config(None, s(), s()).unwrap_err(), ConfigError::MissingSalt);
    assert_eq!(load_config(s(), None, s()).unwrap_err(), ConfigError::MissingSecret);
    assert_eq!(load_config(s(), s(), None).unwrap_err(), ConfigError::MissingExpiration);
    assert_eq!(load_config(s(), s(), Some("1h".to_string())).unwrap_err(), ConfigError::InvalidExpiration);
    let c = load_config(s(), s(), Some("3600".to_string())).unwrap();
    assert_eq!(c.expiration_seconds(), Some(3600));
}

#[test]
fn role_names_and_statuses() {
    assert_eq!(Role::Admin.name(), "Admin");
    assert_eq!(Role::User.name(), "User");
    assert_eq!(ApiError::Internal.status(), 500);
}
