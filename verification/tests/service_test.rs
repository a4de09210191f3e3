//! Services and helpers: slugs, parsing, configuration, errors,
//! passwords, claims and rate limiting.

use query_core::auth::{
    apply_user_update, authenticate_user, bearer_token, ensure_email_available,
    ensure_email_free_for_registration, hash_password, make_claims, require_user, verify_password,
    Sub,
};
use query_core::config::{Config, EnvValues};
use query_core::errors::{classify_db_error, ApiError, DbErrorKind, ErrorResponse};
use query_core::helpers::{
    format_datetime, get_image_type, new_uuid_string, now_unix, slugify, ImageFormat, MimeKind,
};
use query_core::ratelimit::{client_identifier, rate_limit_decide, RateLimitInfo, RateLimiterConfig};
use query_core::strutil::{parse_u16_or, parse_u32_or, parse_u64, u64_to_string};
use query_core::users::{User, UserResponse};

#[test]
fn test_slugify() {
    assert_eq!(slugify("Hello World"), "hello-world");
    assert_eq!(slugify("Hello, World!"), "hello-world");
    assert_eq!(slugify("a--b"), "a-b");
    assert_eq!(slugify("-a-"), "a");
    assert_eq!(slugify(""), "");
    assert_eq!(slugify("Rust 2021 Edition"), "rust-2021-edition");
    assert_eq!(slugify("  spaced  out  "), "spaced-out");
}

#[test]
fn test_decimal_rendering() {
    assert_eq!(u64_to_string(0), "0");
    assert_eq!(u64_to_string(7), "7");
    assert_eq!(u64_to_string(12034), "12034");
    assert_eq!(u64_to_string(u64::MAX), "18446744073709551615");
}

#[test]
fn test_decimal_parsing() {
    assert_eq!(parse_u64("123"), Some(123));
    assert_eq!(parse_u64("+5"), Some(5));
    assert_eq!(parse_u64("0"), Some(0));
    assert_eq!(parse_u64(""), None);
    assert_eq!(parse_u64("+"), None);
    assert_eq!(parse_u64("12a"), None);
    assert_eq!(parse_u64("-3"), None);
    assert_eq!(parse_u64("18446744073709551615"), Some(u64::MAX));
    assert_eq!(parse_u64("18446744073709551616"), None);
    assert_eq!(parse_u16_or("8080", 1), 8080);
    assert_eq!(parse_u16_or("70000", 9), 9);
    assert_eq!(parse_u32_or("junk", 42), 42);
}

#[test]
fn test_config_from_env_values() {
    let vals = EnvValues {
        server_host: None,
        server_port: Some("8080".to_string()),
        environment: None,
        database_max_connections: Some("not a number".to_string()),
        database_acquire_timeout: None,
        database_idle_timeout: None,
        database_max_lifetime: None,
        database_url: Some("postgres://localhost/app".to_string()),
        jwt_secret: Some("SECRET-REDACTED".to_string()),
        jwt_expiration: None,
        jwt_refresh_secret: Some("SECRET-REDACTED".to_string()),
        jwt_refresh_expiration: Some("3600".to_string()),
    };
    let config = Config::from_env_values(vals);
    assert_eq!(config.server.host, "127.0.0.1");
    assert_eq!(config.server.port, 8080);
    assert_eq!(config.server.environment, "development");
    assert_eq!(config.database.max_connections, 100);
    assert_eq!(config.database.acquire_timeout, 3);
    assert_eq!(config.database.idle_timeout, 600);
    assert_eq!(config.database.max_lifetime, 1800);
    assert_eq!(config.database.url, "postgres://localhost/app");
    assert_eq!(config.jwt.expiration, 86400);
    assert_eq!(config.jwt.refresh_expiration, 3600);
}

#[test]
fn test_error_status_and_text() {
    assert_eq!(ApiError::Authentication("x".to_string()).status_code(), 401);
    assert_eq!(ApiError::Authorization("x".to_string()).status_code(), 403);
    assert_eq!(ApiError::BadRequest("x".to_string()).status_code(), 400);
    assert_eq!(ApiError::NotFound("x".to_string()).status_code(), 404);
    assert_eq!(ApiError::Conflict("x".to_string()).status_code(), 409);
    assert_eq!(ApiError::InternalServer("x".to_string()).status_code(), 500);
    assert_eq!(ApiError::Database("x".to_string()).status_code(), 500);
    assert_eq!(ApiError::Serialization("x".to_string()).status_code(), 500);
    assert_eq!(ApiError::InvalidColumn("x".to_string()).status_code(), 400);
    assert_eq!(ApiError::InvalidQuery("x".to_string()).status_code(), 400);
    let rate = ApiError::RateLimitExceeded {
        client_id: "ip:1.2.3.4".to_string(),
        max_requests: 100,
        window_secs: 60,
    };
    assert_eq!(rate.status_code(), 429);
    assert_eq!(
        ApiError::InvalidColumn("age".to_string()).describe(),
        "Invalid column name: age"
    );
    assert_eq!(ApiError::NotFound("row".to_string()).describe(), "Resource not found: row");
    let resp = ErrorResponse::from_error(&ApiError::BadRequest("empty".to_string()));
    assert_eq!(resp.status, 400);
    assert_eq!(resp.message, "Validation error: empty");
}

#[test]
fn test_classify_db_error() {
    match classify_db_error(DbErrorKind::RowNotFound) {
        ApiError::NotFound(m) => assert_eq!(m, "Not found"),
        other => panic!("unexpected: {:?}", other),
    }
    match classify_db_error(DbErrorKind::ConstraintViolation) {
        ApiError::Conflict(m) => assert_eq!(m, "Already exists"),
        other => panic!("unexpected: {:?}", other),
    }
    match classify_db_error(DbErrorKind::OtherDatabase) {
        ApiError::InternalServer(m) => assert_eq!(m, "Database error"),
        other => panic!("unexpected: {:?}", other),
    }
}

#[test]
fn test_password_round_trip() {
    let hash = hash_password("correct horse").unwrap();
    assert_eq!(hash.len(), 60);
    assert_eq!(verify_password("correct horse", &hash).unwrap(), true);
    assert_eq!(verify_password("wrong", &hash).unwrap(), false);
    match verify_password("x", "not a bcrypt hash") {
        Err(ApiError::InternalServer(_)) => {}
        other => panic!("unexpected: {:?}", other),
    }
}

#[test]
fn test_make_claims() {
    let sub = Sub { id: "u-1".to_string(), email: "a@b".to_string(), is_admin: Some(false) };
    let claims = make_claims(sub, 1000, 3600);
    assert_eq!(claims.sub, "u-1");
    assert_eq!(claims.user.email, "a@b");
    assert_eq!(claims.iat, 1000);
    assert_eq!(claims.exp, 4600);
}

fn stored_user(password: &str) -> User {
    User {
        id: "u-7".to_string(),
        username: "bob".to_string(),
        email: "bob@example.com".to_string(),
        password_hash: hash_password(password).unwrap(),
        created_at: 0,
        updated_at: 0,
    }
}

#[test]
fn test_require_user() {
    let user = stored_user("pw123");
    let found = require_user(Some(user), "u-7").unwrap();
    assert_eq!(found.id, "u-7");
    match require_user(None, "u-9") {
        Err(ApiError::NotFound(m)) => assert_eq!(m, "Utilisateur avec l'ID u-9 non trouvé"),
        other => panic!("unexpected: {:?}", other),
    }
}

#[test]
fn test_email_availability() {
    assert!(ensure_email_available(None, "new@x").is_ok());
    match ensure_email_available(Some(stored_user("p")), "bob@example.com") {
        Err(ApiError::Conflict(m)) => {
            assert_eq!(m, "Un utilisateur avec l'email bob@example.com existe déjà")
        }
        other => panic!("unexpected: {:?}", other),
    }
    assert!(ensure_email_free_for_registration(None).is_ok());
    match ensure_email_free_for_registration(Some(stored_user("p"))) {
        Err(ApiError::BadRequest(m)) => {
            assert_eq!(m, "Un utilisateur avec cet email existe déjà")
        }
        other => panic!("unexpected: {:?}", other),
    }
}

#[test]
fn test_authenticate_user() {
    let user = stored_user("pw123");
    let ok = authenticate_user(Some(user), "pw123").unwrap();
    assert_eq!(ok.username, "bob");
    let user = stored_user("pw123");
    match authenticate_user(Some(user), "wrong") {
        Err(ApiError::Authentication(m)) => assert_eq!(m, "Email ou mot de passe invalide"),
        other => panic!("unexpected: {:?}", other),
    }
    match authenticate_user(None, "pw123") {
        Err(ApiError::Authentication(m)) => assert_eq!(m, "Email ou mot de passe invalide"),
        other => panic!("unexpected: {:?}", other),
    }
}

#[test]
fn test_apply_user_update() {
    let user = stored_user("old-pass");
    let updated = apply_user_update(
        user,
        Some("robert".to_string()),
        Some("robert@example.com".to_string()),
        None,
        Some("new-pass".to_string()),
    )
    .unwrap();
    assert_eq!(updated.username, "robert");
    assert_eq!(updated.email, "robert@example.com");
    assert_eq!(verify_password("new-pass", &updated.password_hash).unwrap(), true);

    // A taken email belonging to another account is a conflict.
    let user = stored_user("p");
    let mut other = stored_user("q");
    other.id = "u-8".to_string();
    match apply_user_update(user, None, Some("taken@x".to_string()), Some(other), None) {
        Err(ApiError::Conflict(_)) => {}
        other => panic!("unexpected: {:?}", other),
    }

    // The same account holding the email is no conflict.
    let user = stored_user("p");
    let same = stored_user("p");
    let merged = apply_user_update(user, None, Some("bob2@x".to_string()), Some(same), None).unwrap();
    assert_eq!(merged.email, "bob2@x");
}

#[test]
fn test_bearer_token() {
    assert_eq!(bearer_token(Some("Bearer abc.def")).unwrap(), "abc.def");
    match bearer_token(Some("Basic abc")) {
        Err(ApiError::BadRequest(m)) => {
            assert_eq!(m, "Missing or invalid Authorization header")
        }
        other => panic!("unexpected: {:?}", other),
    }
    assert!(bearer_token(Some("Bear")).is_err());
    assert!(bearer_token(None).is_err());
}

#[test]
fn test_rate_limit_decide() {
    let config = RateLimiterConfig::default();
    assert_eq!(config.max_requests, 100);
    assert_eq!(config.window_secs, 60);
    // A fresh client opens a window.
    let (allowed, info) = rate_limit_decide(None, 1000, &config);
    assert!(allowed);
    assert_eq!(info, RateLimitInfo { count: 1, window_start: 1000 });
    // Within budget the count grows.
    let (allowed, info) = rate_limit_decide(Some(info), 1010, &config);
    assert!(allowed);
    assert_eq!(info, RateLimitInfo { count: 2, window_start: 1000 });
    // Over budget the request is refused, state unchanged.
    let full = RateLimitInfo { count: 100, window_start: 1000 };
    let (allowed, kept) = rate_limit_decide(Some(full), 1030, &config);
    assert!(!allowed);
    assert_eq!(kept, full);
    // An expired window resets.
    let (allowed, reset) = rate_limit_decide(Some(full), 1060, &config);
    assert!(allowed);
    assert_eq!(reset, RateLimitInfo { count: 1, window_start: 1060 });
}

#[test]
fn test_client_identifier() {
    assert_eq!(client_identifier(Some("team-a"), Some("1.2.3.4")), "header:team-a");
    assert_eq!(client_identifier(None, Some("1.2.3.4:55")), "ip:1.2.3.4:55");
    assert_eq!(client_identifier(None, None), "ip:unknown");
}

#[test]
fn test_user_new_and_response() {
    let user = User::new("alice".to_string(), "a@x".to_string(), "hash".to_string());
    assert_eq!(user.id.len(), 36);
    assert_eq!(user.created_at, user.updated_at);
    assert_eq!(user.username, "alice");
    let shown = UserResponse::from_user(User {
        id: "u-1".to_string(),
        username: "alice".to_string(),
        email: "a@x".to_string(),
        password_hash: "h".to_string(),
        created_at: 0,
        updated_at: 1_000_000_000,
    });
    assert_eq!(shown.created_at, "1970-01-01T00:00:00+00:00");
    assert_eq!(shown.updated_at, "2001-09-09T01:46:40+00:00");
    assert_eq!(format_datetime(0), "1970-01-01T00:00:00+00:00");
}

#[test]
fn test_get_image_type() {
    assert_eq!(get_image_type(Some(MimeKind::Png)), Some(ImageFormat::Png));
    assert_eq!(get_image_type(Some(MimeKind::Jpeg)), Some(ImageFormat::Jpeg));
    assert_eq!(get_image_type(Some(MimeKind::Gif)), Some(ImageFormat::Gif));
    assert_eq!(get_image_type(Some(MimeKind::Other)), None);
    assert_eq!(get_image_type(None), None);
}

#[test]
fn test_clock_and_ids() {
    assert!(now_unix() > 0);
    let a = new_uuid_string();
    let b = new_uuid_string();
    assert_eq!(a.len(), 36);
    assert_ne!(a, b);
}
