use authcore::auth::AuthService;
use authcore::auth::TOKEN_LIFETIME_SECONDS;
use authcore::error::ApiError;

#[test]
fn token_issuance_is_deterministic() {
    let service = AuthService::new("determinism_secret".to_string());
    let now: i64 = 1_700_000_000;
    let first = service.generate_token_at("user_d", "d@x.com", now).unwrap();
    let second = service.generate_token_at("user_d", "d@x.com", now).unwrap();
    assert_eq!(first, second);
}

#[test]
fn test_password_hashing() {
    let service = AuthService::new("test_secret".to_string());
    let password = "my_secure_password";

    let hash = service.hash_password(password).unwrap();
    assert!(service.verify_password(password, &hash).unwrap());
    assert!(!service.verify_password("wrong_password", &hash).unwrap());
}

#[test]
fn test_jwt_token() {
    let service = AuthService::new("test_secret".to_string());
    let user_id = "user_123";
    let email = "test@example.com";

    let token = service.generate_token(user_id, email).unwrap();
    let claims = service.validate_token(&token).unwrap();

    assert_eq!(claims.sub, user_id);
    assert_eq!(claims.email, email);
}

#[test]
fn hash_is_not_the_password() {
    let service = AuthService::new("s".to_string());
    let hash = service.hash_password("longenough1").unwrap();
    assert_ne!(hash, "longenough1");
    assert_eq!(hash.len(), 60);
}

#[test]
fn malformed_digest_does_not_match() {
    let service = AuthService::new("s".to_string());
    let r = service.verify_password("anything", "not a bcrypt digest");
    assert_eq!(r.unwrap(), false);
}

#[test]
fn token_round_trip_pins_instants() {
    let service = AuthService::new("round_trip_secret".to_string());
    let now: i64 = 1_700_000_000;
    let token = service.generate_token_at("user_42", "a@x.com", now).unwrap();
    let claims = service.validate_token_at(&token, now).unwrap();
    assert_eq!(claims.sub, "user_42");
    assert_eq!(claims.email, "a@x.com");
    assert_eq!(claims.iat, now);
    assert_eq!(claims.exp, now + TOKEN_LIFETIME_SECONDS);
}

#[test]
fn token_is_not_the_subject() {
    let service = AuthService::new("round_trip_secret".to_string());
    let token = service.generate_token_at("user_42", "a@x.com", 1_700_000_000).unwrap();
    assert_ne!(token, "user_42");
    assert_eq!(token.matches('.').count(), 2);
}

#[test]
fn expired_token_is_rejected() {
    let service = AuthService::new("expiry_secret".to_string());
    let now: i64 = 1_700_000_000;
    let token = service.generate_token_at("user_9", "e@x.com", now).unwrap();

    let still_valid = service.validate_token_at(&token, now + TOKEN_LIFETIME_SECONDS - 1);
    assert!(still_valid.is_ok());

    let at_expiry = service.validate_token_at(&token, now + TOKEN_LIFETIME_SECONDS);
    match at_expiry {
        Err(e) => {
            assert_eq!(e.status_code(), 401);
            assert_eq!(e.detail(), "Token expired");
        }
        Ok(_) => panic!("an expired token must not validate"),
    }
}

#[test]
fn wrong_secret_is_rejected() {
    let issuer = AuthService::new("secret_one".to_string());
    let validator = AuthService::new("secret_two".to_string());
    let now: i64 = 1_700_000_000;
    let token = issuer.generate_token_at("user_7", "w@x.com", now).unwrap();
    match validator.validate_token_at(&token, now) {
        Err(e) => {
            assert_eq!(e.status_code(), 401);
            assert_eq!(e.error_tag(), "UNAUTHORIZED");
            assert_eq!(e.detail(), "Invalid token");
        }
        Ok(_) => panic!("a token signed under another secret must not validate"),
    }
}

#[test]
fn garbage_token_is_rejected() {
    let service = AuthService::new("any_secret".to_string());
    let r = service.validate_token_at("no.real.token", 1_700_000_000);
    assert!(matches!(r, Err(ApiError::Unauthorized(_))));
}

#[test]
fn generated_user_ids_are_tagged_and_fresh() {
    let service = AuthService::new("s".to_string());
    let a = service.generate_user_id();
    let b = service.generate_user_id();
    assert_eq!(a.len(), 41);
    assert!(a.starts_with("user_"));
    assert_ne!(a, b);
}
