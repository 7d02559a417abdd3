use authcore::accounts::LoginRequest;
use authcore::accounts::SignupRequest;
use authcore::accounts::login;
use authcore::accounts::me;
use authcore::accounts::signup;
use authcore::auth::AuthService;
use authcore::error::ApiError;
use authcore::middleware::RequestContext;
use authcore::middleware::authorize_request_at;
use authcore::middleware::extract_bearer_token;
use authcore::middleware::get_user_id_from_request;
use authcore::store::UserRecord;
use authcore::store::UserStore;

const NOW: i64 = 1_700_000_000;

fn new_signup(email: &str, password: &str) -> SignupRequest {
    SignupRequest { email: email.to_string(), password: password.to_string(), name: None }
}

#[test]
fn signup_rejects_malformed_requests() {
    let auth = AuthService::new("flow_secret".to_string());
    let mut store = UserStore::new();

    let bad_email = signup(&mut store, &auth, &new_signup("not-an-email", "longenough1"), NOW);
    match bad_email {
        Err(e) => {
            assert_eq!(e.status_code(), 422);
            assert_eq!(e.detail(), "Invalid email address");
        }
        Ok(_) => panic!("a malformed email must be rejected"),
    }

    let bad_password = signup(&mut store, &auth, &new_signup("a@x.com", "short"), NOW);
    match bad_password {
        Err(e) => {
            assert_eq!(e.status_code(), 422);
            assert_eq!(e.detail(), "Password must be at least 8 characters");
        }
        Ok(_) => panic!("a short password must be rejected"),
    }
    assert_eq!(store.len(), 0);
}

#[test]
fn duplicate_signup_conflicts_and_adds_no_row() {
    let auth = AuthService::new("flow_secret".to_string());
    let mut store = UserStore::new();

    let first = signup(&mut store, &auth, &new_signup("dup@x.com", "longenough1"), NOW);
    assert!(first.is_ok());
    assert_eq!(store.len(), 1);

    let second = signup(&mut store, &auth, &new_signup("dup@x.com", "otherpass99"), NOW);
    match second {
        Err(e) => {
            assert_eq!(e.status_code(), 409);
            assert_eq!(e.error_tag(), "CONFLICT");
            assert_eq!(e.detail(), "Email already registered");
        }
        Ok(_) => panic!("a duplicate email must conflict"),
    }
    assert_eq!(store.len(), 1);
}

#[test]
fn login_rejections_are_indistinguishable() {
    let auth = AuthService::new("flow_secret".to_string());
    let mut store = UserStore::new();
    signup(&mut store, &auth, &new_signup("known@x.com", "longenough1"), NOW).unwrap();

    let unknown_email = login(
        &store,
        &auth,
        &LoginRequest { email: "nobody@x.com".to_string(), password: "longenough1".to_string() },
        NOW,
    );
    let wrong_password = login(
        &store,
        &auth,
        &LoginRequest { email: "known@x.com".to_string(), password: "wrongpass99".to_string() },
        NOW,
    );
    match (unknown_email, wrong_password) {
        (Err(e1), Err(e2)) => {
            assert_eq!(e1.status_code(), e2.status_code());
            assert_eq!(e1.status_code(), 401);
            assert_eq!(e1.error_tag(), e2.error_tag());
            assert_eq!(e1.detail(), e2.detail());
            assert_eq!(e1.detail(), "Invalid email or password");
        }
        _ => panic!("both logins must be denied"),
    }
}

#[test]
fn login_without_stored_digest_is_denied() {
    let auth = AuthService::new("flow_secret".to_string());
    let mut store = UserStore::new();
    store
        .insert(UserRecord {
            id: "user_manual".to_string(),
            email: "nopass@x.com".to_string(),
            name: None,
            password_hash: None,
            created_at: NOW,
            updated_at: NOW,
        })
        .unwrap();

    let r = login(
        &store,
        &auth,
        &LoginRequest { email: "nopass@x.com".to_string(), password: "longenough1".to_string() },
        NOW,
    );
    match r {
        Err(e) => {
            assert_eq!(e.status_code(), 401);
            assert_eq!(e.detail(), "Invalid email or password");
        }
        Ok(_) => panic!("a user without a digest must not log in"),
    }
}

#[test]
fn login_returns_token_for_right_password() {
    let auth = AuthService::new("flow_secret".to_string());
    let mut store = UserStore::new();
    let signed_up =
        signup(&mut store, &auth, &new_signup("right@x.com", "longenough1"), NOW).unwrap();

    let r = login(
        &store,
        &auth,
        &LoginRequest { email: "right@x.com".to_string(), password: "longenough1".to_string() },
        NOW,
    )
    .unwrap();
    assert_eq!(r.user.id, signed_up.user.id);
    assert_eq!(r.user.email, "right@x.com");
    let claims = auth.validate_token_at(&r.token, NOW).unwrap();
    assert_eq!(claims.sub, signed_up.user.id);
    assert_eq!(claims.email, "right@x.com");
}

#[test]
fn missing_header_is_rejected_before_any_handler() {
    let auth = AuthService::new("gate_secret".to_string());
    let r = authorize_request_at(&auth, None, NOW);
    match r {
        Err(e) => {
            assert_eq!(e.status_code(), 401);
            assert_eq!(e.detail(), "Missing authorization header");
        }
        Ok(_) => panic!("a request without a header must be rejected"),
    }
}

#[test]
fn basic_auth_is_rejected_as_invalid_format() {
    let auth = AuthService::new("gate_secret".to_string());
    let r = authorize_request_at(&auth, Some("Basic abc"), NOW);
    match r {
        Err(e) => {
            assert_eq!(e.status_code(), 401);
            assert_eq!(e.detail(), "Invalid authorization format");
            assert_ne!(e.detail(), "Missing authorization header");
        }
        Ok(_) => panic!("a non-bearer header must be rejected"),
    }
}

#[test]
fn bearer_extraction_returns_the_token_part() {
    let r = extract_bearer_token(Some("Bearer abc.def.ghi")).unwrap();
    assert_eq!(r, "abc.def.ghi");

    assert!(extract_bearer_token(Some("bearer abc")).is_err());
    assert!(extract_bearer_token(Some("Bearer")).is_err());
    assert!(extract_bearer_token(None).is_err());
}

#[test]
fn unbound_context_fails_closed() {
    let ctx = RequestContext::new();
    match get_user_id_from_request(&ctx) {
        Err(e) => {
            assert_eq!(e.status_code(), 401);
            assert_eq!(e.detail(), "User not authenticated");
        }
        Ok(_) => panic!("an unbound context must not yield an identity"),
    }

    let mut bound = RequestContext::new();
    bound.bind_user("user_bound".to_string());
    assert_eq!(get_user_id_from_request(&bound).unwrap(), "user_bound");
}

#[test]
fn signup_token_drives_identity_lookup_end_to_end() {
    let auth = AuthService::new("e2e_secret".to_string());
    let mut store = UserStore::new();

    let response =
        signup(&mut store, &auth, &new_signup("a@x.com", "longenough1"), NOW).unwrap();
    assert!(!response.token.is_empty());

    let header = format!("Bearer {}", response.token);
    let user_id = authorize_request_at(&auth, Some(&header), NOW).unwrap();
    assert_eq!(user_id, response.user.id);

    let profile = me(&store, &user_id).unwrap();
    assert_eq!(profile.id, response.user.id);
    assert_eq!(profile.email, "a@x.com");

    let replay = signup(&mut store, &auth, &new_signup("a@x.com", "longenough1"), NOW);
    match replay {
        Err(e) => assert_eq!(e.status_code(), 409),
        Ok(_) => panic!("replaying the signup must conflict"),
    }
    assert_eq!(store.len(), 1);
}

#[test]
fn me_reports_not_found_for_unknown_subject() {
    let store = UserStore::new();
    match me(&store, "user_missing") {
        Err(e) => {
            assert_eq!(e.status_code(), 404);
            assert_eq!(e.detail(), "User not found");
        }
        Ok(_) => panic!("an unknown subject must be NotFound"),
    }
}

#[test]
fn store_lookups_and_conflict() {
    let mut store = UserStore::new();
    let row = UserRecord {
        id: "user_1".to_string(),
        email: "one@x.com".to_string(),
        name: Some("One".to_string()),
        password_hash: None,
        created_at: NOW,
        updated_at: NOW,
    };
    store.insert(row).unwrap();

    assert!(store.find_by_email("one@x.com").is_some());
    assert!(store.find_by_email("two@x.com").is_none());
    assert!(store.find_by_id("user_1").is_some());
    assert!(store.find_by_id("user_2").is_none());

    let dup = store.insert(UserRecord {
        id: "user_2".to_string(),
        email: "one@x.com".to_string(),
        name: None,
        password_hash: None,
        created_at: NOW,
        updated_at: NOW,
    });
    assert!(matches!(dup, Err(ApiError::Conflict(_))));
    assert_eq!(store.len(), 1);
}

#[test]
fn gate_reports_expired_and_invalid_tokens() {
    let auth = AuthService::new("gate_secret".to_string());
    let token = auth.generate_token_at("user_x", "x@x.com", NOW).unwrap();
    let header = format!("Bearer {}", token);

    let late = NOW + authcore::auth::TOKEN_LIFETIME_SECONDS;
    match authorize_request_at(&auth, Some(&header), late) {
        Err(e) => assert_eq!(e.detail(), "Token expired"),
        Ok(_) => panic!("an expired token must be rejected at authorization"),
    }

    match authorize_request_at(&auth, Some("Bearer not.a.token"), NOW) {
        Err(e) => assert_eq!(e.detail(), "Invalid token"),
        Ok(_) => panic!("a malformed token must be rejected at authorization"),
    }
}

#[test]
fn login_with_corrupted_digest_is_denied_generically() {
    let auth = AuthService::new("flow_secret".to_string());
    let mut store = UserStore::new();
    store
        .insert(UserRecord {
            id: "user_corrupt".to_string(),
            email: "corrupt@x.com".to_string(),
            name: None,
            password_hash: Some("not a bcrypt digest".to_string()),
            created_at: NOW,
            updated_at: NOW,
        })
        .unwrap();

    let r = login(
        &store,
        &auth,
        &LoginRequest { email: "corrupt@x.com".to_string(), password: "longenough1".to_string() },
        NOW,
    );
    match r {
        Err(e) => {
            assert_eq!(e.status_code(), 401);
            assert_eq!(e.detail(), "Invalid email or password");
        }
        Ok(_) => panic!("a corrupted stored digest must deny the login"),
    }
}
