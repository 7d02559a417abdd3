//! The signup and login flows and the authenticated profile lookup,
//! run against the user store and the token service.

use vstd::prelude::*;

use crate::auth::AuthService;
use crate::auth::TOKEN_LIFETIME_SECONDS;
use crate::auth::bcrypt_verify_of;
use crate::auth::jwt_payload_of;
use crate::auth::jwt_token_of;
use crate::error::ApiError;
use crate::store::UserRecord;
use crate::store::UserStore;
use crate::store::has_email;
use crate::store::has_id;
use crate::validation::check_email;
use crate::validation::check_password;
use crate::validation::valid_email;
use crate::validation::valid_password;

verus! {

/// The body of a signup request.
#[derive(Debug, Clone)]
pub struct SignupRequest {
    pub email: String,
    pub password: String,
    pub name: Option<String>,
}

/// The body of a login request.
#[derive(Debug, Clone)]
pub struct LoginRequest {
    pub email: String,
    pub password: String,
}

/// The public view of a user: the password digest is never echoed.
#[derive(Debug, Clone)]
pub struct UserResponse {
    pub id: String,
    pub email: String,
    pub name: Option<String>,
}

/// What signup and login hand back: a fresh token and the public view
/// of the user.
#[derive(Debug, Clone)]
pub struct AuthResponse {
    pub token: String,
    pub user: UserResponse,
}

/// A structurally acceptable signup request.
pub open spec fn signup_valid(request: SignupRequest) -> bool {
    valid_email(request.email@) && valid_password(request.password@)
}

/// A structurally acceptable login request.
pub open spec fn login_valid(request: LoginRequest) -> bool {
    valid_email(request.email@)
}

/// The inputs on which login is denied: no row carries the email, or
/// the row that does has no stored digest, or its digest does not
/// match the password — a malformed stored digest counts as
/// does-not-match.
pub open spec fn login_denied(rows: Seq<UserRecord>, email: Seq<char>, password: Seq<char>) -> bool {
    ||| !has_email(rows, email)
    ||| exists|i: int|
        0 <= i < rows.len() && (#[trigger] rows[i].email)@ == email && (rows[i].password_hash
            is None || bcrypt_verify_of(password, rows[i].password_hash->0@) != Some(true))
}

/// The inputs on which login is owed success: the row carrying the
/// email holds a digest that matches the password.
pub open spec fn login_accepted(rows: Seq<UserRecord>, email: Seq<char>, password: Seq<char>) -> bool {
    exists|i: int|
        0 <= i < rows.len() && (#[trigger] rows[i].email)@ == email && rows[i].password_hash
            is Some && bcrypt_verify_of(password, rows[i].password_hash->0@) == Some(true)
}

/// The one deliberately generic rejection every denied login produces,
/// chosen so that an unknown email and a wrong password cannot be told
/// apart by the caller.
pub open spec fn login_denial_error(e: ApiError) -> bool {
    e is Unauthorized && e.spec_detail() == "Invalid email or password"@
}

/// Structural validation of a signup request: a well-formed email and a
/// password of at least eight characters.
pub fn validate_signup_request(request: &SignupRequest) -> (r: Result<(), ApiError>)
    ensures
        r is Ok <==> signup_valid(*request),
        !valid_email(request.email@) ==> r is Err && r->Err_0 is ValidationError
            && r->Err_0.spec_detail() == "Invalid email address"@,
        valid_email(request.email@) && !valid_password(request.password@) ==> r is Err
            && r->Err_0 is ValidationError && r->Err_0.spec_detail()
            == "Password must be at least 8 characters"@,
{
    if !check_email(request.email.as_str()) {
        return Err(ApiError::ValidationError("Invalid email address".to_owned()));
    }
    if !check_password(request.password.as_str()) {
        return Err(
            ApiError::ValidationError("Password must be at least 8 characters".to_owned()),
        );
    }
    Ok(())
}

/// Structural validation of a login request: a well-formed email.
pub fn validate_login_request(request: &LoginRequest) -> (r: Result<(), ApiError>)
    ensures
        r is Ok <==> login_valid(*request),
        r is Err ==> r->Err_0 is ValidationError && r->Err_0.spec_detail()
            == "Invalid email address"@,
{
    if !check_email(request.email.as_str()) {
        return Err(ApiError::ValidationError("Invalid email address".to_owned()));
    }
    Ok(())
}

fn clone_opt_string(o: &Option<String>) -> (r: Option<String>)
    ensures
        r.deep_view() == o.deep_view(),
{
    match o {
        Some(s) => Some(s.clone()),
        None => None,
    }
}

/// Signs a new user up: rejects a malformed request, rejects an email
/// already present with a Conflict while leaving the store unchanged,
/// and otherwise hashes the password, persists exactly one new row, and
/// issues a token over the fresh subject and the email.
pub fn signup(
    store: &mut UserStore,
    auth: &AuthService,
    request: &SignupRequest,
    now: i64,
) -> (r: Result<AuthResponse, ApiError>)
    requires
        old(store).wf(),
        now <= i64::MAX - TOKEN_LIFETIME_SECONDS,
    ensures
        final(store).wf(),
        r is Err ==> final(store)@ == old(store)@,
        !signup_valid(*request) ==> r is Err && r->Err_0 is ValidationError,
        signup_valid(*request) && has_email(old(store)@, request.email@) ==> r is Err && r->Err_0
            is Conflict && r->Err_0.spec_detail() == "Email already registered"@,
        signup_valid(*request) && !has_email(old(store)@, request.email@) && r is Err ==> r->Err_0
            is InternalServerError,
        r is Ok ==> final(store)@ == old(store)@.push(final(store)@.last()),
        r is Ok ==> final(store)@.len() == old(store)@.len() + 1,
        r is Ok ==> final(store)@.last().email@ == request.email@,
        r is Ok ==> final(store)@.last().name.deep_view() == request.name.deep_view(),
        r is Ok ==> final(store)@.last().password_hash is Some,
        r is Ok ==> bcrypt_verify_of(request.password@, final(store)@.last().password_hash->0@)
            == Some(true),
        r is Ok ==> final(store)@.last().created_at == now && final(store)@.last().updated_at
            == now,
        r is Ok ==> r->Ok_0.user.id@ == final(store)@.last().id@,
        r is Ok ==> r->Ok_0.user.email@ == request.email@,
        r is Ok ==> r->Ok_0.user.name.deep_view() == request.name.deep_view(),
        r is Ok ==> r->Ok_0.token@ == jwt_token_of(
            auth.secret(),
            final(store)@.last().id@,
            request.email@,
            now as int,
            now + TOKEN_LIFETIME_SECONDS,
        ),
        r is Ok ==> jwt_payload_of(auth.secret(), r->Ok_0.token@) == Some(
            (final(store)@.last().id@, request.email@, now as int, now + TOKEN_LIFETIME_SECONDS),
        ),
{
    if let Err(e) = validate_signup_request(request) {
        return Err(e);
    }
    if store.find_by_email(request.email.as_str()).is_some() {
        return Err(ApiError::Conflict("Email already registered".to_owned()));
    }
    let password_hash = match auth.hash_password(request.password.as_str()) {
        Ok(h) => h,
        Err(e) => return Err(e),
    };
    let user_id = auth.generate_user_id();
    let token = match auth.generate_token_at(user_id.as_str(), request.email.as_str(), now) {
        Ok(t) => t,
        Err(e) => return Err(e),
    };
    let row = UserRecord {
        id: user_id.clone(),
        email: request.email.clone(),
        name: clone_opt_string(&request.name),
        password_hash: Some(password_hash),
        created_at: now,
        updated_at: now,
    };
    match store.insert(row) {
        Ok(_) => {},
        Err(e) => {
            return Err(e);
        },
    }
    Ok(
        AuthResponse {
            token,
            user: UserResponse {
                id: user_id,
                email: request.email.clone(),
                name: clone_opt_string(&request.name),
            },
        },
    )
}

/// Logs an existing user in. An unknown email, a row without a stored
/// digest and a wrong or unparseable digest all produce the one
/// generic rejection; a matching digest owes a fresh token over the
/// stored subject.
pub fn login(store: &UserStore, auth: &AuthService, request: &LoginRequest, now: i64) -> (r:
    Result<AuthResponse, ApiError>)
    requires
        store.wf(),
        now <= i64::MAX - TOKEN_LIFETIME_SECONDS,
    ensures
        !login_valid(*request) ==> r is Err && r->Err_0 is ValidationError,
        login_valid(*request) ==> (r is Ok <==> login_accepted(
            store@,
            request.email@,
            request.password@,
        )),
        login_valid(*request) && login_denied(store@, request.email@, request.password@) ==> r
            is Err && login_denial_error(r->Err_0),
        r is Err ==> r->Err_0 is ValidationError || r->Err_0 is Unauthorized,
        r is Ok ==> exists|i: int|
            #![trigger store@[i]]
            (0 <= i < store@.len() && store@[i].email@ == request.email@ && r->Ok_0.user.id@
                == store@[i].id@ && r->Ok_0.user.email@ == store@[i].email@
                && r->Ok_0.user.name.deep_view() == store@[i].name.deep_view()
                && store@[i].password_hash is Some && bcrypt_verify_of(
                request.password@,
                store@[i].password_hash->0@,
            ) == Some(true) && r->Ok_0.token@ == jwt_token_of(
                auth.secret(),
                store@[i].id@,
                store@[i].email@,
                now as int,
                now + TOKEN_LIFETIME_SECONDS,
            ) && jwt_payload_of(auth.secret(), r->Ok_0.token@) == Some(
                (store@[i].id@, store@[i].email@, now as int, now + TOKEN_LIFETIME_SECONDS),
            )),
{
    if let Err(e) = validate_login_request(request) {
        return Err(e);
    }
    let user = match store.find_by_email(request.email.as_str()) {
        Some(u) => u,
        None => {
            return Err(ApiError::Unauthorized("Invalid email or password".to_owned()));
        },
    };
    proof {
        let i = choose|i: int|
            0 <= i < store@.len() && store@[i] == *user && user.email@ == request.email@;
        assert forall|j: int|
            0 <= j < store@.len() && (#[trigger] store@[j].email)@ == request.email@ implies store@[j]
            == store@[i] by {
            if j < i {
                assert(store@[j].email@ != store@[i].email@);
            }
            if i < j {
                assert(store@[i].email@ != store@[j].email@);
            }
        }
    }
    let hash = match &user.password_hash {
        Some(h) => h,
        None => {
            return Err(ApiError::Unauthorized("Invalid email or password".to_owned()));
        },
    };
    match auth.verify_password(request.password.as_str(), hash.as_str()) {
        Ok(true) => {},
        Ok(false) => {
            return Err(ApiError::Unauthorized("Invalid email or password".to_owned()));
        },
        Err(e) => {
            return Err(e);
        },
    }
    let token = match auth.generate_token_at(user.id.as_str(), user.email.as_str(), now) {
        Ok(t) => t,
        Err(e) => return Err(e),
    };
    Ok(
        AuthResponse {
            token,
            user: UserResponse {
                id: user.id.clone(),
                email: user.email.clone(),
                name: clone_opt_string(&user.name),
            },
        },
    )
}

/// Returns the public view of the user a validated subject refers to.
pub fn me(store: &UserStore, user_id: &str) -> (r: Result<UserResponse, ApiError>)
    ensures
        has_id(store@, user_id@) ==> r is Ok && exists|i: int|
            #![trigger store@[i]]
            (0 <= i < store@.len() && store@[i].id@ == user_id@ && r->Ok_0.id@ == user_id@
                && r->Ok_0.email@ == store@[i].email@ && r->Ok_0.name.deep_view()
                == store@[i].name.deep_view()),
        !has_id(store@, user_id@) ==> r is Err && r->Err_0 is NotFound && r->Err_0.spec_detail()
            == "User not found"@,
{
    match store.find_by_id(user_id) {
        Some(u) => Ok(
            UserResponse {
                id: u.id.clone(),
                email: u.email.clone(),
                name: clone_opt_string(&u.name),
            },
        ),
        None => Err(ApiError::NotFound("User not found".to_owned())),
    }
}

/// Law: any two denied logins are indistinguishable to the caller —
/// same status code, same machine-readable tag, same generic message —
/// whether the email was unknown or the password wrong.
pub proof fn lemma_login_denials_indistinguishable(e1: ApiError, e2: ApiError)
    requires
        login_denial_error(e1),
        login_denial_error(e2),
    ensures
        e1.spec_status_code() == e2.spec_status_code(),
        e1.spec_error_tag() == e2.spec_error_tag(),
        e1.spec_detail() == e2.spec_detail(),
{
}

} // verus!
