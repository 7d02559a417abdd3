//! Credential hashing and the stateless token service.
//!
//! Passwords are hashed with bcrypt and checked with its constant-time
//! verifier. Session tokens are compact signed claim sets (HS256) carrying
//! the subject, the email at issuance, and the issued-at and expiry
//! instants; validation is purely cryptographic plus a clock comparison,
//! with no external store consulted.

use vstd::prelude::*;

use crate::error::ApiError;

verus! {

/// How long an issued token stays valid: thirty days, in seconds.
pub const TOKEN_LIFETIME_SECONDS: i64 = 2592000;

/// The payload embedded in a session token.
#[derive(Debug, Clone)]
pub struct Claims {
    /// Unique user identifier (opaque).
    pub sub: String,
    /// The user's email at time of issuance.
    pub email: String,
    /// Expiry instant, seconds since the Unix epoch.
    pub exp: i64,
    /// Issuance instant, seconds since the Unix epoch.
    pub iat: i64,
}

/// What bcrypt's verifier returns for a password and a stored digest:
/// `Some(b)` when the digest is a well-formed bcrypt string (`b` says
/// whether the password matches), `None` when it is malformed. The
/// outcome is a function of the two arguments alone, since the salt and
/// cost are read back out of the digest itself.
pub uninterp spec fn bcrypt_verify_of(password: Seq<char>, digest: Seq<char>) -> Option<bool>;

/// What decoding a compact signed token with a given secret yields:
/// `Some((subject, email, issued_at, expires_at))` when the token is
/// well-formed and its HS256 signature checks out under the secret,
/// `None` otherwise. Deterministic in the two arguments alone; the
/// built-in expiry check is turned off, so no clock is involved.
pub uninterp spec fn jwt_payload_of(secret: Seq<char>, token: Seq<char>) -> Option<
    (Seq<char>, Seq<char>, int, int),
>;

/// The compact signed token that encoding a claim set under a secret
/// produces. Issuance is deterministic given its inputs: header,
/// payload and HS256 signature hold no per-call randomness, so the
/// same secret and claims always give the same token string.
pub uninterp spec fn jwt_token_of(
    secret: Seq<char>,
    sub: Seq<char>,
    email: Seq<char>,
    iat: int,
    exp: int,
) -> Seq<char>;

/// Relies on bcrypt::hash at the crate's default cost: the digest is a
/// 60-character bcrypt string, and bcrypt::verify re-derives the digest
/// from the salt and cost embedded in it, so a fresh digest always
/// matches the password it was produced from. Fails only when the
/// operating system's randomness source fails.
#[verifier::external_body]
fn bcrypt_hash_digest(password: &str) -> (r: Result<String, ()>)
    ensures
        r matches Ok(h) ==> h@.len() == 60 && bcrypt_verify_of(password@, h@) == Some(true),
{
    bcrypt::hash(password, bcrypt::DEFAULT_COST).map_err(|_| ())
}

/// Relies on bcrypt::verify: deterministic in the password and digest,
/// constant-time on the derived hashes, and errs exactly when the digest
/// is not a well-formed bcrypt string.
#[verifier::external_body]
fn bcrypt_check(password: &str, digest: &str) -> (r: Result<bool, ()>)
    ensures
        r matches Ok(b) ==> bcrypt_verify_of(password@, digest@) == Some(b),
        r is Err ==> bcrypt_verify_of(password@, digest@) is None,
{
    bcrypt::verify(password, digest).map_err(|_| ())
}

/// Relies on jsonwebtoken::encode with the default HS256 header: the
/// produced compact token is a function of the claims and secret alone,
/// and jsonwebtoken::decode under the same secret recovers exactly the
/// four claims signed here. For HS256 with a plain HMAC secret the call
/// cannot fail — the only error paths are an algorithm-family mismatch,
/// which the fixed default header rules out, and HMAC key construction,
/// which accepts a key of any length — so success is promised.
#[verifier::external_body]
fn jwt_encode_hs256(secret: &str, sub: &str, email: &str, iat: i64, exp: i64) -> (r: Result<
    String,
    (),
>)
    ensures
        r is Ok,
        r matches Ok(t) ==> t@ == jwt_token_of(secret@, sub@, email@, iat as int, exp as int),
        r matches Ok(t) ==> jwt_payload_of(secret@, t@) == Some(
            (sub@, email@, iat as int, exp as int),
        ),
{
    let mut claims = serde_json::Map::new();
    claims.insert("sub".to_string(), serde_json::Value::from(sub));
    claims.insert("email".to_string(), serde_json::Value::from(email));
    claims.insert("iat".to_string(), serde_json::Value::from(iat));
    claims.insert("exp".to_string(), serde_json::Value::from(exp));
    let key = jsonwebtoken::EncodingKey::from_secret(secret.as_bytes());
    let header = jsonwebtoken::Header::default();
    jsonwebtoken::encode(&header, &serde_json::Value::Object(claims), &key).map_err(|_| ())
}

/// Relies on jsonwebtoken::decode restricted to HS256, with signature
/// checking on and the built-in expiry check turned off; expiry is
/// compared against the caller's clock in verified code. The outcome is
/// a function of the token and secret alone.
#[verifier::external_body]
fn jwt_decode_hs256(secret: &str, token: &str) -> (r: Option<Claims>)
    ensures
        r matches Some(c) ==> jwt_payload_of(secret@, token@) == Some(
            (c.sub@, c.email@, c.iat as int, c.exp as int),
        ),
        r is None ==> jwt_payload_of(secret@, token@) is None,
{
    let mut validation = jsonwebtoken::Validation::new(jsonwebtoken::Algorithm::HS256);
    validation.validate_exp = false;
    validation.required_spec_claims = std::collections::HashSet::new();
    let key = jsonwebtoken::DecodingKey::from_secret(secret.as_bytes());
    let data = jsonwebtoken::decode::<serde_json::Value>(token, &key, &validation).ok()?;
    let sub = data.claims.get("sub")?.as_str()?.to_string();
    let email = data.claims.get("email")?.as_str()?.to_string();
    let iat = data.claims.get("iat")?.as_i64()?;
    let exp = data.claims.get("exp")?.as_i64()?;
    Some(Claims { sub, email, exp, iat })
}

/// Relies on chrono::Utc::now, read as whole seconds since the Unix
/// epoch. Nothing is assumed about the value returned.
#[verifier::external_body]
fn current_unix_timestamp() -> i64 {
    chrono::Utc::now().timestamp()
}

/// Relies on uuid::Uuid::new_v4: a random version-4 UUID rendered in its
/// 36-character hyphenated form, behind a fixed 5-character tag. Only the
/// shape is assumed; the value is random.
#[verifier::external_body]
fn fresh_user_id() -> (r: String)
    ensures
        r@.len() == 41,
        r@.subrange(0, 5) == "user_"@,
{
    format!("user_{}", uuid::Uuid::new_v4())
}

/// What token validation yields for a given secret, token and clock
/// instant: the embedded claims when the signature checks out and the
/// expiry lies strictly in the future, nothing otherwise.
pub open spec fn validate_spec(secret: Seq<char>, token: Seq<char>, now: int) -> Option<
    (Seq<char>, Seq<char>, int, int),
> {
    match jwt_payload_of(secret, token) {
        Some(p) => if now < p.3 {
            Some(p)
        } else {
            None
        },
        None => None,
    }
}

/// Issues and validates session tokens and handles password credentials.
/// Holds the one configuration secret, immutable after construction.
#[derive(Debug, Clone)]
pub struct AuthService {
    jwt_secret: String,
}

impl AuthService {
    /// The configured signing secret.
    pub closed spec fn secret(&self) -> Seq<char> {
        self.jwt_secret@
    }

    pub fn new(jwt_secret: String) -> (s: Self)
        ensures
            s.secret() == jwt_secret@,
    {
        AuthService { jwt_secret }
    }

    /// Issues a signed token over the subject and email, issued at `now`
    /// and expiring thirty days later. Success is owed: signing with the
    /// configured secret cannot fail, and the same inputs always give
    /// the same token string.
    pub fn generate_token_at(&self, user_id: &str, email: &str, now: i64) -> (r: Result<
        String,
        ApiError,
    >)
        requires
            now <= i64::MAX - TOKEN_LIFETIME_SECONDS,
        ensures
            r is Ok,
            r matches Ok(t) ==> t@ == jwt_token_of(
                self.secret(),
                user_id@,
                email@,
                now as int,
                now + TOKEN_LIFETIME_SECONDS,
            ),
            r matches Ok(t) ==> jwt_payload_of(self.secret(), t@) == Some(
                (user_id@, email@, now as int, now + TOKEN_LIFETIME_SECONDS),
            ),
    {
        let exp = now + TOKEN_LIFETIME_SECONDS;
        match jwt_encode_hs256(self.jwt_secret.as_str(), user_id, email, now, exp) {
            Ok(t) => Ok(t),
            Err(_) => Err(ApiError::InternalServerError("Failed to generate token".to_owned())),
        }
    }

    /// Issues a token at the current wall-clock instant.
    pub fn generate_token(&self, user_id: &str, email: &str) -> (r: Result<String, ApiError>)
        ensures
            r matches Ok(t) ==> jwt_payload_of(self.secret(), t@) matches Some(p) && p.0
                == user_id@ && p.1 == email@ && p.3 == p.2 + TOKEN_LIFETIME_SECONDS,
            r matches Err(e) ==> e is InternalServerError,
    {
        let now = current_unix_timestamp();
        if now > i64::MAX - TOKEN_LIFETIME_SECONDS {
            return Err(ApiError::InternalServerError("Clock out of range".to_owned()));
        }
        self.generate_token_at(user_id, email, now)
    }

    /// Validates a token against the configured secret at instant `now`:
    /// the claims come back exactly when the signature checks out and the
    /// token is not yet expired; every failure is an authorization error.
    pub fn validate_token_at(&self, token: &str, now: i64) -> (r: Result<Claims, ApiError>)
        ensures
            r is Ok <==> validate_spec(self.secret(), token@, now as int) is Some,
            r matches Ok(c) ==> validate_spec(self.secret(), token@, now as int) == Some(
                (c.sub@, c.email@, c.iat as int, c.exp as int),
            ),
            r matches Err(e) ==> e matches ApiError::Unauthorized(m) && (jwt_payload_of(
                self.secret(),
                token@,
            ) is None ==> m@ == "Invalid token"@) && (jwt_payload_of(self.secret(), token@)
                is Some ==> m@ == "Token expired"@),
    {
        match jwt_decode_hs256(self.jwt_secret.as_str(), token) {
            None => Err(ApiError::Unauthorized("Invalid token".to_owned())),
            Some(c) => {
                if now < c.exp {
                    Ok(c)
                } else {
                    Err(ApiError::Unauthorized("Token expired".to_owned()))
                }
            },
        }
    }

    /// Validates a token at the current wall-clock instant.
    pub fn validate_token(&self, token: &str) -> (r: Result<Claims, ApiError>)
        ensures
            r matches Ok(c) ==> jwt_payload_of(self.secret(), token@) == Some(
                (c.sub@, c.email@, c.iat as int, c.exp as int),
            ),
            jwt_payload_of(self.secret(), token@) is None ==> r is Err,
            r matches Err(e) ==> e is Unauthorized,
    {
        let now = current_unix_timestamp();
        self.validate_token_at(token, now)
    }

    /// Hashes a plaintext password into a self-describing salted digest.
    /// Whatever digest comes back verifies against the hashed password.
    pub fn hash_password(&self, password: &str) -> (r: Result<String, ApiError>)
        ensures
            r matches Ok(h) ==> h@.len() == 60 && bcrypt_verify_of(password@, h@) == Some(true),
            r matches Err(e) ==> e is InternalServerError,
    {
        match bcrypt_hash_digest(password) {
            Ok(h) => Ok(h),
            Err(_) => Err(ApiError::InternalServerError("Failed to hash password".to_owned())),
        }
    }

    /// Checks a plaintext password against a stored digest. Any mismatch
    /// is reported as `Ok(false)` — a malformed stored digest included,
    /// which counts as does-not-match rather than a server fault — so
    /// the call always succeeds.
    pub fn verify_password(&self, password: &str, hash: &str) -> (r: Result<bool, ApiError>)
        ensures
            r is Ok,
            r matches Ok(b) ==> b == (bcrypt_verify_of(password@, hash@) == Some(true)),
    {
        match bcrypt_check(password, hash) {
            Ok(b) => Ok(b),
            Err(_) => Ok(false),
        }
    }

    /// Produces a fresh opaque subject identifier: a fixed tag followed
    /// by a random 128-bit value.
    pub fn generate_user_id(&self) -> (r: String)
        ensures
            r@.len() == 41,
            r@.subrange(0, 5) == "user_"@,
    {
        fresh_user_id()
    }
}

/// Law: a token issued over a subject and email validates, at any instant
/// before its expiry, to exactly that subject and email.
pub proof fn lemma_issue_validate_round_trip(
    secret: Seq<char>,
    token: Seq<char>,
    sub: Seq<char>,
    email: Seq<char>,
    iat: int,
    now: int,
)
    requires
        jwt_payload_of(secret, token) == Some((sub, email, iat, iat + TOKEN_LIFETIME_SECONDS)),
        now < iat + TOKEN_LIFETIME_SECONDS,
    ensures
        validate_spec(secret, token, now) == Some(
            (sub, email, iat, iat + TOKEN_LIFETIME_SECONDS),
        ),
{
}

/// Law: a token validated at or after its expiry instant is rejected.
pub proof fn lemma_expired_token_rejected(secret: Seq<char>, token: Seq<char>, now: int)
    requires
        jwt_payload_of(secret, token) matches Some(p) && now >= p.3,
    ensures
        validate_spec(secret, token, now) is None,
{
}

} // verus!
