//! The request-authorization gate: extracts a bearer token from the
//! authorization header, validates it, and binds the validated subject
//! to the request for downstream handlers. Authentication either
//! succeeds and the request proceeds, or it is rejected immediately.

use vstd::prelude::*;
use vstd::string::StrSliceExecFns;

use crate::auth::AuthService;
use crate::auth::jwt_payload_of;
use crate::auth::validate_spec;
use crate::error::ApiError;

verus! {

/// A header value in bearer format: the literal prefix `Bearer ` —
/// case-sensitive, single space — followed by the token.
pub open spec fn bearer_format(h: Seq<char>) -> bool {
    h.len() >= 7 && h.subrange(0, 7) == "Bearer "@
}

/// The token part of a bearer-formatted header value.
pub open spec fn bearer_token(h: Seq<char>) -> Seq<char> {
    h.subrange(7, h.len() as int)
}

/// What the authorization gate yields for a given secret, authorization
/// header and clock instant: the validated subject when the header is a
/// bearer-formatted token that validates, nothing otherwise.
pub open spec fn gate_outcome(secret: Seq<char>, header: Option<Seq<char>>, now: int) -> Option<
    Seq<char>,
> {
    match header {
        None => None,
        Some(h) => if !bearer_format(h) {
            None
        } else {
            match validate_spec(secret, bearer_token(h), now) {
                Some(p) => Some(p.0),
                None => None,
            }
        },
    }
}

/// Splits a bearer-formatted header value into its token part.
pub fn parse_bearer<'a>(h: &'a str) -> (r: Option<&'a str>)
    ensures
        bearer_format(h@) ==> r is Some && r->0@ == bearer_token(h@),
        !bearer_format(h@) ==> r is None,
{
    proof {
        reveal_strlit("Bearer ");
    }
    let n = h.unicode_len();
    if n < 7 {
        return None;
    }
    let prefix = "Bearer ";
    let mut i: usize = 0;
    while i < 7
        invariant
            n == h@.len(),
            n >= 7,
            i <= 7,
            prefix@ == "Bearer "@,
            "Bearer "@.len() == 7,
            forall|j: int| 0 <= j < i ==> h@[j] == "Bearer "@[j],
        decreases 7 - i,
    {
        proof {
            reveal_strlit("Bearer ");
        }
        if h.get_char(i) != prefix.get_char(i) {
            assert(h@.subrange(0, 7)[i as int] == h@[i as int]);
            return None;
        }
        i = i + 1;
    }
    assert(h@.subrange(0, 7) =~= "Bearer "@);
    Some(h.substring_char(7, n))
}

/// Reads the authorization header value: absence and a non-bearer format
/// are rejected with distinct reasons, and a bearer value yields the
/// token after the prefix.
pub fn extract_bearer_token<'a>(header: Option<&'a str>) -> (r: Result<&'a str, ApiError>)
    ensures
        header is None ==> r is Err && r->Err_0 is Unauthorized && r->Err_0.spec_detail()
            == "Missing authorization header"@,
        header is Some && !bearer_format(header->0@) ==> r is Err && r->Err_0 is Unauthorized
            && r->Err_0.spec_detail() == "Invalid authorization format"@,
        header is Some && bearer_format(header->0@) ==> r is Ok && r->Ok_0@ == bearer_token(
            header->0@,
        ),
{
    match header {
        None => Err(ApiError::Unauthorized("Missing authorization header".to_owned())),
        Some(h) => match parse_bearer(h) {
            Some(t) => Ok(t),
            None => Err(ApiError::Unauthorized("Invalid authorization format".to_owned())),
        },
    }
}

/// The single-pass authorization gate at instant `now`: a missing
/// header, a non-bearer header and an invalid or expired token are all
/// rejected as Unauthorized — so no downstream handler can run with an
/// unauthenticated request — and a valid token yields its subject.
pub fn authorize_request_at(auth: &AuthService, header: Option<&str>, now: i64) -> (r: Result<
    String,
    ApiError,
>)
    ensures
        r is Err ==> r->Err_0 is Unauthorized,
        r is Ok <==> gate_outcome(auth.secret(), header.deep_view(), now as int) is Some,
        r is Ok ==> r->Ok_0@ == gate_outcome(
            auth.secret(),
            header.deep_view(),
            now as int,
        )->Some_0,
        header is None ==> r is Err && r->Err_0.spec_detail() == "Missing authorization header"@,
        header is Some && !bearer_format(header->0@) ==> r is Err && r->Err_0.spec_detail()
            == "Invalid authorization format"@,
        header is Some && bearer_format(header->0@) && jwt_payload_of(
            auth.secret(),
            bearer_token(header->0@),
        ) is None ==> r is Err && r->Err_0.spec_detail() == "Invalid token"@,
        header is Some && bearer_format(header->0@) && jwt_payload_of(
            auth.secret(),
            bearer_token(header->0@),
        ) is Some && validate_spec(auth.secret(), bearer_token(header->0@), now as int)
            is None ==> r is Err && r->Err_0.spec_detail() == "Token expired"@,
{
    let token = match extract_bearer_token(header) {
        Ok(t) => t,
        Err(e) => return Err(e),
    };
    match auth.validate_token_at(token, now) {
        Ok(c) => Ok(c.sub),
        Err(e) => Err(e),
    }
}

/// The authorization gate at the current wall-clock instant.
pub fn authorize_request(auth: &AuthService, header: Option<&str>) -> (r: Result<
    String,
    ApiError,
>)
    ensures
        r is Err ==> r->Err_0 is Unauthorized,
        header is None ==> r is Err && r->Err_0.spec_detail() == "Missing authorization header"@,
        header is Some && !bearer_format(header->0@) ==> r is Err && r->Err_0.spec_detail()
            == "Invalid authorization format"@,
        header is Some && bearer_format(header->0@) && r is Ok ==> jwt_payload_of(
            auth.secret(),
            bearer_token(header->0@),
        ) is Some && r->Ok_0@ == jwt_payload_of(
            auth.secret(),
            bearer_token(header->0@),
        )->Some_0.0,
{
    let token = match extract_bearer_token(header) {
        Ok(t) => t,
        Err(e) => return Err(e),
    };
    match auth.validate_token(token) {
        Ok(c) => Ok(c.sub),
        Err(e) => Err(e),
    }
}

/// The ephemeral, request-scoped binding of a validated subject to the
/// in-flight request: starts empty, holds the subject once
/// authorization succeeds, and is dropped at request end.
pub struct RequestContext {
    user_id: Option<String>,
}

impl RequestContext {
    /// The subject bound to the request, if any.
    pub closed spec fn bound(&self) -> Option<Seq<char>> {
        match self.user_id {
            Some(u) => Some(u@),
            None => None,
        }
    }

    /// A context on which no authentication has run.
    pub fn new() -> (c: Self)
        ensures
            c.bound() is None,
    {
        RequestContext { user_id: None }
    }

    /// Binds the validated subject for downstream handlers.
    pub fn bind_user(&mut self, user_id: String)
        ensures
            final(self).bound() == Some(user_id@),
    {
        self.user_id = Some(user_id);
    }
}

/// Retrieves the subject bound during authorization; fails closed on a
/// request that never passed it, so a handler on a route that skips
/// the interceptor cannot see an identity.
pub fn get_user_id_from_request(ctx: &RequestContext) -> (r: Result<String, ApiError>)
    ensures
        ctx.bound() is Some ==> r is Ok && r->Ok_0@ == ctx.bound()->0,
        ctx.bound() is None ==> r is Err && r->Err_0 is Unauthorized && r->Err_0.spec_detail()
            == "User not authenticated"@,
{
    match &ctx.user_id {
        Some(u) => Ok(u.clone()),
        None => Err(ApiError::Unauthorized("User not authenticated".to_owned())),
    }
}

} // verus!
