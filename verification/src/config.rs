//! The startup configuration: built once, read-only thereafter. The
//! constructor refuses a missing signing secret rather than falling
//! back to an insecure default.

use vstd::prelude::*;

use crate::error::ApiError;

verus! {

/// Process configuration, supplied at startup.
#[derive(Debug, Clone)]
pub struct Config {
    pub database_url: String,
    pub jwt_secret: String,
    pub google_client_id: String,
    pub google_client_secret: String,
    pub stripe_secret_key: String,
    pub stripe_webhook_secret: String,
    pub anthropic_api_key: String,
    pub resend_api_key: String,
    pub frontend_url: String,
    pub port: u16,
}

impl Config {
    /// Assembles the configuration, failing fast when the signing
    /// secret is absent.
    pub fn new(
        database_url: String,
        jwt_secret: String,
        google_client_id: String,
        google_client_secret: String,
        stripe_secret_key: String,
        stripe_webhook_secret: String,
        anthropic_api_key: String,
        resend_api_key: String,
        frontend_url: String,
        port: u16,
    ) -> (r: Result<Config, ApiError>)
        ensures
            r is Ok <==> jwt_secret@.len() > 0,
            r is Ok ==> r->Ok_0.jwt_secret@ == jwt_secret@ && r->Ok_0.database_url@
                == database_url@ && r->Ok_0.frontend_url@ == frontend_url@ && r->Ok_0.port == port,
            r is Err ==> r->Err_0 is InternalServerError,
    {
        if jwt_secret.as_str().is_empty() {
            return Err(ApiError::InternalServerError("Signing secret is not set".to_owned()));
        }
        Ok(
            Config {
                database_url,
                jwt_secret,
                google_client_id,
                google_client_secret,
                stripe_secret_key,
                stripe_webhook_secret,
                anthropic_api_key,
                resend_api_key,
                frontend_url,
                port,
            },
        )
    }
}

} // verus!
