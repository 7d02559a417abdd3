//! Authentication and authorization core for a small multi-tenant SaaS
//! backend: password hashing and verification, stateless signed session
//! tokens (issue, validate, expiry), a request-authorization gate that
//! derives an authenticated principal from an inbound request, and the
//! signup/login flows that tie them together over a user store.

pub mod accounts;
pub mod auth;
pub mod config;
pub mod error;
pub mod middleware;
pub mod response;
pub mod store;
pub mod stripe;
pub mod strutil;
pub mod validation;
pub mod webhook;
