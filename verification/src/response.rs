//! Plain response envelopes handed to the transport layer.

use vstd::prelude::*;

verus! {

/// A successful operation that carries only a message.
#[derive(Debug, Clone)]
pub struct MessageResponse {
    pub success: bool,
    pub message: String,
}

/// Wraps a message in the success envelope.
pub fn message_response(message: String) -> (r: MessageResponse)
    ensures
        r.success,
        r.message@ == message@,
{
    MessageResponse { success: true, message }
}

/// The health-check body: the service status and what the database
/// probe reported.
#[derive(Debug, Clone)]
pub struct HealthResponse {
    pub status: String,
    pub database: String,
}

/// Builds the health-check body around the database probe's report.
pub fn health_response(database: String) -> (r: HealthResponse)
    ensures
        r.status@ == "ok"@,
        r.database@ == database@,
{
    HealthResponse { status: "ok".to_owned(), database }
}

} // verus!
