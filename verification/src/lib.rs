//! Gateway core: OAuth2 Authorization Code flow with PKCE, a typed session
//! state machine, and an idempotent per-user container orchestrator.
//!
//! The library holds the decision logic of the gateway: generation and
//! verification of anti-forgery and proof-of-possession material, promotion of
//! a verified identity into the session, and the planning and result handling
//! of the container create/start/inspect sequence. Network and process I/O is
//! performed by the surrounding application, which hands plain values in and
//! takes plain values back.

use vstd::prelude::*;

pub mod env;
pub mod oauth;
pub mod orchestrator;
pub mod secret;
pub mod session;
pub mod strutil;

verus! {

/// Session key under which the resolved login identity is stored by the
/// surrounding application.
pub const LOGIN_SESSION_KEY: &'static str = "vscode-session";

/// The reply a handler hands to the HTTP boundary. Redirects are the normal
/// success and soft-failure signal; hard failures carry a generic body.
pub enum HttpReply {
    Redirect(String),
    BadRequest,
    Forbidden,
    InternalError(String),
}

/// Internal error carried to the HTTP boundary: a status code and a message
/// body. The message deliberately never carries runtime internals or secrets.
pub struct Error {
    pub status_code: u16,
    pub message: String,
}

/// Builds the generic internal error: status 500 with a fixed operator-facing
/// message, withholding all internal detail from the response body.
pub fn err() -> (r: Error)
    ensures
        r.status_code == 500,
        r.message@ == "Please contact admin"@,
{
    Error { status_code: 500, message: String::from_str("Please contact admin") }
}

} // verus!
